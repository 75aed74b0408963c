use std::str::FromStr;

use lottery::{check_id, declared_id, greeting_message, initialize, Context, Initialize, ProgramId};

const DECLARED_BASE58: &str = "EVBDA9Xjq37LdSwxj5s3txybtBAXNuveP8EGsisP2D25";

#[test]
fn initialize_succeeds_and_logs_address() {
    let ctx = Context { program_id: declared_id(), accounts: Initialize {} };
    let mut log: Vec<String> = Vec::new();
    let r = initialize(ctx, &mut log);
    assert!(r.is_ok());
    assert_eq!(log.len(), 1);
    assert_eq!(log[0], format!("Greetings from: {}", DECLARED_BASE58));
}

#[test]
fn invoke_twice_observes_identical_empty_state() {
    let mut log: Vec<String> = Vec::new();
    let first = initialize(
        Context { program_id: declared_id(), accounts: Initialize {} },
        &mut log,
    );
    let second = initialize(
        Context { program_id: declared_id(), accounts: Initialize {} },
        &mut log,
    );
    assert!(first.is_ok());
    assert!(second.is_ok());
    assert_eq!(log.len(), 2);
    assert_eq!(log[0], log[1]);
}

#[test]
fn check_id_accepts_the_declared_identity() {
    let declared = declared_id();
    assert!(check_id(&declared));
}

#[test]
fn check_id_rejects_another_address() {
    let other = ProgramId::new([0u8; 32]);
    assert!(!check_id(&other));
    let mut bytes = declared_id().to_bytes();
    bytes[31] ^= 1;
    assert!(!check_id(&ProgramId::new(bytes)));
}

#[test]
fn declared_id_matches_its_base58_text() {
    let from_text = anchor_lang::prelude::Pubkey::from_str(DECLARED_BASE58).unwrap();
    assert_eq!(from_text.to_bytes(), declared_id().to_bytes());
}

#[test]
fn greeting_message_renders_the_declared_address() {
    let line = greeting_message(&declared_id());
    assert_eq!(line, format!("Greetings from: {}", DECLARED_BASE58));
}

#[test]
fn greeting_message_renders_another_address() {
    let line = greeting_message(&ProgramId::new([0u8; 32]));
    assert_eq!(line, "Greetings from: 11111111111111111111111111111111");
}
