use vstd::prelude::*;

verus! {

// ---------------------------------------------------------------------------
// Trusted boundary: the host framework's error type and base58 rendering.
// ---------------------------------------------------------------------------

/// anchor_lang's error type, carried opaquely: the handler never constructs
/// one, but its result type matches what the framework's dispatch expects.
#[verifier::external_type_specification]
#[verifier::external_body]
pub struct ExError(anchor_lang::error::Error);

/// The base58 text of a 32-byte address, as the framework's `Pubkey` renders
/// it. The rendering is a function of the bytes alone.
pub uninterp spec fn base58_of(bytes: Seq<u8>) -> Seq<char>;

/// Relies on anchor_lang's `Pubkey`: `Pubkey::new_from_array` wraps exactly
/// the given 32 bytes, and `Display` writes their base58 text, which depends
/// on the bytes alone.
#[verifier::external_body]
fn base58_encode(bytes: &[u8; 32]) -> (r: String)
    ensures
        r@ == base58_of(bytes@),
{
    anchor_lang::prelude::Pubkey::new_from_array(*bytes).to_string()
}

// ---------------------------------------------------------------------------
// Program identity.
// ---------------------------------------------------------------------------

/// A fixed 32-byte on-chain address, the form in which the host runtime
/// identifies programs and accounts.
pub struct ProgramId {
    bytes: [u8; 32],
}

impl View for ProgramId {
    type V = Seq<u8>;

    closed spec fn view(&self) -> Seq<u8> {
        self.bytes@
    }
}

impl ProgramId {
    /// Wraps the 32 raw bytes of an address.
    pub fn new(bytes: [u8; 32]) -> (r: ProgramId)
        ensures
            r@ == bytes@,
    {
        ProgramId { bytes }
    }

    /// The 32 raw bytes of the address.
    pub fn to_bytes(&self) -> (r: [u8; 32])
        ensures
            r@ == self@,
    {
        self.bytes
    }
}

/// The program's statically declared identity, byte for byte: the address
/// under which the host runtime routes instructions to this program. Its
/// base58 text reads EVBDA9Xjq37LdSwxj5s3txybtBAXNuveP8EGsisP2D25.
pub open spec fn declared_id_bytes() -> Seq<u8> {
    seq![
        200u8, 95u8, 188u8, 155u8, 97u8, 59u8, 206u8, 40u8,
        12u8, 217u8, 244u8, 34u8, 227u8, 90u8, 65u8, 229u8,
        193u8, 233u8, 11u8, 83u8, 152u8, 143u8, 165u8, 79u8,
        82u8, 146u8, 35u8, 39u8, 17u8, 57u8, 218u8, 246u8,
    ]
}

/// Returns the program's declared identity.
pub fn declared_id() -> (r: ProgramId)
    ensures
        r@ == declared_id_bytes(),
{
    let bytes: [u8; 32] = [
        200u8, 95u8, 188u8, 155u8, 97u8, 59u8, 206u8, 40u8,
        12u8, 217u8, 244u8, 34u8, 227u8, 90u8, 65u8, 229u8,
        193u8, 233u8, 11u8, 83u8, 152u8, 143u8, 165u8, 79u8,
        82u8, 146u8, 35u8, 39u8, 17u8, 57u8, 218u8, 246u8,
    ];
    proof {
        assert(bytes@ =~= declared_id_bytes());
    }
    ProgramId::new(bytes)
}

/// True exactly when the given address is the program's declared identity.
pub fn check_id(p: &ProgramId) -> (r: bool)
    ensures
        r == (p@ == declared_id_bytes()),
{
    let declared = declared_id();
    let mut i: usize = 0;
    while i < 32
        invariant
            0 <= i <= 32,
            p@.len() == 32,
            declared@ == declared_id_bytes(),
            forall|j: int| 0 <= j < i ==> p@[j] == declared_id_bytes()[j],
        decreases 32 - i,
    {
        if p.bytes[i] != declared.bytes[i] {
            return false;
        }
        i += 1;
    }
    proof {
        assert(p@ =~= declared_id_bytes());
    }
    true
}

// ---------------------------------------------------------------------------
// The instruction's account set and execution context.
// ---------------------------------------------------------------------------

/// The account-validation descriptor of the `initialize` instruction: it
/// declares no accounts and imposes no constraints.
pub struct Initialize {}

impl Initialize {
    /// The addresses of the accounts this descriptor binds: none.
    pub open spec fn declared_accounts(self) -> Seq<Seq<u8>> {
        Seq::empty()
    }
}

/// What the host runtime hands an instruction handler: the invoking program's
/// address and the validated account set (here empty).
pub struct Context {
    pub program_id: ProgramId,
    pub accounts: Initialize,
}

// ---------------------------------------------------------------------------
// The instruction handler.
// ---------------------------------------------------------------------------

/// The diagnostic line the handler emits: a fixed greeting followed by the
/// base58 text of the invoking program's address.
pub open spec fn greeting_of(id: Seq<u8>) -> Seq<char> {
    "Greetings from: "@ + base58_of(id)
}

/// The handler's entire observable effect on the execution trace: one
/// greeting line appended to the log.
pub open spec fn invoke_log(ctx: Context, log: Seq<Seq<char>>) -> Seq<Seq<char>> {
    log.push(greeting_of(ctx.program_id@))
}

/// Builds the diagnostic line for one invocation by the given program.
pub fn greeting_message(program_id: &ProgramId) -> (r: String)
    ensures
        r@ == greeting_of(program_id@),
{
    let mut line = String::from_str("Greetings from: ");
    let addr = base58_encode(&program_id.bytes);
    line.append(addr.as_str());
    line
}

/// The single instruction of the program. It appends one diagnostic line
/// naming the invoking program to the execution log, touches no account
/// state, and succeeds unconditionally.
pub fn initialize(ctx: Context, log: &mut Vec<String>) -> (r: Result<
    (),
    anchor_lang::error::Error,
>)
    ensures
        r is Ok,
        final(log).deep_view() == invoke_log(ctx, old(log).deep_view()),
{
    let line = greeting_message(&ctx.program_id);
    log.push(line);
    proof {
        assert(log.deep_view() =~= invoke_log(ctx, old(log).deep_view()));
    }
    Ok(())
}

// ---------------------------------------------------------------------------
// Laws.
// ---------------------------------------------------------------------------

/// Every emitted line carries the invoking program's address: past its fixed
/// sixteen-character prefix, the greeting is exactly the base58 text of the
/// address.
pub proof fn lemma_greeting_carries_address(id: Seq<u8>)
    ensures
        greeting_of(id).len() == 16 + base58_of(id).len(),
        greeting_of(id).take(16) == "Greetings from: "@,
        greeting_of(id).skip(16) == base58_of(id),
{
    reveal_strlit("Greetings from: ");
    assert(greeting_of(id).take(16) =~= "Greetings from: "@);
    assert(greeting_of(id).skip(16) =~= base58_of(id));
}

/// Invoking the instruction twice appends the same greeting line twice and
/// has no other observable effect: the instruction declares no accounts, so
/// no account state exists before, between, or after the two runs.
pub proof fn lemma_invoke_twice_stateless(ctx: Context, log: Seq<Seq<char>>)
    ensures
        invoke_log(ctx, invoke_log(ctx, log)) == log + seq![
            greeting_of(ctx.program_id@),
            greeting_of(ctx.program_id@),
        ],
        ctx.accounts.declared_accounts().len() == 0,
{
    assert(invoke_log(ctx, invoke_log(ctx, log)) =~= log + seq![
        greeting_of(ctx.program_id@),
        greeting_of(ctx.program_id@),
    ]);
}

} // verus!
