use vstd::prelude::*;
use solana_sdk::instruction::{AccountMeta, Instruction as LedgerInstruction};
use solana_sdk::pubkey::Pubkey;
use solana_sdk::signature::{Keypair, Signer};
use solana_sdk::transaction::Transaction;
use crate::error::CoreError;
use crate::identity::Identity;
use crate::instruction::{AccountRole, Instruction};

verus! {

#[verifier::external_type_specification]
#[verifier::external_body]
pub struct ExKeypair(Keypair);

#[verifier::external_type_specification]
#[verifier::external_body]
pub struct ExTransaction(Transaction);

/// An opaque, time-bounded reference to recent ledger state.
#[derive(Clone, Copy, Debug, PartialEq, Eq)]
pub struct Blockhash {
    pub bytes: [u8; 32],
}

/// A transaction signed by its fee payer, with the values it was built from.
pub struct SignedTransaction {
    pub fee_payer: Identity,
    pub recent_blockhash: Blockhash,
    pub instructions: Vec<Instruction>,
    pub transaction: Transaction,
}

/// An instruction in the ledger's form: program, then each account with
/// whether it signs and whether it may be written, then the data.
pub type PlainInstruction = (Identity, Vec<(Identity, bool, bool)>, Vec<u8>);

/// The public half of a key pair.
pub uninterp spec fn keypair_public(k: Keypair) -> Seq<u8>;

/// The fee payer of a ledger transaction: the first key of its message.
pub uninterp spec fn ledger_fee_payer(t: Transaction) -> Seq<u8>;

/// The recent blockhash that a ledger transaction's message holds.
pub uninterp spec fn ledger_blockhash(t: Transaction) -> Seq<u8>;

/// The instructions of a ledger transaction's message: for each, the
/// program, the account keys in order, and the data.
pub uninterp spec fn ledger_instructions(t: Transaction) -> Seq<(Seq<u8>, Seq<Seq<u8>>, Seq<u8>)>;

/// The keys whose signatures a ledger transaction requires.
pub uninterp spec fn ledger_signers(t: Transaction) -> Set<Seq<u8>>;

/// The keys whose signature over the current message a ledger transaction
/// holds.
pub uninterp spec fn ledger_signed_by(t: Transaction) -> Set<Seq<u8>>;

/// Whether every signature slot of a ledger transaction still holds the
/// all-zero placeholder, that is, nothing has signed it yet.
pub uninterp spec fn ledger_unsigned(t: Transaction) -> bool;

/// One account of an instruction as the ledger's format holds it: whether it
/// signs, whether it may be written.
pub open spec fn role_flags(role: AccountRole) -> (bool, bool) {
    match role {
        AccountRole::SignerWritable => (true, true),
        AccountRole::Writable => (false, true),
        AccountRole::ReadOnly => (false, false),
    }
}

pub open spec fn plain_view(ix: PlainInstruction) -> (Seq<u8>, Seq<(Seq<u8>, bool, bool)>, Seq<u8>) {
    (ix.0@, ix.1@.map_values(|a: (Identity, bool, bool)| (a.0@, a.1, a.2)), ix.2@)
}

/// An instruction of the library in the ledger's form.
pub open spec fn ledger_form(ix: Instruction) -> (Seq<u8>, Seq<(Seq<u8>, bool, bool)>, Seq<u8>) {
    (
        ix.program@,
        ix.accounts@.map_values(
            |e: crate::instruction::AccountEntry| (e.identity@, role_flags(e.role).0, role_flags(e.role).1),
        ),
        ix.payload@,
    )
}

/// The keys and data of instructions in the ledger's form, without the flags.
pub open spec fn keys_and_data(m: Seq<(Seq<u8>, Seq<(Seq<u8>, bool, bool)>, Seq<u8>)>) -> Seq<
    (Seq<u8>, Seq<Seq<u8>>, Seq<u8>),
> {
    m.map_values(
        |ix: (Seq<u8>, Seq<(Seq<u8>, bool, bool)>, Seq<u8>)| (
            ix.0,
            ix.1.map_values(|a: (Seq<u8>, bool, bool)| a.0),
            ix.2,
        ),
    )
}

/// The keys that must sign a message with these instructions and this payer.
pub open spec fn signer_keys(m: Seq<(Seq<u8>, Seq<(Seq<u8>, bool, bool)>, Seq<u8>)>, payer: Seq<u8>) -> Set<
    Seq<u8>,
> {
    Set::new(
        |k: Seq<u8>|
            k == payer || exists|i: int, j: int|
                0 <= i < m.len() && 0 <= j < m[i].1.len() && m[i].1[j].0 == k && m[i].1[j].1,
    )
}

/// The number of account entries over all instructions, repeats counted.
pub open spec fn entry_count(c: Seq<(Seq<u8>, Seq<Seq<u8>>, Seq<u8>)>) -> nat
    decreases c.len(),
{
    if c.len() == 0 {
        0
    } else {
        entry_count(c.drop_last()) + c.last().1.len()
    }
}

/// Whether a message of these instructions stays within the ledger format:
/// keys (payer, programs and accounts, repeats counted) within a one-byte
/// count, and each instruction's data within a two-byte length.
pub open spec fn fits_message(c: Seq<(Seq<u8>, Seq<Seq<u8>>, Seq<u8>)>) -> bool {
    &&& entry_count(c) + c.len() + 1 <= 255
    &&& forall|i: int| 0 <= i < c.len() ==> #[trigger] c[i].2.len() <= 65535
}

/// Relies on `Transaction::new_with_payer` (through `Message::new`): an
/// unsigned transaction whose message starts with `payer`, requires the
/// signatures of `payer` and of every account marked as signer, and holds
/// each instruction's program, accounts in order, and data; every signature
/// slot holds the placeholder (`new_unsigned`). Compiling the
/// message fails on more than 255 keys of one class, which `fits_message`
/// rules out.
#[verifier::external_body]
fn transaction_with_payer(ixs: &Vec<PlainInstruction>, payer: &Identity) -> (r: Transaction)
    requires
        fits_message(keys_and_data(ixs@.map_values(|ix: PlainInstruction| plain_view(ix)))),
    ensures
        ledger_fee_payer(r) == payer@,
        ledger_instructions(r) == keys_and_data(ixs@.map_values(|ix: PlainInstruction| plain_view(ix))),
        ledger_signers(r) == signer_keys(ixs@.map_values(|ix: PlainInstruction| plain_view(ix)), payer@),
        ledger_unsigned(r),
{
    let ixs: Vec<LedgerInstruction> = ixs.iter().map(|(p, accounts, data)| LedgerInstruction {
        program_id: Pubkey::new_from_array(p.bytes),
        accounts: accounts.iter().map(|(k, s, w)| AccountMeta {
            pubkey: Pubkey::new_from_array(k.bytes),
            is_signer: *s,
            is_writable: *w,
        }).collect(),
        data: data.clone(),
    }).collect();
    Transaction::new_with_payer(&ixs, Some(&Pubkey::new_from_array(payer.bytes)))
}

/// Relies on `Transaction::try_sign`: it sets the blockhash, keeping the rest
/// of the message, and signs the slot of the key pair's key. On a transaction
/// that nothing has signed yet, it succeeds exactly where that key is the one
/// key whose signature the message requires, which is then present (an
/// ed25519 signature is never the all-zero placeholder). Serializing the
/// message fails on data over 65535 bytes, which `fits_message` rules out.
#[verifier::external_body]
fn sign_transaction(tx: &mut Transaction, keypair: &Keypair, blockhash: &Blockhash) -> (r: bool)
    requires
        fits_message(ledger_instructions(*old(tx))),
        ledger_unsigned(*old(tx)),
    ensures
        r == (ledger_signers(*old(tx)) == set![keypair_public(*keypair)]),
        r ==> ledger_blockhash(*final(tx)) == blockhash.bytes@,
        r ==> ledger_fee_payer(*final(tx)) == ledger_fee_payer(*old(tx)),
        r ==> ledger_instructions(*final(tx)) == ledger_instructions(*old(tx)),
        r ==> ledger_signers(*final(tx)) == ledger_signers(*old(tx)),
        r ==> ledger_signed_by(*final(tx)) == ledger_signers(*old(tx)),
{
    tx.try_sign(&[keypair], solana_sdk::hash::Hash::new_from_array(blockhash.bytes)).is_ok()
}

/// Relies on `Signer::pubkey` of `Keypair`: the public half of the pair.
#[verifier::external_body]
fn keypair_identity(keypair: &Keypair) -> (r: Identity)
    ensures
        r@ == keypair_public(*keypair),
{
    Identity { bytes: keypair.pubkey().to_bytes() }
}

impl AccountRole {
    /// Whether an account of this role signs the transaction.
    pub fn is_signer(&self) -> (r: bool)
        ensures
            r == role_flags(*self).0,
    {
        match self {
            AccountRole::SignerWritable => true,
            _ => false,
        }
    }

    /// Whether an account of this role may be written.
    pub fn is_writable(&self) -> (r: bool)
        ensures
            r == role_flags(*self).1,
    {
        match self {
            AccountRole::ReadOnly => false,
            _ => true,
        }
    }
}

fn plain_instruction(ix: &Instruction) -> (r: PlainInstruction)
    ensures
        plain_view(r) == ledger_form(*ix),
{
    let mut out: Vec<(Identity, bool, bool)> = Vec::new();
    let mut i: usize = 0;
    while i < ix.accounts.len()
        invariant
            0 <= i <= ix.accounts@.len(),
            out@.len() == i,
            forall|j: int|
                0 <= j < i ==> out@[j] == (
                    ix.accounts@[j].identity,
                    role_flags(ix.accounts@[j].role).0,
                    role_flags(ix.accounts@[j].role).1,
                ),
        decreases ix.accounts@.len() - i,
    {
        let e = &ix.accounts[i];
        out.push((e.identity, e.role.is_signer(), e.role.is_writable()));
        i = i + 1;
    }
    let r = (ix.program, out, vstd::slice::slice_to_vec(ix.payload.as_slice()));
    assert(plain_view(r).1 =~= ledger_form(*ix).1);
    r
}

/// Whether every account marked as signer in the instructions is `payer`.
pub open spec fn only_payer_signs(ixs: Seq<Instruction>, payer: Seq<u8>) -> bool {
    forall|i: int, j: int|
        0 <= i < ixs.len() && 0 <= j < ixs[i].accounts@.len() && ixs[i].accounts@[j].role
            == AccountRole::SignerWritable ==> #[trigger] ixs[i].accounts@[j].identity@ == payer
}

/// The instructions as a message holds them.
pub open spec fn message_of(ixs: Seq<Instruction>) -> Seq<(Seq<u8>, Seq<Seq<u8>>, Seq<u8>)> {
    keys_and_data(ixs.map_values(|ix: Instruction| ledger_form(ix)))
}

proof fn lemma_signers(ixs: Seq<Instruction>, payer: Seq<u8>, key: Seq<u8>)
    ensures
        (signer_keys(ixs.map_values(|ix: Instruction| ledger_form(ix)), payer) == set![key]) <==> (
        payer == key && only_payer_signs(ixs, payer)),
{
    let m = ixs.map_values(|ix: Instruction| ledger_form(ix));
    let s = signer_keys(m, payer);
    if payer == key && only_payer_signs(ixs, payer) {
        assert forall|k: Seq<u8>| s.contains(k) <==> set![key].contains(k) by {
            if s.contains(k) && k != payer {
                let (i, j) = choose|i: int, j: int|
                    0 <= i < m.len() && 0 <= j < m[i].1.len() && m[i].1[j].0 == k && m[i].1[j].1;
                assert(ixs[i].accounts@[j].role == AccountRole::SignerWritable);
                assert(ixs[i].accounts@[j].identity@ == payer);
            }
        }
        assert(s =~= set![key]);
    }
    if s == set![key] {
        assert(s.contains(payer));
        assert forall|i: int, j: int|
            0 <= i < ixs.len() && 0 <= j < ixs[i].accounts@.len() && ixs[i].accounts@[j].role
                == AccountRole::SignerWritable implies #[trigger] ixs[i].accounts@[j].identity@
            == payer by {
            let k = ixs[i].accounts@[j].identity@;
            assert(m[i].1[j].0 == k && m[i].1[j].1);
            assert(s.contains(k));
        }
    }
}

/// Assembles and signs a transaction: `payer` pays the fees, `blockhash` is
/// set, and then, with every instruction final, `keypair` signs. Signing
/// succeeds exactly where `payer` is the key pair's key and no other account
/// is marked as signer; otherwise the result is `SignerMismatch`.
pub fn assemble(
    instructions: Vec<Instruction>,
    payer: Identity,
    keypair: &Keypair,
    blockhash: Blockhash,
) -> (r: Result<SignedTransaction, CoreError>)
    requires
        fits_message(message_of(instructions@)),
    ensures
        r is Ok <==> payer@ == keypair_public(*keypair) && only_payer_signs(instructions@, payer@),
        r is Err ==> r == Err::<SignedTransaction, CoreError>(CoreError::SignerMismatch),
        r matches Ok(t) ==> {
            &&& t.fee_payer == payer
            &&& t.recent_blockhash == blockhash
            &&& t.instructions@ == instructions@
            &&& ledger_fee_payer(t.transaction) == payer@
            &&& ledger_blockhash(t.transaction) == blockhash.bytes@
            &&& ledger_instructions(t.transaction) == message_of(instructions@)
            &&& ledger_signers(t.transaction) == set![payer@]
            &&& ledger_signed_by(t.transaction) == set![payer@]
        },
{
    let mut ixs: Vec<PlainInstruction> = Vec::new();
    let mut i: usize = 0;
    while i < instructions.len()
        invariant
            0 <= i <= instructions@.len(),
            ixs@.len() == i,
            forall|j: int| 0 <= j < i ==> plain_view(#[trigger] ixs@[j]) == ledger_form(instructions@[j]),
        decreases instructions@.len() - i,
    {
        ixs.push(plain_instruction(&instructions[i]));
        i = i + 1;
    }
    assert(ixs@.map_values(|ix: PlainInstruction| plain_view(ix)) =~= instructions@.map_values(
        |ix: Instruction| ledger_form(ix),
    ));
    proof {
        lemma_signers(instructions@, payer@, keypair_public(*keypair));
    }
    let mut transaction = transaction_with_payer(&ixs, &payer);
    if sign_transaction(&mut transaction, keypair, &blockhash) {
        Ok(SignedTransaction { fee_payer: payer, recent_blockhash: blockhash, instructions, transaction })
    } else {
        Err(CoreError::SignerMismatch)
    }
}

/// The public identity of a key pair.
pub fn payer_identity(keypair: &Keypair) -> (r: Identity)
    ensures
        r@ == keypair_public(*keypair),
{
    keypair_identity(keypair)
}

} // verus!
