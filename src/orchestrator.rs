use vstd::prelude::*;
use solana_sdk::signature::Keypair;
use crate::assemble::{
    Blockhash, SignedTransaction, assemble, entry_count, fits_message, keypair_public,
    ledger_blockhash, ledger_fee_payer, ledger_instructions, ledger_signed_by, ledger_signers,
    message_of,
    only_payer_signs, payer_identity,
};
use crate::error::CoreError;
use crate::identity::Identity;
use crate::instruction::{
    AccountRole, Instruction, account_list, build_ix, entries_view, identities_view,
    lemma_account_order,
};
use crate::operation::payload_of;
use crate::request::{
    Args, acts_on_derived, instruction_view, plan_instruction, request_error, request_plan,
    request_targets, requested_operation, seed_bytes,
};
use crate::derive::derivation;

verus! {

/// Whether a signed transaction holds exactly one instruction, for `program`,
/// with `data` as payload and the fee payer, then `targets`, then the system
/// program as accounts.
pub open spec fn single_instruction(
    t: SignedTransaction,
    program: Identity,
    data: Seq<u8>,
    targets: Seq<Seq<u8>>,
) -> bool {
    &&& t.instructions@.len() == 1
    &&& t.instructions@[0].program == program
    &&& t.instructions@[0].payload@ == data
    &&& entries_view(t.instructions@[0].accounts@) == account_list(t.fee_payer@, targets)
}

/// Whether the ledger transaction inside `t` is paid by `key`, carries
/// `blockhash` and the instructions of `t`, needs the signature of `key`
/// alone, and holds it.
pub open spec fn signed_by_payer(t: SignedTransaction, key: Seq<u8>, blockhash: Blockhash) -> bool {
    &&& t.fee_payer@ == key
    &&& t.recent_blockhash == blockhash
    &&& ledger_fee_payer(t.transaction) == key
    &&& ledger_blockhash(t.transaction) == blockhash.bytes@
    &&& ledger_instructions(t.transaction) == message_of(t.instructions@)
    &&& ledger_signers(t.transaction) == set![key]
    &&& ledger_signed_by(t.transaction) == set![key]
}

proof fn lemma_one_instruction(ix: Instruction, payer: Seq<u8>, targets: Seq<Seq<u8>>)
    requires
        entries_view(ix.accounts@) == account_list(payer, targets),
        targets.len() <= 2,
        ix.payload@.len() <= 65535,
    ensures
        fits_message(message_of(seq![ix])),
        only_payer_signs(seq![ix], payer),
{
    lemma_account_order(payer, targets);
    let c = message_of(seq![ix]);
    assert(c.len() == 1);
    assert(c.drop_last().len() == 0);
    assert(entry_count(c.drop_last()) == 0);
    assert(entries_view(ix.accounts@).len() == ix.accounts@.len());
    assert(c[0].1.len() == ix.accounts@.len());
    assert(entry_count(c) == ix.accounts@.len());
    assert forall|i: int, j: int|
        0 <= i < seq![ix].len() && 0 <= j < seq![ix][i].accounts@.len() && seq![ix][i].accounts@[j].role
            == AccountRole::SignerWritable implies #[trigger] seq![ix][i].accounts@[j].identity@
        == payer by {
        assert(seq![ix][i] == ix);
        assert(entries_view(ix.accounts@)[j] == ix.accounts@[j]@);
    }
}

/// A signed transaction of one instruction for `program` that acts on
/// `account`, paid and signed by `payer`.
pub fn build_tx(
    program: Identity,
    data: &[u8],
    payer: &Keypair,
    account: Identity,
    blockhash: Blockhash,
) -> (r: Result<SignedTransaction, CoreError>)
    requires
        data@.len() <= 65535,
    ensures
        r matches Ok(t) && single_instruction(t, program, data@, seq![account@])
            && signed_by_payer(t, keypair_public(*payer), blockhash),
{
    let payer_key = payer_identity(payer);
    let targets: Vec<Identity> = vec![account];
    let ix = build_ix(program, data, payer_key, targets.as_slice());
    assert(identities_view(targets@) =~= seq![account@]);
    proof {
        lemma_one_instruction(ix, payer_key@, seq![account@]);
    }
    let ixs: Vec<Instruction> = vec![ix];
    assert(ixs@ =~= seq![ix]);
    assemble(ixs, payer_key, payer, blockhash)
}

/// A signed transaction of one instruction for `program` that moves value
/// from the derived account `from` to `to`, paid and signed by `payer`.
pub fn build_transfer_from_tx(
    program: Identity,
    data: &[u8],
    payer: &Keypair,
    from: Identity,
    to: Identity,
    blockhash: Blockhash,
) -> (r: Result<SignedTransaction, CoreError>)
    requires
        data@.len() <= 65535,
    ensures
        r matches Ok(t) && single_instruction(t, program, data@, seq![from@, to@])
            && signed_by_payer(t, keypair_public(*payer), blockhash),
{
    let payer_key = payer_identity(payer);
    let targets: Vec<Identity> = vec![from, to];
    let ix = build_ix(program, data, payer_key, targets.as_slice());
    assert(identities_view(targets@) =~= seq![from@, to@]);
    proof {
        lemma_one_instruction(ix, payer_key@, seq![from@, to@]);
    }
    let ixs: Vec<Instruction> = vec![ix];
    assert(ixs@ =~= seq![ix]);
    assemble(ixs, payer_key, payer, blockhash)
}

/// Runs a request up to a signed transaction: operands, destination,
/// derivation, encoding, then assembly with `blockhash` and signing by
/// `keypair`, who pays. The first failing step's error is the result;
/// nothing here reaches the network, and a request that passes its checks
/// always gives a signed transaction.
pub fn prepare_transaction(
    args: &Args,
    program: &Identity,
    keypair: &Keypair,
    blockhash: Blockhash,
) -> (r: Result<SignedTransaction, CoreError>)
    ensures
        request_error(*args, program@) matches Some(e) ==> r == Err::<SignedTransaction, CoreError>(
            e,
        ),
        request_error(*args, program@) is None ==> r is Ok,
        r matches Ok(t) ==> t.instructions@.len() == 1 && t.instructions@[0].program == *program
            && instruction_view(Ok(t.instructions@[0])) == request_plan(
            *args,
            program@,
            t.fee_payer@,
        ) && signed_by_payer(t, keypair_public(*keypair), blockhash),
{
    let payer_key = payer_identity(keypair);
    let ix = match plan_instruction(args, program, payer_key) {
        Ok(ix) => ix,
        Err(e) => {
            return Err(e);
        },
    };
    proof {
        let m = requested_operation(*args);
        if acts_on_derived(args.mode) {
            assert(derivation(program@, seed_bytes(*args)->0) is Ok);
        }
        assert(payload_of(m).len() <= 41);
        let derived = if acts_on_derived(args.mode) {
            derivation(program@, seed_bytes(*args)->0)->Ok_0.0
        } else {
            Seq::empty()
        };
        let to = if crate::request::has_destination(args.mode) {
            crate::identity::base58_key(args.to->0@)->0
        } else {
            Seq::empty()
        };
        lemma_one_instruction(ix, payer_key@, request_targets(args.mode, derived, to));
    }
    let ixs: Vec<Instruction> = vec![ix];
    assert(ixs@ =~= seq![ix]);
    assemble(ixs, payer_key, keypair, blockhash)
}

} // verus!
