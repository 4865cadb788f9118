use vstd::prelude::*;
use crate::error::CoreError;
use crate::identity::{Identity, system_program, system_program_bytes};
use crate::operation::{Operation, OperationModel, payload_of};

verus! {

/// How an instruction uses one of its accounts.
#[derive(Clone, Copy, Debug, PartialEq, Eq, Structural)]
pub enum AccountRole {
    /// Signs the transaction and may be written: the payer.
    SignerWritable,
    /// May be written, signs nothing.
    Writable,
    /// Only read.
    ReadOnly,
}

/// One account of an instruction, with its role.
#[derive(Clone, Copy, Debug, PartialEq, Eq)]
pub struct AccountEntry {
    pub identity: Identity,
    pub role: AccountRole,
}

impl View for AccountEntry {
    type V = (Seq<u8>, AccountRole);

    open spec fn view(&self) -> (Seq<u8>, AccountRole) {
        (self.identity@, self.role)
    }
}

/// A request to a program: the accounts it touches, in the order the program
/// expects, and its calldata.
#[derive(Clone, Debug, PartialEq, Eq)]
pub struct Instruction {
    pub program: Identity,
    pub accounts: Vec<AccountEntry>,
    pub payload: Vec<u8>,
}

/// The account list of an instruction: the payer, which signs, then each
/// target as writable, then the system program as read-only.
pub open spec fn account_list(payer: Seq<u8>, targets: Seq<Seq<u8>>) -> Seq<(Seq<u8>, AccountRole)> {
    seq![(payer, AccountRole::SignerWritable)] + targets.map_values(
        |t: Seq<u8>| (t, AccountRole::Writable),
    ) + seq![(system_program_bytes(), AccountRole::ReadOnly)]
}

pub open spec fn entries_view(s: Seq<AccountEntry>) -> Seq<(Seq<u8>, AccountRole)> {
    s.map_values(|e: AccountEntry| e@)
}

pub open spec fn identities_view(s: Seq<Identity>) -> Seq<Seq<u8>> {
    s.map_values(|k: Identity| k@)
}

/// The accounts, besides the payer and the system program, that an operation
/// of each kind names: the derived account, the counterparty, or both (derived
/// source first). `None` where one that the kind needs is absent.
pub open spec fn targets_for(
    m: OperationModel,
    derived: Option<Seq<u8>>,
    counterparty: Option<Seq<u8>>,
) -> Option<Seq<Seq<u8>>> {
    match m {
        OperationModel::Transfer { .. } => match counterparty {
            Some(c) => Some(seq![c]),
            None => None,
        },
        OperationModel::TransferFrom { .. } => match (derived, counterparty) {
            (Some(d), Some(c)) => Some(seq![d, c]),
            _ => None,
        },
        _ => match derived {
            Some(d) => Some(seq![d]),
            None => None,
        },
    }
}

pub open spec fn view_opt(k: Option<Identity>) -> Option<Seq<u8>> {
    match k {
        Some(i) => Some(i@),
        None => None,
    }
}

/// In every account list the payer comes first and signs, the system program
/// comes last and is only read, and every account between them is writable
/// and signs nothing.
pub proof fn lemma_account_order(payer: Seq<u8>, targets: Seq<Seq<u8>>)
    ensures
        account_list(payer, targets).len() == targets.len() + 2,
        account_list(payer, targets)[0] == (payer, AccountRole::SignerWritable),
        account_list(payer, targets).last() == (system_program_bytes(), AccountRole::ReadOnly),
        forall|i: int|
            1 <= i < account_list(payer, targets).len() - 1 ==> account_list(payer, targets)[i]
                == (targets[i - 1], AccountRole::Writable),
{
}

/// Builds an instruction for `program` whose accounts are the payer (signer),
/// then `pubkeys` (writable), then the system program (read-only).
pub fn build_ix(program: Identity, data: &[u8], payer: Identity, pubkeys: &[Identity]) -> (r: Instruction)
    ensures
        r.program == program,
        r.payload@ == data@,
        entries_view(r.accounts@) == account_list(payer@, identities_view(pubkeys@)),
{
    let mut accounts: Vec<AccountEntry> = Vec::new();
    accounts.push(AccountEntry { identity: payer, role: AccountRole::SignerWritable });
    let mut i: usize = 0;
    while i < pubkeys.len()
        invariant
            0 <= i <= pubkeys@.len(),
            accounts@.len() == i + 1,
            accounts@[0]@ == (payer@, AccountRole::SignerWritable),
            forall|j: int| 0 <= j < i ==> accounts@[j + 1]@ == (pubkeys@[j]@, AccountRole::Writable),
        decreases pubkeys@.len() - i,
    {
        accounts.push(AccountEntry { identity: pubkeys[i], role: AccountRole::Writable });
        i = i + 1;
    }
    let system = system_program();
    accounts.push(AccountEntry { identity: system, role: AccountRole::ReadOnly });
    assert(entries_view(accounts@) =~= account_list(payer@, identities_view(pubkeys@)));
    Instruction { program, accounts, payload: vec_of_slice(data) }
}

fn vec_of_slice(data: &[u8]) -> (r: Vec<u8>)
    ensures
        r@ == data@,
{
    vstd::slice::slice_to_vec(data)
}

/// Encodes `op` as an instruction for `program`, paid for by `payer`.
/// `derived` is the program-owned account that the operation acts on and
/// `counterparty` the destination of a transfer; an operation that needs one
/// that is absent fails with `MissingOperand`.
pub fn encode(
    program: Identity,
    op: &Operation,
    payer: Identity,
    derived: Option<Identity>,
    counterparty: Option<Identity>,
) -> (r: Result<Instruction, CoreError>)
    ensures
        targets_for(op@, view_opt(derived), view_opt(counterparty)) is None ==> r == Err::<
            Instruction,
            CoreError,
        >(CoreError::MissingOperand),
        targets_for(op@, view_opt(derived), view_opt(counterparty)) matches Some(t) ==> (r matches Ok(
            ix,
        ) && ix.program == program && ix.payload@ == payload_of(op@) && entries_view(ix.accounts@)
            == account_list(payer@, t)),
{
    let mut targets: Vec<Identity> = Vec::new();
    match op {
        Operation::Transfer { .. } => match counterparty {
            Some(c) => {
                targets.push(c);
            },
            None => {
                return Err(CoreError::MissingOperand);
            },
        },
        Operation::TransferFrom { .. } => match (derived, counterparty) {
            (Some(d), Some(c)) => {
                targets.push(d);
                targets.push(c);
            },
            _ => {
                return Err(CoreError::MissingOperand);
            },
        },
        _ => match derived {
            Some(d) => {
                targets.push(d);
            },
            None => {
                return Err(CoreError::MissingOperand);
            },
        },
    }
    proof {
        let t = targets_for(op@, view_opt(derived), view_opt(counterparty));
        assert(t matches Some(s) && identities_view(targets@) =~= s);
    }
    let payload = op.encode_payload();
    Ok(build_ix(program, payload.as_slice(), payer, targets.as_slice()))
}

} // verus!
