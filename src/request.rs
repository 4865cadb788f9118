use vstd::prelude::*;
use vstd::utf8::encode_utf8;
use crate::derive::{derivation, derive_address};
use crate::error::CoreError;
use crate::identity::{Identity, base58_key, parse_identity};
use crate::instruction::{Instruction, account_list, encode, entries_view};
use crate::operation::{Operation, OperationModel, TransactionType, payload_of};

verus! {

/// The identity of the program that the requests are addressed to, in base58.
pub const PROGRAM_ID: &'static str = "4fnvoc7wADwtwJ9SRUvL7KpCBTp8qztm5GqjZBFP7GTt";

/// One request as the caller states it: the kind, and the operands that the
/// kind may need.
#[derive(Clone, Debug, PartialEq, Eq)]
pub struct Args {
    pub keypair_path: String,
    pub mode: TransactionType,
    pub seed: Option<String>,
    pub size: Option<u64>,
    pub to: Option<String>,
    pub amount: Option<u64>,
}

/// The bytes of the seed text, if one is given.
pub open spec fn seed_bytes(args: Args) -> Option<Seq<u8>> {
    match args.seed {
        Some(s) => Some(encode_utf8(s@)),
        None => None,
    }
}

/// Whether every operand that the kind needs is present.
pub open spec fn operands_present(args: Args) -> bool {
    match args.mode {
        TransactionType::Create => args.seed is Some,
        TransactionType::Resize => args.seed is Some && args.size is Some,
        TransactionType::Transfer => args.to is Some && args.amount is Some,
        TransactionType::TransferFrom => args.seed is Some && args.to is Some && args.amount is Some,
        TransactionType::Allocate => args.seed is Some && args.size is Some,
    }
}

/// The operation that a request with all its operands asks for.
pub open spec fn requested_operation(args: Args) -> OperationModel {
    match args.mode {
        TransactionType::Create => OperationModel::CreateAccount { seed: seed_bytes(args)->0 },
        TransactionType::Resize => OperationModel::ResizeAccount { new_size: args.size->0 },
        TransactionType::Transfer => OperationModel::Transfer { amount: args.amount->0 },
        TransactionType::TransferFrom => OperationModel::TransferFrom {
            seed: seed_bytes(args)->0,
            amount: args.amount->0,
        },
        TransactionType::Allocate => OperationModel::Allocate {
            seed: seed_bytes(args)->0,
            new_size: args.size->0,
        },
    }
}

/// Every kind but a plain transfer acts on the account derived from the seed.
pub open spec fn acts_on_derived(mode: TransactionType) -> bool {
    mode != TransactionType::Transfer
}

/// Transfers name a destination.
pub open spec fn has_destination(mode: TransactionType) -> bool {
    mode == TransactionType::Transfer || mode == TransactionType::TransferFrom
}

/// The accounts between payer and system program, once both are known.
pub open spec fn request_targets(mode: TransactionType, derived: Seq<u8>, to: Seq<u8>) -> Seq<Seq<u8>> {
    match mode {
        TransactionType::Transfer => seq![to],
        TransactionType::TransferFrom => seq![derived, to],
        _ => seq![derived],
    }
}

/// Why a request cannot become an instruction, if it cannot: operands are
/// checked first, then the destination is read, then the seed is derived;
/// the first failure is the reason.
pub open spec fn request_error(args: Args, program: Seq<u8>) -> Option<CoreError> {
    if !operands_present(args) {
        Some(CoreError::MissingOperand)
    } else if has_destination(args.mode) && base58_key(args.to->0@) is None {
        Some(CoreError::InvalidIdentity)
    } else if acts_on_derived(args.mode) && derivation(program, seed_bytes(args)->0) is Err {
        Some(derivation(program, seed_bytes(args)->0)->Err_0)
    } else {
        None
    }
}

/// The instruction that a request becomes, as its payload and its account
/// list, or the reason it cannot.
pub open spec fn request_plan(args: Args, program: Seq<u8>, payer: Seq<u8>) -> Result<
    (Seq<u8>, Seq<(Seq<u8>, crate::instruction::AccountRole)>),
    CoreError,
> {
    match request_error(args, program) {
        Some(e) => Err(e),
        None => {
            let derived = if acts_on_derived(args.mode) {
                derivation(program, seed_bytes(args)->0)->Ok_0.0
            } else {
                Seq::empty()
            };
            let to = if has_destination(args.mode) {
                base58_key(args.to->0@)->0
            } else {
                Seq::empty()
            };
            Ok(
                (
                    payload_of(requested_operation(args)),
                    account_list(payer, request_targets(args.mode, derived, to)),
                ),
            )
        },
    }
}

pub open spec fn instruction_view(r: Result<Instruction, CoreError>) -> Result<
    (Seq<u8>, Seq<(Seq<u8>, crate::instruction::AccountRole)>),
    CoreError,
> {
    match r {
        Ok(ix) => Ok((ix.payload@, entries_view(ix.accounts@))),
        Err(e) => Err(e),
    }
}

fn seed_of(s: &String) -> (r: Vec<u8>)
    ensures
        r@ == encode_utf8(s@),
{
    vstd::slice::slice_to_vec(s.as_str().as_bytes())
}

/// The operation that a request asks for, or `MissingOperand` where an
/// operand that its kind needs is absent.
pub fn resolve_operation(args: &Args) -> (r: Result<Operation, CoreError>)
    ensures
        operands_present(*args) ==> (r matches Ok(o) && o@ == requested_operation(*args)),
        !operands_present(*args) ==> r == Err::<Operation, CoreError>(CoreError::MissingOperand),
{
    match args.mode {
        TransactionType::Create => match &args.seed {
            Some(s) => Ok(Operation::CreateAccount { seed: seed_of(s) }),
            None => Err(CoreError::MissingOperand),
        },
        TransactionType::Resize => match (&args.seed, args.size) {
            (Some(_), Some(n)) => Ok(Operation::ResizeAccount { new_size: n }),
            _ => Err(CoreError::MissingOperand),
        },
        TransactionType::Transfer => match (&args.to, args.amount) {
            (Some(_), Some(a)) => Ok(Operation::Transfer { amount: a }),
            _ => Err(CoreError::MissingOperand),
        },
        TransactionType::TransferFrom => match (&args.seed, &args.to, args.amount) {
            (Some(s), Some(_), Some(a)) => Ok(Operation::TransferFrom { seed: seed_of(s), amount: a }),
            _ => Err(CoreError::MissingOperand),
        },
        TransactionType::Allocate => match (&args.seed, args.size) {
            (Some(s), Some(n)) => Ok(Operation::Allocate { seed: seed_of(s), new_size: n }),
            _ => Err(CoreError::MissingOperand),
        },
    }
}

/// The identity of the program that the requests are addressed to.
pub fn program_identity() -> (r: Result<Identity, CoreError>)
    ensures
        r matches Ok(k) ==> base58_key(PROGRAM_ID@) == Some(k@),
        r is Err <==> base58_key(PROGRAM_ID@) is None,
        r is Err ==> r == Err::<Identity, CoreError>(CoreError::InvalidIdentity),
{
    match parse_identity(PROGRAM_ID) {
        Some(k) => Ok(k),
        None => Err(CoreError::InvalidIdentity),
    }
}

/// Turns a request into the instruction for `program`, paid by `payer`: the
/// operands are checked, the destination read where the kind has one, the
/// seed's address derived where the kind acts on it, and the operation
/// encoded. Nothing here reaches the network.
pub fn plan_instruction(args: &Args, program: &Identity, payer: Identity) -> (r: Result<Instruction, CoreError>)
    ensures
        instruction_view(r) == request_plan(*args, program@, payer@),
        r matches Ok(ix) ==> ix.program == *program,
{
    let op = match resolve_operation(args) {
        Ok(o) => o,
        Err(e) => {
            return Err(e);
        },
    };
    let mut counterparty: Option<Identity> = None;
    if args.mode == TransactionType::Transfer || args.mode == TransactionType::TransferFrom {
        match &args.to {
            Some(t) => match parse_identity(t.as_str()) {
                Some(k) => {
                    counterparty = Some(k);
                },
                None => {
                    return Err(CoreError::InvalidIdentity);
                },
            },
            None => {
                return Err(CoreError::MissingOperand);
            },
        }
    }
    let mut derived: Option<Identity> = None;
    if args.mode != TransactionType::Transfer {
        let seed = match &args.seed {
            Some(s) => seed_of(s),
            None => {
                return Err(CoreError::MissingOperand);
            },
        };
        match derive_address(program, seed.as_slice()) {
            Ok((k, _bump)) => {
                derived = Some(k);
            },
            Err(e) => {
                return Err(e);
            },
        }
    }
    encode(*program, &op, payer, derived, counterparty)
}

} // verus!
