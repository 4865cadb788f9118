//! Client-side core for talking to an on-chain program: derivation of
//! program-owned addresses, instruction encoding, transaction assembly and the
//! decisions taken while a transaction is submitted and its record fetched.
mod identity;
mod operation;
mod error;
mod instruction;
mod derive;
mod assemble;
mod ledger;
mod request;
mod orchestrator;

pub use identity::{
    Identity, base58_key, is_program_owned, on_curve, parse_identity, system_program,
    system_program_bytes,
};
pub use operation::{
    ModeType, Operation, OperationModel, TransactionType, kind_ordinal, le_u64,
    lemma_le_u64_round_trip, lemma_payload_round_trip, model_kind, operation_of, payload_of, u64_at,
};
pub use error::CoreError;
pub use instruction::{
    AccountEntry, AccountRole, Instruction, account_list, build_ix, encode, entries_view,
    identities_view, lemma_account_order, targets_for, view_opt,
};
pub use derive::{
    MAX_SEED_LEN, bump_search, candidate_address, derivation, derivation_view, derive_address,
    lemma_derivation_deterministic, lemma_derived_off_curve,
};
pub use assemble::{
    Blockhash, PlainInstruction, SignedTransaction, assemble, entry_count, fits_message,
    keypair_public, keys_and_data, ledger_blockhash, ledger_fee_payer, ledger_form,
    ledger_instructions, ledger_signed_by, ledger_signers, ledger_unsigned, message_of, only_payer_signs,
    payer_identity, plain_view, role_flags, signer_keys,
};
pub use ledger::{
    FetchAction, FetchOutcome, SignatureStatus, SubmitAction, SubmitEvent, SubmitPhase, Submission,
    after_fetch, fetch_decision, lemma_expired_blockhash_fails, submit_step,
};
pub use request::{
    Args, PROGRAM_ID, acts_on_derived, has_destination, instruction_view, operands_present,
    plan_instruction, program_identity, request_error, request_plan, request_targets,
    requested_operation, resolve_operation, seed_bytes,
};
pub use orchestrator::{
    build_transfer_from_tx, build_tx, prepare_transaction, signed_by_payer, single_instruction,
};
