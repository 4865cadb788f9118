use vstd::prelude::*;
use solana_sdk::pubkey::Pubkey;
use std::str::FromStr;

verus! {

/// A 32-byte public value that identifies an account or a program.
#[derive(Clone, Copy, Debug, PartialEq, Eq)]
pub struct Identity {
    pub bytes: [u8; 32],
}

impl View for Identity {
    type V = Seq<u8>;

    open spec fn view(&self) -> Seq<u8> {
        self.bytes@
    }
}

/// The 32 bytes that a base58 text stands for, or `None` where the text is no
/// valid 32-byte key.
pub uninterp spec fn base58_key(s: Seq<char>) -> Option<Seq<u8>>;

/// Whether 32 bytes are the compressed form of a point of the ed25519 curve,
/// that is, whether they could be the public half of a key pair.
pub uninterp spec fn on_curve(b: Seq<u8>) -> bool;

/// The identity of the ledger's system program: 32 zero bytes.
pub open spec fn system_program_bytes() -> Seq<u8> {
    Seq::new(32, |i: int| 0u8)
}

/// Relies on `Pubkey::from_str`: base58 decoding of a 32-byte key.
#[verifier::external_body]
fn pubkey_from_text(s: &str) -> (r: Option<Identity>)
    ensures
        r matches Some(k) ==> base58_key(s@) == Some(k@),
        r is None ==> base58_key(s@) is None,
{
    Pubkey::from_str(s).ok().map(|k| Identity { bytes: k.to_bytes() })
}

/// Relies on `Pubkey::is_on_curve`: the ed25519 decompression test.
#[verifier::external_body]
fn pubkey_is_on_curve(k: &Identity) -> (r: bool)
    ensures
        r == on_curve(k@),
{
    Pubkey::new_from_array(k.bytes).is_on_curve()
}

/// Relies on `solana_sdk::system_program::id`, declared as the base58 text of
/// thirty-two ones, which is the all-zero key.
#[verifier::external_body]
fn system_program_id() -> (r: Identity)
    ensures
        r@ == system_program_bytes(),
{
    Identity { bytes: solana_sdk::system_program::id().to_bytes() }
}

/// Reads an identity from its base58 text.
pub fn parse_identity(s: &str) -> (r: Option<Identity>)
    ensures
        r matches Some(k) ==> base58_key(s@) == Some(k@),
        r is None <==> base58_key(s@) is None,
{
    pubkey_from_text(s)
}

/// An address is program-owned exactly when it lies off the signing curve, so
/// that no private key exists for it.
pub fn is_program_owned(k: &Identity) -> (r: bool)
    ensures
        r == !on_curve(k@),
{
    !pubkey_is_on_curve(k)
}

/// The system program, which every instruction built here names last.
pub fn system_program() -> (r: Identity)
    ensures
        r@ == system_program_bytes(),
{
    system_program_id()
}

} // verus!
