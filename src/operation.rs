use vstd::prelude::*;
use vstd::slice::{slice_subrange, slice_to_vec};

verus! {

/// The kinds of request that a caller can pick; each one's ordinal is the
/// first byte of the payload it produces.
#[derive(Clone, Copy, Debug, PartialEq, Eq, Structural)]
pub enum TransactionType {
    Create,
    Resize,
    Transfer,
    TransferFrom,
    Allocate,
}

/// A coarse request mode: create an account, resize it, or send lamports.
#[derive(Clone, Copy, Debug, PartialEq, Eq, Structural)]
pub enum ModeType {
    Create,
    Resize,
    Send,
}

pub open spec fn kind_ordinal(t: TransactionType) -> u8 {
    match t {
        TransactionType::Create => 0,
        TransactionType::Resize => 1,
        TransactionType::Transfer => 2,
        TransactionType::TransferFrom => 3,
        TransactionType::Allocate => 4,
    }
}

impl TransactionType {
    /// The wire ordinal of this kind.
    pub fn ordinal(&self) -> (r: u8)
        ensures
            r == kind_ordinal(*self),
    {
        match self {
            TransactionType::Create => 0,
            TransactionType::Resize => 1,
            TransactionType::Transfer => 2,
            TransactionType::TransferFrom => 3,
            TransactionType::Allocate => 4,
        }
    }
}

/// An operation with exactly the parameters that its payload carries.
#[derive(Clone, Debug, PartialEq, Eq)]
pub enum Operation {
    CreateAccount { seed: Vec<u8> },
    ResizeAccount { new_size: u64 },
    Transfer { amount: u64 },
    TransferFrom { seed: Vec<u8>, amount: u64 },
    Allocate { seed: Vec<u8>, new_size: u64 },
}

/// The mathematical value of an [`Operation`].
pub enum OperationModel {
    CreateAccount { seed: Seq<u8> },
    ResizeAccount { new_size: u64 },
    Transfer { amount: u64 },
    TransferFrom { seed: Seq<u8>, amount: u64 },
    Allocate { seed: Seq<u8>, new_size: u64 },
}

impl View for Operation {
    type V = OperationModel;

    open spec fn view(&self) -> OperationModel {
        match self {
            Operation::CreateAccount { seed } => OperationModel::CreateAccount { seed: seed@ },
            Operation::ResizeAccount { new_size } => OperationModel::ResizeAccount {
                new_size: *new_size,
            },
            Operation::Transfer { amount } => OperationModel::Transfer { amount: *amount },
            Operation::TransferFrom { seed, amount } => OperationModel::TransferFrom {
                seed: seed@,
                amount: *amount,
            },
            Operation::Allocate { seed, new_size } => OperationModel::Allocate {
                seed: seed@,
                new_size: *new_size,
            },
        }
    }
}

/// The kind that an operation belongs to.
pub open spec fn model_kind(m: OperationModel) -> TransactionType {
    match m {
        OperationModel::CreateAccount { .. } => TransactionType::Create,
        OperationModel::ResizeAccount { .. } => TransactionType::Resize,
        OperationModel::Transfer { .. } => TransactionType::Transfer,
        OperationModel::TransferFrom { .. } => TransactionType::TransferFrom,
        OperationModel::Allocate { .. } => TransactionType::Allocate,
    }
}

/// Eight bytes, least significant first.
pub open spec fn le_u64(v: u64) -> Seq<u8> {
    seq![
        (v & 0xff) as u8,
        ((v >> 8u64) & 0xff) as u8,
        ((v >> 16u64) & 0xff) as u8,
        ((v >> 24u64) & 0xff) as u8,
        ((v >> 32u64) & 0xff) as u8,
        ((v >> 40u64) & 0xff) as u8,
        ((v >> 48u64) & 0xff) as u8,
        ((v >> 56u64) & 0xff) as u8,
    ]
}

/// The integer held little-endian in `s[at..at + 8]`.
pub open spec fn u64_at(s: Seq<u8>, at: int) -> u64 {
    (s[at] as u64) | ((s[at + 1] as u64) << 8u64) | ((s[at + 2] as u64) << 16u64) | ((s[at
        + 3] as u64) << 24u64) | ((s[at + 4] as u64) << 32u64) | ((s[at + 5] as u64) << 40u64)
        | ((s[at + 6] as u64) << 48u64) | ((s[at + 7] as u64) << 56u64)
}

/// The payload of an operation: its ordinal, then its numeric parameter as
/// eight little-endian bytes, then its seed as it stands.
pub open spec fn payload_of(m: OperationModel) -> Seq<u8> {
    match m {
        OperationModel::CreateAccount { seed } => seq![0u8] + seed,
        OperationModel::ResizeAccount { new_size } => seq![1u8] + le_u64(new_size),
        OperationModel::Transfer { amount } => seq![2u8] + le_u64(amount),
        OperationModel::TransferFrom { seed, amount } => seq![3u8] + le_u64(amount) + seed,
        OperationModel::Allocate { seed, new_size } => seq![4u8] + le_u64(new_size) + seed,
    }
}

/// The operation that a payload stands for, if any.
pub open spec fn operation_of(p: Seq<u8>) -> Option<OperationModel> {
    if p.len() == 0 {
        None
    } else if p[0] == 0 {
        Some(OperationModel::CreateAccount { seed: p.drop_first() })
    } else if p[0] == 1 && p.len() == 9 {
        Some(OperationModel::ResizeAccount { new_size: u64_at(p, 1) })
    } else if p[0] == 2 && p.len() == 9 {
        Some(OperationModel::Transfer { amount: u64_at(p, 1) })
    } else if p[0] == 3 && p.len() >= 9 {
        Some(OperationModel::TransferFrom { seed: p.subrange(9, p.len() as int), amount: u64_at(p, 1) })
    } else if p[0] == 4 && p.len() >= 9 {
        Some(OperationModel::Allocate { seed: p.subrange(9, p.len() as int), new_size: u64_at(p, 1) })
    } else {
        None
    }
}

/// Reading back eight little-endian bytes gives the integer they were made from.
pub proof fn lemma_le_u64_round_trip(v: u64, s: Seq<u8>, at: int)
    requires
        0 <= at,
        at + 8 <= s.len(),
        s.subrange(at, at + 8) == le_u64(v),
    ensures
        u64_at(s, at) == v,
{
    assert(s[at] == le_u64(v)[0]);
    assert(s[at + 1] == le_u64(v)[1]);
    assert(s[at + 2] == le_u64(v)[2]);
    assert(s[at + 3] == le_u64(v)[3]);
    assert(s[at + 4] == le_u64(v)[4]);
    assert(s[at + 5] == le_u64(v)[5]);
    assert(s[at + 6] == le_u64(v)[6]);
    assert(s[at + 7] == le_u64(v)[7]);
    assert((((v & 0xff) as u8) as u64) | ((((v >> 8u64) & 0xff) as u8) as u64) << 8u64 | ((((v
        >> 16u64) & 0xff) as u8) as u64) << 16u64 | ((((v >> 24u64) & 0xff) as u8) as u64)
        << 24u64 | ((((v >> 32u64) & 0xff) as u8) as u64) << 32u64 | ((((v >> 40u64) & 0xff)
        as u8) as u64) << 40u64 | ((((v >> 48u64) & 0xff) as u8) as u64) << 48u64 | ((((v
        >> 56u64) & 0xff) as u8) as u64) << 56u64 == v) by (bit_vector);
}

/// Decoding the payload of any operation gives back that operation: its kind,
/// its seed byte for byte and its integer exactly.
pub proof fn lemma_payload_round_trip(m: OperationModel)
    ensures
        operation_of(payload_of(m)) == Some(m),
{
    let p = payload_of(m);
    match m {
        OperationModel::CreateAccount { seed } => {
            assert(p.drop_first() =~= seed);
        },
        OperationModel::ResizeAccount { new_size } => {
            assert(p.subrange(1, 9) =~= le_u64(new_size));
            lemma_le_u64_round_trip(new_size, p, 1);
        },
        OperationModel::Transfer { amount } => {
            assert(p.subrange(1, 9) =~= le_u64(amount));
            lemma_le_u64_round_trip(amount, p, 1);
        },
        OperationModel::TransferFrom { seed, amount } => {
            assert(p.subrange(1, 9) =~= le_u64(amount));
            lemma_le_u64_round_trip(amount, p, 1);
            assert(p.subrange(9, p.len() as int) =~= seed);
        },
        OperationModel::Allocate { seed, new_size } => {
            assert(p.subrange(1, 9) =~= le_u64(new_size));
            lemma_le_u64_round_trip(new_size, p, 1);
            assert(p.subrange(9, p.len() as int) =~= seed);
        },
    }
}

fn push_le_u64(out: &mut Vec<u8>, v: u64)
    ensures
        final(out)@ == old(out)@ + le_u64(v),
{
    out.push((v & 0xff) as u8);
    out.push(((v >> 8u64) & 0xff) as u8);
    out.push(((v >> 16u64) & 0xff) as u8);
    out.push(((v >> 24u64) & 0xff) as u8);
    out.push(((v >> 32u64) & 0xff) as u8);
    out.push(((v >> 40u64) & 0xff) as u8);
    out.push(((v >> 48u64) & 0xff) as u8);
    out.push(((v >> 56u64) & 0xff) as u8);
    assert(final(out)@ =~= old(out)@ + le_u64(v));
}

fn push_bytes(out: &mut Vec<u8>, b: &[u8])
    ensures
        final(out)@ == old(out)@ + b@,
{
    let mut i: usize = 0;
    while i < b.len()
        invariant
            0 <= i <= b@.len(),
            out@ == old(out)@ + b@.subrange(0, i as int),
        decreases b@.len() - i,
    {
        out.push(b[i]);
        i = i + 1;
        assert(out@ =~= old(out)@ + b@.subrange(0, i as int));
    }
    assert(b@.subrange(0, b@.len() as int) =~= b@);
}

fn read_u64_at(p: &[u8], at: usize) -> (r: u64)
    requires
        at + 8 <= p@.len(),
    ensures
        r == u64_at(p@, at as int),
{
    (p[at] as u64) | ((p[at + 1] as u64) << 8u64) | ((p[at + 2] as u64) << 16u64) | ((p[at
        + 3] as u64) << 24u64) | ((p[at + 4] as u64) << 32u64) | ((p[at + 5] as u64) << 40u64)
        | ((p[at + 6] as u64) << 48u64) | ((p[at + 7] as u64) << 56u64)
}

impl Operation {
    /// The kind this operation belongs to.
    pub fn kind(&self) -> (r: TransactionType)
        ensures
            r == model_kind(self@),
    {
        match self {
            Operation::CreateAccount { .. } => TransactionType::Create,
            Operation::ResizeAccount { .. } => TransactionType::Resize,
            Operation::Transfer { .. } => TransactionType::Transfer,
            Operation::TransferFrom { .. } => TransactionType::TransferFrom,
            Operation::Allocate { .. } => TransactionType::Allocate,
        }
    }

    /// The program's calldata for this operation.
    pub fn encode_payload(&self) -> (r: Vec<u8>)
        ensures
            r@ == payload_of(self@),
            r@[0] == kind_ordinal(model_kind(self@)),
    {
        let mut out: Vec<u8> = Vec::new();
        match self {
            Operation::CreateAccount { seed } => {
                out.push(0u8);
                push_bytes(&mut out, seed.as_slice());
            },
            Operation::ResizeAccount { new_size } => {
                out.push(1u8);
                push_le_u64(&mut out, *new_size);
            },
            Operation::Transfer { amount } => {
                out.push(2u8);
                push_le_u64(&mut out, *amount);
            },
            Operation::TransferFrom { seed, amount } => {
                out.push(3u8);
                push_le_u64(&mut out, *amount);
                push_bytes(&mut out, seed.as_slice());
            },
            Operation::Allocate { seed, new_size } => {
                out.push(4u8);
                push_le_u64(&mut out, *new_size);
                push_bytes(&mut out, seed.as_slice());
            },
        }
        out
    }

    /// The operation that a payload encodes, or `None` where the payload is
    /// not one that [`Operation::encode_payload`] produces.
    pub fn decode_payload(p: &[u8]) -> (r: Option<Operation>)
        ensures
            r matches Some(o) ==> operation_of(p@) == Some(o@),
            r is None <==> operation_of(p@) is None,
    {
        let n = p.len();
        if n == 0 {
            None
        } else if p[0] == 0 {
            let seed = slice_to_vec(slice_subrange(p, 1, n));
            assert(seed@ =~= p@.drop_first());
            Some(Operation::CreateAccount { seed })
        } else if p[0] == 1 && n == 9 {
            Some(Operation::ResizeAccount { new_size: read_u64_at(p, 1) })
        } else if p[0] == 2 && n == 9 {
            Some(Operation::Transfer { amount: read_u64_at(p, 1) })
        } else if p[0] == 3 && n >= 9 {
            let seed = slice_to_vec(slice_subrange(p, 9, n));
            Some(Operation::TransferFrom { seed, amount: read_u64_at(p, 1) })
        } else if p[0] == 4 && n >= 9 {
            let seed = slice_to_vec(slice_subrange(p, 9, n));
            Some(Operation::Allocate { seed, new_size: read_u64_at(p, 1) })
        } else {
            None
        }
    }
}

} // verus!
