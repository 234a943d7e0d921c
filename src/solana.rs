use vstd::prelude::*;

use crate::abi::{pow256, lemma_pow256_16, lemma_pow256_mono, copy_range};
use crate::error::IndexerError;
use crate::evm::bytes_eq;
use crate::model::{
    case_status_from_code, case_status_of, record_kind_of, role_from_code, role_of,
    status_from_code, status_of, AddressData, AssetData, CaseData, EventName, PushData,
    PushDataModel, RecordKind, ReporterData, MAX_RISK,
};

verus! {

// Instruction data read here: an 8-byte discriminator naming the instruction,
// then the fields of the record it creates or changes, in the record's field
// order, integers little-endian and keys as 32 raw bytes.

/// Bytes of the discriminator that opens each instruction's data.
pub const DISCRIMINATOR_LEN: usize = 8;

/// A transaction of the program, as fetched by its signature.
#[derive(Debug, Clone, PartialEq, Eq)]
pub struct SolanaTransaction {
    pub slot: u64,
    pub block_time: u64,
    /// The data of each instruction addressed to the program, in order.
    pub instructions: Vec<Vec<u8>>,
}

/// The discriminator that identifies one instruction kind.
#[derive(Debug, Clone, PartialEq, Eq)]
pub struct InstructionSignature {
    pub discriminator: Vec<u8>,
    pub event: EventName,
}

/// The number that the bytes of `s` spell, least significant first.
pub open spec fn le_value(s: Seq<u8>) -> nat
    decreases s.len(),
{
    if s.len() == 0 {
        0
    } else {
        le_value(s.drop_first()) * 256 + s[0] as nat
    }
}

/// The `n` bytes that spell `v`, least significant first (`v` reduced modulo `256^n`).
pub open spec fn le_bytes(v: nat, n: nat) -> Seq<u8>
    decreases n,
{
    if n == 0 {
        Seq::empty()
    } else {
        seq![(v % 256) as u8] + le_bytes(v / 256, (n - 1) as nat)
    }
}

pub proof fn lemma_le_round_trip(v: nat, n: nat)
    requires
        v < pow256(n),
    ensures
        le_value(le_bytes(v, n)) == v,
        le_bytes(v, n).len() == n,
    decreases n,
{
    if n > 0 {
        let p = pow256((n - 1) as nat);
        assert(v / 256 < p) by (nonlinear_arith)
            requires v < 256 * p;
        lemma_le_round_trip(v / 256, (n - 1) as nat);
        let s = le_bytes(v, n);
        assert(s.drop_first() =~= le_bytes(v / 256, (n - 1) as nat));
        assert(v == (v / 256) * 256 + v % 256) by (nonlinear_arith);
    }
}

/// The unsigned field of `n` bytes at `at`.
pub open spec fn le_at(d: Seq<u8>, at: int, n: int) -> nat {
    le_value(d.subrange(at, at + n))
}

/// The event kind of the first entry whose discriminator is `t`.
pub open spec fn lookup_instruction(table: Seq<InstructionSignature>, t: Seq<u8>) -> Option<EventName>
    decreases table.len(),
{
    if table.len() == 0 {
        None
    } else if table[0].discriminator@ == t {
        Some(table[0].event)
    } else {
        lookup_instruction(table.drop_first(), t)
    }
}

/// Reporter instructions: id (16), account (32), role (1), status (1).
pub open spec fn reporter_args(a: Seq<u8>) -> Option<PushDataModel> {
    if a.len() == 50 {
        match (role_of(a[48] as nat), status_of(a[49] as nat)) {
            (Some(role), Some(status)) => Some(
                PushDataModel::Reporter {
                    id: le_at(a, 0, 16),
                    account: a.subrange(16, 48),
                    role,
                    status: Some(status),
                },
            ),
            _ => None,
        }
    } else {
        None
    }
}

/// Case instructions: id (16), status (1).
pub open spec fn case_args(a: Seq<u8>) -> Option<PushDataModel> {
    if a.len() == 17 {
        match case_status_of(a[16] as nat) {
            Some(status) => Some(PushDataModel::Case { id: le_at(a, 0, 16), status }),
            None => None,
        }
    } else {
        None
    }
}

/// Address instructions: address (32), case id (16), reporter id (16),
/// confirmations (8), risk (1), category (1).
pub open spec fn address_args(a: Seq<u8>) -> Option<PushDataModel> {
    if a.len() == 74 && a[72] <= 10 {
        Some(
            PushDataModel::Address {
                address: a.subrange(0, 32),
                case_id: le_at(a, 32, 16),
                reporter_id: le_at(a, 48, 16),
                confirmations: le_at(a, 64, 8),
                risk: a[72] as nat,
                category: a[73] as nat,
            },
        )
    } else {
        None
    }
}

/// Asset instructions: address (32), asset id (32), risk (1), category (1).
pub open spec fn asset_args(a: Seq<u8>) -> Option<PushDataModel> {
    if a.len() == 66 && a[64] <= 10 {
        Some(
            PushDataModel::Asset {
                address: a.subrange(0, 32),
                asset_id: a.subrange(32, 64),
                risk: a[64] as nat,
                category: a[65] as nat,
            },
        )
    } else {
        None
    }
}

/// What one instruction decodes to: its event kind and record, `None` for a
/// recognised kind that is not mapped, or why it cannot be decoded.
pub open spec fn decode_instruction_spec(table: Seq<InstructionSignature>, ix: Seq<u8>) -> Result<
    Option<(EventName, PushDataModel)>,
    IndexerError,
> {
    if ix.len() < 8 {
        Err(IndexerError::UnknownEvent)
    } else {
        match lookup_instruction(table, ix.subrange(0, 8)) {
            None => Err(IndexerError::UnknownEvent),
            Some(e) => {
                let a = ix.subrange(8, ix.len() as int);
                let d = match record_kind_of(e) {
                    RecordKind::Reporter => reporter_args(a),
                    RecordKind::Case => case_args(a),
                    RecordKind::Address => address_args(a),
                    RecordKind::Asset => asset_args(a),
                    RecordKind::Unmapped => None,
                };
                if record_kind_of(e) == RecordKind::Unmapped {
                    Ok(None)
                } else {
                    match d {
                        Some(v) => Ok(Some((e, v))),
                        None => Err(IndexerError::MalformedData),
                    }
                }
            },
        }
    }
}

/// The records of a transaction's instructions in order, or the first
/// instruction's failure.
pub open spec fn decode_instructions_spec(
    table: Seq<InstructionSignature>,
    ixs: Seq<Seq<u8>>,
) -> Result<Seq<(EventName, PushDataModel)>, IndexerError>
    decreases ixs.len(),
{
    if ixs.len() == 0 {
        Ok(Seq::empty())
    } else {
        match decode_instructions_spec(table, ixs.drop_last()) {
            Err(x) => Err(x),
            Ok(acc) => match decode_instruction_spec(table, ixs.last()) {
                Err(x) => Err(x),
                Ok(None) => Ok(acc),
                Ok(Some(p)) => Ok(acc.push(p)),
            },
        }
    }
}

proof fn lemma_le_value_bound(s: Seq<u8>)
    ensures
        le_value(s) < pow256(s.len()),
    decreases s.len(),
{
    if s.len() > 0 {
        lemma_le_value_bound(s.drop_first());
        let p = pow256((s.len() - 1) as nat);
        let v = le_value(s.drop_first());
        assert(v * 256 + s[0] as nat <= (p - 1) * 256 + 255) by (nonlinear_arith)
            requires v < p, s[0] < 256;
    }
}

/// The unsigned field of `n` bytes at `at`, least significant first.
fn read_le(d: &Vec<u8>, at: usize, n: usize) -> (r: u128)
    requires
        n <= 16,
        at + n <= d@.len(),
    ensures
        r as nat == le_at(d@, at as int, n as int),
{
    let len: usize = d.len();
    let mut acc: u128 = 0;
    let mut k: usize = n;
    assert(d@.subrange(at + n, at + n) =~= Seq::<u8>::empty());
    while k > 0
        invariant
            n <= 16,
            at + n <= d@.len(),
            len == d@.len(),
            k <= n,
            acc as nat == le_value(d@.subrange(at + k, at + n)),
        decreases k,
    {
        let ghost prev = d@.subrange(at + k, at + n);
        proof {
            lemma_le_value_bound(prev);
            lemma_pow256_16();
            lemma_pow256_mono(prev.len(), 15);
            assert(d@.subrange(at + k - 1, at + n).drop_first() =~= prev);
            let pv = pow256(prev.len());
            assert(acc * 256 + 255 < pow256(16)) by (nonlinear_arith)
                requires acc < pv, pv <= pow256(15), pow256(16) == 256 * pow256(15);
        }
        acc = acc * 256 + d[at + k - 1] as u128;
        k = k - 1;
    }
    acc
}

/// Finds the event kind whose discriminator is `t`.
pub fn find_instruction(table: &Vec<InstructionSignature>, t: &Vec<u8>) -> (r: Option<EventName>)
    ensures
        r == lookup_instruction(table@, t@),
{
    let mut i: usize = 0;
    assert(table@.subrange(0, table@.len() as int) =~= table@);
    while i < table.len()
        invariant
            i <= table@.len(),
            lookup_instruction(table@, t@) == lookup_instruction(
                table@.subrange(i as int, table@.len() as int),
                t@,
            ),
        decreases table@.len() - i,
    {
        let ghost rest = table@.subrange(i as int, table@.len() as int);
        assert(rest.drop_first() =~= table@.subrange(i + 1, table@.len() as int));
        if bytes_eq(&table[i].discriminator, t) {
            return Some(table[i].event);
        }
        i = i + 1;
    }
    None
}

fn args_record(kind: RecordKind, a: &Vec<u8>) -> (r: Option<PushData>)
    requires
        kind != RecordKind::Unmapped,
    ensures
        match r {
            Some(d) => Some(d@),
            None => None::<PushDataModel>,
        } == match kind {
            RecordKind::Reporter => reporter_args(a@),
            RecordKind::Case => case_args(a@),
            RecordKind::Address => address_args(a@),
            _ => asset_args(a@),
        },
{
    proof {
        lemma_pow256_16();
        assert(pow256(8) == 0x1_0000_0000_0000_0000) by {
            reveal_with_fuel(pow256, 9);
        }
    }
    match kind {
        RecordKind::Reporter => {
            if a.len() != 50 {
                return None;
            }
            match (role_from_code(a[48] as u128), status_from_code(a[49] as u128)) {
                (Some(role), Some(status)) => {
                    let id = read_le(a, 0, 16);
                    let account = copy_range(a, 16, 48);
                    Some(PushData::Reporter(ReporterData { id, account, role, status: Some(status) }))
                },
                _ => None,
            }
        },
        RecordKind::Case => {
            if a.len() != 17 {
                return None;
            }
            match case_status_from_code(a[16] as u128) {
                Some(status) => Some(PushData::Case(CaseData { id: read_le(a, 0, 16), status })),
                None => None,
            }
        },
        RecordKind::Address => {
            if a.len() != 74 || a[72] > MAX_RISK {
                return None;
            }
            let address = copy_range(a, 0, 32);
            let case_id = read_le(a, 32, 16);
            let reporter_id = read_le(a, 48, 16);
            let confirmations = read_le(a, 64, 8);
            proof {
                lemma_le_value_bound(a@.subrange(64, 72));
            }
            Some(
                PushData::Address(
                    AddressData {
                        address,
                        case_id,
                        reporter_id,
                        confirmations: confirmations as u64,
                        risk: a[72],
                        category: a[73],
                    },
                ),
            )
        },
        _ => {
            if a.len() != 66 || a[64] > MAX_RISK {
                return None;
            }
            let address = copy_range(a, 0, 32);
            let asset_id = copy_range(a, 32, 64);
            Some(PushData::Asset(AssetData { address, asset_id, risk: a[64], category: a[65] }))
        },
    }
}

/// Decodes one instruction's data.
pub fn decode_instruction(table: &Vec<InstructionSignature>, ix: &Vec<u8>) -> (r: Result<
    Option<(EventName, PushData)>,
    IndexerError,
>)
    ensures
        crate::evm::decoded_view(r) == decode_instruction_spec(table@, ix@),
{
    if ix.len() < DISCRIMINATOR_LEN {
        return Err(IndexerError::UnknownEvent);
    }
    let head = copy_range(ix, 0, DISCRIMINATOR_LEN);
    let e = match find_instruction(table, &head) {
        Some(e) => e,
        None => {
            return Err(IndexerError::UnknownEvent);
        },
    };
    let kind = e.record_kind();
    if let RecordKind::Unmapped = kind {
        return Ok(None);
    }
    let a = copy_range(ix, DISCRIMINATOR_LEN, ix.len());
    match args_record(kind, &a) {
        Some(d) => Ok(Some((e, d))),
        None => Err(IndexerError::MalformedData),
    }
}

} // verus!
