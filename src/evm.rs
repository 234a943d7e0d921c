use vstd::prelude::*;

use crate::abi::{address_of, read_address, read_uint, uint_of, word, copy_range};
use crate::error::IndexerError;
use crate::model::{
    case_status_from_code, case_status_of, record_kind_of, role_from_code, role_of,
    status_after, status_after_event, AddressData, AssetData, CaseData, EventName, PushData,
    PushDataModel, RecordKind, ReporterData, MAX_RISK,
};

verus! {

/// One log entry as returned by a log-range query.
#[derive(Debug, Clone, PartialEq, Eq)]
pub struct EvmLog {
    /// Emitting contract.
    pub address: Vec<u8>,
    /// Event signature first, then the indexed fields.
    pub topics: Vec<Vec<u8>>,
    /// The non-indexed fields, one 32-byte slot each.
    pub data: Vec<u8>,
    pub block_number: u64,
    pub transaction_hash: Vec<u8>,
}

pub open spec fn topics_view(topics: Seq<Vec<u8>>) -> Seq<Seq<u8>> {
    topics.map_values(|t: Vec<u8>| t@)
}

/// The signature topic that identifies one event kind.
#[derive(Debug, Clone, PartialEq, Eq)]
pub struct EventSignature {
    pub topic: Vec<u8>,
    pub event: EventName,
}

/// The event kind of the first entry whose topic is `t`.
pub open spec fn lookup_event(table: Seq<EventSignature>, t: Seq<u8>) -> Option<EventName>
    decreases table.len(),
{
    if table.len() == 0 {
        None
    } else if table[0].topic@ == t {
        Some(table[0].event)
    } else {
        lookup_event(table.drop_first(), t)
    }
}

pub open spec fn small(w: Seq<u8>) -> Option<nat> {
    uint_of(w, 1)
}

pub open spec fn id_of(topic: Seq<u8>) -> Option<nat> {
    if topic.len() == 32 {
        uint_of(topic, 16)
    } else {
        None
    }
}

pub open spec fn key_address_of(topic: Seq<u8>) -> Option<Seq<u8>> {
    if topic.len() == 32 {
        address_of(topic)
    } else {
        None
    }
}

/// Reporter events: topic 1 the id; body account and role code. The status
/// follows from the event kind.
pub open spec fn decode_reporter(e: EventName, topics: Seq<Seq<u8>>, data: Seq<u8>) -> Option<PushDataModel> {
    if topics.len() == 2 && data.len() == 64 {
        match (id_of(topics[1]), address_of(word(data, 0)), small(word(data, 1))) {
            (Some(id), Some(account), Some(rc)) => match role_of(rc) {
                Some(role) => Some(
                    PushDataModel::Reporter { id, account, role, status: status_after(e) },
                ),
                None => None,
            },
            _ => None,
        }
    } else {
        None
    }
}

/// Case creation: topic 1 the id; body the status code. Case updates are
/// left unmapped.
pub open spec fn decode_case(topics: Seq<Seq<u8>>, data: Seq<u8>) -> Option<PushDataModel> {
    if topics.len() == 2 && data.len() == 32 {
        match (id_of(topics[1]), small(word(data, 0))) {
            (Some(id), Some(sc)) => match case_status_of(sc) {
                Some(status) => Some(PushDataModel::Case { id, status }),
                None => None,
            },
            _ => None,
        }
    } else {
        None
    }
}

/// Asset events: topic 1 the contract address; body asset id, risk, category.
pub open spec fn decode_asset(topics: Seq<Seq<u8>>, data: Seq<u8>) -> Option<PushDataModel> {
    if topics.len() == 2 && data.len() == 96 {
        match (key_address_of(topics[1]), small(word(data, 1)), small(word(data, 2))) {
            (Some(address), Some(risk), Some(category)) => if risk <= 10 {
                Some(PushDataModel::Asset { address, asset_id: word(data, 0), risk, category })
            } else {
                None
            },
            _ => None,
        }
    } else {
        None
    }
}

/// The address an address event names, and its risk and category.
pub open spec fn address_event_fields(topics: Seq<Seq<u8>>, data: Seq<u8>) -> Option<(Seq<u8>, nat, nat)> {
    if topics.len() == 2 && data.len() == 64 {
        match (key_address_of(topics[1]), small(word(data, 0)), small(word(data, 1))) {
            (Some(address), Some(risk), Some(category)) => if risk <= 10 {
                Some((address, risk, category))
            } else {
                None
            },
            _ => None,
        }
    } else {
        None
    }
}

/// Address events: topic 1 the address; body risk and category. The state
/// read of that address (address, case id, reporter id, confirmations, risk,
/// category) supplies the rest.
pub open spec fn decode_address(topics: Seq<Seq<u8>>, data: Seq<u8>, record: Option<Seq<u8>>) -> Result<PushDataModel, IndexerError> {
    match address_event_fields(topics, data) {
        None => Err(IndexerError::MalformedData),
        Some((address, risk, category)) => match record {
            None => Err(IndexerError::MissingRecord),
            Some(rec) => if rec.len() != 192 {
                Err(IndexerError::MalformedData)
            } else {
                match (address_of(word(rec, 0)), uint_of(word(rec, 1), 16), uint_of(word(rec, 2), 16), uint_of(word(rec, 3), 8)) {
                    (Some(ra), Some(case_id), Some(reporter_id), Some(confirmations)) => if ra == address {
                        Ok(PushDataModel::Address { address, case_id, reporter_id, confirmations, risk, category })
                    } else {
                        Err(IndexerError::RecordMismatch)
                    },
                    _ => Err(IndexerError::MalformedData),
                }
            },
        },
    }
}

pub open spec fn some_or_malformed(d: Option<PushDataModel>) -> Result<Option<PushDataModel>, IndexerError> {
    match d {
        Some(v) => Ok(Some(v)),
        None => Err(IndexerError::MalformedData),
    }
}

/// What a log decodes to: the event kind and its record, `None` for an
/// unmapped kind, or why it cannot be decoded.
pub open spec fn decode_log_spec(
    table: Seq<EventSignature>,
    topics: Seq<Seq<u8>>,
    data: Seq<u8>,
    record: Option<Seq<u8>>,
) -> Result<Option<(EventName, PushDataModel)>, IndexerError> {
    if topics.len() == 0 {
        Err(IndexerError::UnknownEvent)
    } else {
        match lookup_event(table, topics[0]) {
            None => Err(IndexerError::UnknownEvent),
            Some(e) => {
                let d = match record_kind_of(e) {
                    RecordKind::Reporter => some_or_malformed(decode_reporter(e, topics, data)),
                    RecordKind::Case => some_or_malformed(decode_case(topics, data)),
                    RecordKind::Asset => some_or_malformed(decode_asset(topics, data)),
                    RecordKind::Address => match decode_address(topics, data, record) {
                        Ok(v) => Ok(Some(v)),
                        Err(x) => Err(x),
                    },
                    RecordKind::Unmapped => Ok(None),
                };
                match d {
                    Ok(Some(v)) => Ok(Some((e, v))),
                    Ok(None) => Ok(None),
                    Err(x) => Err(x),
                }
            },
        }
    }
}

/// Finds the event kind whose signature topic is `t`.
pub fn find_event(table: &Vec<EventSignature>, t: &Vec<u8>) -> (r: Option<EventName>)
    ensures
        r == lookup_event(table@, t@),
{
    let mut i: usize = 0;
    assert(table@.subrange(0, table@.len() as int) =~= table@);
    while i < table.len()
        invariant
            i <= table@.len(),
            lookup_event(table@, t@) == lookup_event(table@.subrange(i as int, table@.len() as int), t@),
        decreases table@.len() - i,
    {
        let ghost rest = table@.subrange(i as int, table@.len() as int);
        assert(rest.drop_first() =~= table@.subrange(i + 1, table@.len() as int));
        if bytes_eq(&table[i].topic, t) {
            return Some(table[i].event);
        }
        i = i + 1;
    }
    None
}

/// Byte-wise equality.
pub fn bytes_eq(a: &Vec<u8>, b: &Vec<u8>) -> (r: bool)
    ensures
        r == (a@ == b@),
{
    if a.len() != b.len() {
        return false;
    }
    let mut i: usize = 0;
    while i < a.len()
        invariant
            a@.len() == b@.len(),
            i <= a@.len(),
            forall|j: int| 0 <= j < i ==> a@[j] == b@[j],
        decreases a@.len() - i,
    {
        if a[i] != b[i] {
            return false;
        }
        i = i + 1;
    }
    assert(a@ =~= b@);
    true
}

fn read_id(topic: &Vec<u8>) -> (r: Option<u128>)
    ensures
        id_of(topic@) == match r {
            Some(x) => Some(x as nat),
            None => None::<nat>,
        },
{
    if topic.len() != 32 {
        return None;
    }
    assert(word(topic@, 0) =~= topic@);
    read_uint(topic, 0, 16)
}

fn read_key_address(topic: &Vec<u8>) -> (r: Option<Vec<u8>>)
    ensures
        key_address_of(topic@) == match r {
            Some(a) => Some(a@),
            None => None::<Seq<u8>>,
        },
{
    if topic.len() != 32 {
        return None;
    }
    assert(word(topic@, 0) =~= topic@);
    read_address(topic, 0)
}

fn read_small(data: &Vec<u8>, i: usize) -> (r: Option<u8>)
    requires
        32 * i + 32 <= data@.len(),
    ensures
        small(word(data@, i as int)) == match r {
            Some(x) => Some(x as nat),
            None => None::<nat>,
        },
{
    match read_uint(data, i, 1) {
        Some(v) => {
            proof {
                crate::abi::lemma_be_value_bound(word(data@, i as int).subrange(31, 32));
                assert(crate::abi::pow256(1) == 256) by {
                    reveal_with_fuel(crate::abi::pow256, 2);
                }
            }
            Some(v as u8)
        },
        None => None,
    }
}

pub open spec fn opt_view(r: Option<PushData>) -> Option<PushDataModel> {
    match r {
        Some(d) => Some(d@),
        None => None,
    }
}

pub open spec fn decoded_view(r: Result<Option<(EventName, PushData)>, IndexerError>) -> Result<
    Option<(EventName, PushDataModel)>,
    IndexerError,
> {
    match r {
        Ok(Some((e, d))) => Ok(Some((e, d@))),
        Ok(None) => Ok(None),
        Err(x) => Err(x),
    }
}

fn reporter_from_log(e: EventName, topics: &Vec<Vec<u8>>, data: &Vec<u8>) -> (r: Option<PushData>)
    ensures
        opt_view(r) == decode_reporter(e, topics_view(topics@), data@),
{
    if topics.len() != 2 || data.len() != 64 {
        return None;
    }
    let ghost tv = topics_view(topics@);
    assert(tv[1] == topics@[1]@);
    let id = read_id(&topics[1]);
    let account = read_address(data, 0);
    let rc = read_small(data, 1);
    match (id, account, rc) {
        (Some(id), Some(account), Some(rc)) => match role_from_code(rc as u128) {
            Some(role) => Some(
                PushData::Reporter(
                    ReporterData { id, account, role, status: status_after_event(e) },
                ),
            ),
            None => None,
        },
        _ => None,
    }
}

fn case_from_log(topics: &Vec<Vec<u8>>, data: &Vec<u8>) -> (r: Option<PushData>)
    ensures
        opt_view(r) == decode_case(topics_view(topics@), data@),
{
    if topics.len() != 2 || data.len() != 32 {
        return None;
    }
    let ghost tv = topics_view(topics@);
    assert(tv[1] == topics@[1]@);
    let id = read_id(&topics[1]);
    let sc = read_small(data, 0);
    match (id, sc) {
        (Some(id), Some(sc)) => match case_status_from_code(sc as u128) {
            Some(status) => Some(PushData::Case(CaseData { id, status })),
            None => None,
        },
        _ => None,
    }
}

fn asset_from_log(topics: &Vec<Vec<u8>>, data: &Vec<u8>) -> (r: Option<PushData>)
    ensures
        opt_view(r) == decode_asset(topics_view(topics@), data@),
{
    if topics.len() != 2 || data.len() != 96 {
        return None;
    }
    let ghost tv = topics_view(topics@);
    assert(tv[1] == topics@[1]@);
    let address = read_key_address(&topics[1]);
    let risk = read_small(data, 1);
    let category = read_small(data, 2);
    match (address, risk, category) {
        (Some(address), Some(risk), Some(category)) => {
            if risk <= MAX_RISK {
                let asset_id = copy_range(data, 0, 32);
                Some(PushData::Asset(AssetData { address, asset_id, risk, category }))
            } else {
                None
            }
        },
        _ => None,
    }
}

fn address_from_log(topics: &Vec<Vec<u8>>, data: &Vec<u8>, record: &Option<Vec<u8>>) -> (r:
    Result<PushData, IndexerError>)
    ensures
        decode_address(topics_view(topics@), data@, record_view(*record)) == match r {
            Ok(d) => Ok(d@),
            Err(x) => Err::<PushDataModel, IndexerError>(x),
        },
{
    if topics.len() != 2 || data.len() != 64 {
        return Err(IndexerError::MalformedData);
    }
    let ghost tv = topics_view(topics@);
    assert(tv[1] == topics@[1]@);
    let address = read_key_address(&topics[1]);
    let risk = read_small(data, 0);
    let category = read_small(data, 1);
    let (address, risk, category) = match (address, risk, category) {
        (Some(a), Some(r), Some(c)) => {
            if r > MAX_RISK {
                return Err(IndexerError::MalformedData);
            }
            (a, r, c)
        },
        _ => {
            return Err(IndexerError::MalformedData);
        },
    };
    let rec = match record {
        Some(rec) => rec,
        None => {
            return Err(IndexerError::MissingRecord);
        },
    };
    if rec.len() != 192 {
        return Err(IndexerError::MalformedData);
    }
    let ra = read_address(rec, 0);
    let case_id = read_uint(rec, 1, 16);
    let reporter_id = read_uint(rec, 2, 16);
    let confirmations = read_uint(rec, 3, 8);
    match (ra, case_id, reporter_id, confirmations) {
        (Some(ra), Some(case_id), Some(reporter_id), Some(confirmations)) => {
            if !bytes_eq(&ra, &address) {
                return Err(IndexerError::RecordMismatch);
            }
            proof {
                crate::abi::lemma_be_value_bound(word(rec@, 3).subrange(24, 32));
                assert(crate::abi::pow256(8) == 0x1_0000_0000_0000_0000) by {
                    reveal_with_fuel(crate::abi::pow256, 9);
                }
            }
            Ok(
                PushData::Address(
                    AddressData {
                        address,
                        case_id,
                        reporter_id,
                        confirmations: confirmations as u64,
                        risk,
                        category,
                    },
                ),
            )
        },
        _ => Err(IndexerError::MalformedData),
    }
}

pub open spec fn record_view(record: Option<Vec<u8>>) -> Option<Seq<u8>> {
    match record {
        Some(v) => Some(v@),
        None => None,
    }
}

/// Decodes a log into its event kind and record: `Ok(None)` for a kind that
/// is recognised but not mapped. `record` is the state read that address
/// events need (see `record_key`).
pub fn decode_log(table: &Vec<EventSignature>, log: &EvmLog, record: &Option<Vec<u8>>) -> (r:
    Result<Option<(EventName, PushData)>, IndexerError>)
    ensures
        decoded_view(r) == decode_log_spec(
            table@,
            topics_view(log.topics@),
            log.data@,
            record_view(*record),
        ),
{
    if log.topics.len() == 0 {
        return Err(IndexerError::UnknownEvent);
    }
    let ghost tv = topics_view(log.topics@);
    assert(tv[0] == log.topics@[0]@);
    let e = match find_event(table, &log.topics[0]) {
        Some(e) => e,
        None => {
            return Err(IndexerError::UnknownEvent);
        },
    };
    let d = match e.record_kind() {
        RecordKind::Reporter => reporter_from_log(e, &log.topics, &log.data),
        RecordKind::Case => case_from_log(&log.topics, &log.data),
        RecordKind::Asset => asset_from_log(&log.topics, &log.data),
        RecordKind::Address => match address_from_log(&log.topics, &log.data, record) {
            Ok(d) => Some(d),
            Err(x) => {
                return Err(x);
            },
        },
        RecordKind::Unmapped => {
            return Ok(None);
        },
    };
    match d {
        Some(d) => Ok(Some((e, d))),
        None => Err(IndexerError::MalformedData),
    }
}

/// The address whose state read an address event needs, `None` for other logs.
pub open spec fn record_key_spec(table: Seq<EventSignature>, topics: Seq<Seq<u8>>) -> Option<Seq<u8>> {
    if topics.len() == 2 {
        match lookup_event(table, topics[0]) {
            Some(e) => if record_kind_of(e) == RecordKind::Address {
                key_address_of(topics[1])
            } else {
                None
            },
            None => None,
        }
    } else {
        None
    }
}

/// The address to read from contract state before decoding `log`, if any.
pub fn record_key(table: &Vec<EventSignature>, log: &EvmLog) -> (r: Option<Vec<u8>>)
    ensures
        record_view(r) == record_key_spec(table@, topics_view(log.topics@)),
{
    if log.topics.len() != 2 {
        return None;
    }
    let ghost tv = topics_view(log.topics@);
    assert(tv[0] == log.topics@[0]@ && tv[1] == log.topics@[1]@);
    match find_event(table, &log.topics[0]) {
        Some(e) => match e.record_kind() {
            RecordKind::Address => read_key_address(&log.topics[1]),
            _ => None,
        },
        None => None,
    }
}

} // verus!
