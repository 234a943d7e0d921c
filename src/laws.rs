use vstd::prelude::*;

use crate::abi::{
    address_word, lemma_address_word_round_trip, lemma_pow256_16, lemma_uint_word_round_trip,
    pow256, uint_word, word,
};
use crate::client::{
    fetch_spec, instruction_views, page_view, payload_of_instruction, process_spec, FetchedPage,
    IndexerClient, JobDetail,
};
use crate::cursor::{cursor_follows, CursorView, IndexingCursor};
use crate::driver::{commit_spec, committed_run, PageOutcome};
use crate::error::IndexerError;
use crate::evm::{decode_log_spec, lookup_event, EventSignature, EvmLog};
use crate::fetch::{block_range_spec, log_jobs, signature_cursor, signature_jobs};
use crate::job::IndexerJob;
use crate::model::{
    case_status_code, record_kind_of, role_code, status_after, status_code, CaseStatus, EventName,
    PushDataModel, RecordKind, ReporterRole, ReporterStatus,
};
use crate::solana::{
    decode_instruction_spec, decode_instructions_spec, le_bytes, lemma_le_round_trip, lookup_instruction,
    InstructionSignature, SolanaTransaction,
};

verus! {

/// Committed cursors never go back: over any run of iterations each committed
/// cursor follows the one before it, and once a cursor is set no later one is
/// `Initial`.
pub proof fn lemma_committed_cursors_monotone(start: IndexingCursor, outcomes: Seq<PageOutcome>)
    ensures
        committed_run(start, outcomes).len() == outcomes.len() + 1,
        forall|i: int|
            0 <= i < outcomes.len() ==> cursor_follows(
                #[trigger] committed_run(start, outcomes)[i],
                committed_run(start, outcomes)[i + 1],
            ),
        forall|i: int, j: int|
            #![trigger committed_run(start, outcomes)[i], committed_run(start, outcomes)[j]]
            0 <= i <= j <= outcomes.len() && !(committed_run(start, outcomes)[i] is Initial) ==> !(
            committed_run(start, outcomes)[j] is Initial),
    decreases outcomes.len(),
{
    if outcomes.len() > 0 {
        let prev = committed_run(start, outcomes.drop_last());
        lemma_committed_cursors_monotone(start, outcomes.drop_last());
        let last = prev.last();
        let next = commit_spec(last, outcomes.last());
        assert(cursor_follows(last, next)) by {
            match last {
                IndexingCursor::Block(b) => {},
                _ => {},
            }
        }
        let run = committed_run(start, outcomes);
        assert(run == prev.push(next));
        assert forall|i: int, j: int|
            #![trigger run[i], run[j]]
            0 <= i <= j <= outcomes.len() && !(run[i] is Initial) implies !(run[j] is Initial) by {
            if j == outcomes.len() && i < j {
                assert(!(prev[i] is Initial));
                assert(!(prev[prev.len() - 1] is Initial));
            }
        }
    }
}

/// Fetching again from the same cursor over unchanged upstream data gives the
/// same page: two results that both meet the contract of `fetch_jobs` for one
/// client, cursor and upstream page hold the same jobs and the same successor
/// cursor.
pub proof fn lemma_fetch_replay(
    c: IndexerClient,
    cursor: IndexingCursor,
    page: FetchedPage,
    r1: Result<(Vec<IndexerJob>, IndexingCursor), IndexerError>,
    r2: Result<(Vec<IndexerJob>, IndexingCursor), IndexerError>,
)
    requires
        page_view(r1) == fetch_spec(c, cursor, page),
        page_view(r2) == fetch_spec(c, cursor, page),
    ensures
        page_view(r1) == page_view(r2),
        r1 is Ok <==> r2 is Ok,
        r1 matches Ok((j1, n1)) ==> r2 matches Ok((j2, n2)) && j1@ == j2@ && n1@ == n2@,
{
}

/// An account-style page with no matching logs holds no job and moves the
/// cursor to the end of the queried range, which is a full page on when the
/// head allows it; a transaction-stream page with no new signature holds no
/// job and leaves the cursor as it was.
pub proof fn lemma_empty_page(cursor: IndexingCursor, page_size: u64, head: u64)
    ensures
        log_jobs(Seq::<EvmLog>::empty()).len() == 0,
        signature_jobs(Seq::<String>::empty()).len() == 0,
        signature_cursor(cursor, Seq::<String>::empty()) == cursor@,
        cursor is Block && cursor->Block_0 + page_size <= head ==> block_range_spec(
            cursor,
            page_size,
            head,
        ) == Ok::<crate::fetch::BlockRange, IndexerError>(
            crate::fetch::BlockRange {
                from: cursor->Block_0,
                to: (cursor->Block_0 + page_size) as u64,
            },
        ),
        cursor is Initial && page_size <= head ==> block_range_spec(cursor, page_size, head)
            == Ok::<crate::fetch::BlockRange, IndexerError>(
            crate::fetch::BlockRange { from: 0, to: page_size },
        ),
{
}

/// A reporter log built from its fields decodes to exactly those fields, with
/// the status that its event kind sets.
pub proof fn lemma_reporter_log_round_trip(
    table: Seq<EventSignature>,
    sig: Seq<u8>,
    e: EventName,
    id: u128,
    account: Seq<u8>,
    role: ReporterRole,
    record: Option<Seq<u8>>,
)
    requires
        lookup_event(table, sig) == Some(e),
        record_kind_of(e) == RecordKind::Reporter,
        account.len() == 20,
    ensures
        decode_log_spec(
            table,
            seq![sig, uint_word(id as nat)],
            address_word(account) + uint_word(role_code(role)),
            record,
        ) == Ok::<Option<(EventName, PushDataModel)>, IndexerError>(
            Some(
                (
                    e,
                    PushDataModel::Reporter { id: id as nat, account, role, status: status_after(e) },
                ),
            ),
        ),
{
    lemma_pow256_16();
    assert(pow256(1) == 256) by {
        reveal_with_fuel(pow256, 2);
    }
    lemma_uint_word_round_trip(id as nat, 16);
    lemma_uint_word_round_trip(role_code(role), 1);
    lemma_address_word_round_trip(account);
    let data = address_word(account) + uint_word(role_code(role));
    assert(word(data, 0) =~= address_word(account));
    assert(word(data, 1) =~= uint_word(role_code(role)));
}

/// A case log built from its fields decodes to exactly those fields.
pub proof fn lemma_case_log_round_trip(
    table: Seq<EventSignature>,
    sig: Seq<u8>,
    e: EventName,
    id: u128,
    status: CaseStatus,
    record: Option<Seq<u8>>,
)
    requires
        lookup_event(table, sig) == Some(e),
        record_kind_of(e) == RecordKind::Case,
    ensures
        decode_log_spec(table, seq![sig, uint_word(id as nat)], uint_word(case_status_code(status)), record)
            == Ok::<Option<(EventName, PushDataModel)>, IndexerError>(
            Some((e, PushDataModel::Case { id: id as nat, status })),
        ),
{
    lemma_pow256_16();
    assert(pow256(1) == 256) by {
        reveal_with_fuel(pow256, 2);
    }
    lemma_uint_word_round_trip(id as nat, 16);
    lemma_uint_word_round_trip(case_status_code(status), 1);
    assert(word(uint_word(case_status_code(status)), 0) =~= uint_word(case_status_code(status)));
}

/// An asset log built from its fields decodes to exactly those fields.
pub proof fn lemma_asset_log_round_trip(
    table: Seq<EventSignature>,
    sig: Seq<u8>,
    e: EventName,
    address: Seq<u8>,
    asset_id: Seq<u8>,
    risk: u8,
    category: u8,
    record: Option<Seq<u8>>,
)
    requires
        lookup_event(table, sig) == Some(e),
        record_kind_of(e) == RecordKind::Asset,
        address.len() == 20,
        asset_id.len() == 32,
        risk <= 10,
    ensures
        decode_log_spec(
            table,
            seq![sig, address_word(address)],
            asset_id + uint_word(risk as nat) + uint_word(category as nat),
            record,
        ) == Ok::<Option<(EventName, PushDataModel)>, IndexerError>(
            Some(
                (
                    e,
                    PushDataModel::Asset {
                        address,
                        asset_id,
                        risk: risk as nat,
                        category: category as nat,
                    },
                ),
            ),
        ),
{
    assert(pow256(1) == 256) by {
        reveal_with_fuel(pow256, 2);
    }
    lemma_uint_word_round_trip(risk as nat, 1);
    lemma_uint_word_round_trip(category as nat, 1);
    lemma_address_word_round_trip(address);
    let data = asset_id + uint_word(risk as nat) + uint_word(category as nat);
    assert(word(data, 0) =~= asset_id);
    assert(word(data, 1) =~= uint_word(risk as nat));
    assert(word(data, 2) =~= uint_word(category as nat));
}

/// An address log, with the state read of the address it names, decodes to
/// exactly the fields they were built from.
pub proof fn lemma_address_log_round_trip(
    table: Seq<EventSignature>,
    sig: Seq<u8>,
    e: EventName,
    address: Seq<u8>,
    case_id: u128,
    reporter_id: u128,
    confirmations: u64,
    risk: u8,
    category: u8,
)
    requires
        lookup_event(table, sig) == Some(e),
        record_kind_of(e) == RecordKind::Address,
        address.len() == 20,
        risk <= 10,
    ensures
        decode_log_spec(
            table,
            seq![sig, address_word(address)],
            uint_word(risk as nat) + uint_word(category as nat),
            Some(
                address_word(address) + uint_word(case_id as nat) + uint_word(reporter_id as nat)
                    + uint_word(confirmations as nat) + uint_word(risk as nat) + uint_word(
                    category as nat,
                ),
            ),
        ) == Ok::<Option<(EventName, PushDataModel)>, IndexerError>(
            Some(
                (
                    e,
                    PushDataModel::Address {
                        address,
                        case_id: case_id as nat,
                        reporter_id: reporter_id as nat,
                        confirmations: confirmations as nat,
                        risk: risk as nat,
                        category: category as nat,
                    },
                ),
            ),
        ),
{
    lemma_pow256_16();
    assert(pow256(1) == 256 && pow256(8) == 0x1_0000_0000_0000_0000) by {
        reveal_with_fuel(pow256, 9);
    }
    lemma_uint_word_round_trip(risk as nat, 1);
    lemma_uint_word_round_trip(category as nat, 1);
    lemma_uint_word_round_trip(case_id as nat, 16);
    lemma_uint_word_round_trip(reporter_id as nat, 16);
    lemma_uint_word_round_trip(confirmations as nat, 8);
    lemma_address_word_round_trip(address);
    let data = uint_word(risk as nat) + uint_word(category as nat);
    assert(word(data, 0) =~= uint_word(risk as nat));
    assert(word(data, 1) =~= uint_word(category as nat));
    let rec = address_word(address) + uint_word(case_id as nat) + uint_word(reporter_id as nat)
        + uint_word(confirmations as nat) + uint_word(risk as nat) + uint_word(category as nat);
    assert(word(rec, 0) =~= address_word(address));
    assert(word(rec, 1) =~= uint_word(case_id as nat));
    assert(word(rec, 2) =~= uint_word(reporter_id as nat));
    assert(word(rec, 3) =~= uint_word(confirmations as nat));
}

/// An event kind that is recognised but not mapped yields no payload and no
/// error, on either network kind.
pub proof fn lemma_unmapped_kind_is_skipped(
    table: Seq<EventSignature>,
    itable: Seq<InstructionSignature>,
    topics: Seq<Seq<u8>>,
    data: Seq<u8>,
    record: Option<Seq<u8>>,
    ix: Seq<u8>,
)
    requires
        topics.len() > 0,
        lookup_event(table, topics[0]) matches Some(e) && record_kind_of(e) == RecordKind::Unmapped,
        ix.len() >= 8,
        lookup_instruction(itable, ix.subrange(0, 8)) matches Some(e) && record_kind_of(e)
            == RecordKind::Unmapped,
    ensures
        decode_log_spec(table, topics, data, record) == Ok::<
            Option<(EventName, PushDataModel)>,
            IndexerError,
        >(None),
        decode_instruction_spec(itable, ix) == Ok::<Option<(EventName, PushDataModel)>, IndexerError>(
            None,
        ),
{
}

/// A job or detail of one network kind handed to a client of another is
/// refused.
pub proof fn lemma_wrong_pairing_rejected(c: IndexerClient, job: IndexerJob, detail: JobDetail)
    requires
        (c is Evm && (job is Transaction || detail is Transaction)) || (c is Solana && (job is Log
            || detail is Block)),
    ensures
        process_spec(c, job, detail) == Err::<
            Option<Seq<crate::model::PushPayloadModel>>,
            IndexerError,
        >(IndexerError::MismatchedJob),
{
}

/// Instruction data for a reporter, built from its fields, decodes to exactly
/// those fields.
pub proof fn lemma_reporter_instruction_round_trip(
    table: Seq<InstructionSignature>,
    disc: Seq<u8>,
    e: EventName,
    id: u128,
    account: Seq<u8>,
    role: ReporterRole,
    status: ReporterStatus,
)
    requires
        disc.len() == 8,
        lookup_instruction(table, disc) == Some(e),
        record_kind_of(e) == RecordKind::Reporter,
        account.len() == 32,
    ensures
        decode_instruction_spec(
            table,
            disc + le_bytes(id as nat, 16) + account + seq![role_code(role) as u8, status_code(status) as u8],
        ) == Ok::<Option<(EventName, PushDataModel)>, IndexerError>(
            Some((e, PushDataModel::Reporter { id: id as nat, account, role, status: Some(status) })),
        ),
{
    lemma_pow256_16();
    lemma_le_round_trip(id as nat, 16);
    let ix = disc + le_bytes(id as nat, 16) + account + seq![role_code(role) as u8, status_code(status) as u8];
    let a = ix.subrange(8, ix.len() as int);
    assert(ix.subrange(0, 8) =~= disc);
    assert(a.subrange(0, 16) =~= le_bytes(id as nat, 16));
    assert(a.subrange(16, 48) =~= account);
}

/// Instruction data for an address, built from its fields, decodes to
/// exactly those fields.
pub proof fn lemma_address_instruction_round_trip(
    table: Seq<InstructionSignature>,
    disc: Seq<u8>,
    e: EventName,
    address: Seq<u8>,
    case_id: u128,
    reporter_id: u128,
    confirmations: u64,
    risk: u8,
    category: u8,
)
    requires
        disc.len() == 8,
        lookup_instruction(table, disc) == Some(e),
        record_kind_of(e) == RecordKind::Address,
        address.len() == 32,
        risk <= 10,
    ensures
        decode_instruction_spec(
            table,
            disc + address + le_bytes(case_id as nat, 16) + le_bytes(reporter_id as nat, 16)
                + le_bytes(confirmations as nat, 8) + seq![risk, category],
        ) == Ok::<Option<(EventName, PushDataModel)>, IndexerError>(
            Some(
                (
                    e,
                    PushDataModel::Address {
                        address,
                        case_id: case_id as nat,
                        reporter_id: reporter_id as nat,
                        confirmations: confirmations as nat,
                        risk: risk as nat,
                        category: category as nat,
                    },
                ),
            ),
        ),
{
    lemma_pow256_16();
    assert(pow256(8) == 0x1_0000_0000_0000_0000) by {
        reveal_with_fuel(pow256, 9);
    }
    lemma_le_round_trip(case_id as nat, 16);
    lemma_le_round_trip(reporter_id as nat, 16);
    lemma_le_round_trip(confirmations as nat, 8);
    let ix = disc + address + le_bytes(case_id as nat, 16) + le_bytes(reporter_id as nat, 16)
        + le_bytes(confirmations as nat, 8) + seq![risk, category];
    let a = ix.subrange(8, ix.len() as int);
    assert(ix.subrange(0, 8) =~= disc);
    assert(a.subrange(0, 32) =~= address);
    assert(a.subrange(32, 48) =~= le_bytes(case_id as nat, 16));
    assert(a.subrange(48, 64) =~= le_bytes(reporter_id as nat, 16));
    assert(a.subrange(64, 72) =~= le_bytes(confirmations as nat, 8));
}

/// Instruction data for a case, built from its fields, decodes to exactly
/// those fields.
pub proof fn lemma_case_instruction_round_trip(
    table: Seq<InstructionSignature>,
    disc: Seq<u8>,
    e: EventName,
    id: u128,
    status: CaseStatus,
)
    requires
        disc.len() == 8,
        lookup_instruction(table, disc) == Some(e),
        record_kind_of(e) == RecordKind::Case,
    ensures
        decode_instruction_spec(table, disc + le_bytes(id as nat, 16) + seq![case_status_code(status) as u8])
            == Ok::<Option<(EventName, PushDataModel)>, IndexerError>(
            Some((e, PushDataModel::Case { id: id as nat, status })),
        ),
{
    lemma_pow256_16();
    lemma_le_round_trip(id as nat, 16);
    let ix = disc + le_bytes(id as nat, 16) + seq![case_status_code(status) as u8];
    let a = ix.subrange(8, ix.len() as int);
    assert(ix.subrange(0, 8) =~= disc);
    assert(a.subrange(0, 16) =~= le_bytes(id as nat, 16));
}

/// Instruction data for an asset, built from its fields, decodes to exactly
/// those fields.
pub proof fn lemma_asset_instruction_round_trip(
    table: Seq<InstructionSignature>,
    disc: Seq<u8>,
    e: EventName,
    address: Seq<u8>,
    asset_id: Seq<u8>,
    risk: u8,
    category: u8,
)
    requires
        disc.len() == 8,
        lookup_instruction(table, disc) == Some(e),
        record_kind_of(e) == RecordKind::Asset,
        address.len() == 32,
        asset_id.len() == 32,
        risk <= 10,
    ensures
        decode_instruction_spec(table, disc + address + asset_id + seq![risk, category]) == Ok::<
            Option<(EventName, PushDataModel)>,
            IndexerError,
        >(
            Some(
                (
                    e,
                    PushDataModel::Asset {
                        address,
                        asset_id,
                        risk: risk as nat,
                        category: category as nat,
                    },
                ),
            ),
        ),
{
    let ix = disc + address + asset_id + seq![risk, category];
    let a = ix.subrange(8, ix.len() as int);
    assert(ix.subrange(0, 8) =~= disc);
    assert(a.subrange(0, 32) =~= address);
    assert(a.subrange(32, 64) =~= asset_id);
}

/// A transaction-stream transaction that carries one instruction of a mapped
/// kind yields exactly one payload, holding the record that instruction
/// decodes to, with the transaction's provenance.
pub proof fn lemma_single_instruction_transaction(
    c: IndexerClient,
    sig: String,
    tx: SolanaTransaction,
    e: EventName,
    d: PushDataModel,
)
    requires
        c is Solana,
        tx.instructions@.len() == 1,
        decode_instruction_spec(c->Solana_0.instructions@, tx.instructions@[0]@) == Ok::<
            Option<(EventName, PushDataModel)>,
            IndexerError,
        >(Some((e, d))),
    ensures
        process_spec(c, IndexerJob::Transaction(sig), JobDetail::Transaction(tx)) == Ok::<
            Option<Seq<crate::model::PushPayloadModel>>,
            IndexerError,
        >(Some(seq![payload_of_instruction(c->Solana_0.network, sig@, tx, (e, d))])),
{
    let sc = c->Solana_0;
    let ixs = instruction_views(tx.instructions@);
    assert(ixs.drop_last() =~= Seq::<Seq<u8>>::empty());
    assert(ixs.last() == tx.instructions@[0]@);
    assert(decode_instructions_spec(sc.instructions@, ixs.drop_last()) == Ok::<
        Seq<(EventName, PushDataModel)>,
        IndexerError,
    >(Seq::empty()));
    let ps = decode_instructions_spec(sc.instructions@, ixs)->Ok_0;
    assert(ps =~= seq![(e, d)]);
    assert(ps.map_values(|p| payload_of_instruction(sc.network, sig@, tx, p)) =~= seq![
        payload_of_instruction(sc.network, sig@, tx, (e, d)),
    ]);
}

} // verus!
