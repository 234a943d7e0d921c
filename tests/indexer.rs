use hapi_indexer::client::{FetchedPage, IndexerClient, JobDetail};
use hapi_indexer::config::{page_size, parse_u64, DEFAULT_PAGE_SIZE};
use hapi_indexer::cursor::{follows, IndexingCursor};
use hapi_indexer::driver::{commit, PageOutcome, RetryPolicy};
use hapi_indexer::error::IndexerError;
use hapi_indexer::evm::{decode_log, record_key, EventSignature, EvmLog};
use hapi_indexer::fetch::BlockRange;
use hapi_indexer::job::IndexerJob;
use hapi_indexer::model::{
    CaseStatus, EventName, NetworkKind, PushData, ReporterRole, ReporterStatus, TxReference,
};
use hapi_indexer::program::{print_error, ErrorCode, Reporter};
use hapi_indexer::solana::{decode_instruction, InstructionSignature, SolanaTransaction};

const CONTRACT: &str = "0x2947F98C42597966a0ec25e92843c09ac18Fbab7";

fn sig_topic(n: u8) -> Vec<u8> {
    vec![n; 32]
}

fn table() -> Vec<EventSignature> {
    let kinds = [
        EventName::Initialize,
        EventName::CreateReporter,
        EventName::CreateCase,
        EventName::UpdateCase,
        EventName::CreateAddress,
        EventName::CreateAsset,
        EventName::UpdateReporter,
        EventName::ActivateReporter,
    ];
    kinds
        .iter()
        .enumerate()
        .map(|(i, e)| EventSignature { topic: sig_topic(i as u8 + 1), event: *e })
        .collect()
}

fn topic_of(e: EventName) -> Vec<u8> {
    table().into_iter().find(|s| s.event == e).unwrap().topic
}

fn uint_word(v: u128) -> Vec<u8> {
    let mut w = vec![0u8; 16];
    w.extend_from_slice(&v.to_be_bytes());
    w
}

fn address_word(a: &[u8]) -> Vec<u8> {
    let mut w = vec![0u8; 12];
    w.extend_from_slice(a);
    w
}

fn log(e: EventName, key: Vec<u8>, data: Vec<u8>, block: u64) -> EvmLog {
    EvmLog {
        address: contract_bytes(),
        topics: vec![topic_of(e), key],
        data,
        block_number: block,
        transaction_hash: vec![0xab; 32],
    }
}

fn contract_bytes() -> Vec<u8> {
    vec![
        0x29, 0x47, 0xF9, 0x8C, 0x42, 0x59, 0x79, 0x66, 0xa0, 0xec, 0x25, 0xe9, 0x28, 0x43, 0xc0,
        0x9a, 0xc1, 0x8F, 0xba, 0xb7,
    ]
}

fn reporter_event_log(e: EventName, block: u64) -> EvmLog {
    let mut data = address_word(&[7u8; 20]);
    data.extend(uint_word(2));
    log(e, uint_word(3), data, block)
}

fn reporter_log(block: u64) -> EvmLog {
    reporter_event_log(EventName::CreateReporter, block)
}

fn address_log(addr: &[u8]) -> EvmLog {
    let mut data = uint_word(5);
    data.extend(uint_word(2));
    log(EventName::CreateAddress, address_word(addr), data, 12)
}

fn address_record(addr: &[u8], case_id: u128, reporter_id: u128) -> Vec<u8> {
    let mut rec = address_word(addr);
    rec.extend(uint_word(case_id));
    rec.extend(uint_word(reporter_id));
    rec.extend(uint_word(4));
    rec.extend(uint_word(5));
    rec.extend(uint_word(2));
    rec
}

fn evm_client(ps: u64) -> IndexerClient {
    IndexerClient::new(NetworkKind::Ethereum, "http://localhost:8545", CONTRACT, ps, table(), vec![])
        .unwrap()
}

fn instruction_table() -> Vec<InstructionSignature> {
    vec![
        InstructionSignature { discriminator: vec![1; 8], event: EventName::CreateReporter },
        InstructionSignature { discriminator: vec![2; 8], event: EventName::CreateAddress },
        InstructionSignature { discriminator: vec![3; 8], event: EventName::UpdateCase },
        InstructionSignature { discriminator: vec![4; 8], event: EventName::CreateCase },
        InstructionSignature { discriminator: vec![5; 8], event: EventName::CreateAsset },
    ]
}

fn solana_client() -> IndexerClient {
    IndexerClient::new(NetworkKind::Solana, "http://localhost:8899", "hapiProgram1111", 0, vec![], instruction_table())
        .unwrap()
}

fn solana_reporter_ix(id: u128) -> Vec<u8> {
    let mut ix = vec![1u8; 8];
    ix.extend_from_slice(&id.to_le_bytes());
    ix.extend_from_slice(&[9u8; 32]);
    ix.push(3);
    ix.push(1);
    ix
}

#[test]
fn first_page_from_initial_cursor_holds_one_job() {
    let client = evm_client(500);
    let range = client.block_range(&IndexingCursor::Initial, 1000).unwrap();
    assert_eq!(range, BlockRange { from: 0, to: 500 });
    let page = FetchedPage::Logs { range, logs: vec![reporter_log(10)] };
    let (jobs, next) = client.fetch_jobs(&IndexingCursor::Initial, page).unwrap();
    assert_eq!(jobs.len(), 1);
    assert_eq!(jobs[0], IndexerJob::Log(reporter_log(10)));
    assert_eq!(next, IndexingCursor::Block(500));
}

#[test]
fn empty_page_advances_to_end_of_range() {
    let client = evm_client(500);
    let cursor = IndexingCursor::Block(500);
    let range = client.block_range(&cursor, 2000).unwrap();
    assert_eq!(range, BlockRange { from: 500, to: 1000 });
    let (jobs, next) = client.fetch_jobs(&cursor, FetchedPage::Logs { range, logs: vec![] }).unwrap();
    assert!(jobs.is_empty());
    assert_eq!(next, IndexingCursor::Block(1000));
}

#[test]
fn range_is_capped_by_head() {
    let client = evm_client(500);
    let range = client.block_range(&IndexingCursor::Block(100), 250).unwrap();
    assert_eq!(range, BlockRange { from: 100, to: 250 });
    let range = client.block_range(&IndexingCursor::Block(300), 250).unwrap();
    assert_eq!(range, BlockRange { from: 300, to: 300 });
    let range = client.block_range(&IndexingCursor::Block(u64::MAX - 1), u64::MAX).unwrap();
    assert_eq!(range, BlockRange { from: u64::MAX - 1, to: u64::MAX });
}

#[test]
fn create_address_log_decodes_to_address_record() {
    let addr = [0x11u8; 20];
    let client = evm_client(500);
    let l = address_log(&addr);
    assert_eq!(record_key(&table(), &l), Some(addr.to_vec()));
    let detail = JobDetail::Block { timestamp: 123, record: Some(address_record(&addr, 7, 3)) };
    let out = client.handle_process(&IndexerJob::Log(l), &detail).unwrap().unwrap();
    assert_eq!(out.len(), 1);
    let p = &out[0];
    assert_eq!(p.event, EventName::CreateAddress);
    assert_eq!(p.network, NetworkKind::Ethereum);
    assert_eq!(p.block, 12);
    assert_eq!(p.timestamp, 123);
    assert_eq!(p.tx, TxReference::Hash(vec![0xab; 32]));
    match &p.data {
        PushData::Address(d) => {
            assert_eq!(d.risk, 5);
            assert_eq!(d.category, 2);
            assert_eq!(d.case_id, 7);
            assert_eq!(d.reporter_id, 3);
            assert_eq!(d.confirmations, 4);
            assert_eq!(d.address, addr.to_vec());
        }
        other => panic!("unexpected record {:?}", other),
    }
}

#[test]
fn non_numeric_page_size_override_falls_back() {
    assert_eq!(page_size(Some("abc")), 500);
    assert_eq!(page_size(Some("")), DEFAULT_PAGE_SIZE);
    assert_eq!(page_size(Some("18446744073709551616")), 500);
    assert_eq!(page_size(Some("-5")), 500);
    assert_eq!(page_size(Some("12a")), 500);
    assert_eq!(page_size(None), 500);
    assert_eq!(page_size(Some("250")), 250);
    assert_eq!(page_size(Some("+7")), 7);
    assert_eq!(parse_u64("18446744073709551615"), Some(u64::MAX));
    assert_eq!(parse_u64("+"), None);
}

#[test]
fn committed_cursor_never_goes_back() {
    let c = commit(IndexingCursor::Block(1000), PageOutcome::Completed(IndexingCursor::Block(500)));
    assert_eq!(c, IndexingCursor::Block(1000));
    let c = commit(IndexingCursor::Block(500), PageOutcome::Completed(IndexingCursor::Block(1000)));
    assert_eq!(c, IndexingCursor::Block(1000));
    let c = commit(IndexingCursor::Block(5), PageOutcome::Completed(IndexingCursor::Initial));
    assert_eq!(c, IndexingCursor::Block(5));
    let c = commit(IndexingCursor::Block(5), PageOutcome::Failed);
    assert_eq!(c, IndexingCursor::Block(5));
    let c = commit(IndexingCursor::Initial, PageOutcome::Completed(IndexingCursor::Block(500)));
    assert_eq!(c, IndexingCursor::Block(500));
    assert!(!follows(&IndexingCursor::Transaction("a".to_string()), &IndexingCursor::Initial));
    assert!(follows(&IndexingCursor::Initial, &IndexingCursor::Transaction("a".to_string())));
}

#[test]
fn replayed_fetch_gives_same_page() {
    let client = evm_client(500);
    let cursor = IndexingCursor::Block(1000);
    let r1 = client.block_range(&cursor, 5000).unwrap();
    let p1 = client.fetch_jobs(&cursor, FetchedPage::Logs { range: r1, logs: vec![reporter_log(1200)] });
    let r2 = client.block_range(&cursor, 5000).unwrap();
    let p2 = client.fetch_jobs(&cursor, FetchedPage::Logs { range: r2, logs: vec![reporter_log(1200)] });
    assert_eq!(r1, r2);
    assert_eq!(p1, p2);
    let s = solana_client();
    let c = IndexingCursor::Transaction("old".to_string());
    let q1 = s.fetch_jobs(&c, FetchedPage::Signatures(vec!["b".to_string(), "a".to_string()]));
    let q2 = s.fetch_jobs(&c, FetchedPage::Signatures(vec!["b".to_string(), "a".to_string()]));
    assert_eq!(q1, q2);
}

#[test]
fn signature_page_runs_oldest_first() {
    let s = solana_client();
    let (jobs, next) = s
        .fetch_jobs(&IndexingCursor::Initial, FetchedPage::Signatures(vec!["c".to_string(), "b".to_string(), "a".to_string()]))
        .unwrap();
    assert_eq!(
        jobs,
        vec![
            IndexerJob::Transaction("a".to_string()),
            IndexerJob::Transaction("b".to_string()),
            IndexerJob::Transaction("c".to_string())
        ]
    );
    assert_eq!(next, IndexingCursor::Transaction("c".to_string()));
}

#[test]
fn empty_signature_page_leaves_cursor() {
    let s = solana_client();
    let c = IndexingCursor::Transaction("sig1".to_string());
    let (jobs, next) = s.fetch_jobs(&c, FetchedPage::Signatures(vec![])).unwrap();
    assert!(jobs.is_empty());
    assert_eq!(next, c);
    let (jobs, next) = s.fetch_jobs(&IndexingCursor::Initial, FetchedPage::Signatures(vec![])).unwrap();
    assert!(jobs.is_empty());
    assert_eq!(next, IndexingCursor::Initial);
}

#[test]
fn reporter_log_decodes_to_its_fields() {
    let r = decode_log(&table(), &reporter_log(10), &None).unwrap().unwrap();
    assert_eq!(r.0, EventName::CreateReporter);
    match r.1 {
        PushData::Reporter(d) => {
            assert_eq!(d.id, 3);
            assert_eq!(d.account, vec![7u8; 20]);
            assert_eq!(d.role, ReporterRole::Full);
            assert_eq!(d.status, Some(ReporterStatus::Inactive));
        }
        other => panic!("unexpected record {:?}", other),
    }
}

#[test]
fn reporter_status_follows_event_kind() {
    let status = |e: EventName| match decode_log(&table(), &reporter_event_log(e, 1), &None) {
        Ok(Some((_, PushData::Reporter(d)))) => d.status,
        other => panic!("unexpected result {:?}", other),
    };
    assert_eq!(status(EventName::ActivateReporter), Some(ReporterStatus::Active));
    assert_eq!(status(EventName::UpdateReporter), None);
    let mut long_body = reporter_log(1);
    long_body.data.extend(uint_word(1));
    assert_eq!(decode_log(&table(), &long_body, &None), Err(IndexerError::MalformedData));
}

#[test]
fn case_log_decodes_to_its_fields() {
    let l = log(EventName::CreateCase, uint_word(u128::MAX), uint_word(1), 3);
    let r = decode_log(&table(), &l, &None).unwrap().unwrap();
    match r.1 {
        PushData::Case(d) => {
            assert_eq!(d.id, u128::MAX);
            assert_eq!(d.status, CaseStatus::Open);
        }
        other => panic!("unexpected record {:?}", other),
    }
}

#[test]
fn asset_log_decodes_to_its_fields() {
    let mut data = vec![0x42u8; 32];
    data.extend(uint_word(10));
    data.extend(uint_word(3));
    let l = log(EventName::CreateAsset, address_word(&[5u8; 20]), data, 3);
    let r = decode_log(&table(), &l, &None).unwrap().unwrap();
    match r.1 {
        PushData::Asset(d) => {
            assert_eq!(d.address, vec![5u8; 20]);
            assert_eq!(d.asset_id, vec![0x42u8; 32]);
            assert_eq!(d.risk, 10);
            assert_eq!(d.category, 3);
        }
        other => panic!("unexpected record {:?}", other),
    }
}

#[test]
fn solana_instruction_decodes_to_its_fields() {
    let r = decode_instruction(&instruction_table(), &solana_reporter_ix(0x0102)).unwrap().unwrap();
    assert_eq!(r.0, EventName::CreateReporter);
    match r.1 {
        PushData::Reporter(d) => {
            assert_eq!(d.id, 0x0102);
            assert_eq!(d.account, vec![9u8; 32]);
            assert_eq!(d.role, ReporterRole::Authority);
            assert_eq!(d.status, Some(ReporterStatus::Active));
        }
        other => panic!("unexpected record {:?}", other),
    }
    let mut ix = vec![2u8; 8];
    ix.extend_from_slice(&[6u8; 32]);
    ix.extend_from_slice(&7u128.to_le_bytes());
    ix.extend_from_slice(&3u128.to_le_bytes());
    ix.extend_from_slice(&9u64.to_le_bytes());
    ix.push(5);
    ix.push(2);
    let r = decode_instruction(&instruction_table(), &ix).unwrap().unwrap();
    match r.1 {
        PushData::Address(d) => {
            assert_eq!((d.case_id, d.reporter_id, d.confirmations, d.risk, d.category), (7, 3, 9, 5, 2));
            assert_eq!(d.address, vec![6u8; 32]);
        }
        other => panic!("unexpected record {:?}", other),
    }
}

#[test]
fn solana_case_and_asset_instructions_decode() {
    let mut ix = vec![4u8; 8];
    ix.extend_from_slice(&42u128.to_le_bytes());
    ix.push(0);
    let r = decode_instruction(&instruction_table(), &ix).unwrap().unwrap();
    assert_eq!(r.0, EventName::CreateCase);
    match r.1 {
        PushData::Case(d) => {
            assert_eq!(d.id, 42);
            assert_eq!(d.status, CaseStatus::Closed);
        }
        other => panic!("unexpected record {:?}", other),
    }
    let mut ix = vec![5u8; 8];
    ix.extend_from_slice(&[1u8; 32]);
    ix.extend_from_slice(&[2u8; 32]);
    ix.push(8);
    ix.push(4);
    let r = decode_instruction(&instruction_table(), &ix).unwrap().unwrap();
    match r.1 {
        PushData::Asset(d) => {
            assert_eq!(d.address, vec![1u8; 32]);
            assert_eq!(d.asset_id, vec![2u8; 32]);
            assert_eq!((d.risk, d.category), (8, 4));
        }
        other => panic!("unexpected record {:?}", other),
    }
    ix[72] = 11;
    assert_eq!(decode_instruction(&instruction_table(), &ix), Err(IndexerError::MalformedData));
}

#[test]
fn solana_transaction_emits_in_instruction_order() {
    let s = solana_client();
    let tx = SolanaTransaction {
        slot: 77,
        block_time: 1_700_000_000,
        instructions: vec![solana_reporter_ix(1), vec![3u8; 8], solana_reporter_ix(2)],
    };
    let out = s
        .handle_process(&IndexerJob::Transaction("sig".to_string()), &JobDetail::Transaction(tx))
        .unwrap()
        .unwrap();
    assert_eq!(out.len(), 2);
    assert_eq!(out[0].block, 77);
    assert_eq!(out[0].timestamp, 1_700_000_000);
    assert_eq!(out[0].tx, TxReference::Signature("sig".to_string()));
    let ids: Vec<u128> = out
        .iter()
        .map(|p| match &p.data {
            PushData::Reporter(d) => d.id,
            _ => 0,
        })
        .collect();
    assert_eq!(ids, vec![1, 2]);
}

#[test]
fn unmapped_kinds_yield_nothing() {
    let l = log(EventName::Initialize, uint_word(1), uint_word(1), 1);
    assert_eq!(decode_log(&table(), &l, &None), Ok(None));
    let l = log(EventName::UpdateCase, uint_word(1), vec![], 1);
    let client = evm_client(500);
    let detail = JobDetail::Block { timestamp: 1, record: None };
    assert_eq!(client.handle_process(&IndexerJob::Log(l), &detail), Ok(None));
    assert_eq!(decode_instruction(&instruction_table(), &vec![3u8; 8]), Ok(None));
    let s = solana_client();
    let tx = SolanaTransaction { slot: 1, block_time: 1, instructions: vec![vec![3u8; 8]] };
    assert_eq!(s.handle_process(&IndexerJob::Transaction("x".to_string()), &JobDetail::Transaction(tx)), Ok(None));
}

#[test]
fn wrong_pairing_is_rejected() {
    let evm = evm_client(500);
    let sol = solana_client();
    let tx = SolanaTransaction { slot: 1, block_time: 1, instructions: vec![solana_reporter_ix(1)] };
    let block = JobDetail::Block { timestamp: 1, record: None };
    assert_eq!(
        evm.handle_process(&IndexerJob::Transaction("x".to_string()), &JobDetail::Transaction(tx.clone())),
        Err(IndexerError::MismatchedJob)
    );
    assert_eq!(sol.handle_process(&IndexerJob::Log(reporter_log(1)), &block), Err(IndexerError::MismatchedJob));
    assert_eq!(
        evm.handle_process(&IndexerJob::Log(reporter_log(1)), &JobDetail::Transaction(tx)),
        Err(IndexerError::MismatchedJob)
    );
    assert_eq!(
        evm.fetch_jobs(&IndexingCursor::Initial, FetchedPage::Signatures(vec![])),
        Err(IndexerError::MismatchedJob)
    );
}

#[test]
fn unsupported_network_fails_every_call() {
    let near = IndexerClient::new(NetworkKind::Near, "http://near", "anything", 500, vec![], vec![]).unwrap();
    assert_eq!(near.block_range(&IndexingCursor::Initial, 10), Err(IndexerError::Unsupported));
    assert_eq!(near.fetch_jobs(&IndexingCursor::Initial, FetchedPage::Signatures(vec![])), Err(IndexerError::Unsupported));
    let block = JobDetail::Block { timestamp: 1, record: None };
    assert_eq!(near.handle_process(&IndexerJob::Log(reporter_log(1)), &block), Err(IndexerError::Unsupported));
}

#[test]
fn decode_errors_are_reported() {
    let t = table();
    let mut unknown = reporter_log(1);
    unknown.topics[0] = vec![0xee; 32];
    assert_eq!(decode_log(&t, &unknown, &None), Err(IndexerError::UnknownEvent));
    let mut data = uint_word(11);
    data.extend(uint_word(2));
    let risky = log(EventName::CreateAddress, address_word(&[1u8; 20]), data, 1);
    assert_eq!(decode_log(&t, &risky, &None), Err(IndexerError::MalformedData));
    let addr = [0x11u8; 20];
    assert_eq!(decode_log(&t, &address_log(&addr), &None), Err(IndexerError::MissingRecord));
    let other = address_record(&[0x22u8; 20], 7, 3);
    assert_eq!(decode_log(&t, &address_log(&addr), &Some(other)), Err(IndexerError::RecordMismatch));
    let mut bad_role = reporter_log(1);
    bad_role.data[63] = 4;
    assert_eq!(decode_log(&t, &bad_role, &None), Err(IndexerError::MalformedData));
    let mut wide_id = reporter_log(1);
    wide_id.topics[1][15] = 1;
    assert_eq!(decode_log(&t, &wide_id, &None), Err(IndexerError::MalformedData));
    assert_eq!(decode_instruction(&instruction_table(), &vec![9u8; 8]), Err(IndexerError::UnknownEvent));
    assert_eq!(decode_instruction(&instruction_table(), &vec![1u8; 9]), Err(IndexerError::MalformedData));
}

#[test]
fn cursor_kind_must_match_client() {
    let client = evm_client(500);
    let c = IndexingCursor::Transaction("x".to_string());
    assert_eq!(client.block_range(&c, 10), Err(IndexerError::MismatchedCursor));
    let page = FetchedPage::Logs { range: BlockRange { from: 3, to: 9 }, logs: vec![] };
    assert_eq!(client.fetch_jobs(&IndexingCursor::Block(4), page), Err(IndexerError::MismatchedCursor));
    let backwards = FetchedPage::Logs { range: BlockRange { from: 500, to: 3 }, logs: vec![] };
    assert_eq!(client.fetch_jobs(&IndexingCursor::Block(500), backwards), Err(IndexerError::MismatchedCursor));
    let s = solana_client();
    assert_eq!(s.fetch_jobs(&IndexingCursor::Block(4), FetchedPage::Signatures(vec![])), Err(IndexerError::MismatchedCursor));
}

#[test]
fn contract_address_is_read_as_hex() {
    match evm_client(500) {
        IndexerClient::Evm(c) => {
            assert_eq!(c.contract_address, contract_bytes());
            assert_eq!(c.page_size, 500);
            assert_eq!(c.provider_url, "http://localhost:8545");
        }
        _ => panic!("expected an account-style client"),
    }
    let bare = IndexerClient::new(NetworkKind::Bsc, "u", "2947F98C42597966a0ec25e92843c09ac18Fbab7", 1, vec![], vec![]);
    assert!(matches!(bare, Ok(IndexerClient::Evm(_))));
    let short = IndexerClient::new(NetworkKind::Sepolia, "u", "0x1234", 1, vec![], vec![]);
    assert_eq!(short.err(), Some(IndexerError::InvalidAddress));
    let bad = IndexerClient::new(NetworkKind::Ethereum, "u", "0xZZ47F98C42597966a0ec25e92843c09ac18Fbab7", 1, vec![], vec![]);
    assert_eq!(bad.err(), Some(IndexerError::InvalidAddress));
    let btc = IndexerClient::new(NetworkKind::Bitcoin, "u", "prog", 1, vec![], vec![]);
    assert!(matches!(btc, Ok(IndexerClient::Solana(_))));
}

#[test]
fn retry_delay_doubles_up_to_cap() {
    let p = RetryPolicy { interval_ms: 100, max_delay_ms: 1000 };
    assert_eq!(p.delay_ms(0), 100);
    assert_eq!(p.delay_ms(1), 200);
    assert_eq!(p.delay_ms(3), 800);
    assert_eq!(p.delay_ms(4), 1000);
    assert_eq!(p.delay_ms(u32::MAX), 1000);
    let odd = RetryPolicy { interval_ms: 500, max_delay_ms: 100 };
    assert_eq!(odd.delay_ms(2), 500);
}

#[test]
fn program_errors_and_defaults() {
    assert_eq!(ErrorCode::RiskOutOfRange.message(), "Risk score must be in 0..10 range");
    assert_eq!(ErrorCode::CaseClosed.message(), "Case closed");
    assert_eq!(print_error(ErrorCode::Unauthorized), Err(ErrorCode::Unauthorized));
    assert_eq!(ReporterStatus::default(), ReporterStatus::Inactive);
    assert_eq!(ReporterRole::default(), ReporterRole::Validator);
    let r = Reporter::empty();
    assert_eq!(r.stake, 0);
    assert_eq!(r.status, ReporterStatus::Inactive);
}
