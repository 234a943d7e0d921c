use vstd::prelude::*;
use vstd::string::StringSliceAdditionalSpecFns;

use crate::cursor::{cursor_follows, CursorView, IndexingCursor};
use crate::error::IndexerError;
use crate::evm::{decode_log, decode_log_spec, record_view, topics_view, EventSignature, EvmLog};
use crate::fetch::{
    block_page, block_range, block_range_spec, log_jobs, signature_cursor, signature_jobs,
    signature_page, start_block, BlockRange,
};
use crate::job::IndexerJob;
use crate::model::{
    EventName, NetworkKind, PushData, PushDataModel, PushPayload, PushPayloadModel, TxReference,
    TxReferenceView,
};
use crate::solana::{
    decode_instruction, decode_instruction_spec, decode_instructions_spec, InstructionSignature,
    SolanaTransaction,
};

verus! {

/// A client of an account-style network.
#[derive(Debug, Clone)]
pub struct EvmClient {
    pub network: NetworkKind,
    pub provider_url: String,
    /// The 20-byte contract address.
    pub contract_address: Vec<u8>,
    /// Blocks queried per fetch.
    pub page_size: u64,
    /// Signature topic of each protocol event.
    pub events: Vec<EventSignature>,
}

/// A client of a transaction-stream network.
#[derive(Debug, Clone)]
pub struct SolanaClient {
    pub network: NetworkKind,
    pub provider_url: String,
    pub program_id: String,
    /// Discriminator of each protocol instruction.
    pub instructions: Vec<InstructionSignature>,
}

/// A client for one network and contract, of the kind the network calls for.
#[derive(Debug, Clone)]
pub enum IndexerClient {
    Evm(EvmClient),
    /// Declared but not supported: every operation fails.
    Near,
    Solana(SolanaClient),
}

/// What the network calls returned for one fetch.
pub enum FetchedPage {
    /// The logs of a query over `range`.
    Logs { range: BlockRange, logs: Vec<EvmLog> },
    /// Signatures after the cursor, newest first.
    Signatures(Vec<String>),
}

/// What the network calls returned that processing a job needs.
pub enum JobDetail {
    /// For a log: the timestamp of its block, and the state read that
    /// address events need.
    Block { timestamp: u64, record: Option<Vec<u8>> },
    /// For a signature: the transaction it names.
    Transaction(SolanaTransaction),
}

pub open spec fn hex_value(c: u8) -> Option<nat> {
    if 48 <= c <= 57 {
        Some((c - 48) as nat)
    } else if 97 <= c <= 102 {
        Some((c - 87) as nat)
    } else if 65 <= c <= 70 {
        Some((c - 55) as nat)
    } else {
        None
    }
}

/// The hex digits after an optional `0x`.
pub open spec fn hex_digits(s: Seq<u8>) -> Seq<u8> {
    if s.len() >= 2 && s[0] == 48 && s[1] == 120 {
        s.subrange(2, s.len() as int)
    } else {
        s
    }
}

/// A 20-byte address written as 40 hex digits, with or without `0x`.
pub open spec fn parse_address_spec(s: Seq<u8>) -> Option<Seq<u8>> {
    let d = hex_digits(s);
    if d.len() == 40 && (forall|i: int| 0 <= i < 40 ==> (#[trigger] hex_value(d[i])) is Some) {
        Some(
            Seq::new(
                20,
                |i: int| (hex_value(d[2 * i])->0 * 16 + hex_value(d[2 * i + 1])->0) as u8,
            ),
        )
    } else {
        None
    }
}

fn hex_digit(c: u8) -> (r: Option<u8>)
    ensures
        hex_value(c) == match r {
            Some(v) => Some(v as nat),
            None => None::<nat>,
        },
        r matches Some(v) ==> v < 16,
{
    if 48 <= c && c <= 57 {
        Some(c - 48)
    } else if 97 <= c && c <= 102 {
        Some(c - 87)
    } else if 65 <= c && c <= 70 {
        Some(c - 55)
    } else {
        None
    }
}

/// Reads a 20-byte address written as 40 hex digits, with or without `0x`.
pub fn parse_address(s: &str) -> (r: Option<Vec<u8>>)
    ensures
        match r {
            Some(a) => Some(a@),
            None => None::<Seq<u8>>,
        } == parse_address_spec(s.spec_bytes()),
{
    let b = s.as_bytes();
    let ghost sb = s.spec_bytes();
    let n: usize = b.len();
    let start: usize = if n >= 2 && b[0] == 48u8 && b[1] == 120u8 {
        2
    } else {
        0
    };
    let ghost d = hex_digits(sb);
    assert(d =~= sb.subrange(start as int, n as int));
    if n - start != 40 {
        return None;
    }
    let mut out: Vec<u8> = Vec::new();
    let mut i: usize = 0;
    while i < 20
        invariant
            n == b@.len(),
            b@ == sb,
            sb == s.spec_bytes(),
            d == hex_digits(sb),
            d == sb.subrange(start as int, n as int),
            n - start == 40,
            i <= 20,
            out@.len() == i,
            forall|j: int| 0 <= j < 2 * i ==> (#[trigger] hex_value(d[j])) is Some,
            forall|j: int|
                0 <= j < i ==> out@[j] == (hex_value(d[2 * j])->0 * 16 + hex_value(
                    d[2 * j + 1],
                )->0) as u8,
        decreases 20 - i,
    {
        let hi = hex_digit(b[start + 2 * i]);
        let lo = hex_digit(b[start + 2 * i + 1]);
        assert(d[2 * i as int] == b@[start + 2 * i]);
        assert(d[2 * i + 1] == b@[start + 2 * i + 1]);
        match (hi, lo) {
            (Some(h), Some(l)) => {
                out.push(h * 16 + l);
            },
            _ => {
                assert(hex_value(d[2 * i as int]) is None || hex_value(d[2 * i + 1]) is None);
                return None;
            },
        }
        i = i + 1;
    }
    assert(out@ =~= parse_address_spec(sb)->0);
    Some(out)
}

/// Which client kind a network calls for.
pub enum ClientKind {
    Evm,
    Near,
    Solana,
}

pub open spec fn client_kind_of(n: NetworkKind) -> ClientKind {
    match n {
        NetworkKind::Ethereum | NetworkKind::Bsc | NetworkKind::Sepolia => ClientKind::Evm,
        NetworkKind::Near => ClientKind::Near,
        NetworkKind::Solana | NetworkKind::Bitcoin => ClientKind::Solana,
    }
}

pub open spec fn payload_of_log(
    network: NetworkKind,
    log: EvmLog,
    timestamp: u64,
    e: EventName,
    d: PushDataModel,
) -> PushPayloadModel {
    PushPayloadModel {
        network,
        event: e,
        tx: TxReferenceView::Hash(log.transaction_hash@),
        block: log.block_number as nat,
        timestamp: timestamp as nat,
        data: d,
    }
}

pub open spec fn payload_of_instruction(
    network: NetworkKind,
    sig: Seq<char>,
    tx: SolanaTransaction,
    p: (EventName, PushDataModel),
) -> PushPayloadModel {
    PushPayloadModel {
        network,
        event: p.0,
        tx: TxReferenceView::Signature(sig),
        block: tx.slot as nat,
        timestamp: tx.block_time as nat,
        data: p.1,
    }
}

pub open spec fn instruction_views(ixs: Seq<Vec<u8>>) -> Seq<Seq<u8>> {
    ixs.map_values(|v: Vec<u8>| v@)
}

/// What processing `job` with `detail` gives: the payloads in decode order,
/// `None` where nothing is mapped, or why it fails.
pub open spec fn process_spec(c: IndexerClient, job: IndexerJob, detail: JobDetail) -> Result<
    Option<Seq<PushPayloadModel>>,
    IndexerError,
> {
    match (c, job, detail) {
        (IndexerClient::Near, _, _) => Err(IndexerError::Unsupported),
        (
            IndexerClient::Evm(ec),
            IndexerJob::Log(log),
            JobDetail::Block { timestamp, record },
        ) => match decode_log_spec(
            ec.events@,
            topics_view(log.topics@),
            log.data@,
            record_view(record),
        ) {
            Err(x) => Err(x),
            Ok(None) => Ok(None),
            Ok(Some((e, d))) => Ok(Some(seq![payload_of_log(ec.network, log, timestamp, e, d)])),
        },
        (
            IndexerClient::Solana(sc),
            IndexerJob::Transaction(sig),
            JobDetail::Transaction(tx),
        ) => match decode_instructions_spec(sc.instructions@, instruction_views(tx.instructions@)) {
            Err(x) => Err(x),
            Ok(ps) => if ps.len() == 0 {
                Ok(None)
            } else {
                Ok(Some(ps.map_values(|p| payload_of_instruction(sc.network, sig@, tx, p))))
            },
        },
        _ => Err(IndexerError::MismatchedJob),
    }
}

/// The next page: the jobs and the successor cursor, or why there is none.
pub open spec fn fetch_spec(c: IndexerClient, cursor: IndexingCursor, page: FetchedPage) -> Result<
    (Seq<IndexerJob>, CursorView),
    IndexerError,
> {
    match (c, page) {
        (IndexerClient::Near, _) => Err(IndexerError::Unsupported),
        (IndexerClient::Evm(_), FetchedPage::Logs { range, logs }) => if start_block(cursor) == Some(
            range.from,
        ) && range.from <= range.to {
            Ok((log_jobs(logs@), CursorView::Block(range.to as nat)))
        } else {
            Err(IndexerError::MismatchedCursor)
        },
        (IndexerClient::Solana(_), FetchedPage::Signatures(sigs)) => if cursor is Block {
            Err(IndexerError::MismatchedCursor)
        } else {
            Ok((signature_jobs(sigs@), signature_cursor(cursor, sigs@)))
        },
        _ => Err(IndexerError::MismatchedJob),
    }
}

pub open spec fn page_view(r: Result<(Vec<IndexerJob>, IndexingCursor), IndexerError>) -> Result<
    (Seq<IndexerJob>, CursorView),
    IndexerError,
> {
    match r {
        Ok((jobs, next)) => Ok((jobs@, next@)),
        Err(x) => Err(x),
    }
}

pub open spec fn payloads_view(r: Result<Option<Vec<PushPayload>>, IndexerError>) -> Result<
    Option<Seq<PushPayloadModel>>,
    IndexerError,
> {
    match r {
        Ok(Some(v)) => Ok(Some(v@.map_values(|p: PushPayload| p@))),
        Ok(None) => Ok(None),
        Err(x) => Err(x),
    }
}

proof fn lemma_instructions_err_stays(
    table: Seq<InstructionSignature>,
    ixs: Seq<Seq<u8>>,
    k: int,
)
    requires
        0 <= k <= ixs.len(),
        decode_instructions_spec(table, ixs.subrange(0, k)) is Err,
    ensures
        decode_instructions_spec(table, ixs) == decode_instructions_spec(table, ixs.subrange(0, k)),
    decreases ixs.len() - k,
{
    if k < ixs.len() {
        let next = ixs.subrange(0, k + 1);
        assert(next.drop_last() =~= ixs.subrange(0, k));
        lemma_instructions_err_stays(table, ixs, k + 1);
    } else {
        assert(ixs.subrange(0, k) =~= ixs);
    }
}

impl IndexerClient {
    /// A client for `network` with the given endpoint and contract. Ethereum,
    /// BSC and Sepolia get an account-style client, which needs the contract
    /// address as 40 hex digits; Solana and Bitcoin a transaction-stream
    /// client; Near the unsupported client.
    pub fn new(
        network: NetworkKind,
        rpc_node_url: &str,
        contract_address: &str,
        page_size: u64,
        events: Vec<EventSignature>,
        instructions: Vec<InstructionSignature>,
    ) -> (r: Result<Self, IndexerError>)
        ensures
            match client_kind_of(network) {
                ClientKind::Evm => match parse_address_spec(contract_address.spec_bytes()) {
                    None => r == Err::<Self, IndexerError>(IndexerError::InvalidAddress),
                    Some(a) => r matches Ok(IndexerClient::Evm(c)) && c.network == network
                        && c.provider_url@ == rpc_node_url@ && c.contract_address@ == a
                        && c.page_size == page_size && c.events@ == events@,
                },
                ClientKind::Near => r matches Ok(IndexerClient::Near),
                ClientKind::Solana => r matches Ok(IndexerClient::Solana(c)) && c.network
                    == network && c.provider_url@ == rpc_node_url@ && c.program_id@
                    == contract_address@ && c.instructions@ == instructions@,
            },
    {
        match network {
            NetworkKind::Ethereum | NetworkKind::Bsc | NetworkKind::Sepolia => {
                match parse_address(contract_address) {
                    Some(a) => Ok(
                        IndexerClient::Evm(
                            EvmClient {
                                network,
                                provider_url: rpc_node_url.to_owned(),
                                contract_address: a,
                                page_size,
                                events,
                            },
                        ),
                    ),
                    None => Err(IndexerError::InvalidAddress),
                }
            },
            NetworkKind::Near => Ok(IndexerClient::Near),
            NetworkKind::Solana | NetworkKind::Bitcoin => Ok(
                IndexerClient::Solana(
                    SolanaClient {
                        network,
                        provider_url: rpc_node_url.to_owned(),
                        program_id: contract_address.to_owned(),
                        instructions,
                    },
                ),
            ),
        }
    }

    /// The block range to query after `cursor` with the chain head at `head`;
    /// only account-style clients query block ranges.
    pub fn block_range(&self, cursor: &IndexingCursor, head: u64) -> (r: Result<
        BlockRange,
        IndexerError,
    >)
        ensures
            match self {
                IndexerClient::Evm(c) => r == block_range_spec(*cursor, c.page_size, head),
                _ => r == Err::<BlockRange, IndexerError>(IndexerError::Unsupported),
            },
    {
        match self {
            IndexerClient::Evm(c) => block_range(cursor, c.page_size, head),
            _ => Err(IndexerError::Unsupported),
        }
    }

    /// The next page after `cursor`, from what the network calls returned:
    /// the jobs in order and the cursor that resumes right after them, never
    /// behind `cursor`. A block range that does not start at the cursor, or
    /// ends before it starts, is refused.
    pub fn fetch_jobs(&self, cursor: &IndexingCursor, page: FetchedPage) -> (r: Result<
        (Vec<IndexerJob>, IndexingCursor),
        IndexerError,
    >)
        ensures
            page_view(r) == fetch_spec(*self, *cursor, page),
            r matches Ok((_, next)) ==> cursor_follows(*cursor, next),
    {
        match (self, page) {
            (IndexerClient::Near, _) => Err(IndexerError::Unsupported),
            (IndexerClient::Evm(_), FetchedPage::Logs { range, logs }) => {
                let from: Option<u64> = match cursor {
                    IndexingCursor::Initial => Some(0),
                    IndexingCursor::Block(b) => Some(*b),
                    IndexingCursor::Transaction(_) => None,
                };
                match from {
                    Some(f) => if f == range.from && range.from <= range.to {
                        Ok(block_page(range, logs))
                    } else {
                        Err(IndexerError::MismatchedCursor)
                    },
                    None => Err(IndexerError::MismatchedCursor),
                }
            },
            (IndexerClient::Solana(_), FetchedPage::Signatures(sigs)) => signature_page(cursor, sigs),
            _ => Err(IndexerError::MismatchedJob),
        }
    }

    /// The payloads of a job of this client, in decode order; `None` where
    /// nothing is mapped. A job or detail of another network kind is refused.
    pub fn handle_process(&self, job: &IndexerJob, detail: &JobDetail) -> (r: Result<
        Option<Vec<PushPayload>>,
        IndexerError,
    >)
        ensures
            payloads_view(r) == process_spec(*self, *job, *detail),
    {
        match (self, job, detail) {
            (IndexerClient::Near, _, _) => Err(IndexerError::Unsupported),
            (IndexerClient::Evm(c), IndexerJob::Log(log), JobDetail::Block { timestamp, record }) => {
                match decode_log(&c.events, log, record) {
                    Err(x) => Err(x),
                    Ok(None) => Ok(None),
                    Ok(Some((e, d))) => {
                        let p = PushPayload {
                            network: c.network,
                            event: e,
                            tx: TxReference::Hash(clone_bytes(&log.transaction_hash)),
                            block: log.block_number,
                            timestamp: *timestamp,
                            data: d,
                        };
                        let mut v: Vec<PushPayload> = Vec::new();
                        v.push(p);
                        assert(v@.map_values(|p: PushPayload| p@) =~= seq![p@]);
                        Ok(Some(v))
                    },
                }
            },
            (
                IndexerClient::Solana(c),
                IndexerJob::Transaction(sig),
                JobDetail::Transaction(tx),
            ) => process_transaction(c, sig, tx),
            _ => Err(IndexerError::MismatchedJob),
        }
    }
}

fn clone_bytes(b: &Vec<u8>) -> (r: Vec<u8>)
    ensures
        r@ == b@,
{
    crate::abi::copy_range(b, 0, b.len())
}

fn process_transaction(c: &SolanaClient, sig: &String, tx: &SolanaTransaction) -> (r: Result<
    Option<Vec<PushPayload>>,
    IndexerError,
>)
    ensures
        payloads_view(r) == match decode_instructions_spec(
            c.instructions@,
            instruction_views(tx.instructions@),
        ) {
            Err(x) => Err(x),
            Ok(ps) => if ps.len() == 0 {
                Ok(None)
            } else {
                Ok(Some(ps.map_values(|p| payload_of_instruction(c.network, sig@, *tx, p))))
            },
        },
{
    let ghost ixs = instruction_views(tx.instructions@);
    let ghost table = c.instructions@;
    let mut out: Vec<PushPayload> = Vec::new();
    let mut i: usize = 0;
    assert(ixs.subrange(0, 0) =~= Seq::<Seq<u8>>::empty());
    while i < tx.instructions.len()
        invariant
            ixs == instruction_views(tx.instructions@),
            table == c.instructions@,
            i <= tx.instructions@.len(),
            decode_instructions_spec(table, ixs.subrange(0, i as int)) matches Ok(ps) && out@.map_values(
                |p: PushPayload| p@,
            ) == ps.map_values(|p| payload_of_instruction(c.network, sig@, *tx, p)),
        decreases tx.instructions@.len() - i,
    {
        let ghost prefix = ixs.subrange(0, i + 1);
        assert(prefix.drop_last() =~= ixs.subrange(0, i as int));
        assert(prefix.last() == tx.instructions@[i as int]@);
        let ghost before = out@;
        match decode_instruction(&c.instructions, &tx.instructions[i]) {
            Err(x) => {
                proof {
                    lemma_instructions_err_stays(table, ixs, i + 1);
                }
                return Err(x);
            },
            Ok(None) => {},
            Ok(Some((e, d))) => {
                let p = PushPayload {
                    network: c.network,
                    event: e,
                    tx: TxReference::Signature(sig.clone()),
                    block: tx.slot,
                    timestamp: tx.block_time,
                    data: d,
                };
                out.push(p);
                proof {
                    let ps = decode_instructions_spec(table, ixs.subrange(0, i as int))->Ok_0;
                    assert(out@.map_values(|p: PushPayload| p@) =~= before.map_values(
                        |p: PushPayload| p@,
                    ).push(p@));
                    assert(ps.push((e, d@)).map_values(
                        |p| payload_of_instruction(c.network, sig@, *tx, p),
                    ) =~= ps.map_values(|p| payload_of_instruction(c.network, sig@, *tx, p)).push(
                        payload_of_instruction(c.network, sig@, *tx, (e, d@)),
                    ));
                }
            },
        }
        i = i + 1;
    }
    assert(ixs.subrange(0, i as int) =~= ixs);
    if out.len() == 0 {
        Ok(None)
    } else {
        Ok(Some(out))
    }
}

} // verus!
