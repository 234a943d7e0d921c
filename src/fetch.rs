use vstd::prelude::*;

use crate::cursor::{cursor_follows, CursorView, IndexingCursor};
use crate::error::IndexerError;
use crate::evm::EvmLog;
use crate::job::IndexerJob;

verus! {

/// The blocks one log query covers: `from` included, `to` excluded, so the
/// next page starts at `to`.
#[derive(Debug, Clone, Copy, PartialEq, Eq, Structural)]
pub struct BlockRange {
    pub from: u64,
    pub to: u64,
}

/// The first block to query after `c`, or `None` for a cursor of another kind.
pub open spec fn start_block(c: IndexingCursor) -> Option<u64> {
    match c {
        IndexingCursor::Initial => Some(0),
        IndexingCursor::Block(b) => Some(b),
        IndexingCursor::Transaction(_) => None,
    }
}

/// The end of the page that starts at `from`: `page_size` blocks on, capped by
/// the chain head (and by the largest height), never before `from`.
pub open spec fn range_end(from: u64, page_size: u64, head: u64) -> u64 {
    let full = if from + page_size > u64::MAX {
        u64::MAX
    } else {
        (from + page_size) as u64
    };
    if head <= from {
        from
    } else if full < head {
        full
    } else {
        head
    }
}

pub open spec fn block_range_spec(c: IndexingCursor, page_size: u64, head: u64) -> Result<
    BlockRange,
    IndexerError,
> {
    match start_block(c) {
        Some(from) => Ok(BlockRange { from, to: range_end(from, page_size, head) }),
        None => Err(IndexerError::MismatchedCursor),
    }
}

/// The block range to query after `cursor`, given the page size and the chain head.
pub fn block_range(cursor: &IndexingCursor, page_size: u64, head: u64) -> (r: Result<
    BlockRange,
    IndexerError,
>)
    ensures
        r == block_range_spec(*cursor, page_size, head),
{
    let from: u64 = match cursor {
        IndexingCursor::Initial => 0,
        IndexingCursor::Block(b) => *b,
        IndexingCursor::Transaction(_) => {
            return Err(IndexerError::MismatchedCursor);
        },
    };
    let full: u64 = from.saturating_add(page_size);
    let to: u64 = if head <= from {
        from
    } else if full < head {
        full
    } else {
        head
    };
    Ok(BlockRange { from, to })
}

pub open spec fn log_jobs(logs: Seq<EvmLog>) -> Seq<IndexerJob> {
    logs.map_values(|l: EvmLog| IndexerJob::Log(l))
}

/// The page a log query over `range` gives: one job per log in the order
/// returned, and a cursor at the end of the range, whether or not any log
/// matched.
pub fn block_page(range: BlockRange, logs: Vec<EvmLog>) -> (r: (Vec<IndexerJob>, IndexingCursor))
    ensures
        r.0@ == log_jobs(logs@),
        r.1 == IndexingCursor::Block(range.to),
{
    let ghost orig = logs@;
    let mut logs = logs;
    let mut jobs: Vec<IndexerJob> = Vec::new();
    while logs.len() > 0
        invariant
            jobs@ + log_jobs(logs@) == log_jobs(orig),
        decreases logs@.len(),
    {
        let ghost before = logs@;
        let l = logs.remove(0);
        assert(log_jobs(before) =~= seq![IndexerJob::Log(l)] + log_jobs(logs@));
        assert(jobs@.push(IndexerJob::Log(l)) + log_jobs(logs@) =~= jobs@ + log_jobs(before));
        jobs.push(IndexerJob::Log(l));
    }
    assert(log_jobs(logs@) =~= Seq::<IndexerJob>::empty());
    assert(jobs@ =~= log_jobs(orig));
    (jobs, IndexingCursor::Block(range.to))
}

/// The jobs for signatures listed newest first: one per signature, oldest first.
pub open spec fn signature_jobs(sigs: Seq<String>) -> Seq<IndexerJob> {
    Seq::new(sigs.len(), |i: int| IndexerJob::Transaction(sigs[sigs.len() - 1 - i]))
}

/// The cursor after a signature page: the newest signature, or `cursor` unchanged
/// when the page is empty.
pub open spec fn signature_cursor(cursor: IndexingCursor, sigs: Seq<String>) -> CursorView {
    if sigs.len() == 0 {
        cursor@
    } else {
        CursorView::Transaction(sigs[0]@)
    }
}

/// The page a signature query after `cursor` gives, for signatures listed
/// newest first as the query returns them.
pub fn signature_page(cursor: &IndexingCursor, signatures: Vec<String>) -> (r: Result<
    (Vec<IndexerJob>, IndexingCursor),
    IndexerError,
>)
    ensures
        cursor is Block <==> r is Err,
        r is Err ==> r == Err::<(Vec<IndexerJob>, IndexingCursor), IndexerError>(
            IndexerError::MismatchedCursor,
        ),
        r matches Ok((jobs, next)) ==> jobs@ == signature_jobs(signatures@) && next@
            == signature_cursor(*cursor, signatures@) && !(next is Block),
{
    let next: IndexingCursor = match cursor {
        IndexingCursor::Block(_) => {
            return Err(IndexerError::MismatchedCursor);
        },
        IndexingCursor::Initial => if signatures.len() == 0 {
            IndexingCursor::Initial
        } else {
            IndexingCursor::Transaction(signatures[0].clone())
        },
        IndexingCursor::Transaction(t) => if signatures.len() == 0 {
            IndexingCursor::Transaction(t.clone())
        } else {
            IndexingCursor::Transaction(signatures[0].clone())
        },
    };
    let ghost orig = signatures@;
    let n: usize = signatures.len();
    let mut sigs = signatures;
    let mut jobs: Vec<IndexerJob> = Vec::new();
    while sigs.len() > 0
        invariant
            orig.len() == n,
            sigs@ == orig.subrange(0, sigs@.len() as int),
            jobs@.len() + sigs@.len() == n,
            forall|i: int| 0 <= i < jobs@.len() ==> jobs@[i] == IndexerJob::Transaction(
                orig[n - 1 - i],
            ),
        decreases sigs@.len(),
    {
        let s = sigs.pop().unwrap();
        jobs.push(IndexerJob::Transaction(s));
    }
    assert(jobs@ =~= signature_jobs(orig));
    Ok((jobs, next))
}

/// A block page never moves the cursor back, and the range it queries starts
/// at the cursor.
pub proof fn lemma_block_range_follows(c: IndexingCursor, page_size: u64, head: u64)
    requires
        !(c is Transaction),
    ensures
        block_range_spec(c, page_size, head) matches Ok(range) && range.from <= range.to
            && cursor_follows(c, IndexingCursor::Block(range.to)),
{
}

} // verus!
