use vstd::prelude::*;

verus! {

/// A network-specific resume position.
#[derive(Debug, Clone, PartialEq, Eq)]
pub enum IndexingCursor {
    /// Nothing has been consumed yet.
    Initial,
    /// Account-style networks: the next block to query.
    Block(u64),
    /// Transaction-stream networks: the most recent reference consumed.
    Transaction(String),
}

/// The mathematical value of a cursor.
pub enum CursorView {
    Initial,
    Block(nat),
    Transaction(Seq<char>),
}

impl View for IndexingCursor {
    type V = CursorView;

    open spec fn view(&self) -> CursorView {
        match self {
            IndexingCursor::Initial => CursorView::Initial,
            IndexingCursor::Block(b) => CursorView::Block(*b as nat),
            IndexingCursor::Transaction(t) => CursorView::Transaction(t@),
        }
    }
}

/// `next` may replace `prev` as a committed cursor: any position after
/// `Initial`, a block height that does not go back, or another reference of a
/// transaction stream (references carry no order of their own; the stream
/// hands them out newest last).
pub open spec fn cursor_follows(prev: IndexingCursor, next: IndexingCursor) -> bool {
    match (prev, next) {
        (IndexingCursor::Initial, _) => true,
        (IndexingCursor::Block(a), IndexingCursor::Block(b)) => a <= b,
        (IndexingCursor::Transaction(_), IndexingCursor::Transaction(_)) => true,
        _ => false,
    }
}

/// Decides whether `next` may be committed after `prev`.
pub fn follows(prev: &IndexingCursor, next: &IndexingCursor) -> (r: bool)
    ensures
        r == cursor_follows(*prev, *next),
{
    match (prev, next) {
        (IndexingCursor::Initial, _) => true,
        (IndexingCursor::Block(a), IndexingCursor::Block(b)) => *a <= *b,
        (IndexingCursor::Transaction(_), IndexingCursor::Transaction(_)) => true,
        _ => false,
    }
}

} // verus!
