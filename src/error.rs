use vstd::prelude::*;

verus! {

/// Why a call of the indexing core failed.
#[derive(Debug, Clone, Copy, PartialEq, Eq, Structural)]
pub enum IndexerError {
    /// The client's network kind cannot do this.
    Unsupported,
    /// A job or a detail was handed to a client of another network kind.
    MismatchedJob,
    /// A cursor of another network kind was handed to a client.
    MismatchedCursor,
    /// The event signature is not one of the protocol's.
    UnknownEvent,
    /// The log or instruction does not have the shape its event kind requires.
    MalformedData,
    /// The state read that the event kind needs was not supplied.
    MissingRecord,
    /// The state read does not describe the record the event names.
    RecordMismatch,
    /// A contract address could not be read.
    InvalidAddress,
}

} // verus!
