//! Errors of the local Anvil chain and how they surface through the sink and
//! source of the pipeline.

use vstd::prelude::*;
use crate::pipeline::{SinkError, SourceError};
use crate::text::{decimal, join2, u64_decimal};

verus! {

/// Errors that can occur when working with Anvil.
#[derive(Debug)]
pub enum AnvilError {
    /// Failed to spawn Anvil process.
    Spawn(String),
    /// Failed to connect to Anvil.
    Connection(String),
    /// Transaction submission failed.
    Transaction(String),
    /// Failed to get transaction receipt.
    Receipt(String),
    /// Block not found.
    BlockNotFound(u64),
    /// Provider error.
    Provider(String),
}

impl AnvilError {
    /// The error's message.
    pub open spec fn message(&self) -> Seq<char> {
        match self {
            AnvilError::Spawn(m) => "Failed to spawn Anvil: "@ + m@,
            AnvilError::Connection(m) => "Failed to connect to Anvil: "@ + m@,
            AnvilError::Transaction(m) => "Transaction failed: "@ + m@,
            AnvilError::Receipt(m) => "Failed to get receipt: "@ + m@,
            AnvilError::BlockNotFound(n) => "Block not found: "@ + decimal(*n as nat),
            AnvilError::Provider(m) => "Provider error: "@ + m@,
        }
    }

    /// Renders the error's message.
    pub fn to_string(&self) -> (s: String)
        ensures
            s@ == self.message(),
    {
        match self {
            AnvilError::Spawn(m) => join2("Failed to spawn Anvil: ", m.as_str()),
            AnvilError::Connection(m) => join2("Failed to connect to Anvil: ", m.as_str()),
            AnvilError::Transaction(m) => join2("Transaction failed: ", m.as_str()),
            AnvilError::Receipt(m) => join2("Failed to get receipt: ", m.as_str()),
            AnvilError::BlockNotFound(n) => join2("Block not found: ", u64_decimal(*n).as_str()),
            AnvilError::Provider(m) => join2("Provider error: ", m.as_str()),
        }
    }
}

/// The sink error an Anvil error stands for, where it carries its message
/// over unchanged.
pub open spec fn sink_error_moved(err: AnvilError, r: SinkError) -> bool {
    match err {
        AnvilError::Spawn(m) | AnvilError::Connection(m) => r == SinkError::Connection(m),
        AnvilError::Transaction(m) | AnvilError::Receipt(m) | AnvilError::Provider(m) => r
            == SinkError::TxFailed(m),
        AnvilError::BlockNotFound(n) => r matches SinkError::TxFailed(s) && s@ == "Block not found: "@
            + decimal(n as nat),
    }
}

impl From<AnvilError> for SinkError {
    /// Spawn and connection failures are connection errors; every other error
    /// is a failed transaction, a missing block with its number in the
    /// message.
    fn from(err: AnvilError) -> (r: SinkError)
        ensures
            sink_error_moved(err, r),
    {
        match err {
            AnvilError::Spawn(msg) | AnvilError::Connection(msg) => SinkError::Connection(msg),
            AnvilError::Transaction(msg) | AnvilError::Receipt(msg) => SinkError::TxFailed(msg),
            AnvilError::BlockNotFound(n) => SinkError::TxFailed(join2("Block not found: ", u64_decimal(n).as_str())),
            AnvilError::Provider(msg) => SinkError::TxFailed(msg),
        }
    }
}

impl vstd::std_specs::convert::FromSpecImpl<AnvilError> for SinkError {
    /// The conversion builds a new message for a missing block, which no spec
    /// function can name; `from` states what it returns instead.
    open spec fn obeys_from_spec() -> bool {
        false
    }

    open spec fn from_spec(err: AnvilError) -> SinkError {
        vstd::pervasive::arbitrary()
    }
}

/// The source error an Anvil error stands for.
pub open spec fn source_error_of(err: AnvilError) -> SourceError {
    match err {
        AnvilError::Spawn(m) | AnvilError::Connection(m) | AnvilError::Provider(m)
        | AnvilError::Transaction(m) | AnvilError::Receipt(m) => SourceError::Connection(m),
        AnvilError::BlockNotFound(_) => SourceError::Empty,
    }
}

impl From<AnvilError> for SourceError {
    /// A missing block means nothing is available; every other error is a
    /// connection error with the same message.
    fn from(err: AnvilError) -> (r: SourceError)
        ensures
            r == source_error_of(err),
    {
        match err {
            AnvilError::Spawn(msg)
            | AnvilError::Connection(msg)
            | AnvilError::Provider(msg)
            | AnvilError::Transaction(msg)
            | AnvilError::Receipt(msg) => SourceError::Connection(msg),
            AnvilError::BlockNotFound(_) => SourceError::Empty,
        }
    }
}

impl vstd::std_specs::convert::FromSpecImpl<AnvilError> for SourceError {
    open spec fn obeys_from_spec() -> bool {
        true
    }

    open spec fn from_spec(err: AnvilError) -> SourceError {
        source_error_of(err)
    }
}

} // verus!
