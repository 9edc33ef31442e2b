//! The error taxonomy of the client: configuration, transport, exchange and
//! decode failures are kept apart so that a caller can tell "fix your setup"
//! from "try again" from "the exchange rejected this request".

use vstd::prelude::*;

verus! {

/// A failure surfaced to the caller of the client.
#[derive(Debug, Clone, PartialEq, Eq)]
pub enum BinanceError {
    /// A signed operation was issued on a client constructed without
    /// credentials. Fatal; the caller must fix its setup.
    Configuration,
    /// The network or I/O layer failed before a response arrived.
    /// Potentially retryable.
    Transport { message: Vec<u8> },
    /// The exchange rejected a well-formed request with its own error code
    /// and message.
    Exchange { code: i64, message: Vec<u8> },
    /// The response bytes did not match the expected shape; the raw body is
    /// kept for diagnosis, never silently coerced.
    Decode { body: Vec<u8> },
}

/// Mathematical model of a [`BinanceError`], over byte sequences.
pub enum ErrorModel {
    Configuration,
    Transport { message: Seq<u8> },
    Exchange { code: i64, message: Seq<u8> },
    Decode { body: Seq<u8> },
}

impl View for BinanceError {
    type V = ErrorModel;

    open spec fn view(&self) -> ErrorModel {
        match self {
            BinanceError::Configuration => ErrorModel::Configuration,
            BinanceError::Transport { message } => ErrorModel::Transport { message: message@ },
            BinanceError::Exchange { code, message } => ErrorModel::Exchange {
                code: *code,
                message: message@,
            },
            BinanceError::Decode { body } => ErrorModel::Decode { body: body@ },
        }
    }
}

} // verus!
