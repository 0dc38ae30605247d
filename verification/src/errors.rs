//! The error taxonomy of a run.
//!
//! Every failure is fatal for the run that raised it; the variants record
//! which stage failed, and the payload carries the human-readable message.

use vstd::prelude::*;

verus! {

/// One failure kind per stage of the pipeline.
#[derive(Debug)]
pub enum AppError {
    /// Daemon unreachable or the connect timed out.
    Connection(String),
    /// Unexpected daemon greeting, `ACK` reply, or truncated reply.
    Protocol(String),
    /// Malformed key/value line, size string, or redirect URL.
    Parse(String),
    /// Missing or invalid token; failed exchange or refresh.
    Auth(String),
    /// Non-success response from the catalog's REST API.
    CatalogApi(String),
    /// No matching track, album, or image size.
    NotFound(String),
    /// Configuration or file I/O failure.
    Io(String),
}

impl AppError {
    /// The message the error carries.
    pub open spec fn spec_message(&self) -> Seq<char> {
        match self {
            AppError::Connection(m) => m@,
            AppError::Protocol(m) => m@,
            AppError::Parse(m) => m@,
            AppError::Auth(m) => m@,
            AppError::CatalogApi(m) => m@,
            AppError::NotFound(m) => m@,
            AppError::Io(m) => m@,
        }
    }

    /// Borrow the message.
    pub fn message(&self) -> (r: &String)
        ensures
            r@ == self.spec_message(),
    {
        match self {
            AppError::Connection(m) => m,
            AppError::Protocol(m) => m,
            AppError::Parse(m) => m,
            AppError::Auth(m) => m,
            AppError::CatalogApi(m) => m,
            AppError::NotFound(m) => m,
            AppError::Io(m) => m,
        }
    }
}

} // verus!
