//! The error taxonomy: spawn and command failures at the CLI gateway,
//! parse failures on CLI output, storage failures of the embedded
//! key-value store, and the settlement-specific failures of the ledger
//! lookup.

use vstd::prelude::*;

verus! {

/// The embedded key-value store failed; the message carries its report.
#[derive(Debug)]
pub struct StorageError {
    pub message: String,
}

impl Clone for StorageError {
    fn clone(&self) -> (r: Self)
        ensures
            r.message@ == self.message@,
    {
        StorageError { message: self.message.clone() }
    }
}

/// A CLI gateway invocation failed.
#[derive(Debug)]
pub enum CliError {
    /// The process could not be started at all; the message carries the
    /// operating system's report.
    SpawnFailed(String),
    /// The process exited with a non-zero status; the payload is the
    /// captured standard-error text.
    CommandFailed(String),
}

/// CLI output did not match the expected JSON shape.
#[derive(Debug)]
pub enum ParseError {
    /// The document could not be decoded at all.
    Malformed,
    /// The document decoded, but the named field was absent or not text.
    MissingField(String),
}

/// A settlement lookup on the ledger failed.
#[derive(Debug)]
pub enum SettlementError {
    /// No record is stored under the payment hash.
    NotFound,
    /// A record is stored, but its preimage is empty: the secret was
    /// never known locally.
    EmptyPreimage,
    /// A value is stored under the hash, but it does not decode as a
    /// record.
    Corrupt,
    /// The store itself failed before the record could be read.
    Storage(StorageError),
}

/// A failure while recording a freshly created invoice.
#[derive(Debug)]
pub enum InvoiceError {
    /// The CLI response could not be read.
    Parse(ParseError),
    /// The record could not be written to the ledger.
    Storage(StorageError),
}

} // verus!
