//! One closed error taxonomy shared by every component.
//!
//! A failure is either a configuration fault (surfaced immediately, never
//! retried), transient (retried under the backoff policy), permanent
//! (surfaced immediately), or the distinguished "no data" signal that some
//! callers treat as a valid empty answer rather than as a failure.

use vstd::prelude::*;

verus! {

/// A failure that another attempt may fix: the network dropped the request,
/// the request timed out, or the server answered with a retryable status.
#[derive(Debug, Clone, Copy, PartialEq, Eq, Structural)]
pub enum TransientCause {
    /// The connection failed or timed out before a status arrived.
    Network,
    /// The server answered with a status that is worth retrying.
    Status(u16),
}

/// A failure that no retry can fix.
#[derive(Debug, Clone, Copy, PartialEq, Eq, Structural)]
pub enum PermanentCause {
    /// The server answered with a non-retryable status other than 200 or 404.
    Status(u16),
    /// The body announced gzip but the stream did not decompress.
    CorruptBody,
    /// The decompressed body exceeded the configured ceiling.
    BodyTooLarge,
    /// The body was not well-formed JSON.
    MalformedJson,
    /// A continuation URL arrived without a cursor parameter in it.
    MalformedPagination,
    /// More than four condition codes were supplied.
    TooManyConditions,
    /// A condition code reached or exceeded the discipline's maximum.
    ConditionTooLarge,
    /// A correction code outside the vendor's allow-list.
    UnknownCorrection,
    /// A trade identifier longer than twenty bytes.
    TradeIdTooLong,
    /// A trade identifier of nine to twenty bytes that is not an unsigned
    /// 64-bit decimal number.
    TradeIdNotDecimal,
    /// A record's canonical timestamp fell outside the requested window;
    /// the payload carries the index of the first offending record.
    TimestampOutOfRange(usize),
    /// A record's canonical timestamp does not fit a signed 64-bit count of
    /// nanoseconds; the payload carries the index of the first such record.
    TimestampUnrepresentable(usize),
}

/// The one error type every component returns.
#[derive(Debug)]
pub enum FetchError {
    /// A required configuration value (a credential) is missing; the payload
    /// names it. Never retried.
    Config(String),
    /// Retryable per the backoff policy.
    Transient(TransientCause),
    /// Not retryable; surfaced immediately.
    Permanent(PermanentCause),
    /// The distinguished "no data for this query" signal (an HTTP 404, or an
    /// empty result set where data was demanded). Never retried, and never
    /// conflated with a permanent failure.
    EmptyResult,
}

impl FetchError {
    /// True for the one variant that the retry loop acts on.
    pub fn is_transient(&self) -> (r: bool)
        ensures
            r == (self is Transient),
    {
        match self {
            FetchError::Transient(_) => true,
            _ => false,
        }
    }

    /// A short stable label for logs; the structured cause stays in the value.
    pub fn label(&self) -> (r: &'static str)
        ensures
            r@ == self.spec_label(),
    {
        match self {
            FetchError::Config(_) => "config",
            FetchError::Transient(_) => "transient",
            FetchError::Permanent(_) => "permanent",
            FetchError::EmptyResult => "empty",
        }
    }

    /// The label `label` returns, as a sequence of characters.
    pub open spec fn spec_label(&self) -> Seq<char> {
        match self {
            FetchError::Config(_) => "config"@,
            FetchError::Transient(_) => "transient"@,
            FetchError::Permanent(_) => "permanent"@,
            FetchError::EmptyResult => "empty"@,
        }
    }
}

} // verus!
