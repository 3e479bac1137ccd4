//! The error taxonomy of the verifier. Every check is fail-fast: the first
//! failed check ends the whole verification call with one of these kinds.

use vstd::prelude::*;

verus! {

/// Why a verification call failed.
#[derive(Debug, Clone, PartialEq, Eq)]
pub enum VerifyError {
    /// The quote buffer is too short, its header is bad, or its version or
    /// layout does not match the published quote schema.
    MalformedQuote,
    /// The quote's report body is not the supported TD 1.0 report.
    UnsupportedReportVariant,
    /// A log entry's register index falls outside the four replayable
    /// registers, so the entry belongs to none of the partition's ranges.
    RegisterIndexOutOfRange(u32),
    /// An event-log digest does not decode to exactly 48 bytes.
    InvalidDigestLength,
    /// The replayed register with this index differs from the quoted one.
    RegisterMismatch(usize),
    /// A non-zero byte was found in the report-data padding region.
    ReportDataPaddingViolation,
    /// No event with this name is present in the event log.
    MissingNamedEvent(Vec<u8>),
    /// A named event's payload is not a valid hex encoding.
    InvalidHexEncoding,
    /// A named event's payload does not fit its fixed width in the commitment.
    InvalidPayloadLength,
    /// The extended path rejected the quote against the collateral; the
    /// message names the failed stage (signature, chain, freshness, status).
    CollateralRejected(String),
}

} // verus!
