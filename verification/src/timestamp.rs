//! Canonical UTC-nanosecond timestamps, with window validation.
//!
//! Vendor endpoints report timestamps either in milliseconds or in
//! nanoseconds since the Unix epoch. Millisecond endpoints additionally
//! report equity timestamps shifted by a fixed exchange-timezone offset of
//! five hours, which canonicalization removes; nanosecond timestamps arrive
//! already canonical. Every record of a response is validated against the
//! caller's requested half-open window `[from, to)`: one record outside the
//! window rejects the whole batch, since a drifted vendor response is not
//! something to accept in part. An empty batch is itself a distinguished
//! signal, never a silent empty success.

use vstd::prelude::*;
use crate::error::{FetchError, PermanentCause};

verus! {

/// The unit a raw vendor timestamp arrives in.
#[derive(Debug, Clone, Copy, PartialEq, Eq, Structural)]
pub enum TsUnit {
    Millis,
    Nanos,
}

/// The fixed exchange-timezone correction carried by equity timestamps on
/// millisecond endpoints: five hours, in milliseconds.
pub const EQUITY_CORRECTION_MS: i64 = 18_000_000;

/// The canonical UTC-nanosecond value of a raw vendor timestamp: millisecond
/// inputs shed the equity correction (when the instrument is an equity) and
/// scale to nanoseconds; nanosecond inputs are already canonical.
pub open spec fn spec_canonical_ns(raw: i64, unit: TsUnit, is_equity: bool) -> int {
    match unit {
        TsUnit::Millis => (raw - (if is_equity {
            EQUITY_CORRECTION_MS as int
        } else {
            0int
        })) * 1_000_000,
        TsUnit::Nanos => raw as int,
    }
}

/// True when the canonical value fits a signed 64-bit nanosecond count.
pub open spec fn spec_representable(raw: i64, unit: TsUnit, is_equity: bool) -> bool {
    i64::MIN <= spec_canonical_ns(raw, unit, is_equity) <= i64::MAX
}

/// Converts one raw timestamp to canonical UTC nanoseconds, or nothing when
/// the canonical value does not fit a signed 64-bit count.
pub fn normalize_ts(raw: i64, unit: TsUnit, is_equity: bool) -> (r: Option<i64>)
    ensures
        r is Some <==> spec_representable(raw, unit, is_equity),
        r matches Some(v) ==> v == spec_canonical_ns(raw, unit, is_equity),
{
    match unit {
        TsUnit::Nanos => Some(raw),
        TsUnit::Millis => {
            let corr: i64 = if is_equity {
                EQUITY_CORRECTION_MS
            } else {
                0
            };
            let base: i128 = (raw as i128) - (corr as i128);
            let ns: i128 = base * 1_000_000;
            if ns < i64::MIN as i128 || ns > i64::MAX as i128 {
                None
            } else {
                Some(ns as i64)
            }
        },
    }
}

/// True when a canonical timestamp lies inside the half-open window: at or
/// after its closed start, strictly before its open end.
pub open spec fn spec_in_window(ts: int, from: i64, to: i64) -> bool {
    from <= ts < to
}

/// True when every record of the batch canonicalizes into the window.
pub open spec fn spec_batch_in_window(
    raws: Seq<i64>,
    unit: TsUnit,
    is_equity: bool,
    from: i64,
    to: i64,
) -> bool {
    forall|i: int|
        0 <= i < raws.len() ==> spec_in_window(
            spec_canonical_ns(#[trigger] raws[i], unit, is_equity),
            from,
            to,
        )
}

/// Canonicalizes a whole batch of raw timestamps and validates each against
/// the half-open window `[from, to)`.
///
/// An empty batch is the distinguished "no data" signal, so that callers can
/// never mistake a fault for an empty answer. A record outside the window
/// rejects the whole batch with the index of the first offender, on which a
/// caller may persist the raw payload for later investigation.
pub fn normalize_batch(
    raws: &Vec<i64>,
    unit: TsUnit,
    is_equity: bool,
    from: i64,
    to: i64,
) -> (r: Result<Vec<i64>, FetchError>)
    ensures
        r is Ok <==> raws@.len() > 0 && spec_batch_in_window(raws@, unit, is_equity, from, to),
        r matches Ok(v) ==> {
            &&& v@.len() == raws@.len()
            &&& forall|i: int|
                0 <= i < raws@.len() ==> v@[i] == spec_canonical_ns(
                    #[trigger] raws@[i],
                    unit,
                    is_equity,
                )
        },
        raws@.len() == 0 ==> r == Err::<Vec<i64>, FetchError>(FetchError::EmptyResult),
        raws@.len() > 0 && r is Err ==> (r matches Err(FetchError::Permanent(c)) && (
        c is TimestampOutOfRange || c is TimestampUnrepresentable)),
        r matches Err(FetchError::Permanent(PermanentCause::TimestampOutOfRange(i))) ==> {
            &&& 0 <= i < raws@.len()
            &&& spec_representable(raws@[i as int], unit, is_equity)
            &&& !spec_in_window(spec_canonical_ns(raws@[i as int], unit, is_equity), from, to)
            &&& forall|j: int|
                0 <= j < i ==> spec_in_window(
                    spec_canonical_ns(#[trigger] raws@[j], unit, is_equity),
                    from,
                    to,
                )
        },
        r matches Err(FetchError::Permanent(PermanentCause::TimestampUnrepresentable(i))) ==> {
            &&& 0 <= i < raws@.len()
            &&& !spec_representable(raws@[i as int], unit, is_equity)
            &&& forall|j: int|
                0 <= j < i ==> spec_in_window(
                    spec_canonical_ns(#[trigger] raws@[j], unit, is_equity),
                    from,
                    to,
                )
        },
{
    if raws.len() == 0 {
        return Err(FetchError::EmptyResult);
    }
    let mut out: Vec<i64> = Vec::new();
    let mut i: usize = 0;
    while i < raws.len()
        invariant
            i <= raws@.len(),
            out@.len() == i,
            forall|j: int|
                0 <= j < i ==> out@[j] == spec_canonical_ns(
                    #[trigger] raws@[j],
                    unit,
                    is_equity,
                ),
            forall|j: int|
                0 <= j < i ==> spec_in_window(
                    spec_canonical_ns(#[trigger] raws@[j], unit, is_equity),
                    from,
                    to,
                ),
        decreases raws.len() - i,
    {
        match normalize_ts(raws[i], unit, is_equity) {
            None => {
                return Err(
                    FetchError::Permanent(PermanentCause::TimestampUnrepresentable(i)),
                );
            },
            Some(ts) => {
                if ts < from || ts >= to {
                    return Err(
                        FetchError::Permanent(PermanentCause::TimestampOutOfRange(i)),
                    );
                }
                out.push(ts);
            },
        }
        i = i + 1;
    }
    Ok(out)
}

} // verus!
