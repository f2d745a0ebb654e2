//! Playback duration in whole seconds.

use vstd::prelude::*;
use crate::model::{AudioContainer, ExtractionError, Failure, StreamDuration, NANOS_PER_SEC};

verus! {

/// Half a second, in nanoseconds.
pub const HALF_SECOND_NANOS: u32 = 500_000_000u32;

/// A duration in nanoseconds.
pub open spec fn total_nanos(duration: StreamDuration) -> int {
    duration.secs * NANOS_PER_SEC + duration.subsec_nanos
}

/// The whole second nearest to a duration, half a second counting upwards.
pub open spec fn nearest_second(duration: StreamDuration) -> int {
    if duration.subsec_nanos >= HALF_SECOND_NANOS {
        duration.secs + 1
    } else {
        duration.secs as int
    }
}

/// The nearest whole second as a signed 64-bit number, which holds at its
/// largest value what lies beyond it.
pub open spec fn rounded(duration: StreamDuration) -> int {
    if nearest_second(duration) > i64::MAX {
        i64::MAX as int
    } else {
        nearest_second(duration)
    }
}

/// What the duration reader yields for the outcome of parsing a file.
pub open spec fn duration_outcome(parsed: Result<AudioContainer, String>) -> Result<int, Failure> {
    match parsed {
        Ok(container) => Ok(rounded(container.duration)),
        Err(cause) => Err(Failure::ReadFailed(cause@)),
    }
}

/// A result of the duration reader, its texts as sequences of characters.
pub open spec fn seconds_view(outcome: Result<i64, ExtractionError>) -> Result<int, Failure> {
    match outcome {
        Ok(seconds) => Ok(seconds as int),
        Err(error) => Err(error@),
    }
}

/// Rounds a duration to the nearest whole second.
pub fn rounded_seconds(duration: StreamDuration) -> (seconds: i64)
    ensures
        seconds == rounded(duration),
{
    let limit: u64 = 0x7FFF_FFFF_FFFF_FFFFu64;
    if duration.secs >= limit {
        i64::MAX
    } else {
        let up: u64 = if duration.subsec_nanos >= HALF_SECOND_NANOS {
            1
        } else {
            0
        };
        (duration.secs + up) as i64
    }
}

/// The duration for the outcome of parsing a file: a parse failure becomes
/// `ReadFailed` with the parser's words, a parsed container gives its
/// duration in whole seconds.
pub fn get_audio_duration(parsed: Result<AudioContainer, String>) -> (seconds: Result<
    i64,
    ExtractionError,
>)
    ensures
        seconds_view(seconds) == duration_outcome(parsed),
{
    match parsed {
        Ok(container) => Ok(rounded_seconds(container.duration)),
        Err(cause) => Err(ExtractionError::ReadFailed(cause)),
    }
}

/// No whole second lies nearer to a well-formed duration than the one it is
/// rounded to, and a duration half way between two seconds goes to the later.
pub proof fn lemma_nearest_second_is_nearest(duration: StreamDuration, other: int)
    requires
        duration.wf(),
    ensures
        vstd::math::abs(nearest_second(duration) * NANOS_PER_SEC - total_nanos(duration))
            <= vstd::math::abs(other * NANOS_PER_SEC - total_nanos(duration)),
        2 * vstd::math::abs(nearest_second(duration) * NANOS_PER_SEC - total_nanos(duration))
            <= NANOS_PER_SEC,
        duration.subsec_nanos == HALF_SECOND_NANOS ==> nearest_second(duration) == duration.secs
            + 1,
{
    let s = duration.secs as int;
    let n = duration.subsec_nanos as int;
    let unit = NANOS_PER_SEC as int;
    let near = nearest_second(duration);
    assert(near * unit - total_nanos(duration) == (near - s) * unit - n) by (nonlinear_arith)
        requires
            total_nanos(duration) == s * unit + n,
    ;
    assert((near - s) * unit == if near == s { 0 } else { unit }) by (nonlinear_arith)
        requires
            near == s || near == s + 1,
    ;
    assert(other * unit - total_nanos(duration) == (other - s) * unit - n) by (nonlinear_arith)
        requires
            total_nanos(duration) == s * unit + n,
    ;
    if other <= s {
        assert((other - s) * unit <= 0) by (nonlinear_arith)
            requires
                other - s <= 0,
                unit > 0,
        ;
    } else {
        assert((other - s) * unit >= unit) by (nonlinear_arith)
            requires
                other - s >= 1,
                unit > 0,
        ;
    }
}

} // verus!
