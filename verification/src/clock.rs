use vstd::prelude::*;

verus! {

/// A source of the current time in milliseconds since the Unix epoch.
///
/// Nothing is promised of the value: two readings may differ, and time may
/// even go backwards. The timer engine is verified for every reading.
pub trait Clock: Send + Sync {
    fn now_ms(&self) -> i64;
}

/// The wall clock of the machine.
#[derive(Default)]
pub struct SystemClock;

/// Whole milliseconds from the Unix epoch to `std::time::SystemTime::now()`,
/// or `None` when the system time lies before the epoch. The value rests on
/// the machine's clock, so nothing is stated of it.
#[verifier::external_body]
fn unix_millis() -> Option<u128> {
    std::time::SystemTime::now().duration_since(std::time::UNIX_EPOCH).ok().map(|duration| duration.as_millis())
}

/// The clock reading for a number of milliseconds since the epoch: the
/// value truncated to `i64`, or `0` when the time lies before the epoch.
pub fn clock_ms_from_millis(millis: Option<u128>) -> (r: i64)
    ensures
        r == (match millis {
            Some(m) => m as i64,
            None => 0i64,
        }),
{
    match millis {
        Some(m) => m as i64,
        None => 0,
    }
}

impl Clock for SystemClock {
    /// Milliseconds since the epoch, truncated to `i64`; `0` when the
    /// system time lies before the epoch.
    fn now_ms(&self) -> i64 {
        clock_ms_from_millis(unix_millis())
    }
}

} // verus!
