//! The clocks that the supervisor reads: nothing is known of what they say.

use vstd::prelude::*;
use std::time::Instant;

verus! {

/// The format of the time of day in a log line.
pub open spec fn log_stamp_format() -> Seq<char> {
    "%H:%M:%S"@
}

/// The format of the date and time in a file's name.
pub open spec fn file_stamp_format() -> Seq<char> {
    "%Y%m%d_%H%M%S"@
}

/// What the clocks said at one moment.
pub struct Clock {
    /// The monotonic clock.
    pub now: Instant,
    /// The time of day, as it stands in a log line.
    pub stamp: String,
    /// The date and time, as they stand in a file's name.
    pub file_stamp: String,
    /// The seconds since the connection, where there is one.
    pub elapsed: Option<u64>,
}

/// A reading of the clocks with its texts as sequences of characters.
pub struct ClockView {
    pub now: Instant,
    pub stamp: Seq<char>,
    pub file_stamp: Seq<char>,
    pub elapsed: Option<u64>,
}

impl View for Clock {
    type V = ClockView;

    open spec fn view(&self) -> ClockView {
        ClockView {
            now: self.now,
            stamp: self.stamp@,
            file_stamp: self.file_stamp@,
            elapsed: self.elapsed,
        }
    }
}

/// Calls `Instant::now`. The reading depends on the moment of the call, so
/// nothing is stated of it.
#[verifier::external_body]
pub(crate) fn instant_now() -> (now: Instant) {
    Instant::now()
}

/// Calls `Instant::elapsed` and `Duration::as_secs`: the whole seconds since
/// `start`. The result depends on the moment of the call, so nothing is
/// stated of it.
#[verifier::external_body]
pub(crate) fn elapsed_secs(start: &Instant) -> (secs: u64) {
    start.elapsed().as_secs()
}

/// Calls `chrono::Local::now` and formats the reading with
/// `DateTime::format`. The text depends on the moment of the call and on the
/// time zone, so nothing is stated of it. Formatting fails on a format that
/// chrono does not know, so only the two formats of this library are let in.
#[verifier::external_body]
pub(crate) fn local_time(format: &str) -> (text: String)
    requires
        format@ == log_stamp_format() || format@ == file_stamp_format(),
{
    chrono::Local::now().format(format).to_string()
}

/// Reads the clocks: the monotonic clock, the local time in both formats,
/// and the seconds since `start`, where there is one.
pub fn read_clock(start: Option<Instant>) -> (clock: Clock)
    ensures
        clock.elapsed is Some <==> start is Some,
{
    let elapsed: Option<u64> = match start {
        Some(since) => Some(elapsed_secs(&since)),
        None => None,
    };
    Clock {
        now: instant_now(),
        stamp: local_time("%H:%M:%S"),
        file_stamp: local_time("%Y%m%d_%H%M%S"),
        elapsed,
    }
}

} // verus!
