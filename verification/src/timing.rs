//! Timed operations: a handle that records a start instant and, when
//! finished, logs one record reporting the elapsed duration.

use std::time::Instant;

use vstd::prelude::*;

use crate::clock::Timestamp;
use crate::levels::spec_should_log;
use crate::levels::LogLevel;
use crate::logger::Logger;
use crate::sink::LogSink;

verus! {

/// A monotonic clock reading, opaque to the library's reasoning.
#[verifier::external_type_specification]
#[verifier::external_body]
pub struct ExInstant(Instant);

/// Relies on `std::time::Instant::now`: a reading of the monotonic clock,
/// of which nothing can be promised.
pub assume_specification[ Instant::now ]() -> (r: Instant);

/// Relies on `std::time::Instant::elapsed`: the time since the reading,
/// saturating at zero, of which nothing can be promised either.
pub assume_specification[ Instant::elapsed ](this: &Instant) -> (r: core::time::Duration);

/// Relies on `Duration`'s `Debug` formatting: a human-readable form such
/// as `1.25ms`. The duration came off the clock, so nothing is promised.
#[verifier::external_body]
fn duration_human(d: core::time::Duration) -> (r: String) {
    format!("{:.2?}", d)
}

/// The message a finished timed operation logs.
pub open spec fn spec_timed_message(name: Seq<char>, dur: Seq<char>) -> Seq<char> {
    "Operation '"@ + name + "' completed in "@ + dur
}

/// A scoped timing handle: created at the start of an operation, finished
/// at its end with one log record reporting the elapsed duration.
#[derive(Debug)]
pub struct TimedOperation {
    pub start: Instant,
    pub name: String,
    pub level: LogLevel,
}

impl TimedOperation {
    /// Starts timing `name`, to be reported at `level`.
    pub fn new(name: &str, level: LogLevel) -> (t: Self)
        ensures
            t.name@ == name@,
            t.level == level,
    {
        TimedOperation { start: Instant::now(), name: String::from_str(name), level }
    }

    /// Ends the operation: computes the elapsed duration and logs
    /// `Operation '<name>' completed in <duration>` at the operation's
    /// level. Below the threshold nothing at all is written; above it, a
    /// sink that never fails receives exactly one record. Emission
    /// failures are discarded; this never panics and never propagates an
    /// error.
    pub fn finish<S: LogSink>(self, logger: &mut Logger<S>)
        ensures
            final(logger).same_config(*old(logger)),
            final(logger).writer.tracks_contents() == old(logger).writer.tracks_contents(),
            final(logger).writer.infallible() == old(logger).writer.infallible(),
            !spec_should_log(old(logger).min_level, self.level) ==> *final(logger) == *old(
                logger,
            ),
            old(logger).writer.tracks_contents() ==> final(logger).writer.contents() == old(
                logger,
            ).writer.contents() || (exists|ts: Timestamp, dur: Seq<char>|
                ts.time@.len() == 8 && final(logger).writer.contents() == old(
                    logger,
                ).writer.contents() + #[trigger] old(logger).spec_record(
                    self.level,
                    spec_timed_message(self.name@, dur),
                    ""@,
                    0,
                    ts,
                )),
            old(logger).writer.tracks_contents() && old(logger).writer.infallible()
                && spec_should_log(old(logger).min_level, self.level) ==> exists|
                ts: Timestamp,
                dur: Seq<char>,
            |
                ts.time@.len() == 8 && final(logger).writer.contents() == old(
                    logger,
                ).writer.contents() + #[trigger] old(logger).spec_record(
                    self.level,
                    spec_timed_message(self.name@, dur),
                    ""@,
                    0,
                    ts,
                ),
    {
        let d = self.start.elapsed();
        let dh = duration_human(d);
        let mut msg = String::from_str("Operation '");
        msg.append(self.name.as_str());
        msg.append("' completed in ");
        msg.append(dh.as_str());
        let _r = logger.log(self.level, msg.as_str(), "", 0);
        proof {
            if old(logger).writer.tracks_contents() {
                if (_r is Ok && spec_should_log(old(logger).min_level, self.level))
                    || logger.writer.contents() != old(logger).writer.contents() {
                    let ts0 = choose|ts: Timestamp|
                        ts.time@.len() == 8 && logger.writer.contents() == old(
                            logger,
                        ).writer.contents() + #[trigger] old(logger).spec_record(
                            self.level,
                            msg@,
                            ""@,
                            0,
                            ts,
                        );
                    assert(ts0.time@.len() == 8 && logger.writer.contents() == old(
                        logger,
                    ).writer.contents() + old(logger).spec_record(
                        self.level,
                        spec_timed_message(self.name@, dh@),
                        ""@,
                        0,
                        ts0,
                    ));
                }
            }
        }
    }
}

} // verus!
