//! A progress indicator: a thin sequence of log calls reporting a counter,
//! optionally against a known total.

use vstd::prelude::*;

use crate::clock::Timestamp;
use crate::levels::LogLevel;
use crate::logger::Logger;
use crate::sink::LogSink;
use crate::text::spec_dec;
use crate::text::u64_to_dec;

verus! {

/// The message a progress update logs: `message [current/total]`, or
/// `message [current]` when no total is known.
pub open spec fn spec_progress_text(message: Seq<char>, current: u64, total: Option<u64>) -> Seq<
    char,
> {
    match total {
        Some(t) => message + " ["@ + spec_dec(current as nat) + "/"@ + spec_dec(t as nat) + "]"@,
        None => message + " ["@ + spec_dec(current as nat) + "]"@,
    }
}

/// A running progress report, logged at `INFO` while it runs and at
/// `SUCCESS` when it finishes.
#[derive(Debug)]
pub struct Progress {
    pub message: String,
    pub total: Option<u64>,
    pub current: u64,
}

impl Progress {
    /// A progress report with no known total, starting at zero.
    pub fn new(message: &str) -> (p: Self)
        ensures
            p.message@ == message@,
            p.total is None,
            p.current == 0,
    {
        Progress { message: String::from_str(message), total: None, current: 0 }
    }

    /// A progress report against a known total, starting at zero.
    pub fn with_total(message: &str, total: u64) -> (p: Self)
        ensures
            p.message@ == message@,
            p.total == Some(total),
            p.current == 0,
    {
        Progress { message: String::from_str(message), total: Some(total), current: 0 }
    }

    /// Replaces the message and logs the current standing at `INFO`. A
    /// failed write is discarded; a sink that never fails receives the
    /// record.
    pub fn update<S: LogSink>(&mut self, message: &str, logger: &mut Logger<S>)
        ensures
            final(self).message@ == message@,
            final(self).current == old(self).current,
            final(self).total == old(self).total,
            final(logger).same_config(*old(logger)),
            final(logger).writer.tracks_contents() == old(logger).writer.tracks_contents(),
            final(logger).writer.infallible() == old(logger).writer.infallible(),
            old(logger).writer.tracks_contents() ==> final(logger).writer.contents() == old(
                logger,
            ).writer.contents() || (exists|ts: Timestamp|
                ts.time@.len() == 8 && final(logger).writer.contents() == old(
                    logger,
                ).writer.contents() + #[trigger] old(logger).spec_record(
                    LogLevel::INFO,
                    spec_progress_text(message@, old(self).current, old(self).total),
                    ""@,
                    0,
                    ts,
                )),
            old(logger).writer.tracks_contents() && old(logger).writer.infallible() ==> exists|
                ts: Timestamp,
            |
                ts.time@.len() == 8 && final(logger).writer.contents() == old(
                    logger,
                ).writer.contents() + #[trigger] old(logger).spec_record(
                    LogLevel::INFO,
                    spec_progress_text(message@, old(self).current, old(self).total),
                    ""@,
                    0,
                    ts,
                ),
    {
        self.message = String::from_str(message);
        let mut text = self.message.clone();
        text.append(" [");
        let cur = u64_to_dec(self.current);
        text.append(cur.as_str());
        match self.total {
            Some(total) => {
                text.append("/");
                let t = u64_to_dec(total);
                text.append(t.as_str());
            },
            None => {},
        }
        text.append("]");
        let _r = logger.write_log(LogLevel::INFO, text.as_str(), "", 0);
        proof {
            if old(logger).writer.tracks_contents() {
                if _r is Ok || logger.writer.contents() != old(logger).writer.contents() {
                    let ts0 = choose|ts: Timestamp|
                        ts.time@.len() == 8 && logger.writer.contents() == old(
                            logger,
                        ).writer.contents() + #[trigger] old(logger).spec_record(
                            LogLevel::INFO,
                            text@,
                            ""@,
                            0,
                            ts,
                        );
                    assert(ts0.time@.len() == 8 && logger.writer.contents() == old(
                        logger,
                    ).writer.contents() + old(logger).spec_record(
                        LogLevel::INFO,
                        spec_progress_text(message@, old(self).current, old(self).total),
                        ""@,
                        0,
                        ts0,
                    ));
                }
            }
        }
    }

    /// Advances the counter by `amount` and logs the new standing.
    pub fn inc<S: LogSink>(&mut self, amount: u64, logger: &mut Logger<S>)
        requires
            old(self).current + amount <= u64::MAX,
        ensures
            final(self).message@ == old(self).message@,
            final(self).current == old(self).current + amount,
            final(self).total == old(self).total,
            final(logger).same_config(*old(logger)),
            final(logger).writer.tracks_contents() == old(logger).writer.tracks_contents(),
            final(logger).writer.infallible() == old(logger).writer.infallible(),
            old(logger).writer.tracks_contents() ==> final(logger).writer.contents() == old(
                logger,
            ).writer.contents() || (exists|ts: Timestamp|
                ts.time@.len() == 8 && final(logger).writer.contents() == old(
                    logger,
                ).writer.contents() + #[trigger] old(logger).spec_record(
                    LogLevel::INFO,
                    spec_progress_text(
                        old(self).message@,
                        (old(self).current + amount) as u64,
                        old(self).total,
                    ),
                    ""@,
                    0,
                    ts,
                )),
            old(logger).writer.tracks_contents() && old(logger).writer.infallible() ==> exists|
                ts: Timestamp,
            |
                ts.time@.len() == 8 && final(logger).writer.contents() == old(
                    logger,
                ).writer.contents() + #[trigger] old(logger).spec_record(
                    LogLevel::INFO,
                    spec_progress_text(
                        old(self).message@,
                        (old(self).current + amount) as u64,
                        old(self).total,
                    ),
                    ""@,
                    0,
                    ts,
                ),
    {
        self.current = self.current + amount;
        let m = self.message.clone();
        self.update(m.as_str(), logger);
    }

    /// Finishes the report: logs `message [Complete]` at `SUCCESS`. A
    /// failed write is discarded; a sink that never fails receives the
    /// record.
    pub fn finish<S: LogSink>(self, logger: &mut Logger<S>)
        ensures
            final(logger).same_config(*old(logger)),
            final(logger).writer.tracks_contents() == old(logger).writer.tracks_contents(),
            final(logger).writer.infallible() == old(logger).writer.infallible(),
            old(logger).writer.tracks_contents() ==> final(logger).writer.contents() == old(
                logger,
            ).writer.contents() || (exists|ts: Timestamp|
                ts.time@.len() == 8 && final(logger).writer.contents() == old(
                    logger,
                ).writer.contents() + #[trigger] old(logger).spec_record(
                    LogLevel::SUCCESS,
                    self.message@ + " [Complete]"@,
                    ""@,
                    0,
                    ts,
                )),
            old(logger).writer.tracks_contents() && old(logger).writer.infallible() ==> exists|
                ts: Timestamp,
            |
                ts.time@.len() == 8 && final(logger).writer.contents() == old(
                    logger,
                ).writer.contents() + #[trigger] old(logger).spec_record(
                    LogLevel::SUCCESS,
                    self.message@ + " [Complete]"@,
                    ""@,
                    0,
                    ts,
                ),
    {
        let mut text = self.message;
        text.append(" [Complete]");
        let _r = logger.write_log(LogLevel::SUCCESS, text.as_str(), "", 0);
    }

    /// Finishes the report with a message of the caller's own, at
    /// `SUCCESS`. A failed write is discarded; a sink that never fails
    /// receives the record.
    pub fn finish_with_message<S: LogSink>(self, message: &str, logger: &mut Logger<S>)
        ensures
            final(logger).same_config(*old(logger)),
            final(logger).writer.tracks_contents() == old(logger).writer.tracks_contents(),
            final(logger).writer.infallible() == old(logger).writer.infallible(),
            old(logger).writer.tracks_contents() ==> final(logger).writer.contents() == old(
                logger,
            ).writer.contents() || (exists|ts: Timestamp|
                ts.time@.len() == 8 && final(logger).writer.contents() == old(
                    logger,
                ).writer.contents() + #[trigger] old(logger).spec_record(
                    LogLevel::SUCCESS,
                    message@,
                    ""@,
                    0,
                    ts,
                )),
            old(logger).writer.tracks_contents() && old(logger).writer.infallible() ==> exists|
                ts: Timestamp,
            |
                ts.time@.len() == 8 && final(logger).writer.contents() == old(
                    logger,
                ).writer.contents() + #[trigger] old(logger).spec_record(
                    LogLevel::SUCCESS,
                    message@,
                    ""@,
                    0,
                    ts,
                ),
    {
        let _r = logger.write_log(LogLevel::SUCCESS, message, "", 0);
    }
}

} // verus!
