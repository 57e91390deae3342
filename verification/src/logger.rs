//! The logger: verbosity flag, minimum-level threshold, active template,
//! active context stack and active sink, with the `should_log` / `write_log`
//! entry points.
//!
//! The logger here is a value; an embedding application owns the
//! process-wide instance and the locking around it, and supplies its real
//! sink and identity (process id, thread id and name), which the library
//! cannot read itself.

use vstd::prelude::*;

use crate::ansi::colorize;
use crate::ansi::spec_colorize;
use crate::clock::now_timestamp;
use crate::clock::Timestamp;
use crate::context::ContextEntry;
use crate::context::ContextGuard;
use crate::error::LogError;
use crate::format::render;
use crate::format::spec_parse;
use crate::format::spec_render;
use crate::format::FormatPlaceholder;
use crate::format::FormatTemplate;
use crate::format::Part;
use crate::format::RenderContext;
use crate::format::RenderValues;
use crate::levels::spec_should_log;
use crate::levels::LogLevel;
use crate::sink::LogSink;
use crate::sink::MemorySink;
use crate::text::spec_dec;
use crate::text::u64_to_dec;

verus! {

/// The default line when no template is set and the logger is not verbose:
/// glyph, space, context block, message.
pub open spec fn spec_simple_line() -> Seq<Part> {
    seq![Part::Symbol, Part::Text(" "@), Part::Context, Part::Message]
}

/// The default line when no template is set and the logger is verbose:
/// glyph, clock, process and thread identity, call site, context block,
/// message.
pub open spec fn spec_verbose_line() -> Seq<Part> {
    seq![
        Part::Symbol,
        Part::Text(" ("@),
        Part::Time,
        Part::Text(") - [PID: "@),
        Part::ProcessId,
        Part::Text(" | Thread: "@),
        Part::ThreadName,
        Part::Text("] - ("@),
        Part::File,
        Part::Text(":"@),
        Part::Line,
        Part::Text(") : "@),
        Part::Context,
        Part::Message,
    ]
}

/// Builds the simple default line.
fn simple_line() -> (t: FormatTemplate)
    ensures
        t.parts.deep_view() == spec_simple_line(),
{
    let mut parts: Vec<FormatPlaceholder> = Vec::new();
    parts.push(FormatPlaceholder::Symbol);
    parts.push(FormatPlaceholder::Text(String::from_str(" ")));
    parts.push(FormatPlaceholder::Context);
    parts.push(FormatPlaceholder::Message);
    proof {
        assert(parts.deep_view() =~= spec_simple_line());
    }
    FormatTemplate { parts }
}

/// Builds the verbose default line.
fn verbose_line() -> (t: FormatTemplate)
    ensures
        t.parts.deep_view() == spec_verbose_line(),
{
    let mut parts: Vec<FormatPlaceholder> = Vec::new();
    parts.push(FormatPlaceholder::Symbol);
    parts.push(FormatPlaceholder::Text(String::from_str(" (")));
    parts.push(FormatPlaceholder::Time);
    parts.push(FormatPlaceholder::Text(String::from_str(") - [PID: ")));
    parts.push(FormatPlaceholder::ProcessId);
    parts.push(FormatPlaceholder::Text(String::from_str(" | Thread: ")));
    parts.push(FormatPlaceholder::ThreadName);
    parts.push(FormatPlaceholder::Text(String::from_str("] - (")));
    parts.push(FormatPlaceholder::File);
    parts.push(FormatPlaceholder::Text(String::from_str(":")));
    parts.push(FormatPlaceholder::Line);
    parts.push(FormatPlaceholder::Text(String::from_str(") : ")));
    parts.push(FormatPlaceholder::Context);
    parts.push(FormatPlaceholder::Message);
    proof {
        assert(parts.deep_view() =~= spec_verbose_line());
    }
    FormatTemplate { parts }
}

/// The coordinating state: verbosity, threshold, template, context stack,
/// identity, and the active sink.
pub struct Logger<S: LogSink> {
    pub verbose: bool,
    pub min_level: LogLevel,
    pub template: Option<FormatTemplate>,
    pub context: Vec<ContextEntry>,
    pub next_id: u64,
    pub pid: u64,
    pub thread_id: u64,
    pub thread_name: String,
    pub writer: S,
}

impl<S: LogSink> Logger<S> {
    /// Well-formedness: context entry identities are unique and below the
    /// next identity to be issued.
    pub open spec fn wf(&self) -> bool {
        &&& forall|i: int, j: int|
            0 <= i < j < self.context@.len() ==> self.context@[i].id != self.context@[j].id
        &&& forall|i: int| 0 <= i < self.context@.len() ==> self.context@[i].id < self.next_id
    }

    /// Everything but the sink agrees between two logger states.
    pub open spec fn same_config(self, other: Self) -> bool {
        &&& self.verbose == other.verbose
        &&& self.min_level == other.min_level
        &&& self.template == other.template
        &&& self.context == other.context
        &&& self.next_id == other.next_id
        &&& self.pid == other.pid
        &&& self.thread_id == other.thread_id
        &&& self.thread_name == other.thread_name
    }

    /// The token sequence a write renders: the active template when one is
    /// set, else the verbose or the simple default line.
    pub open spec fn effective_parts(self) -> Seq<Part> {
        if self.template is Some {
            self.template->0.parts.deep_view()
        } else if self.verbose {
            spec_verbose_line()
        } else {
            spec_simple_line()
        }
    }

    /// The thread label a write renders: the thread's name, or the
    /// synthesized `Thread-<id>` when it has none.
    pub open spec fn spec_thread_label(self) -> Seq<char> {
        if self.thread_name@.len() == 0 {
            "Thread-"@ + spec_dec(self.thread_id as nat)
        } else {
            self.thread_name@
        }
    }

    /// The render-context values one write assembles.
    pub open spec fn spec_values(
        self,
        level: LogLevel,
        message: Seq<char>,
        file: Seq<char>,
        line: u32,
        ts: Timestamp,
    ) -> RenderValues {
        RenderValues {
            level,
            message,
            file,
            line,
            time: ts.time@,
            date: ts.date@,
            datetime: ts.datetime@,
            thread_name: self.spec_thread_label(),
            thread_id: self.thread_id,
            pid: self.pid,
        }
    }

    /// The full text one write hands the sink: the rendered line,
    /// newline-terminated, wrapped in the level's color escapes.
    pub open spec fn spec_record(
        self,
        level: LogLevel,
        message: Seq<char>,
        file: Seq<char>,
        line: u32,
        ts: Timestamp,
    ) -> Seq<char> {
        spec_colorize(
            level,
            spec_render(
                self.effective_parts(),
                self.spec_values(level, message, file, line, ts),
                self.context@,
            ) + "\n"@,
        )
    }

    /// Sets the verbosity flag, effective for subsequent writes.
    pub fn verbose(&mut self, enabled: bool)
        ensures
            *final(self) == (Logger { verbose: enabled, ..*old(self) }),
    {
        self.verbose = enabled;
    }

    /// Sets the minimum level, effective for subsequent writes.
    pub fn min_level(&mut self, level: LogLevel)
        ensures
            *final(self) == (Logger { min_level: level, ..*old(self) }),
    {
        self.min_level = level;
    }

    /// Sets the process and thread identity that writes render. The
    /// embedding application reads them from the platform; an empty name
    /// means the thread is unnamed and a `Thread-<id>` label is synthesized.
    pub fn set_identity(&mut self, pid: u64, thread_id: u64, thread_name: &str)
        ensures
            final(self).pid == pid,
            final(self).thread_id == thread_id,
            final(self).thread_name@ == thread_name@,
            final(self).verbose == old(self).verbose,
            final(self).min_level == old(self).min_level,
            final(self).template == old(self).template,
            final(self).context == old(self).context,
            final(self).next_id == old(self).next_id,
            final(self).writer == old(self).writer,
    {
        self.pid = pid;
        self.thread_id = thread_id;
        self.thread_name = String::from_str(thread_name);
    }

    /// Replaces the active sink wholesale, effective for the very next
    /// write. Installation is never rejected under the current policy, so
    /// the result is always `Ok`; the error path is reserved.
    pub fn set_writer(&mut self, writer: S) -> (r: Result<(), LogError>)
        ensures
            r is Ok,
            *final(self) == (Logger { writer, ..*old(self) }),
    {
        self.writer = writer;
        Ok(())
    }

    /// Parses `template` and atomically replaces the active template.
    pub fn set_format(&mut self, template: &str)
        ensures
            final(self).template is Some,
            final(self).template->0.parts.deep_view() == spec_parse(template@),
            final(self).verbose == old(self).verbose,
            final(self).min_level == old(self).min_level,
            final(self).context == old(self).context,
            final(self).next_id == old(self).next_id,
            final(self).pid == old(self).pid,
            final(self).thread_id == old(self).thread_id,
            final(self).thread_name == old(self).thread_name,
            final(self).writer == old(self).writer,
    {
        self.template = Some(FormatTemplate::parse(template));
    }

    /// Preset: glyph and message.
    pub fn use_simple_format(&mut self)
        ensures
            final(self).template is Some,
            final(self).template->0.parts.deep_view() == spec_parse("{symbol} {message}"@),
            final(self).verbose == old(self).verbose,
            final(self).min_level == old(self).min_level,
            final(self).context == old(self).context,
            final(self).next_id == old(self).next_id,
            final(self).pid == old(self).pid,
            final(self).thread_id == old(self).thread_id,
            final(self).thread_name == old(self).thread_name,
            final(self).writer == old(self).writer,
    {
        self.set_format("{symbol} {message}");
    }

    /// Preset: level, timestamp and message.
    pub fn use_detailed_format(&mut self)
        ensures
            final(self).template is Some,
            final(self).template->0.parts.deep_view() == spec_parse(
                "{level} {datetime} {message}"@,
            ),
            final(self).verbose == old(self).verbose,
            final(self).min_level == old(self).min_level,
            final(self).context == old(self).context,
            final(self).next_id == old(self).next_id,
            final(self).pid == old(self).pid,
            final(self).thread_id == old(self).thread_id,
            final(self).thread_name == old(self).thread_name,
            final(self).writer == old(self).writer,
    {
        self.set_format("{level} {datetime} {message}");
    }

    /// Preset: timestamp, level, call site and message.
    pub fn use_debug_format(&mut self)
        ensures
            final(self).template is Some,
            final(self).template->0.parts.deep_view() == spec_parse(
                "{datetime} {level} {file}:{line} {message}"@,
            ),
            final(self).verbose == old(self).verbose,
            final(self).min_level == old(self).min_level,
            final(self).context == old(self).context,
            final(self).next_id == old(self).next_id,
            final(self).pid == old(self).pid,
            final(self).thread_id == old(self).thread_id,
            final(self).thread_name == old(self).thread_name,
            final(self).writer == old(self).writer,
    {
        self.set_format("{datetime} {level} {file}:{line} {message}");
    }

    /// Whether a message at `level` passes the current threshold, in the
    /// declared level order.
    pub fn should_log(&self, level: LogLevel) -> (r: bool)
        ensures
            r == spec_should_log(self.min_level, level),
    {
        level.rank() >= self.min_level.rank()
    }

    /// Appends an entry to the end of the context stack and returns the
    /// guard for exactly that entry. Removal is by the entry's identity,
    /// never by its position, so releases out of order cannot take out
    /// another guard's entry.
    pub fn add_context(&mut self, key: &str, value: &str) -> (g: ContextGuard)
        requires
            old(self).wf(),
            old(self).next_id < u64::MAX,
        ensures
            final(self).wf(),
            g.id == old(self).next_id,
            final(self).context@.len() == old(self).context@.len() + 1,
            final(self).context@.drop_last() == old(self).context@,
            final(self).context@.last().id == g.id,
            final(self).context@.last().key@ == key@,
            final(self).context@.last().value@ == value@,
            final(self).next_id == old(self).next_id + 1,
            final(self).verbose == old(self).verbose,
            final(self).min_level == old(self).min_level,
            final(self).template == old(self).template,
            final(self).pid == old(self).pid,
            final(self).thread_id == old(self).thread_id,
            final(self).thread_name == old(self).thread_name,
            final(self).writer == old(self).writer,
    {
        let id = self.next_id;
        self.next_id = self.next_id + 1;
        let entry = ContextEntry {
            id,
            key: String::from_str(key),
            value: String::from_str(value),
        };
        self.context.push(entry);
        proof {
            assert(final(self).context@.drop_last() =~= old(self).context@);
        }
        ContextGuard { id }
    }

    /// Releases a guard's entry: removes the entry with the guard's
    /// identity, if it is still on the stack, and nothing otherwise. After
    /// the call no entry with that identity remains.
    pub fn remove_context(&mut self, guard: ContextGuard)
        requires
            old(self).wf(),
        ensures
            final(self).wf(),
            forall|k: int|
                0 <= k < final(self).context@.len() ==> final(self).context@[k].id != guard.id,
            (exists|i: int|
                0 <= i < old(self).context@.len() && old(self).context@[i].id == guard.id)
                ==> final(self).context@ == old(self).context@.remove(
                spec_index_of_id(old(self).context@, guard.id),
            ),
            !(exists|i: int|
                0 <= i < old(self).context@.len() && old(self).context@[i].id == guard.id)
                ==> final(self).context@ == old(self).context@,
            final(self).next_id == old(self).next_id,
            final(self).verbose == old(self).verbose,
            final(self).min_level == old(self).min_level,
            final(self).template == old(self).template,
            final(self).pid == old(self).pid,
            final(self).thread_id == old(self).thread_id,
            final(self).thread_name == old(self).thread_name,
            final(self).writer == old(self).writer,
    {
        let n = self.context.len();
        let mut i: usize = 0;
        while i < n
            invariant
                i <= n == self.context@.len(),
                *self == *old(self),
                old(self).wf(),
                forall|k: int| 0 <= k < i ==> self.context@[k].id != guard.id,
            decreases n - i,
        {
            if self.context[i].id == guard.id {
                self.context.remove(i);
                proof {
                    let es = old(self).context@;
                    assert(es[i as int].id == guard.id);
                    assert(forall|a: int, b: int|
                        0 <= a < b < es.len() ==> es[a].id != es[b].id) by {
                        assert(old(self).wf());
                    }
                    let ci = spec_index_of_id(es, guard.id);
                    assert(0 <= ci < es.len() && es[ci].id == guard.id) by {
                        assert(0 <= i < es.len() && es[i as int].id == guard.id);
                    }
                    assert(ci == i) by {
                        if ci < i {
                            assert(es[ci].id != es[i as int].id);
                        } else if ci > i {
                            assert(es[i as int].id != es[ci].id);
                        }
                    }
                    es.remove_ensures(i as int);
                    let after = final(self).context@;
                    assert forall|k: int| 0 <= k < after.len() implies after[k].id != guard.id by {
                        if k >= i {
                            assert(after[k] == es[k + 1]);
                            assert(es[i as int].id != es[k + 1].id);
                        } else {
                            assert(after[k] == es[k]);
                        }
                    }
                }
                return ;
            }
            i += 1;
        }
    }

    /// Renders one record against the active template (or the applicable
    /// default line) and the current context stack.
    fn render_current(
        &self,
        level: LogLevel,
        message: &str,
        file: &str,
        line: u32,
        ts: &Timestamp,
    ) -> (r: String)
        ensures
            r@ == spec_render(
                self.effective_parts(),
                self.spec_values(level, message@, file@, line, *ts),
                self.context@,
            ),
    {
        let label: String = if self.thread_name.as_str().is_empty() {
            let mut s = String::from_str("Thread-");
            let d = u64_to_dec(self.thread_id);
            s.append(d.as_str());
            s
        } else {
            self.thread_name.clone()
        };
        let ctx = RenderContext {
            level,
            message: String::from_str(message),
            file: String::from_str(file),
            line,
            time: ts.time.clone(),
            date: ts.date.clone(),
            datetime: ts.datetime.clone(),
            thread_name: label,
            thread_id: self.thread_id,
            pid: self.pid,
        };
        proof {
            assert(ctx@ == self.spec_values(level, message@, file@, line, *ts));
        }
        match &self.template {
            Some(t) => render(t, &ctx, &self.context),
            None => {
                if self.verbose {
                    let d = verbose_line();
                    render(&d, &ctx, &self.context)
                } else {
                    let d = simple_line();
                    render(&d, &ctx, &self.context)
                }
            },
        }
    }

    /// Renders and writes one record unconditionally: assembles the render
    /// context from a fresh clock snapshot, the stored identity and a
    /// snapshot of the context stack, renders the active template, appends
    /// a newline, wraps the line in the level's color escapes, writes it to
    /// the sink and flushes. The level threshold is the caller's business.
    /// An error is the sink's own, from its write or its flush, reported
    /// once and never retried; a sink that never fails owes success.
    pub fn write_log(&mut self, level: LogLevel, message: &str, file: &str, line: u32) -> (r:
        Result<(), LogError>)
        ensures
            final(self).same_config(*old(self)),
            final(self).writer.tracks_contents() == old(self).writer.tracks_contents(),
            final(self).writer.infallible() == old(self).writer.infallible(),
            old(self).writer.infallible() ==> r is Ok,
            old(self).writer.tracks_contents() && r is Ok ==> exists|ts: Timestamp|
                ts.time@.len() == 8 && final(self).writer.contents() == old(
                    self,
                ).writer.contents() + #[trigger] old(self).spec_record(
                    level,
                    message@,
                    file@,
                    line,
                    ts,
                ),
            old(self).writer.tracks_contents() && r is Err ==> final(self).writer.contents()
                == old(self).writer.contents() || (exists|ts: Timestamp|
                ts.time@.len() == 8 && final(self).writer.contents() == old(
                    self,
                ).writer.contents() + #[trigger] old(self).spec_record(
                    level,
                    message@,
                    file@,
                    line,
                    ts,
                )),
    {
        let ts = now_timestamp();
        let mut body = self.render_current(level, message, file, line, &ts);
        body.append("\n");
        let colored = colorize(level, body.as_str());
        proof {
            assert(colored@ == old(self).spec_record(level, message@, file@, line, ts));
        }
        let res = self.writer.write_str(colored.as_str());
        match res {
            Ok(_) => {
                let fres = self.writer.flush();
                match fres {
                    Ok(_) => Ok(()),
                    Err(e) => Err(e),
                }
            },
            Err(e) => Err(e),
        }
    }

    /// Logs one message: writes the record exactly when `level` passes the
    /// current threshold, and does nothing at all otherwise.
    pub fn log(&mut self, level: LogLevel, message: &str, file: &str, line: u32) -> (r: Result<
        (),
        LogError,
    >)
        ensures
            final(self).same_config(*old(self)),
            final(self).writer.tracks_contents() == old(self).writer.tracks_contents(),
            final(self).writer.infallible() == old(self).writer.infallible(),
            old(self).writer.infallible() ==> r is Ok,
            !spec_should_log(old(self).min_level, level) ==> r is Ok && *final(self) == *old(
                self,
            ),
            spec_should_log(old(self).min_level, level) && old(self).writer.tracks_contents()
                && r is Ok ==> exists|ts: Timestamp|
                ts.time@.len() == 8 && final(self).writer.contents() == old(
                    self,
                ).writer.contents() + #[trigger] old(self).spec_record(
                    level,
                    message@,
                    file@,
                    line,
                    ts,
                ),
            old(self).writer.tracks_contents() && r is Err ==> final(self).writer.contents()
                == old(self).writer.contents() || (exists|ts: Timestamp|
                ts.time@.len() == 8 && final(self).writer.contents() == old(
                    self,
                ).writer.contents() + #[trigger] old(self).spec_record(
                    level,
                    message@,
                    file@,
                    line,
                    ts,
                )),
    {
        if self.should_log(level) {
            self.write_log(level, message, file, line)
        } else {
            Ok(())
        }
    }
}

/// The index of the entry with identity `id`, where one exists.
pub open spec fn spec_index_of_id(es: Seq<ContextEntry>, id: u64) -> int {
    choose|i: int| 0 <= i < es.len() && es[i].id == id
}

impl Default for Logger<MemorySink> {
    /// A fresh logger: not verbose, threshold `INFO`, no explicit template,
    /// empty context stack, empty in-memory sink, no identity yet.
    fn default() -> (l: Self)
        ensures
            l.wf(),
            !l.verbose,
            l.min_level == LogLevel::INFO,
            l.template is None,
            l.context@.len() == 0,
            l.next_id == 0,
            l.pid == 0,
            l.thread_id == 0,
            l.thread_name@.len() == 0,
            l.writer.contents().len() == 0,
    {
        Logger {
            verbose: false,
            min_level: LogLevel::INFO,
            template: None,
            context: Vec::new(),
            next_id: 0,
            pid: 0,
            thread_id: 0,
            thread_name: String::new(),
            writer: MemorySink::new(),
        }
    }
}

/// A fresh logger with the default configuration and an in-memory sink.
/// The process-wide instance, its locking and its real sink belong to the
/// embedding application, which initializes one of these explicitly.
pub fn logger() -> (l: Logger<MemorySink>)
    ensures
        l.wf(),
        !l.verbose,
        l.min_level == LogLevel::INFO,
        l.template is None,
        l.context@.len() == 0,
        l.next_id == 0,
        l.pid == 0,
        l.thread_id == 0,
        l.thread_name@.len() == 0,
        l.writer.contents().len() == 0,
{
    Logger::default()
}

} // verus!
