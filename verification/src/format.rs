//! The template engine: parsing a format string into tokens and rendering
//! tokens against a render context.
//!
//! A template is literal text interspersed with `{placeholder}` spans drawn
//! from a fixed vocabulary. Unknown placeholder names are not an error: they
//! come back verbatim as literal text, braces included. An unterminated `{`
//! turns the whole remainder into one literal token. Rendering is total: it
//! concatenates, in order, each token's resolved text.

use vstd::prelude::*;

use crate::context::ContextEntry;
use crate::levels::LogLevel;
use crate::text::spec_dec;
use crate::text::str_eq;
use crate::text::u64_to_dec;

verus! {

/// One parsed token: a placeholder from the fixed vocabulary, or a literal
/// text span.
#[derive(Debug, Clone)]
pub enum FormatPlaceholder {
    Level,
    Symbol,
    Message,
    Time,
    Date,
    DateTime,
    ThreadName,
    ThreadId,
    ProcessId,
    File,
    Line,
    Context,
    Text(String),
}

/// The mathematical shape of one parsed token.
pub ghost enum Part {
    Level,
    Symbol,
    Message,
    Time,
    Date,
    DateTime,
    ThreadName,
    ThreadId,
    ProcessId,
    File,
    Line,
    Context,
    Text(Seq<char>),
}

impl View for FormatPlaceholder {
    type V = Part;

    open spec fn view(&self) -> Part {
        match self {
            FormatPlaceholder::Level => Part::Level,
            FormatPlaceholder::Symbol => Part::Symbol,
            FormatPlaceholder::Message => Part::Message,
            FormatPlaceholder::Time => Part::Time,
            FormatPlaceholder::Date => Part::Date,
            FormatPlaceholder::DateTime => Part::DateTime,
            FormatPlaceholder::ThreadName => Part::ThreadName,
            FormatPlaceholder::ThreadId => Part::ThreadId,
            FormatPlaceholder::ProcessId => Part::ProcessId,
            FormatPlaceholder::File => Part::File,
            FormatPlaceholder::Line => Part::Line,
            FormatPlaceholder::Context => Part::Context,
            FormatPlaceholder::Text(s) => Part::Text(s@),
        }
    }
}

impl DeepView for FormatPlaceholder {
    type V = Part;

    open spec fn deep_view(&self) -> Part {
        self.view()
    }
}

/// An ordered sequence of tokens, immutable once parsed.
#[derive(Debug)]
pub struct FormatTemplate {
    pub parts: Vec<FormatPlaceholder>,
}

/// The index of the first occurrence of `c` in `s`, or `s.len()` when `c`
/// does not occur.
pub open spec fn spec_find(s: Seq<char>, c: char) -> int
    decreases s.len(),
{
    if s.len() == 0 {
        0
    } else if s[0] == c {
        0
    } else {
        1 + spec_find(s.drop_first(), c)
    }
}

/// `spec_find` is in bounds, lands on `c` when `c` occurs, and nothing
/// before it is `c`.
pub proof fn lemma_spec_find(s: Seq<char>, c: char)
    ensures
        0 <= spec_find(s, c) <= s.len(),
        spec_find(s, c) < s.len() ==> s[spec_find(s, c)] == c,
        forall|k: int| 0 <= k < spec_find(s, c) ==> s[k] != c,
    decreases s.len(),
{
    if s.len() == 0 {
    } else if s[0] == c {
    } else {
        lemma_spec_find(s.drop_first(), c);
        assert forall|k: int| 0 <= k < spec_find(s, c) implies s[k] != c by {
            if k > 0 {
                assert(s.drop_first()[k - 1] == s[k]);
            }
        }
    }
}

/// Any position with no `c` before it, and `c` at it unless it is the end,
/// is where `spec_find` lands.
pub proof fn lemma_spec_find_is_first(s: Seq<char>, c: char, i: int)
    requires
        0 <= i <= s.len(),
        forall|k: int| 0 <= k < i ==> s[k] != c,
        i < s.len() ==> s[i] == c,
    ensures
        spec_find(s, c) == i,
    decreases s.len(),
{
    if s.len() == 0 {
    } else if s[0] == c {
        assert(i == 0);
    } else {
        assert(i >= 1);
        lemma_spec_find_is_first(s.drop_first(), c, i - 1);
    }
}

/// The token a placeholder name stands for; an unrecognized name comes back
/// as literal text with its braces restored.
pub open spec fn spec_classify(name: Seq<char>) -> Part {
    if name == "level"@ {
        Part::Level
    } else if name == "symbol"@ {
        Part::Symbol
    } else if name == "message"@ {
        Part::Message
    } else if name == "time"@ {
        Part::Time
    } else if name == "date"@ {
        Part::Date
    } else if name == "datetime"@ {
        Part::DateTime
    } else if name == "thread"@ {
        Part::ThreadName
    } else if name == "thread_id"@ {
        Part::ThreadId
    } else if name == "pid"@ {
        Part::ProcessId
    } else if name == "file"@ {
        Part::File
    } else if name == "line"@ {
        Part::Line
    } else if name == "context"@ {
        Part::Context
    } else {
        Part::Text("{"@ + name + "}"@)
    }
}

/// The token sequence that parsing `s` yields: literal text up to each `{`,
/// the classified placeholder up to the matching `}`, and the remainder as
/// one literal token when the `{` is unterminated.
pub open spec fn spec_parse(s: Seq<char>) -> Seq<Part>
    decreases s.len(),
    via spec_parse_decreases
{
    let i = spec_find(s, '{');
    if i == s.len() {
        if s.len() == 0 {
            Seq::empty()
        } else {
            seq![Part::Text(s)]
        }
    } else {
        let pre: Seq<Part> = if i > 0 {
            seq![Part::Text(s.take(i))]
        } else {
            Seq::empty()
        };
        let j = i + spec_find(s.skip(i), '}');
        if j == s.len() {
            pre + seq![Part::Text(s.skip(i))]
        } else {
            pre + seq![spec_classify(s.subrange(i + 1, j))] + spec_parse(s.skip(j + 1))
        }
    }
}

#[via_fn]
proof fn spec_parse_decreases(s: Seq<char>) {
    lemma_spec_find(s, '{');
    let i = spec_find(s, '{');
    if i < s.len() {
        lemma_spec_find(s.skip(i), '}');
    }
}

/// Finds the first occurrence of `c` in `s` at or after `from`, returning
/// `s`'s character length when there is none.
fn find_char_from(s: &str, from: usize, c: char) -> (r: usize)
    requires
        from <= s@.len(),
    ensures
        from <= r <= s@.len(),
        r - from == spec_find(s@.skip(from as int), c),
        r < s@.len() ==> s@[r as int] == c,
        forall|k: int| from <= k < r ==> s@[k] != c,
{
    let len = s.unicode_len();
    let mut i: usize = from;
    while i < len
        invariant
            from <= i <= len,
            len == s@.len(),
            forall|k: int| from <= k < i ==> s@[k] != c,
        decreases len - i,
    {
        if s.get_char(i) == c {
            proof {
                lemma_skip_find(s@, from as int, i as int, c);
            }
            return i;
        }
        i += 1;
    }
    proof {
        lemma_skip_find(s@, from as int, len as int, c);
    }
    len
}

proof fn lemma_skip_find(s: Seq<char>, from: int, i: int, c: char)
    requires
        0 <= from <= i <= s.len(),
        forall|k: int| from <= k < i ==> s[k] != c,
        i < s.len() ==> s[i] == c,
    ensures
        spec_find(s.skip(from), c) == i - from,
{
    let t = s.skip(from);
    assert forall|k: int| 0 <= k < i - from implies t[k] != c by {
        assert(t[k] == s[k + from]);
    }
    lemma_spec_find_is_first(t, c, i - from);
}

/// The token for the placeholder name between one `{` `}` pair.
fn classify(name: &str) -> (p: FormatPlaceholder)
    ensures
        p.deep_view() == spec_classify(name@),
{
    if str_eq(name, "level") {
        FormatPlaceholder::Level
    } else if str_eq(name, "symbol") {
        FormatPlaceholder::Symbol
    } else if str_eq(name, "message") {
        FormatPlaceholder::Message
    } else if str_eq(name, "time") {
        FormatPlaceholder::Time
    } else if str_eq(name, "date") {
        FormatPlaceholder::Date
    } else if str_eq(name, "datetime") {
        FormatPlaceholder::DateTime
    } else if str_eq(name, "thread") {
        FormatPlaceholder::ThreadName
    } else if str_eq(name, "thread_id") {
        FormatPlaceholder::ThreadId
    } else if str_eq(name, "pid") {
        FormatPlaceholder::ProcessId
    } else if str_eq(name, "file") {
        FormatPlaceholder::File
    } else if str_eq(name, "line") {
        FormatPlaceholder::Line
    } else if str_eq(name, "context") {
        FormatPlaceholder::Context
    } else {
        let mut s = String::from_str("{");
        s.append(name);
        s.append("}");
        FormatPlaceholder::Text(s)
    }
}

/// Parses the template from position `current` on.
fn parse_from(template: &str, current: usize) -> (v: Vec<FormatPlaceholder>)
    requires
        current <= template@.len(),
    ensures
        v.deep_view() == spec_parse(template@.skip(current as int)),
    decreases template@.len() - current,
{
    let ghost s = template@.skip(current as int);
    let len = template.unicode_len();
    let i = find_char_from(template, current, '{');
    if i == len {
        let mut v: Vec<FormatPlaceholder> = Vec::new();
        if current < len {
            let text = String::from_str(template.substring_char(current, len));
            v.push(FormatPlaceholder::Text(text));
            proof {
                assert(template@.subrange(current as int, len as int) =~= s);
                assert(v.deep_view() =~= seq![Part::Text(s)]);
            }
        } else {
            proof {
                assert(v.deep_view() =~= Seq::<Part>::empty());
            }
        }
        v
    } else {
        let j = find_char_from(template, i, '}');
        proof {
            // the '{' at i is not a '}', so j lands strictly beyond i
            assert(template@[i as int] == '{');
        }
        if j == len {
            let mut v: Vec<FormatPlaceholder> = Vec::new();
            if i > current {
                let text = String::from_str(template.substring_char(current, i));
                v.push(FormatPlaceholder::Text(text));
            }
            let tail = String::from_str(template.substring_char(i, len));
            v.push(FormatPlaceholder::Text(tail));
            proof {
                let irel = i - current;
                assert(s.skip(irel) =~= template@.skip(i as int));
                assert(template@.subrange(current as int, i as int) =~= s.take(irel));
                assert(template@.subrange(i as int, len as int) =~= s.skip(irel));
                if i > current {
                    assert(v.deep_view() =~= seq![Part::Text(s.take(irel))] + seq![
                        Part::Text(s.skip(irel)),
                    ]);
                } else {
                    assert(v.deep_view() =~= Seq::<Part>::empty() + seq![
                        Part::Text(s.skip(irel)),
                    ]);
                }
            }
            v
        } else {
            let name = template.substring_char(i + 1, j);
            let tok = classify(name);
            let mut v: Vec<FormatPlaceholder> = Vec::new();
            if i > current {
                let text = String::from_str(template.substring_char(current, i));
                v.push(FormatPlaceholder::Text(text));
            }
            v.push(tok);
            let mut rest = parse_from(template, j + 1);
            v.append(&mut rest);
            proof {
                let irel = i - current;
                let jrel = j - current;
                assert(s.skip(irel) =~= template@.skip(i as int));
                assert(template@.subrange(current as int, i as int) =~= s.take(irel));
                assert(name@ =~= s.subrange(irel + 1, jrel));
                assert(template@.skip((j + 1) as int) =~= s.skip(jrel + 1));
                let pre: Seq<Part> = if irel > 0 {
                    seq![Part::Text(s.take(irel))]
                } else {
                    Seq::<Part>::empty()
                };
                assert(v.deep_view() =~= pre + seq![spec_classify(s.subrange(irel + 1, jrel))]
                    + spec_parse(s.skip(jrel + 1)));
            }
            v
        }
    }
}

impl FormatTemplate {
    /// An empty template, which renders to the empty string.
    pub fn new() -> (t: Self)
        ensures
            t.parts@.len() == 0,
    {
        FormatTemplate { parts: Vec::new() }
    }

    /// Parses a format string into its token sequence.
    pub fn parse(template: &str) -> (t: Self)
        ensures
            t.parts.deep_view() == spec_parse(template@),
    {
        let parts = parse_from(template, 0);
        proof {
            assert(template@.skip(0) =~= template@);
        }
        FormatTemplate { parts }
    }
}

impl Default for FormatTemplate {
    /// An empty template, like `new`.
    fn default() -> (t: Self)
        ensures
            t.parts@.len() == 0,
    {
        FormatTemplate { parts: Vec::new() }
    }
}

/// The values available to one render call: the message, the call site, the
/// clock snapshot and the process and thread identity. The context entries
/// travel beside it, as a snapshot of the stack.
pub struct RenderContext {
    pub level: LogLevel,
    pub message: String,
    pub file: String,
    pub line: u32,
    pub time: String,
    pub date: String,
    pub datetime: String,
    pub thread_name: String,
    pub thread_id: u64,
    pub pid: u64,
}

/// The mathematical shape of a render context.
pub ghost struct RenderValues {
    pub level: LogLevel,
    pub message: Seq<char>,
    pub file: Seq<char>,
    pub line: u32,
    pub time: Seq<char>,
    pub date: Seq<char>,
    pub datetime: Seq<char>,
    pub thread_name: Seq<char>,
    pub thread_id: u64,
    pub pid: u64,
}

impl View for RenderContext {
    type V = RenderValues;

    open spec fn view(&self) -> RenderValues {
        RenderValues {
            level: self.level,
            message: self.message@,
            file: self.file@,
            line: self.line,
            time: self.time@,
            date: self.date@,
            datetime: self.datetime@,
            thread_name: self.thread_name@,
            thread_id: self.thread_id,
            pid: self.pid,
        }
    }
}

/// The text of one context entry, `key=value`.
pub open spec fn spec_entry_text(e: ContextEntry) -> Seq<char> {
    e.key@ + "="@ + e.value@
}

/// The entries joined in order, comma-space separated.
pub open spec fn spec_join_entries(es: Seq<ContextEntry>) -> Seq<char>
    decreases es.len(),
{
    if es.len() == 0 {
        Seq::empty()
    } else if es.len() == 1 {
        spec_entry_text(es[0])
    } else {
        spec_join_entries(es.drop_last()) + ", "@ + spec_entry_text(es.last())
    }
}

/// The rendered context block: empty when there are no entries, otherwise
/// `[k1=v1, k2=v2] ` with a trailing space, entries in insertion order.
pub open spec fn spec_context_block(es: Seq<ContextEntry>) -> Seq<char> {
    if es.len() == 0 {
        Seq::empty()
    } else {
        "["@ + spec_join_entries(es) + "] "@
    }
}

/// The text one token resolves to under a render context.
pub open spec fn spec_resolve(p: Part, vals: RenderValues, entries: Seq<ContextEntry>) -> Seq<
    char,
> {
    match p {
        Part::Level => vals.level.spec_name(),
        Part::Symbol => vals.level.spec_symbol(),
        Part::Message => vals.message,
        Part::Time => vals.time,
        Part::Date => vals.date,
        Part::DateTime => vals.datetime,
        Part::ThreadName => vals.thread_name,
        Part::ThreadId => spec_dec(vals.thread_id as nat),
        Part::ProcessId => spec_dec(vals.pid as nat),
        Part::File => vals.file,
        Part::Line => spec_dec(vals.line as nat),
        Part::Context => spec_context_block(entries),
        Part::Text(s) => s,
    }
}

/// The concatenation, in order, of each token's resolved text.
pub open spec fn spec_render(parts: Seq<Part>, vals: RenderValues, entries: Seq<ContextEntry>) -> Seq<
    char,
>
    decreases parts.len(),
{
    if parts.len() == 0 {
        Seq::empty()
    } else {
        spec_render(parts.drop_last(), vals, entries) + spec_resolve(parts.last(), vals, entries)
    }
}

/// Renders the context block of a snapshot of the stack.
pub fn context_block(entries: &Vec<ContextEntry>) -> (r: String)
    ensures
        r@ == spec_context_block(entries@),
{
    let mut out = String::new();
    let n = entries.len();
    if n == 0 {
        return out;
    }
    out.append("[");
    let mut i: usize = 0;
    while i < n
        invariant
            0 < n == entries@.len(),
            i <= n,
            out@ == "["@ + spec_join_entries(entries@.take(i as int)),
        decreases n - i,
    {
        if i > 0 {
            out.append(", ");
        }
        let e = &entries[i];
        out.append(e.key.as_str());
        out.append("=");
        out.append(e.value.as_str());
        proof {
            let taken = entries@.take(i + 1);
            assert(taken.drop_last() =~= entries@.take(i as int));
            assert(taken.last() == entries@[i as int]);
            if i == 0 {
                assert(out@ =~= "["@ + spec_join_entries(taken));
            } else {
                assert(out@ =~= "["@ + (spec_join_entries(taken.drop_last()) + ", "@
                    + spec_entry_text(taken.last())));
                assert(spec_join_entries(taken.drop_last()) + ", "@ + spec_entry_text(
                    taken.last(),
                ) == spec_join_entries(taken));
            }
        }
        i += 1;
    }
    out.append("] ");
    proof {
        assert(entries@.take(n as int) =~= entries@);
        assert(out@ =~= "["@ + spec_join_entries(entries@) + "] "@);
    }
    out
}

/// Renders a token sequence against a render context and a snapshot of the
/// context stack: each token's text, concatenated in order.
pub fn render(t: &FormatTemplate, ctx: &RenderContext, entries: &Vec<ContextEntry>) -> (r:
    String)
    ensures
        r@ == spec_render(t.parts.deep_view(), ctx@, entries@),
{
    let ghost dv = t.parts.deep_view();
    let mut out = String::new();
    let n = t.parts.len();
    let mut i: usize = 0;
    while i < n
        invariant
            i <= n == t.parts@.len(),
            dv == t.parts.deep_view(),
            out@ == spec_render(dv.take(i as int), ctx@, entries@),
        decreases n - i,
    {
        let p = &t.parts[i];
        proof {
            assert(dv[i as int] == t.parts@[i as int].deep_view());
        }
        match p {
            FormatPlaceholder::Level => out.append(ctx.level.name()),
            FormatPlaceholder::Symbol => out.append(ctx.level.symbol()),
            FormatPlaceholder::Message => out.append(ctx.message.as_str()),
            FormatPlaceholder::Time => out.append(ctx.time.as_str()),
            FormatPlaceholder::Date => out.append(ctx.date.as_str()),
            FormatPlaceholder::DateTime => out.append(ctx.datetime.as_str()),
            FormatPlaceholder::ThreadName => out.append(ctx.thread_name.as_str()),
            FormatPlaceholder::ThreadId => {
                let d = u64_to_dec(ctx.thread_id);
                out.append(d.as_str());
            },
            FormatPlaceholder::ProcessId => {
                let d = u64_to_dec(ctx.pid);
                out.append(d.as_str());
            },
            FormatPlaceholder::File => out.append(ctx.file.as_str()),
            FormatPlaceholder::Line => {
                let d = u64_to_dec(ctx.line as u64);
                out.append(d.as_str());
            },
            FormatPlaceholder::Context => {
                let b = context_block(entries);
                out.append(b.as_str());
            },
            FormatPlaceholder::Text(s) => out.append(s.as_str()),
        }
        proof {
            let taken = dv.take(i + 1);
            assert(taken.drop_last() =~= dv.take(i as int));
            assert(taken.last() == dv[i as int]);
            assert(out@ =~= spec_render(taken.drop_last(), ctx@, entries@) + spec_resolve(
                taken.last(),
                ctx@,
                entries@,
            ));
        }
        i += 1;
    }
    proof {
        assert(dv.take(n as int) =~= dv);
    }
    out
}

/// Substitution is consistent within one render call: equal tokens of one
/// parsed template resolve to equal text.
pub proof fn lemma_render_consistent(
    tpl: Seq<char>,
    vals: RenderValues,
    entries: Seq<ContextEntry>,
    i: int,
    j: int,
)
    requires
        0 <= i < spec_parse(tpl).len(),
        0 <= j < spec_parse(tpl).len(),
        spec_parse(tpl)[i] == spec_parse(tpl)[j],
    ensures
        spec_resolve(spec_parse(tpl)[i], vals, entries) == spec_resolve(
            spec_parse(tpl)[j],
            vals,
            entries,
        ),
{
}

} // verus!
