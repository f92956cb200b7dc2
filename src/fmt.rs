//! Human-readable renderings of a container: the one-line display text, the
//! colon-joined extended text, and the multi-line debug text with numbered
//! causes and the captured trace.

use vstd::prelude::*;
use vstd::string::{StrSliceExecFns, StringExecFns};
use crate::backtrace::{status, text, TraceStatus};
use crate::chain::Chain;
use crate::error::{lemma_chain_unfold, wrapped, Error, Failure};

verus! {

/// The decimal digit for `d`, which is below ten.
pub open spec fn digit_char(d: nat) -> char {
    if d == 0 {
        '0'
    } else if d == 1 {
        '1'
    } else if d == 2 {
        '2'
    } else if d == 3 {
        '3'
    } else if d == 4 {
        '4'
    } else if d == 5 {
        '5'
    } else if d == 6 {
        '6'
    } else if d == 7 {
        '7'
    } else if d == 8 {
        '8'
    } else {
        '9'
    }
}

/// Decimal notation of `n`, without leading zeros.
pub open spec fn decimal(n: nat) -> Seq<char>
    decreases n,
{
    if n < 10 {
        seq![digit_char(n)]
    } else {
        decimal(n / 10).push(digit_char(n % 10))
    }
}

/// `k` spaces.
pub open spec fn spaces(k: nat) -> Seq<char> {
    Seq::new(k, |i: int| ' ')
}

/// `s` right-aligned in a field of `width` characters.
pub open spec fn pad_left(s: Seq<char>, width: nat) -> Seq<char> {
    if s.len() < width {
        spaces((width - s.len()) as nat) + s
    } else {
        s
    }
}

/// What starts the first line of an indented block: the number right-aligned
/// in five columns and a colon, or four spaces.
pub open spec fn first_prefix(number: Option<nat>) -> Seq<char> {
    match number {
        Some(n) => pad_left(decimal(n), 5) + seq![':', ' '],
        None => spaces(4),
    }
}

/// What starts each further line of an indented block: the width of the
/// numbered prefix, or four spaces.
pub open spec fn continuation(number: Option<nat>) -> Seq<char> {
    match number {
        Some(_) => spaces(7),
        None => spaces(4),
    }
}

/// `s` with `pad` inserted after each line break.
pub open spec fn expand_lines(s: Seq<char>, pad: Seq<char>) -> Seq<char>
    decreases s.len(),
{
    if s.len() == 0 {
        Seq::empty()
    } else if s.last() == '\n' {
        expand_lines(s.drop_last(), pad) + seq!['\n'] + pad
    } else {
        expand_lines(s.drop_last(), pad).push(s.last())
    }
}

/// `s` written as an indented block: the first prefix unless the block was
/// already started, then `s` with each further line indented.
pub open spec fn indented(s: Seq<char>, number: Option<nat>, started: bool) -> Seq<char> {
    (if started {
        Seq::empty()
    } else {
        first_prefix(number)
    }) + expand_lines(s, continuation(number))
}

/// An optional machine integer as an optional natural number.
pub open spec fn opt_nat(o: Option<usize>) -> Option<nat> {
    match o {
        Some(n) => Some(n as nat),
        None => None,
    }
}

/// The text of the digit `d`.
fn digit_str(d: usize) -> (r: &'static str)
    requires
        d < 10,
    ensures
        r@ == seq![digit_char(d as nat)],
{
    proof {
        reveal_strlit("0");
        reveal_strlit("1");
        reveal_strlit("2");
        reveal_strlit("3");
        reveal_strlit("4");
        reveal_strlit("5");
        reveal_strlit("6");
        reveal_strlit("7");
        reveal_strlit("8");
        reveal_strlit("9");
    }
    if d == 0 {
        "0"
    } else if d == 1 {
        "1"
    } else if d == 2 {
        "2"
    } else if d == 3 {
        "3"
    } else if d == 4 {
        "4"
    } else if d == 5 {
        "5"
    } else if d == 6 {
        "6"
    } else if d == 7 {
        "7"
    } else if d == 8 {
        "8"
    } else {
        "9"
    }
}

/// Decimal notation of `n`.
pub fn to_decimal(n: usize) -> (r: String)
    ensures
        r@ == decimal(n as nat),
    decreases n,
{
    let mut s = if n < 10 {
        String::new()
    } else {
        to_decimal(n / 10)
    };
    s.append(digit_str(n % 10));
    s
}

/// Appends `k` spaces to `out`.
fn append_spaces(out: &mut String, k: usize)
    ensures
        final(out)@ == old(out)@ + spaces(k as nat),
{
    let mut i: usize = 0;
    proof {
        reveal_strlit(" ");
        assert(out@ =~= old(out)@ + spaces(0));
    }
    while i < k
        invariant
            i <= k,
            out@ == old(out)@ + spaces(i as nat),
        decreases k - i,
    {
        proof {
            reveal_strlit(" ");
        }
        out.append(" ");
        i = i + 1;
        assert(out@ =~= old(out)@ + spaces(i as nat));
    }
}

/// `s` written as an indented block; see `indented`.
pub fn indent(s: &str, number: Option<usize>, started: bool) -> (r: String)
    ensures
        r@ == indented(s@, opt_nat(number), started),
{
    let mut out = String::new();
    proof {
        reveal_strlit(": ");
        reveal_strlit("\n");
    }
    if !started {
        match number {
            Some(n) => {
                let digits = to_decimal(n);
                let len = digits.as_str().unicode_len();
                if len < 5 {
                    append_spaces(&mut out, 5 - len);
                }
                out.append(digits.as_str());
                out.append(": ");
            },
            None => append_spaces(&mut out, 4),
        }
        assert(out@ =~= first_prefix(opt_nat(number)));
    }
    let ghost head = out@;
    let pad: usize = if number.is_some() {
        7
    } else {
        4
    };
    let n = s.unicode_len();
    let mut line_start: usize = 0;
    let mut i: usize = 0;
    assert(s@.subrange(0, 0) =~= Seq::<char>::empty());
    while i < n
        invariant
            n == s@.len(),
            line_start <= i <= n,
            pad as nat == continuation(opt_nat(number)).len(),
            continuation(opt_nat(number)) == spaces(pad as nat),
            out@ + s@.subrange(line_start as int, i as int) == head + expand_lines(
                s@.subrange(0, i as int),
                continuation(opt_nat(number)),
            ),
        decreases n - i,
    {
        let c = s.get_char(i);
        let ghost before = s@.subrange(0, i as int);
        let ghost pending = s@.subrange(line_start as int, i as int);
        let ghost cont = continuation(opt_nat(number));
        assert(s@.subrange(0, i + 1) =~= before.push(c));
        assert(before.push(c).drop_last() =~= before);
        if c == '\n' {
            proof {
                reveal_strlit("\n");
            }
            out.append(s.substring_char(line_start, i));
            out.append("\n");
            append_spaces(&mut out, pad);
            line_start = i + 1;
            assert(s@.subrange(line_start as int, i + 1) =~= Seq::<char>::empty());
            assert(expand_lines(before.push(c), cont) == expand_lines(before, cont) + seq!['\n']
                + cont);
            assert(out@ + s@.subrange(line_start as int, i + 1) =~= head + expand_lines(
                before.push(c),
                cont,
            ));
        } else {
            assert(s@.subrange(line_start as int, i + 1) =~= pending.push(c));
            assert(expand_lines(before.push(c), cont) == expand_lines(before, cont).push(c));
            assert(out@ + pending.push(c) =~= (out@ + pending).push(c));
        }
        i = i + 1;
    }
    out.append(s.substring_char(line_start, n));
    assert(s@.subrange(0, n as int) =~= s@);
    out
}

/// Texts of the causes after the head, each behind a colon and a space.
pub open spec fn colon_tail(s: Seq<Failure>) -> Seq<char>
    decreases s.len(),
{
    if s.len() == 0 {
        Seq::empty()
    } else {
        colon_tail(s.drop_last()) + seq![':', ' '] + s.last().text()
    }
}

/// The one-line extended text: the failure's text, then the text of each
/// cause behind a colon.
pub open spec fn extended_text(f: Failure) -> Seq<char> {
    f.text() + colon_tail(f.chain().drop_first())
}

/// The cause lines of the debug text: each text on a line of its own,
/// indented, and numbered from one where `multiple` holds.
pub open spec fn cause_lines(s: Seq<Failure>, multiple: bool) -> Seq<char>
    decreases s.len(),
{
    if s.len() == 0 {
        Seq::empty()
    } else {
        cause_lines(s.drop_last(), multiple) + seq!['\n'] + indented(
            s.last().text(),
            if multiple {
                Some(s.len())
            } else {
                None
            },
            false,
        )
    }
}

/// The cause section of the debug text: empty without a cause; otherwise a
/// heading and the causes, numbered where there are more than one.
pub open spec fn causes_section(f: Failure) -> Seq<char> {
    match f.cause() {
        None => Seq::empty(),
        Some(c) => "\n\nCaused by:"@ + cause_lines(c.chain(), c.chain().len() > 1),
    }
}

/// Putting an item in front of a sequence puts its text, behind a colon, in
/// front of the colon-joined texts.
pub proof fn lemma_colon_tail_prepend(x: Failure, s: Seq<Failure>)
    ensures
        colon_tail(seq![x] + s) == seq![':', ' '] + x.text() + colon_tail(s),
    decreases s.len(),
{
    if s.len() == 0 {
        assert((seq![x] + s).drop_last() =~= Seq::<Failure>::empty());
        assert(s =~= Seq::<Failure>::empty());
        assert(colon_tail(Seq::<Failure>::empty()) == Seq::<char>::empty());
        assert(colon_tail(seq![x] + s) =~= seq![':', ' '] + x.text() + colon_tail(s));
    } else {
        lemma_colon_tail_prepend(x, s.drop_last());
        assert((seq![x] + s).drop_last() =~= seq![x] + s.drop_last());
        assert((seq![x] + s).last() == s.last());
        assert(colon_tail(seq![x] + s) =~= seq![':', ' '] + x.text() + colon_tail(s));
    }
}

/// Wrapping `e` in `context`: the display text is the context alone, and the
/// extended text is the context, a colon, and the extended text of `e`; in
/// particular `context: text` when `e` has no cause.
pub proof fn lemma_context_text(e: Error, context: String)
    ensures
        wrapped(e, context).object.text() == context@,
        extended_text(wrapped(e, context).object) == context@ + seq![':', ' '] + extended_text(
            e.object(),
        ),
        e.object().cause() is None ==> extended_text(wrapped(e, context).object) == context@
            + seq![':', ' '] + e.object().text(),
{
    let w = wrapped(e, context).object;
    let f = e.object();
    lemma_chain_unfold(w);
    lemma_chain_unfold(f);
    assert(w.chain().drop_first() =~= f.chain());
    assert(f.chain() =~= seq![f] + f.chain().drop_first());
    lemma_colon_tail_prepend(f, f.chain().drop_first());
    assert(extended_text(w) =~= context@ + seq![':', ' '] + extended_text(f));
    if f.cause() is None {
        assert(f.chain().drop_first() =~= Seq::<Failure>::empty());
        assert(extended_text(f) =~= f.text());
    }
}

/// Whether `c` is white space; the meaning of `char::is_whitespace`.
pub uninterp spec fn is_whitespace_char(c: char) -> bool;

/// `s` without its trailing white space.
pub open spec fn trimmed_end(s: Seq<char>) -> Seq<char>
    decreases s.len(),
{
    if s.len() > 0 && is_whitespace_char(s.last()) {
        trimmed_end(s.drop_last())
    } else {
        s
    }
}

/// Whether `s` starts with `p`.
pub open spec fn starts_with(s: Seq<char>, p: Seq<char>) -> bool {
    p.len() <= s.len() && s.take(p.len() as int) == p
}

/// The trace section of the debug text: empty unless a trace was captured;
/// otherwise a blank line, a capitalised heading and the trimmed trace text.
pub open spec fn trace_section(captured: Option<Seq<char>>) -> Seq<char> {
    match captured {
        None => Seq::empty(),
        Some(t) => "\n\n"@ + if starts_with(t, "stack backtrace:"@) {
            trimmed_end(seq!['S'] + t.drop_first())
        } else {
            "Stack backtrace:\n"@ + trimmed_end(t)
        },
    }
}

/// The multi-line debug text of a failure, with the text of the captured
/// trace, if any.
pub open spec fn debug_text(f: Failure, captured: Option<Seq<char>>) -> Seq<char> {
    f.text() + causes_section(f) + trace_section(captured)
}

/// The text of `s` with the characters that a debug rendering escapes
/// replaced by their escapes; the meaning of `str::escape_debug`.
pub uninterp spec fn escaped_debug(s: Seq<char>) -> Seq<char>;

/// `s` between double quotes, escaped as a debug rendering escapes it.
pub open spec fn quoted(s: Seq<char>) -> Seq<char> {
    seq!['"'] + escaped_debug(s) + seq!['"']
}

/// Whether `r` is a debug rendering of the payload `f`: its own debug text
/// for a message or a concrete error, the display text for a display-only
/// message, that of the inner object for an erased one; for a context, a
/// struct form with the quoted context and the debug text of the wrapped
/// container, whichever trace text that container renders.
pub open spec fn is_debug_of(f: Failure, r: Seq<char>) -> bool
    decreases f,
{
    match f {
        Failure::Message(m) => r == m.debug@,
        Failure::Display(d) => r == d.0@,
        Failure::Boxed(b) => is_debug_of(*b.0, r),
        Failure::Concrete(c) => r == c.debug@,
        Failure::Context(c) => exists|t: Option<Seq<char>>|
            r == "Error { context: "@ + quoted(c.context@) + ", source: "@ + debug_text(
                c.error.object(),
                t,
            ) + " }"@ && (c.error.inner.ptr.trace() is None ==> t is None),
    }
}

/// Relies on `str::escape_debug`: the escaped text of `s`.
#[verifier::external_body]
fn escape_debug(s: &str) -> (r: String)
    ensures
        r@ == escaped_debug(s@),
{
    s.escape_debug().to_string()
}

/// Relies on `char::is_whitespace`: whether `c` is white space.
#[verifier::external_body]
fn is_whitespace(c: char) -> (r: bool)
    ensures
        r == is_whitespace_char(c),
{
    c.is_whitespace()
}

/// `s` without its trailing white space.
pub fn trim_end(s: &str) -> (r: &str)
    ensures
        r@ == trimmed_end(s@),
{
    let mut end = s.unicode_len();
    assert(s@.take(end as int) =~= s@);
    while end > 0 && is_whitespace(s.get_char(end - 1))
        invariant
            end <= s@.len(),
            trimmed_end(s@.take(end as int)) == trimmed_end(s@),
        decreases end,
    {
        assert(s@.take(end as int).drop_last() =~= s@.take(end - 1));
        end = end - 1;
    }
    assert(s@.subrange(0, end as int) =~= s@.take(end as int));
    s.substring_char(0, end)
}

/// Whether `s` starts with `p`.
pub fn has_prefix(s: &str, p: &str) -> (r: bool)
    ensures
        r == starts_with(s@, p@),
{
    let n = s.unicode_len();
    let m = p.unicode_len();
    if m > n {
        return false;
    }
    let mut i: usize = 0;
    while i < m
        invariant
            m <= n,
            n == s@.len(),
            m == p@.len(),
            i <= m,
            s@.take(i as int) == p@.take(i as int),
        decreases m - i,
    {
        if s.get_char(i) != p.get_char(i) {
            assert(s@.take(m as int)[i as int] != p@[i as int]);
            return false;
        }
        assert(s@.take(i + 1) =~= s@.take(i as int).push(s@[i as int]));
        assert(p@.take(i + 1) =~= p@.take(i as int).push(p@[i as int]));
        i = i + 1;
    }
    assert(p@.take(m as int) =~= p@);
    true
}

/// The multi-line debug text of `head`, given the text of its captured trace,
/// if any.
pub fn render_debug(head: &Failure, captured: Option<String>) -> (r: String)
    ensures
        r@ == debug_text(
            *head,
            match captured {
                Some(t) => Some(t@),
                None => None,
            },
        ),
{
    let mut out = head.to_string();
    let ghost t0 = out@;
    match head.source() {
        None => {},
        Some(cause) => {
            out.append("\n\nCaused by:");
            let mut causes: Vec<&Failure> = Vec::new();
            let mut chain = Chain::new(cause);
            loop
                invariant
                    causes@.map_values(|r: &Failure| *r) + chain@ == cause.chain(),
                ensures
                    causes@.map_values(|r: &Failure| *r) == cause.chain(),
                decreases chain@.len(),
            {
                match chain.next() {
                    None => {
                        assert(causes@.map_values(|r: &Failure| *r) =~= cause.chain());
                        break;
                    },
                    Some(e) => {
                        let ghost prev = causes@.map_values(|r: &Failure| *r);
                        causes.push(e);
                        assert(causes@.map_values(|r: &Failure| *r) =~= prev.push(*e));
                        assert(prev.push(*e) + chain@ =~= prev + (seq![*e] + chain@));
                    },
                }
            }
            let n = causes.len();
            proof {
                lemma_chain_unfold(*cause);
            }
            let multiple = n > 1;
            let ghost all = cause.chain();
            let ghost base = out@;
            let mut i: usize = 0;
            while i < n
                invariant
                    n == causes@.len(),
                    n == all.len(),
                    multiple == (all.len() > 1),
                    causes@.map_values(|r: &Failure| *r) == all,
                    i <= n,
                    out@ == base + cause_lines(all.take(i as int), multiple),
                decreases n - i,
            {
                out.append("\n");
                let number = if multiple {
                    Some(i + 1)
                } else {
                    None
                };
                let line = causes[i].to_string();
                let block = indent(line.as_str(), number, false);
                out.append(block.as_str());
                proof {
                    reveal_strlit("\n");
                    assert(opt_nat(number) == if multiple {
                        Some(all.take(i + 1).len())
                    } else {
                        None::<nat>
                    });
                    assert(line@ == all[i as int].text());
                    assert(all.take(i + 1).drop_last() =~= all.take(i as int));
                    assert(all.take(i + 1).last() == *causes@[i as int]);
                }
                i = i + 1;
            }
            assert(all.take(n as int) =~= all);
        },
    }
    match captured {
        None => {},
        Some(trace) => {
            out.append("\n\n");
            proof {
                reveal_strlit("stack backtrace:");
            }
            if has_prefix(trace.as_str(), "stack backtrace:") {
                let n = trace.as_str().unicode_len();
                let mut fixed = String::from_str("S");
                fixed.append(trace.as_str().substring_char(1, n));
                proof {
                    reveal_strlit("S");
                    assert(fixed@ =~= seq!['S'] + trace@.drop_first());
                }
                out.append(trim_end(fixed.as_str()));
            } else {
                out.append("Stack backtrace:\n");
                out.append(trim_end(trace.as_str()));
            }
        },
    }
    out
}

impl Failure {
    /// The debug rendering of the payload; see `is_debug_of`.
    pub fn debug(&self) -> (r: String)
        ensures
            is_debug_of(*self, r@),
        decreases self,
    {
        match self {
            Failure::Message(m) => m.debug.clone(),
            Failure::Display(d) => d.0.clone(),
            Failure::Boxed(b) => b.0.debug(),
            Failure::Concrete(c) => c.debug.clone(),
            Failure::Context(c) => {
                let mut out = String::from_str("Error { context: \"");
                out.append(escape_debug(c.context.as_str()).as_str());
                out.append("\", source: ");
                let inner = c.error.debug();
                out.append(inner.as_str());
                out.append(" }");
                proof {
                    reveal_strlit("Error { context: \"");
                    reveal_strlit("Error { context: ");
                    reveal_strlit("\", source: ");
                    reveal_strlit(", source: ");
                    assert(out@ =~= "Error { context: "@ + quoted(c.context@) + ", source: "@
                        + inner@ + " }"@);
                }
                out
            },
        }
    }
}

impl Error {
    /// The display text of the payload.
    pub fn to_string(&self) -> (r: String)
        ensures
            r@ == self.object().text(),
    {
        self.inner.ptr.object.to_string()
    }

    /// The payload's text, then the text of each cause behind a colon.
    pub fn display_extended(&self) -> (r: String)
        ensures
            r@ == extended_text(self.object()),
    {
        let head = &self.inner.ptr.object;
        let mut out = head.to_string();
        let mut chain = Chain::new(head);
        proof {
            lemma_chain_unfold(*head);
        }
        let _ = chain.next();
        let ghost rest = head.chain().drop_first();
        let ghost done = Seq::<Failure>::empty();
        assert(done + chain@ =~= rest);
        loop
            invariant
                done + chain@ == rest,
                out@ == head.text() + colon_tail(done),
            ensures
                out@ == head.text() + colon_tail(rest),
            decreases chain@.len(),
        {
            match chain.next() {
                None => {
                    assert(done =~= rest);
                    break;
                },
                Some(cause) => {
                    out.append(": ");
                    let t = cause.to_string();
                    out.append(t.as_str());
                    proof {
                        reveal_strlit(": ");
                        let d2 = done.push(*cause);
                        assert(d2.drop_last() =~= done);
                        assert(d2 + chain@ =~= done + (seq![*cause] + chain@));
                        done = d2;
                    }
                },
            }
        }
        out
    }

    /// The multi-line debug text: the payload's text, its causes, and the
    /// captured trace where there is one.
    pub fn debug(&self) -> (r: String)
        ensures
            exists|t: Option<Seq<char>>|
                r@ == debug_text(self.object(), t) && (self.inner.ptr.trace() is None ==> t is None),
    {
        let captured = match self.backtrace() {
            Some(b) => {
                if status(b) == TraceStatus::Captured {
                    Some(text(b))
                } else {
                    None
                }
            },
            None => None,
        };
        let r = render_debug(&self.inner.ptr.object, captured);
        assert(r@ == debug_text(
            self.object(),
            match captured {
                Some(t) => Some(t@),
                None => None,
            },
        ));
        r
    }
}

/// Declares `core::fmt::Error`, held opaque: the error of a text writer.
#[verifier::external_type_specification]
#[verifier::external_body]
pub struct ExFmtError(core::fmt::Error);

/// A writer that indents what it is given under a cause heading: the first
/// line behind a right-aligned number or four spaces, further lines aligned
/// under the text.
pub struct Indented<'a> {
    pub inner: &'a mut String,
    pub number: Option<usize>,
    pub started: bool,
}

impl<'a> Indented<'a> {
    /// Appends `s`, indented, to the inner writer.
    pub fn write_str(&mut self, s: &str) -> (r: Result<(), core::fmt::Error>)
        ensures
            r is Ok,
            final(self).inner@ == old(self).inner@ + indented(s@, opt_nat(old(self).number), old(
                self,
            ).started),
            final(self).number == old(self).number,
            final(self).started,
    {
        let block = indent(s, self.number, self.started);
        self.inner.append(block.as_str());
        self.started = true;
        Ok(())
    }
}

} // verus!
