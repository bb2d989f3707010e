//! Per-line metrics of laid-out text.
//!
//! Lines end at explicit newline characters (or at the end of the text),
//! and positions are counted in UTF-16 code units: one unit per character
//! below `U+10000`, two units for the rest.  Trailing spaces, tabs and
//! carriage returns are excluded from a line's whitespace-trimmed end.

use vstd::prelude::*;
use vstd::string::StrSliceExecFns;

use crate::filters::clone_copied;

verus! {

/// The number of UTF-16 code units a character occupies.
pub open spec fn u16_weight(c: char) -> nat {
    if (c as u32) < 0x10000 {
        1
    } else {
        2
    }
}

/// The number of UTF-16 code units a character sequence occupies.
pub open spec fn u16_len(s: Seq<char>) -> nat
    decreases s.len(),
{
    if s.len() == 0 {
        0
    } else {
        u16_len(s.drop_last()) + u16_weight(s.last())
    }
}

/// Whether a character is trimmed from a line's whitespace-excluding end.
pub open spec fn is_trim_ws(c: char) -> bool {
    c == ' ' || c == '\t' || c == '\r'
}

/// The sequence with its trailing whitespace removed.
pub open spec fn trim_ws(s: Seq<char>) -> Seq<char>
    decreases s.len(),
{
    if s.len() == 0 {
        s
    } else if is_trim_ws(s.last()) {
        trim_ws(s.drop_last())
    } else {
        s
    }
}

/// The index of the first newline, if any.
pub open spec fn first_nl(s: Seq<char>) -> Option<int>
    decreases s.len(),
{
    if s.len() == 0 {
        None
    } else if s[0] == '\n' {
        Some(0)
    } else {
        match first_nl(s.drop_first()) {
            Some(k) => Some(k + 1),
            None => None,
        }
    }
}

/// The number of newline characters in the sequence.
pub open spec fn nl_count(s: Seq<char>) -> nat
    decreases s.len(),
{
    if s.len() == 0 {
        0
    } else {
        (if s[0] == '\n' {
            1nat
        } else {
            0nat
        }) + nl_count(s.drop_first())
    }
}

/// The metrics of one line, in UTF-16 code units from the start of the
/// paragraph's text.
pub ghost struct LineSpanV {
    /// First code unit of the line.
    pub start: nat,
    /// One past the last code unit of the line, its newline excluded.
    pub end: nat,
    /// One past the last code unit with trailing whitespace excluded.
    pub end_excluding_whitespace: nat,
    /// One past the last code unit, the line's newline included.
    pub end_including_newline: nat,
    /// Whether the line ends at an explicit line break or at the end of
    /// the paragraph; with line boundaries at explicit breaks only, this
    /// holds of every line.
    pub hardbreak: bool,
}

/// The span of one line given the code-unit index of its start, its
/// characters, and whether a newline follows it.
pub open spec fn line_span(base: nat, line: Seq<char>, has_nl: bool) -> LineSpanV {
    LineSpanV {
        start: base,
        end: base + u16_len(line),
        end_excluding_whitespace: base + u16_len(trim_ws(line)),
        end_including_newline: base + u16_len(line) + if has_nl {
            1nat
        } else {
            0nat
        },
        hardbreak: true,
    }
}

/// The first newline of a sequence lies within it, carries a newline, and
/// nothing before it does; where there is none, no character is a newline.
pub proof fn lemma_first_nl_props(s: Seq<char>)
    ensures
        match first_nl(s) {
            Some(k) => 0 <= k < s.len() && s[k] == '\n' && forall|j: int|
                0 <= j < k ==> s[j] != '\n',
            None => forall|j: int| 0 <= j < s.len() ==> s[j] != '\n',
        },
    decreases s.len(),
{
    if s.len() == 0 {
    } else if s[0] == '\n' {
    } else {
        lemma_first_nl_props(s.drop_first());
        match first_nl(s.drop_first()) {
            Some(k) => {
                assert(s[k + 1] == s.drop_first()[k]);
                assert forall|j: int| 0 <= j < k + 1 implies s[j] != '\n' by {
                    if j >= 1 {
                        assert(s[j] == s.drop_first()[j - 1]);
                    }
                }
            },
            None => {
                assert forall|j: int| 0 <= j < s.len() implies s[j] != '\n' by {
                    if j >= 1 {
                        assert(s[j] == s.drop_first()[j - 1]);
                    }
                }
            },
        }
    }
}

/// A newline with none before it is the first newline.
pub proof fn lemma_first_nl_at(s: Seq<char>, k: int)
    requires
        0 <= k < s.len(),
        s[k] == '\n',
        forall|j: int| 0 <= j < k ==> s[j] != '\n',
    ensures
        first_nl(s) == Some(k),
    decreases s.len(),
{
    if k == 0 {
    } else {
        assert(s[0] != '\n');
        assert(s.drop_first()[k - 1] == s[k]);
        assert(forall|j: int| 0 <= j < k - 1 ==> #[trigger] s.drop_first()[j] == s[j + 1]);
        lemma_first_nl_at(s.drop_first(), k - 1);
    }
}

/// A sequence without newlines has no first newline.
pub proof fn lemma_first_nl_none(s: Seq<char>)
    requires
        forall|j: int| 0 <= j < s.len() ==> s[j] != '\n',
    ensures
        first_nl(s) is None,
    decreases s.len(),
{
    if s.len() == 0 {
    } else {
        assert(forall|j: int|
            0 <= j < s.drop_first().len() ==> #[trigger] s.drop_first()[j] == s[j + 1]);
        lemma_first_nl_none(s.drop_first());
    }
}

/// UTF-16 length distributes over concatenation.
pub proof fn lemma_u16_len_concat(a: Seq<char>, b: Seq<char>)
    ensures
        u16_len(a + b) == u16_len(a) + u16_len(b),
    decreases b.len(),
{
    if b.len() == 0 {
        assert(a + b =~= a);
    } else {
        assert((a + b).drop_last() =~= a + b.drop_last());
        assert((a + b).last() == b.last());
        lemma_u16_len_concat(a, b.drop_last());
    }
}

/// A prefix occupies no more UTF-16 code units than the whole.
pub proof fn lemma_u16_len_take_le(s: Seq<char>, j: int)
    requires
        0 <= j <= s.len(),
    ensures
        u16_len(s.take(j)) <= u16_len(s),
{
    assert(s =~= s.take(j) + s.skip(j));
    lemma_u16_len_concat(s.take(j), s.skip(j));
}

/// Extending a prefix by one character adds that character's weight.
pub proof fn lemma_u16_len_take_step(s: Seq<char>, j: int)
    requires
        0 <= j < s.len(),
    ensures
        u16_len(s.take(j + 1)) == u16_len(s.take(j)) + u16_weight(s[j]),
{
    assert(s.take(j + 1).drop_last() =~= s.take(j));
    assert(s.take(j + 1).last() == s[j]);
}

/// Trimming whitespace never lengthens a line.
pub proof fn lemma_trim_ws_le(s: Seq<char>)
    ensures
        u16_len(trim_ws(s)) <= u16_len(s),
    decreases s.len(),
{
    if s.len() == 0 {
    } else if is_trim_ws(s.last()) {
        lemma_trim_ws_le(s.drop_last());
    }
}

/// The spans of the lines of `s`, with `base` the code-unit index where
/// `s` begins.
pub open spec fn line_spans_from(s: Seq<char>, base: nat) -> Seq<LineSpanV>
    decreases s.len(),
{
    match first_nl(s) {
        None => seq![line_span(base, s, false)],
        Some(k) => {
            proof {
                lemma_first_nl_props(s);
            }
            if 0 <= k < s.len() {
                seq![line_span(base, s.take(k), true)] + line_spans_from(
                    s.skip(k + 1),
                    (base + u16_len(s.take(k)) + 1) as nat,
                )
            } else {
                Seq::<LineSpanV>::empty()
            }
        },
    }
}

/// The spans of the lines of a whole text.
pub open spec fn line_spans(s: Seq<char>) -> Seq<LineSpanV> {
    line_spans_from(s, 0)
}

/// Splitting at the first newline splits the newline count.
proof fn lemma_nl_count_split(s: Seq<char>, k: int)
    requires
        0 <= k < s.len(),
        s[k] == '\n',
        forall|j: int| 0 <= j < k ==> s[j] != '\n',
    ensures
        nl_count(s) == 1 + nl_count(s.skip(k + 1)),
    decreases s.len(),
{
    if k == 0 {
        assert(s.drop_first() =~= s.skip(1));
    } else {
        assert(s[0] != '\n');
        assert(s.drop_first()[k - 1] == s[k]);
        assert(forall|j: int| 0 <= j < k - 1 ==> #[trigger] s.drop_first()[j] == s[j + 1]);
        lemma_nl_count_split(s.drop_first(), k - 1);
        assert(s.drop_first().skip(k) =~= s.skip(k + 1));
    }
}

/// A sequence without newlines has newline count zero.
proof fn lemma_nl_count_zero(s: Seq<char>)
    requires
        forall|j: int| 0 <= j < s.len() ==> s[j] != '\n',
    ensures
        nl_count(s) == 0,
    decreases s.len(),
{
    if s.len() == 0 {
    } else {
        assert(forall|j: int|
            0 <= j < s.drop_first().len() ==> #[trigger] s.drop_first()[j] == s[j + 1]);
        lemma_nl_count_zero(s.drop_first());
    }
}

/// A text has one line more than it has newlines.
pub proof fn lemma_line_spans_len(s: Seq<char>, base: nat)
    ensures
        line_spans_from(s, base).len() == nl_count(s) + 1,
    decreases s.len(),
{
    lemma_first_nl_props(s);
    match first_nl(s) {
        None => {
            lemma_nl_count_zero(s);
        },
        Some(k) => {
            lemma_nl_count_split(s, k);
            lemma_line_spans_len(s.skip(k + 1), (base + u16_len(s.take(k)) + 1) as nat);
        },
    }
}

/// Newline counts add over concatenation.
pub proof fn lemma_nl_count_concat(a: Seq<char>, b: Seq<char>)
    ensures
        nl_count(a + b) == nl_count(a) + nl_count(b),
    decreases a.len(),
{
    if a.len() == 0 {
        assert(a + b =~= b);
    } else {
        assert((a + b).drop_first() =~= a.drop_first() + b);
        assert((a + b)[0] == a[0]);
        lemma_nl_count_concat(a.drop_first(), b);
    }
}

/// The metrics of one line as the engine hands them out: positions in
/// UTF-16 code units from the start of the paragraph.
#[derive(Clone, Copy, Debug, PartialEq, Eq, Structural)]
pub struct LineEntry {
    pub start: usize,
    pub end: usize,
    pub end_excluding_whitespace: usize,
    pub end_including_newline: usize,
    pub hardbreak: bool,
}

/// The span an exec line entry denotes.
pub open spec fn entry_span(e: LineEntry) -> LineSpanV {
    LineSpanV {
        start: e.start as nat,
        end: e.end as nat,
        end_excluding_whitespace: e.end_excluding_whitespace as nat,
        end_including_newline: e.end_including_newline as nat,
        hardbreak: e.hardbreak,
    }
}

/// The spans a sequence of exec line entries denotes.
pub open spec fn entries_spans(s: Seq<LineEntry>) -> Seq<LineSpanV> {
    s.map(|i: int, e: LineEntry| entry_span(e))
}

/// The per-line metrics of a laid-out paragraph.
#[derive(Debug)]
pub struct LineMetrics {
    pub lines: Vec<LineEntry>,
}

impl View for LineMetrics {
    type V = Seq<LineSpanV>;

    open spec fn view(&self) -> Seq<LineSpanV> {
        entries_spans(self.lines@)
    }
}

impl Clone for LineMetrics {
    fn clone(&self) -> (r: Self)
        ensures
            r@ == self@,
    {
        LineMetrics { lines: clone_copied(&self.lines) }
    }
}

impl LineMetrics {
    /// The number of lines these metrics describe.
    pub fn line_count(&self) -> (r: usize)
        ensures
            r == self@.len(),
    {
        self.lines.len()
    }

    /// First UTF-16 code unit of the given line.
    pub fn get_code_unit_start_index_utf16(&self, line: usize) -> (r: usize)
        requires
            line < self@.len(),
        ensures
            r == self@[line as int].start,
    {
        self.lines[line].start
    }

    /// One past the last UTF-16 code unit of the given line, its newline
    /// excluded.
    pub fn get_code_unit_end_index_utf16(&self, line: usize) -> (r: usize)
        requires
            line < self@.len(),
        ensures
            r == self@[line as int].end,
    {
        self.lines[line].end
    }

    /// One past the last UTF-16 code unit of the given line with trailing
    /// whitespace excluded.
    pub fn get_code_unit_end_index_excluding_whitespace_utf16(&self, line: usize) -> (r: usize)
        requires
            line < self@.len(),
        ensures
            r == self@[line as int].end_excluding_whitespace,
    {
        self.lines[line].end_excluding_whitespace
    }

    /// One past the last UTF-16 code unit of the given line, its newline
    /// included.
    pub fn get_code_unit_end_index_including_newline_utf16(&self, line: usize) -> (r: usize)
        requires
            line < self@.len(),
        ensures
            r == self@[line as int].end_including_newline,
    {
        self.lines[line].end_including_newline
    }

    /// Whether the line ends at an explicit line break or at the end of the
    /// paragraph.
    pub fn is_hardbreak(&self, line: usize) -> (r: bool)
        requires
            line < self@.len(),
        ensures
            r == self@[line as int].hardbreak,
    {
        self.lines[line].hardbreak
    }
}

/// Compute the line entries of a text, line by line.
pub(crate) fn compute_line_entries(text: &str) -> (res: Vec<LineEntry>)
    requires
        u16_len(text@) <= usize::MAX,
    ensures
        entries_spans(res@) == line_spans(text@),
{
    let ghost s = text@;
    let n = text.unicode_len();
    let mut entries: Vec<LineEntry> = Vec::new();
    let mut pos: usize = 0;
    let mut u16pos: usize = 0;
    proof {
        assert(s.skip(0) =~= s);
        assert(s.take(0) =~= Seq::<char>::empty());
        assert(entries_spans(entries@) =~= Seq::<LineSpanV>::empty());
        assert(line_spans(s) =~= entries_spans(entries@) + line_spans_from(s.skip(0), 0nat));
    }
    loop
        invariant
            s == text@,
            n == s.len(),
            pos <= n,
            u16_len(s) <= usize::MAX,
            u16pos == u16_len(s.take(pos as int)),
            line_spans(s) =~= entries_spans(entries@) + line_spans_from(
                s.skip(pos as int),
                u16pos as nat,
            ),
        decreases n - pos,
    {
        let ghost rest = s.skip(pos as int);
        let mut j: usize = pos;
        let mut cnt: usize = 0;
        let mut ws_cnt: usize = 0;
        loop
            invariant_except_break
                s == text@,
                n == s.len(),
                u16_len(s) <= usize::MAX,
                pos <= j <= n,
                cnt == u16_len(s.subrange(pos as int, j as int)),
                ws_cnt == u16_len(trim_ws(s.subrange(pos as int, j as int))),
                forall|t: int| pos <= t < j ==> s[t] != '\n',
            ensures
                pos <= j <= n,
                cnt == u16_len(s.subrange(pos as int, j as int)),
                ws_cnt == u16_len(trim_ws(s.subrange(pos as int, j as int))),
                forall|t: int| pos <= t < j ==> s[t] != '\n',
                j == n || s[j as int] == '\n',
            decreases n - j,
        {
            if j == n {
                break;
            }
            let c = text.get_char(j);
            if c == '\n' {
                break;
            }
            proof {
                assert(s.subrange(pos as int, j + 1).drop_last() =~= s.subrange(
                    pos as int,
                    j as int,
                ));
                assert(s.subrange(pos as int, j + 1).last() == s[j as int]);
                assert(s.take(j + 1) =~= s.take(pos as int) + s.subrange(pos as int, j + 1));
                lemma_u16_len_concat(s.take(pos as int), s.subrange(pos as int, j + 1));
                lemma_u16_len_take_le(s, j + 1);
            }
            let w: usize = if (c as u32) < 0x10000 {
                1
            } else {
                2
            };
            cnt = cnt + w;
            if !(c == ' ' || c == '\t' || c == '\r') {
                ws_cnt = cnt;
            }
            j = j + 1;
        }
        let ghost line = s.subrange(pos as int, j as int);
        proof {
            assert(s.take(j as int) =~= s.take(pos as int) + line);
            lemma_u16_len_concat(s.take(pos as int), line);
            lemma_u16_len_take_le(s, j as int);
            lemma_trim_ws_le(line);
        }
        let start = u16pos;
        let end = u16pos + cnt;
        let end_excluding_whitespace = u16pos + ws_cnt;
        let has_nl = j < n;
        proof {
            if j < n {
                lemma_u16_len_take_step(s, j as int);
                lemma_u16_len_take_le(s, j + 1);
            }
        }
        let end_including_newline = if has_nl {
            end + 1
        } else {
            end
        };
        let entry = LineEntry { start, end, end_excluding_whitespace, end_including_newline,
            hardbreak: true };
        proof {
            assert(entry_span(entry) == line_span(u16pos as nat, line, has_nl));
            assert(entries_spans(entries@.push(entry)) =~= entries_spans(entries@).push(
                entry_span(entry),
            ));
            if j < n {
                assert(rest[j - pos] == s[j as int]);
                assert forall|t: int| 0 <= t < j - pos implies rest[t] != '\n' by {
                    assert(rest[t] == s[pos + t]);
                }
                lemma_first_nl_at(rest, j - pos);
                assert(rest.take(j - pos) =~= line);
                assert(rest.skip(j - pos + 1) =~= s.skip(j + 1));
                assert(line_spans_from(rest, u16pos as nat) =~= seq![
                    line_span(u16pos as nat, line, true),
                ] + line_spans_from(s.skip(j + 1), (end + 1) as nat));
                assert(line_spans(s) =~= entries_spans(entries@.push(entry)) + line_spans_from(
                    s.skip(j + 1),
                    (end + 1) as nat,
                ));
            } else {
                assert(rest =~= line);
                assert forall|t: int| 0 <= t < rest.len() implies rest[t] != '\n' by {
                    assert(rest[t] == s[pos + t]);
                }
                lemma_first_nl_none(rest);
                assert(line_spans_from(rest, u16pos as nat) =~= seq![
                    line_span(u16pos as nat, line, false),
                ]);
                assert(line_spans(s) =~= entries_spans(entries@.push(entry)));
            }
        }
        entries.push(entry);
        if has_nl {
            pos = j + 1;
            u16pos = end + 1;
        } else {
            return entries;
        }
    }
}

} // verus!
