//! The paragraph pipeline: a style-stack text recorder and the immutable
//! laid-out paragraph it builds.
//!
//! A [`ParagraphBuilder`] stacks styles and appends text runs, each run
//! tagged with the style on top of the stack when it was added.  `build`
//! consumes the builder into a [`Paragraph`].  Line boundaries lie at
//! explicit newline characters, and per-line indices are counted in UTF-16
//! code units, as the engine reports them.  Visual wrapping at the layout
//! width is the shaping engine's work and is not modelled here.

use vstd::prelude::*;
use vstd::string::StrSliceExecFns;

use crate::geometry::Scalar;
use crate::line_metrics::LineMetrics;
use crate::line_metrics::compute_line_entries;
use crate::line_metrics::lemma_line_spans_len;
use crate::line_metrics::lemma_nl_count_concat;
use crate::line_metrics::line_spans;
use crate::line_metrics::nl_count;
use crate::line_metrics::lemma_u16_len_take_le;
use crate::line_metrics::lemma_u16_len_take_step;
use crate::line_metrics::u16_len;
use crate::paragraph_style::ParagraphStyle;
use crate::paragraph_style::ParagraphStyleV;
use crate::paragraph_style::default_paragraph_style;
use crate::typography::TypographyContext;

verus! {

/// One recorded run of text with the style that was in force.
#[derive(Debug)]
pub struct TextRun {
    pub text: String,
    pub style: ParagraphStyle,
}

/// The mathematical value of a [`TextRun`]: the run's characters and its
/// style.
pub ghost struct TextRunV {
    pub text: Seq<char>,
    pub style: ParagraphStyleV,
}

impl View for TextRun {
    type V = TextRunV;

    open spec fn view(&self) -> TextRunV {
        TextRunV { text: self.text@, style: self.style@ }
    }
}

impl Clone for TextRun {
    fn clone(&self) -> (r: Self)
        ensures
            r@ == self@,
    {
        TextRun { text: self.text.clone(), style: self.style.clone() }
    }
}

/// The concatenated characters of a sequence of runs.
pub open spec fn runs_text(runs: Seq<TextRunV>) -> Seq<char>
    decreases runs.len(),
{
    if runs.len() == 0 {
        Seq::<char>::empty()
    } else {
        runs_text(runs.drop_last()) + runs.last().text
    }
}

/// The mathematical value of a [`ParagraphBuilder`].
pub ghost struct ParagraphBuilderV {
    pub styles: Seq<ParagraphStyleV>,
    pub runs: Seq<TextRunV>,
}

/// A mutable text recorder: a style stack and the runs added so far.
#[derive(Debug)]
pub struct ParagraphBuilder {
    pub style_stack: Vec<ParagraphStyle>,
    pub runs: Vec<TextRun>,
}

impl View for ParagraphBuilder {
    type V = ParagraphBuilderV;

    open spec fn view(&self) -> ParagraphBuilderV {
        ParagraphBuilderV {
            styles: self.style_stack@.map(|i: int, s: ParagraphStyle| s@),
            runs: self.runs@.map(|i: int, r: TextRun| r@),
        }
    }
}

/// The style in force for the next run: the top of the style stack, or the
/// all-unset default where nothing was ever pushed.
pub open spec fn current_style(styles: Seq<ParagraphStyleV>) -> ParagraphStyleV {
    if styles.len() == 0 {
        default_paragraph_style()
    } else {
        styles.last()
    }
}

impl ParagraphBuilder {
    /// A fresh builder shaping against the given font registry: empty style
    /// stack, no runs.  The registry itself is consulted by the shaping
    /// engine at layout time, so the recorder does not retain it.
    pub fn new(context: &TypographyContext) -> (r: Self)
        ensures
            r@.styles == Seq::<ParagraphStyleV>::empty(),
            r@.runs == Seq::<TextRunV>::empty(),
    {
        let _ = context;
        let r = ParagraphBuilder { style_stack: Vec::new(), runs: Vec::new() };
        proof {
            assert(r@.styles =~= Seq::<ParagraphStyleV>::empty());
            assert(r@.runs =~= Seq::<TextRunV>::empty());
        }
        r
    }

    /// Push a style: text added afterwards is tagged with it until it is
    /// popped.
    pub fn push_style(&mut self, style: &ParagraphStyle)
        ensures
            final(self)@.styles == old(self)@.styles.push(style@),
            final(self)@.runs == old(self)@.runs,
    {
        let ghost pre = *self;
        self.style_stack.push(style.clone());
        proof {
            assert(self@.styles =~= pre@.styles.push(style@));
        }
    }

    /// Pop the most recently pushed style; with an empty stack this is a
    /// no-op.
    pub fn pop_style(&mut self)
        ensures
            final(self)@.styles == if old(self)@.styles.len() == 0 {
                old(self)@.styles
            } else {
                old(self)@.styles.drop_last()
            },
            final(self)@.runs == old(self)@.runs,
    {
        let ghost pre = *self;
        if self.style_stack.len() > 0 {
            let _ = self.style_stack.pop();
            proof {
                assert(self@.styles =~= pre@.styles.drop_last());
            }
        }
    }

    /// Append UTF-8 text, tagged with the style currently in force.
    pub fn add_text(&mut self, text: &str)
        ensures
            final(self)@.styles == old(self)@.styles,
            final(self)@.runs == old(self)@.runs.push(
                TextRunV { text: text@, style: current_style(old(self)@.styles) },
            ),
    {
        let ghost pre = *self;
        let style: ParagraphStyle = if self.style_stack.len() > 0 {
            self.style_stack[self.style_stack.len() - 1].clone()
        } else {
            ParagraphStyle::default()
        };
        let run = TextRun { text: text.to_owned(), style };
        proof {
            assert(run@ == (TextRunV { text: text@, style: current_style(pre@.styles) }));
        }
        self.runs.push(run);
        proof {
            assert(self@.runs =~= pre@.runs.push(
                TextRunV { text: text@, style: current_style(pre@.styles) },
            ));
        }
    }

    /// Lay out the recorded runs at the given width, consuming the builder
    /// into an immutable paragraph.  A builder that is built again must be
    /// created afresh.
    pub fn build(self, width: Scalar) -> (r: Paragraph)
        ensures
            r@.runs == self@.runs,
            r@.max_width == width,
            r@.text == runs_text(self@.runs),
            r.wf(),
    {
        let mut text = String::new();
        let mut i: usize = 0;
        while i < self.runs.len()
            invariant
                i <= self.runs.len(),
                text@ == runs_text(self@.runs.take(i as int)),
            decreases self.runs.len() - i,
        {
            proof {
                assert(self@.runs.take(i + 1).drop_last() =~= self@.runs.take(i as int));
                assert(self@.runs.take(i + 1).last() == self@.runs[i as int]);
            }
            text.append(self.runs[i].text.as_str());
            i = i + 1;
        }
        proof {
            assert(self@.runs.take(self.runs.len() as int) =~= self@.runs);
        }
        let r = Paragraph { runs: self.runs, max_width: width, text, line_metrics: None };
        proof {
            assert(r@.runs =~= runs_view(r.runs@));
        }
        r
    }
}

/// The views of a vector of runs.
pub open spec fn runs_view(runs: Seq<TextRun>) -> Seq<TextRunV> {
    runs.map(|i: int, r: TextRun| r@)
}

/// The mathematical value of a [`Paragraph`]: its runs, its layout width
/// and its full text.
pub ghost struct ParagraphV {
    pub runs: Seq<TextRunV>,
    pub max_width: Scalar,
    pub text: Seq<char>,
}

/// An immutable laid-out paragraph: the recorded runs, the width handed to
/// layout, the concatenated text, and the lazily computed line metrics.
#[derive(Debug)]
pub struct Paragraph {
    pub runs: Vec<TextRun>,
    pub max_width: Scalar,
    pub text: String,
    pub line_metrics: Option<LineMetrics>,
}

impl View for Paragraph {
    type V = ParagraphV;

    open spec fn view(&self) -> ParagraphV {
        ParagraphV { runs: runs_view(self.runs@), max_width: self.max_width, text: self.text@ }
    }
}

impl Paragraph {
    /// The paragraph's text is the concatenation of its runs, and the line
    /// metrics cache, where filled, holds exactly the text's line spans.
    pub open spec fn wf(self) -> bool {
        &&& self@.text == runs_text(self@.runs)
        &&& match self.line_metrics {
            Some(m) => m@ == line_spans(self@.text),
            None => true,
        }
    }

    /// The width provided to layout: the maximum width any line may occupy.
    pub fn get_max_width(&self) -> (r: Scalar)
        ensures
            r == self@.max_width,
    {
        self.max_width
    }

    /// The number of lines of the laid-out paragraph.
    pub fn get_line_count(&self) -> (r: usize)
        requires
            self@.text.len() < usize::MAX,
        ensures
            r == line_spans(self@.text).len(),
    {
        let ghost s = self@.text;
        let text = self.text.as_str();
        let n = text.unicode_len();
        let mut cnt: usize = 0;
        let mut i: usize = 0;
        proof {
            assert(s.take(0) =~= Seq::<char>::empty());
        }
        while i < n
            invariant
                s == self@.text,
                text@ == s,
                n == s.len(),
                n < usize::MAX,
                i <= n,
                cnt <= i,
                cnt == nl_count(s.take(i as int)),
            decreases n - i,
        {
            let c = text.get_char(i);
            proof {
                let one = seq![s[i as int]];
                assert(s.take(i + 1) =~= s.take(i as int) + one);
                lemma_nl_count_concat(s.take(i as int), one);
                assert(one.drop_first() =~= Seq::<char>::empty());
                assert(one[0] == s[i as int]);
                assert(one.len() == 1);
                assert(nl_count(Seq::<char>::empty()) == 0);
                assert(nl_count(one) == (if one[0] == '\n' {
                    1nat
                } else {
                    0nat
                }) + nl_count(one.drop_first()));
                assert(nl_count(one) == if s[i as int] == '\n' {
                    1nat
                } else {
                    0nat
                });
            }
            if c == '\n' {
                cnt = cnt + 1;
            }
            i = i + 1;
        }
        proof {
            assert(s.take(n as int) =~= s);
            lemma_line_spans_len(s, 0nat);
        }
        cnt + 1
    }

    /// The per-line metrics of the paragraph, computed once and cached
    /// inside the otherwise immutable paragraph; later calls return the
    /// cached metrics.
    pub fn get_line_metrics(&mut self) -> (r: LineMetrics)
        requires
            old(self).wf(),
            u16_len(old(self)@.text) <= usize::MAX,
        ensures
            r@ == line_spans(old(self)@.text),
            final(self)@ == old(self)@,
            final(self).wf(),
    {
        match &self.line_metrics {
            Some(m) => {
                return m.clone();
            },
            None => {},
        }
        let entries = compute_line_entries(self.text.as_str());
        let m = LineMetrics { lines: entries };
        let r = m.clone();
        self.line_metrics = Some(m);
        r
    }
}

/// The cache-consistency law: any two line-metrics values computed for one
/// paragraph's text agree, line for line.
pub proof fn lemma_line_metrics_consistent(p: Paragraph, m1: LineMetrics, m2: LineMetrics)
    requires
        m1@ == line_spans(p@.text),
        m2@ == line_spans(p@.text),
    ensures
        m1@ == m2@,
{
}

/// Information about the glyph cluster at one position of a paragraph: the
/// UTF-16 code-unit range of the character it renders.  Cluster boundaries
/// here are character boundaries; joining characters into wider clusters is
/// the shaping engine's work.
#[derive(Clone, Copy, Debug, PartialEq, Eq, Structural)]
pub struct GlyphInfo {
    pub code_unit_range_begin: usize,
    pub code_unit_range_end: usize,
}

impl GlyphInfo {
    /// First UTF-16 code unit of the cluster.
    pub fn get_grapheme_cluster_code_unit_range_begin_utf16(&self) -> (r: usize)
        ensures
            r == self.code_unit_range_begin,
    {
        self.code_unit_range_begin
    }

    /// One past the last UTF-16 code unit of the cluster.
    pub fn get_grapheme_cluster_code_unit_range_end_utf16(&self) -> (r: usize)
        ensures
            r == self.code_unit_range_end,
    {
        self.code_unit_range_end
    }
}

impl Paragraph {
    /// The glyph cluster containing the given UTF-16 code-unit index: its
    /// code-unit range, or nothing where the index lies past the text.
    pub fn create_glyph_info_at_code_unit_index_utf16(&self, code_unit_index: usize) -> (r: Option<
        GlyphInfo,
    >)
        requires
            u16_len(self@.text) <= usize::MAX,
        ensures
            r is Some <==> (code_unit_index as nat) < u16_len(self@.text),
            r matches Some(g) ==> exists|j: int|
                0 <= j < self@.text.len() && g.code_unit_range_begin == u16_len(
                    #[trigger] self@.text.take(j),
                ) && g.code_unit_range_end == u16_len(self@.text.take(j + 1))
                    && g.code_unit_range_begin <= code_unit_index < g.code_unit_range_end,
    {
        let ghost s = self@.text;
        let text = self.text.as_str();
        let n = text.unicode_len();
        let mut j: usize = 0;
        let mut acc: usize = 0;
        proof {
            assert(s.take(0) =~= Seq::<char>::empty());
        }
        while j < n
            invariant
                s == self@.text,
                text@ == s,
                n == s.len(),
                j <= n,
                u16_len(s) <= usize::MAX,
                acc == u16_len(s.take(j as int)),
                acc <= code_unit_index,
            decreases n - j,
        {
            let c = text.get_char(j);
            proof {
                lemma_u16_len_take_step(s, j as int);
                lemma_u16_len_take_le(s, j + 1);
            }
            let w: usize = if (c as u32) < 0x10000 {
                1
            } else {
                2
            };
            if code_unit_index < acc + w {
                proof {
                    lemma_u16_len_take_le(s, j + 1);
                }
                return Some(
                    GlyphInfo { code_unit_range_begin: acc, code_unit_range_end: acc + w },
                );
            }
            acc = acc + w;
            j = j + 1;
        }
        proof {
            assert(s.take(n as int) =~= s);
        }
        None
    }
}

impl Clone for Paragraph {
    fn clone(&self) -> (r: Self)
        ensures
            r@ == self@,
            self.wf() ==> r.wf(),
    {
        let mut runs: Vec<TextRun> = Vec::new();
        let mut i: usize = 0;
        while i < self.runs.len()
            invariant
                i <= self.runs.len(),
                runs@.len() == i,
                forall|j: int| 0 <= j < i ==> #[trigger] runs@[j]@ == self.runs@[j]@,
            decreases self.runs.len() - i,
        {
            runs.push(self.runs[i].clone());
            i = i + 1;
        }
        proof {
            assert(runs_view(runs@) =~= runs_view(self.runs@));
        }
        Paragraph {
            runs,
            max_width: self.max_width,
            text: self.text.clone(),
            line_metrics: match &self.line_metrics {
                Some(m) => Some(m.clone()),
                None => None,
            },
        }
    }
}

} // verus!
