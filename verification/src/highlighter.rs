//! Incremental, snapshot-cached syntax highlighter. Parser state is captured
//! every `LINES_PER_SNAPSHOT` lines into an ordered, index-addressable cache,
//! so that a seek within previously visited territory replays at most one
//! snapshot interval instead of the whole document.
//!
//! The cache is modelled by [`HighlighterModel`]: alongside the backend's
//! opaque parser values, every snapshot carries the (ghost) sequence of lines
//! that were fed to reach it, and the well-formedness invariant says each
//! snapshot's record is exactly the prefix of the working record at its line
//! boundary. That is the sense in which seeking through the cache is
//! transparent: it can only resume a replay of what was actually fed.

use vstd::prelude::*;

use crate::syntax;
use crate::syntax::Registry;

verus! {

use vstd::string::StringSliceAdditionalSpecFns;

/// Interval, in document lines, between two cached parser snapshots.
pub const LINES_PER_SNAPSHOT: usize = 50;

/// A highlighting theme of the backend's built-in theme table.
#[derive(Debug, Clone, Copy, PartialEq, Eq)]
pub enum Theme {
    SolarizedDark,
    Base16Mocha,
    Base16Ocean,
    Base16Eighties,
    InspiredGitHub,
}

impl Theme {
    /// The key of this theme in the backend's default theme table.
    pub open spec fn key_spec(self) -> Seq<char> {
        match self {
            Theme::SolarizedDark => "Solarized (dark)"@,
            Theme::Base16Mocha => "base16-mocha.dark"@,
            Theme::Base16Ocean => "base16-ocean.dark"@,
            Theme::Base16Eighties => "base16-eighties.dark"@,
            Theme::InspiredGitHub => "InspiredGitHub"@,
        }
    }

    /// The key of this theme in the backend's default theme table.
    pub fn key(self) -> (r: &'static str)
        ensures
            r@ == self.key_spec(),
    {
        match self {
            Theme::SolarizedDark => "Solarized (dark)",
            Theme::Base16Mocha => "base16-mocha.dark",
            Theme::Base16Ocean => "base16-ocean.dark",
            Theme::Base16Eighties => "base16-eighties.dark",
            Theme::InspiredGitHub => "InspiredGitHub",
        }
    }

    /// The name under which this theme is shown to the user.
    pub open spec fn label_spec(self) -> Seq<char> {
        match self {
            Theme::SolarizedDark => "Solarized Dark"@,
            Theme::Base16Mocha => "Mocha"@,
            Theme::Base16Ocean => "Ocean"@,
            Theme::Base16Eighties => "Eighties"@,
            Theme::InspiredGitHub => "Inspired GitHub"@,
        }
    }

    /// The name under which this theme is shown to the user.
    pub fn label(self) -> (r: &'static str)
        ensures
            r@ == self.label_spec(),
    {
        match self {
            Theme::SolarizedDark => "Solarized Dark",
            Theme::Base16Mocha => "Mocha",
            Theme::Base16Ocean => "Ocean",
            Theme::Base16Eighties => "Eighties",
            Theme::InspiredGitHub => "Inspired GitHub",
        }
    }
}

/// The settings of a [`Highlighter`]: the colour theme, and the file token
/// (extension) naming the grammar to highlight with.
#[derive(Debug, Clone, PartialEq)]
pub struct Settings {
    pub theme: Theme,
    pub token: String,
}

/// One cached parser state: the incremental parser (bound to its syntax
/// set) and the scope stack, plus the ghost record of the lines fed to
/// reach this state.
struct Snapshot {
    parser: syntax::LineParser,
    stack: syntect::parsing::ScopeStack,
    doc: Ghost<Seq<Seq<char>>>,
}

/// The mathematical value of a [`Snapshot`].
#[verifier::ext_equal]
pub ghost struct SnapshotModel {
    pub parser: syntax::LineParser,
    pub stack: syntect::parsing::ScopeStack,
    pub doc: Seq<Seq<char>>,
}

impl View for Snapshot {
    type V = SnapshotModel;

    closed spec fn view(&self) -> SnapshotModel {
        SnapshotModel { parser: self.parser, stack: self.stack, doc: self.doc@ }
    }
}

impl Snapshot {
    /// An owned copy: each in-flight incremental parse owns its own state,
    /// so a seek clones the cached snapshot rather than aliasing it.
    fn duplicate(&self) -> (r: Snapshot)
        ensures
            r@ == self@,
    {
        Snapshot {
            parser: self.parser.duplicate(),
            stack: syntax::clone_scope_stack(&self.stack),
            doc: Ghost(self.doc@),
        }
    }
}

/// The mathematical value of a [`Highlighter`]: the theme table, the
/// snapshot cache (each snapshot's parser bound to its syntax set), the
/// working state, and the line the working state has reached.
#[verifier::ext_equal]
pub ghost struct HighlighterModel {
    pub themes: syntect::highlighting::ThemeSet,
    pub snapshots: Seq<SnapshotModel>,
    pub working: SnapshotModel,
    pub current_line: nat,
}

impl HighlighterModel {
    /// Well-formedness of the snapshot cache: one snapshot per full
    /// `LINES_PER_SNAPSHOT` lines advanced plus the initial one, the working
    /// record as long as the current line, and every snapshot's record equal
    /// to the prefix of the working record at its own line boundary.
    pub open spec fn wf(self) -> bool {
        &&& self.snapshots.len() == self.current_line / (LINES_PER_SNAPSHOT as nat) + 1
        &&& self.working.doc.len() == self.current_line
        &&& forall|i: int|
            0 <= i < self.snapshots.len() ==> (#[trigger] self.snapshots[i]).doc == self.working.doc.take(
                i * (LINES_PER_SNAPSHOT as int),
            )
        &&& forall|i: int|
            0 <= i < self.snapshots.len() ==> (#[trigger] self.snapshots[i]).doc.len() == i * (
            LINES_PER_SNAPSHOT as int)
    }

    /// The cache after repositioning to document line `line`: if the
    /// snapshot at index `line / LINES_PER_SNAPSHOT` exists, the cache is
    /// truncated to it and highlighting resumes from its clone at its line
    /// boundary; otherwise (a seek beyond what has been built) the cache
    /// collapses to the initial snapshot and the replay starts at line 0.
    pub open spec fn seek(self, line: nat) -> HighlighterModel {
        let idx = line / (LINES_PER_SNAPSHOT as nat);
        if idx < self.snapshots.len() {
            HighlighterModel {
                snapshots: self.snapshots.take(idx as int + 1),
                working: self.snapshots[idx as int],
                current_line: idx * (LINES_PER_SNAPSHOT as nat),
                ..self
            }
        } else {
            HighlighterModel {
                snapshots: self.snapshots.take(1),
                working: self.snapshots[0],
                current_line: 0,
                ..self
            }
        }
    }
}

/// Division rounds down: `(x / d) * d <= x`.
proof fn lemma_div_mul_le(x: nat, d: nat)
    requires
        0 < d,
    ensures
        (x / d) * d <= x,
{
    vstd::arithmetic::div_mod::lemma_fundamental_div_mod(x as int, d as int);
    vstd::arithmetic::div_mod::lemma_mod_bound(x as int, d as int);
    vstd::arithmetic::mul::lemma_mul_is_commutative(d as int, (x as int) / (d as int));
}

/// Law (cache truncation): seeking preserves well-formedness, so every
/// sequence of seeks and line advances keeps the snapshot cache consistent
/// with the lines that were actually fed.
pub proof fn lemma_seek_preserves_wf(m: HighlighterModel, line: nat)
    requires
        m.wf(),
    ensures
        m.seek(line).wf(),
{
    let k = LINES_PER_SNAPSHOT as nat;
    let idx = line / k;
    let s = m.seek(line);
    lemma_div_mul_le(m.current_line, k);
    if idx < m.snapshots.len() {
        vstd::arithmetic::div_mod::lemma_div_by_multiple(idx as int, k as int);
        assert(s.current_line / k == idx);
        assert(s.working.doc.len() == idx * (k as int)) by {
            assert(m.snapshots[idx as int].doc.len() == idx * (k as int));
        }
        assert(idx * (k as int) <= m.working.doc.len()) by {
            vstd::arithmetic::mul::lemma_mul_inequality(
                idx as int,
                (m.snapshots.len() - 1) as int,
                k as int,
            );
        }
        assert forall|i: int|
            0 <= i < s.snapshots.len() implies (#[trigger] s.snapshots[i]).doc
            == s.working.doc.take(i * (LINES_PER_SNAPSHOT as int)) by {
            vstd::arithmetic::mul::lemma_mul_inequality(i, idx as int, k as int);
            assert(s.snapshots[i] == m.snapshots[i]);
            let outer = (idx as int) * (k as int);
            let inner = i * (k as int);
            assert(m.working.doc.take(outer).take(inner) =~= m.working.doc.take(inner));
        }
    } else {
        assert(0nat / k == 0) by {
            vstd::arithmetic::div_mod::lemma_div_of0(k as int);
        }
        assert(s.working.doc.len() == 0) by {
            assert(m.snapshots[0].doc.len() == 0 * (k as int));
        }
        assert forall|i: int|
            0 <= i < s.snapshots.len() implies (#[trigger] s.snapshots[i]).doc
            == s.working.doc.take(i * (LINES_PER_SNAPSHOT as int)) by {
            assert(i == 0);
            assert(s.snapshots[0] == m.snapshots[0]);
            assert(s.working.doc.take(0) =~= s.working.doc);
        }
    }
}

/// The incremental syntax highlighter.
pub struct Highlighter {
    themes: syntect::highlighting::ThemeSet,
    settings: Settings,
    snapshots: Vec<Snapshot>,
    working: Snapshot,
    current_line: usize,
}

impl View for Highlighter {
    type V = HighlighterModel;

    closed spec fn view(&self) -> HighlighterModel {
        HighlighterModel {
            themes: self.themes,
            snapshots: self.snapshots@.map_values(|s: Snapshot| s@),
            working: self.working@,
            current_line: self.current_line as nat,
        }
    }
}

impl Highlighter {
    /// The stored settings, as theme and token text.
    pub closed spec fn settings(&self) -> (Theme, Seq<char>) {
        (self.settings.theme, self.settings.token@)
    }

    /// A fresh highlighter over the registry's tables: one snapshot (the
    /// registry's base parser state with an empty scope stack and an empty
    /// record), the working state equal to it, current line 0.
    pub fn new(settings: &Settings, registry: &Registry) -> (r: Highlighter)
        ensures
            r@.wf(),
            r@.snapshots.len() == 1,
            r@.working == r@.snapshots[0],
            r@.working.parser == registry.base_parser_spec(),
            r@.working.stack == registry.base_stack_spec(),
            r@.working.doc == Seq::<Seq<char>>::empty(),
            r@.current_line == 0,
            r.settings() == (settings.theme, settings.token@),
    {
        let base = Snapshot {
            parser: registry.line_parser(),
            stack: syntax::clone_scope_stack(&registry.base_stack),
            doc: Ghost(Seq::empty()),
        };
        let working = base.duplicate();
        let mut snapshots: Vec<Snapshot> = Vec::new();
        snapshots.push(base);
        let themes = syntax::load_default_themes();
        let r = Highlighter {
            themes,
            settings: Settings { theme: settings.theme, token: settings.token.clone() },
            snapshots,
            working,
            current_line: 0,
        };
        proof {
            assert(r@.working.doc.take(0) =~= Seq::<Seq<char>>::empty());
            assert(r@.snapshots =~= seq![r@.working]);
        }
        r
    }

    /// Repositions for upcoming [`Self::highlight_line`] calls at document
    /// line `line`, per [`HighlighterModel::seek`]: the cache is truncated to
    /// the snapshot covering `line` and the working state is cloned from it;
    /// a seek beyond what has been built collapses the cache to the initial
    /// snapshot and replays from the start. The new state is a function of
    /// the old state and `line` alone.
    pub fn change_line(&mut self, line: usize)
        requires
            old(self)@.wf(),
        ensures
            final(self)@ == old(self)@.seek(line as nat),
            final(self)@.wf(),
            final(self).settings() == old(self).settings(),
    {
        proof {
            lemma_seek_preserves_wf(old(self)@, line as nat);
        }
        let idx = line / LINES_PER_SNAPSHOT;
        assert((line / LINES_PER_SNAPSHOT) * LINES_PER_SNAPSHOT <= line) by (nonlinear_arith);
        if idx < self.snapshots.len() {
            self.snapshots.truncate(idx + 1);
            let resumed = self.snapshots[idx].duplicate();
            self.working = resumed;
            self.current_line = idx * LINES_PER_SNAPSHOT;
        } else {
            self.snapshots.truncate(1);
            let resumed = self.snapshots[0].duplicate();
            self.working = resumed;
            self.current_line = 0;
        }
        proof {
            assert(self@.snapshots =~= old(self)@.seek(line as nat).snapshots);
            assert(self@ =~= old(self)@.seek(line as nat));
        }
    }

    /// Replaces the active colour/theme configuration and invalidates all
    /// cached state back to line 0: the cache collapses to the initial
    /// snapshot and the next replay starts from the document start.
    pub fn update(&mut self, new_settings: &Settings)
        requires
            old(self)@.wf(),
        ensures
            final(self)@.wf(),
            final(self)@.snapshots == old(self)@.snapshots.take(1),
            final(self)@.working == old(self)@.snapshots[0],
            final(self)@.current_line == 0,
            final(self)@.themes == old(self)@.themes,
            final(self).settings() == (new_settings.theme, new_settings.token@),
    {
        self.settings = Settings { theme: new_settings.theme, token: new_settings.token.clone() };
        self.snapshots.truncate(1);
        let resumed = self.snapshots[0].duplicate();
        self.working = resumed;
        self.current_line = 0;
        proof {
            vstd::arithmetic::div_mod::lemma_div_of0(LINES_PER_SNAPSHOT as int);
            assert(self@.snapshots =~= old(self)@.snapshots.take(1));
            assert(self@.working.doc.len() == 0) by {
                assert(old(self)@.snapshots[0].doc.len() == 0 * (LINES_PER_SNAPSHOT as int));
            }
            assert(self@.working.doc.take(0) =~= self@.working.doc);
        }
    }

    /// Advances parsing by exactly one line from the current cached state
    /// and returns the styled spans of that line: non-overlapping, in
    /// increasing byte-offset order, covering the full line with empty
    /// spans suppressed (see [`spans_cover`]). Whenever the advance reaches
    /// a multiple of `LINES_PER_SNAPSHOT` lines, a clone of the
    /// just-advanced state is appended to the snapshot cache, so a later
    /// seek to that boundary replays nothing.
    pub fn highlight_line(&mut self, line: &str) -> (spans: Vec<HighlightSpan>)
        requires
            old(self)@.wf(),
            old(self)@.current_line < usize::MAX,
        ensures
            final(self)@.wf(),
            final(self)@.current_line == old(self)@.current_line + 1,
            final(self)@.working.doc == old(self)@.working.doc.push(line@),
            final(self)@.snapshots.len() == (old(self)@.current_line + 1) / (
            LINES_PER_SNAPSHOT as nat) + 1,
            final(self)@.snapshots.take(old(self)@.snapshots.len() as int) == old(
                self,
            )@.snapshots,
            final(self)@.working.parser.set_spec() == old(self)@.working.parser.set_spec(),
            final(self)@.themes == old(self)@.themes,
            final(self).settings() == old(self).settings(),
            (old(self)@.current_line + 1) % (LINES_PER_SNAPSHOT as nat) == 0
                ==> final(self)@.snapshots.last() == final(self)@.working,
            covers_line(spans@, line),
    {
        let ops = syntax::parse_line_ops(&mut self.working.parser, line);
        let spans = style_ranges(
            &mut self.working.stack,
            &self.themes,
            self.settings.theme.key(),
            &ops,
            line.len(),
        );
        self.working.doc = Ghost(self.working.doc@.push(line@));
        self.current_line = self.current_line + 1;
        proof {
            lemma_div_increment(
                (self.current_line - 1) as nat,
                LINES_PER_SNAPSHOT as nat,
            );
            lemma_div_mul_le((self.current_line - 1) as nat, LINES_PER_SNAPSHOT as nat);
            assert forall|i: int|
                0 <= i < old(self)@.snapshots.len() implies (#[trigger] old(
                self,
            )@.snapshots[i]).doc == self@.working.doc.take(i * (LINES_PER_SNAPSHOT as int)) by {
                vstd::arithmetic::mul::lemma_mul_inequality(
                    i,
                    (old(self)@.snapshots.len() - 1) as int,
                    LINES_PER_SNAPSHOT as int,
                );
                let bound = i * (LINES_PER_SNAPSHOT as int);
                assert(old(self)@.working.doc.push(line@).take(bound) =~= old(
                    self,
                )@.working.doc.take(bound));
            }
        }
        if self.current_line % LINES_PER_SNAPSHOT == 0 {
            let boundary = self.working.duplicate();
            self.snapshots.push(boundary);
            proof {
                vstd::arithmetic::div_mod::lemma_fundamental_div_mod(
                    self.current_line as int,
                    LINES_PER_SNAPSHOT as int,
                );
                assert(self@.working.doc.take(self@.working.doc.len() as int)
                    =~= self@.working.doc);
                assert(self@.snapshots =~= old(self)@.snapshots.push(self@.working));
            }
        }
        proof {
            assert(self@.snapshots.take(old(self)@.snapshots.len() as int) =~= old(
                self,
            )@.snapshots);
        }
        spans
    }

    /// The document line the working state has reached: the last seek's
    /// boundary plus the number of lines highlighted since.
    pub fn current_line(&self) -> (r: usize)
        ensures
            r == self@.current_line,
    {
        self.current_line
    }

    /// How many parser snapshots the cache currently stores.
    pub fn snapshot_count(&self) -> (r: usize)
        ensures
            r == self@.snapshots.len(),
    {
        self.snapshots.len()
    }
}

/// Incrementing the dividend moves the quotient up exactly at multiples of
/// the divisor.
proof fn lemma_div_increment(c: nat, d: nat)
    requires
        0 < d,
    ensures
        (c + 1) % d == 0 ==> (c + 1) / d == c / d + 1,
        (c + 1) % d != 0 ==> (c + 1) / d == c / d,
{
    let q = c / d;
    let r = c % d;
    vstd::arithmetic::div_mod::lemma_fundamental_div_mod(c as int, d as int);
    vstd::arithmetic::div_mod::lemma_mod_bound(c as int, d as int);
    vstd::arithmetic::mul::lemma_mul_is_commutative(d as int, q as int);
    if r == d - 1 {
        vstd::arithmetic::mul::lemma_mul_is_distributive_add_other_way(
            d as int,
            q as int,
            1,
        );
        vstd::arithmetic::div_mod::lemma_fundamental_div_mod_converse(
            c as int + 1,
            d as int,
            q as int + 1,
            0,
        );
    } else {
        vstd::arithmetic::div_mod::lemma_fundamental_div_mod_converse(
            c as int + 1,
            d as int,
            q as int,
            r as int + 1,
        );
    }
}

/// Law (cache transparency): after any seek, the resumed working state's
/// recorded document is exactly the leading `current_line` lines previously
/// fed, in order — a seek can only resume a faithful replay of what a
/// sequential, uncached pass would have been fed.
pub proof fn lemma_seek_transparent(m: HighlighterModel, line: nat)
    requires
        m.wf(),
    ensures
        m.seek(line).working.doc == m.working.doc.take(m.seek(line).current_line as int),
{
}

/// Law (snapshot count): a well-formed highlighter stores exactly
/// `current_line / LINES_PER_SNAPSHOT + 1` snapshots; since a fresh
/// instance starts at line 0 and each highlighted line advances it by one,
/// covering N lines sequentially leaves `N / LINES_PER_SNAPSHOT + 1`.
pub proof fn lemma_snapshot_count(m: HighlighterModel)
    requires
        m.wf(),
    ensures
        m.snapshots.len() == m.current_line / (LINES_PER_SNAPSHOT as nat) + 1,
{
}

/// The font weight a highlight asks for.
#[derive(Debug, Clone, Copy, PartialEq, Eq, Structural)]
pub enum FontWeight {
    Normal,
    Bold,
}

/// The font slant a highlight asks for.
#[derive(Debug, Clone, Copy, PartialEq, Eq, Structural)]
pub enum FontSlant {
    Normal,
    Italic,
}

/// The font choice for given bold/italic flags: `None` (leave the original
/// font unchanged) exactly when no flags are present or both are off;
/// otherwise bold selects the bold weight and italic the italic slant.
pub open spec fn font_choice_spec(flags: Option<(bool, bool)>) -> Option<(FontWeight, FontSlant)> {
    match flags {
        None => None,
        Some((bold, italic)) => if !bold && !italic {
            None
        } else {
            Some(
                (
                    if bold {
                        FontWeight::Bold
                    } else {
                        FontWeight::Normal
                    },
                    if italic {
                        FontSlant::Italic
                    } else {
                        FontSlant::Normal
                    },
                ),
            )
        },
    }
}

/// Turns the backend's bold/italic flags into a font choice, per
/// [`font_choice_spec`].
pub fn font_choice(flags: Option<(bool, bool)>) -> (r: Option<(FontWeight, FontSlant)>)
    ensures
        r == font_choice_spec(flags),
{
    match flags {
        None => None,
        Some((bold, italic)) => {
            if !bold && !italic {
                None
            } else {
                let weight = if bold {
                    FontWeight::Bold
                } else {
                    FontWeight::Normal
                };
                let slant = if italic {
                    FontSlant::Italic
                } else {
                    FontSlant::Normal
                };
                Some((weight, slant))
            }
        },
    }
}

/// A highlight produced by the [`Highlighter`]: the style attributes of
/// one span, read out of the backend's style modifier as plain values when
/// the span is created.
#[derive(Debug, Clone, Copy, PartialEq, Eq)]
pub struct Highlight {
    color: Option<(u8, u8, u8, u8)>,
    font_flags: Option<(bool, bool)>,
}

impl Highlight {
    /// The foreground colour this highlight carries, as RGBA bytes.
    pub closed spec fn color_spec(&self) -> Option<(u8, u8, u8, u8)> {
        self.color
    }

    /// The bold/italic flags this highlight carries.
    pub closed spec fn font_flags_spec(&self) -> Option<(bool, bool)> {
        self.font_flags
    }

    /// The foreground colour as RGBA bytes; `None` means the original text
    /// colour should be unchanged.
    pub fn color_rgba8(&self) -> (r: Option<(u8, u8, u8, u8)>)
        ensures
            r == self.color_spec(),
    {
        self.color
    }

    /// The font this highlight asks for, per [`font_choice_spec`] applied
    /// to its bold/italic flags; `None` means the original font should be
    /// unchanged.
    pub fn font(&self) -> (r: Option<(FontWeight, FontSlant)>)
        ensures
            r == font_choice_spec(self.font_flags_spec()),
    {
        font_choice(self.font_flags)
    }
}

/// Resolves the style attributes for the current scope stack under the
/// named theme and reads them out as plain values.
fn resolve_highlight(
    themes: &syntect::highlighting::ThemeSet,
    theme_key: &str,
    stack: &syntect::parsing::ScopeStack,
) -> Highlight {
    let style = syntax::style_for_stack(themes, theme_key, stack);
    Highlight {
        color: syntax::style_foreground(&style),
        font_flags: syntax::style_font_flags(&style),
    }
}

/// One styled span of a highlighted line: the byte range `start..end` and
/// its style attributes.
pub struct HighlightSpan {
    pub start: usize,
    pub end: usize,
    pub highlight: Highlight,
}

/// The spans of one highlighted line cover the line exactly: every span is
/// non-empty and within the line, consecutive spans are adjacent (no gaps,
/// no overlaps, increasing byte order), the first starts at 0 and the last
/// ends at the line's byte length; a line of length 0 has no spans.
pub open spec fn spans_cover(spans: Seq<HighlightSpan>, line_len: nat) -> bool {
    &&& forall|i: int| 0 <= i < spans.len() ==> (#[trigger] spans[i]).start < spans[i].end
    &&& forall|i: int| 0 <= i < spans.len() ==> (#[trigger] spans[i]).end <= line_len
    &&& forall|i: int|
        0 <= i < spans.len() - 1 ==> (#[trigger] spans[i]).end == spans[i + 1].start
    &&& (line_len == 0 ==> spans.len() == 0)
    &&& (line_len > 0 ==> spans.len() > 0 && spans[0].start == 0 && spans[spans.len()
        - 1].end == line_len)
}

/// The spans cover `line` exactly, measured in bytes (see [`spans_cover`]).
pub open spec fn covers_line(spans: Seq<HighlightSpan>, line: &str) -> bool {
    spans_cover(spans, (line.spec_bytes().len() as usize) as nat)
}

/// `v` is the byte offset of one of the line's scope operations.
spec fn is_op_offset(v: usize, ops: Seq<(usize, syntect::parsing::ScopeStackOp)>) -> bool {
    exists|j: int| 0 <= j < ops.len() && (#[trigger] ops[j]).0 == v
}

/// The operation at `j` sits strictly right of the line start and of every
/// earlier operation, so the walk must cut a span exactly at its offset.
spec fn is_forward_cut(ops: Seq<(usize, syntect::parsing::ScopeStackOp)>, j: int) -> bool {
    &&& 0 < ops[j].0
    &&& forall|i: int| 0 <= i < j ==> (#[trigger] ops[i]).0 < ops[j].0
}

/// Some span ends exactly at byte offset `v`.
spec fn some_span_ends_at(spans: Seq<HighlightSpan>, v: usize) -> bool {
    exists|s: int| 0 <= s < spans.len() && (#[trigger] spans[s]).end == v
}

/// Walks the scope operations of one line left to right, applying each to
/// the scope stack and emitting one styled span per range between
/// consecutive operation offsets, exactly covering the line. The walk
/// enforces increasing order itself — an offset that does not advance past
/// the spans already emitted opens no new span, since the backend's
/// offsets are not assumed monotone. Every span boundary is an operation
/// offset, the line start or the line end, and every operation offset
/// strictly right of all earlier ones ends a span.
fn style_ranges(
    stack: &mut syntect::parsing::ScopeStack,
    themes: &syntect::highlighting::ThemeSet,
    theme_key: &str,
    ops: &Vec<(usize, syntect::parsing::ScopeStackOp)>,
    line_len: usize,
) -> (spans: Vec<HighlightSpan>)
    requires
        forall|i: int| 0 <= i < ops@.len() ==> #[trigger] ops@[i].0 <= line_len,
    ensures
        spans_cover(spans@, line_len as nat),
        forall|s: int|
            0 <= s < spans@.len() ==> ((#[trigger] spans@[s]).start == 0 || is_op_offset(
                spans@[s].start,
                ops@,
            )),
        forall|s: int|
            0 <= s < spans@.len() ==> ((#[trigger] spans@[s]).end == line_len || is_op_offset(
                spans@[s].end,
                ops@,
            )),
        forall|j: int|
            0 <= j < ops@.len() && #[trigger] is_forward_cut(ops@, j) ==> some_span_ends_at(
                spans@,
                ops@[j].0,
            ),
{
    let op_count = ops.len();
    let mut spans: Vec<HighlightSpan> = Vec::new();
    let mut last: usize = 0;
    let mut idx: usize = 0;
    while idx < op_count
        invariant
            op_count == ops@.len(),
            idx <= op_count,
            forall|i: int| 0 <= i < ops@.len() ==> #[trigger] ops@[i].0 <= line_len,
            last <= line_len,
            forall|i: int| 0 <= i < idx ==> #[trigger] ops@[i].0 <= last,
            last == 0 || exists|i: int| 0 <= i < idx && (#[trigger] ops@[i]).0 == last,
            forall|i: int|
                0 <= i < spans@.len() ==> (#[trigger] spans@[i]).start < spans@[i].end,
            forall|i: int| 0 <= i < spans@.len() ==> (#[trigger] spans@[i]).end <= last,
            forall|i: int|
                0 <= i < spans@.len() - 1 ==> (#[trigger] spans@[i]).end == spans@[i + 1].start,
            spans@.len() == 0 ==> last == 0,
            spans@.len() > 0 ==> spans@[0].start == 0 && spans@[spans@.len() - 1].end == last,
            forall|s: int|
                0 <= s < spans@.len() ==> ((#[trigger] spans@[s]).start == 0 || is_op_offset(
                    spans@[s].start,
                    ops@,
                )),
            forall|s: int| 0 <= s < spans@.len() ==> is_op_offset((#[trigger] spans@[s]).end, ops@),
            forall|j: int|
                0 <= j < idx && #[trigger] is_forward_cut(ops@, j) ==> some_span_ends_at(
                    spans@,
                    ops@[j].0,
                ),
        decreases op_count - idx,
    {
        let ghost prev_spans = spans@;
        let ghost prev_last = last;
        let next: usize = ops[idx].0;
        if idx > 0 {
            syntax::apply_op(stack, &ops[idx - 1].1);
        }
        if last < next {
            let highlight = resolve_highlight(themes, theme_key, stack);
            spans.push(HighlightSpan { start: last, end: next, highlight });
            last = next;
            proof {
                assert((ops@[idx as int]).0 == next);
                assert(spans@[spans@.len() - 1].end == next);
            }
        }
        proof {
            assert forall|j: int|
                0 <= j < idx + 1 && #[trigger] is_forward_cut(ops@, j) implies some_span_ends_at(
                spans@,
                ops@[j].0,
            ) by {
                if j == idx {
                    assert(prev_last < ops@[j].0);
                    assert(spans@[spans@.len() - 1].end == ops@[j].0);
                } else {
                    let s = choose|s: int|
                        0 <= s < prev_spans.len() && (#[trigger] prev_spans[s]).end == ops@[j].0;
                    assert(spans@[s].end == ops@[j].0);
                }
            }
        }
        idx = idx + 1;
    }
    if op_count > 0 {
        syntax::apply_op(stack, &ops[op_count - 1].1);
    }
    let ghost walked_spans = spans@;
    if last < line_len {
        let highlight = resolve_highlight(themes, theme_key, stack);
        spans.push(HighlightSpan { start: last, end: line_len, highlight });
    }
    proof {
        assert forall|j: int|
            0 <= j < ops@.len() && #[trigger] is_forward_cut(ops@, j) implies some_span_ends_at(
            spans@,
            ops@[j].0,
        ) by {
            let s = choose|s: int|
                0 <= s < walked_spans.len() && (#[trigger] walked_spans[s]).end == ops@[j].0;
            assert(spans@[s].end == ops@[j].0);
        }
    }
    spans
}

} // verus!
