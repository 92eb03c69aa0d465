//! The trusted boundary to the syntax-highlighting backend (syntect): type
//! declarations for its opaque values, a registry of the immutable tables
//! built once at startup, and thin wrappers around the calls the highlighter
//! makes. Everything the library proves about highlighting rests on the
//! contracts stated here.

use vstd::prelude::*;

verus! {

use vstd::string::StringSliceAdditionalSpecFns;

#[verifier::external_type_specification]
#[verifier::external_body]
pub struct ExSyntaxSet(syntect::parsing::SyntaxSet);

#[verifier::external_type_specification]
#[verifier::external_body]
pub struct ExParseState(syntect::parsing::ParseState);

#[verifier::external_type_specification]
#[verifier::external_body]
pub struct ExScopeStack(syntect::parsing::ScopeStack);

#[verifier::external_type_specification]
#[verifier::external_body]
pub struct ExScopeStackOp(syntect::parsing::ScopeStackOp);

#[verifier::external_type_specification]
#[verifier::external_body]
pub struct ExThemeSet(syntect::highlighting::ThemeSet);

#[verifier::external_type_specification]
#[verifier::external_body]
pub struct ExStyleModifier(syntect::highlighting::StyleModifier);

/// The immutable syntax and base-state tables, built once at startup and
/// passed by shared reference into every highlighter, so that nothing
/// depends on hidden global initialisation order.
pub struct Registry {
    pub(crate) syntax_set: syntect::parsing::SyntaxSet,
    pub(crate) base_parser: syntect::parsing::ParseState,
    pub(crate) base_stack: syntect::parsing::ScopeStack,
}

/// Whether `source` is a loadable syntax definition: the verdict of
/// `syntect::parsing::SyntaxDefinition::load_from_str`, a deterministic
/// function of the definition text alone (the registry's token only selects
/// a syntax afterwards and cannot make loading fail).
pub uninterp spec fn syntax_loads(source: Seq<char>) -> bool;

/// Relies on `syntect::parsing::SyntaxDefinition::load_from_str`,
/// `SyntaxSetBuilder` (`new`, `add_plain_text_syntax`, `add`, `build`),
/// `SyntaxSet::find_syntax_by_extension` with `find_syntax_plain_text` as
/// fallback, `ParseState::new` and `ScopeStack::new`. Returns `None` exactly
/// when the syntax definition text does not load, a verdict of the text
/// alone, named `syntax_loads`; the plain-text syntax is always added
/// before the lookup, so the fallback cannot panic. Of the returned opaque
/// values nothing is stated: every guarantee the library needs is phrased
/// over how they are used later.
#[verifier::external_body]
fn build_registry_parts(
    syntax_source: &str,
    token: &str,
) -> (r: Option<
    (syntect::parsing::SyntaxSet, syntect::parsing::ParseState, syntect::parsing::ScopeStack),
>)
    ensures
        r is Some <==> syntax_loads(syntax_source@),
{
    let loaded = syntect::parsing::syntax_definition::SyntaxDefinition::load_from_str(
        syntax_source, true, None);
    let definition = match loaded { Ok(d) => d, Err(_) => return None };
    let mut builder = syntect::parsing::SyntaxSetBuilder::new();
    builder.add_plain_text_syntax();
    builder.add(definition);
    let syntax_set = builder.build();
    let syntax = syntax_set.find_syntax_by_extension(token)
        .unwrap_or_else(|| syntax_set.find_syntax_plain_text());
    let parser = syntect::parsing::ParseState::new(syntax);
    Some((syntax_set, parser, syntect::parsing::ScopeStack::new()))
}

/// The backend's incremental parser, inseparably bound to the syntax set
/// it was created from. syntect documents that parsing a state against a
/// set other than its own gives wrong results or panics, so the pair is
/// kept behind this boundary: its fields are private, and every value is
/// built by [`Registry::line_parser`] or [`LineParser::duplicate`], both
/// of which pair a state with exactly the set it came from. A mismatch is
/// thereby unconstructible, not merely unintended.
pub struct LineParser {
    parser: syntect::parsing::ParseState,
    syntax_set: syntect::parsing::SyntaxSet,
}

impl LineParser {
    /// The syntax set this parser is bound to.
    pub closed spec fn set_spec(&self) -> syntect::parsing::SyntaxSet {
        self.syntax_set
    }

    /// An owned copy: the same parser state, bound to the same set.
    pub fn duplicate(&self) -> (r: LineParser)
        ensures
            r == *self,
    {
        LineParser {
            parser: clone_parse_state(&self.parser),
            syntax_set: clone_syntax_set(&self.syntax_set),
        }
    }
}

impl Registry {
    /// The parser this registry hands out: the pristine state at the
    /// document start, bound to the registry's syntax table.
    pub closed spec fn base_parser_spec(&self) -> LineParser {
        LineParser { parser: self.base_parser, syntax_set: self.syntax_set }
    }

    /// The empty scope stack at the document start.
    pub open(crate) spec fn base_stack_spec(&self) -> syntect::parsing::ScopeStack {
        self.base_stack
    }

    /// A fresh parser over this registry's syntax table, positioned at the
    /// document start.
    pub fn line_parser(&self) -> (r: LineParser)
        ensures
            r == self.base_parser_spec(),
    {
        LineParser {
            parser: clone_parse_state(&self.base_parser),
            syntax_set: clone_syntax_set(&self.syntax_set),
        }
    }

    /// Builds the registry from the syntax-definition text and the file
    /// token (extension) it should highlight; falls back to plain text when
    /// the token matches no loaded syntax. `None` exactly when the
    /// definition text itself does not load.
    pub fn new(syntax_source: &str, token: &str) -> (r: Option<Registry>)
        ensures
            r is Some <==> syntax_loads(syntax_source@),
    {
        match build_registry_parts(syntax_source, token) {
            Some((syntax_set, base_parser, base_stack)) => Some(Registry {
                syntax_set,
                base_parser,
                base_stack,
            }),
            None => None,
        }
    }
}

/// Relies on `syntect::highlighting::ThemeSet::load_defaults`: the default
/// theme table, embedded in the library and constant.
#[verifier::external_body]
pub(crate) fn load_default_themes() -> (r: syntect::highlighting::ThemeSet) {
    syntect::highlighting::ThemeSet::load_defaults()
}

/// Relies on syntect's derived `Clone` for `ParseState`: a field-for-field
/// copy, so the clone is the same value as the original.
#[verifier::external_body]
pub(crate) fn clone_parse_state(parser: &syntect::parsing::ParseState) -> (r:
    syntect::parsing::ParseState)
    ensures
        r == *parser,
{
    parser.clone()
}

/// Relies on syntect's derived `Clone` for `ScopeStack`: a field-for-field
/// copy, so the clone is the same value as the original.
#[verifier::external_body]
pub(crate) fn clone_scope_stack(stack: &syntect::parsing::ScopeStack) -> (r:
    syntect::parsing::ScopeStack)
    ensures
        r == *stack,
{
    stack.clone()
}

/// Relies on syntect's hand-written `Clone` for `SyntaxSet`: it copies the
/// syntaxes and the path table and resets only the lazily derived
/// first-line cache, which is recomputed from the copied fields on demand.
/// The stated equality therefore reads a set's value as its syntaxes and
/// path table — what every operation is a function of — with the derived
/// cache no part of it; up to that cache the clone is the same value, and
/// no behaviour distinguishes the two.
#[verifier::external_body]
pub(crate) fn clone_syntax_set(syntax_set: &syntect::parsing::SyntaxSet) -> (r:
    syntect::parsing::SyntaxSet)
    ensures
        r == *syntax_set,
{
    syntax_set.clone()
}

/// Relies on `syntect::parsing::ParseState::parse_line`, called on a
/// [`LineParser`] so the state is always parsed against the set it was
/// created from — on a foreign set syntect documents wrong results or a
/// panic, which the pairing makes unreachable. The returned scope
/// operations carry byte offsets of regex match positions within the line,
/// so none passes the line's byte length. No order among the offsets is
/// assumed: a capture group may lie outside its pattern's overall match
/// (look-around, `\K`), in which case the emitted positions are not
/// monotone — the span walk enforces order itself. A parse failure is
/// mapped to no operations, as the renderer does; the syntax-set half of
/// the pair is left untouched.
#[verifier::external_body]
pub(crate) fn parse_line_ops(parser: &mut LineParser, line: &str) -> (ops: Vec<
    (usize, syntect::parsing::ScopeStackOp),
>)
    ensures
        final(parser).set_spec() == old(parser).set_spec(),
        forall|i: int|
            0 <= i < ops@.len() ==> #[trigger] ops@[i].0 <= line.spec_bytes().len() as usize,
{
    parser.parser.parse_line(line, &parser.syntax_set).unwrap_or_default()
}

/// Relies on `syntect::parsing::ScopeStack::apply`: it rewrites the stack in
/// place; a scope error leaves whatever the partial application produced,
/// which the renderer ignores just the same.
#[verifier::external_body]
pub(crate) fn apply_op(
    stack: &mut syntect::parsing::ScopeStack,
    op: &syntect::parsing::ScopeStackOp,
) {
    let _ = stack.apply(op);
}

/// Relies on the public `themes` map of `syntect::highlighting::ThemeSet`
/// (`BTreeMap::get`), on `syntect::highlighting::Highlighter::new` and on
/// `style_mod_for_stack`: the style modifier for the current scope stack
/// under the theme named by `key`, a pure lookup in the theme's tables; a
/// key naming no theme styles with the empty default theme, so the call is
/// total.
#[verifier::external_body]
pub(crate) fn style_for_stack(
    themes: &syntect::highlighting::ThemeSet,
    key: &str,
    stack: &syntect::parsing::ScopeStack,
) -> (r: syntect::highlighting::StyleModifier) {
    let fallback = syntect::highlighting::Theme::default();
    let theme = themes.themes.get(key).unwrap_or(&fallback);
    syntect::highlighting::Highlighter::new(theme).style_mod_for_stack(&stack.scopes)
}

/// Relies on the public `foreground` field of
/// `syntect::highlighting::StyleModifier` and the `r`, `g`, `b`, `a` fields
/// of `syntect::highlighting::Color`: reads the optional foreground colour
/// out as plain bytes.
#[verifier::external_body]
pub(crate) fn style_foreground(style: &syntect::highlighting::StyleModifier) -> (r: Option<
    (u8, u8, u8, u8),
>) {
    style.foreground.map(|color| (color.r, color.g, color.b, color.a))
}

/// Relies on the public `font_style` field of
/// `syntect::highlighting::StyleModifier` and on
/// `syntect::highlighting::FontStyle::contains`: reads the optional font
/// flags out as plain booleans, bold then italic.
#[verifier::external_body]
pub(crate) fn style_font_flags(style: &syntect::highlighting::StyleModifier) -> (r: Option<
    (bool, bool),
>) {
    style.font_style.map(|font_style| {
        (
            font_style.contains(syntect::highlighting::FontStyle::BOLD),
            font_style.contains(syntect::highlighting::FontStyle::ITALIC),
        )
    })
}

} // verus!
