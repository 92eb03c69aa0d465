use shader_reload::highlighter::{
    font_choice, Theme, FontSlant, FontWeight, Highlighter, Settings, LINES_PER_SNAPSHOT,
};
use shader_reload::syntax::Registry;

const SYNTAX_SOURCE: &str = "name: WGSL\nfile_extensions: [wgsl]\nscope: source.wgsl\ncontexts:\n  main:\n    - match: '\\b(fn|let|var|return)\\b'\n      scope: keyword.control.wgsl\n    - match: '\\b[0-9]+\\b'\n      scope: constant.numeric.wgsl\n    - match: '//.*'\n      scope: comment.line.wgsl\n";

fn registry() -> Registry {
    Registry::new(SYNTAX_SOURCE, "wgsl").expect("syntax definition should load")
}

fn settings() -> Settings {
    Settings { theme: Theme::SolarizedDark, token: String::from("wgsl") }
}

fn document(lines: usize) -> Vec<String> {
    let mut doc = Vec::new();
    for i in 0..lines {
        doc.push(format!("let x{} = {}; // fn var {}", i, i, i));
    }
    doc
}

type SpanShape = (usize, usize, Option<(u8, u8, u8, u8)>, Option<(FontWeight, FontSlant)>);

fn shape_of(spans: &[shader_reload::highlighter::HighlightSpan]) -> Vec<SpanShape> {
    spans.iter().map(|s| (s.start, s.end, s.highlight.color_rgba8(), s.highlight.font())).collect()
}

#[test]
fn fresh_highlighter_starts_at_line_zero_with_one_snapshot() {
    let reg = registry();
    let h = Highlighter::new(&settings(), &reg);
    assert_eq!(h.current_line(), 0);
    assert_eq!(h.snapshot_count(), 1);
}

#[test]
fn spans_cover_the_line_without_gaps_or_overlaps() {
    let reg = registry();
    let mut h = Highlighter::new(&settings(), &reg);
    let line = "fn main() { return 42; } // end";
    let spans = h.highlight_line(line);
    assert!(!spans.is_empty());
    assert_eq!(spans[0].start, 0);
    assert_eq!(spans[spans.len() - 1].end, line.len());
    for w in spans.windows(2) {
        assert_eq!(w[0].end, w[1].start);
    }
    for s in &spans {
        assert!(s.start < s.end);
    }
}

#[test]
fn empty_line_has_no_spans() {
    let reg = registry();
    let mut h = Highlighter::new(&settings(), &reg);
    let spans = h.highlight_line("");
    assert!(spans.is_empty());
    assert_eq!(h.current_line(), 1);
}

#[test]
fn keyword_changes_the_style() {
    let reg = registry();
    let mut h = Highlighter::new(&settings(), &reg);
    // "fn abc" - keyword then plain text: the keyword span's styling must
    // differ from the trailing plain span's, so the backend's style really
    // flows through.
    let spans = h.highlight_line("fn abc");
    assert!(spans.len() >= 2);
    let shapes = shape_of(&spans);
    let plain = &shapes[shapes.len() - 1];
    assert!(shapes.iter().any(|s| s.2 != plain.2 || s.3 != plain.3));
}

#[test]
fn snapshot_count_after_n_lines_is_n_over_interval_plus_one() {
    let reg = registry();
    let counts = [0usize, 1, 49, 50, 51, 100, 101, 150];
    for &n in &counts {
        let mut h = Highlighter::new(&settings(), &reg);
        let doc = document(n);
        for line in &doc {
            h.highlight_line(line);
        }
        assert_eq!(h.current_line(), n);
        assert_eq!(
            h.snapshot_count(),
            n / LINES_PER_SNAPSHOT + 1,
            "snapshot count after {} lines",
            n
        );
    }
}

#[test]
fn change_line_within_built_territory_resumes_at_boundary() {
    let reg = registry();
    let mut h = Highlighter::new(&settings(), &reg);
    let doc = document(120);
    for line in &doc {
        h.highlight_line(line);
    }
    assert_eq!(h.snapshot_count(), 3);
    h.change_line(60);
    assert_eq!(h.current_line(), 50);
    assert_eq!(h.snapshot_count(), 2);
}

#[test]
fn change_line_beyond_built_territory_replays_from_start() {
    let reg = registry();
    let mut h = Highlighter::new(&settings(), &reg);
    let doc = document(10);
    for line in &doc {
        h.highlight_line(line);
    }
    h.change_line(70);
    assert_eq!(h.current_line(), 0);
    assert_eq!(h.snapshot_count(), 1);
}

#[test]
fn identical_seeks_give_identical_spans() {
    let reg = registry();
    let mut h = Highlighter::new(&settings(), &reg);
    let doc = document(120);
    for line in &doc {
        h.highlight_line(line);
    }

    h.change_line(60);
    let mut first = Vec::new();
    for line in doc.iter().take(61).skip(50) {
        first = shape_of(&h.highlight_line(line));
    }

    h.change_line(60);
    let mut second = Vec::new();
    for line in doc.iter().take(61).skip(50) {
        second = shape_of(&h.highlight_line(line));
    }

    assert_eq!(first, second);
}

#[test]
fn cached_seek_equals_uncached_replay() {
    let reg = registry();
    let doc = document(120);

    let mut cached = Highlighter::new(&settings(), &reg);
    for line in &doc {
        cached.highlight_line(line);
    }
    cached.change_line(60);
    let mut via_cache = Vec::new();
    for line in doc.iter().take(61).skip(50) {
        via_cache = shape_of(&cached.highlight_line(line));
    }

    let mut replay = Highlighter::new(&settings(), &reg);
    let mut sequential = Vec::new();
    for line in doc.iter().take(61) {
        sequential = shape_of(&replay.highlight_line(line));
    }

    assert_eq!(via_cache, sequential);
}

#[test]
fn update_resets_the_cache_to_line_zero() {
    let reg = registry();
    let mut h = Highlighter::new(&settings(), &reg);
    let doc = document(75);
    for line in &doc {
        h.highlight_line(line);
    }
    assert_eq!(h.snapshot_count(), 2);
    h.update(&Settings { theme: Theme::Base16Ocean, token: String::from("wgsl") });
    assert_eq!(h.current_line(), 0);
    assert_eq!(h.snapshot_count(), 1);
    let spans = h.highlight_line(&doc[0]);
    assert!(!spans.is_empty());
}

#[test]
fn unknown_token_falls_back_to_plain_text() {
    let reg = Registry::new(SYNTAX_SOURCE, "nosuchtoken").expect("registry should build");
    let mut h = Highlighter::new(
        &Settings { theme: Theme::SolarizedDark, token: String::from("nosuchtoken") },
        &reg,
    );
    let line = "fn main 42";
    let spans = h.highlight_line(line);
    assert_eq!(spans[0].start, 0);
    assert_eq!(spans[spans.len() - 1].end, line.len());
}

#[test]
fn bad_syntax_definition_yields_no_registry() {
    assert!(Registry::new(":\n- {", "wgsl").is_none());
}

#[test]
fn theme_keys_name_the_default_themes() {
    assert_eq!(Theme::SolarizedDark.key(), "Solarized (dark)");
    assert_eq!(Theme::Base16Mocha.key(), "base16-mocha.dark");
    assert_eq!(Theme::Base16Ocean.key(), "base16-ocean.dark");
    assert_eq!(Theme::Base16Eighties.key(), "base16-eighties.dark");
    assert_eq!(Theme::InspiredGitHub.key(), "InspiredGitHub");
}

#[test]
fn theme_labels_are_human_readable() {
    assert_eq!(Theme::SolarizedDark.label(), "Solarized Dark");
    assert_eq!(Theme::Base16Mocha.label(), "Mocha");
    assert_eq!(Theme::Base16Ocean.label(), "Ocean");
    assert_eq!(Theme::Base16Eighties.label(), "Eighties");
    assert_eq!(Theme::InspiredGitHub.label(), "Inspired GitHub");
}

#[test]
fn font_choice_covers_all_flag_combinations() {
    assert_eq!(font_choice(None), None);
    assert_eq!(font_choice(Some((false, false))), None);
    assert_eq!(
        font_choice(Some((true, false))),
        Some((FontWeight::Bold, FontSlant::Normal))
    );
    assert_eq!(
        font_choice(Some((false, true))),
        Some((FontWeight::Normal, FontSlant::Italic))
    );
    assert_eq!(
        font_choice(Some((true, true))),
        Some((FontWeight::Bold, FontSlant::Italic))
    );
}
