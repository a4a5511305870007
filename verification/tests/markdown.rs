use chat_stream::markdown::{render_markdown, HighlightTheme, MarkdownOptions};

#[test]
fn paragraph_is_wrapped() {
    let html = render_markdown("Hi there!", &MarkdownOptions::chat(), HighlightTheme::Base16OceanDark);
    assert_eq!(html, "<p>Hi there!</p>\n");
}

#[test]
fn strikethrough_follows_its_switch() {
    let mut options = MarkdownOptions::chat();
    let on = render_markdown("~~gone~~", &options, HighlightTheme::Base16OceanDark);
    assert_eq!(on, "<p><del>gone</del></p>\n");
    options.strikethrough = false;
    let off = render_markdown("~~gone~~", &options, HighlightTheme::Base16OceanDark);
    assert_eq!(off, "<p>~~gone~~</p>\n");
}

#[test]
fn every_bundled_theme_renders_fenced_code() {
    let themes = [
        HighlightTheme::Base16OceanDark,
        HighlightTheme::Base16EightiesDark,
        HighlightTheme::Base16MochaDark,
        HighlightTheme::Base16OceanLight,
        HighlightTheme::InspiredGitHub,
        HighlightTheme::SolarizedDark,
        HighlightTheme::SolarizedLight,
    ];
    for theme in themes {
        let html = render_markdown("```rust\nlet x = 1;\n```\n", &MarkdownOptions::chat(), theme);
        assert!(html.starts_with("<pre lang=\"rust\" style=\"background-color:#"), "{}", html);
        assert!(html.ends_with("</code></pre>\n"), "{}", html);
    }
}
