//! Markdown to HTML. The rendering is comrak's, with syntect colouring the
//! fenced code; this module fixes what is handed to it.

use comrak::plugins::syntect::SyntectAdapterBuilder;
use comrak::{markdown_to_html_with_plugins, Options, Plugins};
use vstd::prelude::*;

verus! {

/// The switches of the renderer that a chat sets. Every other switch keeps
/// comrak's default.
#[derive(Clone, Copy, Debug, PartialEq, Eq, Structural)]
pub struct MarkdownOptions {
    pub strikethrough: bool,
    pub tagfilter: bool,
    pub table: bool,
    pub autolink: bool,
    pub hardbreaks: bool,
    pub github_pre_lang: bool,
}

/// A colour theme for fenced code: one of those that syntect brings along.
#[derive(Clone, Copy, Debug, PartialEq, Eq, Structural)]
pub enum HighlightTheme {
    Base16OceanDark,
    Base16EightiesDark,
    Base16MochaDark,
    Base16OceanLight,
    InspiredGitHub,
    SolarizedDark,
    SolarizedLight,
}

/// Whether `name` is the key of a theme in syntect's default set.
pub open spec fn bundled_theme(name: Seq<char>) -> bool {
    ||| name == "base16-ocean.dark"@
    ||| name == "base16-eighties.dark"@
    ||| name == "base16-mocha.dark"@
    ||| name == "base16-ocean.light"@
    ||| name == "InspiredGitHub"@
    ||| name == "Solarized (dark)"@
    ||| name == "Solarized (light)"@
}

impl HighlightTheme {
    /// The key under which syntect holds the theme.
    pub open spec fn key(self) -> Seq<char> {
        match self {
            HighlightTheme::Base16OceanDark => "base16-ocean.dark"@,
            HighlightTheme::Base16EightiesDark => "base16-eighties.dark"@,
            HighlightTheme::Base16MochaDark => "base16-mocha.dark"@,
            HighlightTheme::Base16OceanLight => "base16-ocean.light"@,
            HighlightTheme::InspiredGitHub => "InspiredGitHub"@,
            HighlightTheme::SolarizedDark => "Solarized (dark)"@,
            HighlightTheme::SolarizedLight => "Solarized (light)"@,
        }
    }

    /// The key under which syntect holds the theme.
    pub fn name(&self) -> (name: &'static str)
        ensures
            name@ == self.key(),
            bundled_theme(name@),
    {
        match self {
            HighlightTheme::Base16OceanDark => "base16-ocean.dark",
            HighlightTheme::Base16EightiesDark => "base16-eighties.dark",
            HighlightTheme::Base16MochaDark => "base16-mocha.dark",
            HighlightTheme::Base16OceanLight => "base16-ocean.light",
            HighlightTheme::InspiredGitHub => "InspiredGitHub",
            HighlightTheme::SolarizedDark => "Solarized (dark)",
            HighlightTheme::SolarizedLight => "Solarized (light)",
        }
    }
}

impl MarkdownOptions {
    /// The switches with which a chat renders its turns: strikethrough, the
    /// tag filter, tables and autolinks on; line breaks kept; the language of
    /// a code fence written on the `pre` tag.
    pub open spec fn for_chat() -> MarkdownOptions {
        MarkdownOptions {
            strikethrough: true,
            tagfilter: true,
            table: true,
            autolink: true,
            hardbreaks: true,
            github_pre_lang: true,
        }
    }

    /// The switches with which a chat renders its turns.
    pub fn chat() -> (options: MarkdownOptions)
        ensures
            options == MarkdownOptions::for_chat(),
    {
        MarkdownOptions {
            strikethrough: true,
            tagfilter: true,
            table: true,
            autolink: true,
            hardbreaks: true,
            github_pre_lang: true,
        }
    }
}

/// The HTML that comrak's `markdown_to_html_with_plugins` writes for `text`
/// under `options`, all other options at their defaults, with a syntect
/// highlighter for fenced code that uses the bundled theme `theme`.
pub uninterp spec fn markdown_html(text: Seq<char>, options: MarkdownOptions, theme: Seq<char>) -> Seq<
    char,
>;

/// Calls comrak's `markdown_to_html_with_plugins` with a syntect adapter as the
/// highlighter of fenced code. Nothing is claimed of the HTML but that it is
/// the one comrak writes for these arguments. The adapter looks its theme up
/// by key and panics on a key that its theme set lacks, so the key must be one
/// of the bundled set.
#[verifier::external_body]
fn comrak_html(text: &str, options: &MarkdownOptions, theme: &str) -> (html: String)
    requires
        bundled_theme(theme@),
    ensures
        html@ == markdown_html(text@, *options, theme@),
{
    let adapter = SyntectAdapterBuilder::new().theme(theme).build();
    let mut plugins = Plugins::default();
    plugins.render.codefence_syntax_highlighter = Some(&adapter);
    let mut settings = Options::default();
    settings.extension.strikethrough = options.strikethrough;
    settings.extension.tagfilter = options.tagfilter;
    settings.extension.table = options.table;
    settings.extension.autolink = options.autolink;
    settings.render.hardbreaks = options.hardbreaks;
    settings.render.github_pre_lang = options.github_pre_lang;
    markdown_to_html_with_plugins(text, &settings, &plugins)
}

/// Renders `text` as HTML, fenced code coloured with `theme`.
pub fn render_markdown(text: &str, options: &MarkdownOptions, theme: HighlightTheme) -> (html:
    String)
    ensures
        html@ == markdown_html(text@, *options, theme.key()),
{
    comrak_html(text, options, theme.name())
}

} // verus!
