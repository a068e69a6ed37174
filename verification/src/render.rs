//! Rendering body markup to HTML, under one fixed configuration.

use vstd::prelude::*;

verus! {

/// The renderer's features that a configuration decides; every other feature
/// stays switched off.
#[derive(Debug, Clone, PartialEq, Eq)]
pub struct RenderConfig {
    /// Raw HTML in the markup goes to the output as it stands.
    pub raw_html: bool,
    /// Headings get an id, made of this prefix and the heading's text.
    pub heading_ids: Option<String>,
    /// Footnote syntax is read.
    pub footnotes: bool,
    /// Table syntax is read.
    pub tables: bool,
}

impl RenderConfig {
    /// The prefix of the heading ids as characters, where headings get ids.
    pub open spec fn heading_prefix(&self) -> Option<Seq<char>> {
        match self.heading_ids {
            Some(prefix) => Some(prefix@),
            None => None,
        }
    }

    /// The configuration of every record's body: raw HTML passes through,
    /// headings get ids without a prefix, footnotes and tables are read.
    pub fn site() -> (config: RenderConfig)
        ensures
            config.raw_html,
            config.heading_prefix() == Some(Seq::<char>::empty()),
            config.footnotes,
            config.tables,
    {
        RenderConfig { raw_html: true, heading_ids: Some(String::new()), footnotes: true, tables: true }
    }
}

/// The HTML that the renderer makes of a markup text under a configuration.
pub uninterp spec fn markup_html(
    markup: Seq<char>,
    raw_html: bool,
    heading_prefix: Option<Seq<char>>,
    footnotes: bool,
    tables: bool,
) -> Seq<char>;

/// The HTML of a record's body: the markup rendered under the configuration
/// of `RenderConfig::site`.
pub open spec fn rendered(markup: Seq<char>) -> Seq<char> {
    markup_html(markup, true, Some(Seq::<char>::empty()), true, true)
}

/// Calls `comrak::markdown_to_html` with comrak's default options, but for
/// the four that the configuration holds.
///
/// Believed of it, not proved: it returns for every markup, and what it
/// returns depends on the markup and these four options alone.
#[verifier::external_body]
fn comrak_html(markup: &str, config: &RenderConfig) -> (html: String)
    ensures
        html@ == markup_html(
            markup@,
            config.raw_html,
            config.heading_prefix(),
            config.footnotes,
            config.tables,
        ),
{
    let mut options = comrak::ComrakOptions::default();
    options.render.unsafe_ = config.raw_html;
    options.extension.header_ids = config.heading_ids.clone();
    options.extension.footnotes = config.footnotes;
    options.extension.table = config.tables;
    comrak::markdown_to_html(markup, &options)
}

/// Renders a record's body markup to HTML.
pub fn render_markup(markup: &str) -> (html: String)
    ensures
        html@ == rendered(markup@),
{
    let config = RenderConfig::site();
    comrak_html(markup, &config)
}

} // verus!
