use post_extract::{render_markup, RenderConfig};

#[test]
fn paragraphs_and_emphasis_are_rendered() {
    assert_eq!(render_markup("Body **text**"), "<p>Body <strong>text</strong></p>\n");
    assert_eq!(render_markup("\nBody **text**"), "<p>Body <strong>text</strong></p>\n");
    assert_eq!(render_markup(""), "");
}

#[test]
fn rendering_twice_gives_the_same_output() {
    let markup = "# Title\n\nSome *text* with a [link](http://example.com).\n\n| a | b |\n|---|---|\n| 1 | 2 |\n\nNote[^1].\n\n[^1]: The note.\n";
    let first = render_markup(markup);
    let second = render_markup(markup);
    assert_eq!(first, second);
    assert_ne!(first, markup);
}

#[test]
fn raw_html_passes_through() {
    assert_eq!(
        render_markup("<script>\nalert('xyz');\n</script>\n\nPossibly <marquee>annoying</marquee>.\n"),
        "<script>\nalert('xyz');\n</script>\n<p>Possibly <marquee>annoying</marquee>.</p>\n"
    );
}

#[test]
fn headings_get_ids_without_prefix() {
    assert_eq!(
        render_markup("# Hello World\n"),
        "<h1><a href=\"#hello-world\" aria-hidden=\"true\" class=\"anchor\" id=\"hello-world\"></a>Hello World</h1>\n"
    );
}

#[test]
fn tables_are_read() {
    assert_eq!(
        render_markup("| a | b |\n|---|---|\n| 1 | 2 |\n"),
        "<table>\n<thead>\n<tr>\n<th>a</th>\n<th>b</th>\n</tr>\n</thead>\n<tbody>\n<tr>\n<td>1</td>\n<td>2</td>\n</tr>\n</tbody>\n</table>\n"
    );
}

#[test]
fn footnotes_are_read() {
    assert_eq!(
        render_markup("Hi[^x].\n\n[^x]: A greeting.\n"),
        "<p>Hi<sup class=\"footnote-ref\"><a href=\"#fn-1\" id=\"fnref-1\" data-footnote-ref>1</a></sup>.</p>\n\
         <section class=\"footnotes\" data-footnotes>\n<ol>\n<li id=\"fn-1\">\n\
         <p>A greeting. <a href=\"#fnref-1\" class=\"footnote-backref\" data-footnote-backref aria-label=\"Back to content\">↩</a></p>\n\
         </li>\n</ol>\n</section>\n"
    );
}

#[test]
fn other_extensions_stay_off() {
    assert_eq!(render_markup("~~gone~~"), "<p>~~gone~~</p>\n");
    assert_eq!(render_markup("http://example.com"), "<p>http://example.com</p>\n");
    assert_eq!(render_markup("- [ ] task"), "<ul>\n<li>[ ] task</li>\n</ul>\n");
}

#[test]
fn site_configuration_is_fixed() {
    assert_eq!(
        RenderConfig::site(),
        RenderConfig { raw_html: true, heading_ids: Some(String::new()), footnotes: true, tables: true }
    );
}
