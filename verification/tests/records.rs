use post_extract::{
    check_layout, decode_filename, page_url, post_url, split_front_matter, DatedName, ExtractError,
    HeaderBlock, Post, RecordKind, StaticPage,
};

fn header(title: &str, tags: &[&str], layout: &str) -> HeaderBlock {
    HeaderBlock {
        title: title.to_string(),
        tags: tags.iter().map(|tag| tag.to_string()).collect(),
        layout: layout.to_string(),
    }
}

fn dated(year: i32, month: u32, day: u32, filename: &str) -> DatedName {
    DatedName { year, month, day, filename: filename.to_string() }
}

fn read_header(text: &str) -> HeaderBlock {
    let value: serde_yaml::Value = serde_yaml::from_str(text).unwrap();
    let tags = match value.get("tags") {
        Some(list) => list
            .as_sequence()
            .unwrap()
            .iter()
            .map(|tag| tag.as_str().unwrap().to_string())
            .collect(),
        None => Vec::new(),
    };
    HeaderBlock {
        title: value.get("title").unwrap().as_str().unwrap().to_string(),
        tags,
        layout: value.get("layout").unwrap().as_str().unwrap().to_string(),
    }
}

fn sample_post() -> Post {
    Post::assemble(
        "posts/2023-4-1-my-post.md",
        dated(2023, 4, 1, "my-post.md"),
        header("Hello", &["a", "b"], "post"),
        "Body **text**",
    )
    .unwrap()
}

#[test]
fn post_is_extracted_from_name_header_and_body() {
    let path = "posts/2023-4-1-my-post.md";
    let text = "---\ntitle: Hello\nlayout: post\n---\n\nBody **text**";
    let name = decode_filename("2023-4-1-my-post.md").unwrap();
    let parts = split_front_matter(text).unwrap();
    let header = read_header(parts.header);
    let post = Post::assemble(path, name, header, parts.body().unwrap()).unwrap();
    assert_eq!(post.title(), "Hello");
    assert_eq!(post.tags(), &Vec::<String>::new());
    assert_eq!(post.contents(), "<p>Body <strong>text</strong></p>\n");
    assert_eq!(post.layout(), "post");
    assert_eq!(post.filename(), "my-post");
    assert_eq!(post.year(), 2023);
    assert_eq!(post.month(), 4);
    assert_eq!(post.day(), 1);
    assert!(!post.show_year());
    assert_eq!(post.url(), "2023/04/01/my-post.html");
    assert_eq!(post.published(), "2023-04-01T00:00:00+00:00");
    assert_eq!(post.updated(), "2023-04-01T00:00:00+00:00");
}

#[test]
fn header_text_with_tags_is_read() {
    let text = "---\ntitle: Tagged\ntags:\n  - rust\n  - verus\nlayout: post\nextra: ignored\n---\nBody";
    let parts = split_front_matter(text).unwrap();
    let header = read_header(parts.header);
    assert_eq!(header, tagged_header());
    let post =
        Post::assemble("p", dated(2024, 2, 29, "tagged.md"), header, parts.body().unwrap()).unwrap();
    assert_eq!(post.tags(), &vec!["rust".to_string(), "verus".to_string()]);
    assert_eq!(post.url(), "2024/02/29/tagged.html");
}

fn tagged_header() -> HeaderBlock {
    header("Tagged", &["rust", "verus"], "post")
}

#[test]
fn wrong_layout_is_reported_for_a_post() {
    let made = Post::assemble(
        "posts/2023-4-1-my-post.md",
        dated(2023, 4, 1, "my-post.md"),
        header("Hello", &[], "wrongtag"),
        "Body",
    );
    assert_eq!(
        made,
        Err(ExtractError::UnexpectedLayout {
            expected: "post".to_string(),
            actual: "wrongtag".to_string(),
            path: "posts/2023-4-1-my-post.md".to_string(),
        })
    );
}

#[test]
fn layout_must_match_exactly() {
    for layout in ["", "Post", "post ", " post", "posts", "aboutme"] {
        let made = Post::assemble("p", dated(2023, 4, 1, "x.md"), header("t", &[], layout), "b");
        assert!(matches!(made, Err(ExtractError::UnexpectedLayout { .. })), "{layout}");
    }
    assert_eq!(check_layout(RecordKind::Post, "post", "p"), Ok(()));
    assert_eq!(check_layout(RecordKind::Page, "aboutme", "p"), Ok(()));
    assert_eq!(RecordKind::Post.layout(), "post");
    assert_eq!(RecordKind::Page.layout(), "aboutme");
}

#[test]
fn invalid_date_is_reported_for_a_post() {
    let made = Post::assemble("p", dated(2023, 13, 1, "x.md"), header("t", &[], "post"), "b");
    assert_eq!(made, Err(ExtractError::InvalidCalendarDate { year: 2023, month: 13, day: 1 }));
    let made = Post::assemble("p", dated(2023, 2, 29, "x.md"), header("t", &[], "post"), "b");
    assert_eq!(made, Err(ExtractError::InvalidCalendarDate { year: 2023, month: 2, day: 29 }));
}

#[test]
fn invalid_date_is_reported_before_wrong_layout() {
    let made = Post::assemble("p", dated(2023, 4, 31, "x.md"), header("t", &[], "wrongtag"), "b");
    assert_eq!(made, Err(ExtractError::InvalidCalendarDate { year: 2023, month: 4, day: 31 }));
}

#[test]
fn rendered_contents_are_taken_as_they_are() {
    let post = Post::from_rendered(
        "p",
        dated(2023, 4, 1, "x.md"),
        header("t", &["one"], "post"),
        "<p>ready</p>".to_string(),
    )
    .unwrap();
    assert_eq!(post.contents(), "<p>ready</p>");
    assert_eq!(post.title(), "t");
    assert_eq!(post.tags(), &vec!["one".to_string()]);
}

#[test]
fn set_updated_moves_updated_only() {
    let mut post = sample_post();
    let before = post.clone();
    post.set_updated(30);
    assert_eq!(post.updated(), "2023-04-01T00:00:30+00:00");
    assert_eq!(post.published(), "2023-04-01T00:00:00+00:00");
    assert_ne!(post.updated(), before.updated());
    assert_eq!(post.published(), before.published());
    assert_eq!(post.filename(), before.filename());
    assert_eq!(post.layout(), before.layout());
    assert_eq!(post.title(), before.title());
    assert_eq!(post.tags(), before.tags());
    assert_eq!(post.year(), before.year());
    assert_eq!(post.month(), before.month());
    assert_eq!(post.day(), before.day());
    assert_eq!(post.show_year(), before.show_year());
    assert_eq!(post.contents(), before.contents());
    assert_eq!(post.url(), before.url());
}

#[test]
fn set_updated_may_be_repeated() {
    let mut post = sample_post();
    post.set_updated(59);
    assert_eq!(post.updated(), "2023-04-01T00:00:59+00:00");
    post.set_updated(7);
    assert_eq!(post.updated(), "2023-04-01T00:00:07+00:00");
    post.set_updated(0);
    assert_eq!(post.updated(), post.published());
    assert_eq!(post, sample_post());
}

#[test]
fn show_year_can_be_flipped() {
    let mut post = sample_post();
    assert!(!post.show_year());
    post.set_show_year(true);
    assert!(post.show_year());
    assert_eq!(post.url(), "2023/04/01/my-post.html");
    post.set_show_year(false);
    assert_eq!(post, sample_post());
}

#[test]
fn post_url_is_zero_padded() {
    assert_eq!(post_url(2023, 4, 1, "my-post"), "2023/04/01/my-post.html");
    assert_eq!(post_url(2023, 12, 31, "x"), "2023/12/31/x.html");
    assert_eq!(post_url(5, 1, 2, "x"), "0005/01/02/x.html");
    assert_eq!(post_url(0, 0, 0, ""), "0000/00/00/.html");
    assert_eq!(post_url(12345, 123, 456, "x"), "12345/123/456/x.html");
    assert_eq!(post_url(-5, 1, 2, "x"), "-005/01/02/x.html");
    assert_eq!(post_url(-12345, 1, 2, "x"), "-12345/01/02/x.html");
    assert_eq!(
        post_url(i32::MIN, u32::MAX, u32::MAX, "x"),
        "-2147483648/4294967295/4294967295/x.html"
    );
    assert_eq!(post_url(i32::MAX, 10, 10, "x"), "2147483647/10/10/x.html");
}

#[test]
fn post_url_agrees_with_the_standard_formatter() {
    for year in [-262143, -1000, -999, -1, 0, 1, 9, 10, 99, 100, 999, 1000, 9999, 10000, 262142] {
        for number in [0u32, 1, 9, 10, 31, 99, 100] {
            assert_eq!(
                post_url(year, number, number, "slug"),
                format!("{:04}/{:02}/{:02}/{}.html", year, number, number, "slug")
            );
        }
    }
}

#[test]
fn post_url_takes_the_extension_off_the_slug() {
    let post = Post::assemble(
        "p",
        dated(2023, 1, 1, "v1.2-release.md"),
        header("t", &[], "post"),
        "b",
    )
    .unwrap();
    assert_eq!(post.filename(), "v1.2-release");
    assert_eq!(post.url(), "2023/01/01/v1.2-release.html");
    let post =
        Post::assemble("p", dated(2023, 1, 1, "plain"), header("t", &[], "post"), "b").unwrap();
    assert_eq!(post.filename(), "plain");
    assert_eq!(post.url(), "2023/01/01/plain.html");
}

#[test]
fn page_is_extracted_from_name_header_and_body() {
    let text = "---\ntitle: About me\nlayout: aboutme\ntags: [ignored]\n---\n# Hi\n";
    let parts = split_front_matter(text).unwrap();
    let header = read_header(parts.header);
    let page = StaticPage::assemble("pages/about.md", "about.md", header, parts.body().unwrap()).unwrap();
    assert_eq!(page.filename(), "about");
    assert_eq!(page.layout(), "aboutme");
    assert_eq!(page.title(), "About me");
    assert_eq!(page.url(), "about.html");
    assert_eq!(
        page.contents(),
        "<h1><a href=\"#hi\" aria-hidden=\"true\" class=\"anchor\" id=\"hi\"></a>Hi</h1>\n"
    );
    assert_eq!(page.clone(), page);
}

#[test]
fn wrong_layout_is_reported_for_a_page() {
    let made = StaticPage::assemble("pages/about.md", "about.md", header("t", &[], "post"), "b");
    assert_eq!(
        made,
        Err(ExtractError::UnexpectedLayout {
            expected: "aboutme".to_string(),
            actual: "post".to_string(),
            path: "pages/about.md".to_string(),
        })
    );
}

#[test]
fn page_url_is_the_bare_name_and_html() {
    assert_eq!(page_url("about"), "about.html");
    assert_eq!(page_url(""), ".html");
    let page = StaticPage::from_rendered("p", "index", header("t", &[], "aboutme"), String::new())
        .unwrap();
    assert_eq!(page.url(), "index.html");
    assert_eq!(page.contents(), "");
}
