//! The records: a dated post and an undated page.

use vstd::prelude::*;
use vstd::string::StringExecFns;
use crate::error::ExtractError;
use crate::filename::DatedName;
use crate::header::{check_layout, HeaderBlock, RecordKind};
use crate::render::{render_markup, rendered};
use crate::timestamp::{build_post_time, is_calendar_date, timestamp_text, SECONDS_PER_MINUTE};
use crate::url::{page_url, page_url_text, post_url, post_url_text, stem_text, strip_extension};

verus! {

/// A post as plain values.
pub struct PostView {
    pub filename: Seq<char>,
    pub layout: Seq<char>,
    pub title: Seq<char>,
    pub tags: Seq<Seq<char>>,
    pub year: int,
    pub show_year: bool,
    pub month: int,
    pub day: int,
    pub contents: Seq<char>,
    pub url: Seq<char>,
    pub published: Seq<char>,
    pub updated: Seq<char>,
}

/// What holds of every post: its date is a day of the calendar, its layout is
/// the one of posts, its address follows from date and file name, and both
/// timestamps lie in the first minute of its day, `published` at midnight.
pub open spec fn is_post(post: PostView) -> bool {
    &&& is_calendar_date(post.year, post.month, post.day)
    &&& post.layout == RecordKind::Post.layout_text()
    &&& post.url == post_url_text(
        post.year,
        post.month,
        post.day,
        post.filename,
    )
    &&& post.published == timestamp_text(post.year, post.month, post.day, 0)
    &&& exists|seconds: int|
        0 <= seconds < SECONDS_PER_MINUTE && post.updated == #[trigger] timestamp_text(
            post.year,
            post.month,
            post.day,
            seconds,
        )
}

/// The post that a file gives whose name decodes to `name`, whose header says
/// `header` and whose body renders to `contents`.
pub open spec fn post_record(name: DatedName, header: HeaderBlock, contents: Seq<char>) -> PostView {
    let midnight = timestamp_text(name.year as int, name.month as int, name.day as int, 0);
    PostView {
        filename: stem_text(name.filename@),
        layout: header.layout@,
        title: header.title@,
        tags: header.tags.deep_view(),
        year: name.year as int,
        show_year: false,
        month: name.month as int,
        day: name.day as int,
        contents,
        url: post_url_text(
            name.year as int,
            name.month as int,
            name.day as int,
            stem_text(name.filename@),
        ),
        published: midnight,
        updated: midnight,
    }
}

/// The post after `updated` has moved to `seconds` past midnight of its day.
pub open spec fn after_update(post: PostView, seconds: int) -> PostView {
    PostView {
        updated: timestamp_text(post.year, post.month, post.day, seconds),
        ..post
    }
}

/// A dated post.
#[derive(Debug, PartialEq, Eq)]
pub struct Post {
    filename: String,
    layout: String,
    title: String,
    tags: Vec<String>,
    year: i32,
    show_year: bool,
    month: u32,
    day: u32,
    contents: String,
    url: String,
    published: String,
    updated: String,
}

impl View for Post {
    type V = PostView;

    closed spec fn view(&self) -> PostView {
        PostView {
            filename: self.filename@,
            layout: self.layout@,
            title: self.title@,
            tags: self.tags.deep_view(),
            year: self.year as int,
            show_year: self.show_year,
            month: self.month as int,
            day: self.day as int,
            contents: self.contents@,
            url: self.url@,
            published: self.published@,
            updated: self.updated@,
        }
    }
}

impl Post {
    /// Every post is one: see `is_post`.
    #[verifier::type_invariant]
    pub open spec fn well_formed(self) -> bool {
        is_post(self@)
    }

    /// Makes the post of a file from its decoded name, its header and its
    /// rendered body. `path` is only reported, in the error.
    ///
    /// Fails with `InvalidCalendarDate` where the name's date is no day of the
    /// calendar, and else with `UnexpectedLayout` where the header does not
    /// name the layout of posts.
    pub fn from_rendered(path: &str, name: DatedName, header: HeaderBlock, contents: String) -> (made:
        Result<Post, ExtractError>)
        ensures
            match made {
                Ok(post) => {
                    &&& is_calendar_date(name.year as int, name.month as int, name.day as int)
                    &&& header.layout@ == RecordKind::Post.layout_text()
                    &&& post@ == post_record(name, header, contents@)
                },
                Err(ExtractError::InvalidCalendarDate { year, month, day }) => {
                    &&& !is_calendar_date(name.year as int, name.month as int, name.day as int)
                    &&& year == name.year
                    &&& month == name.month
                    &&& day == name.day
                },
                Err(ExtractError::UnexpectedLayout { expected, actual, path: reported }) => {
                    &&& is_calendar_date(name.year as int, name.month as int, name.day as int)
                    &&& header.layout@ != RecordKind::Post.layout_text()
                    &&& expected@ == RecordKind::Post.layout_text()
                    &&& actual@ == header.layout@
                    &&& reported@ == path@
                },
                Err(_) => false,
            },
    {
        let published = match build_post_time(name.year, name.month, name.day, 0) {
            Ok(written) => written,
            Err(error) => {
                return Err(error);
            },
        };
        match check_layout(RecordKind::Post, header.layout.as_str(), path) {
            Ok(()) => {},
            Err(error) => {
                return Err(error);
            },
        }
        let bare = strip_extension(name.filename.as_str());
        let url = post_url(name.year, name.month, name.day, bare);
        let updated = published.clone();
        let filename = String::from_str(bare);
        assert(updated@ == timestamp_text(
            name.year as int,
            name.month as int,
            name.day as int,
            0,
        ));
        Ok(
            Post {
                filename,
                layout: header.layout,
                title: header.title,
                tags: header.tags,
                year: name.year,
                show_year: false,
                month: name.month,
                day: name.day,
                contents,
                url,
                published,
                updated,
            },
        )
    }

    /// Makes the post of a file from its decoded name, its header and its
    /// body markup, which it renders. It fails as `from_rendered` does.
    pub fn assemble(path: &str, name: DatedName, header: HeaderBlock, markup: &str) -> (made:
        Result<Post, ExtractError>)
        ensures
            match made {
                Ok(post) => {
                    &&& is_calendar_date(name.year as int, name.month as int, name.day as int)
                    &&& header.layout@ == RecordKind::Post.layout_text()
                    &&& post@ == post_record(name, header, rendered(markup@))
                },
                Err(ExtractError::InvalidCalendarDate { year, month, day }) => {
                    &&& !is_calendar_date(name.year as int, name.month as int, name.day as int)
                    &&& year == name.year
                    &&& month == name.month
                    &&& day == name.day
                },
                Err(ExtractError::UnexpectedLayout { expected, actual, path: reported }) => {
                    &&& is_calendar_date(name.year as int, name.month as int, name.day as int)
                    &&& header.layout@ != RecordKind::Post.layout_text()
                    &&& expected@ == RecordKind::Post.layout_text()
                    &&& actual@ == header.layout@
                    &&& reported@ == path@
                },
                Err(_) => false,
            },
    {
        let contents = render_markup(markup);
        Post::from_rendered(path, name, header, contents)
    }

    /// Moves `updated` to `seconds` past midnight of the post's day. Nothing
    /// else changes.
    pub fn set_updated(&mut self, seconds: u32)
        requires
            seconds < SECONDS_PER_MINUTE,
        ensures
            final(self)@ == after_update(old(self)@, seconds as int),
    {
        proof {
            use_type_invariant(&*self);
        }
        match build_post_time(self.year, self.month, self.day, seconds) {
            Ok(written) => {
                self.updated = written;
            },
            Err(_) => {},
        }
    }

    /// Sets whether the year is shown with the post. Nothing else changes.
    pub fn set_show_year(&mut self, show: bool)
        ensures
            final(self)@ == (PostView { show_year: show, ..old(self)@ }),
    {
        proof {
            use_type_invariant(&*self);
            let before = self@;
            let seconds = choose|seconds: int|
                0 <= seconds < SECONDS_PER_MINUTE && before.updated == #[trigger] timestamp_text(
                    before.year,
                    before.month,
                    before.day,
                    seconds,
                );
            let after = PostView { show_year: show, ..before };
            assert(after.updated == timestamp_text(
                after.year,
                after.month,
                after.day,
                seconds,
            ));
        }
        self.show_year = show;
    }

    /// The file name without date and extension.
    pub fn filename(&self) -> (value: &str)
        ensures
            value@ == self@.filename,
    {
        self.filename.as_str()
    }

    /// The layout that the header named.
    pub fn layout(&self) -> (value: &str)
        ensures
            value@ == self@.layout,
    {
        self.layout.as_str()
    }

    /// The title that the header gave.
    pub fn title(&self) -> (value: &str)
        ensures
            value@ == self@.title,
    {
        self.title.as_str()
    }

    /// The tags of the header, in its order.
    pub fn tags(&self) -> (value: &Vec<String>)
        ensures
            value.deep_view() == self@.tags,
    {
        &self.tags
    }

    /// The year of the post's day.
    pub fn year(&self) -> (value: i32)
        ensures
            value == self@.year,
    {
        self.year
    }

    /// Whether the year is shown with the post.
    pub fn show_year(&self) -> (value: bool)
        ensures
            value == self@.show_year,
    {
        self.show_year
    }

    /// The month of the post's day.
    pub fn month(&self) -> (value: u32)
        ensures
            value == self@.month,
    {
        self.month
    }

    /// The day of the month.
    pub fn day(&self) -> (value: u32)
        ensures
            value == self@.day,
    {
        self.day
    }

    /// The body as HTML.
    pub fn contents(&self) -> (value: &str)
        ensures
            value@ == self@.contents,
    {
        self.contents.as_str()
    }

    /// The address of the post.
    pub fn url(&self) -> (value: &str)
        ensures
            value@ == self@.url,
    {
        self.url.as_str()
    }

    /// Midnight UTC of the post's day.
    pub fn published(&self) -> (value: &str)
        ensures
            value@ == self@.published,
    {
        self.published.as_str()
    }

    /// When the post was last changed: `published`, until `set_updated` moves it.
    pub fn updated(&self) -> (value: &str)
        ensures
            value@ == self@.updated,
    {
        self.updated.as_str()
    }
}

impl Clone for Post {
    fn clone(&self) -> (copy: Post)
        ensures
            copy@ == self@,
    {
        proof {
            use_type_invariant(self);
        }
        Post {
            filename: self.filename.clone(),
            layout: self.layout.clone(),
            title: self.title.clone(),
            tags: self.tags.clone(),
            year: self.year,
            show_year: self.show_year,
            month: self.month,
            day: self.day,
            contents: self.contents.clone(),
            url: self.url.clone(),
            published: self.published.clone(),
            updated: self.updated.clone(),
        }
    }
}

/// A page as plain values.
pub struct PageView {
    pub filename: Seq<char>,
    pub layout: Seq<char>,
    pub title: Seq<char>,
    pub contents: Seq<char>,
    pub url: Seq<char>,
}

/// What holds of every page: its layout is the one of pages, and its address
/// follows from its file name.
pub open spec fn is_page(page: PageView) -> bool {
    &&& page.layout == RecordKind::Page.layout_text()
    &&& page.url == page_url_text(page.filename)
}

/// The page that a file named `name` gives whose header says `header` and
/// whose body renders to `contents`.
pub open spec fn page_record(name: Seq<char>, header: HeaderBlock, contents: Seq<char>) -> PageView {
    PageView {
        filename: stem_text(name),
        layout: header.layout@,
        title: header.title@,
        contents,
        url: page_url_text(stem_text(name)),
    }
}

/// An undated page. It never changes once made.
#[derive(Debug, PartialEq, Eq)]
pub struct StaticPage {
    filename: String,
    layout: String,
    title: String,
    contents: String,
    url: String,
}

impl View for StaticPage {
    type V = PageView;

    closed spec fn view(&self) -> PageView {
        PageView {
            filename: self.filename@,
            layout: self.layout@,
            title: self.title@,
            contents: self.contents@,
            url: self.url@,
        }
    }
}

impl StaticPage {
    /// Every page is one: see `is_page`.
    #[verifier::type_invariant]
    pub open spec fn well_formed(self) -> bool {
        is_page(self@)
    }

    /// Makes the page of a file from its name, its header and its rendered
    /// body; the header's tags are left aside. `path` is only reported, in the
    /// error.
    ///
    /// Fails with `UnexpectedLayout` where the header does not name the layout
    /// of pages.
    pub fn from_rendered(path: &str, name: &str, header: HeaderBlock, contents: String) -> (made:
        Result<StaticPage, ExtractError>)
        ensures
            match made {
                Ok(page) => {
                    &&& header.layout@ == RecordKind::Page.layout_text()
                    &&& page@ == page_record(name@, header, contents@)
                },
                Err(ExtractError::UnexpectedLayout { expected, actual, path: reported }) => {
                    &&& header.layout@ != RecordKind::Page.layout_text()
                    &&& expected@ == RecordKind::Page.layout_text()
                    &&& actual@ == header.layout@
                    &&& reported@ == path@
                },
                Err(_) => false,
            },
    {
        match check_layout(RecordKind::Page, header.layout.as_str(), path) {
            Ok(()) => {},
            Err(error) => {
                return Err(error);
            },
        }
        let bare = strip_extension(name);
        let url = page_url(bare);
        Ok(
            StaticPage {
                filename: String::from_str(bare),
                layout: header.layout,
                title: header.title,
                contents,
                url,
            },
        )
    }

    /// Makes the page of a file from its name, its header and its body markup,
    /// which it renders. It fails as `from_rendered` does.
    pub fn assemble(path: &str, name: &str, header: HeaderBlock, markup: &str) -> (made: Result<
        StaticPage,
        ExtractError,
    >)
        ensures
            match made {
                Ok(page) => {
                    &&& header.layout@ == RecordKind::Page.layout_text()
                    &&& page@ == page_record(name@, header, rendered(markup@))
                },
                Err(ExtractError::UnexpectedLayout { expected, actual, path: reported }) => {
                    &&& header.layout@ != RecordKind::Page.layout_text()
                    &&& expected@ == RecordKind::Page.layout_text()
                    &&& actual@ == header.layout@
                    &&& reported@ == path@
                },
                Err(_) => false,
            },
    {
        let contents = render_markup(markup);
        StaticPage::from_rendered(path, name, header, contents)
    }

    /// The file name without its extension.
    pub fn filename(&self) -> (value: &str)
        ensures
            value@ == self@.filename,
    {
        self.filename.as_str()
    }

    /// The layout that the header named.
    pub fn layout(&self) -> (value: &str)
        ensures
            value@ == self@.layout,
    {
        self.layout.as_str()
    }

    /// The title that the header gave.
    pub fn title(&self) -> (value: &str)
        ensures
            value@ == self@.title,
    {
        self.title.as_str()
    }

    /// The body as HTML.
    pub fn contents(&self) -> (value: &str)
        ensures
            value@ == self@.contents,
    {
        self.contents.as_str()
    }

    /// The address of the page.
    pub fn url(&self) -> (value: &str)
        ensures
            value@ == self@.url,
    {
        self.url.as_str()
    }
}

impl Clone for StaticPage {
    fn clone(&self) -> (copy: StaticPage)
        ensures
            copy@ == self@,
    {
        proof {
            use_type_invariant(self);
        }
        StaticPage {
            filename: self.filename.clone(),
            layout: self.layout.clone(),
            title: self.title.clone(),
            contents: self.contents.clone(),
            url: self.url.clone(),
        }
    }
}

} // verus!
