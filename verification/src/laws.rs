//! What holds of the records, whatever file they were made from.

use vstd::prelude::*;
use crate::decimal::digit_char;
use crate::filename::DatedName;
use crate::header::HeaderBlock;
use crate::post::{after_update, is_page, is_post, post_record, PageView, PostView};
use crate::render::rendered;
use crate::timestamp::{
    lemma_timestamp_shape, lemma_timestamp_tells_seconds, timestamp_text, SECONDS_PER_MINUTE,
};
use crate::url::{html_suffix, lemma_post_url_shape};

verus! {

/// The address of a post is `YYYY/MM/DD/`, zero-padded, then the post's file
/// name and `.html`: character for character, in every year that has four
/// digits.
pub proof fn law_post_url_template(post: PostView)
    requires
        is_post(post),
        0 <= post.year <= 9999,
    ensures
        post.url == seq![
            digit_char(post.year / 1000),
            digit_char(post.year / 100 % 10),
            digit_char(post.year / 10 % 10),
            digit_char(post.year % 10),
            '/',
            digit_char(post.month / 10),
            digit_char(post.month % 10),
            '/',
            digit_char(post.day / 10),
            digit_char(post.day % 10),
            '/',
        ] + post.filename + html_suffix(),
{
    lemma_post_url_shape(post.year, post.month, post.day, post.filename);
}

/// The address of a page is its file name and `.html`.
pub proof fn law_page_url_template(page: PageView)
    requires
        is_page(page),
    ensures
        page.url == page.filename + html_suffix(),
{
}

/// Rendering is repeatable: the same markup gives the same HTML.
pub proof fn law_rendering_repeats(first: Seq<char>, second: Seq<char>)
    requires
        first == second,
    ensures
        rendered(first) == rendered(second),
{
}

/// A post that was just made is one, and its two timestamps agree.
pub proof fn law_fresh_post(name: DatedName, header: HeaderBlock, contents: Seq<char>)
    ensures
        post_record(name, header, contents).updated == post_record(name, header, contents).published,
        !post_record(name, header, contents).show_year,
{
}

/// Moving `updated` leaves a post a post and touches nothing else:
/// `published` least of all.
pub proof fn law_update_keeps_the_rest(post: PostView, seconds: int)
    requires
        is_post(post),
        0 <= seconds < SECONDS_PER_MINUTE,
    ensures
        is_post(after_update(post, seconds)),
        after_update(post, seconds).published == post.published,
        after_update(post, seconds) == (PostView {
            updated: after_update(post, seconds).updated,
            ..post
        }),
{
    let after = after_update(post, seconds);
    assert(after.updated == timestamp_text(
        after.year,
        after.month,
        after.day,
        seconds,
    ));
}

/// The new `updated` holds the seconds in its time of day: in a year of four
/// digits it reads `YYYY-MM-DDT00:00:SS+00:00`.
pub proof fn law_update_writes_seconds(post: PostView, seconds: int)
    requires
        is_post(post),
        0 <= post.year <= 9999,
        0 <= seconds < SECONDS_PER_MINUTE,
    ensures
        after_update(post, seconds).updated == seq![
            digit_char(post.year / 1000),
            digit_char(post.year / 100 % 10),
            digit_char(post.year / 10 % 10),
            digit_char(post.year % 10),
            '-',
            digit_char(post.month / 10),
            digit_char(post.month % 10),
            '-',
            digit_char(post.day / 10),
            digit_char(post.day % 10),
            'T',
            '0',
            '0',
            ':',
            '0',
            '0',
            ':',
            digit_char(seconds / 10),
            digit_char(seconds % 10),
            '+',
            '0',
            '0',
            ':',
            '0',
            '0',
        ],
{
    lemma_timestamp_shape(post.year, post.month, post.day, seconds);
}

/// Different seconds give different timestamps: an update to another second
/// than the one that `updated` holds changes `updated`.
pub proof fn law_update_changes_updated(post: PostView, held: int, seconds: int)
    requires
        0 <= held < SECONDS_PER_MINUTE,
        0 <= seconds < SECONDS_PER_MINUTE,
        post.updated == timestamp_text(
            post.year,
            post.month,
            post.day,
            held,
        ),
        held != seconds,
    ensures
        after_update(post, seconds).updated != post.updated,
{
    if after_update(post, seconds).updated == post.updated {
        lemma_timestamp_tells_seconds(
            post.year,
            post.month,
            post.day,
            held,
            seconds,
        );
    }
}

} // verus!
