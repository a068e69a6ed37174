//! The header block of a content file, once read, and the layout that each
//! kind of record asks of it.

use vstd::prelude::*;
use vstd::string::StringExecFns;
use crate::error::ExtractError;
use crate::text::same_text;

verus! {

/// What the header of a content file says. Reading it from the header's text
/// is the caller's part.
#[derive(Debug, Clone, PartialEq, Eq)]
pub struct HeaderBlock {
    pub title: String,
    /// In the order of the header; empty where the header names none.
    pub tags: Vec<String>,
    /// The kind of record that the file asks to be.
    pub layout: String,
}

/// The kinds of record.
#[derive(Debug, Clone, Copy, PartialEq, Eq, Structural)]
pub enum RecordKind {
    /// A dated post.
    Post,
    /// An undated page.
    Page,
}

impl RecordKind {
    /// The layout that a header must name for this kind of record.
    pub open spec fn layout_text(self) -> Seq<char> {
        match self {
            RecordKind::Post => seq!['p', 'o', 's', 't'],
            RecordKind::Page => seq!['a', 'b', 'o', 'u', 't', 'm', 'e'],
        }
    }

    /// The layout that a header must name for this kind of record.
    pub fn layout(self) -> (tag: &'static str)
        ensures
            tag@ == self.layout_text(),
    {
        proof {
            reveal_strlit("post");
            reveal_strlit("aboutme");
        }
        let tag = match self {
            RecordKind::Post => "post",
            RecordKind::Page => "aboutme",
        };
        assert(tag@ =~= self.layout_text());
        tag
    }
}

/// Holds a header's layout against the one that the kind of record asks for.
///
/// Fails with `UnexpectedLayout` where they differ; the error names both and
/// the file's path.
pub fn check_layout(kind: RecordKind, layout: &str, path: &str) -> (checked: Result<
    (),
    ExtractError,
>)
    ensures
        match checked {
            Ok(()) => layout@ == kind.layout_text(),
            Err(ExtractError::UnexpectedLayout { expected, actual, path: reported }) => {
                &&& layout@ != kind.layout_text()
                &&& expected@ == kind.layout_text()
                &&& actual@ == layout@
                &&& reported@ == path@
            },
            Err(_) => false,
        },
{
    let expected = kind.layout();
    if same_text(layout, expected) {
        Ok(())
    } else {
        Err(
            ExtractError::UnexpectedLayout {
                expected: String::from_str(expected),
                actual: String::from_str(layout),
                path: String::from_str(path),
            },
        )
    }
}

} // verus!
