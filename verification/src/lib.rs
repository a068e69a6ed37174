//! Extraction of post and page records from content files that carry a
//! front-matter header: every step that decides something is verified here,
//! and callers supply the file's name and text.

pub mod decimal;
pub mod error;
pub mod filename;
pub mod front_matter;
pub mod header;
pub mod laws;
pub mod post;
pub mod render;
pub mod text;
pub mod timestamp;
pub mod url;

pub use error::ExtractError;
pub use filename::{decode_filename, DatedName};
pub use front_matter::{split_front_matter, FrontMatter};
pub use header::{check_layout, HeaderBlock, RecordKind};
pub use post::{Post, StaticPage};
pub use render::{render_markup, RenderConfig};
pub use timestamp::build_post_time;
pub use url::{page_url, post_url, strip_extension};
