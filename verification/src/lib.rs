//! Parsing and validation of arXiv categories, article identifiers and stamps.
//!
//! Every value that borrows text is described in contracts by a view that
//! holds the borrowed text as a sequence of characters.

pub mod text;
pub mod link;
pub mod order;
pub mod archive;
pub mod group;
pub mod article_version;
pub mod category_id;
pub mod article_id;
pub mod date;
pub mod stamp;

pub use crate::archive::Archive;
pub use crate::article_id::parser::{parse_numbervv, ArticleIdParser, ParseOk};
pub use crate::article_id::v1::ArticleIdV1;
pub use crate::article_id::v2::ArticleIdV2;
pub use crate::article_id::{ArticleId, ArticleIdError, ArticleIdErrorKind, ArticleIdScheme};
pub use crate::article_version::ArticleVersion;
pub use crate::category_id::{CategoryId, CategoryIdError};
pub use crate::date::Date;
pub use crate::group::Group;
pub use crate::stamp::{Stamp, StampError};
