//! The tag taxonomy and the flattened token model of an HTML-like document.

pub mod flat;
pub mod tag;
pub mod text;

pub use flat::{Element, ElementView, FlatHtml};
pub use tag::{to_html_tag, TagKind};
