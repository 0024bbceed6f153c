//! Link previews: the title, description, image and domain that a page
//! declares about itself, resolved from its markup.

pub mod html;
pub mod preview;
pub mod profiles;
pub mod providers;
pub mod text;
pub mod urls;

pub use preview::{html_from_bytes, preview_from_bytes, LinkPreview};
