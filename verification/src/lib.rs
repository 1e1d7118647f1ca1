//! Planning logic for harvesting the images of a single web page:
//! resolving image references against the page's URL, sanitizing
//! filenames, and deriving the per-site destination paths.

pub mod text;
pub mod sanitize;
pub mod resolve;
pub mod paths;
pub mod host;
pub mod html;
pub mod harvest;
