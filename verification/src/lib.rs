//! Text, image and request logic of a reading aid that extracts text from photos.
pub mod text;
pub mod filename;
pub mod encoding;
pub mod imaging;
pub mod processing;
pub mod requests;
pub mod download;
pub mod setup;
pub mod runner;

pub use filename::{filename_from_url, sanitize_filename};
