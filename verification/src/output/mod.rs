//! What the command line shows.

pub mod json;
pub mod presenter;
pub mod presenter_laws;
pub mod text;
pub mod timeline_laws;
