//! Extraction of post records from profile page markup, and the decisions
//! that drive fetching, decoding and rendering of each post's photo.

pub mod post;
pub mod page;
pub mod extract;
pub mod photo;
pub mod run;
