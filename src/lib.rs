//! Program metadata for a radio network: markup-to-text conversion of
//! program descriptions, typed program records built from flattened feed
//! entries, and roster-based artist matching.

pub mod text;
pub mod markup;
pub mod fields;
pub mod time;
pub mod program;
pub mod matcher;
pub mod feed;
