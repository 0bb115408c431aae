//! State and rules of an interactive media-file renamer: filename tokens and
//! extensions, the five editable name fields and the name they compose, the
//! directory listing, and the controller that drives a rename.

pub mod text;
pub mod fields;
pub mod listing;
pub mod controller;
