//! Conversion of Org outline documents into Typst documents.
//!
//! The heart of the library is a single left-to-right pass over the source
//! text (`convert`): at each position the recognizers of `rules` are tried in
//! a fixed order, the first one that matches replaces its span, and text that
//! no recognizer matches is copied unchanged. The scan then goes on after
//! the replaced span, so a construct is recognized anywhere the scan stands,
//! each occurrence on its own: a second title line, for one, gives a second
//! setup call.
pub mod config;
pub mod laws;
pub mod convert;
pub mod rules;
pub mod text;
