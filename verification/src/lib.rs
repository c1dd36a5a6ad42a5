//! Routes the blocks of a notebook document to per-kind output buffers.
//!
//! A document is an ordered sequence of blocks, each tagged as code,
//! markdown or other, together with a language descriptor. Routing walks
//! the blocks line by line and appends each line, possibly transformed,
//! to one of four destinations: primary code, shell, markdown, unknown.

pub mod classify;
pub mod laws;
pub mod model;
pub mod router;
pub mod text;
pub mod unicode;

