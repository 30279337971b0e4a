//! Normalizes CJK full-width punctuation to half-width ASCII equivalents,
//! in plain text and in HTML markup.
//!
//! The conversion pipeline maps each character through a fixed table to a
//! stream of literal characters and spacing markers, then resolves every
//! marker into either a single space or nothing, so the result reads
//! naturally. A document rewriter applies the pipeline to every text node
//! of a parsed markup tree without disturbing tags, attributes or node
//! ordering.

pub mod dom;
pub mod html;
pub mod laws;
pub mod merge;
pub mod pipeline;
pub mod punct;
