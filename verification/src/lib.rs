//! Font-aware text extraction from parsed PDF page content.
//!
//! The core of the library is verified: decoding raw character codes through a
//! font's code-to-Unicode table, tracking which font is selected while a page's
//! operator sequence is walked, and concatenating the decoded fragments. The
//! `pdf` crate supplies the parsed document, pages, fonts and operators behind
//! a small set of trusted wrappers.

pub mod cache;
pub mod cmap;
pub mod decode;
pub mod extract;
pub mod page;
pub mod pdfio;
