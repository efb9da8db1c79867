//! Note-management library: a heading-aware outline re-indenter and the
//! pure logic behind importing files (and PDF text) into timestamped,
//! metadata-tagged note files.

pub mod fileinfo;
pub mod import;
pub mod indent;
pub mod pdf_import;
pub mod strutil;
pub mod timestamp;
