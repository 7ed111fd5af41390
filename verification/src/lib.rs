//! Extraction of a link graph from WAT (Web ARChive metadata) lines.
//!
//! Each line of a WAT file is either a JSON object describing one crawled
//! page or something else (an envelope line, a blank line).  For every line
//! of the first kind the library recovers the page's record identifier, its
//! target URL and the list of its outbound links, and assembles them into
//! one [`record::PageRecord`].

pub mod assemble;
pub mod decode;
pub mod document;
pub mod extract;
pub mod fraction;
pub mod guarantees;
pub mod pattern;
pub mod pipeline;
pub mod prefilter;
pub mod record;
pub mod statement;
