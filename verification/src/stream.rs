//! Reassembling the lines of a newline-delimited answer from the chunks in
//! which it arrives.
//!
//! The answer is a sequence of bytes in which every record stands on a line
//! of its own. The transport cuts it into chunks wherever it likes. A
//! [`LineDecoder`] takes the chunks in order, keeps the bytes of the line
//! that is still unfinished, and hands out one item for each line that a
//! chunk completes: the text of the record, or the failure to decode it.
//! A blank line gives no item.

pub mod decoder;
pub mod laws;
pub mod model;

pub use decoder::{decode_chunks, decode_line, LineDecoder};
pub use model::{StreamItem, StreamItemView, NEWLINE};
