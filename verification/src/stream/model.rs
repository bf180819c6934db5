//! What a newline-delimited answer holds: its lines, and the items that the
//! lines give.

use vstd::prelude::*;
use vstd::utf8::{decode_utf8, valid_utf8};
use crate::error::{UcpError, UcpErrorView};
use crate::text::is_blank;

verus! {

/// The byte that ends a line.
pub const NEWLINE: u8 = 10;

/// What the decoder hands out for one line: the text of a record, still to be
/// parsed as JSON, or the failure to decode the line.
pub type StreamItem = Result<String, UcpError>;

/// An item with its texts as sequences of characters.
pub type StreamItemView = Result<Seq<char>, UcpErrorView>;

pub open spec fn item_view(item: StreamItem) -> StreamItemView {
    match item {
        Ok(text) => Ok(text@),
        Err(error) => Err(error@),
    }
}

pub open spec fn items_view(items: Seq<StreamItem>) -> Seq<StreamItemView> {
    items.map_values(|item: StreamItem| item_view(item))
}

/// Whether `bytes` holds no newline.
pub open spec fn newline_free(bytes: Seq<u8>) -> bool {
    forall|i: int| 0 <= i < bytes.len() ==> #[trigger] bytes[i] != NEWLINE
}

/// The bytes after the last newline of `bytes`: the line that has not ended
/// yet. All of `bytes` where it holds no newline.
pub open spec fn unfinished_line(bytes: Seq<u8>) -> Seq<u8>
    decreases bytes.len(),
{
    if bytes.len() == 0 {
        bytes
    } else if bytes.last() == NEWLINE {
        Seq::empty()
    } else {
        unfinished_line(bytes.drop_last()).push(bytes.last())
    }
}

/// The lines of `bytes` that a newline ends, in order, each without its
/// newline. Every newline ends the line that was unfinished before it.
pub open spec fn complete_lines(bytes: Seq<u8>) -> Seq<Seq<u8>>
    decreases bytes.len(),
{
    if bytes.len() == 0 {
        Seq::empty()
    } else if bytes.last() == NEWLINE {
        complete_lines(bytes.drop_last()).push(unfinished_line(bytes.drop_last()))
    } else {
        complete_lines(bytes.drop_last())
    }
}

/// The failure that stands for a line whose bytes are not well-formed UTF-8.
pub open spec fn undecodable_line() -> UcpErrorView {
    UcpErrorView::JsonError("Invalid UTF-8 in response"@)
}

/// The items of one complete line, given without its newline: none where the
/// line is blank, else one.
pub open spec fn line_items(line: Seq<u8>) -> Seq<StreamItemView> {
    if !valid_utf8(line) {
        seq![Err(undecodable_line())]
    } else if is_blank(decode_utf8(line)) {
        Seq::empty()
    } else {
        seq![Ok(decode_utf8(line))]
    }
}

/// The items of `lines`, line after line.
pub open spec fn items_of_lines(lines: Seq<Seq<u8>>) -> Seq<StreamItemView>
    decreases lines.len(),
{
    if lines.len() == 0 {
        Seq::empty()
    } else {
        items_of_lines(lines.drop_last()) + line_items(lines.last())
    }
}

/// The items that the complete lines of `bytes` give.
pub open spec fn decoded(bytes: Seq<u8>) -> Seq<StreamItemView> {
    items_of_lines(complete_lines(bytes))
}

/// The bytes of each chunk.
pub open spec fn chunks_view(chunks: Seq<Vec<u8>>) -> Seq<Seq<u8>> {
    chunks.map_values(|chunk: Vec<u8>| chunk@)
}

/// The bytes of `chunks`, one chunk after the other.
pub open spec fn joined(chunks: Seq<Seq<u8>>) -> Seq<u8>
    decreases chunks.len(),
{
    if chunks.len() == 0 {
        Seq::empty()
    } else {
        joined(chunks.drop_last()) + chunks.last()
    }
}

/// The bytes of `lines`, each line followed by a newline.
pub open spec fn terminated(lines: Seq<Seq<u8>>) -> Seq<u8>
    decreases lines.len(),
{
    if lines.len() == 0 {
        Seq::empty()
    } else {
        terminated(lines.drop_last()) + lines.last().push(NEWLINE)
    }
}

/// Whether no line of `lines` holds a newline.
pub open spec fn all_newline_free(lines: Seq<Seq<u8>>) -> bool {
    forall|i: int| 0 <= i < lines.len() ==> newline_free(#[trigger] lines[i])
}

/// Whether `line` is the text of a record: well-formed UTF-8 that is not
/// blank.
pub open spec fn is_record_line(line: Seq<u8>) -> bool {
    valid_utf8(line) && !is_blank(decode_utf8(line))
}

/// The items of lines that are all texts of records: the texts, in the order
/// of the lines.
pub open spec fn records_of(lines: Seq<Seq<u8>>) -> Seq<StreamItemView> {
    Seq::new(lines.len(), |i: int| Ok(decode_utf8(lines[i])))
}

/// What a decoder that starts empty keeps after it has taken `chunks` in
/// order.
pub open spec fn buffered_after(chunks: Seq<Seq<u8>>) -> Seq<u8>
    decreases chunks.len(),
{
    if chunks.len() == 0 {
        Seq::empty()
    } else {
        unfinished_line(buffered_after(chunks.drop_last()) + chunks.last())
    }
}

/// All the items that a decoder that starts empty hands out while it takes
/// `chunks` in order.
pub open spec fn items_after(chunks: Seq<Seq<u8>>) -> Seq<StreamItemView>
    decreases chunks.len(),
{
    if chunks.len() == 0 {
        Seq::empty()
    } else {
        items_after(chunks.drop_last()) + decoded(
            buffered_after(chunks.drop_last()) + chunks.last(),
        )
    }
}

/// The view of the item that a line gave, if it gave one.
pub open spec fn optional_item_view(item: Option<StreamItem>) -> Seq<StreamItemView> {
    match item {
        Some(item) => seq![item_view(item)],
        None => Seq::empty(),
    }
}

} // verus!
