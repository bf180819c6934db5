//! The decoder that takes the chunks of an answer one by one.

use vstd::prelude::*;
use crate::error::{UcpError, UcpErrorView};
use crate::stream::laws::{
    lemma_chunking, lemma_newline_free_is_unfinished, lemma_next_byte,
    lemma_unfinished_line_newline_free,
};
use crate::stream::model::{
    buffered_after, chunks_view, decoded, item_view, items_after, items_view, joined,
    line_items, newline_free, optional_item_view, unfinished_line, StreamItem, NEWLINE,
};
use crate::text::{string_from_utf8, text_is_blank};

verus! {

/// Keeps the bytes of the line that has not ended yet, between one chunk and
/// the next.
#[derive(Debug)]
pub struct LineDecoder {
    buffer: Vec<u8>,
}

impl LineDecoder {
    /// The bytes that were received and belong to no complete line yet.
    pub closed spec fn buffered(&self) -> Seq<u8> {
        self.buffer@
    }

    /// The buffer is drained up to every newline, so it holds none.
    #[verifier::type_invariant]
    spec fn drained(&self) -> bool {
        newline_free(self.buffer@)
    }

    /// A decoder that has received nothing.
    pub fn new() -> (decoder: LineDecoder)
        ensures
            decoder.buffered() == Seq::<u8>::empty(),
    {
        LineDecoder { buffer: Vec::new() }
    }

    /// Takes the next chunk. Returns the items of the lines that the chunk
    /// completes, in the order of the lines, and keeps what follows the last
    /// newline for the next chunk.
    pub fn push_chunk(&mut self, chunk: &[u8]) -> (items: Vec<StreamItem>)
        ensures
            items_view(items@) == decoded(old(self).buffered() + chunk@),
            items@.len() == decoded(old(self).buffered() + chunk@).len(),
            final(self).buffered() == unfinished_line(old(self).buffered() + chunk@),
            newline_free(final(self).buffered()),
    {
        let ghost before = self.buffer@;
        proof {
            use_type_invariant(&*self);
            lemma_newline_free_is_unfinished(before);
            assert(before + chunk@.take(0) == before);
        }
        let mut pending: Vec<u8> = Vec::new();
        std::mem::swap(&mut pending, &mut self.buffer);
        let mut items: Vec<StreamItem> = Vec::new();
        let mut i: usize = 0;
        while i < chunk.len()
            invariant
                0 <= i <= chunk.len(),
                pending@ == unfinished_line(before + chunk@.take(i as int)),
                items_view(items@) == decoded(before + chunk@.take(i as int)),
            decreases chunk.len() - i,
        {
            let byte = chunk[i];
            proof {
                let seen = before + chunk@.take(i as int);
                assert(before + chunk@.take(i + 1) == seen.push(byte));
                lemma_next_byte(seen, byte);
            }
            if byte == NEWLINE {
                let mut line: Vec<u8> = Vec::new();
                std::mem::swap(&mut line, &mut pending);
                match decode_line(line) {
                    Some(item) => {
                        proof {
                            assert(items_view(items@.push(item)) == items_view(items@).push(
                                item_view(item),
                            ));
                        }
                        items.push(item);
                    },
                    None => {},
                }
            } else {
                pending.push(byte);
            }
            i += 1;
        }
        proof {
            assert(chunk@.take(chunk.len() as int) == chunk@);
            lemma_unfinished_line_newline_free(before + chunk@);
        }
        self.buffer = pending;
        assert(items_view(items@).len() == items@.len());
        items
    }

    /// Ends the stream where the answer has ended. The bytes of the
    /// unfinished line are dropped and give no item; their number is
    /// returned.
    pub fn finish(self) -> (dropped: usize)
        ensures
            dropped == self.buffered().len(),
    {
        self.buffer.len()
    }

    /// Ends the stream where the transport has failed. Returns the failure
    /// that closes the stream; the bytes of the unfinished line are dropped.
    pub fn fail(self, failure: String) -> (item: StreamItem)
        ensures
            item_view(item) == Err::<Seq<char>, UcpErrorView>(UcpErrorView::HttpError(failure@)),
    {
        Err(UcpError::HttpError(failure))
    }
}

/// Decodes one complete line, given without its newline.
pub fn decode_line(line: Vec<u8>) -> (item: Option<StreamItem>)
    ensures
        optional_item_view(item) == line_items(line@),
{
    match string_from_utf8(line) {
        None => Some(Err(UcpError::JsonError("Invalid UTF-8 in response".to_string()))),
        Some(text) => {
            if text_is_blank(text.as_str()) {
                None
            } else {
                Some(Ok(text))
            }
        },
    }
}

/// Decodes an answer that is at hand as a whole, cut into `chunks`. The
/// items are those of the bytes that the chunks hold together: where the
/// answer is cut does not matter. The unfinished last line gives no item.
pub fn decode_chunks(chunks: &[Vec<u8>]) -> (items: Vec<StreamItem>)
    ensures
        items_view(items@) == decoded(joined(chunks_view(chunks@))),
        items@.len() == decoded(joined(chunks_view(chunks@))).len(),
{
    let ghost all = chunks_view(chunks@);
    let mut decoder = LineDecoder::new();
    let mut items: Vec<StreamItem> = Vec::new();
    let mut i: usize = 0;
    while i < chunks.len()
        invariant
            0 <= i <= chunks.len(),
            all == chunks_view(chunks@),
            decoder.buffered() == buffered_after(all.take(i as int)),
            items_view(items@) == items_after(all.take(i as int)),
        decreases chunks.len() - i,
    {
        let ghost earlier = items_view(items@);
        let mut found = decoder.push_chunk(chunks[i].as_slice());
        proof {
            let seen = all.take(i + 1);
            assert(seen.drop_last() == all.take(i as int));
            assert(seen.last() == chunks[i as int]@);
            assert(items_view(items@ + found@) == earlier + items_view(found@));
        }
        items.append(&mut found);
        i += 1;
    }
    proof {
        assert(all.take(chunks.len() as int) == all);
        lemma_chunking(all);
    }
    decoder.finish();
    assert(items_view(items@).len() == items@.len());
    items
}

} // verus!
