//! What holds of the lines and items of an answer, however it is cut into
//! chunks.

use vstd::prelude::*;
use vstd::utf8::{decode_utf8, valid_utf8};
use crate::error::UcpErrorView;
use crate::stream::model::{
    all_newline_free, buffered_after, complete_lines, decoded, is_record_line, items_after,
    items_of_lines, joined, line_items, newline_free, records_of, terminated, undecodable_line,
    unfinished_line, StreamItemView, NEWLINE,
};
use crate::text::is_blank;

verus! {

/// Reading one more byte after `bytes`: a newline completes the unfinished
/// line, any other byte extends it.
pub proof fn lemma_next_byte(bytes: Seq<u8>, byte: u8)
    ensures
        unfinished_line(bytes.push(byte)) == if byte == NEWLINE {
            Seq::<u8>::empty()
        } else {
            unfinished_line(bytes).push(byte)
        },
        decoded(bytes.push(byte)) == if byte == NEWLINE {
            decoded(bytes) + line_items(unfinished_line(bytes))
        } else {
            decoded(bytes)
        },
{
    let longer = bytes.push(byte);
    assert(longer.drop_last() == bytes);
    assert(longer.last() == byte);
    if byte == NEWLINE {
        let lines = complete_lines(bytes).push(unfinished_line(bytes));
        assert(lines.drop_last() == complete_lines(bytes));
        assert(lines.last() == unfinished_line(bytes));
    }
}

/// The unfinished line never holds a newline.
pub proof fn lemma_unfinished_line_newline_free(bytes: Seq<u8>)
    ensures
        newline_free(unfinished_line(bytes)),
    decreases bytes.len(),
{
    if bytes.len() > 0 && bytes.last() != NEWLINE {
        lemma_unfinished_line_newline_free(bytes.drop_last());
    }
}

/// Bytes without a newline are one unfinished line and complete none.
pub proof fn lemma_newline_free_is_unfinished(bytes: Seq<u8>)
    requires
        newline_free(bytes),
    ensures
        unfinished_line(bytes) == bytes,
        complete_lines(bytes) == Seq::<Seq<u8>>::empty(),
    decreases bytes.len(),
{
    if bytes.len() > 0 {
        let shorter = bytes.drop_last();
        assert(bytes.last() == bytes[bytes.len() - 1]);
        assert forall|i: int| 0 <= i < shorter.len() implies #[trigger] shorter[i] != NEWLINE by {
            assert(shorter[i] == bytes[i]);
        }
        lemma_newline_free_is_unfinished(shorter);
        assert(shorter.push(bytes.last()) == bytes);
    }
}

/// The items of two runs of lines are the items of the first run, then
/// those of the second.
pub proof fn lemma_items_of_lines_concat(first: Seq<Seq<u8>>, second: Seq<Seq<u8>>)
    ensures
        items_of_lines(first + second) == items_of_lines(first) + items_of_lines(second),
    decreases second.len(),
{
    if second.len() == 0 {
        assert(first + second == first);
    } else {
        let all = first + second;
        assert(all.drop_last() == first + second.drop_last());
        assert(all.last() == second.last());
        lemma_items_of_lines_concat(first, second.drop_last());
    }
}

/// A decoder may forget the complete lines that it has seen: what follows
/// depends on the unfinished line alone.
pub proof fn lemma_resume(received: Seq<u8>, chunk: Seq<u8>)
    ensures
        unfinished_line(received + chunk) == unfinished_line(unfinished_line(received) + chunk),
        complete_lines(received + chunk) == complete_lines(received) + complete_lines(
            unfinished_line(received) + chunk,
        ),
        decoded(received + chunk) == decoded(received) + decoded(
            unfinished_line(received) + chunk,
        ),
    decreases chunk.len(),
{
    let kept = unfinished_line(received);
    if chunk.len() == 0 {
        assert(received + chunk == received);
        assert(kept + chunk == kept);
        lemma_unfinished_line_newline_free(received);
        lemma_newline_free_is_unfinished(kept);
        assert(complete_lines(received) + Seq::<Seq<u8>>::empty() == complete_lines(received));
    } else {
        let shorter = chunk.drop_last();
        let byte = chunk.last();
        lemma_resume(received, shorter);
        assert(received + chunk == (received + shorter).push(byte));
        assert(kept + chunk == (kept + shorter).push(byte));
        assert((received + shorter).push(byte).drop_last() == received + shorter);
        assert((kept + shorter).push(byte).drop_last() == kept + shorter);
        if byte == NEWLINE {
            assert(complete_lines(received + chunk) == complete_lines(received) + complete_lines(
                kept + chunk,
            ));
        }
    }
    lemma_items_of_lines_concat(complete_lines(received), complete_lines(kept + chunk));
}

/// Feeding chunks one by one gives the items of the bytes that the chunks
/// hold together, and keeps their unfinished line.
pub proof fn lemma_chunking(chunks: Seq<Seq<u8>>)
    ensures
        items_after(chunks) == decoded(joined(chunks)),
        buffered_after(chunks) == unfinished_line(joined(chunks)),
    decreases chunks.len(),
{
    if chunks.len() > 0 {
        lemma_chunking(chunks.drop_last());
        lemma_resume(joined(chunks.drop_last()), chunks.last());
    }
}

/// Where the answer is cut into chunks does not matter: two ways of cutting
/// the same bytes give the same items in the same order, and leave the same
/// bytes unfinished.
pub proof fn lemma_chunk_boundaries_do_not_matter(first: Seq<Seq<u8>>, second: Seq<Seq<u8>>)
    requires
        joined(first) == joined(second),
    ensures
        items_after(first) == items_after(second),
        buffered_after(first) == buffered_after(second),
{
    lemma_chunking(first);
    lemma_chunking(second);
}

/// Bytes that are made of lines, each ended by a newline, and of a rest
/// without a newline, have just these complete lines and this unfinished
/// line.
pub proof fn lemma_lines_and_rest(lines: Seq<Seq<u8>>, rest: Seq<u8>)
    requires
        all_newline_free(lines),
        newline_free(rest),
    ensures
        complete_lines(terminated(lines) + rest) == lines,
        unfinished_line(terminated(lines) + rest) == rest,
        decoded(terminated(lines) + rest) == items_of_lines(lines),
    decreases lines.len(),
{
    let whole = terminated(lines);
    if lines.len() == 0 {
        assert(whole + rest == rest);
        lemma_newline_free_is_unfinished(rest);
    } else {
        let earlier = lines.drop_last();
        let line = lines.last();
        assert(newline_free(line));
        assert(all_newline_free(earlier)) by {
            assert forall|i: int| 0 <= i < earlier.len() implies newline_free(
                #[trigger] earlier[i],
            ) by {
                assert(earlier[i] == lines[i]);
            }
        }
        lemma_lines_and_rest(earlier, line);
        let open_line = terminated(earlier) + line;
        assert(whole == open_line.push(NEWLINE));
        assert(open_line.push(NEWLINE).drop_last() == open_line);
        assert(earlier.push(line) == lines);
        assert(unfinished_line(whole) == Seq::<u8>::empty());
        assert(complete_lines(whole) == lines);
        lemma_resume(whole, rest);
        assert(Seq::<u8>::empty() + rest == rest);
        lemma_newline_free_is_unfinished(rest);
        assert(lines + Seq::<Seq<u8>>::empty() == lines);
    }
}

/// Two runs of bytes without a newline make one without a newline.
pub proof fn lemma_newline_free_concat(first: Seq<u8>, second: Seq<u8>)
    requires
        newline_free(first),
        newline_free(second),
    ensures
        newline_free(first + second),
{
    let both = first + second;
    assert forall|i: int| 0 <= i < both.len() implies #[trigger] both[i] != NEWLINE by {
        if i < first.len() {
            assert(both[i] == first[i]);
        } else {
            assert(both[i] == second[i - first.len()]);
        }
    }
}

/// Two runs of lines without a newline make one run of such lines.
pub proof fn lemma_all_newline_free_concat(first: Seq<Seq<u8>>, second: Seq<Seq<u8>>)
    requires
        all_newline_free(first),
        all_newline_free(second),
    ensures
        all_newline_free(first + second),
{
    let both = first + second;
    assert forall|i: int| 0 <= i < both.len() implies newline_free(#[trigger] both[i]) by {
        if i < first.len() {
            assert(both[i] == first[i]);
        } else {
            assert(both[i] == second[i - first.len()]);
        }
    }
}

/// Lines that are all texts of records give one item each: their texts, in
/// the order of the lines.
pub proof fn lemma_items_of_record_lines(lines: Seq<Seq<u8>>)
    requires
        forall|i: int| 0 <= i < lines.len() ==> is_record_line(#[trigger] lines[i]),
    ensures
        items_of_lines(lines) == records_of(lines),
    decreases lines.len(),
{
    if lines.len() > 0 {
        let earlier = lines.drop_last();
        assert forall|i: int| 0 <= i < earlier.len() implies is_record_line(
            #[trigger] earlier[i],
        ) by {
            assert(earlier[i] == lines[i]);
        }
        lemma_items_of_record_lines(earlier);
        assert(is_record_line(lines[lines.len() - 1]));
        assert(records_of(lines) == records_of(earlier) + line_items(lines.last()));
    }
}

/// An answer of `lines.len()` complete lines that are all texts of records
/// gives exactly that many items, the texts of the lines in their order,
/// however the answer is cut into chunks, and nothing stays unfinished.
pub proof fn lemma_complete_records_in_order(chunks: Seq<Seq<u8>>, lines: Seq<Seq<u8>>)
    requires
        joined(chunks) == terminated(lines),
        all_newline_free(lines),
        forall|i: int| 0 <= i < lines.len() ==> is_record_line(#[trigger] lines[i]),
    ensures
        items_after(chunks) == records_of(lines),
        items_after(chunks).len() == lines.len(),
        buffered_after(chunks) == Seq::<u8>::empty(),
{
    lemma_chunking(chunks);
    lemma_lines_and_rest(lines, Seq::empty());
    assert(terminated(lines) + Seq::<u8>::empty() == terminated(lines));
    lemma_items_of_record_lines(lines);
}

/// A line gives its own items at its own place, whatever the lines before
/// and after it hold: exactly one failure where its bytes are not
/// well-formed UTF-8, exactly one text where it is the text of a record. The
/// items of the other lines are what they are without it.
pub proof fn lemma_line_in_place(
    before: Seq<Seq<u8>>,
    line: Seq<u8>,
    after: Seq<Seq<u8>>,
    rest: Seq<u8>,
)
    requires
        all_newline_free(before),
        newline_free(line),
        all_newline_free(after),
        newline_free(rest),
    ensures
        decoded(terminated(before.push(line) + after) + rest) == items_of_lines(before)
            + line_items(line) + items_of_lines(after),
        !valid_utf8(line) ==> line_items(line) == seq![
            Err::<Seq<char>, UcpErrorView>(undecodable_line()),
        ],
        is_record_line(line) ==> line_items(line) == seq![
            Ok::<Seq<char>, UcpErrorView>(decode_utf8(line)),
        ],
{
    let lines = before.push(line) + after;
    assert(before.push(line) == before + seq![line]);
    lemma_all_newline_free_concat(before, seq![line]);
    lemma_all_newline_free_concat(before.push(line), after);
    lemma_lines_and_rest(lines, rest);
    lemma_items_of_lines_concat(before.push(line), after);
    assert(before.push(line).drop_last() == before);
}

/// Bytes after the last newline give no item: an answer that ends without a
/// final newline loses its last, unfinished line.
pub proof fn lemma_unfinished_rest_gives_nothing(received: Seq<u8>, rest: Seq<u8>)
    requires
        newline_free(rest),
    ensures
        decoded(received + rest) == decoded(received),
{
    let kept = unfinished_line(received);
    lemma_resume(received, rest);
    lemma_unfinished_line_newline_free(received);
    lemma_newline_free_concat(kept, rest);
    lemma_newline_free_is_unfinished(kept + rest);
    assert(decoded(received) + Seq::<StreamItemView>::empty() == decoded(received));
}

/// A line gives at most one item, and none only where it is blank: no other
/// line is lost.
pub proof fn lemma_only_blank_lines_vanish(line: Seq<u8>)
    ensures
        line_items(line).len() == if valid_utf8(line) && is_blank(decode_utf8(line)) {
            0nat
        } else {
            1nat
        },
{
}

/// The empty line is blank.
pub proof fn lemma_empty_line_is_blank()
    ensures
        valid_utf8(Seq::<u8>::empty()),
        is_blank(decode_utf8(Seq::<u8>::empty())),
        line_items(Seq::<u8>::empty()) == Seq::<StreamItemView>::empty(),
{
}

/// A blank line gives no item: the answer gives the items that it gives
/// without that line.
pub proof fn lemma_blank_line_gives_nothing(
    before: Seq<Seq<u8>>,
    line: Seq<u8>,
    after: Seq<Seq<u8>>,
    rest: Seq<u8>,
)
    requires
        all_newline_free(before),
        newline_free(line),
        all_newline_free(after),
        newline_free(rest),
        valid_utf8(line),
        is_blank(decode_utf8(line)),
    ensures
        line_items(line) == Seq::<StreamItemView>::empty(),
        decoded(terminated(before.push(line) + after) + rest) == decoded(
            terminated(before + after) + rest,
        ),
{
    lemma_line_in_place(before, line, after, rest);
    lemma_all_newline_free_concat(before, after);
    lemma_lines_and_rest(before + after, rest);
    lemma_items_of_lines_concat(before, after);
    assert(items_of_lines(before) + Seq::<StreamItemView>::empty() == items_of_lines(before));
}

} // verus!
