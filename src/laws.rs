//! What holds of every record, stated over the record model and proved.
use vstd::prelude::*;
use vstd::utf8::{decode_utf8, valid_utf8};
use crate::outside::{byte_escape, bytes_debug, escaped_bytes, hex_digit};
use crate::record::{
    join_lines, query_line, record_lines, BODY_PREFIX, END_MARKER, HEADERS_PREFIX,
    RAW_BODY_PREFIX, START_MARKER,
};

verus! {

/// A body that is valid UTF-8 and not empty is logged as its decoded text,
/// whole, on the line after the query.
pub proof fn utf8_body_logged_verbatim(headers: Seq<char>, query: Option<Seq<char>>, body: Seq<u8>)
    requires
        body.len() > 0,
        valid_utf8(body),
    ensures
        record_lines(headers, query, body).len() == 6,
        record_lines(headers, query, body)[3] == BODY_PREFIX@ + decode_utf8(body),
{
}

/// A body that is not valid UTF-8 is logged under its own marker as a
/// byte-string literal, which holds ASCII characters only.
pub proof fn raw_body_logged_as_bytes(headers: Seq<char>, query: Option<Seq<char>>, body: Seq<u8>)
    requires
        body.len() > 0,
        !valid_utf8(body),
    ensures
        record_lines(headers, query, body).len() == 6,
        record_lines(headers, query, body)[3] == RAW_BODY_PREFIX@ + bytes_debug(body),
        forall|i: int| 0 <= i < bytes_debug(body).len() ==> (bytes_debug(body)[i] as u32) < 128,
{
    escaped_bytes_are_ascii(body);
}

/// The escapes of any bytes hold ASCII characters only.
proof fn escaped_bytes_are_ascii(bytes: Seq<u8>)
    ensures
        forall|i: int| 0 <= i < bytes_debug(bytes).len() ==> (bytes_debug(bytes)[i] as u32) < 128,
    decreases bytes.len(),
{
    escapes_are_ascii(bytes);
    let d = bytes_debug(bytes);
    let e = escaped_bytes(bytes);
    assert forall|i: int| 0 <= i < d.len() implies (d[i] as u32) < 128 by {
        if 2 <= i < 2 + e.len() {
            assert(d[i] == e[i - 2]);
        }
    }
}

proof fn escapes_are_ascii(bytes: Seq<u8>)
    ensures
        forall|i: int| 0 <= i < escaped_bytes(bytes).len() ==> (escaped_bytes(bytes)[i] as u32) < 128,
    decreases bytes.len(),
{
    if bytes.len() > 0 {
        escapes_are_ascii(bytes.drop_last());
        let b = bytes.last();
        let prev = escaped_bytes(bytes.drop_last());
        let one = byte_escape(b);
        assert(forall|k: u8| k < 16 ==> (hex_digit(k) as u32) < 128) by {
            assert forall|k: u8| k < 16 implies (hex_digit(k) as u32) < 128 by {
                let digits = seq!['0', '1', '2', '3', '4', '5', '6', '7', '8', '9', 'a', 'b', 'c', 'd', 'e', 'f'];
                assert(hex_digit(k) == digits[k as int]);
            }
        }
        assert forall|j: int| 0 <= j < one.len() implies (one[j] as u32) < 128 by {
            if 0x20 <= b && b < 0x7f && b != 0x5c && b != 0x22 {
                assert((b as char) as u32 == b as u32);
            }
        }
        let all = escaped_bytes(bytes);
        assert(all == prev + one);
        assert forall|i: int| 0 <= i < all.len() implies (all[i] as u32) < 128 by {
            if i >= prev.len() {
                assert(all[i] == one[i - prev.len()]);
            }
        }
    }
}

/// An empty body adds no line: the record is the markers, the headers and
/// the query alone.
pub proof fn empty_body_has_no_body_line(headers: Seq<char>, query: Option<Seq<char>>)
    ensures
        record_lines(headers, query, Seq::<u8>::empty()) == seq![
            START_MARKER@,
            HEADERS_PREFIX@ + headers,
            query_line(query),
            END_MARKER@,
            Seq::<char>::empty(),
        ],
{
    assert(record_lines(headers, query, Seq::<u8>::empty()) =~= seq![
        START_MARKER@,
        HEADERS_PREFIX@ + headers,
        query_line(query),
        END_MARKER@,
        Seq::<char>::empty(),
    ]);
}

/// The text of the first lines is the start of the text of all of them.
proof fn joined_prefix(lines: Seq<Seq<char>>, k: int)
    requires
        0 <= k <= lines.len(),
    ensures
        join_lines(lines.take(k)).is_prefix_of(join_lines(lines)),
    decreases lines.len(),
{
    if k < lines.len() {
        joined_prefix(lines.drop_last(), k);
        assert(lines.drop_last().take(k) =~= lines.take(k));
    } else {
        assert(lines.take(k) =~= lines);
    }
}

/// The text of every record, written in one append, is a whole block: it
/// opens with the start marker on a line of its own and closes with the end
/// marker and a blank line.
pub proof fn record_text_is_one_block(headers: Seq<char>, query: Option<Seq<char>>, body: Seq<u8>)
    ensures
        (START_MARKER@ + seq!['\n']).is_prefix_of(join_lines(record_lines(headers, query, body))),
        join_lines(record_lines(headers, query, body)).len() >= END_MARKER@.len() + 2,
        join_lines(record_lines(headers, query, body)).subrange(
            join_lines(record_lines(headers, query, body)).len() - END_MARKER@.len() - 2,
            join_lines(record_lines(headers, query, body)).len() as int,
        ) == END_MARKER@ + seq!['\n', '\n'],
{
    let lines = record_lines(headers, query, body);
    let n = lines.len();
    joined_prefix(lines, 1);
    let first = lines.take(1);
    assert(first.drop_last() =~= Seq::<Seq<char>>::empty());
    assert(join_lines(first.drop_last()) == Seq::<char>::empty());
    assert(first.last() == START_MARKER@);
    assert(join_lines(first) == join_lines(first.drop_last()) + first.last() + seq!['\n']);
    assert(join_lines(first) =~= START_MARKER@ + seq!['\n']);
    let all = join_lines(lines);
    let before = join_lines(lines.drop_last().drop_last());
    assert(lines.last() == Seq::<char>::empty());
    assert(lines.drop_last().last() == END_MARKER@);
    let rest = lines.drop_last();
    assert(all == join_lines(rest) + lines.last() + seq!['\n']);
    assert(join_lines(rest) == before + rest.last() + seq!['\n']);
    assert(all =~= before + END_MARKER@ + seq!['\n'] + seq!['\n']);
    assert(all.subrange(all.len() - END_MARKER@.len() - 2, all.len() as int) =~= END_MARKER@
        + seq!['\n', '\n']);
}

} // verus!
