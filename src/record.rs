//! The log record of one request: its lines, what each line says, and the
//! text that is written for it in a single append.
use vstd::prelude::*;
use vstd::utf8::{decode_utf8, valid_utf8};
use crate::outside::{bytes_debug, decode_text, render_bytes};

verus! {

/// The first line of every record.
pub const START_MARKER: &'static str = "==== new request ====";

/// The line that closes every record; a blank line follows it.
pub const END_MARKER: &'static str = "==== end of request ====";

/// Put before the rendered header map.
pub const HEADERS_PREFIX: &'static str = "Headers: ";

/// Put before the raw query string.
pub const QUERY_PREFIX: &'static str = "Query: ";

/// Stands for the query string when the request has none.
pub const NO_QUERY: &'static str = "(none)";

/// Put before a body that decodes as UTF-8.
pub const BODY_PREFIX: &'static str = "Body: ";

/// Put before the byte rendering of a body that is not valid UTF-8.
pub const RAW_BODY_PREFIX: &'static str = "Body (not UTF-8): ";

/// The text of a string, if there is one.
pub open spec fn opt_view(s: Option<String>) -> Option<Seq<char>> {
    match s {
        Some(t) => Some(t@),
        None => None,
    }
}

/// The query line: the query string as received, or the marker of its absence.
pub open spec fn query_line(query: Option<Seq<char>>) -> Seq<char> {
    match query {
        Some(q) => QUERY_PREFIX@ + q,
        None => QUERY_PREFIX@ + NO_QUERY@,
    }
}

/// The body line: none for an empty body; the decoded text for valid UTF-8;
/// otherwise the bytes written as a byte-string literal, under its own prefix.
pub open spec fn body_line(body: Seq<u8>) -> Option<Seq<char>> {
    if body.len() == 0 {
        None
    } else if valid_utf8(body) {
        Some(BODY_PREFIX@ + decode_utf8(body))
    } else {
        Some(RAW_BODY_PREFIX@ + bytes_debug(body))
    }
}

/// The lines of the record of a request whose header map renders as
/// `headers`: start marker, headers, query, the body line if any, end
/// marker, blank line.
pub open spec fn record_lines(headers: Seq<char>, query: Option<Seq<char>>, body: Seq<u8>) -> Seq<
    Seq<char>,
> {
    let head = seq![START_MARKER@, HEADERS_PREFIX@ + headers, query_line(query)];
    let tail = seq![END_MARKER@, Seq::<char>::empty()];
    match body_line(body) {
        Some(line) => head.push(line) + tail,
        None => head + tail,
    }
}

/// The lines, each ended by a line feed, one after the other.
pub open spec fn join_lines(lines: Seq<Seq<char>>) -> Seq<char>
    decreases lines.len(),
{
    if lines.len() == 0 {
        seq![]
    } else {
        join_lines(lines.drop_last()) + lines.last() + seq!['\n']
    }
}

/// The rendered lines of one request.
pub struct LogRecord {
    pub lines: Vec<String>,
}

impl View for LogRecord {
    type V = Seq<Seq<char>>;

    open spec fn view(&self) -> Seq<Seq<char>> {
        self.lines@.map_values(|l: String| l@)
    }
}

impl LogRecord {
    /// The whole record as one text, to be appended to the sink in one write.
    pub fn text(&self) -> (r: String)
        ensures
            r@ == join_lines(self@),
    {
        let mut out = String::new();
        let mut i: usize = 0;
        proof {
            assert(self@.take(0) =~= Seq::<Seq<char>>::empty());
        }
        while i < self.lines.len()
            invariant
                i <= self.lines@.len(),
                out@ == join_lines(self@.take(i as int)),
            decreases self.lines@.len() - i,
        {
            out.push_str(self.lines[i].as_str());
            out.push_str("\n");
            proof {
                reveal_strlit("\n");
                let next = self@.take(i + 1);
                assert(next.drop_last() =~= self@.take(i as int));
                assert(next.last() == self.lines@[i as int]@);
                assert(join_lines(next) == join_lines(next.drop_last()) + next.last() + seq!['\n']);
            }
            i = i + 1;
        }
        proof {
            assert(self@.take(i as int) =~= self@);
        }
        out
    }
}

/// Renders the query line.
pub fn query_text(query: &Option<String>) -> (r: String)
    ensures
        r@ == query_line(opt_view(*query)),
{
    let mut line = QUERY_PREFIX.to_owned();
    match query {
        Some(q) => line.push_str(q.as_str()),
        None => line.push_str(NO_QUERY),
    }
    line
}

/// Renders the body line, if the body calls for one.
pub fn body_text(body: &Vec<u8>) -> (r: Option<String>)
    ensures
        opt_view(r) == body_line(body@),
{
    if body.len() == 0 {
        return None;
    }
    match decode_text(body) {
        Some(text) => {
            let mut line = BODY_PREFIX.to_owned();
            line.push_str(text.as_str());
            Some(line)
        },
        None => {
            let mut line = RAW_BODY_PREFIX.to_owned();
            let raw = render_bytes(body);
            line.push_str(raw.as_str());
            Some(line)
        },
    }
}

/// Builds the record of a request from its rendered header map, its query
/// string and its body.
pub fn record_from_parts(headers_text: &str, query: &Option<String>, body: &Vec<u8>) -> (r:
    LogRecord)
    ensures
        r@ == record_lines(headers_text@, opt_view(*query), body@),
{
    let mut lines: Vec<String> = Vec::new();
    lines.push(START_MARKER.to_owned());
    let mut headers_line = HEADERS_PREFIX.to_owned();
    headers_line.push_str(headers_text);
    lines.push(headers_line);
    lines.push(query_text(query));
    match body_text(body) {
        Some(line) => lines.push(line),
        None => {},
    }
    lines.push(END_MARKER.to_owned());
    lines.push(String::new());
    let r = LogRecord { lines };
    proof {
        assert(r@ =~= record_lines(headers_text@, opt_view(*query), body@));
    }
    r
}

} // verus!
