//! One HTTP request, read from a buffer of bytes.
//!
//! A request is a request line, `METHOD SP PATH SP VERSION`, a line end,
//! then header lines `key:value` with a line end between each two, then an
//! empty line. A line end is a carriage return and a line feed. With no
//! header the empty line follows the request line's end at once, so three
//! line ends stand in a row. What follows the empty line is not read.

use vstd::prelude::*;
use vstd::hash_map::StringHashMap;
use vstd::slice::slice_subrange;
use crate::method::Method;
use crate::protocol::{Protocol, ProtocolError};
use crate::text::{
    decode, find_block_end, find_byte, find_line_end, first_block_end, first_index,
    first_line_end, is_first_line_end, spec_text,
};

verus! {

/// Why a buffer holds no request.
#[derive(Debug, Copy, Clone, PartialEq, Eq, Structural)]
pub enum ParseError {
    /// No line end closes the request line.
    LineEnd,
    /// The request line holds fewer than two spaces.
    Space,
    /// The method, the path, the version, a header's key or its value is
    /// not valid UTF-8.
    Encoding,
    /// The text before the first space names no method.
    Method,
    /// The text behind the second space is no protocol version.
    Version(ProtocolError),
    /// No empty line closes the header lines.
    HeadersEnd,
    /// A header line holds no colon.
    Colon,
}

/// A header: its key and its value.
pub type Entry = (Seq<char>, Seq<char>);

/// What a request line says, and where it ends.
pub struct RequestLine {
    pub method: Method,
    pub raw_path: Seq<char>,
    pub protocol: Protocol,
    /// The place of the carriage return that ends the line.
    pub end: int,
}

/// What a block of header lines says, and where it ends.
pub struct HeaderBlock {
    /// The headers in the order of their lines.
    pub entries: Seq<Entry>,
    /// The place of the carriage return before the empty line.
    pub end: int,
}

/// What a request says.
pub struct RequestModel {
    pub protocol: Protocol,
    pub method: Method,
    pub raw_path: Seq<char>,
    pub headers: Map<Seq<char>, Seq<char>>,
}

/// What the three fields of a request line say. They are read in their
/// order, and the first one at fault decides the error.
pub open spec fn spec_fields(method: Seq<u8>, path: Seq<u8>, version: Seq<u8>, end: int) -> Result<
    RequestLine,
    ParseError,
> {
    match spec_text(method) {
        None => Err(ParseError::Encoding),
        Some(name) => match Method::spec_from_str(name) {
            None => Err(ParseError::Method),
            Some(method) => match spec_text(path) {
                None => Err(ParseError::Encoding),
                Some(raw_path) => if spec_text(version) is None {
                    Err(ParseError::Encoding)
                } else {
                    match Protocol::spec_parse(version) {
                        Err(e) => Err(ParseError::Version(e)),
                        Ok(protocol) => Ok(RequestLine { method, raw_path, protocol, end }),
                    }
                },
            },
        },
    }
}

/// What the request line of `s` says. The line reaches to the first line
/// end. Its first space ends the method and its second space ends the
/// path; the version is all that follows, further spaces included.
pub open spec fn spec_request_line(s: Seq<u8>) -> Result<RequestLine, ParseError> {
    match first_line_end(s) {
        None => Err(ParseError::LineEnd),
        Some(end) => {
            let line = s.take(end);
            match first_index(line, 0x20) {
                None => Err(ParseError::Space),
                Some(a) => {
                    let rest = line.skip(a + 1);
                    match first_index(rest, 0x20) {
                        None => Err(ParseError::Space),
                        Some(b) => spec_fields(line.take(a), rest.take(b), rest.skip(b + 1), end),
                    }
                },
            }
        },
    }
}

/// What a header line says. The first colon ends the key. The value is all
/// that follows the colon: a space behind the colon belongs to the value,
/// and so does any further colon.
pub open spec fn spec_header(line: Seq<u8>) -> Result<Entry, ParseError> {
    match first_index(line, 0x3A) {
        None => Err(ParseError::Colon),
        Some(colon) => match spec_text(line.take(colon)) {
            None => Err(ParseError::Encoding),
            Some(key) => match spec_text(line.skip(colon + 1)) {
                None => Err(ParseError::Encoding),
                Some(value) => Ok((key, value)),
            },
        },
    }
}

/// The lines of `block`: what stands between its line ends.
pub open spec fn split_lines(block: Seq<u8>) -> Seq<Seq<u8>>
    decreases block.len(),
{
    match first_line_end(block) {
        Some(i) => if 0 <= i && i + 2 <= block.len() {
            seq![block.take(i)] + split_lines(block.skip(i + 2))
        } else {
            seq![block]
        },
        None => seq![block],
    }
}

/// What the header lines say, in their order. The first line at fault
/// decides the error.
pub open spec fn spec_entries(lines: Seq<Seq<u8>>) -> Result<Seq<Entry>, ParseError>
    decreases lines.len(),
{
    if lines.len() == 0 {
        Ok(Seq::empty())
    } else {
        match spec_entries(lines.drop_last()) {
            Err(e) => Err(e),
            Ok(entries) => match spec_header(lines.last()) {
                Err(e) => Err(e),
                Ok(entry) => Ok(entries.push(entry)),
            },
        }
    }
}

/// The mapping that holds `base` and then each of `entries` in order: a
/// later entry replaces an earlier one with the same key.
pub open spec fn apply_entries(base: Map<Seq<char>, Seq<char>>, entries: Seq<Entry>) -> Map<
    Seq<char>,
    Seq<char>,
>
    decreases entries.len(),
{
    if entries.len() == 0 {
        base
    } else {
        apply_entries(base, entries.drop_last()).insert(entries.last().0, entries.last().1)
    }
}

/// What the header lines of `s` from `start` on say. They reach to the
/// first place at or behind `start` where two line ends stand in a row.
/// Where that place is `start` itself there is no header.
pub open spec fn spec_header_block(s: Seq<u8>, start: int) -> Result<HeaderBlock, ParseError> {
    if !(0 <= start <= s.len()) {
        Err(ParseError::HeadersEnd)
    } else {
        match first_block_end(s.skip(start)) {
            None => Err(ParseError::HeadersEnd),
            Some(length) => if length == 0 {
                Ok(HeaderBlock { entries: Seq::empty(), end: start })
            } else {
                match spec_entries(split_lines(s.subrange(start, start + length))) {
                    Err(e) => Err(e),
                    Ok(entries) => Ok(HeaderBlock { entries, end: start + length }),
                }
            },
        }
    }
}

/// What a request says that was read from `s` over headers `base` that it
/// held before. The header lines begin behind the line end of the request
/// line.
pub open spec fn spec_read(base: Map<Seq<char>, Seq<char>>, s: Seq<u8>) -> Result<
    RequestModel,
    ParseError,
> {
    match spec_request_line(s) {
        Err(e) => Err(e),
        Ok(line) => match spec_header_block(s, line.end + 2) {
            Err(e) => Err(e),
            Ok(block) => Ok(
                RequestModel {
                    protocol: line.protocol,
                    method: line.method,
                    raw_path: line.raw_path,
                    headers: apply_entries(base, block.entries),
                },
            ),
        },
    }
}

/// What the request in `s` says.
pub open spec fn spec_request(s: Seq<u8>) -> Result<RequestModel, ParseError> {
    spec_read(Map::empty(), s)
}

/// The headers of a request as a mapping from text to text.
pub open spec fn header_map(headers: Map<Seq<char>, String>) -> Map<Seq<char>, Seq<char>> {
    headers.map_values(|value: String| value@)
}

/// A parsed request.
///
/// The keys of `headers` are as they were read: they are not folded to one
/// case, and a header that comes twice keeps its last value.
pub struct Request {
    pub protocol: Protocol,
    pub method: Method,
    pub raw_path: String,
    pub headers: StringHashMap<String>,
}

impl View for Request {
    type V = RequestModel;

    open spec fn view(&self) -> RequestModel {
        RequestModel {
            protocol: self.protocol,
            method: self.method,
            raw_path: self.raw_path@,
            headers: header_map(self.headers@),
        }
    }
}

/// Adding one line adds its entry.
proof fn lemma_entries_push(lines: Seq<Seq<u8>>, entries: Seq<Entry>, line: Seq<u8>)
    requires
        spec_entries(lines) == Ok::<Seq<Entry>, ParseError>(entries),
    ensures
        spec_entries(lines.push(line)) == match spec_header(line) {
            Err(e) => Err::<Seq<Entry>, ParseError>(e),
            Ok(entry) => Ok(entries.push(entry)),
        },
{
    assert(lines.push(line).drop_last() =~= lines);
}

/// The first line at fault decides, whatever follows it.
proof fn lemma_entries_fail(lines: Seq<Seq<u8>>, more: Seq<Seq<u8>>, e: ParseError)
    requires
        spec_entries(lines) == Err::<Seq<Entry>, ParseError>(e),
    ensures
        spec_entries(lines + more) == Err::<Seq<Entry>, ParseError>(e),
    decreases more.len(),
{
    if more.len() == 0 {
        assert(lines + more =~= lines);
    } else {
        lemma_entries_fail(lines, more.drop_last(), e);
        assert((lines + more).drop_last() =~= lines + more.drop_last());
    }
}

/// Reads the three fields of a request line.
fn read_fields(method: &[u8], path: &[u8], version: &[u8], end: usize) -> (r: Result<
    (Method, String, Protocol),
    ParseError,
>)
    ensures
        match r {
            Ok((m, p, v)) => spec_fields(method@, path@, version@, end as int) == Ok::<
                RequestLine,
                ParseError,
            >(RequestLine { method: m, raw_path: p@, protocol: v, end: end as int }),
            Err(e) => spec_fields(method@, path@, version@, end as int) == Err::<
                RequestLine,
                ParseError,
            >(e),
        },
{
    let name = match decode(method) {
        Some(text) => text,
        None => {
            return Err(ParseError::Encoding);
        },
    };
    let m = match Method::from_str(name.as_str()) {
        Ok(m) => m,
        Err(_) => {
            return Err(ParseError::Method);
        },
    };
    let p = match decode(path) {
        Some(text) => text,
        None => {
            return Err(ParseError::Encoding);
        },
    };
    if decode(version).is_none() {
        return Err(ParseError::Encoding);
    }
    let v = match Protocol::parse(version) {
        Ok(v) => v,
        Err(e) => {
            return Err(ParseError::Version(e));
        },
    };
    Ok((m, p, v))
}

/// Reads the request line at the head of `raw`.
fn scan_request_line(raw: &[u8]) -> (r: Result<(Method, String, Protocol, usize), ParseError>)
    ensures
        match r {
            Ok((m, p, v, end)) => spec_request_line(raw@) == Ok::<RequestLine, ParseError>(
                RequestLine { method: m, raw_path: p@, protocol: v, end: end as int },
            ) && end + 2 <= raw.len(),
            Err(e) => spec_request_line(raw@) == Err::<RequestLine, ParseError>(e),
        },
{
    let length = raw.len();
    assert(raw@.subrange(0, length as int) =~= raw@);
    let end = match find_line_end(raw, 0, length) {
        Some(i) => i,
        None => {
            return Err(ParseError::LineEnd);
        },
    };
    let line = slice_subrange(raw, 0, end);
    assert(line@ =~= raw@.take(end as int));
    let a = match find_byte(line, 0x20) {
        Some(i) => i,
        None => {
            return Err(ParseError::Space);
        },
    };
    let rest = slice_subrange(line, a + 1, end);
    assert(rest@ =~= line@.skip(a + 1));
    let b = match find_byte(rest, 0x20) {
        Some(i) => i,
        None => {
            return Err(ParseError::Space);
        },
    };
    let method = slice_subrange(line, 0, a);
    let path = slice_subrange(rest, 0, b);
    let rest_length = rest.len();
    let version = slice_subrange(rest, b + 1, rest_length);
    assert(method@ =~= line@.take(a as int));
    assert(path@ =~= rest@.take(b as int));
    assert(version@ =~= rest@.skip(b + 1));
    match read_fields(method, path, version, end) {
        Ok((m, p, v)) => Ok((m, p, v, end)),
        Err(e) => Err(e),
    }
}

/// Reads one header line.
fn read_header(line: &[u8]) -> (r: Result<(String, String), ParseError>)
    ensures
        match r {
            Ok((key, value)) => spec_header(line@) == Ok::<Entry, ParseError>((key@, value@)),
            Err(e) => spec_header(line@) == Err::<Entry, ParseError>(e),
        },
{
    let colon = match find_byte(line, 0x3A) {
        Some(i) => i,
        None => {
            return Err(ParseError::Colon);
        },
    };
    let length = line.len();
    let key_bytes = slice_subrange(line, 0, colon);
    let value_bytes = slice_subrange(line, colon + 1, length);
    assert(key_bytes@ =~= line@.take(colon as int));
    assert(value_bytes@ =~= line@.skip(colon + 1));
    let key = match decode(key_bytes) {
        Some(text) => text,
        None => {
            return Err(ParseError::Encoding);
        },
    };
    let value = match decode(value_bytes) {
        Some(text) => text,
        None => {
            return Err(ParseError::Encoding);
        },
    };
    Ok((key, value))
}

/// Reads the header lines of `raw` from `start` on into `headers`. Where
/// a line is at fault, the entries of the lines before it have been added.
fn scan_headers(headers: &mut StringHashMap<String>, raw: &[u8], start: usize) -> (r: Result<
    usize,
    ParseError,
>)
    ensures
        match r {
            Ok(end) => spec_header_block(raw@, start as int) matches Ok(block) && block.end == end
                && header_map(final(headers)@) == apply_entries(
                header_map(old(headers)@),
                block.entries,
            ),
            Err(e) => spec_header_block(raw@, start as int) == Err::<HeaderBlock, ParseError>(e),
        },
{
    if start > raw.len() {
        return Err(ParseError::HeadersEnd);
    }
    let end = match find_block_end(raw, start) {
        Some(i) => i,
        None => {
            return Err(ParseError::HeadersEnd);
        },
    };
    if end == start {
        return Ok(end);
    }
    let ghost block = raw@.subrange(start as int, end as int);
    let ghost mut done: Seq<Seq<u8>> = Seq::empty();
    let ghost mut entries: Seq<Entry> = Seq::empty();
    let mut pos: usize = start;
    assert(block.skip(0) =~= block);
    assert(done + split_lines(block) =~= split_lines(block));
    loop
        invariant
            start <= pos <= end <= raw.len(),
            start < end,
            first_block_end(raw@.skip(start as int)) == Some(end - start),
            block == raw@.subrange(start as int, end as int),
            split_lines(block) == done + split_lines(block.skip(pos - start)),
            spec_entries(done) == Ok::<Seq<Entry>, ParseError>(entries),
            header_map(headers@) == apply_entries(header_map(old(headers)@), entries),
        decreases end - pos,
    {
        let ghost rest = block.skip(pos - start);
        assert(raw@.subrange(pos as int, end as int) =~= rest);
        let found = find_line_end(raw, pos, end);
        let stop = match found {
            Some(i) => i,
            None => end,
        };
        let line = slice_subrange(raw, pos, stop);
        let ghost tail = match found {
            Some(i) => split_lines(rest.skip(stop - pos + 2)),
            None => Seq::<Seq<u8>>::empty(),
        };
        proof {
            if found is Some {
                assert(is_first_line_end(rest, stop - pos));
                assert(line@ =~= rest.take(stop - pos));
            } else {
                assert(line@ =~= rest);
            }
            assert(split_lines(rest) =~= seq![line@] + tail);
            assert(split_lines(block) =~= done.push(line@) + tail);
            lemma_entries_push(done, entries, line@);
        }
        match read_header(line) {
            Err(e) => {
                proof {
                    lemma_entries_fail(done.push(line@), tail, e);
                }
                return Err(e);
            },
            Ok((key, value)) => {
                proof {
                    let ghost before = headers@;
                    let entry = (key@, value@);
                    assert(entries.push(entry).drop_last() =~= entries);
                    assert(header_map(before.insert(key@, value)) =~= header_map(before).insert(
                        key@,
                        value@,
                    ));
                    done = done.push(line@);
                    entries = entries.push(entry);
                }
                headers.insert(key, value);
            },
        }
        if found.is_none() {
            assert(done + tail =~= done);
            return Ok(end);
        }
        proof {
            assert(rest.skip(stop - pos + 2) =~= block.skip(stop + 2 - start));
        }
        pos = stop + 2;
    }
}

impl Request {
    /// A request that nothing has been read into.
    fn blank() -> (request: Request)
        ensures
            request.protocol == (Protocol { major: 0, minor: 0 }),
            request.method == Method::Unknown,
            request.raw_path@ == Seq::<char>::empty(),
            request@.headers == Map::<Seq<char>, Seq<char>>::empty(),
    {
        let request = Request {
            protocol: Protocol::new(),
            method: Method::Unknown,
            raw_path: String::new(),
            headers: StringHashMap::new(),
        };
        assert(request@.headers =~= Map::<Seq<char>, Seq<char>>::empty());
        request
    }

    /// Reads the request that `raw` holds, or says why it holds none.
    pub fn parse(raw: &[u8]) -> (r: Result<Request, ParseError>)
        ensures
            match r {
                Ok(request) => spec_request(raw@) == Ok::<RequestModel, ParseError>(request@),
                Err(e) => spec_request(raw@) == Err::<RequestModel, ParseError>(e),
            },
    {
        let mut request = Request::blank();
        let (method, raw_path, protocol, end) = match scan_request_line(raw) {
            Ok(line) => line,
            Err(e) => {
                return Err(e);
            },
        };
        request.method = method;
        request.raw_path = raw_path;
        request.protocol = protocol;
        match scan_headers(&mut request.headers, raw, end + 2) {
            Ok(_) => Ok(request),
            Err(e) => Err(e),
        }
    }

    /// The request that `raw` holds.
    pub fn new(raw: &[u8]) -> (request: Request)
        requires
            spec_request(raw@) is Ok,
        ensures
            spec_request(raw@) == Ok::<RequestModel, ParseError>(request@),
    {
        match Request::parse(raw) {
            Ok(request) => request,
            Err(_) => {
                assert(false);
                Request::blank()
            },
        }
    }

    /// Reads the request that `raw` holds into this one. The method, the
    /// path and the version are replaced. The headers of `raw` are added
    /// to those that the request holds.
    pub fn read(&mut self, raw: &[u8])
        requires
            spec_read(old(self)@.headers, raw@) is Ok,
        ensures
            spec_read(old(self)@.headers, raw@) == Ok::<RequestModel, ParseError>(final(self)@),
    {
        let end = self.read_header_first_line(raw);
        let headers_end = self.read_headers(raw, end + 2);
        self.read_body(raw, headers_end);
    }

    /// Reads the request line of `raw` into the request's method, path and
    /// version, and returns the place of the carriage return that ends the
    /// line.
    pub fn read_header_first_line(&mut self, raw: &[u8]) -> (end: usize)
        requires
            spec_request_line(raw@) is Ok,
        ensures
            spec_request_line(raw@) == Ok::<RequestLine, ParseError>(
                RequestLine {
                    method: final(self).method,
                    raw_path: final(self).raw_path@,
                    protocol: final(self).protocol,
                    end: end as int,
                },
            ),
            end + 2 <= raw.len(),
            final(self).headers@ == old(self).headers@,
    {
        match scan_request_line(raw) {
            Ok((method, raw_path, protocol, end)) => {
                self.method = method;
                self.raw_path = raw_path;
                self.protocol = protocol;
                end
            },
            Err(_) => {
                assert(false);
                0
            },
        }
    }

    /// Reads the header lines of `raw` from `start_index` on into the
    /// request's headers, and returns the place of the carriage return
    /// before the empty line that ends them.
    pub fn read_headers(&mut self, raw: &[u8], start_index: usize) -> (end: usize)
        requires
            spec_header_block(raw@, start_index as int) is Ok,
        ensures
            spec_header_block(raw@, start_index as int) matches Ok(block) && block.end == end
                && final(self)@.headers == apply_entries(old(self)@.headers, block.entries),
            end + 4 <= raw.len(),
            final(self).method == old(self).method,
            final(self).protocol == old(self).protocol,
            final(self).raw_path@ == old(self).raw_path@,
    {
        match scan_headers(&mut self.headers, raw, start_index) {
            Ok(end) => end,
            Err(_) => {
                assert(false);
                0
            },
        }
    }

    /// Bodies are not read: the request stays as it is.
    pub fn read_body(&mut self, _raw: &[u8], _start_index: usize)
        ensures
            final(self)@ == old(self)@,
    {
    }
}

/// Where a key comes more than once, its last value stays: the mapping
/// holds the value of each entry that no later entry has the key of.
pub proof fn lemma_last_entry_wins(base: Map<Seq<char>, Seq<char>>, entries: Seq<Entry>, i: int)
    requires
        0 <= i < entries.len(),
        forall|j: int| i < j < entries.len() ==> entries[j].0 != entries[i].0,
    ensures
        apply_entries(base, entries).contains_key(entries[i].0),
        apply_entries(base, entries)[entries[i].0] == entries[i].1,
    decreases entries.len(),
{
    if i < entries.len() - 1 {
        let front = entries.drop_last();
        assert(front[i] == entries[i]);
        assert forall|j: int| i < j < front.len() implies front[j].0 != front[i].0 by {
            assert(front[j] == entries[j]);
        }
        lemma_last_entry_wins(base, front, i);
        assert(entries.last().0 != entries[i].0);
    }
}

/// The mapping holds a key exactly if it held it before or an entry has
/// it, and a key that no entry has keeps its value.
pub proof fn lemma_entries_keys(base: Map<Seq<char>, Seq<char>>, entries: Seq<Entry>, key: Seq<char>)
    ensures
        apply_entries(base, entries).contains_key(key) <==> base.contains_key(key) || exists|
            i: int,
        |
            0 <= i < entries.len() && #[trigger] entries[i].0 == key,
        (forall|i: int| 0 <= i < entries.len() ==> #[trigger] entries[i].0 != key)
            ==> apply_entries(base, entries)[key] == base[key],
    decreases entries.len(),
{
    if entries.len() > 0 {
        let front = entries.drop_last();
        lemma_entries_keys(base, front, key);
        let last = entries.len() - 1;
        if apply_entries(base, entries).contains_key(key) && !base.contains_key(key) {
            if entries[last].0 != key {
                let i = choose|i: int| 0 <= i < front.len() && #[trigger] front[i].0 == key;
                assert(entries[i].0 == key);
            }
        }
        if exists|i: int| 0 <= i < entries.len() && #[trigger] entries[i].0 == key {
            let i = choose|i: int| 0 <= i < entries.len() && #[trigger] entries[i].0 == key;
            if i < last {
                assert(front[i].0 == key);
            }
        }
        if forall|i: int| 0 <= i < entries.len() ==> #[trigger] entries[i].0 != key {
            assert(entries[last].0 != key);
            assert forall|i: int| 0 <= i < front.len() implies #[trigger] front[i].0 != key by {
                assert(front[i] == entries[i]);
            }
        }
    }
}

} // verus!
