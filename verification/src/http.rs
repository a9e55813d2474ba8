//! The effective URL of an outgoing request, and its headers on their way
//! to the transport and back.

use vstd::prelude::*;
use vstd::multiset::Multiset;
use vstd::string::*;
use vstd::utf8::{encode_utf8, is_ascii_chars, is_ascii_chars_encode_utf8};
use hyper::header::HeaderValue;
use hyper::http::request::Builder;
use hyper::HeaderMap;
use crate::host::{HostError, HostErrorView, HttpHeader, HttpHeaderView, HTTP_REQUEST_FAILED};
use crate::text::push_char;

verus! {

/// The effective URL as a sequence of characters: the target, a question
/// mark, and the query string as it was given.
pub open spec fn spec_http_url(uri: Seq<char>, params: Seq<char>) -> Seq<char> {
    uri + seq!['?'] + params
}

/// Joins a target and a query string that is already encoded. The query string
/// is appended verbatim: nothing is escaped, and the separator is written
/// even where the query string is empty.
pub fn build_http_url(uri: &str, params: &str) -> (url: String)
    ensures
        url@ == spec_http_url(uri@, params@),
        encode_utf8(url@) == encode_utf8(uri@) + seq![63u8] + encode_utf8(params@),
{
    let mut url = String::from_str(uri);
    proof {
        reveal_strlit("?");
        lemma_http_url_bytes(uri@, params@);
    }
    url.append("?");
    assert("?"@ =~= seq!['?']);
    url.append(params);
    url
}

/// The bytes of two texts written one after the other are the bytes of the
/// first followed by the bytes of the second.
pub proof fn lemma_encode_concat(a: Seq<char>, b: Seq<char>)
    ensures
        encode_utf8(a + b) == encode_utf8(a) + encode_utf8(b),
    decreases a.len(),
{
    if a.len() == 0 {
        assert(a + b =~= b);
        assert(encode_utf8(a) + encode_utf8(b) =~= encode_utf8(b));
    } else {
        assert((a + b).drop_first() =~= a.drop_first() + b);
        assert((a + b)[0] == a[0]);
        lemma_encode_concat(a.drop_first(), b);
        assert(encode_utf8(a + b) =~= encode_utf8(a) + encode_utf8(b));
    }
}

/// The effective URL is exact to the byte: the bytes of the target, the one
/// byte of the question mark, and the bytes of the query string.
pub proof fn lemma_http_url_bytes(uri: Seq<char>, params: Seq<char>)
    ensures
        encode_utf8(spec_http_url(uri, params)) == encode_utf8(uri) + seq![63u8] + encode_utf8(
            params,
        ),
{
    let mark = seq!['?'];
    assert(is_ascii_chars(mark));
    is_ascii_chars_encode_utf8(mark);
    assert(encode_utf8(mark) =~= seq![63u8]) by {
        assert(mark[0] as u8 == 63u8);
    }
    lemma_encode_concat(uri, mark);
    lemma_encode_concat(uri + mark, params);
}

/// `http::request::Builder`, a request in the making, as an opaque type.
#[verifier::external_type_specification]
#[verifier::external_body]
pub struct ExBuilder(hyper::http::request::Builder);

/// `http::header::HeaderValue`, the value of a header line, as an opaque
/// type.
#[verifier::external_type_specification]
#[verifier::external_body]
pub struct ExHeaderValue(hyper::header::HeaderValue);

/// `http::HeaderMap`, the header lines of a request or a response, as an
/// opaque type.
#[verifier::external_type_specification]
#[verifier::external_body]
#[verifier::reject_recursive_types(T)]
pub struct ExHeaderMap<T>(hyper::HeaderMap<T>);

/// A header line of the transport: its name, and its value as bytes.
pub type HeaderLine = (Seq<char>, Seq<u8>);

/// The header lines that a request builder holds, each as often as it was
/// added; `None` for a builder that holds an error.
pub uninterp spec fn builder_lines(builder: Builder) -> Option<Multiset<HeaderLine>>;

/// The header lines that a header map holds, in the order in which its
/// iterator yields them.
pub uninterp spec fn header_lines(headers: HeaderMap<HeaderValue>) -> Seq<HeaderLine>;

/// The header name that `text` is, in the lower case in which the transport
/// keeps names; `None` where `text` is no header name.
pub uninterp spec fn header_name_of(text: Seq<char>) -> Option<Seq<char>>;

/// A byte that a header value may hold: a tab, or anything from the space
/// upwards but the delete character.
pub open spec fn spec_value_byte(byte: u8) -> bool {
    byte >= 32 && byte != 127 || byte == 9
}

/// A byte of a header value that can be read as text: a tab or a printable
/// ASCII character.
pub open spec fn spec_text_byte(byte: u8) -> bool {
    byte >= 32 && byte < 127 || byte == 9
}

/// The header value that a text is: its bytes, where each of them may stand
/// in a header value.
pub open spec fn spec_header_value(text: Seq<char>) -> Option<Seq<u8>> {
    let bytes = encode_utf8(text);
    if forall|i: int| 0 <= i < bytes.len() ==> spec_value_byte(#[trigger] bytes[i]) {
        Some(bytes)
    } else {
        None
    }
}

/// The text of a header value: its bytes as characters, where each of them
/// can be read as text.
pub open spec fn spec_value_text(bytes: Seq<u8>) -> Option<Seq<char>> {
    if forall|i: int| 0 <= i < bytes.len() ==> spec_text_byte(#[trigger] bytes[i]) {
        Some(Seq::new(bytes.len(), |i: int| bytes[i] as char))
    } else {
        None
    }
}

/// A character that a header name keeps as it is written: a lower-case
/// letter, a digit, or one of the marks that may stand in a name.
pub open spec fn spec_name_char(c: char) -> bool {
    ('a' <= c && c <= 'z') || ('0' <= c && c <= '9') || c == '!' || c == '#' || c == '$' || c
        == '%' || c == '&' || c == '\'' || c == '*' || c == '+' || c == '-' || c == '.' || c == '^'
        || c == '_' || c == '`' || c == '|' || c == '~'
}

/// A text that is a header name as it stands: not empty, not longer than a
/// name may be, and made of characters that a name keeps.
pub open spec fn spec_plain_name(text: Seq<char>) -> bool {
    &&& 0 < text.len() <= 65535
    &&& forall|i: int| 0 <= i < text.len() ==> spec_name_char(#[trigger] text[i])
}

/// The header name that a key becomes: the key itself where it is a name as
/// it stands, and else what the transport makes of it.
pub open spec fn spec_header_name(text: Seq<char>) -> Option<Seq<char>> {
    if spec_plain_name(text) {
        Some(text)
    } else {
        header_name_of(text)
    }
}

/// The number of lines below which a header map takes any further line.
pub open spec fn spec_header_room() -> nat {
    4096
}

/// The line of the transport that a header of a plugin becomes; `None` where
/// its key is no header name or its value no header value.
pub open spec fn spec_header_line(header: HttpHeaderView) -> Option<HeaderLine> {
    match (spec_header_name(header.key), spec_header_value(header.value)) {
        (Some(name), Some(value)) => Some((name, value)),
        _ => None,
    }
}

/// Whether each of the headers becomes a line of the transport.
pub open spec fn spec_all_lines(headers: Seq<HttpHeaderView>) -> bool {
    forall|i: int| 0 <= i < headers.len() ==> spec_header_line(#[trigger] headers[i]) is Some
}

/// The header of a plugin that a line of the transport becomes; `None` where
/// its value cannot be read as text.
pub open spec fn spec_line_header(line: HeaderLine) -> Option<HttpHeaderView> {
    match spec_value_text(line.1) {
        Some(value) => Some(HttpHeaderView { key: line.0, value }),
        None => None,
    }
}

/// The lines of a request after the headers were added to it in order;
/// `None` where the request held an error or one of the headers is no line.
pub open spec fn spec_add_headers(
    start: Option<Multiset<HeaderLine>>,
    headers: Seq<HttpHeaderView>,
) -> Option<Multiset<HeaderLine>>
    decreases headers.len(),
{
    if headers.len() == 0 {
        start
    } else {
        match (spec_add_headers(start, headers.drop_last()), spec_header_line(headers.last())) {
            (Some(lines), Some(line)) => Some(lines.insert(line)),
            _ => None,
        }
    }
}

/// The headers of a plugin that the lines of the transport become, in their
/// order; `None` where the value of one of them cannot be read as text.
pub open spec fn spec_to_runtime(lines: Seq<HeaderLine>) -> Option<Seq<HttpHeaderView>> {
    if forall|i: int| 0 <= i < lines.len() ==> spec_line_header(#[trigger] lines[i]) is Some {
        Some(Seq::new(lines.len(), |i: int| spec_line_header(lines[i])->0))
    } else {
        None
    }
}

/// Calls `Builder::header` of the `http` crate, which `hyper` hands on. Where
/// the builder that comes back holds no error, the one that went in held
/// none, key and value were a header name and a header value, and the one
/// line was added to the lines that were there; a key made of lower-case
/// name characters is the name of its line as it stands. The call succeeds
/// where the builder held no error, key and value are valid and the lines are
/// few: the header map refuses a line only when it would have to grow past
/// 32768 slots, which it does not do while it holds fewer than 6554 names.
#[verifier::external_body]
pub(crate) fn add_header(builder: Builder, key: &str, value: &str) -> (added: Builder)
    ensures
        builder_lines(added) matches Some(after) ==> {
            &&& builder_lines(builder) matches Some(before)
            &&& spec_header_line(HttpHeaderView { key: key@, value: value@ }) matches Some(line)
            &&& after == before.insert(line)
        },
        ({
            &&& builder_lines(builder) matches Some(before)
            &&& before.len() < spec_header_room()
            &&& (spec_plain_name(key@) || header_name_of(key@) is Some)
            &&& spec_header_value(value@) is Some
        }) ==> builder_lines(added) is Some,
{
    builder.header(key, value)
}

/// Walks a header map with `HeaderMap::iter` and hands each line out as
/// plain values: the name by `HeaderName::as_str`, the value by
/// `HeaderValue::as_bytes`.
#[verifier::external_body]
pub(crate) fn lines_of(headers: &HeaderMap<HeaderValue>) -> (lines: Vec<(String, Vec<u8>)>)
    ensures
        lines.deep_view() == header_lines(*headers),
{
    headers
        .iter()
        .map(|(name, value)| (name.as_str().to_string(), value.as_bytes().to_vec()))
        .collect()
}

/// Calls `Builder::new` of the `http` crate: a request without an error and
/// without a header line.
#[verifier::external_body]
pub(crate) fn new_builder() -> (builder: Builder)
    ensures
        builder_lines(builder) == Some(Multiset::<HeaderLine>::empty()),
{
    Builder::new()
}

/// Calls `Builder::headers_ref` of the `http` crate: the header map of a
/// request that holds no error, whose lines are the lines of the request,
/// and `None` for a request that holds an error.
#[verifier::external_body]
pub(crate) fn builder_headers<'a>(builder: &'a Builder) -> (headers: Option<
    &'a HeaderMap<HeaderValue>,
>)
    ensures
        match headers {
            Some(map) => builder_lines(*builder) == Some(header_lines(*map).to_multiset()),
            None => builder_lines(*builder) is None,
        },
{
    builder.headers_ref()
}

/// Calls `HeaderMap::clone` of the `http` crate: the copy holds the same
/// lines in the same order.
#[verifier::external_body]
pub(crate) fn copy_headers(headers: &HeaderMap<HeaderValue>) -> (copy: HeaderMap<HeaderValue>)
    ensures
        header_lines(copy) == header_lines(*headers),
{
    headers.clone()
}

/// Adds the headers of a plugin to a request, in order. A request that
/// holds no error and few lines takes every header that becomes a line, and
/// then holds the lines that were there and one line for each header. A key
/// that is no header name, or a value that is no header value, leaves an
/// error in the request, and so does a request that held one. Nothing is
/// added for an empty list.
pub fn http_headers_from_runtime(headers: &Vec<HttpHeader>, req: Builder) -> (filled: Builder)
    ensures
        builder_lines(filled) matches Some(after) ==> spec_add_headers(
            builder_lines(req),
            headers.deep_view(),
        ) == Some(after),
        ({
            &&& builder_lines(req) matches Some(before)
            &&& before.len() + headers.len() <= spec_header_room()
            &&& spec_all_lines(headers.deep_view())
        }) ==> builder_lines(filled) is Some && builder_lines(filled) == spec_add_headers(
            builder_lines(req),
            headers.deep_view(),
        ),
        headers.len() == 0 ==> filled == req,
{
    let mut req = req;
    let ghost start = req;
    let ghost owed = {
        &&& builder_lines(start) matches Some(before)
        &&& before.len() + headers.len() <= spec_header_room()
        &&& spec_all_lines(headers.deep_view())
    };
    let mut i: usize = 0;
    proof {
        assert(headers.deep_view().take(0) =~= Seq::<HttpHeaderView>::empty());
    }
    while i < headers.len()
        invariant
            i <= headers.len(),
            i == 0 ==> req == start,
            owed == ({
                &&& builder_lines(start) matches Some(before)
                &&& before.len() + headers.len() <= spec_header_room()
                &&& spec_all_lines(headers.deep_view())
            }),
            builder_lines(req) matches Some(now) ==> spec_add_headers(
                builder_lines(start),
                headers.deep_view().take(i as int),
            ) == Some(now),
            owed ==> (builder_lines(req) matches Some(now) && now.len() == builder_lines(
                start,
            )->0.len() + i),
        decreases headers.len() - i,
    {
        let ghost before = req;
        req = add_header(req, headers[i].key.as_str(), headers[i].value.as_str());
        proof {
            broadcast use vstd::multiset::lemma_insert_len;

            let all = headers.deep_view();
            let header = HttpHeaderView { key: headers[i as int].key@, value: headers[i as int].value@ };
            assert(all.take(i + 1).drop_last() =~= all.take(i as int));
            assert(all.take(i + 1).last() == all[i as int]);
            assert(all[i as int] == header);
            if owed {
                assert(spec_header_line(all[i as int]) is Some);
                assert(spec_plain_name(header.key) || header_name_of(header.key) is Some);
            }
        }
        i += 1;
    }
    proof {
        assert(headers.deep_view().take(headers.len() as int) =~= headers.deep_view());
    }
    req
}

/// Where adding headers to a request ends without an error, each of the
/// headers became a line.
pub proof fn lemma_added_headers_are_lines(
    start: Option<Multiset<HeaderLine>>,
    headers: Seq<HttpHeaderView>,
)
    requires
        spec_add_headers(start, headers) is Some,
    ensures
        start is Some,
        spec_all_lines(headers),
    decreases headers.len(),
{
    if headers.len() > 0 {
        let front = headers.drop_last();
        lemma_added_headers_are_lines(start, front);
        assert forall|i: int| 0 <= i < headers.len() implies spec_header_line(
            #[trigger] headers[i],
        ) is Some by {
            if i < front.len() {
                assert(front[i] == headers[i]);
            }
        }
    }
}

/// The message of a request whose headers the transport does not take.
pub open spec fn spec_headers_refused() -> Seq<char> {
    "a header of the request is not valid"@
}

/// The header map that the transport is given for the headers of a plugin:
/// one line for each header, and nothing else. Headers of which one is no
/// line of the transport are refused as a failed request, before anything is
/// sent; headers that all are lines are taken, as long as they are few.
pub fn request_headers(headers: &Vec<HttpHeader>) -> (lines: Result<
    HeaderMap<HeaderValue>,
    HostError,
>)
    ensures
        match lines {
            Ok(map) => spec_add_headers(Some(Multiset::empty()), headers.deep_view()) == Some(
                header_lines(map).to_multiset(),
            ),
            Err(error) => error@ == (HostErrorView {
                code: HTTP_REQUEST_FAILED,
                message: spec_headers_refused(),
            }),
        },
        lines is Ok ==> spec_all_lines(headers.deep_view()),
        (spec_all_lines(headers.deep_view()) && headers.len() <= spec_header_room()) ==> lines
            is Ok,
{
    let fresh = new_builder();
    proof {
        broadcast use vstd::multiset::lemma_multiset_empty_len;

        assert(Multiset::<HeaderLine>::empty().len() == 0);
    }
    let filled = http_headers_from_runtime(headers, fresh);
    match builder_headers(&filled) {
        Some(map) => {
            proof {
                lemma_added_headers_are_lines(
                    Some(Multiset::<HeaderLine>::empty()),
                    headers.deep_view(),
                );
            }
            Ok(copy_headers(map))
        },
        None => Err(
            HostError {
                code: HTTP_REQUEST_FAILED,
                message: String::from_str("a header of the request is not valid"),
            },
        ),
    }
}

/// Reads the bytes of a header value as text.
pub fn value_text(bytes: &Vec<u8>) -> (text: Option<String>)
    ensures
        text.deep_view() == spec_value_text(bytes@),
{
    let mut text = String::new();
    let mut i: usize = 0;
    while i < bytes.len()
        invariant
            i <= bytes.len(),
            text@.len() == i,
            forall|j: int| 0 <= j < i ==> spec_text_byte(#[trigger] bytes[j]),
            forall|j: int| 0 <= j < i ==> text@[j] == bytes[j] as char,
        decreases bytes.len() - i,
    {
        let byte = bytes[i];
        if !(byte >= 32 && byte < 127 || byte == 9) {
            return None;
        }
        push_char(&mut text, byte as char);
        i += 1;
    }
    assert(text@ =~= Seq::new(bytes@.len(), |i: int| bytes@[i] as char));
    Some(text)
}

/// The headers of a plugin for the lines of a header map, in the map's
/// order, each with its name and its value as text. A value that cannot be
/// read as text gives `None`.
pub fn try_http_headers_to_runtime(header_map: &HeaderMap<HeaderValue>) -> (headers: Option<
    Vec<HttpHeader>,
>)
    ensures
        headers.deep_view() == spec_to_runtime(header_lines(*header_map)),
{
    let lines = lines_of(header_map);
    let mut runtime_headers: Vec<HttpHeader> = Vec::new();
    let mut i: usize = 0;
    while i < lines.len()
        invariant
            i <= lines.len(),
            runtime_headers.len() == i,
            lines.deep_view() == header_lines(*header_map),
            forall|j: int|
                0 <= j < i ==> spec_line_header(#[trigger] lines.deep_view()[j]) == Some(
                    runtime_headers[j]@,
                ),
        decreases lines.len() - i,
    {
        assert(lines.deep_view()[i as int] == (lines[i as int].0@, lines[i as int].1@));
        match value_text(&lines[i].1) {
            None => {
                return None;
            },
            Some(value) => {
                runtime_headers.push(HttpHeader { key: lines[i].0.clone(), value });
            },
        }
        i += 1;
    }
    assert(runtime_headers.deep_view() =~= Seq::new(
        lines.deep_view().len(),
        |i: int| spec_line_header(lines.deep_view()[i])->0,
    ));
    Some(runtime_headers)
}

/// The headers of a plugin for the lines of a header map whose values can
/// all be read as text.
pub fn http_headers_to_runtime(header_map: &HeaderMap<HeaderValue>) -> (headers: Vec<HttpHeader>)
    requires
        spec_to_runtime(header_lines(*header_map)) is Some,
    ensures
        Some(headers.deep_view()) == spec_to_runtime(header_lines(*header_map)),
{
    match try_http_headers_to_runtime(header_map) {
        Some(headers) => headers,
        None => {
            proof {
                assert(false);
            }
            Vec::new()
        },
    }
}

/// A line whose value can be read as text, and whose name the transport
/// keeps as it is written, comes back unchanged when it is turned into a
/// header of a plugin and that header into a line again.
pub proof fn lemma_line_round_trip(line: HeaderLine)
    requires
        spec_value_text(line.1) is Some,
        spec_header_name(line.0) == Some(line.0),
    ensures
        spec_line_header(line) is Some,
        spec_header_line(spec_line_header(line)->0) == Some(line),
{
    let bytes = line.1;
    let text = spec_value_text(bytes)->0;
    assert(is_ascii_chars(text)) by {
        assert forall|i: int| 0 <= i < text.len() implies '\0' <= #[trigger] text[i]
            <= '\u{7f}' by {
            assert(spec_text_byte(bytes[i]));
        }
    }
    is_ascii_chars_encode_utf8(text);
    assert(encode_utf8(text) =~= bytes) by {
        assert forall|i: int| 0 <= i < bytes.len() implies encode_utf8(text)[i] == bytes[i] by {
            assert(spec_text_byte(bytes[i]));
            assert(text[i] == bytes[i] as char);
            assert(text[i] as u8 == bytes[i]);
        }
    }
    assert forall|i: int| 0 <= i < bytes.len() implies spec_value_byte(#[trigger] bytes[i]) by {
        assert(spec_text_byte(bytes[i]));
    }
}

/// A header of a plugin whose value is made of tabs and printable ASCII
/// characters, and whose key the transport keeps as it is written, comes
/// back with the same key and the same value when it is turned into a line
/// and that line into a header again.
pub proof fn lemma_header_round_trip(header: HttpHeaderView)
    requires
        spec_header_name(header.key) == Some(header.key),
        forall|i: int|
            0 <= i < header.value.len() ==> {
                let c = #[trigger] header.value[i];
                ' ' <= c <= '~' || c == '\t'
            },
    ensures
        spec_header_line(header) is Some,
        spec_line_header(spec_header_line(header)->0) == Some(header),
{
    let text = header.value;
    assert(is_ascii_chars(text));
    is_ascii_chars_encode_utf8(text);
    let bytes = encode_utf8(text);
    assert forall|i: int| 0 <= i < bytes.len() implies spec_text_byte(#[trigger] bytes[i]) by {
        let c = text[i];
        assert(' ' <= c <= '~' || c == '\t');
        assert(c as u8 == bytes[i]);
    }
    assert forall|i: int| 0 <= i < bytes.len() implies spec_value_byte(#[trigger] bytes[i]) by {
        assert(spec_text_byte(bytes[i]));
    }
    assert(spec_value_text(bytes)->0 =~= text) by {
        assert forall|i: int| 0 <= i < text.len() implies bytes[i] as char == text[i] by {
            let c = text[i];
            assert(' ' <= c <= '~' || c == '\t');
            assert(c as u8 == bytes[i]);
        }
    }
}

/// The lines of a header map whose values can all be read as text, and whose
/// names the transport keeps as they are written, are the very lines that a
/// fresh request holds after the headers made of them were added to it.
pub proof fn lemma_lines_round_trip(lines: Seq<HeaderLine>)
    requires
        forall|i: int|
            0 <= i < lines.len() ==> {
                &&& spec_value_text((#[trigger] lines[i]).1) is Some
                &&& spec_header_name(lines[i].0) == Some(lines[i].0)
            },
    ensures
        spec_to_runtime(lines) is Some,
        spec_add_headers(Some(Multiset::empty()), spec_to_runtime(lines)->0) == Some(
            lines.to_multiset(),
        ),
    decreases lines.len(),
{
    broadcast use vstd::seq_lib::group_to_multiset_ensures;

    assert forall|i: int| 0 <= i < lines.len() implies spec_line_header(#[trigger] lines[i])
        is Some by {
        lemma_line_round_trip(lines[i]);
    }
    let headers = spec_to_runtime(lines)->0;
    if lines.len() == 0 {
        assert(lines.to_multiset() =~= Multiset::<HeaderLine>::empty());
    } else {
        let front = lines.drop_last();
        assert forall|i: int| 0 <= i < front.len() implies {
            &&& spec_value_text((#[trigger] front[i]).1) is Some
            &&& spec_header_name(front[i].0) == Some(front[i].0)
        } by {
            assert(front[i] == lines[i]);
        }
        lemma_lines_round_trip(front);
        assert(spec_to_runtime(front)->0 =~= headers.drop_last());
        lemma_line_round_trip(lines.last());
        assert(headers.last() == spec_line_header(lines.last())->0);
        assert(front.push(lines.last()) =~= lines);
        assert(lines.to_multiset() =~= front.to_multiset().insert(lines.last()));
    }
}

/// Two lists that hold the same items equally often still do so after each
/// item was replaced by what a function makes of it.
pub proof fn lemma_same_items_after_map<A, B>(a: Seq<A>, b: Seq<A>, f: spec_fn(A) -> B)
    requires
        a.to_multiset() == b.to_multiset(),
    ensures
        a.map_values(f).to_multiset() == b.map_values(f).to_multiset(),
    decreases a.len(),
{
    a.to_multiset_ensures();
    b.to_multiset_ensures();
    if a.len() == 0 {
        assert(b.len() == 0);
        assert(a.map_values(f) =~= b.map_values(f));
    } else {
        let x = a.last();
        let front = a.drop_last();
        front.to_multiset_ensures();
        assert(front.push(x) =~= a);
        assert(a.to_multiset() =~= front.to_multiset().insert(x));
        assert(a.to_multiset().count(x) > 0);
        assert(b.contains(x));
        let i = choose|i: int| 0 <= i < b.len() && b[i] == x;
        let rest = b.remove(i);
        assert(rest.to_multiset() =~= b.to_multiset().remove(x));
        assert(front.to_multiset() =~= rest.to_multiset());
        lemma_same_items_after_map(front, rest, f);
        let mapped_front = front.map_values(f);
        let mapped_b = b.map_values(f);
        mapped_front.to_multiset_ensures();
        mapped_b.to_multiset_ensures();
        assert(mapped_front.push(f(x)) =~= a.map_values(f));
        assert(mapped_b.remove(i) =~= rest.map_values(f));
        assert(mapped_b[i] == f(x));
        assert(mapped_b.contains(f(x)));
        assert(mapped_b.to_multiset() =~= mapped_b.remove(i).to_multiset().insert(f(x)));
    }
}

/// The lines of a fresh request after headers that all become lines were
/// added to it are the lines that the headers become, each as often as its
/// header occurs.
pub proof fn lemma_added_lines(headers: Seq<HttpHeaderView>)
    requires
        spec_all_lines(headers),
    ensures
        spec_add_headers(Some(Multiset::empty()), headers) == Some(
            headers.map_values(|header: HttpHeaderView| spec_header_line(header)->0).to_multiset(),
        ),
    decreases headers.len(),
{
    let line_of = |header: HttpHeaderView| spec_header_line(header)->0;
    let lines = headers.map_values(line_of);
    lines.to_multiset_ensures();
    if headers.len() == 0 {
        assert(lines.to_multiset() =~= Multiset::<HeaderLine>::empty());
    } else {
        let front = headers.drop_last();
        assert forall|i: int| 0 <= i < front.len() implies spec_header_line(#[trigger] front[i])
            is Some by {
            assert(front[i] == headers[i]);
        }
        lemma_added_lines(front);
        let front_lines = front.map_values(line_of);
        front_lines.to_multiset_ensures();
        assert(spec_header_line(headers.last()) is Some);
        assert(front_lines.push(line_of(headers.last())) =~= lines);
    }
}

/// Headers survive the way to the transport and back. Where each key is a
/// name that the transport keeps as it is written and each value is made of
/// tabs and printable ASCII characters, the headers that are read from the
/// lines of a fresh request to which they were added are the same headers,
/// each as often as before, with key and value unchanged; their order is the
/// header map's.
pub proof fn lemma_headers_survive_transport(headers: Seq<HttpHeaderView>, lines: Seq<HeaderLine>)
    requires
        forall|i: int|
            0 <= i < headers.len() ==> {
                &&& spec_header_name((#[trigger] headers[i]).key) == Some(headers[i].key)
                &&& forall|j: int|
                    0 <= j < headers[i].value.len() ==> {
                        let c = #[trigger] headers[i].value[j];
                        ' ' <= c <= '~' || c == '\t'
                    }
            },
        spec_add_headers(Some(Multiset::empty()), headers) == Some(lines.to_multiset()),
    ensures
        spec_to_runtime(lines) matches Some(back) && back.to_multiset() == headers.to_multiset(),
{
    let line_of = |header: HttpHeaderView| spec_header_line(header)->0;
    let header_of = |line: HeaderLine| spec_line_header(line)->0;
    assert forall|i: int| 0 <= i < headers.len() implies spec_header_line(#[trigger] headers[i])
        is Some by {
        lemma_header_round_trip(headers[i]);
    }
    lemma_added_lines(headers);
    let made = headers.map_values(line_of);
    assert(made.to_multiset() == lines.to_multiset());
    made.to_multiset_ensures();
    lines.to_multiset_ensures();
    assert forall|j: int| 0 <= j < lines.len() implies spec_line_header(#[trigger] lines[j])
        is Some by {
        assert(lines.contains(lines[j]));
        assert(made.to_multiset().count(lines[j]) > 0);
        assert(made.contains(lines[j]));
        let i = choose|i: int| 0 <= i < made.len() && made[i] == lines[j];
        lemma_header_round_trip(headers[i]);
    }
    let back = spec_to_runtime(lines)->0;
    assert(back =~= lines.map_values(header_of));
    lemma_same_items_after_map(lines, made, header_of);
    assert(made.map_values(header_of) =~= headers) by {
        assert forall|i: int| 0 <= i < headers.len() implies made.map_values(header_of)[i]
            == headers[i] by {
            lemma_header_round_trip(headers[i]);
        }
    }
}

} // verus!
