//! What the library takes from other crates and from the standard library on
//! trust: types it carries without looking inside, and functions whose
//! contracts are stated here.

use axum::body::Body;
use axum::response::IntoResponse;
use http::{HeaderMap, HeaderName, HeaderValue, StatusCode};
use reqwest::Error as HttpError;
use reqwest::{Client, ClientBuilder};
use serde_json::Error as JsonError;
use std::sync::Arc;
use tokio::task::JoinError;
use vstd::prelude::*;

verus! {

/// A JSON value, carried unread.
#[verifier::external_type_specification]
#[verifier::external_body]
pub struct ExJsonValue(serde_json::Value);

/// A JSON error, carried unread.
#[verifier::external_type_specification]
#[verifier::external_body]
pub struct ExJsonError(JsonError);

/// An input or output error, carried unread.
#[verifier::external_type_specification]
#[verifier::external_body]
pub struct ExIoError(std::io::Error);

/// An HTTP client error, carried unread.
#[verifier::external_type_specification]
#[verifier::external_body]
pub struct ExHttpError(HttpError);

/// Headers by name; `header_entries` says what they hold, `header_order` in which
/// order, and `header_origin` how the map came about.
#[verifier::external_type_specification]
#[verifier::external_body]
#[verifier::reject_recursive_types(T)]
pub struct ExHeaderMap<T>(http::HeaderMap<T>);

/// The name of a header; `name_text` says what it is.
#[verifier::external_type_specification]
#[verifier::external_body]
pub struct ExHeaderName(HeaderName);

/// The value of one header; `header_bytes` says what it holds.
#[verifier::external_type_specification]
#[verifier::external_body]
pub struct ExHeaderValue(HeaderValue);

/// An HTTP response; `response_status`, `response_headers` and `response_text` say
/// what it holds.
#[verifier::external_type_specification]
#[verifier::external_body]
#[verifier::reject_recursive_types(T)]
pub struct ExResponse<T>(http::Response<T>);

/// The body of a response, carried unread.
#[verifier::external_type_specification]
#[verifier::external_body]
pub struct ExBody(Body);

/// An HTTP client under construction; `builder_connect_timeout`,
/// `builder_response_timeout`, `builder_read_timeout` and `builder_headers` say how
/// it is set up.
#[verifier::external_type_specification]
#[verifier::external_body]
pub struct ExClientBuilder(ClientBuilder);

/// An HTTP client; `client_connect_timeout`, `client_response_timeout`,
/// `client_read_timeout` and `client_headers` say how it is set up.
#[verifier::external_type_specification]
#[verifier::external_body]
pub struct ExClient(Client);

/// Why a task did not come to its own end.
#[verifier::external_type_specification]
#[verifier::external_body]
pub struct ExJoinError(JoinError);

/// What the standard library's `Debug` for `str` writes: the text between double
/// quotes, with quotes, backslashes and unprintable characters escaped.
pub uninterp spec fn quoted_text(text: Seq<char>) -> Seq<char>;

/// What the standard library's `Debug` for `Duration` writes for a span of
/// `secs` seconds and `nanos` nanoseconds.
pub uninterp spec fn duration_text(secs: u64, nanos: u32) -> Seq<char>;

/// Calls the standard library's `Debug` for `str`. Claims only that the result
/// depends on the text alone.
#[verifier::external_body]
pub(crate) fn quote(text: &str) -> (quoted: String)
    ensures
        quoted@ == quoted_text(text@),
{
    format!("{text:?}")
}

/// Calls the standard library's `Debug` for `Duration`. Claims only that the
/// result depends on the two numbers alone. `Duration::new` does not carry here,
/// so it cannot overflow.
#[verifier::external_body]
pub(crate) fn format_duration(secs: u64, nanos: u32) -> (text: String)
    requires
        nanos < 1_000_000_000,
    ensures
        text@ == duration_text(secs, nanos),
{
    format!("{:?}", std::time::Duration::new(secs, nanos))
}

/// Whether a JSON error comes from reading or writing a stream.
pub uninterp spec fn is_stream_error(failure: JsonError) -> bool;

/// `serde_json::Error::is_io`: whether the error comes from a stream, which the
/// error alone decides.
pub assume_specification[ JsonError::is_io ](failure: &JsonError) -> (stream: bool)
    ensures
        stream == is_stream_error(*failure),
;

/// What `Display` for `serde_json::Error` writes, unless the error comes from a
/// stream.
pub uninterp spec fn json_error_display(error: JsonError) -> Seq<char>;

/// Calls `Display` for `serde_json::Error`. Claims only that the text depends on
/// the error alone. Nothing is claimed of an error that comes from a stream: it
/// shows the text of that stream's error, which may rest on the machine.
#[verifier::external_body]
pub(crate) fn json_error_text(error: &JsonError) -> (text: String)
    ensures
        !is_stream_error(*error) ==> text@ == json_error_display(*error),
{
    error.to_string()
}

/// Calls `Display` for `std::io::Error`. Claims nothing of the text, which for
/// an operating system error rests on the machine.
#[verifier::external_body]
pub(crate) fn io_error_text(error: &std::io::Error) -> (text: String) {
    error.to_string()
}

/// What `Display` for `reqwest::Error` writes.
pub uninterp spec fn http_error_display(error: HttpError) -> Seq<char>;

/// Calls `Display` for `reqwest::Error`. Claims only that the text depends on
/// the error alone.
#[verifier::external_body]
pub(crate) fn http_error_text(error: &HttpError) -> (text: String)
    ensures
        text@ == http_error_display(*error),
{
    error.to_string()
}

/// Calls `Arc::clone`. Claims that the new handle leads to the same value.
#[verifier::external_body]
pub(crate) fn share<T>(shared: &Arc<T>) -> (handle: Arc<T>)
    ensures
        handle == *shared,
{
    Arc::clone(shared)
}

/// `Clone` for `serde_json::Value`: the copy is the same JSON value.
pub assume_specification[ <serde_json::Value as Clone>::clone ](
    value: &serde_json::Value,
) -> (copy: serde_json::Value)
    ensures
        copy == *value,
;

/// Whether an error of `tokio::task` says that the task was cancelled.
pub uninterp spec fn is_cancellation(failure: JoinError) -> bool;

/// `JoinError::is_cancelled`: whether the task was cancelled, which the error alone
/// decides.
pub assume_specification[ JoinError::is_cancelled ](failure: &JoinError) -> (cancelled: bool)
    ensures
        cancelled == is_cancellation(*failure),
;

/// What a header map holds: for each name, in lower case, the bytes of its values,
/// oldest first. A name that is there has at least one value.
pub uninterp spec fn header_entries(headers: HeaderMap<HeaderValue>) -> Map<
    Seq<char>,
    Seq<Seq<u8>>,
>;

/// The bytes of a header value.
pub uninterp spec fn header_bytes(value: HeaderValue) -> Seq<u8>;

/// The text of a header name, in lower case.
pub uninterp spec fn name_text(name: HeaderName) -> Seq<char>;

/// `HeaderName::from_static`: the name of this text. Stated for names of lower-case
/// letters, which are valid.
pub assume_specification[ HeaderName::from_static ](src: &'static str) -> (name: HeaderName)
    requires
        0 < src@.len() <= 100,
        forall|i: int| 0 <= i < src@.len() ==> 'a' <= #[trigger] src@[i] <= 'z',
    ensures
        name_text(name) == src@,
;

/// `HeaderValue::from_static`: the value of this text. Stated for visible ASCII and
/// spaces, which are valid.
pub assume_specification[ HeaderValue::from_static ](src: &'static str) -> (value: HeaderValue)
    requires
        forall|i: int| 0 <= i < src@.len() ==> ' ' <= #[trigger] src@[i] <= '~',
    ensures
        header_bytes(value) == vstd::utf8::encode_utf8(src@),
;

/// The names of a header map, each once, in the order in which it yields them.
pub uninterp spec fn header_order(headers: HeaderMap<HeaderValue>) -> Seq<Seq<char>>;

/// The capacity that a header map was made with, where since then headers were only
/// inserted, one after the other.
pub uninterp spec fn header_origin(headers: HeaderMap<HeaderValue>) -> Option<nat>;

/// The most names among which any further one can be inserted, whatever the names
/// are. A map of 32768 slots cannot grow, and a map is only asked to grow where its
/// names fill a fifth of its slots.
pub const HEADER_LIMIT: usize = 6553;

/// The most names that a header map can hold: three quarters of 32768 slots.
pub const MOST_HEADERS: usize = 24576;

/// Whether a header map can take one more header, under whatever name.
pub uninterp spec fn has_room(headers: HeaderMap<HeaderValue>) -> bool;

/// No headers at all.
pub open spec fn no_headers() -> Map<Seq<char>, Seq<Seq<u8>>> {
    Map::empty()
}

/// Calls `HeaderMap::with_capacity`. Claims that the map is empty.
#[verifier::external_body]
pub(crate) fn header_map(capacity: usize) -> (headers: HeaderMap<HeaderValue>)
    requires
        capacity <= MOST_HEADERS,
    ensures
        header_entries(headers) == no_headers(),
        header_order(headers).len() == 0,
        header_origin(headers) == Some(capacity as nat),
{
    HeaderMap::with_capacity(capacity)
}

/// Calls `HeaderMap::try_insert`. Claims that a header that is inserted has this
/// value alone, and comes behind the others where its name is new. The map alone
/// decides whether it is inserted: always up to `HEADER_LIMIT` names, and never among
/// `MOST_HEADERS`. Which maps between the two have room is left unsaid: it rests on
/// where their names fall in the table, and so on the machine's word size.
#[verifier::external_body]
pub(crate) fn insert_header(
    headers: &mut HeaderMap<HeaderValue>,
    name: HeaderName,
    value: HeaderValue,
) -> (inserted: bool)
    ensures
        inserted == has_room(*old(headers)),
        header_order(*old(headers)).len() <= HEADER_LIMIT ==> inserted,
        header_order(*old(headers)).len() >= MOST_HEADERS ==> !inserted,
        inserted ==> header_entries(*final(headers)) == header_entries(*old(headers)).insert(
            name_text(name),
            seq![header_bytes(value)],
        ),
        inserted ==> header_order(*final(headers)) == if header_order(*old(headers)).contains(
            name_text(name),
        ) {
            header_order(*old(headers))
        } else {
            header_order(*old(headers)).push(name_text(name))
        },
        inserted ==> header_origin(*final(headers)) == header_origin(*old(headers)),
{
    headers.try_insert(name, value).is_ok()
}

/// Calls `HeaderMap::get` for the `Authorization` header. Claims that it gives the
/// first value of that name, if there is one.
#[verifier::external_body]
pub(crate) fn authorization_header(headers: &HeaderMap<HeaderValue>) -> (value: Option<
    &HeaderValue,
>)
    ensures
        value is Some <==> header_entries(*headers).dom().contains("authorization"@),
        value matches Some(first) ==> {
            &&& header_entries(*headers)["authorization"@].len() > 0
            &&& header_bytes(*first) == header_entries(*headers)["authorization"@][0]
        },
{
    headers.get(http::header::AUTHORIZATION)
}

/// A byte that a header shows as text: visible ASCII, a space or a tab.
pub open spec fn is_visible(byte: u8) -> bool {
    32 <= byte < 127 || byte == 9
}

/// The characters of ASCII bytes.
pub open spec fn ascii_text(bytes: Seq<u8>) -> Seq<char> {
    bytes.map_values(|byte: u8| byte as char)
}

/// Calls `HeaderValue::to_str`. Claims that it gives the bytes as text where all of
/// them are visible, and nothing otherwise.
#[verifier::external_body]
pub(crate) fn header_text(value: &HeaderValue) -> (text: Option<&str>)
    ensures
        text is Some <==> forall|i: int|
            0 <= i < header_bytes(*value).len() ==> is_visible(#[trigger] header_bytes(*value)[i]),
        text matches Some(shown) ==> shown@ == ascii_text(header_bytes(*value)),
{
    value.to_str().ok()
}

/// The status code of a response.
pub uninterp spec fn response_status(response: http::Response<Body>) -> u16;

/// What the headers of a response hold, as in `header_entries`.
pub uninterp spec fn response_headers(response: http::Response<Body>) -> Map<
    Seq<char>,
    Seq<Seq<u8>>,
>;

/// The text that the body of a response yields.
pub uninterp spec fn response_text(response: http::Response<Body>) -> Seq<char>;

/// Calls axum's `IntoResponse` for a status code and a text. Claims that the
/// response has this status, this body, and a single header that says that the body
/// is plain text.
#[verifier::external_body]
pub(crate) fn text_response(status: u16, body: String) -> (response: http::Response<Body>)
    requires
        100 <= status < 1000,
    ensures
        response_status(response) == status,
        response_text(response) == body@,
        response_headers(response) == map![
            "content-type"@ => seq![vstd::utf8::encode_utf8("text/plain; charset=utf-8"@)],
        ],
{
    (StatusCode::from_u16(status).unwrap(), body).into_response()
}

/// Calls `HeaderMap::insert` for the `Connection` header of a response. Claims that
/// this header then has the one value given, and that nothing else changes.
#[verifier::external_body]
pub(crate) fn set_connection_header(response: &mut http::Response<Body>, value: HeaderValue)
    requires
        response_headers(*old(response)).dom().finite(),
        response_headers(*old(response)).dom().len() <= HEADER_LIMIT,
    ensures
        response_status(*final(response)) == response_status(*old(response)),
        response_text(*final(response)) == response_text(*old(response)),
        response_headers(*final(response)) == response_headers(*old(response)).insert(
            "connection"@,
            seq![header_bytes(value)],
        ),
{
    response.headers_mut().insert(http::header::CONNECTION, value);
}

/// How long a client under construction lets a connection take, in nanoseconds.
pub uninterp spec fn builder_connect_timeout(builder: ClientBuilder) -> Option<nat>;

/// How long a client under construction lets a request take from connecting to the
/// end of the response's body, in nanoseconds.
pub uninterp spec fn builder_response_timeout(builder: ClientBuilder) -> Option<nat>;

/// How long a client under construction waits for each part of a response, in
/// nanoseconds.
pub uninterp spec fn builder_read_timeout(builder: ClientBuilder) -> Option<nat>;

/// The headers that a client under construction sends with every request that
/// does not set them itself, as in `header_entries`.
pub uninterp spec fn builder_headers(builder: ClientBuilder) -> Map<Seq<char>, Seq<Seq<u8>>>;

/// How long a client lets a connection take, in nanoseconds.
pub uninterp spec fn client_connect_timeout(client: Client) -> Option<nat>;

/// How long a client lets a request take from connecting to the end of the
/// response's body, in nanoseconds, where the request sets no limit itself.
pub uninterp spec fn client_response_timeout(client: Client) -> Option<nat>;

/// How long a client waits for each part of a response, in nanoseconds.
pub uninterp spec fn client_read_timeout(client: Client) -> Option<nat>;

/// The headers that a client sends with every request that does not set them
/// itself, as in `header_entries`.
pub uninterp spec fn client_headers(client: Client) -> Map<Seq<char>, Seq<Seq<u8>>>;

/// What a client sends unless it is told otherwise: that it accepts anything.
pub open spec fn initial_headers() -> Map<Seq<char>, Seq<Seq<u8>>> {
    map!["accept"@ => seq![vstd::utf8::encode_utf8("*/*"@)]]
}

/// `Client::builder`: neither connecting nor a response is bounded, and the only
/// header says that anything is accepted.
pub assume_specification[ Client::builder ]() -> (builder: ClientBuilder)
    ensures
        builder_connect_timeout(builder) is None,
        builder_response_timeout(builder) is None,
        builder_read_timeout(builder) is None,
        builder_headers(builder) == initial_headers(),
;

/// Calls `ClientBuilder::connect_timeout`. Claims that it bounds connections by
/// this span, and that it changes neither how responses are bounded nor any header.
#[verifier::external_body]
pub(crate) fn bound_connections(builder: ClientBuilder, secs: u64, nanos: u32) -> (bounded:
    ClientBuilder)
    requires
        nanos < 1_000_000_000,
    ensures
        builder_connect_timeout(bounded) == Some((secs * 1_000_000_000 + nanos) as nat),
        builder_response_timeout(bounded) == builder_response_timeout(builder),
        builder_read_timeout(bounded) == builder_read_timeout(builder),
        builder_headers(bounded) == builder_headers(builder),
{
    builder.connect_timeout(std::time::Duration::new(secs, nanos))
}

/// The headers of `base` with those of `added` on top: a name of `added` has the
/// last of its values there and no other.
pub open spec fn with_headers(
    base: Map<Seq<char>, Seq<Seq<u8>>>,
    added: Map<Seq<char>, Seq<Seq<u8>>>,
) -> Map<Seq<char>, Seq<Seq<u8>>> {
    base.union_prefer_right(added.map_values(|values: Seq<Seq<u8>>| seq![values.last()]))
}

/// The capacity with which the header map of a client under construction starts.
pub const CLIENT_CAPACITY: usize = 2;

/// `headers` was filled as a client under construction fills its own map: from the
/// same capacity, `accept` first.
pub open spec fn is_rehearsed(headers: HeaderMap<HeaderValue>) -> bool {
    &&& header_origin(headers) == Some(CLIENT_CAPACITY as nat)
    &&& header_order(headers).len() > 0
    &&& header_order(headers)[0] == "accept"@
}

/// `ClientBuilder::default_headers`: each name of `headers` replaces what was set
/// under it, and connections and responses stay bounded as before.
///
/// The call panics where the builder's own map reaches its limit. That map was made
/// with `CLIENT_CAPACITY` and holds `accept`; the call inserts the names of
/// `headers` in their order. A map that was filled so before did not reach its
/// limit at any of these names, so the builder's map does not either: on one machine
/// only the capacity, the names and their order decide when a map grows.
pub assume_specification[ ClientBuilder::default_headers ](
    builder: ClientBuilder,
    headers: HeaderMap,
) -> (extended: ClientBuilder)
    requires
        builder_headers(builder) == initial_headers(),
        is_rehearsed(headers),
    ensures
        builder_connect_timeout(extended) == builder_connect_timeout(builder),
        builder_response_timeout(extended) == builder_response_timeout(builder),
        builder_read_timeout(extended) == builder_read_timeout(builder),
        builder_headers(extended) == with_headers(
            builder_headers(builder),
            header_entries(headers),
        ),
;

/// `ClientBuilder::build`: a client that is built is set up as its builder says.
/// Whether it is built rests on the machine.
pub assume_specification[ ClientBuilder::build ](builder: ClientBuilder) -> (built: Result<
    Client,
    HttpError,
>)
    ensures
        built matches Ok(client) ==> {
            &&& client_connect_timeout(client) == builder_connect_timeout(builder)
            &&& client_response_timeout(client) == builder_response_timeout(builder)
            &&& client_read_timeout(client) == builder_read_timeout(builder)
            &&& client_headers(client) == builder_headers(builder)
        },
;

} // verus!
