//! Backends over streamable HTTP.

use http::{HeaderMap, HeaderName, HeaderValue};
use reqwest::{Client, ClientBuilder};
use vstd::prelude::*;

use crate::backend::BackendServerConfig;
use crate::error::Error;
use crate::outside;
use crate::text;
use crate::timeout;
use crate::timeout::Timeout;

verus! {

/// The advice added to the error of a server that asks for authentication.
pub const AUTH_REQUIRED_HINT: &'static str = "\n\nThis remote MCP server appears to require authentication. For direct URL mode, pass explicit backend headers with the full command, for example: `mcp-compressor -- <url> -H \"Authorization=Bearer <token>\"`. Use native OAuth by omitting the `Authorization` header; other configured headers are sent alongside OAuth. For MCP JSON config, set valid headers in the server headers object.";

/// The advice added to any other error of a remote server.
pub const AUTH_POSSIBLE_HINT: &'static str = "\n\nIf this remote MCP server requires authentication, use native OAuth or configure explicit headers. For direct URL mode, pass explicit backend headers with the full command, for example: `mcp-compressor -- <url> -H \"Authorization=Bearer <token>\"`. Use native OAuth by omitting the `Authorization` header; other configured headers are sent alongside OAuth. For MCP JSON config, set valid headers in the server headers object.";

/// `error` reads as if the server asks for authentication.
pub open spec fn asks_for_auth(error: Seq<char>) -> bool {
    ||| text::occurs(error, "401"@)
    ||| text::occurs(error, "403"@)
    ||| text::occurs(error, "WWW-Authenticate"@)
    ||| text::occurs(text::lower_text(error), "unauthorized"@)
}

/// The advice that goes with `error`.
pub open spec fn auth_hint(error: Seq<char>) -> Seq<char> {
    if asks_for_auth(error) {
        AUTH_REQUIRED_HINT@
    } else {
        AUTH_POSSIBLE_HINT@
    }
}

/// `result` says that the backend at `uri` could not be initialised because of
/// `error`.
pub open spec fn is_remote_error(result: Error, uri: Seq<char>, error: Seq<char>) -> bool {
    result matches Error::Config(reason) && reason@
        == "failed to initialize remote streamable HTTP backend "@ + uri + ": "@ + error
        + auth_hint(error)
}

/// The error of a remote backend, with advice on authentication.
pub fn remote_backend_error(uri: &str, error: String) -> (result: Error)
    ensures
        is_remote_error(result, uri@, error@),
{
    let chars = text::chars_of(error.as_str());
    let known = text::contains_chars(&chars, "401") || text::contains_chars(&chars, "403")
        || text::contains_chars(&chars, "WWW-Authenticate") || text::contains_chars(
        &text::lower_chars(&chars),
        "unauthorized",
    );
    let hint = if known {
        AUTH_REQUIRED_HINT
    } else {
        AUTH_POSSIBLE_HINT
    };
    let mut reason = text::concat3(
        "failed to initialize remote streamable HTTP backend ",
        uri,
        ": ",
    );
    reason.append(error.as_str());
    reason.append(hint);
    Error::Config(reason)
}

/// How a streamable HTTP backend is connected.
#[derive(Clone, Copy, Debug, PartialEq, Eq, Structural)]
pub enum HttpRoute {
    /// With an OAuth login.
    OAuth,
    /// With the configured headers alone.
    Direct,
}

/// `route` is how a streamable HTTP backend is connected.
pub open spec fn takes_route<D>(
    config: BackendServerConfig<D>,
    route: Result<HttpRoute, Error>,
) -> bool {
    &&& config.args@.len() > 0 ==> (route matches Err(Error::Config(reason)) && reason@
        == "streamable HTTP backend URLs do not accept command arguments"@)
    &&& config.args@.len() == 0 ==> route == Ok::<HttpRoute, Error>(
        if config.use_oauth {
            HttpRoute::OAuth
        } else {
            HttpRoute::Direct
        },
    )
}

/// Decides how a streamable HTTP backend is connected. A URL takes no arguments.
pub fn connect_streamable_http_backend<D>(config: &BackendServerConfig<D>) -> (route: Result<
    HttpRoute,
    Error,
>)
    ensures
        takes_route(*config, route),
{
    if config.args.len() > 0 {
        return Err(
            Error::Config(
                "streamable HTTP backend URLs do not accept command arguments".to_string(),
            ),
        );
    }
    if config.use_oauth {
        Ok(HttpRoute::OAuth)
    } else {
        Ok(HttpRoute::Direct)
    }
}

/// The span of an optional timeout, in nanoseconds.
pub open spec fn opt_span(timeout: Option<Timeout>) -> Option<nat> {
    match timeout {
        Some(timeout) => Some(timeout@),
        None => None,
    }
}

/// `client` gives up connecting after `timeout` and bounds nothing else: neither a
/// whole response nor the wait for a part of it.
pub open spec fn bounds_only_connecting(client: Client, timeout: Option<Timeout>) -> bool {
    &&& outside::client_connect_timeout(client) == opt_span(timeout)
    &&& outside::client_response_timeout(client) is None
    &&& outside::client_read_timeout(client) is None
}

/// A client under construction whose connections are bounded by the backend
/// timeout. Only connecting is bounded: a deadline for whole responses would cut
/// streams that are slow but healthy.
pub fn backend_http_client_builder<D>(config: &BackendServerConfig<D>) -> (builder: ClientBuilder)
    ensures
        outside::builder_connect_timeout(builder) == opt_span(config.timeout),
        outside::builder_response_timeout(builder) is None,
        outside::builder_read_timeout(builder) is None,
        outside::builder_headers(builder) == outside::initial_headers(),
{
    let builder = Client::builder();
    match config.timeout {
        Some(timeout) => outside::bound_connections(
            builder,
            timeout.as_secs(),
            timeout.subsec_nanos(),
        ),
        None => builder,
    }
}

/// What building the client of a backend without a login gives.
pub fn built_client<C>(built: Result<C, reqwest::Error>) -> (client: Result<C, Error>)
    ensures
        client == match built {
            Ok(client) => Ok::<C, Error>(client),
            Err(error) => Err(Error::Http(error)),
        },
{
    match built {
        Ok(client) => Ok(client),
        Err(error) => Err(Error::Http(error)),
    }
}

/// What building the client of a backend with an OAuth login gives.
pub fn built_oauth_client<C>(built: Result<C, reqwest::Error>) -> (client: Result<C, Error>)
    ensures
        match built {
            Ok(own) => client == Ok::<C, Error>(own),
            Err(error) => client matches Err(Error::Config(reason)) && reason@
                == "failed to build OAuth HTTP client: "@ + outside::http_error_display(error),
        },
{
    match built {
        Ok(client) => Ok(client),
        Err(error) => Err(
            Error::Config(
                text::concat(
                    "failed to build OAuth HTTP client: ",
                    outside::http_error_text(&error).as_str(),
                ),
            ),
        ),
    }
}

/// `client` is what building the client of a backend without a login can give.
pub open spec fn is_backend_client<D>(
    config: BackendServerConfig<D>,
    client: Result<Client, Error>,
) -> bool {
    match client {
        Ok(client) => {
            &&& bounds_only_connecting(client, config.timeout)
            &&& outside::client_headers(client) == outside::initial_headers()
        },
        Err(error) => error is Http,
    }
}

/// The HTTP client of a backend without a login. Whether it can be built rests on
/// the machine.
pub fn backend_http_client<D>(config: &BackendServerConfig<D>) -> (client: Result<Client, Error>)
    ensures
        is_backend_client(*config, client),
{
    built_client(backend_http_client_builder(config).build())
}

/// A header: its name and its value.
pub type Header = (HeaderName, HeaderValue);

/// What is sent under each name where the headers of `list` are set on top of those
/// of a client that is told nothing. Of a name that is there twice the last counts.
pub open spec fn sent_headers(list: Seq<Header>) -> Map<Seq<char>, Seq<Seq<u8>>>
    decreases list.len(),
{
    if list.len() == 0 {
        outside::initial_headers()
    } else {
        sent_headers(list.drop_last()).insert(
            outside::name_text(list.last().0),
            seq![outside::header_bytes(list.last().1)],
        )
    }
}

/// What is sent has one value under each name, and always says what is accepted.
proof fn one_value_is_sent(list: Seq<Header>)
    ensures
        sent_headers(list).dom().contains("accept"@),
        forall|name: Seq<char>|
            sent_headers(list).dom().contains(name) ==> (#[trigger] sent_headers(list)[name]).len()
                == 1,
    decreases list.len(),
{
    if list.len() > 0 {
        one_value_is_sent(list.drop_last());
    }
}

/// A name that is put behind others where it is new is then among them, once.
proof fn set_of_names_grows(names: Seq<Seq<char>>, name: Seq<char>)
    requires
        names.no_duplicates(),
    ensures
        ({
            let after = if names.contains(name) {
                names
            } else {
                names.push(name)
            };
            &&& after.no_duplicates()
            &&& after.to_set() == names.to_set().insert(name)
        }),
{
    let after = if names.contains(name) {
        names
    } else {
        names.push(name)
    };
    assert forall|other: Seq<char>| after.to_set().contains(other)
        == names.to_set().insert(name).contains(other) by {
        if names.contains(other) {
            assert(after[names.index_of(other)] == other);
        }
        if other == name && !names.contains(name) {
            assert(after[names.len() as int] == name);
        }
    }
    assert(after.to_set() =~= names.to_set().insert(name));
}

/// `headers` holds what a client with the headers of `list` sends, and was filled as
/// the client fills its own map.
pub open spec fn holds(list: Seq<Header>, headers: HeaderMap<HeaderValue>) -> bool {
    &&& outside::header_entries(headers) == sent_headers(list)
    &&& outside::is_rehearsed(headers)
}

/// A header map that is filled with the headers of `list` reaches its limit before
/// the last of them. Up to `outside::HEADER_LIMIT` headers none does, and beyond
/// `outside::MOST_HEADERS` names every one does.
pub open spec fn overflows(list: Seq<Header>) -> bool {
    &&& list.len() > outside::HEADER_LIMIT
    &&& exists|k: int, headers: HeaderMap<HeaderValue>|
        {
            &&& 0 <= k < list.len()
            &&& #[trigger] holds(list.take(k), headers)
            &&& !outside::has_room(headers)
        }
}

/// `filled` is a header map that holds what is sent, where one can.
pub open spec fn fills(list: Seq<Header>, filled: Option<HeaderMap<HeaderValue>>) -> bool {
    match filled {
        Some(headers) => {
            &&& holds(list, headers)
            &&& sent_headers(list).dom().len() <= outside::MOST_HEADERS
        },
        None => overflows(list),
    }
}

/// A header map that holds what a client with these headers sends; none where a
/// header map reaches its limit. It is filled as the client fills its own.
pub fn header_map_of(list: Vec<Header>) -> (filled: Option<HeaderMap<HeaderValue>>)
    ensures
        fills(list@, filled),
{
    let ghost all = list@;
    let mut headers = outside::header_map(outside::CLIENT_CAPACITY);
    proof {
        reveal_strlit("accept");
        reveal_strlit("*/*");
    }
    let accept = HeaderName::from_static("accept");
    let anything = HeaderValue::from_static("*/*");
    let ghost before = outside::header_order(headers);
    let inserted = outside::insert_header(&mut headers, accept, anything);
    proof {
        assert(inserted);
        set_of_names_grows(before, "accept"@);
        assert(before.to_set() =~= Set::empty());
        assert(outside::header_entries(headers) =~= sent_headers(all.take(0)));
    }
    for header in it: list
        invariant
            it.seq() == all,
            outside::header_entries(headers) == sent_headers(all.take(it.index())),
            outside::is_rehearsed(headers),
            outside::header_order(headers).no_duplicates(),
            outside::header_order(headers).to_set() == sent_headers(all.take(it.index())).dom(),
            outside::header_order(headers).len() <= it.index() + 1,
            outside::header_order(headers).len() <= outside::MOST_HEADERS,
    {
        let (name, value) = header;
        let ghost held = headers;
        let ghost before = outside::header_order(headers);
        let ghost text = outside::name_text(name);
        proof {
            assert(all[it.index()] == header);
            assert(all.take(it.index() + 1).drop_last() =~= all.take(it.index()));
            assert(all.take(it.index() + 1).last() == header);
        }
        if !outside::insert_header(&mut headers, name, value) {
            assert(holds(all.take(it.index()), held));
            return None;
        }
        proof {
            set_of_names_grows(before, text);
        }
    }
    proof {
        assert(all.take(all.len() as int) =~= all);
        outside::header_order(headers).unique_seq_to_set();
    }
    Some(headers)
}

/// `client` is what a backend with an OAuth login uses to send `headers` alongside.
pub open spec fn is_oauth_client<D>(
    config: BackendServerConfig<D>,
    headers: Seq<Header>,
    client: Client,
) -> bool {
    &&& bounds_only_connecting(client, config.timeout)
    &&& outside::client_headers(client) == sent_headers(headers)
}

/// `error` says that the client of a login could not be built.
pub open spec fn is_unbuilt_client(error: Error) -> bool {
    error matches Error::Config(reason) && exists|cause: reqwest::Error|
        reason@ == "failed to build OAuth HTTP client: "@ + #[trigger] outside::http_error_display(
            cause,
        )
}

/// `client` is what building the client of a login gives: none only where no header
/// map can hold its headers.
pub open spec fn is_built_with<D>(
    config: BackendServerConfig<D>,
    headers: Seq<Header>,
    client: Option<Result<Client, Error>>,
) -> bool {
    match client {
        Some(Ok(client)) => {
            &&& is_oauth_client(config, headers, client)
            &&& sent_headers(headers).dom().len() <= outside::MOST_HEADERS
        },
        Some(Err(error)) => {
            &&& is_unbuilt_client(error)
            &&& sent_headers(headers).dom().len() <= outside::MOST_HEADERS
        },
        None => overflows(headers),
    }
}

/// The HTTP client of a backend with an OAuth login, which sends the configured
/// headers alongside; none where no header map can hold them. Headers that are not
/// valid are reported before anything is built.
pub fn oauth_http_client<D>(
    config: &BackendServerConfig<D>,
    headers: Result<Vec<Header>, Error>,
) -> (client: Option<Result<Client, Error>>)
    ensures
        match headers {
            Ok(headers) => is_built_with(*config, headers@, client),
            Err(error) => client == Some(Err::<Client, Error>(error)),
        },
{
    let list = match headers {
        Ok(list) => list,
        Err(error) => {
            return Some(Err(error));
        },
    };
    let ghost all = list@;
    let headers = match header_map_of(list) {
        Some(headers) => headers,
        None => {
            return None;
        },
    };
    proof {
        one_value_is_sent(all);
        assert(outside::with_headers(outside::initial_headers(), sent_headers(all))
            =~= sent_headers(all)) by {
            let sent = sent_headers(all);
            let single = sent.map_values(|values: Seq<Seq<u8>>| seq![values.last()]);
            assert forall|name: Seq<char>| sent.dom().contains(name) implies single[name]
                == sent[name] by {
                assert(seq![sent[name].last()] =~= sent[name]);
            }
            assert(single =~= sent);
        }
    }
    let builder = backend_http_client_builder(config);
    Some(built_oauth_client(builder.default_headers(headers).build()))
}

/// What a connection without a login is made of. `C` is an HTTP client and `H` a
/// header.
#[derive(Debug)]
pub struct DirectTransport<C, H> {
    /// The client, which bounds each request.
    pub client: BackendHttpClient<C>,
    /// Headers that the transport adds to each request, if any.
    pub custom_headers: Option<Vec<H>>,
    /// Headers that go to the header provider, if there is one.
    pub provider_headers: Option<Vec<H>>,
}

/// The connection that these parts make. With a header provider the headers go
/// through it; without one the transport sends them.
pub open spec fn direct<D, C, H>(
    config: BackendServerConfig<D>,
    inner: C,
    headers: Vec<H>,
) -> DirectTransport<C, H> {
    DirectTransport {
        client: BackendHttpClient { inner, timeout: config.timeout },
        custom_headers: if !config.has_header_provider && headers@.len() > 0 {
            Some(headers)
        } else {
            None
        },
        provider_headers: if config.has_header_provider {
            Some(headers)
        } else {
            None
        },
    }
}

/// `transport` is the connection that a client and headers make. A failure of the
/// client goes before one of the headers.
pub open spec fn joins<D, C, H>(
    config: BackendServerConfig<D>,
    client: Result<C, Error>,
    headers: Result<Vec<H>, Error>,
    transport: Result<DirectTransport<C, H>, Error>,
) -> bool {
    match (client, headers) {
        (Err(error), _) => transport == Err::<DirectTransport<C, H>, Error>(error),
        (Ok(_), Err(error)) => transport == Err::<DirectTransport<C, H>, Error>(error),
        (Ok(inner), Ok(headers)) => transport == Ok::<DirectTransport<C, H>, Error>(
            direct(config, inner, headers),
        ),
    }
}

/// The connection to a backend without a login, from its client and its headers.
/// A failure of the client is reported first.
pub fn direct_transport<D, C, H>(
    config: &BackendServerConfig<D>,
    client: Result<C, Error>,
    headers: Result<Vec<H>, Error>,
) -> (transport: Result<DirectTransport<C, H>, Error>)
    ensures
        joins(*config, client, headers, transport),
{
    let inner = match client {
        Ok(inner) => inner,
        Err(error) => {
            return Err(error);
        },
    };
    let headers = match headers {
        Ok(headers) => headers,
        Err(error) => {
            return Err(error);
        },
    };
    let client = BackendHttpClient::new(inner, config.timeout);
    if config.has_header_provider {
        Ok(DirectTransport { client, custom_headers: None, provider_headers: Some(headers) })
    } else if headers.len() > 0 {
        Ok(DirectTransport { client, custom_headers: Some(headers), provider_headers: None })
    } else {
        Ok(DirectTransport { client, custom_headers: None, provider_headers: None })
    }
}

/// Makes the connection to a backend without a login ready. A client that cannot
/// be built is reported before headers that are not valid.
pub fn connect_direct<D, H>(
    config: &BackendServerConfig<D>,
    headers: Result<Vec<H>, Error>,
) -> (transport: Result<DirectTransport<Client, H>, Error>)
    ensures
        exists|client: Result<Client, Error>|
            {
                &&& is_backend_client(*config, client)
                &&& #[trigger] joins(*config, client, headers, transport)
            },
{
    let client = backend_http_client(config);
    let ghost built = client;
    let transport = direct_transport(config, client, headers);
    assert(joins(*config, built, headers, transport));
    transport
}

/// `result` is what serving a remote backend gives.
pub open spec fn is_served<S>(
    uri: Seq<char>,
    client: Result<S, String>,
    result: Result<S, Error>,
) -> bool {
    match client {
        Ok(client) => result == Ok::<S, Error>(client),
        Err(reason) => result is Err && is_remote_error(result->Err_0, uri, reason@),
    }
}

/// What serving a remote backend gives: the client, or the error with advice.
pub fn served<S>(uri: &str, client: Result<S, String>) -> (result: Result<S, Error>)
    ensures
        is_served(uri@, client, result),
{
    match client {
        Ok(client) => Ok(client),
        Err(reason) => Err(remote_backend_error(uri, reason)),
    }
}

/// The time that a request may take beyond the backend timeout, so that a queued
/// cancellation still goes out, in nanoseconds.
pub const REQUEST_GRACE: u32 = 100_000_000;

/// An HTTP client whose requests are bounded in time.
#[derive(Debug)]
pub struct BackendHttpClient<C> {
    /// The client that makes the requests.
    pub inner: C,
    /// The timeout of the backend.
    pub timeout: Option<Timeout>,
}

/// How a request ended. `E` is the client's own error.
#[derive(Debug)]
pub enum RequestEnd<T, E> {
    /// The request came to its own end.
    Finished(Result<T, E>),
    /// The time ran out first.
    Elapsed,
}

/// Why a request failed.
#[derive(Debug)]
pub enum RequestFailure<E> {
    /// The client's own error.
    Own(E),
    /// The request took too long; the text says so.
    TimedOut(&'static str),
}

/// `result` is what a request gives that ended so.
pub open spec fn ends_as<T, E>(
    end: RequestEnd<T, E>,
    result: Result<T, RequestFailure<E>>,
) -> bool {
    match end {
        RequestEnd::Finished(Ok(value)) => result == Ok::<T, RequestFailure<E>>(value),
        RequestEnd::Finished(Err(error)) => result == Err::<T, RequestFailure<E>>(
            RequestFailure::Own(error),
        ),
        RequestEnd::Elapsed => result matches Err(RequestFailure::TimedOut(message)) && message@
            == "backend HTTP request timed out"@,
    }
}

/// How long a request may take under a backend timeout, in nanoseconds.
pub open spec fn request_span(timeout: nat) -> nat {
    if timeout + REQUEST_GRACE <= timeout::longest() {
        timeout + REQUEST_GRACE as nat
    } else {
        timeout::longest()
    }
}

impl<C> BackendHttpClient<C> {
    /// A client that bounds the requests of `inner` by `timeout`.
    pub fn new(inner: C, timeout: Option<Timeout>) -> (client: Self)
        ensures
            client == (BackendHttpClient { inner, timeout }),
    {
        BackendHttpClient { inner, timeout }
    }

    /// How long a request may take: the backend timeout and a little more.
    pub fn request_deadline(&self) -> (deadline: Option<Timeout>)
        ensures
            deadline is Some == self.timeout is Some,
            self.timeout matches Some(timeout) ==> deadline->0@ == request_span(timeout@),
    {
        match self.timeout {
            Some(timeout) => Some(timeout.saturating_add(Timeout::new(0, REQUEST_GRACE))),
            None => None,
        }
    }

    /// What a request gives: its own result, or a failure where the time ran out
    /// first.
    pub fn request<T, E>(&self, end: RequestEnd<T, E>) -> (result: Result<T, RequestFailure<E>>)
        requires
            end is Elapsed ==> self.timeout is Some,
        ensures
            ends_as(end, result),
    {
        match end {
            RequestEnd::Finished(Ok(value)) => Ok(value),
            RequestEnd::Finished(Err(error)) => Err(RequestFailure::Own(error)),
            RequestEnd::Elapsed => Err(RequestFailure::TimedOut("backend HTTP request timed out")),
        }
    }
}

/// What is sent under a name that only the header at `at` has.
proof fn header_is_sent(list: Seq<Header>, at: int)
    requires
        0 <= at < list.len(),
        forall|i: int|
            at < i < list.len() ==> outside::name_text((#[trigger] list[i]).0)
                != outside::name_text(list[at].0),
    ensures
        sent_headers(list).dom().contains(outside::name_text(list[at].0)),
        sent_headers(list)[outside::name_text(list[at].0)] == seq![
            outside::header_bytes(list[at].1),
        ],
    decreases list.len(),
{
    if at < list.len() - 1 {
        let rest = list.drop_last();
        assert(outside::name_text(list[list.len() - 1].0) != outside::name_text(list[at].0));
        assert forall|i: int| at < i < rest.len() implies outside::name_text((#[trigger] rest[i]).0)
            != outside::name_text(rest[at].0) by {
            assert(list[i] == rest[i]);
        }
        header_is_sent(rest, at);
    }
}

/// Every configured header goes with the requests of a login, whatever the client
/// would send under its name otherwise. Of a name that is configured twice the last
/// header goes.
pub proof fn configured_headers_go_alongside_a_login<D>(
    config: BackendServerConfig<D>,
    headers: Seq<Header>,
    client: Client,
    at: int,
)
    requires
        is_oauth_client(config, headers, client),
        0 <= at < headers.len(),
        forall|i: int|
            at < i < headers.len() ==> outside::name_text((#[trigger] headers[i]).0)
                != outside::name_text(headers[at].0),
    ensures
        outside::client_headers(client).dom().contains(outside::name_text(headers[at].0)),
        outside::client_headers(client)[outside::name_text(headers[at].0)] == seq![
            outside::header_bytes(headers[at].1),
        ],
{
    header_is_sent(headers, at);
}

/// A request gets more time than the backend timeout, by the full grace, wherever
/// so long a span can be held at all.
pub proof fn requests_outlast_the_backend_timeout(timeout: nat)
    requires
        timeout + REQUEST_GRACE <= timeout::longest(),
    ensures
        request_span(timeout) == timeout + REQUEST_GRACE,
        request_span(timeout) > timeout,
{
}

/// The advice never hides the error: both the URL and the error stand in the
/// message.
pub proof fn remote_errors_quote_their_cause(result: Error, uri: Seq<char>, error: Seq<char>)
    requires
        is_remote_error(result, uri, error),
    ensures
        result is Config,
        text::occurs(result->Config_0@, uri),
        text::occurs(result->Config_0@, error),
{
    let lead = "failed to initialize remote streamable HTTP backend "@;
    let reason = result->Config_0@;
    let uri_at: int = lead.len() as int;
    assert(reason.subrange(uri_at, uri_at + uri.len()) =~= uri);
    assert(text::occurs_at(reason, uri, uri_at));
    let error_at: int = uri_at + uri.len() + ": "@.len();
    assert(reason.subrange(error_at, error_at + error.len()) =~= error);
    assert(text::occurs_at(reason, error, error_at));
}

/// `marker` reads as if a server asks for authentication: a status, the name of the
/// header that asks, or the word in whatever case.
pub open spec fn is_auth_marker(marker: Seq<char>) -> bool {
    ||| marker == "401"@
    ||| marker == "403"@
    ||| marker == "WWW-Authenticate"@
    ||| marker.len() == 12 && forall|i: int|
        0 <= i < 12 ==> (#[trigger] marker[i] == "unauthorized"@[i] || ('A' <= marker[i]
            && marker[i] <= 'Z' && marker[i] as u32 + 32 == "unauthorized"@[i] as u32))
}

/// An error that has a marker anywhere in it is told with the advice for servers that
/// require authentication, whatever stands around the marker.
pub proof fn marked_errors_get_the_advice_on_authentication(
    result: Error,
    uri: Seq<char>,
    before: Seq<char>,
    marker: Seq<char>,
    after: Seq<char>,
)
    requires
        is_auth_marker(marker),
        is_remote_error(result, uri, before + marker + after),
    ensures
        result matches Error::Config(reason) && reason@
            == "failed to initialize remote streamable HTTP backend "@ + uri + ": "@ + (before
            + marker + after) + AUTH_REQUIRED_HINT@,
{
    let error = before + marker + after;
    text::a_part_occurs(before, marker, after);
    if marker != "401"@ && marker != "403"@ && marker != "WWW-Authenticate"@ {
        reveal_strlit("unauthorized");
        assert("unauthorized"@.len() == 12);
        let low = text::lower_text(error);
        let at: int = before.len() as int;
        assert forall|i: int| 0 <= i < 12 implies low[at + i] == "unauthorized"@[i] by {
            assert(error[at + i] == marker[i]);
            text::lower_case_changes_capitals_alone(error, at + i);
        }
        assert(low.subrange(at, at + 12) =~= "unauthorized"@);
        assert(text::occurs_at(low, "unauthorized"@, at));
    }
}

/// An error that has no marker in it is told with the general advice.
pub proof fn unmarked_errors_get_the_general_advice(result: Error, uri: Seq<char>, error: Seq<char>)
    requires
        is_remote_error(result, uri, error),
        forall|before: Seq<char>, marker: Seq<char>, after: Seq<char>|
            error == #[trigger] (before + marker + after) ==> !is_auth_marker(marker),
    ensures
        result matches Error::Config(reason) && reason@
            == "failed to initialize remote streamable HTTP backend "@ + uri + ": "@ + error
            + AUTH_POSSIBLE_HINT@,
{
    if text::occurs(error, "401"@) {
        text::what_occurs_is_a_part(error, "401"@);
        assert(is_auth_marker("401"@));
    }
    if text::occurs(error, "403"@) {
        text::what_occurs_is_a_part(error, "403"@);
        assert(is_auth_marker("403"@));
    }
    if text::occurs(error, "WWW-Authenticate"@) {
        text::what_occurs_is_a_part(error, "WWW-Authenticate"@);
        assert(is_auth_marker("WWW-Authenticate"@));
    }
    let low = text::lower_text(error);
    if text::occurs(low, "unauthorized"@) {
        reveal_strlit("unauthorized");
        assert("unauthorized"@.len() == 12);
        let at = choose|at: int| text::occurs_at(low, "unauthorized"@, at);
        let marker = error.subrange(at, at + 12);
        assert forall|i: int| 0 <= i < 12 implies (#[trigger] marker[i] == "unauthorized"@[i] || (
        'A' <= marker[i] && marker[i] <= 'Z' && marker[i] as u32 + 32 == "unauthorized"@[i] as u32))
            by {
            text::lower_case_changes_capitals_alone(error, at + i);
            assert(low.subrange(at, at + 12)[i] == low[at + i]);
            assert(marker[i] == error[at + i]);
        }
        assert(is_auth_marker(marker));
        assert(error =~= error.take(at) + marker + error.skip(at + 12));
    }
}

/// A client of a backend without a login gives up connecting after the backend
/// timeout and bounds nothing else; all that it sends of its own is that it accepts
/// anything. A client that cannot be built is an HTTP error.
pub proof fn a_plain_client_bounds_connecting_alone<D>(
    config: BackendServerConfig<D>,
    client: Client,
    error: Error,
    name: Seq<char>,
)
    requires
        is_backend_client(config, Ok(client)),
        is_backend_client(config, Err(error)),
    ensures
        error is Http,
        config.timeout matches Some(timeout) ==> outside::client_connect_timeout(client) == Some(
            timeout@,
        ),
        config.timeout is None ==> outside::client_connect_timeout(client) is None,
        outside::client_response_timeout(client) is None,
        outside::client_read_timeout(client) is None,
        outside::client_headers(client).dom().contains(name) <==> name == "accept"@,
        outside::client_headers(client)["accept"@] == seq![vstd::utf8::encode_utf8("*/*"@)],
{
}

/// A login sends nothing that is not configured, but for what every client accepts.
proof fn nothing_else_is_sent(list: Seq<Header>, name: Seq<char>)
    requires
        forall|i: int| 0 <= i < list.len() ==> outside::name_text((#[trigger] list[i]).0) != name,
    ensures
        sent_headers(list).dom().contains(name) <==> name == "accept"@,
        name == "accept"@ ==> sent_headers(list)[name] == seq![vstd::utf8::encode_utf8("*/*"@)],
    decreases list.len(),
{
    if list.len() > 0 {
        let rest = list.drop_last();
        assert(outside::name_text(list[list.len() - 1].0) != name);
        assert forall|i: int| 0 <= i < rest.len() implies outside::name_text((#[trigger] rest[i]).0)
            != name by {
            assert(list[i] == rest[i]);
        }
        nothing_else_is_sent(rest, name);
    }
}

/// The client of a login gives up connecting after the backend timeout and bounds
/// nothing else, and sends nothing that is not configured, but for what every client
/// accepts.
pub proof fn a_login_client_adds_nothing_of_its_own<D>(
    config: BackendServerConfig<D>,
    headers: Seq<Header>,
    client: Client,
    name: Seq<char>,
)
    requires
        is_built_with(config, headers, Some(Ok(client))),
        forall|i: int|
            0 <= i < headers.len() ==> outside::name_text((#[trigger] headers[i]).0) != name,
    ensures
        config.timeout matches Some(timeout) ==> outside::client_connect_timeout(client) == Some(
            timeout@,
        ),
        config.timeout is None ==> outside::client_connect_timeout(client) is None,
        outside::client_response_timeout(client) is None,
        outside::client_read_timeout(client) is None,
        outside::client_headers(client).dom().contains(name) <==> name == "accept"@,
        name == "accept"@ ==> outside::client_headers(client)[name] == seq![
            vstd::utf8::encode_utf8("*/*"@),
        ],
{
    nothing_else_is_sent(headers, name);
}

/// The client of a login sends the header at `at` under its name, unless a later one
/// has the same name.
pub proof fn a_login_client_sends_what_is_configured<D>(
    config: BackendServerConfig<D>,
    headers: Seq<Header>,
    client: Client,
    at: int,
)
    requires
        is_built_with(config, headers, Some(Ok(client))),
        0 <= at < headers.len(),
        forall|i: int|
            at < i < headers.len() ==> outside::name_text((#[trigger] headers[i]).0)
                != outside::name_text(headers[at].0),
    ensures
        outside::client_headers(client).dom().contains(outside::name_text(headers[at].0)),
        outside::client_headers(client)[outside::name_text(headers[at].0)] == seq![
            outside::header_bytes(headers[at].1),
        ],
{
    header_is_sent(headers, at);
}

/// Ordinary lists of headers always give a client or say why it could not be built.
pub proof fn ordinary_headers_always_fit<D>(
    config: BackendServerConfig<D>,
    headers: Seq<Header>,
    client: Option<Result<Client, Error>>,
)
    requires
        is_built_with(config, headers, client),
        headers.len() <= 6553,
    ensures
        client is Some,
        client->0 matches Err(error) ==> (error matches Error::Config(reason) && exists|
            cause: reqwest::Error,
        |
            reason@ == "failed to build OAuth HTTP client: "@
                + #[trigger] outside::http_error_display(cause)),
{
}

/// A header map that is filled holds each configured header under its name, the last
/// of those with one name, and nothing else but what every client accepts.
pub proof fn a_filled_map_holds_what_is_configured(
    list: Seq<Header>,
    headers: HeaderMap<HeaderValue>,
    at: int,
    name: Seq<char>,
)
    requires
        fills(list, Some(headers)),
        0 <= at < list.len(),
        forall|i: int|
            at < i < list.len() ==> outside::name_text((#[trigger] list[i]).0)
                != outside::name_text(list[at].0),
        forall|i: int| 0 <= i < list.len() ==> outside::name_text((#[trigger] list[i]).0) != name,
    ensures
        outside::header_entries(headers)[outside::name_text(list[at].0)] == seq![
            outside::header_bytes(list[at].1),
        ],
        outside::header_entries(headers).dom().contains(outside::name_text(list[at].0)),
        outside::header_entries(headers).dom().contains(name) <==> name == "accept"@,
{
    header_is_sent(list, at);
    nothing_else_is_sent(list, name);
}

/// A connection hands its headers to the header provider exactly where there is one,
/// also where the list is empty; without one the transport sends them all, and no
/// list is sent that is empty. The client is the one that was built, bounded by the
/// backend timeout.
pub proof fn headers_go_to_the_provider_or_the_transport<D, C, H>(
    config: BackendServerConfig<D>,
    inner: C,
    headers: Vec<H>,
    transport: Result<DirectTransport<C, H>, Error>,
)
    requires
        joins(config, Ok(inner), Ok(headers), transport),
    ensures
        transport is Ok,
        transport->Ok_0.client.inner == inner,
        transport->Ok_0.client.timeout == config.timeout,
        transport->Ok_0.provider_headers is Some <==> config.has_header_provider,
        config.has_header_provider ==> transport->Ok_0.provider_headers->0 == headers,
        config.has_header_provider ==> transport->Ok_0.custom_headers is None,
        !config.has_header_provider && headers@.len() > 0 ==> transport->Ok_0.custom_headers
            == Some(headers),
        !config.has_header_provider && headers@.len() == 0 ==> transport->Ok_0.custom_headers
            is None,
{
}

/// A connection fails for its client first and for its headers then, with their own
/// errors, and for nothing else.
pub proof fn a_connection_fails_for_its_client_first<D, C, H>(
    config: BackendServerConfig<D>,
    client: Result<C, Error>,
    headers: Result<Vec<H>, Error>,
    transport: Result<DirectTransport<C, H>, Error>,
)
    requires
        joins(config, client, headers, transport),
    ensures
        client is Err ==> transport is Err && transport->Err_0 == client->Err_0,
        client is Ok && headers is Err ==> transport is Err && transport->Err_0 == headers->Err_0,
        client is Ok && headers is Ok ==> transport is Ok,
{
}

/// A request has a tenth of a second more than the backend timeout, up to the longest
/// span that there is.
pub proof fn requests_have_a_tenth_of_a_second_more(timeout: nat)
    ensures
        timeout + 100_000_000 <= 18_446_744_073_709_551_615 * 1_000_000_000 + 999_999_999
            ==> request_span(timeout) == timeout + 100_000_000,
        timeout + 100_000_000 > 18_446_744_073_709_551_615 * 1_000_000_000 + 999_999_999
            ==> request_span(timeout) == 18_446_744_073_709_551_615 * 1_000_000_000 + 999_999_999,
{
}

/// The advice, word for word.
pub proof fn the_advice_is_worded_so()
    ensures
        AUTH_REQUIRED_HINT@ == "\n\nThis remote MCP server appears to require authentication. For direct URL mode, pass explicit backend headers with the full command, for example: `mcp-compressor -- <url> -H \"Authorization=Bearer <token>\"`. Use native OAuth by omitting the `Authorization` header; other configured headers are sent alongside OAuth. For MCP JSON config, set valid headers in the server headers object."@,
        AUTH_POSSIBLE_HINT@ == "\n\nIf this remote MCP server requires authentication, use native OAuth or configure explicit headers. For direct URL mode, pass explicit backend headers with the full command, for example: `mcp-compressor -- <url> -H \"Authorization=Bearer <token>\"`. Use native OAuth by omitting the `Authorization` header; other configured headers are sent alongside OAuth. For MCP JSON config, set valid headers in the server headers object."@,
{
}

/// A URL with arguments is refused, whether or not a login is asked for; without
/// arguments the login decides the way.
pub proof fn urls_take_no_arguments<D>(
    config: BackendServerConfig<D>,
    route: Result<HttpRoute, Error>,
)
    requires
        takes_route(config, route),
    ensures
        config.args@.len() > 0 ==> (route matches Err(Error::Config(reason)) && reason@
            == "streamable HTTP backend URLs do not accept command arguments"@),
        config.args@.len() == 0 && config.use_oauth ==> route matches Ok(HttpRoute::OAuth),
        config.args@.len() == 0 && !config.use_oauth ==> route matches Ok(HttpRoute::Direct),
{
}

/// A backend that is served gives its client, and one that is not an error that tells
/// its URL and the reason.
pub proof fn serving_gives_the_client_or_tells_why<S>(
    uri: Seq<char>,
    client: S,
    reason: String,
    served: Result<S, Error>,
    failed: Result<S, Error>,
)
    requires
        is_served(uri, Ok(client), served),
        is_served(uri, Err::<S, String>(reason), failed),
    ensures
        served is Ok && served->Ok_0 == client,
        failed is Err && is_remote_error(failed->Err_0, uri, reason@),
{
}

/// A request gives its own result or its own error, and one that takes too long says
/// so.
pub proof fn requests_give_their_own_end<T, E>(
    value: T,
    error: E,
    done: Result<T, RequestFailure<E>>,
    failed: Result<T, RequestFailure<E>>,
    late: Result<T, RequestFailure<E>>,
)
    requires
        ends_as(RequestEnd::<T, E>::Finished(Ok(value)), done),
        ends_as(RequestEnd::<T, E>::Finished(Err(error)), failed),
        ends_as(RequestEnd::<T, E>::Elapsed, late),
    ensures
        done is Ok && done->Ok_0 == value,
        failed matches Err(RequestFailure::Own(own)) && own == error,
        late matches Err(RequestFailure::TimedOut(message)) && message@
            == "backend HTTP request timed out"@,
{
}

/// A login is given up for its headers only where a header map that holds some of
/// them, filled as the client fills its own, has no room for the next; and no client
/// sends more names than a header map holds.
pub proof fn only_full_maps_keep_a_login_from_its_client<D>(
    config: BackendServerConfig<D>,
    headers: Seq<Header>,
    client: Option<Result<Client, Error>>,
)
    requires
        is_built_with(config, headers, client),
    ensures
        client is None ==> exists|k: int, map: HeaderMap<HeaderValue>|
            0 <= k < headers.len() && outside::header_entries(map) == #[trigger] sent_headers(
                headers.take(k),
            ) && #[trigger] outside::is_rehearsed(map) && !outside::has_room(map),
        client is Some ==> sent_headers(headers).dom().len() <= 24576,
{
    if client is None {
        let (k, map) = choose|k: int, map: HeaderMap<HeaderValue>|
            {
                &&& 0 <= k < headers.len()
                &&& #[trigger] holds(headers.take(k), map)
                &&& !outside::has_room(map)
            };
        assert(outside::header_entries(map) == sent_headers(headers.take(k)));
        assert(outside::is_rehearsed(map));
    }
}

/// A header map cannot be filled only where one that holds some of the headers has no
/// room for the next, and never for an ordinary list.
pub proof fn only_full_maps_cannot_be_filled(
    list: Seq<Header>,
    filled: Option<HeaderMap<HeaderValue>>,
)
    requires
        fills(list, filled),
    ensures
        list.len() <= 6553 ==> filled is Some,
        filled is None ==> exists|k: int, map: HeaderMap<HeaderValue>|
            0 <= k < list.len() && outside::header_entries(map) == #[trigger] sent_headers(
                list.take(k),
            ) && #[trigger] outside::is_rehearsed(map) && !outside::has_room(map),
        filled is Some ==> sent_headers(list).dom().len() <= 24576,
{
    if filled is None {
        let (k, map) = choose|k: int, map: HeaderMap<HeaderValue>|
            {
                &&& 0 <= k < list.len()
                &&& #[trigger] holds(list.take(k), map)
                &&& !outside::has_room(map)
            };
        assert(outside::header_entries(map) == sent_headers(list.take(k)));
        assert(outside::is_rehearsed(map));
    }
}

} // verus!
