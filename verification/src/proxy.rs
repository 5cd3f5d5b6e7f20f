//! The HTTP bridge to a compressed server: who may use it, what it answers, and
//! which backend call a request becomes.

use axum::body::Body;
use http::{HeaderMap, HeaderValue, Response};
use serde_json::Value;
use std::sync::Arc;
use tokio::task::JoinError;
use vstd::prelude::*;

use crate::error;
use crate::error::Error;
use crate::outside;
use crate::text;

verus! {

/// The status of a request that was served.
pub const OK: u16 = 200;

/// The status of a request that was refused or could not be served.
pub const BAD_REQUEST: u16 = 400;

/// The status of a request without a valid token.
pub const UNAUTHORIZED: u16 = 401;

/// The proxy for tool calls.
#[derive(Debug)]
pub struct ToolProxyServer;

impl ToolProxyServer {
    /// Wraps a connected compressed server for use within the process.
    ///
    /// There is no listener, no token and no background task. Callers dispatch
    /// tools directly, by [`dispatch_exec`], on the shared handle.
    pub fn in_process<S>(server: S) -> (shared: Arc<S>)
        ensures
            *shared == server,
    {
        Arc::new(server)
    }
}

/// The token that every request to a bridge has to show.
#[derive(Debug)]
pub struct SessionToken {
    value: String,
}

impl View for SessionToken {
    type V = Seq<char>;

    closed spec fn view(&self) -> Seq<char> {
        self.value@
    }
}

impl SessionToken {
    /// The token of this text.
    pub fn new(value: String) -> (token: SessionToken)
        ensures
            token@ == value@,
    {
        SessionToken { value }
    }

    /// The text of the token.
    pub fn value(&self) -> (value: &str)
        ensures
            value@ == self@,
    {
        self.value.as_str()
    }
}

/// A running bridge. `S` is the compressed server and `J` the task that serves.
#[derive(Debug)]
pub struct RunningToolProxy<S, J> {
    bridge_url: String,
    token: SessionToken,
    server: Arc<S>,
    /// The task that serves.
    pub task: J,
}

/// `result` is what stopping a bridge gives whose task ended so.
pub open spec fn stops(ended: Result<(), JoinError>, result: Result<(), JoinError>) -> bool {
    result == match ended {
        Ok(_) => Ok::<(), JoinError>(()),
        Err(failure) => if outside::is_cancellation(failure) {
            Ok(())
        } else {
            Err(failure)
        },
    }
}

/// What a `RunningToolProxy` says.
pub struct ProxyView<S, J> {
    pub bridge_url: Seq<char>,
    pub token: Seq<char>,
    pub server: S,
    pub task: J,
}

impl<S, J> View for RunningToolProxy<S, J> {
    type V = ProxyView<S, J>;

    closed spec fn view(&self) -> ProxyView<S, J> {
        ProxyView {
            bridge_url: self.bridge_url@,
            token: self.token@,
            server: *self.server,
            task: self.task,
        }
    }
}

impl<S, J> RunningToolProxy<S, J> {
    /// The bridge that `task` serves at `address`.
    pub fn new(address: &str, token: SessionToken, task: J, server: Arc<S>) -> (proxy: Self)
        ensures
            proxy@ == (ProxyView {
                bridge_url: "http://"@ + address@,
                token: token@,
                server: *server,
                task,
            }),
    {
        RunningToolProxy { bridge_url: text::concat("http://", address), token, server, task }
    }

    /// The shared handle to the compressed server, for calls within the process.
    pub fn server(&self) -> (server: &Arc<S>)
        ensures
            **server == self@.server,
    {
        &self.server
    }

    /// The URL of the bridge.
    pub fn bridge_url(&self) -> (url: &str)
        ensures
            url@ == self@.bridge_url,
    {
        self.bridge_url.as_str()
    }

    /// The token of the bridge.
    pub fn token(&self) -> (token: &SessionToken)
        ensures
            token@ == self@.token,
    {
        &self.token
    }

    /// The text of the token of the bridge.
    pub fn token_value(&self) -> (value: &str)
        ensures
            value@ == self@.token,
    {
        self.token.value()
    }

    /// The URL that answers whether the bridge runs.
    pub fn health_url(&self) -> (url: String)
        ensures
            url@ == self@.bridge_url + "/health"@,
    {
        text::concat(self.bridge_url.as_str(), "/health")
    }

    /// The URL that takes tool calls.
    pub fn exec_url(&self) -> (url: String)
        ensures
            url@ == self@.bridge_url + "/exec"@,
    {
        text::concat(self.bridge_url.as_str(), "/exec")
    }

    /// What stopping the bridge gives, once its task was told to stop and has
    /// ended: a task that was cancelled has ended as it should.
    pub fn shutdown(self, ended: Result<(), JoinError>) -> (result: Result<(), JoinError>)
        ensures
            stops(ended, result),
    {
        match ended {
            Ok(_) => Ok(()),
            Err(failure) => if failure.is_cancelled() {
                Ok(())
            } else {
                Err(failure)
            },
        }
    }
}

/// A tool call, as it comes over the bridge or from within the process.
#[derive(Debug)]
pub struct ExecRequest {
    /// The tool that is called.
    pub tool: String,
    /// Its input.
    pub input: Value,
}

/// What the input of a wrapper tool says.
#[derive(Debug)]
pub struct WrapperInvokeInput {
    /// The backend tool behind the wrapper.
    pub tool_name: String,
    /// The input of the backend tool.
    pub tool_input: Value,
}

/// A call that the compressed server makes.
#[derive(Debug)]
pub enum BackendCall {
    /// A backend tool, through the wrapper of its backend.
    Wrapper {
        /// The wrapper.
        tool: String,
        /// What its input says.
        invocation: WrapperInvokeInput,
    },
    /// A tool of the only backend, with its input as it came.
    Single {
        /// The tool.
        tool: String,
        /// Its input.
        input: Value,
    },
}

/// `tool` names a wrapper that invokes a backend tool.
pub open spec fn is_invoke_wrapper(tool: Seq<char>) -> bool {
    text::has_suffix(tool, "_invoke_tool"@) || tool == "invoke_tool"@
}

/// `call` is the call that a tool becomes, where `parsed` is what reading its input
/// as that of a wrapper gives.
pub open spec fn becomes(
    tool: String,
    input: Value,
    parsed: Result<WrapperInvokeInput, serde_json::Error>,
    call: Result<BackendCall, Error>,
) -> bool {
    if is_invoke_wrapper(tool@) {
        call == match parsed {
            Ok(invocation) => Ok::<BackendCall, Error>(BackendCall::Wrapper { tool, invocation }),
            Err(error) => Err(Error::Json(error)),
        }
    } else {
        call == Ok::<BackendCall, Error>(BackendCall::Single { tool, input })
    }
}

/// Whether `tool` names a wrapper that invokes a backend tool.
fn invokes_wrapper(tool: &str) -> (wrapper: bool)
    ensures
        wrapper == is_invoke_wrapper(tool@),
{
    text::ends_with(tool, "_invoke_tool") || text::same_text(tool, "invoke_tool")
}

/// The call of a wrapper whose input was read: an input of another shape is
/// refused.
pub fn wrapper_call(tool: String, parsed: Result<WrapperInvokeInput, serde_json::Error>) -> (call:
    Result<BackendCall, Error>)
    ensures
        call == match parsed {
            Ok(invocation) => Ok::<BackendCall, Error>(BackendCall::Wrapper { tool, invocation }),
            Err(error) => Err(Error::Json(error)),
        },
{
    match parsed {
        Ok(invocation) => Ok(BackendCall::Wrapper { tool, invocation }),
        Err(error) => Err(Error::Json(error)),
    }
}

/// The call that a frontend tool becomes: that of a backend tool behind a wrapper,
/// or that of a tool of the only backend. `parse` reads the input of a wrapper; it
/// is not asked for any other input.
///
/// Requests over the bridge and calls within the process both come through here.
pub fn dispatch_exec<F: FnOnce(Value) -> Result<WrapperInvokeInput, serde_json::Error>>(
    tool: String,
    input: Value,
    parse: F,
) -> (call: Result<BackendCall, Error>)
    requires
        is_invoke_wrapper(tool@) ==> call_requires(parse, (input,)),
    ensures
        exists|parsed: Result<WrapperInvokeInput, serde_json::Error>|
            {
                &&& is_invoke_wrapper(tool@) ==> call_ensures(parse, (input,), parsed)
                &&& #[trigger] becomes(tool, input, parsed, call)
            },
{
    if invokes_wrapper(tool.as_str()) {
        let parsed = parse(input);
        let call = wrapper_call(tool, parsed);
        assert(becomes(tool, input, parsed, call));
        call
    } else {
        let call = Ok(BackendCall::Single { tool, input });
        proof {
            let unread: Result<WrapperInvokeInput, serde_json::Error> = arbitrary();
            assert(becomes(tool, input, unread, call));
        }
        call
    }
}

/// `response` has this status and body and ends its connection.
pub open spec fn is_closing(response: Response<Body>, status: u16, body: Seq<char>) -> bool {
    &&& outside::response_status(response) == status
    &&& outside::response_text(response) == body
    &&& outside::response_headers(response) == map![
        "content-type"@ => seq![vstd::utf8::encode_utf8("text/plain; charset=utf-8"@)],
    ].insert("connection"@, seq![vstd::utf8::encode_utf8("close"@)])
}

/// A response of plain text that ends its connection.
pub fn close_response(status: u16, body: String) -> (response: Response<Body>)
    requires
        100 <= status < 1000,
    ensures
        is_closing(response, status, body@),
{
    let mut response = outside::text_response(status, body);
    proof {
        reveal_strlit("close");
    }
    outside::set_connection_header(&mut response, HeaderValue::from_static("close"));
    response
}

/// The answer to a question whether the bridge runs.
pub fn health() -> (response: Response<Body>)
    ensures
        is_closing(response, OK, "ok"@),
{
    close_response(OK, "ok".to_string())
}

/// The text of the `Authorization` header, if there is one and it is text.
pub open spec fn credentials(headers: HeaderMap<HeaderValue>) -> Option<Seq<char>> {
    let entries = outside::header_entries(headers);
    if !entries.dom().contains("authorization"@) {
        None
    } else {
        let bytes = entries["authorization"@][0];
        if forall|i: int| 0 <= i < bytes.len() ==> outside::is_visible(#[trigger] bytes[i]) {
            Some(outside::ascii_text(bytes))
        } else {
            None
        }
    }
}

/// `verify` can answer so for `text`.
pub open spec fn answers_for<V: Fn(&str) -> bool>(verify: V, text: Seq<char>, valid: bool) -> bool {
    exists|shown: &str| shown@ == text && #[trigger] call_ensures(verify, (shown,), valid)
}

/// `granted` is whether a request with these headers may use the bridge.
pub open spec fn is_granted<V: Fn(&str) -> bool>(
    headers: HeaderMap<HeaderValue>,
    verify: V,
    granted: bool,
) -> bool {
    match credentials(headers) {
        Some(text) => answers_for(verify, text, granted),
        None => !granted,
    }
}

/// Whether a request with these headers may use the bridge: it shows an
/// `Authorization` header that is text and that `verify` accepts.
pub fn authorized<V: Fn(&str) -> bool>(headers: &HeaderMap<HeaderValue>, verify: V) -> (granted:
    bool)
    requires
        forall|shown: &str| call_requires(verify, (shown,)),
    ensures
        is_granted(*headers, verify, granted),
{
    let value = match outside::authorization_header(headers) {
        Some(value) => value,
        None => {
            return false;
        },
    };
    match outside::header_text(value) {
        Some(shown) => {
            let granted = verify(shown);
            assert(call_ensures(verify, (shown,), granted));
            granted
        },
        None => false,
    }
}

/// What is to be done about a request.
#[derive(Debug)]
pub enum ExecStep {
    /// It is answered so.
    Reply(Response<Body>),
    /// The hook refreshes the credentials first, one refresh at a time.
    Refresh(ExecRequest),
    /// It is dispatched, at the same time as any other.
    Dispatch(ExecRequest),
}

/// `step` is how a request is taken up that may or may not use the bridge.
pub open spec fn takes_up(
    granted: bool,
    has_hook: bool,
    request: ExecRequest,
    step: ExecStep,
) -> bool {
    if !granted {
        step matches ExecStep::Reply(response) && is_closing(
            response,
            UNAUTHORIZED,
            "unauthorized"@,
        )
    } else if has_hook {
        step == ExecStep::Refresh(request)
    } else {
        step == ExecStep::Dispatch(request)
    }
}

/// Takes up a request that may or may not use the bridge.
pub fn exec_granted(granted: bool, has_hook: bool, request: ExecRequest) -> (step: ExecStep)
    ensures
        takes_up(granted, has_hook, request, step),
{
    if !granted {
        ExecStep::Reply(close_response(UNAUTHORIZED, "unauthorized".to_string()))
    } else if has_hook {
        ExecStep::Refresh(request)
    } else {
        ExecStep::Dispatch(request)
    }
}

/// Takes up a request: one without a valid token is refused, and where there is a
/// hook the credentials are refreshed before anything is dispatched.
pub fn exec<V: Fn(&str) -> bool>(
    headers: &HeaderMap<HeaderValue>,
    verify: V,
    has_hook: bool,
    request: ExecRequest,
) -> (step: ExecStep)
    requires
        forall|shown: &str| call_requires(verify, (shown,)),
    ensures
        exists|granted: bool|
            {
                &&& is_granted(*headers, verify, granted)
                &&& #[trigger] takes_up(granted, has_hook, request, step)
            },
{
    let granted = authorized(headers, verify);
    let step = exec_granted(granted, has_hook, request);
    assert(takes_up(granted, has_hook, request, step));
    step
}

/// `step` is what follows a refresh.
pub open spec fn follows_refresh(
    request: ExecRequest,
    refreshed: Result<(), Error>,
    step: ExecStep,
) -> bool {
    match refreshed {
        Ok(_) => step == ExecStep::Dispatch(request),
        Err(_) => step matches ExecStep::Reply(response) && is_closing(
            response,
            BAD_REQUEST,
            "auth provider refresh failed"@,
        ),
    }
}

/// Goes on after the hook refreshed the credentials. The reason of a failure is
/// not told.
pub fn exec_refreshed(request: ExecRequest, refreshed: Result<(), Error>) -> (step: ExecStep)
    ensures
        follows_refresh(request, refreshed, step),
{
    match refreshed {
        Ok(_) => ExecStep::Dispatch(request),
        Err(_) => ExecStep::Reply(
            close_response(BAD_REQUEST, "auth provider refresh failed".to_string()),
        ),
    }
}

/// `response` answers a request that was dispatched.
pub open spec fn reports(result: Result<String, Error>, response: Response<Body>) -> bool {
    match result {
        Ok(body) => is_closing(response, OK, body@),
        Err(error) => if error::rests_on_machine(error) {
            exists|message: Seq<char>| #[trigger]
                error::is_message(error, message) && is_closing(response, BAD_REQUEST, message)
        } else {
            is_closing(
                response,
                BAD_REQUEST,
                error::error_text(error, error::source_text(error)),
            )
        },
    }
}

/// The answer to a request that was dispatched: the result, or the message of the
/// error.
pub fn exec_result(result: Result<String, Error>) -> (response: Response<Body>)
    ensures
        reports(result, response),
{
    match result {
        Ok(body) => close_response(OK, body),
        Err(error) => {
            let message = error.message();
            assert(error::is_message(error, message@));
            close_response(BAD_REQUEST, message)
        },
    }
}

/// Every answer of the bridge ends its connection and is one of three: served,
/// refused for want of a token, or failed.
pub proof fn every_answer_closes_the_connection(
    granted: bool,
    has_hook: bool,
    request: ExecRequest,
    taken_up: ExecStep,
    refreshed: Result<(), Error>,
    after_refresh: ExecStep,
    result: Result<String, Error>,
    answer: Response<Body>,
)
    requires
        takes_up(granted, has_hook, request, taken_up),
        follows_refresh(request, refreshed, after_refresh),
        reports(result, answer),
    ensures
        taken_up matches ExecStep::Reply(response) ==> closes(response) && outside::response_status(
            response,
        ) == UNAUTHORIZED,
        after_refresh matches ExecStep::Reply(response) ==> closes(response)
            && outside::response_status(response) == BAD_REQUEST,
        closes(answer),
        outside::response_status(answer) == if result is Ok {
            OK
        } else {
            BAD_REQUEST
        },
{
    reveal_strlit("connection");
    reveal_strlit("content-type");
}

/// `response` tells the client that its connection ends.
pub open spec fn closes(response: Response<Body>) -> bool {
    &&& outside::response_headers(response).dom().contains("connection"@)
    &&& outside::response_headers(response)["connection"@] == seq![
        vstd::utf8::encode_utf8("close"@),
    ]
}

/// A request without a valid token reaches neither the hook nor a backend, whatever
/// it asks for.
pub proof fn refused_requests_have_no_effect(has_hook: bool, request: ExecRequest, step: ExecStep)
    requires
        takes_up(false, has_hook, request, step),
    ensures
        step is Reply,
{
}

/// A request that shows no `Authorization` header, or one that is not text, is
/// refused whatever the token is.
pub proof fn requests_without_credentials_are_refused<V: Fn(&str) -> bool>(
    headers: HeaderMap<HeaderValue>,
    verify: V,
    granted: bool,
)
    requires
        credentials(headers) is None,
        is_granted(headers, verify, granted),
    ensures
        !granted,
{
}

/// With a hook nothing is dispatched before a refresh succeeded, and then it is the
/// request as it came.
pub proof fn a_refresh_goes_before_every_dispatch(
    granted: bool,
    request: ExecRequest,
    taken_up: ExecStep,
    refreshed: Result<(), Error>,
    after_refresh: ExecStep,
    dispatched: ExecRequest,
)
    requires
        takes_up(granted, true, request, taken_up),
        taken_up matches ExecStep::Refresh(pending) ==> follows_refresh(
            pending,
            refreshed,
            after_refresh,
        ),
    ensures
        !(taken_up is Dispatch),
        taken_up is Refresh && after_refresh == ExecStep::Dispatch(dispatched) ==> refreshed is Ok
            && dispatched == request,
{
}

/// The same tool with the same input becomes the same call however it comes: over
/// the bridge or from within the process.
pub proof fn dispatch_does_not_depend_on_the_transport(
    over_bridge: ExecRequest,
    in_process: ExecRequest,
    parsed: Result<WrapperInvokeInput, serde_json::Error>,
    bridge_call: Result<BackendCall, Error>,
    process_call: Result<BackendCall, Error>,
)
    requires
        over_bridge.tool@ == in_process.tool@,
        over_bridge.input == in_process.input,
        becomes(over_bridge.tool, over_bridge.input, parsed, bridge_call),
        becomes(in_process.tool, in_process.input, parsed, process_call),
    ensures
        same_call(bridge_call, process_call),
{
}

/// Two calls ask for the same, or are refused for the same reason.
pub open spec fn same_call(a: Result<BackendCall, Error>, b: Result<BackendCall, Error>) -> bool {
    match (a, b) {
        (
            Ok(BackendCall::Wrapper { tool: left, invocation: left_input }),
            Ok(BackendCall::Wrapper { tool: right, invocation: right_input }),
        ) => left@ == right@ && left_input == right_input,
        (
            Ok(BackendCall::Single { tool: left, input: left_input }),
            Ok(BackendCall::Single { tool: right, input: right_input }),
        ) => left@ == right@ && left_input == right_input,
        (Err(left), Err(right)) => left == right,
        _ => false,
    }
}

/// The wrappers that invoke a backend tool are those whose name ends with
/// `_invoke_tool`, whatever stands before it, and the one called `invoke_tool`.
pub proof fn invoke_wrappers_go_by_the_end_of_the_name(lead: Seq<char>, tool: Seq<char>)
    ensures
        is_invoke_wrapper(lead + "_invoke_tool"@),
        is_invoke_wrapper("invoke_tool"@),
        is_invoke_wrapper(tool) <==> tool == "invoke_tool"@ || (tool.len() >= 12 && tool.skip(
            tool.len() - 12,
        ) == "_invoke_tool"@),
{
    reveal_strlit("_invoke_tool");
    assert("_invoke_tool"@.len() == 12);
    text::a_suffix_stands_last(lead, tool, "_invoke_tool"@);
    if tool.len() >= 12 {
        let at: int = tool.len() - 12;
        assert(tool.subrange(at, at + 12) =~= tool.skip(at));
    }
}

/// A call of a wrapper becomes that of the backend tool that its input names, or is
/// refused for its input; its own name goes along.
pub proof fn wrappers_become_calls_of_what_their_input_names(
    lead: Seq<char>,
    tool: String,
    input: Value,
    parsed: Result<WrapperInvokeInput, serde_json::Error>,
    call: Result<BackendCall, Error>,
)
    requires
        tool@ == lead + "_invoke_tool"@ || tool@ == "invoke_tool"@,
        becomes(tool, input, parsed, call),
    ensures
        parsed matches Ok(read) ==> (call matches Ok(BackendCall::Wrapper { tool: own, invocation })
            && own == tool && invocation.tool_name == read.tool_name && invocation.tool_input
            == read.tool_input),
        parsed matches Err(error) ==> call == Err::<BackendCall, Error>(Error::Json(error)),
{
    invoke_wrappers_go_by_the_end_of_the_name(lead, tool@);
}

/// Any other tool becomes a call of the only backend, with its input as it came,
/// whatever that input would read as.
pub proof fn other_tools_go_to_the_only_backend(
    tool: String,
    input: Value,
    parsed: Result<WrapperInvokeInput, serde_json::Error>,
    call: Result<BackendCall, Error>,
)
    requires
        tool@ != "invoke_tool"@,
        tool@.len() < 12 || tool@.skip(tool@.len() - 12) != "_invoke_tool"@,
        becomes(tool, input, parsed, call),
    ensures
        call matches Ok(BackendCall::Single { tool: own, input: given }) && own == tool && given
            == input,
{
    invoke_wrappers_go_by_the_end_of_the_name(Seq::empty(), tool@);
}

/// An answer has its status and its body, is plain text, ends the connection, and says
/// nothing else in its headers.
pub proof fn answers_are_plain_text_and_end_the_connection(
    response: Response<Body>,
    status: u16,
    body: Seq<char>,
    name: Seq<char>,
)
    requires
        is_closing(response, status, body),
    ensures
        outside::response_status(response) == status,
        outside::response_text(response) == body,
        outside::response_headers(response).dom().contains(name) <==> name == "content-type"@
            || name == "connection"@,
        outside::response_headers(response)["connection"@] == seq![
            vstd::utf8::encode_utf8("close"@),
        ],
        outside::response_headers(response)["content-type"@] == seq![
            vstd::utf8::encode_utf8("text/plain; charset=utf-8"@),
        ],
        closes(response),
{
    reveal_strlit("connection");
    reveal_strlit("content-type");
    assert("connection"@.len() == 10);
    assert("content-type"@.len() == 12);
}

/// The credentials of a request are the first value of its `Authorization` header,
/// byte for byte, where all its bytes are visible ASCII, spaces or tabs; a request
/// without that header, or with another byte in it, shows none.
pub proof fn credentials_are_the_first_authorization_header(headers: HeaderMap<HeaderValue>)
    ensures
        ({
            let entries = outside::header_entries(headers);
            let bytes = entries["authorization"@][0];
            let shown = forall|i: int|
                0 <= i < bytes.len() ==> (32 <= #[trigger] bytes[i] <= 126 || bytes[i] == 9);
            &&& !entries.dom().contains("authorization"@) ==> credentials(headers) is None
            &&& entries.dom().contains("authorization"@) && !shown ==> credentials(headers) is None
            &&& entries.dom().contains("authorization"@) && shown ==> {
                &&& credentials(headers) matches Some(text)
                &&& text.len() == bytes.len()
                &&& forall|i: int|
                    0 <= i < bytes.len() ==> (#[trigger] text[i]) as u32 == bytes[i] as u32
            }
        }),
{
    let entries = outside::header_entries(headers);
    let bytes = entries["authorization"@][0];
    if entries.dom().contains("authorization"@) {
        assert((forall|i: int|
            0 <= i < bytes.len() ==> (32 <= #[trigger] bytes[i] <= 126 || bytes[i] == 9)) == (
        forall|i: int| 0 <= i < bytes.len() ==> outside::is_visible(#[trigger] bytes[i]))) by {
            if forall|i: int| 0 <= i < bytes.len() ==> outside::is_visible(#[trigger] bytes[i]) {
                assert forall|i: int| 0 <= i < bytes.len() implies (32 <= #[trigger] bytes[i] <= 126
                    || bytes[i] == 9) by {
                    assert(outside::is_visible(bytes[i]));
                }
            }
        }
    }
}

/// A request may use the bridge exactly where it shows credentials that the token
/// accepts: the token is asked about these and decides.
pub proof fn the_token_decides_on_what_is_shown<V: Fn(&str) -> bool>(
    headers: HeaderMap<HeaderValue>,
    verify: V,
    granted: bool,
)
    requires
        is_granted(headers, verify, granted),
    ensures
        granted ==> credentials(headers) is Some,
        credentials(headers) is None ==> !granted,
        credentials(headers) matches Some(text) ==> exists|shown: &str|
            shown@ == text && #[trigger] call_ensures(verify, (shown,), granted),
{
}

/// A request that may not use the bridge is answered `unauthorized` with status 401;
/// one that may is refreshed first exactly where there is a hook, and is otherwise
/// dispatched as it came.
pub proof fn requests_are_taken_up_by_token_and_hook(
    request: ExecRequest,
    step: ExecStep,
    hook: bool,
)
    ensures
        takes_up(false, hook, request, step) ==> (step matches ExecStep::Reply(response)
            && is_closing(response, 401, "unauthorized"@)),
        takes_up(true, true, request, step) <==> step == ExecStep::Refresh(request),
        takes_up(true, false, request, step) <==> step == ExecStep::Dispatch(request),
{
}

/// After a refresh the request is dispatched as it came; where the refresh failed it
/// is answered with status 400 and words that do not tell why.
pub proof fn a_failed_refresh_is_answered_without_its_reason(
    request: ExecRequest,
    error: Error,
    refreshed: ExecStep,
    failed: ExecStep,
)
    requires
        follows_refresh(request, Ok(()), refreshed),
        follows_refresh(request, Err(error), failed),
    ensures
        refreshed == ExecStep::Dispatch(request),
        failed matches ExecStep::Reply(response) && is_closing(
            response,
            400,
            "auth provider refresh failed"@,
        ),
{
}

/// A result is answered as it is with status 200, and an error by its message with
/// status 400.
pub proof fn results_and_errors_are_answered_in_full(
    body: String,
    error: Error,
    served: Response<Body>,
    failed: Response<Body>,
)
    requires
        reports(Ok(body), served),
        reports(Err(error), failed),
    ensures
        is_closing(served, 200, body@),
        outside::response_status(failed) == 400,
        closes(failed),
        error::is_message(error, outside::response_text(failed)),
        !error::rests_on_machine(error) ==> is_closing(
            failed,
            400,
            error::error_text(error, error::source_text(error)),
        ),
{
    reveal_strlit("connection");
    reveal_strlit("content-type");
    if !error::rests_on_machine(error) {
        let message = error::error_text(error, error::source_text(error));
        assert(error::is_message(error, message));
    }
}

/// Stopping a bridge fails exactly where its task failed by itself, with that failure:
/// a task that ended or was cancelled stopped as it should.
pub proof fn only_failed_tasks_fail_to_stop(
    ended: Result<(), JoinError>,
    result: Result<(), JoinError>,
)
    requires
        stops(ended, result),
    ensures
        ended is Ok ==> result is Ok,
        ended matches Err(failure) ==> (result is Ok <==> outside::is_cancellation(failure)),
        result matches Err(failure) ==> ended is Err && ended->Err_0 == failure,
{
}

} // verus!
