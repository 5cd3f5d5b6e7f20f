//! Connecting a backend and discovering what it offers.
//!
//! A connection goes through the same steps every time: the configuration is
//! checked, the backend is connected, its tools, resources and prompts are listed.
//! Each step is a value here; what the outside world answers takes it to the next
//! step or ends it with an error.

use vstd::prelude::*;

use crate::backend;
use crate::backend::{backend_operation, BackendServerConfig, BackendTransport, Completion};
use crate::error::Error;
use crate::outside;
use crate::text;
use crate::timeout::Timeout;
use crate::tool;
use crate::tool::Tool;

verus! {

/// What stays the same while a backend is connected.
#[derive(Debug)]
pub struct Target {
    /// The name under which the backend is offered.
    pub public_name: String,
    /// The backend's own name.
    pub backend_name: String,
    /// The tools to offer; all where it is empty.
    pub include_tools: Vec<String>,
    /// The tools not to offer.
    pub exclude_tools: Vec<String>,
    /// How long each operation may take.
    pub timeout: Option<Timeout>,
}

/// How a backend is to be connected.
#[derive(Debug)]
pub enum Connecting {
    /// As a child process, whose handshake is bounded by the timeout.
    Stdio(Target),
    /// Over streamable HTTP, within `deadline`.
    Http {
        /// The backend.
        target: Target,
        /// How long the connection may take.
        deadline: Option<Timeout>,
    },
}

/// A connected backend whose tools are to be listed.
#[derive(Debug)]
pub struct ListingTools {
    /// The backend.
    pub target: Target,
    /// The child process, if there is one.
    pub process_id: Option<u32>,
}

/// A backend whose resources are to be listed.
#[derive(Debug)]
pub struct ListingResources {
    /// The backend.
    pub target: Target,
    /// The child process, if there is one.
    pub process_id: Option<u32>,
    /// The tools to offer.
    pub tools: Vec<Tool>,
}

/// A backend whose prompts are to be listed.
#[derive(Debug)]
pub struct ListingPrompts {
    /// The backend.
    pub target: Target,
    /// The child process, if there is one.
    pub process_id: Option<u32>,
    /// The tools to offer.
    pub tools: Vec<Tool>,
    /// The URIs of the resources.
    pub resources: Vec<String>,
}

/// A backend that is ready for use. `Q` is a prompt.
#[derive(Debug)]
pub struct ConnectedBackend<Q> {
    /// The name under which the backend is offered.
    pub public_name: String,
    /// The backend's own name.
    pub backend_name: String,
    /// The tools to offer.
    pub tools: Vec<Tool>,
    /// The URIs of the resources.
    pub resources: Vec<String>,
    /// The prompts.
    pub prompts: Vec<Q>,
    /// How long each operation may take.
    pub timeout: Option<Timeout>,
}

/// A connected backend that is given up. Its process group is terminated and then
/// its client cancelled before `error` is returned.
#[derive(Debug)]
pub struct DiscoveryFailure {
    /// The child process, if there is one.
    pub process_id: Option<u32>,
    /// Why the backend is given up.
    pub error: Error,
}

/// A timeout that no operation could keep.
pub open spec fn is_zero_timeout(timeout: Option<Timeout>) -> bool {
    timeout matches Some(t) && t@ == 0
}

/// `target` describes `config` under these names and filters.
pub open spec fn describes<D>(
    target: Target,
    config: BackendServerConfig<D>,
    public_name: String,
    include_tools: Vec<String>,
    exclude_tools: Vec<String>,
) -> bool {
    &&& target.public_name == public_name
    &&& target.backend_name == config.name
    &&& target.include_tools == include_tools
    &&& target.exclude_tools == exclude_tools
    &&& target.timeout == config.timeout
}

/// How long connecting over HTTP may take. An interactive OAuth login waits for a
/// human in a browser, so the backend timeout does not apply to it.
pub open spec fn http_deadline<D>(config: BackendServerConfig<D>) -> Option<Timeout> {
    if config.use_oauth {
        None
    } else {
        config.timeout
    }
}

/// `started` is how connecting a backend begins.
pub open spec fn starts<D>(
    config: BackendServerConfig<D>,
    public_name: String,
    include_tools: Vec<String>,
    exclude_tools: Vec<String>,
    started: Result<Connecting, Error>,
) -> bool {
    match started {
        Ok(Connecting::Stdio(target)) => {
            &&& !is_zero_timeout(config.timeout)
            &&& config.transport == BackendTransport::Stdio
            &&& describes(target, config, public_name, include_tools, exclude_tools)
        },
        Ok(Connecting::Http { target, deadline }) => {
            &&& !is_zero_timeout(config.timeout)
            &&& config.transport == BackendTransport::StreamableHttp
            &&& describes(target, config, public_name, include_tools, exclude_tools)
            &&& deadline == http_deadline(config)
        },
        Err(error) => {
            &&& is_zero_timeout(config.timeout)
            &&& error matches Error::Validation(reason) && reason@ == "backend "@
                + outside::quoted_text(config.name@) + " timeout must be greater than zero"@
        },
    }
}

/// Starts to connect a backend. A timeout of zero is refused before anything is
/// spawned.
pub fn connect_backend<D>(
    config: &BackendServerConfig<D>,
    public_name: String,
    include_tools: Vec<String>,
    exclude_tools: Vec<String>,
) -> (started: Result<Connecting, Error>)
    ensures
        starts(*config, public_name, include_tools, exclude_tools, started),
{
    if let Some(timeout) = config.timeout {
        if timeout.is_zero() {
            return Err(
                Error::Validation(
                    text::concat3(
                        "backend ",
                        outside::quote(config.name.as_str()).as_str(),
                        " timeout must be greater than zero",
                    ),
                ),
            );
        }
    }
    let target = Target {
        public_name,
        backend_name: config.name.clone(),
        include_tools,
        exclude_tools,
        timeout: config.timeout,
    };
    match config.transport {
        BackendTransport::Stdio => Ok(Connecting::Stdio(target)),
        BackendTransport::StreamableHttp => {
            let deadline = if config.use_oauth {
                None
            } else {
                config.timeout
            };
            Ok(Connecting::Http { target, deadline })
        },
    }
}

/// `next` is what follows the handshake with a child process.
pub open spec fn follows_process(
    target: Target,
    connected: Result<Option<u32>, Error>,
    next: Result<ListingTools, Error>,
) -> bool {
    next == match connected {
        Ok(process_id) => Ok::<ListingTools, Error>(ListingTools { target, process_id }),
        Err(error) => Err(error),
    }
}

/// Goes on after the handshake with a child process. A failure there is final and
/// leaves nothing to clean up.
pub fn stdio_connected(target: Target, connected: Result<Option<u32>, Error>) -> (next: Result<
    ListingTools,
    Error,
>)
    ensures
        follows_process(target, connected, next),
{
    match connected {
        Ok(process_id) => Ok(ListingTools { target, process_id }),
        Err(error) => Err(error),
    }
}

/// `next` is what follows the end of a connection over HTTP.
pub open spec fn follows_http(
    target: Target,
    deadline: Option<Timeout>,
    completion: Completion<()>,
    next: Result<ListingTools, Error>,
) -> bool {
    match completion {
        Completion::Finished(Ok(_)) => next == Ok::<ListingTools, Error>(
            ListingTools { target, process_id: None },
        ),
        Completion::Finished(Err(error)) => next == Err::<ListingTools, Error>(error),
        Completion::Elapsed => next is Err && backend::is_timeout_error(
            next->Err_0,
            target.backend_name@,
            "connection"@,
            deadline->0,
        ),
    }
}

/// Goes on after the connection over HTTP ended. There is no child process.
pub fn http_connected(
    target: Target,
    deadline: Option<Timeout>,
    completion: Completion<()>,
) -> (next: Result<ListingTools, Error>)
    requires
        backend::can_end(deadline, completion),
    ensures
        follows_http(target, deadline, completion, next),
{
    match backend_operation(deadline, target.backend_name.as_str(), "connection", completion) {
        Ok(_) => Ok(ListingTools { target, process_id: None }),
        Err(error) => Err(error),
    }
}

/// `failure` ends the discovery of a backend because `operation` took too long.
pub open spec fn timed_out(
    failure: DiscoveryFailure,
    target: Target,
    process_id: Option<u32>,
    operation: Seq<char>,
) -> bool {
    &&& failure.process_id == process_id
    &&& backend::is_timeout_error(
        failure.error,
        target.backend_name@,
        operation,
        target.timeout->0,
    )
}

/// `next` is what follows once the tools of `state` are listed.
pub open spec fn lists_tools(
    state: ListingTools,
    completion: Completion<Vec<Tool>>,
    next: Result<ListingResources, DiscoveryFailure>,
) -> bool {
    match completion {
        Completion::Finished(Ok(tools)) => {
            &&& next matches Ok(listing)
            &&& listing.target == state.target
            &&& listing.process_id == state.process_id
            &&& listing.tools@ == tool::kept_tools(
                tools@,
                text::texts(state.target.include_tools@),
                text::texts(state.target.exclude_tools@),
            )
        },
        Completion::Finished(Err(error)) => next == Err::<
            ListingResources,
            DiscoveryFailure,
        >(DiscoveryFailure { process_id: state.process_id, error }),
        Completion::Elapsed => next is Err && timed_out(
            next->Err_0,
            state.target,
            state.process_id,
            "list tools"@,
        ),
    }
}

impl ListingTools {
    /// Goes on after the tools are listed: the filters apply. Any failure ends the
    /// discovery.
    pub fn listed(self, completion: Completion<Vec<Tool>>) -> (next: Result<
        ListingResources,
        DiscoveryFailure,
    >)
        requires
            backend::can_end(self.target.timeout, completion),
        ensures
            lists_tools(self, completion, next),
    {
        let process_id = self.process_id;
        match backend_operation(
            self.target.timeout,
            self.target.backend_name.as_str(),
            "list tools",
            completion,
        ) {
            Ok(tools) => {
                let tools = tool::filter_tools(
                    tools,
                    &self.target.include_tools,
                    &self.target.exclude_tools,
                );
                Ok(ListingResources { target: self.target, process_id, tools })
            },
            Err(error) => Err(DiscoveryFailure { process_id, error }),
        }
    }
}

/// `result` with an answer that the backend does not support the operation taken
/// as an empty list.
fn or_empty<T>(result: Result<Vec<T>, Error>) -> (list: Result<Vec<T>, Error>)
    ensures
        match result {
            Err(Error::Config(_)) => list is Ok && list->Ok_0@ == Seq::<T>::empty(),
            _ => list == result,
        },
{
    match result {
        Err(Error::Config(_)) => Ok(Vec::new()),
        other => other,
    }
}

/// `next` is what follows once the resources of `state` are listed.
pub open spec fn lists_resources(
    state: ListingResources,
    completion: Completion<Vec<String>>,
    next: Result<ListingPrompts, DiscoveryFailure>,
) -> bool {
    match completion {
        Completion::Finished(Ok(resources)) => next == Ok::<
            ListingPrompts,
            DiscoveryFailure,
        >(
            ListingPrompts {
                target: state.target,
                process_id: state.process_id,
                tools: state.tools,
                resources,
            },
        ),
        Completion::Finished(Err(Error::Config(_))) => {
            &&& next matches Ok(listing)
            &&& listing.target == state.target
            &&& listing.process_id == state.process_id
            &&& listing.tools == state.tools
            &&& listing.resources@ == Seq::<String>::empty()
        },
        Completion::Finished(Err(error)) => next == Err::<ListingPrompts, DiscoveryFailure>(
            DiscoveryFailure { process_id: state.process_id, error },
        ),
        Completion::Elapsed => next is Err && timed_out(
            next->Err_0,
            state.target,
            state.process_id,
            "list resources"@,
        ),
    }
}

impl ListingResources {
    /// Goes on after the resources are listed. A backend that answers with an error
    /// has none; running out of time ends the discovery.
    pub fn listed(self, completion: Completion<Vec<String>>) -> (next: Result<
        ListingPrompts,
        DiscoveryFailure,
    >)
        requires
            backend::can_end(self.target.timeout, completion),
        ensures
            lists_resources(self, completion, next),
    {
        let process_id = self.process_id;
        match or_empty(
            backend_operation(
                self.target.timeout,
                self.target.backend_name.as_str(),
                "list resources",
                completion,
            ),
        ) {
            Ok(resources) => Ok(
                ListingPrompts { target: self.target, process_id, tools: self.tools, resources },
            ),
            Err(error) => Err(DiscoveryFailure { process_id, error }),
        }
    }
}

/// `next` is what follows once the prompts of `state` are listed.
pub open spec fn lists_prompts<Q>(
    state: ListingPrompts,
    completion: Completion<Vec<Q>>,
    next: Result<ConnectedBackend<Q>, DiscoveryFailure>,
) -> bool {
    match completion {
        Completion::Finished(Ok(prompts)) => next == Ok::<
            ConnectedBackend<Q>,
            DiscoveryFailure,
        >(
            ConnectedBackend {
                public_name: state.target.public_name,
                backend_name: state.target.backend_name,
                tools: state.tools,
                resources: state.resources,
                prompts,
                timeout: state.target.timeout,
            },
        ),
        Completion::Finished(Err(Error::Config(_))) => {
            &&& next matches Ok(ready)
            &&& ready.public_name == state.target.public_name
            &&& ready.backend_name == state.target.backend_name
            &&& ready.tools == state.tools
            &&& ready.resources == state.resources
            &&& ready.prompts@ == Seq::<Q>::empty()
            &&& ready.timeout == state.target.timeout
        },
        Completion::Finished(Err(error)) => next == Err::<
            ConnectedBackend<Q>,
            DiscoveryFailure,
        >(DiscoveryFailure { process_id: state.process_id, error }),
        Completion::Elapsed => next is Err && timed_out(
            next->Err_0,
            state.target,
            state.process_id,
            "list prompts"@,
        ),
    }
}

impl ListingPrompts {
    /// Goes on after the prompts are listed: the backend is ready. A backend that
    /// answers with an error has none; running out of time ends the discovery.
    pub fn listed<Q>(self, completion: Completion<Vec<Q>>) -> (next: Result<
        ConnectedBackend<Q>,
        DiscoveryFailure,
    >)
        requires
            backend::can_end(self.target.timeout, completion),
        ensures
            lists_prompts(self, completion, next),
    {
        let process_id = self.process_id;
        match or_empty(
            backend_operation(
                self.target.timeout,
                self.target.backend_name.as_str(),
                "list prompts",
                completion,
            ),
        ) {
            Ok(prompts) => Ok(
                ConnectedBackend {
                    public_name: self.target.public_name,
                    backend_name: self.target.backend_name,
                    tools: self.tools,
                    resources: self.resources,
                    prompts,
                    timeout: self.target.timeout,
                },
            ),
            Err(error) => Err(DiscoveryFailure { process_id, error }),
        }
    }
}

/// A login that waits for a human is not bounded: connecting with OAuth has no
/// deadline, so it always comes to its own end.
pub proof fn oauth_login_is_not_bounded<D>(
    config: BackendServerConfig<D>,
    public_name: String,
    include_tools: Vec<String>,
    exclude_tools: Vec<String>,
    started: Connecting,
    completion: Completion<()>,
)
    requires
        config.use_oauth,
        config.transport == BackendTransport::StreamableHttp,
        starts(config, public_name, include_tools, exclude_tools, Ok(started)),
        backend::can_end(started->deadline, completion),
    ensures
        started is Http,
        completion is Finished,
{
}

/// Running out of time at any step of the discovery is reported under the
/// configured name of the backend, with its configured timeout, and stops its
/// child process.
pub proof fn timeouts_name_the_configured_backend<D, Q>(
    config: BackendServerConfig<D>,
    target: Target,
    public_name: String,
    include_tools: Vec<String>,
    exclude_tools: Vec<String>,
    tools: ListingTools,
    resources: ListingResources,
    prompts: ListingPrompts,
    after_tools: Result<ListingResources, DiscoveryFailure>,
    after_resources: Result<ListingPrompts, DiscoveryFailure>,
    after_prompts: Result<ConnectedBackend<Q>, DiscoveryFailure>,
)
    requires
        describes(target, config, public_name, include_tools, exclude_tools),
        tools.target == target,
        resources.target == target,
        prompts.target == target,
        config.timeout is Some,
        lists_tools(tools, Completion::Elapsed, after_tools),
        lists_resources(resources, Completion::Elapsed, after_resources),
        lists_prompts(prompts, Completion::Elapsed, after_prompts),
    ensures
        after_tools matches Err(failure) && failure.process_id == tools.process_id
            && backend::is_timeout_error(
            failure.error,
            config.name@,
            "list tools"@,
            config.timeout->0,
        ),
        after_resources matches Err(failure) && failure.process_id == resources.process_id
            && backend::is_timeout_error(
            failure.error,
            config.name@,
            "list resources"@,
            config.timeout->0,
        ),
        after_prompts matches Err(failure) && failure.process_id == prompts.process_id
            && backend::is_timeout_error(
            failure.error,
            config.name@,
            "list prompts"@,
            config.timeout->0,
        ),
{
}

/// Whatever ends the discovery, the child process of the connection is the one
/// that is stopped.
pub proof fn failed_discovery_stops_its_process<Q>(
    tools: ListingTools,
    listed_tools: Completion<Vec<Tool>>,
    after_tools: Result<ListingResources, DiscoveryFailure>,
    listed_resources: Completion<Vec<String>>,
    after_resources: Result<ListingPrompts, DiscoveryFailure>,
    listed_prompts: Completion<Vec<Q>>,
    after_prompts: Result<ConnectedBackend<Q>, DiscoveryFailure>,
)
    requires
        lists_tools(tools, listed_tools, after_tools),
        after_tools matches Ok(resources) ==> lists_resources(
            resources,
            listed_resources,
            after_resources,
        ),
        after_tools is Ok && after_resources is Ok ==> lists_prompts(
            after_resources->Ok_0,
            listed_prompts,
            after_prompts,
        ),
    ensures
        after_tools matches Err(failure) ==> failure.process_id == tools.process_id,
        after_tools is Ok ==> (after_resources matches Err(failure) ==> failure.process_id
            == tools.process_id),
        after_tools is Ok && after_resources is Ok ==> (after_prompts matches Err(failure)
            ==> failure.process_id == tools.process_id),
{
}

/// A backend that supports neither resources nor prompts connects all the same,
/// with its tools.
pub proof fn unsupported_listings_do_not_fail_a_backend<Q>(
    resources: ListingResources,
    no_resources: String,
    after_resources: Result<ListingPrompts, DiscoveryFailure>,
    no_prompts: String,
    after_prompts: Result<ConnectedBackend<Q>, DiscoveryFailure>,
)
    requires
        lists_resources(
            resources,
            Completion::Finished(Err(Error::Config(no_resources))),
            after_resources,
        ),
        after_resources matches Ok(prompts) ==> lists_prompts(
            prompts,
            Completion::Finished(Err(Error::Config(no_prompts))),
            after_prompts,
        ),
    ensures
        after_prompts matches Ok(ready) && ready.tools == resources.tools && ready.resources@
            == Seq::<String>::empty() && ready.prompts@ == Seq::<Q>::empty(),
{
}

/// A backend that is ready carries the names and the timeout that it was started
/// with, and offers only tools that its filters allow.
pub proof fn ready_backend_keeps_to_its_filters<Q>(
    tools: ListingTools,
    listed_tools: Completion<Vec<Tool>>,
    resources: ListingResources,
    listed_resources: Completion<Vec<String>>,
    prompts: ListingPrompts,
    listed_prompts: Completion<Vec<Q>>,
    ready: ConnectedBackend<Q>,
    offered: Tool,
)
    requires
        lists_tools(tools, listed_tools, Ok(resources)),
        lists_resources(resources, listed_resources, Ok(prompts)),
        lists_prompts(prompts, listed_prompts, Ok(ready)),
        ready.tools@.contains(offered),
    ensures
        ready.public_name == tools.target.public_name,
        ready.backend_name == tools.target.backend_name,
        ready.timeout == tools.target.timeout,
        tools.target.include_tools@.len() > 0 ==> text::texts(
            tools.target.include_tools@,
        ).contains(offered.name@),
        !text::texts(tools.target.exclude_tools@).contains(offered.name@),
{
    let listed = listed_tools->Finished_0->Ok_0;
    tool::kept_tools_are_allowed(
        listed@,
        text::texts(tools.target.include_tools@),
        text::texts(tools.target.exclude_tools@),
        offered,
    );
}

/// A backend starts to be connected as it is configured: a timeout of zero is refused
/// under its name, a command becomes a child process, and a URL is reached within the
/// backend timeout unless a human logs in. Names, filters and timeout go along.
pub proof fn backends_start_as_configured<D>(
    config: BackendServerConfig<D>,
    public_name: String,
    include_tools: Vec<String>,
    exclude_tools: Vec<String>,
    started: Result<Connecting, Error>,
)
    requires
        starts(config, public_name, include_tools, exclude_tools, started),
    ensures
        (config.timeout is Some && config.timeout->0@ == 0) ==> (started matches Err(
            Error::Validation(reason),
        ) && reason@ == "backend "@ + outside::quoted_text(config.name@)
            + " timeout must be greater than zero"@),
        (config.timeout is None || config.timeout->0@ > 0) ==> started is Ok
            && match started->Ok_0 {
            Connecting::Stdio(target) => {
                &&& config.transport is Stdio
                &&& target.public_name == public_name
                &&& target.backend_name == config.name
                &&& target.include_tools == include_tools
                &&& target.exclude_tools == exclude_tools
                &&& target.timeout == config.timeout
            },
            Connecting::Http { target, deadline } => {
                &&& config.transport is StreamableHttp
                &&& target.public_name == public_name
                &&& target.backend_name == config.name
                &&& target.include_tools == include_tools
                &&& target.exclude_tools == exclude_tools
                &&& target.timeout == config.timeout
                &&& config.use_oauth ==> deadline is None
                &&& !config.use_oauth ==> deadline == config.timeout
            },
        },
{
}

/// `failure` stops this process and says that the backend took too long for
/// `operation`.
spec fn took_too_long(
    failure: DiscoveryFailure,
    target: Target,
    process_id: Option<u32>,
    operation: Seq<char>,
) -> bool {
    &&& failure.process_id == process_id
    &&& failure.error matches Error::BackendTimeout { backend, operation: what, timeout }
    &&& backend@ == target.backend_name@
    &&& what@ == operation
    &&& Some(timeout) == target.timeout
}

/// A name is among strings exactly where it is among their texts.
proof fn names_are_among_the_texts(list: Seq<String>, name: Seq<char>)
    ensures
        text::texts(list).contains(name) <==> exists|k: int|
            0 <= k < list.len() && #[trigger] list[k]@ == name,
{
    let views = text::texts(list);
    if views.contains(name) {
        assert(list[views.index_of(name)]@ == name);
    }
    if exists|k: int| 0 <= k < list.len() && #[trigger] list[k]@ == name {
        let k = choose|k: int| 0 <= k < list.len() && #[trigger] list[k]@ == name;
        assert(views[k] == name);
    }
}

/// Once its tools are listed, a backend offers exactly those that its selection, where
/// it has one, names and its exclusions do not, in the order of the listing.
pub proof fn a_backend_offers_the_tools_that_its_filters_name(
    state: ListingTools,
    tools: Vec<Tool>,
    next: Result<ListingResources, DiscoveryFailure>,
    offered: Tool,
)
    requires
        lists_tools(state, Completion::Finished(Ok(tools)), next),
    ensures
        next matches Ok(listing) && listing.target == state.target && listing.process_id
            == state.process_id && (listing.tools@.contains(offered) <==> {
            &&& tools@.contains(offered)
            &&& state.target.include_tools@.len() == 0 || exists|k: int|
                0 <= k < state.target.include_tools@.len()
                    && #[trigger] state.target.include_tools@[k]@ == offered.name@
            &&& forall|k: int|
                0 <= k < state.target.exclude_tools@.len()
                    ==> #[trigger] state.target.exclude_tools@[k]@ != offered.name@
        }) && listing.tools@ == tool::kept_tools(
            tools@,
            state.target.include_tools@.map_values(|name: String| name@),
            state.target.exclude_tools@.map_values(|name: String| name@),
        ),
{
    let included = text::texts(state.target.include_tools@);
    let excluded = text::texts(state.target.exclude_tools@);
    assert(included =~= state.target.include_tools@.map_values(|name: String| name@));
    assert(excluded =~= state.target.exclude_tools@.map_values(|name: String| name@));
    names_are_among_the_texts(state.target.include_tools@, offered.name@);
    names_are_among_the_texts(state.target.exclude_tools@, offered.name@);
    tool::filters_go_by_the_name(tools@, included, excluded, offered);
    assert(included.contains(offered.name@) <==> exists|k: int|
        0 <= k < included.len() && #[trigger] included[k] == offered.name@);
    assert(excluded.contains(offered.name@) <==> exists|k: int|
        0 <= k < excluded.len() && #[trigger] excluded[k] == offered.name@);
}

/// A backend whose tools cannot be listed is given up with the reason, and its process
/// is stopped.
pub proof fn a_backend_without_tools_is_given_up(
    state: ListingTools,
    error: Error,
    failed: Result<ListingResources, DiscoveryFailure>,
    late: Result<ListingResources, DiscoveryFailure>,
)
    requires
        state.target.timeout is Some,
        lists_tools(state, Completion::Finished(Err(error)), failed),
        lists_tools(state, Completion::Elapsed, late),
    ensures
        failed matches Err(failure) && failure.process_id == state.process_id && failure.error
            == error,
        late matches Err(failure) && failure.process_id == state.process_id && (failure.error
            matches Error::BackendTimeout { backend, operation, timeout } && backend@
            == state.target.backend_name@ && operation@ == "list tools"@ && Some(timeout)
            == state.target.timeout),
{
    assert(took_too_long(late->Err_0, state.target, state.process_id, "list tools"@));
}

/// Listing resources keeps everything that was found before and adds what is listed; a
/// backend that answers with a configuration error has none, and with any other, or
/// too late, it is given up and its process stopped.
pub proof fn resources_are_added_or_the_backend_is_given_up(
    state: ListingResources,
    listed: Vec<String>,
    error: Error,
    found: Result<ListingPrompts, DiscoveryFailure>,
    failed: Result<ListingPrompts, DiscoveryFailure>,
    late: Result<ListingPrompts, DiscoveryFailure>,
)
    requires
        state.target.timeout is Some,
        lists_resources(state, Completion::Finished(Ok(listed)), found),
        lists_resources(state, Completion::Finished(Err(error)), failed),
        lists_resources(state, Completion::Elapsed, late),
    ensures
        found matches Ok(next) && next.target == state.target && next.process_id
            == state.process_id && next.tools == state.tools && next.resources == listed,
        error is Config ==> (failed matches Ok(next) && next.target == state.target
            && next.process_id == state.process_id && next.tools == state.tools
            && next.resources@.len() == 0),
        !(error is Config) ==> (failed matches Err(failure) && failure.process_id
            == state.process_id && failure.error == error),
        late matches Err(failure) && failure.process_id == state.process_id && (failure.error
            matches Error::BackendTimeout { backend, operation, timeout } && backend@
            == state.target.backend_name@ && operation@ == "list resources"@ && Some(timeout)
            == state.target.timeout),
{
    assert(took_too_long(late->Err_0, state.target, state.process_id, "list resources"@));
}

/// Listing prompts makes a backend ready with everything that was found before and the
/// prompts that are listed; a backend that answers with a configuration error has
/// none, and with any other, or too late, it is given up and its process stopped.
pub proof fn prompts_make_a_backend_ready_or_it_is_given_up<Q>(
    state: ListingPrompts,
    listed: Vec<Q>,
    error: Error,
    found: Result<ConnectedBackend<Q>, DiscoveryFailure>,
    failed: Result<ConnectedBackend<Q>, DiscoveryFailure>,
    late: Result<ConnectedBackend<Q>, DiscoveryFailure>,
)
    requires
        state.target.timeout is Some,
        lists_prompts(state, Completion::Finished(Ok(listed)), found),
        lists_prompts(state, Completion::Finished(Err(error)), failed),
        lists_prompts(state, Completion::Elapsed, late),
    ensures
        found matches Ok(ready) && ready.public_name == state.target.public_name
            && ready.backend_name == state.target.backend_name && ready.tools == state.tools
            && ready.resources == state.resources && ready.prompts == listed && ready.timeout
            == state.target.timeout,
        error is Config ==> (failed matches Ok(ready) && ready.public_name
            == state.target.public_name && ready.backend_name == state.target.backend_name
            && ready.tools == state.tools && ready.resources == state.resources
            && ready.prompts@.len() == 0 && ready.timeout == state.target.timeout),
        !(error is Config) ==> (failed matches Err(failure) && failure.process_id
            == state.process_id && failure.error == error),
        late matches Err(failure) && failure.process_id == state.process_id && (failure.error
            matches Error::BackendTimeout { backend, operation, timeout } && backend@
            == state.target.backend_name@ && operation@ == "list prompts"@ && Some(timeout)
            == state.target.timeout),
{
    assert(took_too_long(late->Err_0, state.target, state.process_id, "list prompts"@));
}

/// A backend that is connected goes on to list its tools, with the process that it
/// runs in where it is a child process and with none where it is remote; one that is
/// not fails with its own error, or for the time that connecting took.
pub proof fn connected_backends_list_their_tools(
    target: Target,
    connected: Result<Option<u32>, Error>,
    after_process: Result<ListingTools, Error>,
    deadline: Option<Timeout>,
    timeout: Timeout,
    error: Error,
    reached: Result<ListingTools, Error>,
    failed: Result<ListingTools, Error>,
    late: Result<ListingTools, Error>,
)
    requires
        follows_process(target, connected, after_process),
        follows_http(target, deadline, Completion::Finished(Ok(())), reached),
        follows_http(target, deadline, Completion::Finished(Err(error)), failed),
        follows_http(target, Some(timeout), Completion::Elapsed, late),
    ensures
        connected matches Ok(process_id) ==> after_process is Ok && after_process->Ok_0.target
            == target && after_process->Ok_0.process_id == process_id,
        connected matches Err(own) ==> after_process is Err && after_process->Err_0 == own,
        reached is Ok && reached->Ok_0.target == target && reached->Ok_0.process_id is None,
        failed is Err && failed->Err_0 == error,
        late matches Err(Error::BackendTimeout { backend, operation, timeout: after }) && backend@
            == target.backend_name@ && operation@ == "connection"@ && after == timeout,
{
}

} // verus!
