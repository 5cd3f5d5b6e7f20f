//! Sessions that SDK callers start on a compressed server.
//!
//! A session is configured, its server is connected, and its tools are listed; then
//! it is ready, or a bridge is started for it first. What the outside world answers
//! takes each step to the next.

use serde_json::Value;
use std::sync::Arc;
use vstd::prelude::*;

use crate::error::Error;
use crate::outside;
use crate::proxy::{ExecRequest, RunningToolProxy, ToolProxyServer};
use crate::sdk::FfiBackendConfig;
use crate::text;
use crate::tool::Tool;

verus! {

/// How a compressed server offers the tools of its backends.
#[derive(Clone, Copy, Debug, PartialEq, Eq, Structural)]
pub enum ProxyTransformMode {
    /// As a few tools that stand for all others.
    CompressedTools,
    /// As commands.
    Cli,
    /// As commands of one shell tool.
    JustBash,
}

/// How an SDK caller configures a session.
#[derive(Debug)]
pub struct FfiCompressedSessionConfig {
    /// The name of the compression level.
    pub compression_level: String,
    /// The name of the server.
    pub server_name: Option<String>,
    /// The tools to offer; all where it is empty.
    pub include_tools: Vec<String>,
    /// The tools not to offer.
    pub exclude_tools: Vec<String>,
    /// Whether results are rewritten to a compact form.
    pub toonify: bool,
    /// The name of the transform mode.
    pub transform_mode: Option<String>,
    /// Whether callers outside the process are served, over HTTP.
    pub bridge: bool,
}

/// How a compressed server is set up; what is not named here has its default. `L`
/// is a compression level.
#[derive(Debug)]
pub struct CompressedServerConfig<L> {
    /// The compression level.
    pub level: L,
    /// The name of the server.
    pub server_name: Option<String>,
    /// The tools to offer; all where it is empty.
    pub include_tools: Vec<String>,
    /// The tools not to offer.
    pub exclude_tools: Vec<String>,
    /// Whether results are rewritten to a compact form.
    pub toonify: bool,
    /// How tools are offered.
    pub transform_mode: ProxyTransformMode,
}

/// The name of the transform mode that counts.
pub open spec fn mode_name(name: Option<Seq<char>>) -> Seq<char> {
    match name {
        Some(name) => name,
        None => "compressed-tools"@,
    }
}

/// The transform mode of this name, if there is one.
pub open spec fn named_mode(name: Seq<char>) -> Option<ProxyTransformMode> {
    if name == "compressed-tools"@ || name == "compressed"@ || name == "normal"@ {
        Some(ProxyTransformMode::CompressedTools)
    } else if name == "cli"@ || name == "cli-mode"@ {
        Some(ProxyTransformMode::Cli)
    } else if name == "just-bash"@ || name == "just_bash"@ {
        Some(ProxyTransformMode::JustBash)
    } else {
        None
    }
}

/// `error` says that no transform mode has this name.
pub open spec fn is_unknown_mode(error: Error, name: Seq<char>) -> bool {
    error matches Error::Config(reason) && reason@ == "invalid transform mode: "@ + name
}

/// The transform mode of an optional name.
pub fn parse_ffi_transform_mode(value: Option<&str>) -> (mode: Result<ProxyTransformMode, Error>)
    ensures
        ({
            let name = mode_name(
                match value {
                    Some(value) => Some(value@),
                    None => None,
                },
            );
            match mode {
                Ok(mode) => named_mode(name) == Some(mode),
                Err(error) => named_mode(name) is None && is_unknown_mode(error, name),
            }
        }),
{
    let name = match value {
        Some(value) => value,
        None => "compressed-tools",
    };
    if text::same_text(name, "compressed-tools") || text::same_text(name, "compressed")
        || text::same_text(name, "normal") {
        Ok(ProxyTransformMode::CompressedTools)
    } else if text::same_text(name, "cli") || text::same_text(name, "cli-mode") {
        Ok(ProxyTransformMode::Cli)
    } else if text::same_text(name, "just-bash") || text::same_text(name, "just_bash") {
        Ok(ProxyTransformMode::JustBash)
    } else {
        Err(Error::Config(text::concat("invalid transform mode: ", name)))
    }
}

/// `result` is the server of a session, where `level` is what its compression level
/// reads as. A wrong level is reported before a wrong mode.
pub open spec fn configures<L>(
    config: FfiCompressedSessionConfig,
    level: Result<L, Error>,
    result: Result<CompressedServerConfig<L>, Error>,
) -> bool {
    let name = mode_name(text::opt_text(config.transform_mode));
    match level {
        Ok(level) => match named_mode(name) {
            Some(transform_mode) => result == Ok::<CompressedServerConfig<L>, Error>(
                CompressedServerConfig {
                    level,
                    server_name: config.server_name,
                    include_tools: config.include_tools,
                    exclude_tools: config.exclude_tools,
                    toonify: config.toonify,
                    transform_mode,
                },
            ),
            None => result is Err && is_unknown_mode(result->Err_0, name),
        },
        Err(error) => result == Err::<CompressedServerConfig<L>, Error>(error),
    }
}

/// The server of a session, from what its compression level reads as.
pub fn server_config<L>(config: FfiCompressedSessionConfig, level: Result<L, Error>) -> (result:
    Result<CompressedServerConfig<L>, Error>)
    ensures
        configures(config, level, result),
{
    let level = match level {
        Ok(level) => level,
        Err(error) => {
            return Err(error);
        },
    };
    let name = match &config.transform_mode {
        Some(name) => Some(name.as_str()),
        None => None,
    };
    match parse_ffi_transform_mode(name) {
        Ok(transform_mode) => Ok(
            CompressedServerConfig {
                level,
                server_name: config.server_name,
                include_tools: config.include_tools,
                exclude_tools: config.exclude_tools,
                toonify: config.toonify,
                transform_mode,
            },
        ),
        Err(error) => Err(error),
    }
}

/// A session whose server is to be connected. `L` is a compression level, `S` says
/// what the server's backends are, and `H` is a hook.
#[derive(Debug)]
pub struct SessionStart<L, S, H> {
    /// The server.
    pub server: CompressedServerConfig<L>,
    /// Its backends.
    pub source: S,
    /// Whether a bridge is started.
    pub bridge: bool,
    /// What runs before each call.
    pub before_exec: Option<Arc<H>>,
}

/// `parse` can read `text` so.
pub open spec fn reads_as<L, F: FnOnce(&str) -> Result<L, Error>>(
    parse: F,
    text: Seq<char>,
    level: Result<L, Error>,
) -> bool {
    exists|shown: &str| shown@ == text && #[trigger] call_ensures(parse, (shown,), level)
}

/// `start` is how a session begins, where `level` is what its compression level
/// reads as.
pub open spec fn begins<L, S, H>(
    config: FfiCompressedSessionConfig,
    level: Result<L, Error>,
    source: S,
    before_exec: Option<Arc<H>>,
    start: Result<SessionStart<L, S, H>, Error>,
) -> bool {
    match start {
        Ok(start) => {
            &&& configures(config, level, Ok(start.server))
            &&& start.source == source
            &&& start.bridge == config.bridge
            &&& start.before_exec == before_exec
        },
        Err(error) => configures(config, level, Err(error)),
    }
}

/// Begins a session on what `source` says.
fn start_session<L, S, H, F: FnOnce(&str) -> Result<L, Error>>(
    config: FfiCompressedSessionConfig,
    source: S,
    before_exec: Option<Arc<H>>,
    parse_level: F,
) -> (start: Result<SessionStart<L, S, H>, Error>)
    requires
        forall|shown: &str|
            shown@ == config.compression_level@ ==> call_requires(parse_level, (shown,)),
    ensures
        exists|level: Result<L, Error>|
            {
                &&& reads_as(parse_level, config.compression_level@, level)
                &&& #[trigger] begins(config, level, source, before_exec, start)
            },
{
    let bridge = config.bridge;
    let shown = config.compression_level.as_str();
    let level = parse_level(shown);
    assert(call_ensures(parse_level, (shown,), level));
    let ghost read = level;
    let start = match server_config(config, level) {
        Ok(server) => Ok(SessionStart { server, source, bridge, before_exec }),
        Err(error) => Err(error),
    };
    assert(begins(config, read, source, before_exec, start));
    start
}

/// Begins a session on backends that are ready to be connected, with an optional
/// hook that runs before each call. `parse_level` reads the compression level.
pub fn start_compressed_session_with_backend_configs_and_before_exec<
    L,
    B,
    H,
    F: FnOnce(&str) -> Result<L, Error>,
>(
    config: FfiCompressedSessionConfig,
    backends: Vec<B>,
    before_exec: Option<Arc<H>>,
    parse_level: F,
) -> (start: Result<SessionStart<L, Vec<B>, H>, Error>)
    requires
        forall|shown: &str|
            shown@ == config.compression_level@ ==> call_requires(parse_level, (shown,)),
    ensures
        exists|level: Result<L, Error>|
            {
                &&& reads_as(parse_level, config.compression_level@, level)
                &&& #[trigger] begins(config, level, backends, before_exec, start)
            },
{
    start_session(config, backends, before_exec, parse_level)
}

/// Begins a session on backends that are ready to be connected, without a hook.
pub fn start_compressed_session_with_backend_configs<
    L,
    B,
    H,
    F: FnOnce(&str) -> Result<L, Error>,
>(config: FfiCompressedSessionConfig, backends: Vec<B>, parse_level: F) -> (start: Result<
    SessionStart<L, Vec<B>, H>,
    Error,
>)
    requires
        forall|shown: &str|
            shown@ == config.compression_level@ ==> call_requires(parse_level, (shown,)),
    ensures
        exists|level: Result<L, Error>|
            {
                &&& reads_as(parse_level, config.compression_level@, level)
                &&& #[trigger] begins(config, level, backends, None, start)
            },
{
    start_compressed_session_with_backend_configs_and_before_exec(
        config,
        backends,
        None,
        parse_level,
    )
}

/// `configs` holds, in order, what `convert` makes of `backends`.
pub open spec fn converts<B, G: Fn(FfiBackendConfig) -> B>(
    convert: G,
    backends: Seq<FfiBackendConfig>,
    configs: Seq<B>,
) -> bool {
    &&& configs.len() == backends.len()
    &&& forall|i: int|
        0 <= i < backends.len() ==> call_ensures(convert, (backends[i],), #[trigger] configs[i])
}

/// What `convert` makes of each backend.
fn convert_all<B, G: Fn(FfiBackendConfig) -> B>(
    backends: Vec<FfiBackendConfig>,
    convert: G,
) -> (configs: Vec<B>)
    requires
        forall|backend: FfiBackendConfig| call_requires(convert, (backend,)),
    ensures
        converts(convert, backends@, configs@),
{
    let ghost all = backends@;
    let mut configs: Vec<B> = Vec::new();
    for backend in it: backends
        invariant
            it.seq() == all,
            configs@.len() == it.index(),
            forall|backend: FfiBackendConfig| call_requires(convert, (backend,)),
            forall|i: int|
                0 <= i < it.index() ==> call_ensures(convert, (all[i],), #[trigger] configs@[i]),
    {
        assert(all[it.index()] == backend);
        configs.push(convert(backend));
    }
    configs
}

/// Begins a session on backends in normal form, without a hook. `convert` makes a
/// backend ready to be connected.
pub fn start_compressed_session<
    L,
    B,
    H,
    F: FnOnce(&str) -> Result<L, Error>,
    G: Fn(FfiBackendConfig) -> B,
>(
    config: FfiCompressedSessionConfig,
    backends: Vec<FfiBackendConfig>,
    parse_level: F,
    convert: G,
) -> (start: Result<SessionStart<L, Vec<B>, H>, Error>)
    requires
        forall|shown: &str|
            shown@ == config.compression_level@ ==> call_requires(parse_level, (shown,)),
        forall|backend: FfiBackendConfig| call_requires(convert, (backend,)),
    ensures
        exists|level: Result<L, Error>, configs: Vec<B>|
            {
                &&& reads_as(parse_level, config.compression_level@, level)
                &&& converts(convert, backends@, configs@)
                &&& #[trigger] begins(config, level, configs, None, start)
            },
{
    let configs = convert_all(backends, convert);
    start_compressed_session_with_backend_configs(config, configs, parse_level)
}

/// Begins a session on the backends of an MCP configuration, without a hook.
pub fn start_compressed_session_from_mcp_config<'a, L, H, F: FnOnce(&str) -> Result<L, Error>>(
    config: FfiCompressedSessionConfig,
    mcp_config_json: &'a str,
    parse_level: F,
) -> (start: Result<SessionStart<L, &'a str, H>, Error>)
    requires
        forall|shown: &str|
            shown@ == config.compression_level@ ==> call_requires(parse_level, (shown,)),
    ensures
        exists|level: Result<L, Error>|
            {
                &&& reads_as(parse_level, config.compression_level@, level)
                &&& #[trigger] begins(config, level, mcp_config_json, None, start)
            },
{
    start_session(config, mcp_config_json, None, parse_level)
}

/// A tool as SDK callers see it.
#[derive(Debug)]
pub struct FfiTool {
    /// The tool's name.
    pub name: String,
    /// What the tool does.
    pub description: Option<String>,
    /// The JSON schema of the tool's input.
    pub input_schema: Value,
}

impl From<Tool> for FfiTool {
    fn from(tool: Tool) -> (converted: Self) {
        FfiTool { name: tool.name, description: tool.description, input_schema: tool.input_schema }
    }
}

impl vstd::std_specs::convert::FromSpecImpl<Tool> for FfiTool {
    open spec fn obeys_from_spec() -> bool {
        true
    }

    open spec fn from_spec(tool: Tool) -> Self {
        FfiTool { name: tool.name, description: tool.description, input_schema: tool.input_schema }
    }
}

impl Clone for FfiTool {
    fn clone(&self) -> (copy: Self)
        ensures
            copy == *self,
    {
        let description = match &self.description {
            Some(description) => Some(description.clone()),
            None => None,
        };
        FfiTool { name: self.name.clone(), description, input_schema: self.input_schema.clone() }
    }
}

/// A tool together with the server that offers it.
#[derive(Debug)]
pub struct FfiBackendTool {
    /// The name of the server.
    pub server_name: String,
    /// The tool.
    pub tool: FfiTool,
}

impl Clone for FfiBackendTool {
    fn clone(&self) -> (copy: Self)
        ensures
            copy == *self,
    {
        FfiBackendTool { server_name: self.server_name.clone(), tool: self.tool.clone() }
    }
}

/// A tool as SDK callers see it.
pub open spec fn ffi_tool(tool: Tool) -> FfiTool {
    FfiTool { name: tool.name, description: tool.description, input_schema: tool.input_schema }
}

/// Tools as SDK callers see them, in their order.
pub open spec fn ffi_tools(tools: Seq<Tool>) -> Seq<FfiTool> {
    tools.map_values(|tool: Tool| ffi_tool(tool))
}

/// Tools with their servers as SDK callers see them, in their order.
pub open spec fn ffi_backend_tools(tools: Seq<(String, Tool)>) -> Seq<FfiBackendTool> {
    tools.map_values(
        |entry: (String, Tool)| FfiBackendTool { server_name: entry.0, tool: ffi_tool(entry.1) },
    )
}

/// Converts tools, in their order.
fn to_ffi_tools(tools: Vec<Tool>) -> (converted: Vec<FfiTool>)
    ensures
        converted@ == ffi_tools(tools@),
{
    let ghost all = tools@;
    let mut converted: Vec<FfiTool> = Vec::new();
    for tool in it: tools
        invariant
            it.seq() == all,
            converted@.len() == it.index(),
            forall|i: int| 0 <= i < it.index() ==> converted@[i] == ffi_tool(#[trigger] all[i]),
    {
        assert(all[it.index()] == tool);
        converted.push(FfiTool::from(tool));
    }
    assert(converted@ =~= ffi_tools(all));
    converted
}

/// Converts tools with their servers, in their order.
fn to_ffi_backend_tools(tools: Vec<(String, Tool)>) -> (converted: Vec<FfiBackendTool>)
    ensures
        converted@ == ffi_backend_tools(tools@),
{
    let ghost all = tools@;
    let mut converted: Vec<FfiBackendTool> = Vec::new();
    for (server_name, tool) in it: tools
        invariant
            it.seq() == all,
            converted@.len() == it.index(),
            forall|i: int|
                0 <= i < it.index() ==> converted@[i] == (FfiBackendTool {
                    server_name: (#[trigger] all[i]).0,
                    tool: ffi_tool(all[i].1),
                }),
    {
        assert(all[it.index()] == (server_name, tool));
        converted.push(FfiBackendTool { server_name, tool: FfiTool::from(tool) });
    }
    assert(converted@ =~= ffi_backend_tools(all));
    converted
}

/// What a session tells its callers. `P` describes commands of the shell tool.
#[derive(Debug)]
pub struct FfiCompressedSessionInfo<P> {
    /// The URL of the bridge; empty where there is none.
    pub bridge_url: String,
    /// The token of the bridge; empty where there is none.
    pub token: String,
    /// The tools that callers are offered.
    pub frontend_tools: Vec<FfiTool>,
    /// The tools behind them.
    pub backend_tools: Vec<FfiTool>,
    /// The tools behind them, with their servers.
    pub backend_tools_by_server: Vec<FfiBackendTool>,
    /// The commands of the shell tool.
    pub just_bash_providers: Vec<P>,
}

/// `copy` tells what `info` tells; each provider is a clone.
pub open spec fn is_copy<P: Clone>(
    info: FfiCompressedSessionInfo<P>,
    copy: FfiCompressedSessionInfo<P>,
) -> bool {
    &&& copy.bridge_url == info.bridge_url
    &&& copy.token == info.token
    &&& copy.frontend_tools@ == info.frontend_tools@
    &&& copy.backend_tools@ == info.backend_tools@
    &&& copy.backend_tools_by_server@ == info.backend_tools_by_server@
    &&& copy.just_bash_providers@.len() == info.just_bash_providers@.len()
    &&& forall|i: int|
        0 <= i < info.just_bash_providers@.len() ==> cloned::<P>(
            info.just_bash_providers@[i],
            #[trigger] copy.just_bash_providers@[i],
        )
}

/// A copy of a list of tools.
fn copy_tools(tools: &Vec<FfiTool>) -> (copy: Vec<FfiTool>)
    ensures
        copy@ == tools@,
{
    let copy = tools.clone();
    assert(copy@ =~= tools@);
    copy
}

/// What is known of a server once it is connected. `P` describes commands of the
/// shell tool.
#[derive(Debug)]
pub struct ServerListing<P> {
    /// The tools that it offers, or why they could not be listed.
    pub frontend_tools: Result<Vec<Tool>, Error>,
    /// The tools behind them.
    pub backend_tools: Vec<Tool>,
    /// The tools behind them, with their servers.
    pub backend_tools_by_server: Vec<(String, Tool)>,
    /// The commands of the shell tool.
    pub just_bash_providers: Vec<P>,
}

/// A session that is ready. `S` is a compressed server, `H` a hook, `P` describes
/// commands of the shell tool, and `J` is the task of a bridge.
#[derive(Debug)]
pub struct FfiCompressedSession<S, H, P, J> {
    /// What the session tells its callers.
    pub info: FfiCompressedSessionInfo<P>,
    /// The server.
    pub server: Arc<S>,
    /// The bridge, if there is one. It runs as long as the session holds it.
    pub proxy: Option<RunningToolProxy<S, J>>,
    /// What runs before each call within the process.
    pub before_exec: Option<Arc<H>>,
}

/// A session that waits for its bridge.
#[derive(Debug)]
pub struct PendingSession<H, P> {
    /// The tools that callers are offered.
    pub frontend_tools: Vec<FfiTool>,
    /// The tools behind them.
    pub backend_tools: Vec<FfiTool>,
    /// The tools behind them, with their servers.
    pub backend_tools_by_server: Vec<FfiBackendTool>,
    /// The commands of the shell tool.
    pub just_bash_providers: Vec<P>,
    /// What runs before each call within the process.
    pub before_exec: Option<Arc<H>>,
}

/// What is to be done once the tools of a session are listed.
#[derive(Debug)]
pub enum SessionStep<S, H, P, J> {
    /// The session is ready, within the process.
    Ready(FfiCompressedSession<S, H, P, J>),
    /// A bridge is started for it first.
    StartBridge {
        /// The server that the bridge serves.
        server: S,
        /// The hook that the bridge runs before each request.
        hook: Option<Arc<H>>,
        /// The session.
        pending: PendingSession<H, P>,
    },
}

/// These lists are what `listing` says, where its tools could be listed.
pub open spec fn lists<P>(
    listing: ServerListing<P>,
    frontend_tools: Seq<FfiTool>,
    backend_tools: Seq<FfiTool>,
    backend_tools_by_server: Seq<FfiBackendTool>,
    just_bash_providers: Vec<P>,
) -> bool {
    &&& listing.frontend_tools is Ok
    &&& frontend_tools == ffi_tools(listing.frontend_tools->Ok_0@)
    &&& backend_tools == ffi_tools(listing.backend_tools@)
    &&& backend_tools_by_server == ffi_backend_tools(listing.backend_tools_by_server@)
    &&& just_bash_providers == listing.just_bash_providers
}

/// `step` is what follows once the tools of a server are listed.
pub open spec fn opens<S, H, P, J>(
    server: S,
    listing: ServerListing<P>,
    bridge: bool,
    before_exec: Option<Arc<H>>,
    step: Result<SessionStep<S, H, P, J>, Error>,
) -> bool {
    match step {
        Ok(SessionStep::Ready(session)) => {
            &&& !bridge
            &&& lists(
                listing,
                session.info.frontend_tools@,
                session.info.backend_tools@,
                session.info.backend_tools_by_server@,
                session.info.just_bash_providers,
            )
            &&& session.info.bridge_url@ == Seq::<char>::empty()
            &&& session.info.token@ == Seq::<char>::empty()
            &&& *session.server == server
            &&& session.proxy is None
            &&& session.before_exec == before_exec
        },
        Ok(SessionStep::StartBridge { server: served, hook, pending }) => {
            &&& bridge
            &&& lists(
                listing,
                pending.frontend_tools@,
                pending.backend_tools@,
                pending.backend_tools_by_server@,
                pending.just_bash_providers,
            )
            &&& served == server
            &&& hook == before_exec
            &&& pending.before_exec == before_exec
        },
        Err(error) => listing.frontend_tools == Err::<Vec<Tool>, Error>(error),
    }
}

/// Opens a session on a connected server. A hook stays on the session also where a
/// bridge gets it: calls within the process never reach the bridge.
pub fn compressed_session_from_server<S, H, P, J>(
    server: S,
    listing: ServerListing<P>,
    bridge: bool,
    before_exec: Option<Arc<H>>,
) -> (step: Result<SessionStep<S, H, P, J>, Error>)
    ensures
        opens(server, listing, bridge, before_exec, step),
{
    let frontend_tools = match listing.frontend_tools {
        Ok(tools) => to_ffi_tools(tools),
        Err(error) => {
            return Err(error);
        },
    };
    let backend_tools = to_ffi_tools(listing.backend_tools);
    let backend_tools_by_server = to_ffi_backend_tools(listing.backend_tools_by_server);
    let just_bash_providers = listing.just_bash_providers;
    if bridge {
        let hook = match &before_exec {
            Some(hook) => Some(outside::share(hook)),
            None => None,
        };
        Ok(
            SessionStep::StartBridge {
                server,
                hook,
                pending: PendingSession {
                    frontend_tools,
                    backend_tools,
                    backend_tools_by_server,
                    just_bash_providers,
                    before_exec,
                },
            },
        )
    } else {
        Ok(
            SessionStep::Ready(
                FfiCompressedSession {
                    info: FfiCompressedSessionInfo {
                        bridge_url: String::new(),
                        token: String::new(),
                        frontend_tools,
                        backend_tools,
                        backend_tools_by_server,
                        just_bash_providers,
                    },
                    server: ToolProxyServer::in_process(server),
                    proxy: None,
                    before_exec,
                },
            ),
        )
    }
}

/// `session` is what a pending session becomes with its bridge.
pub open spec fn is_bridged<S, H, P, J>(
    pending: PendingSession<H, P>,
    started: Result<RunningToolProxy<S, J>, Error>,
    session: Result<FfiCompressedSession<S, H, P, J>, Error>,
) -> bool {
    match started {
        Ok(proxy) => {
            &&& session matches Ok(ready)
            &&& ready.info.bridge_url@ == proxy@.bridge_url
            &&& ready.info.token@ == proxy@.token
            &&& ready.info.frontend_tools == pending.frontend_tools
            &&& ready.info.backend_tools == pending.backend_tools
            &&& ready.info.backend_tools_by_server == pending.backend_tools_by_server
            &&& ready.info.just_bash_providers == pending.just_bash_providers
            &&& *ready.server == proxy@.server
            &&& ready.proxy == Some(proxy)
            &&& ready.before_exec == pending.before_exec
        },
        Err(error) => session == Err::<FfiCompressedSession<S, H, P, J>, Error>(error),
    }
}

impl<H, P> PendingSession<H, P> {
    /// Goes on after the bridge was started: the session is ready and shares the
    /// server with the bridge.
    pub fn bridged<S, J>(self, started: Result<RunningToolProxy<S, J>, Error>) -> (session: Result<
        FfiCompressedSession<S, H, P, J>,
        Error,
    >)
        ensures
            is_bridged(self, started, session),
    {
        let proxy = match started {
            Ok(proxy) => proxy,
            Err(error) => {
                return Err(error);
            },
        };
        let bridge_url = proxy.bridge_url().to_string();
        let token = proxy.token_value().to_string();
        let server = outside::share(proxy.server());
        Ok(
            FfiCompressedSession {
                info: FfiCompressedSessionInfo {
                    bridge_url,
                    token,
                    frontend_tools: self.frontend_tools,
                    backend_tools: self.backend_tools,
                    backend_tools_by_server: self.backend_tools_by_server,
                    just_bash_providers: self.just_bash_providers,
                },
                server,
                proxy: Some(proxy),
                before_exec: self.before_exec,
            },
        )
    }
}

/// What is to be done about a call within the process.
#[derive(Debug)]
pub enum InvokeStep {
    /// The hook runs first.
    Refresh(ExecRequest),
    /// The call is dispatched.
    Dispatch(ExecRequest),
}

/// `request` is a call of `tool` with `input`.
pub open spec fn is_call(request: ExecRequest, tool: Seq<char>, input: Value) -> bool {
    request.tool@ == tool && request.input == input
}

/// `step` is how a call within the process is taken up.
pub open spec fn invokes(has_hook: bool, tool: Seq<char>, input: Value, step: InvokeStep) -> bool {
    match step {
        InvokeStep::Refresh(request) => has_hook && is_call(request, tool, input),
        InvokeStep::Dispatch(request) => !has_hook && is_call(request, tool, input),
    }
}

impl<S, H, P, J> FfiCompressedSession<S, H, P, J> {
    /// The URL of the bridge; empty where there is none.
    pub fn bridge_url(&self) -> (url: &str)
        ensures
            url@ == self.info.bridge_url@,
    {
        self.info.bridge_url.as_str()
    }

    /// The token of the bridge; empty where there is none.
    pub fn token(&self) -> (token: &str)
        ensures
            token@ == self.info.token@,
    {
        self.info.token.as_str()
    }

    /// What the session tells its callers.
    pub fn info(&self) -> (info: FfiCompressedSessionInfo<P>) where P: Clone
        ensures
            is_copy(self.info, info),
    {
        let backend_tools_by_server = self.info.backend_tools_by_server.clone();
        assert(backend_tools_by_server@ =~= self.info.backend_tools_by_server@);
        FfiCompressedSessionInfo {
            bridge_url: self.info.bridge_url.clone(),
            token: self.info.token.clone(),
            frontend_tools: copy_tools(&self.info.frontend_tools),
            backend_tools: copy_tools(&self.info.backend_tools),
            backend_tools_by_server,
            just_bash_providers: self.info.just_bash_providers.clone(),
        }
    }

    /// The tools that callers are offered.
    pub fn list_frontend_tools(&self) -> (tools: Vec<FfiTool>)
        ensures
            tools@ == self.info.frontend_tools@,
    {
        copy_tools(&self.info.frontend_tools)
    }

    /// Takes up a call within the process. It never goes through the bridge, so the
    /// hook of the session itself runs first.
    pub fn invoke(&self, tool: &str, input: Value) -> (step: InvokeStep)
        ensures
            invokes(self.before_exec is Some, tool@, input, step),
    {
        let request = ExecRequest { tool: tool.to_string(), input };
        if self.before_exec.is_some() {
            InvokeStep::Refresh(request)
        } else {
            InvokeStep::Dispatch(request)
        }
    }
}

/// `next` is what follows the hook that ran before a call within the process.
pub open spec fn follows_hook(
    request: ExecRequest,
    refreshed: Result<(), Error>,
    next: Result<ExecRequest, Error>,
) -> bool {
    next == match refreshed {
        Ok(_) => Ok::<ExecRequest, Error>(request),
        Err(error) => Err(error),
    }
}

/// Goes on after the hook ran before a call within the process. Its failure is the
/// call's.
pub fn invoke_refreshed(request: ExecRequest, refreshed: Result<(), Error>) -> (next: Result<
    ExecRequest,
    Error,
>)
    ensures
        follows_hook(request, refreshed, next),
{
    match refreshed {
        Ok(_) => Ok(request),
        Err(error) => Err(error),
    }
}

/// A hook runs before every call within the process, whether or not the session
/// has a bridge; and a bridge gets the same hook.
pub proof fn a_bridge_does_not_take_the_hook_away<S, H, P, J>(
    server: S,
    listing: ServerListing<P>,
    bridge: bool,
    hook: Arc<H>,
    step: SessionStep<S, H, P, J>,
    started: RunningToolProxy<S, J>,
    bridged: Result<FfiCompressedSession<S, H, P, J>, Error>,
    tool: Seq<char>,
    input: Value,
    taken_up: InvokeStep,
)
    requires
        opens(server, listing, bridge, Some(hook), Ok(step)),
        step matches SessionStep::StartBridge { server: _, hook: _, pending } ==> is_bridged(
            pending,
            Ok(started),
            bridged,
        ),
        ({
            let session = if let SessionStep::Ready(ready) = step {
                ready
            } else {
                bridged->Ok_0
            };
            invokes(session.before_exec is Some, tool, input, taken_up)
        }),
    ensures
        taken_up is Refresh,
        step is StartBridge == bridge,
        step matches SessionStep::StartBridge { server: _, hook: given, pending: _ } ==> given
            == Some(hook),
{
}

/// Without a bridge a session has neither URL nor token, and nothing outside the
/// process can reach it.
pub proof fn sessions_without_a_bridge_are_not_reachable<S, H, P, J>(
    server: S,
    listing: ServerListing<P>,
    before_exec: Option<Arc<H>>,
    step: SessionStep<S, H, P, J>,
)
    requires
        opens(server, listing, false, before_exec, Ok(step)),
    ensures
        step matches SessionStep::Ready(session) && session.proxy is None
            && session.info.bridge_url@.len() == 0 && session.info.token@.len() == 0,
{
}

/// A session tells the same tools, in the same order, with and without a bridge.
pub proof fn a_bridge_does_not_change_the_tools<S, H, P, J>(
    server: S,
    listing: ServerListing<P>,
    before_exec: Option<Arc<H>>,
    without: SessionStep<S, H, P, J>,
    with: SessionStep<S, H, P, J>,
    started: RunningToolProxy<S, J>,
    bridged: FfiCompressedSession<S, H, P, J>,
)
    requires
        opens(server, listing, false, before_exec, Ok(without)),
        opens(server, listing, true, before_exec, Ok(with)),
        with matches SessionStep::StartBridge { server: _, hook: _, pending } ==> is_bridged(
            pending,
            Ok(started),
            Ok(bridged),
        ),
    ensures
        without matches SessionStep::Ready(session) && session.info.frontend_tools@
            == bridged.info.frontend_tools@ && session.info.backend_tools@
            == bridged.info.backend_tools@ && session.info.backend_tools_by_server@
            == bridged.info.backend_tools_by_server@ && session.info.just_bash_providers
            == bridged.info.just_bash_providers,
{
}

/// A mode without a name is the one that is called `compressed-tools`.
pub proof fn compressed_tools_are_the_default()
    ensures
        named_mode(mode_name(None)) == Some(ProxyTransformMode::CompressedTools),
        mode_name(None) == mode_name(Some("compressed-tools"@)),
{
}

/// The names of the transform modes, and that there are no others.
pub proof fn modes_have_these_names(name: Seq<char>)
    ensures
        name == "compressed-tools"@ || name == "compressed"@ || name == "normal"@ ==> named_mode(
            name,
        ) == Some(ProxyTransformMode::CompressedTools),
        name == "cli"@ || name == "cli-mode"@ ==> named_mode(name) == Some(
            ProxyTransformMode::Cli,
        ),
        name == "just-bash"@ || name == "just_bash"@ ==> named_mode(name) == Some(
            ProxyTransformMode::JustBash,
        ),
        named_mode(name) is Some ==> name == "compressed-tools"@ || name == "compressed"@ || name
            == "normal"@ || name == "cli"@ || name == "cli-mode"@ || name == "just-bash"@ || name
            == "just_bash"@,
        mode_name(Some(name)) == name,
        mode_name(None) == "compressed-tools"@,
{
    reveal_strlit("compressed-tools");
    reveal_strlit("compressed");
    reveal_strlit("normal");
    reveal_strlit("cli");
    reveal_strlit("cli-mode");
    reveal_strlit("just-bash");
    reveal_strlit("just_bash");
    assert("compressed-tools"@.len() == 16);
    assert("compressed"@.len() == 10);
    assert("normal"@.len() == 6);
    assert("cli"@.len() == 3);
    assert("cli-mode"@.len() == 8);
    assert("just-bash"@.len() == 9);
    assert("just_bash"@.len() == 9);
}

/// A server is set up with everything that its session configures. A level that does
/// not read is reported as it is, and then a mode that no name stands for.
pub proof fn servers_are_set_up_as_configured<L>(
    config: FfiCompressedSessionConfig,
    level: Result<L, Error>,
    result: Result<CompressedServerConfig<L>, Error>,
    name: Seq<char>,
)
    requires
        configures(config, level, result),
        config.transform_mode is Some ==> name == config.transform_mode->0@,
        config.transform_mode is None ==> name == "compressed-tools"@,
    ensures
        level is Err ==> result is Err && result->Err_0 == level->Err_0,
        level is Ok && named_mode(name) is None ==> (result matches Err(Error::Config(reason))
            && reason@ == "invalid transform mode: "@ + name),
        level is Ok && named_mode(name) is Some ==> result is Ok && result->Ok_0.level
            == level->Ok_0 && result->Ok_0.server_name == config.server_name
            && result->Ok_0.include_tools == config.include_tools && result->Ok_0.exclude_tools
            == config.exclude_tools && result->Ok_0.toonify == config.toonify
            && result->Ok_0.transform_mode == named_mode(name)->0,
{
}

/// A session starts on the backends that it is given, with or without a bridge as it
/// is configured, and with exactly the hook that its caller gave. It fails to start
/// only where its server cannot be set up.
pub proof fn sessions_start_with_what_they_are_given<L, S, H>(
    config: FfiCompressedSessionConfig,
    level: Result<L, Error>,
    source: S,
    before_exec: Option<Arc<H>>,
    start: Result<SessionStart<L, S, H>, Error>,
)
    requires
        begins(config, level, source, before_exec, start),
    ensures
        start matches Ok(session) ==> {
            &&& session.before_exec == before_exec
            &&& session.bridge == config.bridge
            &&& session.source == source
            &&& configures(config, level, Ok(session.server))
        },
        start matches Err(error) ==> configures(config, level, Err(error)),
        level is Ok && (config.transform_mode is None || named_mode(config.transform_mode->0@)
            is Some) ==> start is Ok,
{
    modes_have_these_names("compressed-tools"@);
    if config.transform_mode is Some {
        modes_have_these_names(config.transform_mode->0@);
    }
}

/// Backends are converted one for one, in order.
pub proof fn backends_are_converted_in_order<B, G: Fn(FfiBackendConfig) -> B>(
    convert: G,
    backends: Seq<FfiBackendConfig>,
    configs: Seq<B>,
    i: int,
)
    requires
        converts(convert, backends, configs),
        0 <= i < backends.len(),
    ensures
        configs.len() == backends.len(),
        call_ensures(convert, (backends[i],), configs[i]),
{
    assert(call_ensures(convert, (backends[i],), configs[i]));
}

/// Callers see each tool as it is, in its place, and each tool of a backend with the
/// server that offers it.
pub proof fn callers_see_tools_as_they_are(
    tools: Seq<Tool>,
    entries: Seq<(String, Tool)>,
    i: int,
    k: int,
)
    requires
        0 <= i < tools.len(),
        0 <= k < entries.len(),
    ensures
        ffi_tools(tools).len() == tools.len(),
        ffi_tools(tools)[i].name == tools[i].name,
        ffi_tools(tools)[i].description == tools[i].description,
        ffi_tools(tools)[i].input_schema == tools[i].input_schema,
        ffi_backend_tools(entries).len() == entries.len(),
        ffi_backend_tools(entries)[k].server_name == entries[k].0,
        ffi_backend_tools(entries)[k].tool.name == entries[k].1.name,
        ffi_backend_tools(entries)[k].tool.description == entries[k].1.description,
        ffi_backend_tools(entries)[k].tool.input_schema == entries[k].1.input_schema,
{
}

/// What a copy of a session's information tells is what the session tells.
pub proof fn copies_tell_the_same<P: Clone>(
    info: FfiCompressedSessionInfo<P>,
    copy: FfiCompressedSessionInfo<P>,
    i: int,
)
    requires
        is_copy(info, copy),
    ensures
        copy.bridge_url@ == info.bridge_url@,
        copy.token@ == info.token@,
        copy.frontend_tools@ == info.frontend_tools@,
        copy.backend_tools@ == info.backend_tools@,
        copy.backend_tools_by_server@ == info.backend_tools_by_server@,
        copy.just_bash_providers@.len() == info.just_bash_providers@.len(),
        0 <= i < info.just_bash_providers@.len() ==> cloned::<P>(
            info.just_bash_providers@[i],
            copy.just_bash_providers@[i],
        ),
{
    if 0 <= i < info.just_bash_providers@.len() {
        assert(cloned::<P>(info.just_bash_providers@[i], copy.just_bash_providers@[i]));
    }
}

/// Opening a session fails exactly where its tools cannot be listed, with that reason.
/// Without a bridge the session is ready at once, and with one the bridge is started
/// on the same server first.
pub proof fn sessions_open_with_or_without_a_bridge<S, H, P, J>(
    server: S,
    listing: ServerListing<P>,
    bridge: bool,
    before_exec: Option<Arc<H>>,
    step: Result<SessionStep<S, H, P, J>, Error>,
)
    requires
        opens(server, listing, bridge, before_exec, step),
    ensures
        listing.frontend_tools is Err <==> step is Err,
        step matches Err(error) ==> listing.frontend_tools->Err_0 == error,
        step is Ok && !bridge ==> (step->Ok_0 matches SessionStep::Ready(session)
            && *session.server == server && session.proxy is None && session.before_exec
            == before_exec && session.info.bridge_url@.len() == 0 && session.info.token@.len()
            == 0),
        step is Ok && bridge ==> (step->Ok_0 matches SessionStep::StartBridge {
            server: served,
            hook,
            pending,
        } && served == server && hook == before_exec && pending.before_exec == before_exec),
{
}

/// A session tells the tools that its server listed, each list in its place, with a
/// bridge as without.
pub proof fn sessions_tell_what_was_listed<S, H, P, J>(
    server: S,
    listing: ServerListing<P>,
    bridge: bool,
    before_exec: Option<Arc<H>>,
    step: SessionStep<S, H, P, J>,
    started: RunningToolProxy<S, J>,
    bridged: Result<FfiCompressedSession<S, H, P, J>, Error>,
)
    requires
        opens(server, listing, bridge, before_exec, Ok(step)),
        step matches SessionStep::StartBridge { server: _, hook: _, pending } ==> is_bridged(
            pending,
            Ok(started),
            bridged,
        ),
    ensures
        step is StartBridge ==> bridged is Ok,
        ({
            let info = if let SessionStep::Ready(ready) = step {
                ready.info
            } else {
                bridged->Ok_0.info
            };
            &&& info.frontend_tools@ == ffi_tools(listing.frontend_tools->Ok_0@)
            &&& info.backend_tools@ == ffi_tools(listing.backend_tools@)
            &&& info.backend_tools_by_server@ == ffi_backend_tools(
                listing.backend_tools_by_server@,
            )
            &&& info.just_bash_providers == listing.just_bash_providers
        }),
{
}

/// A session with a bridge tells the bridge's own URL and token, keeps the bridge, and
/// shares its server; a bridge that does not start is the reason why there is no
/// session.
pub proof fn bridged_sessions_tell_where_the_bridge_is<S, H, P, J>(
    pending: PendingSession<H, P>,
    proxy: RunningToolProxy<S, J>,
    error: Error,
    ready: Result<FfiCompressedSession<S, H, P, J>, Error>,
    failed: Result<FfiCompressedSession<S, H, P, J>, Error>,
)
    requires
        is_bridged(pending, Ok(proxy), ready),
        is_bridged(pending, Err::<RunningToolProxy<S, J>, Error>(error), failed),
    ensures
        ready matches Ok(session) && session.info.bridge_url@ == proxy@.bridge_url
            && session.info.token@ == proxy@.token && *session.server == proxy@.server
            && session.proxy == Some(proxy) && session.before_exec == pending.before_exec,
        failed is Err && failed->Err_0 == error,
{
}

/// A call within the process is of the tool and the input that it is given, and runs
/// the hook first exactly where the session has one.
pub proof fn calls_run_the_hook_first(
    has_hook: bool,
    tool: Seq<char>,
    input: Value,
    step: InvokeStep,
)
    requires
        invokes(has_hook, tool, input, step),
    ensures
        step is Refresh <==> has_hook,
        step matches InvokeStep::Refresh(request) ==> request.tool@ == tool && request.input
            == input,
        step matches InvokeStep::Dispatch(request) ==> request.tool@ == tool && request.input
            == input,
{
}

/// From the start of a session to a call: a session that starts with a hook, is opened
/// and then called within the process runs that hook before the call, whether or not
/// it is configured with a bridge; a bridge gets the same hook. A session that starts
/// without one dispatches its calls at once.
pub proof fn hooks_last_from_the_start_to_the_call<L, B, S, H, P, J>(
    config: FfiCompressedSessionConfig,
    level: Result<L, Error>,
    source: B,
    before_exec: Option<Arc<H>>,
    start: SessionStart<L, B, H>,
    server: S,
    listing: ServerListing<P>,
    step: SessionStep<S, H, P, J>,
    started: RunningToolProxy<S, J>,
    bridged: Result<FfiCompressedSession<S, H, P, J>, Error>,
    tool: Seq<char>,
    input: Value,
    taken_up: InvokeStep,
)
    requires
        begins(config, level, source, before_exec, Ok(start)),
        opens(server, listing, start.bridge, start.before_exec, Ok(step)),
        step matches SessionStep::StartBridge { server: _, hook: _, pending } ==> is_bridged(
            pending,
            Ok(started),
            bridged,
        ),
        ({
            let session = if let SessionStep::Ready(ready) = step {
                ready
            } else {
                bridged->Ok_0
            };
            invokes(session.before_exec is Some, tool, input, taken_up)
        }),
    ensures
        step is StartBridge <==> config.bridge,
        before_exec is Some <==> taken_up is Refresh,
        step matches SessionStep::Ready(session) ==> session.before_exec == before_exec,
        step matches SessionStep::StartBridge { server: _, hook, pending: _ } ==> hook
            == before_exec && bridged->Ok_0.before_exec == before_exec,
        taken_up matches InvokeStep::Refresh(request) ==> request.tool@ == tool && request.input
            == input,
        taken_up matches InvokeStep::Dispatch(request) ==> request.tool@ == tool && request.input
            == input,
{
}

/// A call goes on as it was taken up once its hook has run, and fails with the hook's
/// own error where it has not.
pub proof fn a_failed_hook_fails_the_call(
    request: ExecRequest,
    error: Error,
    refreshed: Result<ExecRequest, Error>,
    failed: Result<ExecRequest, Error>,
)
    requires
        follows_hook(request, Ok(()), refreshed),
        follows_hook(request, Err(error), failed),
    ensures
        refreshed is Ok && refreshed->Ok_0.tool == request.tool && refreshed->Ok_0.input
            == request.input,
        failed is Err && failed->Err_0 == error,
{
}

/// The compression level is what `parse` made of the very text that is configured.
pub proof fn levels_are_read_from_the_configured_text<L, F: FnOnce(&str) -> Result<L, Error>>(
    parse: F,
    text: Seq<char>,
    level: Result<L, Error>,
)
    requires
        reads_as(parse, text, level),
    ensures
        exists|shown: &str| shown@ == text && #[trigger] call_ensures(parse, (shown,), level),
{
}

} // verus!
