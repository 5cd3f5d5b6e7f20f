//! Server definitions as SDK callers write them, and their normal form.

use vstd::prelude::*;

use crate::error::Error;
use crate::text;

verus! {

/// One server as an SDK caller defines it.
#[derive(Debug)]
pub enum FfiSdkServerConfig {
    /// A bare command or URL.
    CommandOrUrl(String),
    /// A definition by named parts.
    Structured {
        /// The command to run.
        command: Option<String>,
        /// The URL to connect to; it goes before the command.
        url: Option<String>,
        /// Arguments behind the command or URL.
        args: Vec<String>,
        /// HTTP headers, in the order in which the caller's map yields them.
        headers: Vec<(String, String)>,
        /// The name under which an OAuth login registers the application.
        oauth_app_name: Option<String>,
    },
}

/// Servers by name, in the order in which the caller's map yields them.
pub type FfiSdkServersConfig = Vec<(String, FfiSdkServerConfig)>;

/// One backend in normal form: a command or URL with its arguments.
#[derive(Debug)]
pub struct FfiBackendConfig {
    /// The backend's name.
    pub name: String,
    /// The command to run or the URL to connect to.
    pub command_or_url: String,
    /// The arguments behind it.
    pub args: Vec<String>,
    /// The name under which an OAuth login registers the application.
    pub oauth_app_name: Option<String>,
}

/// What an `FfiBackendConfig` says.
pub struct BackendView {
    pub name: Seq<char>,
    pub command_or_url: Seq<char>,
    pub args: Seq<Seq<char>>,
    pub oauth_app_name: Option<Seq<char>>,
}

impl View for FfiBackendConfig {
    type V = BackendView;

    open spec fn view(&self) -> BackendView {
        BackendView {
            name: self.name@,
            command_or_url: self.command_or_url@,
            args: text::texts(self.args@),
            oauth_app_name: text::opt_text(self.oauth_app_name),
        }
    }
}

/// A header as an argument: `key=value`.
pub open spec fn header_arg(header: (String, String)) -> Seq<char> {
    header.0@ + "="@ + header.1@
}

/// The arguments that pass `headers` on: for each header the flag `-H` and the
/// text `key=value`.
pub open spec fn header_args(headers: Seq<(String, String)>) -> Seq<Seq<char>>
    decreases headers.len(),
{
    if headers.len() == 0 {
        Seq::empty()
    } else {
        header_args(headers.drop_last()).push("-H"@).push(header_arg(headers.last()))
    }
}

/// The arguments that keep a backend with explicit headers from logging in by
/// OAuth, unless `args` chooses an authentication mode itself.
pub open spec fn auth_args(args: Seq<Seq<char>>) -> Seq<Seq<char>> {
    if args.contains("--auth"@) {
        Seq::empty()
    } else {
        seq!["--auth"@, "explicit-headers"@]
    }
}

/// The arguments of a server in normal form.
pub open spec fn normal_args(headers: Seq<(String, String)>, args: Seq<Seq<char>>) -> Seq<
    Seq<char>,
> {
    if headers.len() == 0 {
        args
    } else {
        header_args(headers) + auth_args(args) + args
    }
}

/// The command or URL of a server, if it defines one.
pub open spec fn target(config: FfiSdkServerConfig) -> Option<Seq<char>> {
    match config {
        FfiSdkServerConfig::CommandOrUrl(command_or_url) => Some(command_or_url@),
        FfiSdkServerConfig::Structured { command, url, .. } => match url {
            Some(url) => Some(url@),
            None => text::opt_text(command),
        },
    }
}

/// The normal form of a server that defines a command or URL.
pub open spec fn normal_form(name: Seq<char>, config: FfiSdkServerConfig) -> BackendView {
    match config {
        FfiSdkServerConfig::CommandOrUrl(command_or_url) => BackendView {
            name,
            command_or_url: command_or_url@,
            args: Seq::empty(),
            oauth_app_name: None,
        },
        FfiSdkServerConfig::Structured { args, headers, oauth_app_name, .. } => BackendView {
            name,
            command_or_url: target(config)->0,
            args: normal_args(headers@, text::texts(args@)),
            oauth_app_name: text::opt_text(oauth_app_name),
        },
    }
}

/// `error` says that the server called `name` defines neither command nor URL.
pub open spec fn is_undefined_server(error: Error, name: Seq<char>) -> bool {
    error matches Error::Config(reason) && reason@ == "server "@ + name
        + " must define command or url"@
}

/// `result` is what normalising one server gives.
pub open spec fn normalises_to(
    name: Seq<char>,
    config: FfiSdkServerConfig,
    result: Result<FfiBackendConfig, Error>,
) -> bool {
    match result {
        Ok(backend) => target(config) is Some && backend@ == normal_form(name, config),
        Err(error) => target(config) is None && is_undefined_server(error, name),
    }
}

/// Whether `args` chooses an authentication mode.
fn chooses_auth(args: &Vec<String>) -> (found: bool)
    ensures
        found == text::texts(args@).contains("--auth"@),
{
    let mut i: usize = 0;
    while i < args.len()
        invariant
            i <= args@.len(),
            forall|k: int| 0 <= k < i ==> args@[k]@ != "--auth"@,
        decreases args@.len() - i,
    {
        if text::same_text(args[i].as_str(), "--auth") {
            assert(text::texts(args@)[i as int] == "--auth"@);
            return true;
        }
        i += 1;
    }
    false
}

/// The arguments that pass `headers` on.
fn headers_to_args(headers: &Vec<(String, String)>) -> (args: Vec<String>)
    ensures
        text::texts(args@) == header_args(headers@),
{
    let mut args: Vec<String> = Vec::new();
    let mut i: usize = 0;
    assert(text::texts(args@) =~= header_args(headers@.take(0)));
    while i < headers.len()
        invariant
            i <= headers@.len(),
            text::texts(args@) == header_args(headers@.take(i as int)),
        decreases headers@.len() - i,
    {
        let ghost before = args@;
        let header = &headers[i];
        args.push("-H".to_string());
        args.push(text::concat3(header.0.as_str(), "=", header.1.as_str()));
        proof {
            assert(headers@.take(i + 1).drop_last() =~= headers@.take(i as int));
            assert(text::texts(args@) =~= text::texts(before).push("-H"@).push(
                header_arg(*header),
            ));
        }
        i += 1;
    }
    assert(headers@.take(headers@.len() as int) =~= headers@);
    args
}

/// Brings one server into normal form: the URL, or else the command, with the
/// headers passed on as arguments in front of its own.
pub fn normalize_sdk_server(name: String, config: FfiSdkServerConfig) -> (result: Result<
    FfiBackendConfig,
    Error,
>)
    ensures
        normalises_to(name@, config, result),
{
    match config {
        FfiSdkServerConfig::CommandOrUrl(command_or_url) => {
            let args: Vec<String> = Vec::new();
            assert(text::texts(args@) =~= Seq::<Seq<char>>::empty());
            Ok(FfiBackendConfig { name, command_or_url, args, oauth_app_name: None })
        },
        FfiSdkServerConfig::Structured { command, url, args, headers, oauth_app_name } => {
            let chosen = match url {
                Some(url) => Some(url),
                None => command,
            };
            let command_or_url = match chosen {
                Some(command_or_url) => command_or_url,
                None => {
                    return Err(
                        Error::Config(
                            text::concat3("server ", name.as_str(), " must define command or url"),
                        ),
                    );
                },
            };
            if headers.len() == 0 {
                return Ok(FfiBackendConfig { name, command_or_url, args, oauth_app_name });
            }
            let mut own_args = args;
            let mut all_args = headers_to_args(&headers);
            let ghost from_headers = all_args@;
            if !chooses_auth(&own_args) {
                all_args.push("--auth".to_string());
                all_args.push("explicit-headers".to_string());
            }
            assert(text::texts(all_args@) =~= text::texts(from_headers) + auth_args(
                text::texts(args@),
            ));
            let ghost leading = all_args@;
            all_args.append(&mut own_args);
            assert(text::texts(all_args@) =~= text::texts(leading) + text::texts(args@));
            Ok(FfiBackendConfig { name, command_or_url, args: all_args, oauth_app_name })
        },
    }
}

/// `result` is what normalising all of `servers` gives: all of them, in order, or
/// the error of the first that defines neither command nor URL.
pub open spec fn all_normalise_to(
    servers: Seq<(String, FfiSdkServerConfig)>,
    result: Result<Vec<FfiBackendConfig>, Error>,
) -> bool {
    match result {
        Ok(backends) => {
            &&& backends@.len() == servers.len()
            &&& forall|i: int|
                0 <= i < servers.len() ==> {
                    &&& target(#[trigger] servers[i].1) is Some
                    &&& backends@[i]@ == normal_form(servers[i].0@, servers[i].1)
                }
        },
        Err(error) => exists|i: int|
            {
                &&& 0 <= i < servers.len()
                &&& target(#[trigger] servers[i].1) is None
                &&& forall|k: int| 0 <= k < i ==> target(#[trigger] servers[k].1) is Some
                &&& is_undefined_server(error, servers[i].0@)
            },
    }
}

/// Brings every server into normal form; stops at the first that cannot be.
pub fn normalize_sdk_servers(servers: FfiSdkServersConfig) -> (result: Result<
    Vec<FfiBackendConfig>,
    Error,
>)
    ensures
        all_normalise_to(servers@, result),
{
    let ghost all = servers@;
    let mut backends: Vec<FfiBackendConfig> = Vec::new();
    for (name, config) in it: servers
        invariant
            it.seq() == all,
            backends@.len() == it.index(),
            forall|i: int|
                0 <= i < it.index() ==> {
                    &&& target(#[trigger] all[i].1) is Some
                    &&& backends@[i]@ == normal_form(all[i].0@, all[i].1)
                },
    {
        assert(all[it.index()] == (name, config));
        match normalize_sdk_server(name, config) {
            Ok(backend) => backends.push(backend),
            Err(error) => {
                return Err(error);
            },
        }
    }
    Ok(backends)
}

/// The arguments at `2 * i` and `2 * i + 1` pass the header at `i` on.
pub open spec fn passes_on(args: Seq<Seq<char>>, headers: Seq<(String, String)>, i: int) -> bool {
    &&& args[2 * i] == "-H"@
    &&& args[2 * i + 1] == header_arg(headers[i])
}

/// Every header is passed on, in order, as `-H` followed by `key=value`, and
/// nothing else is.
pub proof fn header_args_list_every_header(headers: Seq<(String, String)>)
    ensures
        header_args(headers).len() == 2 * headers.len(),
        forall|i: int|
            0 <= i < headers.len() ==> #[trigger] passes_on(header_args(headers), headers, i),
    decreases headers.len(),
{
    if headers.len() > 0 {
        header_args_list_every_header(headers.drop_last());
        assert forall|i: int| 0 <= i < headers.len() implies #[trigger] passes_on(
            header_args(headers),
            headers,
            i,
        ) by {
            if i < headers.len() - 1 {
                assert(passes_on(header_args(headers.drop_last()), headers.drop_last(), i));
            }
        }
    }
}

/// The caller's own arguments stay as they are, behind everything that is added;
/// without headers nothing is added.
pub proof fn own_args_are_kept(name: Seq<char>, config: FfiSdkServerConfig)
    requires
        config is Structured,
        target(config) is Some,
    ensures
        ({
            let own = text::texts(config->args@);
            let all = normal_form(name, config).args;
            &&& all.len() >= own.len()
            &&& all.subrange(all.len() - own.len(), all.len() as int) == own
            &&& config->headers@.len() == 0 ==> all == own
        }),
{
    let own = text::texts(config->args@);
    let all = normal_form(name, config).args;
    assert(all.subrange(all.len() - own.len(), all.len() as int) =~= own);
}

/// A server with headers always says how it authenticates: as it says itself, or
/// by the explicit headers.
pub proof fn headers_fix_the_auth_mode(name: Seq<char>, config: FfiSdkServerConfig)
    requires
        config is Structured,
        config->headers@.len() > 0,
        target(config) is Some,
    ensures
        normal_form(name, config).args.contains("--auth"@),
        !text::texts(config->args@).contains("--auth"@) ==> ({
            let args = normal_form(name, config).args;
            let at: int = 2 * config->headers@.len() as int;
            &&& args[at] == "--auth"@
            &&& args[at + 1] == "explicit-headers"@
        }),
{
    let own = text::texts(config->args@);
    let args = normal_form(name, config).args;
    header_args_list_every_header(config->headers@);
    if own.contains("--auth"@) {
        let k = own.index_of("--auth"@);
        assert(args[args.len() - own.len() + k] == own[k]);
    } else {
        assert(args[2 * config->headers@.len() as int] == "--auth"@);
    }
}

/// A URL goes before a command: with a URL, the command makes no difference.
pub proof fn url_goes_before_command(
    name: Seq<char>,
    url: String,
    command: Option<String>,
    args: Vec<String>,
    headers: Vec<(String, String)>,
    oauth_app_name: Option<String>,
)
    ensures
        ({
            let with = FfiSdkServerConfig::Structured {
                command,
                url: Some(url),
                args,
                headers,
                oauth_app_name,
            };
            let without = FfiSdkServerConfig::Structured {
                command: None,
                url: Some(url),
                args,
                headers,
                oauth_app_name,
            };
            &&& normal_form(name, with).command_or_url == url@
            &&& normal_form(name, with) == normal_form(name, without)
        }),
{
}

/// Some argument chooses an authentication mode.
spec fn has_auth(args: Seq<String>) -> bool {
    exists|k: int| 0 <= k < args.len() && #[trigger] args[k]@ == "--auth"@
}

/// What chooses an authentication mode among texts and among strings.
proof fn auth_is_among_the_texts(args: Seq<String>)
    ensures
        text::texts(args).contains("--auth"@) <==> has_auth(args),
{
    let views = text::texts(args);
    if views.contains("--auth"@) {
        assert(args[views.index_of("--auth"@)]@ == "--auth"@);
    }
    if has_auth(args) {
        let k = choose|k: int| 0 <= k < args.len() && #[trigger] args[k]@ == "--auth"@;
        assert(views[k] == "--auth"@);
    }
}

/// A bare text is a backend of this name with nothing behind it.
pub proof fn a_bare_text_is_the_whole_backend(
    name: Seq<char>,
    command_or_url: String,
    result: Result<FfiBackendConfig, Error>,
)
    requires
        normalises_to(name, FfiSdkServerConfig::CommandOrUrl(command_or_url), result),
    ensures
        result matches Ok(backend) && backend.name@ == name && backend.command_or_url@
            == command_or_url@ && backend.args@.len() == 0 && backend.oauth_app_name is None,
{
    let args = text::texts(result->Ok_0.args@);
    assert(args.len() == 0);
}

/// A server by parts is a backend of this name at its URL, or else at its command,
/// which keeps the name of the application; without either it is refused by its name,
/// and only then.
pub proof fn a_server_needs_a_url_or_a_command(
    name: Seq<char>,
    config: FfiSdkServerConfig,
    result: Result<FfiBackendConfig, Error>,
)
    requires
        config is Structured,
        normalises_to(name, config, result),
    ensures
        config->url matches Some(url) ==> result is Ok && result->Ok_0.command_or_url@ == url@,
        config->url is None && config->command is Some ==> result is Ok
            && result->Ok_0.command_or_url@ == config->command->0@,
        config->url is None && config->command is None ==> (result matches Err(Error::Config(
            reason,
        )) && reason@ == "server "@ + name + " must define command or url"@),
        result matches Ok(backend) ==> {
            &&& backend.name@ == name
            &&& backend.oauth_app_name is Some == config->oauth_app_name is Some
            &&& backend.oauth_app_name is Some ==> backend.oauth_app_name->0@
                == config->oauth_app_name->0@
        },
{
}

/// Every header of a server stands at the front of its arguments, in order, as `-H`
/// and `key=value`, whether or not the caller chooses how to authenticate.
pub proof fn every_header_is_an_argument(
    name: Seq<char>,
    config: FfiSdkServerConfig,
    result: Result<FfiBackendConfig, Error>,
    i: int,
)
    requires
        config is Structured,
        config->url is Some || config->command is Some,
        normalises_to(name, config, result),
        0 <= i < config->headers@.len(),
    ensures
        result is Ok,
        result->Ok_0.args@.len() >= 2 * config->headers@.len(),
        result->Ok_0.args@[2 * i]@ == "-H"@,
        result->Ok_0.args@[2 * i + 1]@ == config->headers@[i].0@ + "="@ + config->headers@[i].1@,
        normal_form(name, config).args[2 * i] == "-H"@,
        normal_form(name, config).args[2 * i + 1] == config->headers@[i].0@ + "="@
            + config->headers@[i].1@,
{
    let headers = config->headers@;
    let args = result->Ok_0.args@;
    let views = text::texts(args);
    let passed = header_args(headers);
    header_args_list_every_header(headers);
    assert(passes_on(passed, headers, i));
    assert(views == normal_form(name, config).args);
    assert(views[2 * i] == passed[2 * i]);
    assert(views[2 * i + 1] == passed[2 * i + 1]);
    assert(args[2 * i]@ == views[2 * i]);
    assert(args[2 * i + 1]@ == views[2 * i + 1]);
}

/// Behind the headers stands the choice of the explicit headers, where the caller
/// makes none, and then the caller's own arguments: nothing is lost and nothing else
/// is added.
pub proof fn nothing_else_is_an_argument(
    name: Seq<char>,
    config: FfiSdkServerConfig,
    result: Result<FfiBackendConfig, Error>,
    k: int,
)
    requires
        config is Structured,
        config->url is Some || config->command is Some,
        normalises_to(name, config, result),
    ensures
        result is Ok,
        ({
            let own = config->args@;
            let args = result->Ok_0.args@;
            let front: int = 2 * config->headers@.len() as int;
            let chosen = exists|k: int| 0 <= k < own.len() && #[trigger] own[k]@ == "--auth"@;
            let added: int = if front == 0 || chosen {
                0
            } else {
                2
            };
            &&& args.len() == front + added + own.len()
            &&& 0 <= k < own.len() ==> args[front + added + k]@ == own[k]@
            &&& added == 2 ==> args[front]@ == "--auth"@ && args[front + 1]@
                == "explicit-headers"@
        }),
{
    let own = config->args@;
    let headers = config->headers@;
    let args = result->Ok_0.args@;
    let views = text::texts(args);
    header_args_list_every_header(headers);
    auth_is_among_the_texts(own);
    assert(views == normal_form(name, config).args);
    assert(views.len() == args.len());
    let front: int = 2 * headers.len() as int;
    let added: int = if front == 0 || has_auth(own) {
        0
    } else {
        2
    };
    if 0 <= k < own.len() {
        assert(views[front + added + k] == text::texts(own)[k]);
        assert(args[front + added + k]@ == views[front + added + k]);
    }
    if added == 2 {
        assert(args[front]@ == views[front]);
        assert(args[front + 1]@ == views[front + 1]);
    }
}

/// Servers become backends one for one, in order.
pub proof fn servers_become_backends_in_order(
    servers: Seq<(String, FfiSdkServerConfig)>,
    backends: Vec<FfiBackendConfig>,
    i: int,
)
    requires
        all_normalise_to(servers, Ok(backends)),
        0 <= i < servers.len(),
    ensures
        backends@.len() == servers.len(),
        normalises_to(servers[i].0@, servers[i].1, Ok(backends@[i])),
{
    assert(target(servers[i].1) is Some);
}

/// Servers are refused exactly where one of them has neither URL nor command, and for
/// the first such server.
pub proof fn the_first_server_without_a_target_is_refused(
    servers: Seq<(String, FfiSdkServerConfig)>,
    result: Result<Vec<FfiBackendConfig>, Error>,
    i: int,
)
    requires
        all_normalise_to(servers, result),
        0 <= i <= servers.len(),
        forall|k: int|
            0 <= k < i ==> ((#[trigger] servers[k].1) is CommandOrUrl || servers[k].1->url is Some
                || servers[k].1->command is Some),
        i < servers.len() ==> servers[i].1 is Structured && servers[i].1->url is None
            && servers[i].1->command is None,
    ensures
        i == servers.len() ==> result is Ok,
        i < servers.len() ==> (result matches Err(Error::Config(reason)) && reason@ == "server "@
            + servers[i].0@ + " must define command or url"@),
{
    if i < servers.len() {
        assert(target(servers[i].1) is None);
        assert forall|k: int| 0 <= k < i implies target(#[trigger] servers[k].1) is Some by {}
    } else {
        assert forall|k: int| 0 <= k < servers.len() implies target(#[trigger] servers[k].1)
            is Some by {}
    }
}

} // verus!
