//! Connecting a remote backend with an OAuth login.
//!
//! The login is a sequence of phases. In each phase the outside world does one
//! thing, and what it answers decides the next phase.

use reqwest::Client;
use vstd::prelude::*;

use crate::backend::BackendServerConfig;
use crate::error::Error;
use crate::http_backend;
use crate::http_backend::Header;
use crate::text;

verus! {

/// The application name under which a login registers when none is configured.
pub const DEFAULT_APP_NAME: &'static str = "mcp-compressor";

/// The file below a backend's store that holds its credentials.
pub const CREDENTIALS_FILE: &'static str = "credentials.json";

/// The directory below a backend's store that holds the state of its logins.
pub const STATE_DIR: &'static str = "state";

/// The backend that is logged in to.
#[derive(Debug)]
pub struct OauthBackend {
    /// The URL of the backend.
    pub uri: String,
    /// The name of the backend.
    pub name: String,
    /// The configured application name.
    pub app_name: Option<String>,
}

/// What is to be done next.
#[derive(Debug)]
pub enum OauthPhase {
    /// Create the authorization manager for the URL.
    CreatingManager,
    /// Note where the credentials of this backend are stored.
    RememberingStore,
    /// Load stored credentials.
    LoadingCredentials,
    /// Listen for the callback of the login.
    BindingListener,
    /// Create the state of a login.
    CreatingState {
        /// Where the login redirects to.
        redirect_uri: String,
    },
    /// Start the login, without scopes.
    StartingAuthorization {
        /// Whether the credential and state stores are set on the login first.
        install_stores: bool,
        /// Where the login redirects to.
        redirect_uri: String,
    },
    /// Ask for the URL at which a human authorizes the application.
    GettingUrl,
    /// Open that URL in a browser.
    OpeningBrowser {
        /// The URL.
        auth_url: String,
    },
    /// Wait for the callback.
    AwaitingCallback,
    /// Hand the callback to the login.
    CompletingLogin {
        /// The authorization code.
        code: String,
        /// The state that came back with it.
        state: String,
    },
    /// Take the authorized manager out of the login.
    TakingManager,
    /// Connect the client with the credentials.
    Serving,
}

/// Why no callback came.
#[derive(Debug)]
pub enum CallbackFailure {
    /// The task that waits for it failed.
    Task(String),
    /// Reading it failed.
    Io(std::io::Error),
}

/// The callback of a login.
#[derive(Debug)]
pub struct OauthCallback {
    /// The authorization code.
    pub code: String,
    /// The state that came back with it.
    pub state: String,
}

/// What became of opening a browser.
#[derive(Debug)]
pub enum BrowserAnswer {
    /// It is open.
    Opened,
    /// It is not to be opened.
    Disabled,
    /// It did not open, for this reason.
    Failed(String),
}

/// What the outside world answers. `S` is a connected client.
#[derive(Debug)]
pub enum OauthEvent<S> {
    /// The authorization manager exists.
    Manager(Result<(), String>),
    /// The store is noted.
    StoreRemembered(Result<(), std::io::Error>),
    /// Credentials were looked for; the flag says whether there are any.
    CredentialsLoaded(Result<bool, String>),
    /// The listener is bound; the text is where it is reached.
    ListenerBound(Result<String, std::io::Error>),
    /// The login has a state; the flag says whether it is still unauthorized.
    StateCreated(Result<bool, String>),
    /// The login is started.
    AuthorizationStarted(Result<(), String>),
    /// The URL at which a human authorizes the application.
    UrlKnown(Result<String, String>),
    /// The browser was asked to open.
    BrowserAsked(BrowserAnswer),
    /// The callback came.
    CallbackReceived(Result<OauthCallback, CallbackFailure>),
    /// The login is complete.
    LoginCompleted(Result<(), String>),
    /// The login was asked for its manager; the flag says whether it is authorized.
    ManagerTaken(bool),
    /// The client was connected.
    Served(Result<S, String>),
}

/// What follows from an answer.
#[derive(Debug)]
pub enum OauthStep<S> {
    /// The login goes on with this phase.
    Continue(OauthPhase),
    /// The backend is connected.
    Connected(S),
    /// The backend is given up.
    Failed(Error),
}

/// `event` answers what `phase` asks for.
pub open spec fn answers<S>(phase: OauthPhase, event: OauthEvent<S>) -> bool {
    match phase {
        OauthPhase::CreatingManager => event is Manager,
        OauthPhase::RememberingStore => event is StoreRemembered,
        OauthPhase::LoadingCredentials => event is CredentialsLoaded,
        OauthPhase::BindingListener => event is ListenerBound,
        OauthPhase::CreatingState { .. } => event is StateCreated,
        OauthPhase::StartingAuthorization { .. } => event is AuthorizationStarted,
        OauthPhase::GettingUrl => event is UrlKnown,
        OauthPhase::OpeningBrowser { .. } => event is BrowserAsked,
        OauthPhase::AwaitingCallback => event is CallbackReceived,
        OauthPhase::CompletingLogin { .. } => event is LoginCompleted,
        OauthPhase::TakingManager => event is ManagerTaken,
        OauthPhase::Serving => event is Served,
    }
}

/// `step` gives the backend up with a configuration error of this text.
pub open spec fn gives_up<S>(step: OauthStep<S>, reason: Seq<char>) -> bool {
    step matches OauthStep::Failed(Error::Config(own)) && own@ == reason
}

/// `step` is what follows when `event` answers `phase`.
pub open spec fn advances<S>(
    backend: OauthBackend,
    phase: OauthPhase,
    event: OauthEvent<S>,
    step: OauthStep<S>,
) -> bool {
    match event {
        OauthEvent::Manager(Ok(_)) => step == OauthStep::<S>::Continue(
            OauthPhase::RememberingStore,
        ),
        OauthEvent::Manager(Err(reason)) => gives_up(
            step,
            "failed to initialize OAuth manager: "@ + reason@,
        ),
        OauthEvent::StoreRemembered(Ok(_)) => step == OauthStep::<S>::Continue(
            OauthPhase::LoadingCredentials,
        ),
        OauthEvent::StoreRemembered(Err(error)) => step == OauthStep::<S>::Failed(Error::Io(error)),
        OauthEvent::CredentialsLoaded(Ok(found)) => step == OauthStep::<S>::Continue(
            if found {
                OauthPhase::Serving
            } else {
                OauthPhase::BindingListener
            },
        ),
        OauthEvent::CredentialsLoaded(Err(reason)) => gives_up(
            step,
            "failed to load OAuth credentials: "@ + reason@,
        ),
        OauthEvent::ListenerBound(Ok(redirect_uri)) => step == OauthStep::<S>::Continue(
            OauthPhase::CreatingState { redirect_uri },
        ),
        OauthEvent::ListenerBound(Err(error)) => step == OauthStep::<S>::Failed(Error::Io(error)),
        OauthEvent::StateCreated(Ok(unauthorized)) => step == OauthStep::<S>::Continue(
            OauthPhase::StartingAuthorization {
                install_stores: unauthorized,
                redirect_uri: phase->CreatingState_redirect_uri,
            },
        ),
        OauthEvent::StateCreated(Err(reason)) => gives_up(
            step,
            "failed to initialize OAuth state: "@ + reason@,
        ),
        OauthEvent::AuthorizationStarted(Ok(_)) => step == OauthStep::<S>::Continue(
            OauthPhase::GettingUrl,
        ),
        OauthEvent::AuthorizationStarted(Err(reason)) => gives_up(
            step,
            "failed to start OAuth authorization: "@ + reason@,
        ),
        OauthEvent::UrlKnown(Ok(auth_url)) => step == OauthStep::<S>::Continue(
            OauthPhase::OpeningBrowser { auth_url },
        ),
        OauthEvent::UrlKnown(Err(reason)) => gives_up(
            step,
            "failed to get OAuth authorization URL: "@ + reason@,
        ),
        OauthEvent::BrowserAsked(_) => step == OauthStep::<S>::Continue(
            OauthPhase::AwaitingCallback,
        ),
        OauthEvent::CallbackReceived(Ok(callback)) => step == OauthStep::<S>::Continue(
            OauthPhase::CompletingLogin { code: callback.code, state: callback.state },
        ),
        OauthEvent::CallbackReceived(Err(CallbackFailure::Task(reason))) => gives_up(
            step,
            "OAuth callback task failed: "@ + reason@,
        ),
        OauthEvent::CallbackReceived(Err(CallbackFailure::Io(error))) => step == OauthStep::<
            S,
        >::Failed(Error::Io(error)),
        OauthEvent::LoginCompleted(Ok(_)) => step == OauthStep::<S>::Continue(
            OauthPhase::TakingManager,
        ),
        OauthEvent::LoginCompleted(Err(reason)) => gives_up(
            step,
            "failed to complete OAuth authorization: "@ + reason@,
        ),
        OauthEvent::ManagerTaken(authorized) => if authorized {
            step == OauthStep::<S>::Continue(OauthPhase::Serving)
        } else {
            gives_up(step, "OAuth authorization did not produce an authorized manager"@)
        },
        OauthEvent::Served(Ok(client)) => step == OauthStep::Connected(client),
        OauthEvent::Served(Err(reason)) => step matches OauthStep::Failed(error)
            && http_backend::is_remote_error(error, backend.uri@, reason@),
    }
}

/// `message` is what is said after a browser was asked to open for `name`.
pub open spec fn tells_of_browser(
    name: Seq<char>,
    answer: BrowserAnswer,
    message: Seq<char>,
) -> bool {
    message == match answer {
        BrowserAnswer::Opened => "Opened browser to authorize "@ + name + "."@,
        BrowserAnswer::Disabled => "Browser opening disabled for "@ + name + "."@,
        BrowserAnswer::Failed(reason) => "Failed to open browser for "@ + name + ": "@ + reason@,
    }
}

/// Gives the backend up with a configuration error.
fn fail<S>(what: &str, reason: &str) -> (step: OauthStep<S>)
    ensures
        gives_up(step, what@ + reason@),
{
    OauthStep::Failed(Error::Config(text::concat(what, reason)))
}

/// A login that begins.
#[derive(Debug)]
pub struct OauthLogin {
    /// The backend that is logged in to.
    pub backend: OauthBackend,
    /// The client that the login will authorize.
    pub client: Client,
    /// What is to be done first.
    pub phase: OauthPhase,
}

/// `login` is how a login to `config` begins.
pub open spec fn begins<D>(config: BackendServerConfig<D>, login: OauthLogin) -> bool {
    &&& login.backend.uri == config.command
    &&& login.backend.name == config.name
    &&& login.backend.app_name == config.oauth_app_name
    &&& login.phase == OauthPhase::CreatingManager
}

/// `login` is what follows from building the client of a login.
pub open spec fn follows_build<D>(
    config: BackendServerConfig<D>,
    client: Result<Client, Error>,
    login: Result<OauthLogin, Error>,
) -> bool {
    match client {
        Ok(client) => login matches Ok(login) && begins(config, login) && login.client == client,
        Err(error) => login == Err::<OauthLogin, Error>(error),
    }
}

/// What follows from building the client of a login: with a client the login
/// begins.
pub fn begin_login<D>(config: &BackendServerConfig<D>, client: Result<Client, Error>) -> (login:
    Result<OauthLogin, Error>)
    ensures
        follows_build(*config, client, login),
{
    let client = match client {
        Ok(client) => client,
        Err(error) => {
            return Err(error);
        },
    };
    let app_name = match &config.oauth_app_name {
        Some(app_name) => Some(app_name.clone()),
        None => None,
    };
    let backend = OauthBackend {
        uri: config.command.clone(),
        name: config.name.clone(),
        app_name,
    };
    Ok(OauthLogin { backend, client, phase: OauthPhase::CreatingManager })
}

/// Begins a login: its client is built with the configured headers, which are
/// checked before the authorization server is asked for anything. There is no login
/// where no header map can hold them.
pub fn connect_oauth_streamable_http_backend<D>(
    config: &BackendServerConfig<D>,
    headers: Result<Vec<Header>, Error>,
) -> (login: Option<Result<OauthLogin, Error>>)
    ensures
        match headers {
            Ok(headers) => exists|client: Option<Result<Client, Error>>|
                {
                    &&& #[trigger] http_backend::is_built_with(*config, headers@, client)
                    &&& match client {
                        Some(client) => login is Some && follows_build(*config, client, login->0),
                        None => login is None,
                    }
                },
            Err(error) => login == Some(Err::<OauthLogin, Error>(error)),
        },
{
    let ghost list = headers->Ok_0@;
    let ghost valid = headers is Ok;
    let client = http_backend::oauth_http_client(config, headers);
    assert(valid ==> http_backend::is_built_with(*config, list, client));
    match client {
        Some(client) => Some(begin_login(config, client)),
        None => None,
    }
}

impl OauthBackend {
    /// The application name under which the login registers.
    pub fn registered_name(&self) -> (name: &str)
        ensures
            name@ == match self.app_name {
                Some(app_name) => app_name@,
                None => DEFAULT_APP_NAME@,
            },
    {
        match &self.app_name {
            Some(app_name) => app_name.as_str(),
            None => DEFAULT_APP_NAME,
        }
    }

    /// Decides what follows when `event` answers `phase`.
    pub fn advance<S>(&self, phase: OauthPhase, event: OauthEvent<S>) -> (step: OauthStep<S>)
        requires
            answers(phase, event),
        ensures
            advances(*self, phase, event, step),
    {
        match event {
            OauthEvent::Manager(Ok(_)) => OauthStep::Continue(OauthPhase::RememberingStore),
            OauthEvent::Manager(Err(reason)) => fail(
                "failed to initialize OAuth manager: ",
                reason.as_str(),
            ),
            OauthEvent::StoreRemembered(Ok(_)) => OauthStep::Continue(
                OauthPhase::LoadingCredentials,
            ),
            OauthEvent::StoreRemembered(Err(error)) => OauthStep::Failed(Error::Io(error)),
            OauthEvent::CredentialsLoaded(Ok(found)) => if found {
                OauthStep::Continue(OauthPhase::Serving)
            } else {
                OauthStep::Continue(OauthPhase::BindingListener)
            },
            OauthEvent::CredentialsLoaded(Err(reason)) => fail(
                "failed to load OAuth credentials: ",
                reason.as_str(),
            ),
            OauthEvent::ListenerBound(Ok(redirect_uri)) => OauthStep::Continue(
                OauthPhase::CreatingState { redirect_uri },
            ),
            OauthEvent::ListenerBound(Err(error)) => OauthStep::Failed(Error::Io(error)),
            OauthEvent::StateCreated(Ok(unauthorized)) => match phase {
                OauthPhase::CreatingState { redirect_uri } => OauthStep::Continue(
                    OauthPhase::StartingAuthorization {
                        install_stores: unauthorized,
                        redirect_uri,
                    },
                ),
                _ => vstd::pervasive::unreached(),
            },
            OauthEvent::StateCreated(Err(reason)) => fail(
                "failed to initialize OAuth state: ",
                reason.as_str(),
            ),
            OauthEvent::AuthorizationStarted(Ok(_)) => OauthStep::Continue(OauthPhase::GettingUrl),
            OauthEvent::AuthorizationStarted(Err(reason)) => fail(
                "failed to start OAuth authorization: ",
                reason.as_str(),
            ),
            OauthEvent::UrlKnown(Ok(auth_url)) => OauthStep::Continue(
                OauthPhase::OpeningBrowser { auth_url },
            ),
            OauthEvent::UrlKnown(Err(reason)) => fail(
                "failed to get OAuth authorization URL: ",
                reason.as_str(),
            ),
            OauthEvent::BrowserAsked(_) => OauthStep::Continue(OauthPhase::AwaitingCallback),
            OauthEvent::CallbackReceived(Ok(callback)) => OauthStep::Continue(
                OauthPhase::CompletingLogin { code: callback.code, state: callback.state },
            ),
            OauthEvent::CallbackReceived(Err(CallbackFailure::Task(reason))) => fail(
                "OAuth callback task failed: ",
                reason.as_str(),
            ),
            OauthEvent::CallbackReceived(Err(CallbackFailure::Io(error))) => OauthStep::Failed(
                Error::Io(error),
            ),
            OauthEvent::LoginCompleted(Ok(_)) => OauthStep::Continue(OauthPhase::TakingManager),
            OauthEvent::LoginCompleted(Err(reason)) => fail(
                "failed to complete OAuth authorization: ",
                reason.as_str(),
            ),
            OauthEvent::ManagerTaken(authorized) => if authorized {
                OauthStep::Continue(OauthPhase::Serving)
            } else {
                OauthStep::Failed(
                    Error::Config(
                        "OAuth authorization did not produce an authorized manager".to_string(),
                    ),
                )
            },
            OauthEvent::Served(Ok(client)) => OauthStep::Connected(client),
            OauthEvent::Served(Err(reason)) => OauthStep::Failed(
                http_backend::remote_backend_error(self.uri.as_str(), reason),
            ),
        }
    }

    /// What is said after the browser was asked to open.
    pub fn browser_message(&self, answer: &BrowserAnswer) -> (message: String)
        ensures
            tells_of_browser(self.name@, *answer, message@),
    {
        match answer {
            BrowserAnswer::Opened => text::concat3(
                "Opened browser to authorize ",
                self.name.as_str(),
                ".",
            ),
            BrowserAnswer::Disabled => text::concat3(
                "Browser opening disabled for ",
                self.name.as_str(),
                ".",
            ),
            BrowserAnswer::Failed(reason) => {
                let mut message = text::concat3(
                    "Failed to open browser for ",
                    self.name.as_str(),
                    ": ",
                );
                message.append(reason.as_str());
                message
            },
        }
    }

    /// What is said, whether or not the browser opened, so that a human can go on.
    pub fn manual_message(&self, auth_url: &str) -> (message: String)
        ensures
            message@ == "If the browser did not open, authorize "@ + self.name@
                + " with this URL:\n"@ + auth_url@,
    {
        let mut message = text::concat3(
            "If the browser did not open, authorize ",
            self.name.as_str(),
            " with this URL:\n",
        );
        message.append(auth_url);
        message
    }
}

/// How far a login has come.
pub open spec fn rank(phase: OauthPhase) -> nat {
    match phase {
        OauthPhase::CreatingManager => 0,
        OauthPhase::RememberingStore => 1,
        OauthPhase::LoadingCredentials => 2,
        OauthPhase::BindingListener => 3,
        OauthPhase::CreatingState { .. } => 4,
        OauthPhase::StartingAuthorization { .. } => 5,
        OauthPhase::GettingUrl => 6,
        OauthPhase::OpeningBrowser { .. } => 7,
        OauthPhase::AwaitingCallback => 8,
        OauthPhase::CompletingLogin { .. } => 9,
        OauthPhase::TakingManager => 10,
        OauthPhase::Serving => 11,
    }
}

/// A login never goes back: each answer ends it or takes it further, so it ends
/// after a bounded number of answers.
pub proof fn logins_move_forward<S>(
    backend: OauthBackend,
    phase: OauthPhase,
    event: OauthEvent<S>,
    next: OauthPhase,
)
    requires
        answers(phase, event),
        advances(backend, phase, event, OauthStep::Continue(next)),
    ensures
        rank(phase) < rank(next) <= 11,
{
}

/// `events` answer the phases of a login one after the other, from its first phase
/// on, without ending it.
pub open spec fn is_run<S>(
    backend: OauthBackend,
    phases: Seq<OauthPhase>,
    events: Seq<OauthEvent<S>>,
) -> bool {
    &&& phases.len() == events.len() + 1
    &&& phases[0] == OauthPhase::CreatingManager
    &&& forall|i: int|
        0 <= i < events.len() ==> {
            &&& answers(phases[i], #[trigger] events[i])
            &&& advances(backend, phases[i], events[i], OauthStep::Continue(phases[i + 1]))
        }
}

/// Later phases of a run are further on, by one at least for each answer.
proof fn runs_move_forward<S>(
    backend: OauthBackend,
    phases: Seq<OauthPhase>,
    events: Seq<OauthEvent<S>>,
    i: int,
    j: int,
)
    requires
        is_run(backend, phases, events),
        0 <= i <= j < phases.len(),
    ensures
        rank(phases[i]) + (j - i) <= rank(phases[j]) <= 11,
    decreases j - i,
{
    if i < j {
        runs_move_forward(backend, phases, events, i, j - 1);
        assert(answers(phases[j - 1], events[j - 1]));
        logins_move_forward(backend, phases[j - 1], events[j - 1], phases[j]);
    }
}

/// A login ends: it goes through each phase at most once.
pub proof fn logins_end<S>(
    backend: OauthBackend,
    phases: Seq<OauthPhase>,
    events: Seq<OauthEvent<S>>,
)
    requires
        is_run(backend, phases, events),
    ensures
        phases.len() <= 12,
        forall|i: int, j: int| 0 <= i < j < phases.len() ==> rank(phases[i]) < rank(phases[j]),
{
    runs_move_forward(backend, phases, events, 0, phases.len() - 1);
    assert forall|i: int, j: int| 0 <= i < j < phases.len() implies rank(phases[i]) < rank(
        phases[j],
    ) by {
        runs_move_forward(backend, phases, events, i, j);
    }
}

/// A client is connected only with credentials: stored ones, or those of a login
/// whose callback was accepted.
pub proof fn serving_needs_credentials<S>(
    backend: OauthBackend,
    phases: Seq<OauthPhase>,
    events: Seq<OauthEvent<S>>,
)
    requires
        is_run(backend, phases, events),
        phases.last() is Serving,
    ensures
        events.contains(OauthEvent::CredentialsLoaded(Ok(true))) || (events.contains(
            OauthEvent::ManagerTaken(true),
        ) && exists|i: int|
            0 <= i < events.len() && (#[trigger] events[i] matches OauthEvent::LoginCompleted(
                Ok(_),
            ))),
{
    let n: int = events.len() as int;
    assert(n > 0);
    assert(answers(phases[n - 1], events[n - 1]));
    if events[n - 1] != OauthEvent::<S>::CredentialsLoaded(Ok(true)) {
        assert(events[n - 1] == OauthEvent::<S>::ManagerTaken(true));
        assert(phases[n - 1] is TakingManager);
        assert(n > 1);
        assert(answers(phases[n - 2], events[n - 2]));
        assert(events[n - 2] matches OauthEvent::LoginCompleted(Ok(_)));
    }
}

/// With stored credentials nobody is asked to log in: nothing is listened for, no
/// authorization is started and no browser is opened.
pub proof fn stored_credentials_skip_the_login<S>(
    backend: OauthBackend,
    phases: Seq<OauthPhase>,
    events: Seq<OauthEvent<S>>,
    at: int,
    i: int,
)
    requires
        is_run(backend, phases, events),
        0 <= at < events.len(),
        events[at] == OauthEvent::<S>::CredentialsLoaded(Ok(true)),
        0 <= i < phases.len(),
    ensures
        phases[i] is CreatingManager || phases[i] is RememberingStore
            || phases[i] is LoadingCredentials || phases[i] is Serving,
{
    assert(answers(phases[at], events[at]));
    assert(phases[at + 1] is Serving);
    if i <= at {
        runs_move_forward(backend, phases, events, i, at);
    } else {
        runs_move_forward(backend, phases, events, at + 1, i);
    }
}

/// Whether a browser opens makes no difference to the login: it waits for the
/// callback all the same.
pub proof fn a_closed_browser_does_not_end_a_login<S>(
    backend: OauthBackend,
    phase: OauthPhase,
    answer: BrowserAnswer,
    step: OauthStep<S>,
)
    requires
        advances(backend, phase, OauthEvent::BrowserAsked(answer), step),
    ensures
        step == OauthStep::<S>::Continue(OauthPhase::AwaitingCallback),
{
}

/// A step that fails ends the login and says which step it was and why: in words of
/// the login, with the input or output error itself, or as a remote backend that could
/// not be initialised.
pub proof fn failed_steps_end_the_login_with_their_reason<S>(
    backend: OauthBackend,
    phase: OauthPhase,
    event: OauthEvent<S>,
    step: OauthStep<S>,
)
    requires
        answers(phase, event),
        advances(backend, phase, event, step),
    ensures
        event matches OauthEvent::Manager(Err(reason)) ==> (step matches OauthStep::Failed(
            Error::Config(own),
        ) && own@ == "failed to initialize OAuth manager: "@ + reason@),
        event matches OauthEvent::CredentialsLoaded(Err(reason)) ==> (step
            matches OauthStep::Failed(
            Error::Config(own),
        ) && own@ == "failed to load OAuth credentials: "@ + reason@),
        event matches OauthEvent::StateCreated(Err(reason)) ==> (step matches OauthStep::Failed(
            Error::Config(own),
        ) && own@ == "failed to initialize OAuth state: "@ + reason@),
        event matches OauthEvent::AuthorizationStarted(Err(reason)) ==> (step
            matches OauthStep::Failed(
            Error::Config(own),
        ) && own@ == "failed to start OAuth authorization: "@ + reason@),
        event matches OauthEvent::UrlKnown(Err(reason)) ==> (step matches OauthStep::Failed(
            Error::Config(own),
        ) && own@ == "failed to get OAuth authorization URL: "@ + reason@),
        event matches OauthEvent::LoginCompleted(Err(reason)) ==> (step matches OauthStep::Failed(
            Error::Config(own),
        ) && own@ == "failed to complete OAuth authorization: "@ + reason@),
        event matches OauthEvent::CallbackReceived(Err(CallbackFailure::Task(reason))) ==> (step
            matches OauthStep::Failed(Error::Config(own)) && own@ == "OAuth callback task failed: "@
            + reason@),
        event == OauthEvent::<S>::ManagerTaken(false) ==> (step matches OauthStep::Failed(
            Error::Config(own),
        ) && own@ == "OAuth authorization did not produce an authorized manager"@),
        event matches OauthEvent::StoreRemembered(Err(error)) ==> step == OauthStep::<S>::Failed(
            Error::Io(error),
        ),
        event matches OauthEvent::ListenerBound(Err(error)) ==> step == OauthStep::<S>::Failed(
            Error::Io(error),
        ),
        event matches OauthEvent::CallbackReceived(Err(CallbackFailure::Io(error))) ==> step
            == OauthStep::<S>::Failed(Error::Io(error)),
        event matches OauthEvent::Served(Err(reason)) ==> step is Failed
            && http_backend::is_remote_error(step->Failed_0, backend.uri@, reason@),
{
}

/// A step that succeeds leads to the next: first the manager, the store and the stored
/// credentials, and without these the listener, the login and its callback. What a
/// step gave goes along unchanged.
pub proof fn successful_steps_lead_to_the_next<S>(
    backend: OauthBackend,
    phase: OauthPhase,
    event: OauthEvent<S>,
    step: OauthStep<S>,
)
    requires
        answers(phase, event),
        advances(backend, phase, event, step),
    ensures
        event matches OauthEvent::Manager(Ok(_)) ==> step == OauthStep::<S>::Continue(
            OauthPhase::RememberingStore,
        ),
        event matches OauthEvent::StoreRemembered(Ok(_)) ==> step == OauthStep::<S>::Continue(
            OauthPhase::LoadingCredentials,
        ),
        event == OauthEvent::<S>::CredentialsLoaded(Ok(true)) ==> step == OauthStep::<S>::Continue(
            OauthPhase::Serving,
        ),
        event == OauthEvent::<S>::CredentialsLoaded(Ok(false)) ==> step == OauthStep::<
            S,
        >::Continue(OauthPhase::BindingListener),
        event matches OauthEvent::ListenerBound(Ok(uri)) ==> step == OauthStep::<S>::Continue(
            OauthPhase::CreatingState { redirect_uri: uri },
        ),
        event matches OauthEvent::StateCreated(Ok(unauthorized)) ==> (step matches
            OauthStep::Continue(OauthPhase::StartingAuthorization { install_stores, redirect_uri })
            && install_stores == unauthorized && phase == (OauthPhase::CreatingState {
            redirect_uri,
        })),
        event matches OauthEvent::AuthorizationStarted(Ok(_)) ==> step == OauthStep::<S>::Continue(
            OauthPhase::GettingUrl,
        ),
        event matches OauthEvent::UrlKnown(Ok(url)) ==> step == OauthStep::<S>::Continue(
            OauthPhase::OpeningBrowser { auth_url: url },
        ),
        event is BrowserAsked ==> step == OauthStep::<S>::Continue(OauthPhase::AwaitingCallback),
        event matches OauthEvent::CallbackReceived(Ok(callback)) ==> step == OauthStep::<
            S,
        >::Continue(
            OauthPhase::CompletingLogin { code: callback.code, state: callback.state },
        ),
        event matches OauthEvent::LoginCompleted(Ok(_)) ==> step == OauthStep::<S>::Continue(
            OauthPhase::TakingManager,
        ),
        event == OauthEvent::<S>::ManagerTaken(true) ==> step == OauthStep::<S>::Continue(
            OauthPhase::Serving,
        ),
        event matches OauthEvent::Served(Ok(client)) ==> step == OauthStep::Connected(client),
{
}

/// Each phase asks for one thing and takes every answer to it, and no other.
pub proof fn each_phase_takes_its_own_answer<S>(phase: OauthPhase, event: OauthEvent<S>)
    ensures
        phase is CreatingManager ==> (answers(phase, event) <==> event is Manager),
        phase is RememberingStore ==> (answers(phase, event) <==> event is StoreRemembered),
        phase is LoadingCredentials ==> (answers(phase, event) <==> event is CredentialsLoaded),
        phase is BindingListener ==> (answers(phase, event) <==> event is ListenerBound),
        phase is CreatingState ==> (answers(phase, event) <==> event is StateCreated),
        phase is StartingAuthorization ==> (answers(phase, event) <==> event
            is AuthorizationStarted),
        phase is GettingUrl ==> (answers(phase, event) <==> event is UrlKnown),
        phase is OpeningBrowser ==> (answers(phase, event) <==> event is BrowserAsked),
        phase is AwaitingCallback ==> (answers(phase, event) <==> event is CallbackReceived),
        phase is CompletingLogin ==> (answers(phase, event) <==> event is LoginCompleted),
        phase is TakingManager ==> (answers(phase, event) <==> event is ManagerTaken),
        phase is Serving ==> (answers(phase, event) <==> event is Served),
{
}

/// A login begins with the backend's own URL, name and application name, with the
/// client that was built, and with the manager as the first thing to be done; without
/// a client it does not begin, for the reason that there is none.
pub proof fn logins_begin_as_configured<D>(
    config: BackendServerConfig<D>,
    client: Result<Client, Error>,
    login: Result<OauthLogin, Error>,
)
    requires
        follows_build(config, client, login),
    ensures
        client is Err ==> login is Err && login->Err_0 == client->Err_0,
        client is Ok ==> login is Ok && login->Ok_0.client == client->Ok_0
            && login->Ok_0.backend.uri == config.command && login->Ok_0.backend.name == config.name
            && login->Ok_0.backend.app_name == config.oauth_app_name && login->Ok_0.phase
            is CreatingManager,
{
}

/// Where a login keeps what it stores, and under which name it registers by default.
pub proof fn logins_keep_to_these_names()
    ensures
        DEFAULT_APP_NAME@ == "mcp-compressor"@,
        CREDENTIALS_FILE@ == "credentials.json"@,
        STATE_DIR@ == "state"@,
{
}

/// What is said of the browser names the backend, and the reason where it did not
/// open.
pub proof fn messages_name_the_backend(
    name: Seq<char>,
    reason: String,
    opened: Seq<char>,
    disabled: Seq<char>,
    failed: Seq<char>,
)
    requires
        tells_of_browser(name, BrowserAnswer::Opened, opened),
        tells_of_browser(name, BrowserAnswer::Disabled, disabled),
        tells_of_browser(name, BrowserAnswer::Failed(reason), failed),
    ensures
        opened == "Opened browser to authorize "@ + name + "."@,
        disabled == "Browser opening disabled for "@ + name + "."@,
        failed == "Failed to open browser for "@ + name + ": "@ + reason@,
{
}

} // verus!
