//! Backend servers and the operations asked of them.

use vstd::prelude::*;

use crate::error::Error;
use crate::text;
use crate::timeout::Timeout;

verus! {

/// How a backend is reached.
#[derive(Clone, Copy, Debug, PartialEq, Eq, Structural)]
pub enum BackendTransport {
    /// A child process, over its standard input and output.
    Stdio,
    /// A URL, over streamable HTTP.
    StreamableHttp,
}

/// What is known of a backend before it is connected. `D` is a directory.
#[derive(Debug)]
pub struct BackendServerConfig<D> {
    /// The backend's name.
    pub name: String,
    /// The command to run or the URL to connect to.
    pub command: String,
    /// The arguments of the command.
    pub args: Vec<String>,
    /// The directory in which the command runs.
    pub cwd: Option<D>,
    /// Environment variables that are set for the command.
    pub env: Vec<(String, String)>,
    /// How the backend is reached.
    pub transport: BackendTransport,
    /// How long each operation may take.
    pub timeout: Option<Timeout>,
    /// Whether the backend is reached with an OAuth login.
    pub use_oauth: bool,
    /// Whether headers are asked for anew at each request.
    pub has_header_provider: bool,
    /// The name under which an OAuth login registers the application.
    pub oauth_app_name: Option<String>,
}

/// How an operation that may be bounded in time ended.
#[derive(Debug)]
pub enum Completion<T> {
    /// The operation came to its own end.
    Finished(Result<T, Error>),
    /// The time ran out first.
    Elapsed,
}

/// Only an operation with a deadline can run out of time.
pub open spec fn can_end<T>(deadline: Option<Timeout>, completion: Completion<T>) -> bool {
    completion is Elapsed ==> deadline is Some
}

/// `error` says that `backend` took longer than `timeout` for `operation`.
pub open spec fn is_timeout_error(
    error: Error,
    backend: Seq<char>,
    operation: Seq<char>,
    timeout: Timeout,
) -> bool {
    error matches Error::BackendTimeout { backend: b, operation: o, timeout: t } && b@ == backend
        && o@ == operation && t == timeout
}

/// `result` is what an operation that ended so gives.
pub open spec fn settles<T>(
    deadline: Option<Timeout>,
    backend: Seq<char>,
    operation: Seq<char>,
    completion: Completion<T>,
    result: Result<T, Error>,
) -> bool {
    match completion {
        Completion::Finished(own) => result == own,
        Completion::Elapsed => result is Err && is_timeout_error(
            result->Err_0,
            backend,
            operation,
            deadline->0,
        ),
    }
}

/// The error of a backend that took longer than `timeout` for `operation`.
pub fn timeout_error(backend: &str, operation: &str, timeout: Timeout) -> (error: Error)
    ensures
        is_timeout_error(error, backend@, operation@, timeout),
{
    Error::BackendTimeout {
        backend: backend.to_string(),
        operation: operation.to_string(),
        timeout,
    }
}

/// The error of a backend that answers an operation with an error of its own.
pub fn service_error(reason: String) -> (error: Error)
    ensures
        error == Error::Config(reason),
{
    Error::Config(reason)
}

/// What an operation under a deadline gives: its own result, or a timeout error
/// where the time ran out first.
pub fn backend_operation<T>(
    deadline: Option<Timeout>,
    backend: &str,
    operation: &str,
    completion: Completion<T>,
) -> (result: Result<T, Error>)
    requires
        can_end(deadline, completion),
    ensures
        settles(deadline, backend@, operation@, completion, result),
{
    match completion {
        Completion::Finished(result) => result,
        Completion::Elapsed => match deadline {
            Some(timeout) => Err(timeout_error(backend, operation, timeout)),
            None => vstd::pervasive::unreached(),
        },
    }
}

/// What a child process is given: its command line, its directory, variables on
/// top of the inherited environment, and its streams. It leads a process group of
/// its own.
#[derive(Debug)]
pub struct StdioCommand<'a, D> {
    /// The program.
    pub program: &'a str,
    /// Its arguments.
    pub args: &'a Vec<String>,
    /// Its directory; the current one if none is given.
    pub cwd: Option<&'a D>,
    /// Variables that are set for it.
    pub env: &'a Vec<(String, String)>,
    /// Where its standard input comes from.
    pub stdin: Stream,
    /// Where its standard output goes.
    pub stdout: Stream,
    /// Where its standard error goes.
    pub stderr: Stream,
}

/// What a standard stream of a child process is connected to.
#[derive(Clone, Copy, Debug, PartialEq, Eq, Structural)]
pub enum Stream {
    /// A pipe to this process.
    Piped,
    /// The same stream of this process.
    Inherited,
}

/// `command` is the child process of `backend`.
pub open spec fn runs<'a, D>(
    backend: BackendServerConfig<D>,
    command: StdioCommand<'a, D>,
) -> bool {
    &&& command.program@ == backend.command@
    &&& *command.args == backend.args
    &&& command.cwd is Some == backend.cwd is Some
    &&& command.cwd is Some ==> *command.cwd->0 == backend.cwd->0
    &&& *command.env == backend.env
    &&& command.stdin == Stream::Piped
    &&& command.stdout == Stream::Piped
    &&& command.stderr == Stream::Inherited
}

/// The child process of a stdio backend.
pub fn stdio_command<'a, D>(backend: &'a BackendServerConfig<D>) -> (command: StdioCommand<'a, D>)
    ensures
        runs(*backend, command),
{
    StdioCommand {
        program: backend.command.as_str(),
        args: &backend.args,
        cwd: backend.cwd.as_ref(),
        env: &backend.env,
        stdin: Stream::Piped,
        stdout: Stream::Piped,
        stderr: Stream::Inherited,
    }
}

/// How the handshake with a child process ended.
#[derive(Debug)]
pub enum StdioHandshake<C> {
    /// The client is connected.
    Connected(C),
    /// The handshake failed, for this reason.
    Refused(String),
    /// The timeout ran out first.
    Elapsed,
}

/// What follows from a handshake with a child process.
#[derive(Debug)]
pub enum StdioOutcome<C> {
    /// The client, with the process it belongs to.
    Connected(C, Option<u32>),
    /// The backend is given up; nothing is left to stop.
    Failed(Error),
    /// The backend is given up after the process group is terminated, the
    /// handshake cancelled and its end awaited, in this order.
    Abandoned {
        /// The process that leads the group.
        process_id: Option<u32>,
        /// Why the backend is given up.
        error: Error,
    },
}

/// `outcome` is what follows from a handshake with a child process.
pub open spec fn follows_handshake<C>(
    timeout: Option<Timeout>,
    backend_name: Seq<char>,
    process_id: Option<u32>,
    handshake: StdioHandshake<C>,
    outcome: StdioOutcome<C>,
) -> bool {
    match handshake {
        StdioHandshake::Connected(client) => outcome == StdioOutcome::Connected(client, process_id),
        StdioHandshake::Refused(reason) => outcome == StdioOutcome::<C>::Failed(
            Error::Config(reason),
        ),
        StdioHandshake::Elapsed => outcome matches StdioOutcome::Abandoned {
            process_id: stopped,
            error,
        } && stopped == process_id && is_timeout_error(
            error,
            backend_name,
            "connection"@,
            timeout->0,
        ),
    }
}

/// Decides what follows from a handshake with a child process.
pub fn stdio_outcome<C>(
    timeout: Option<Timeout>,
    backend_name: &str,
    process_id: Option<u32>,
    handshake: StdioHandshake<C>,
) -> (outcome: StdioOutcome<C>)
    requires
        handshake is Elapsed ==> timeout is Some,
    ensures
        follows_handshake(timeout, backend_name@, process_id, handshake, outcome),
{
    match handshake {
        StdioHandshake::Connected(client) => StdioOutcome::Connected(client, process_id),
        StdioHandshake::Refused(reason) => StdioOutcome::Failed(Error::Config(reason)),
        StdioHandshake::Elapsed => match timeout {
            Some(timeout) => StdioOutcome::Abandoned {
                process_id,
                error: timeout_error(backend_name, "connection", timeout),
            },
            None => vstd::pervasive::unreached(),
        },
    }
}

/// The number that stands for the process group led by `process_id` where a
/// signal is sent: its negation as a 32-bit number.
pub open spec fn group_number(process_id: u32) -> int {
    if process_id <= i32::MAX {
        -process_id
    } else {
        0x1_0000_0000 - process_id
    }
}

/// The target of a signal to the process group that `process_id` leads; none
/// where there is no process to stop.
pub fn group_target(process_id: Option<u32>) -> (target: Option<i32>)
    requires
        process_id != Some(0x8000_0000u32),
    ensures
        target is Some == process_id is Some,
        process_id matches Some(id) ==> target->0 == group_number(id),
{
    match process_id {
        Some(id) => if id <= 0x7fff_ffff {
            Some(-(id as i32))
        } else {
            Some((0xffff_ffff - id + 1) as i32)
        },
        None => None,
    }
}

/// `report` is what is told of a process group after a signal to it.
pub open spec fn tells_of_group(
    process_id: u32,
    result: i32,
    error_code: Option<i32>,
    no_such_process: i32,
    reason: Seq<char>,
    report: Option<String>,
) -> bool {
    &&& report is None <==> result == 0 || error_code == Some(no_such_process)
    &&& report is Some ==> report->0@ == "failed to terminate backend process group "@
        + text::decimal(process_id as nat) + ": "@ + reason
}

/// What is reported after a signal to a process group: nothing where it was
/// delivered, and nothing where the group is already gone. `error_code` is the
/// system's error number, and `no_such_process` the one that says that nothing is
/// there.
pub fn group_kill_report(
    process_id: u32,
    result: i32,
    error_code: Option<i32>,
    no_such_process: i32,
    reason: &str,
) -> (report: Option<String>)
    ensures
        tells_of_group(process_id, result, error_code, no_such_process, reason@, report),
{
    if result == 0 {
        return None;
    }
    if let Some(code) = error_code {
        if code == no_such_process {
            return None;
        }
    }
    Some(failure_report("failed to terminate backend process group ", process_id, reason))
}

/// The arguments with which Windows' `taskkill` ends a process and everything
/// below it; none where there is no process to stop.
pub fn tree_kill_args(process_id: Option<u32>) -> (args: Option<Vec<String>>)
    ensures
        args is Some == process_id is Some,
        process_id matches Some(id) ==> text::texts(args->0@) == seq![
            "/PID"@,
            text::decimal(id as nat),
            "/T"@,
            "/F"@,
        ],
{
    let id: u32 = match process_id {
        Some(id) => id,
        None => {
            return None;
        },
    };
    let mut args: Vec<String> = Vec::new();
    args.push("/PID".to_string());
    args.push(text::decimal_text(id));
    args.push("/T".to_string());
    args.push("/F".to_string());
    assert(text::texts(args@) =~= seq!["/PID"@, text::decimal(id as nat), "/T"@, "/F"@]);
    Some(args)
}

/// `report` is what is told of a process tree after `taskkill` ended.
pub open spec fn tells_of_tree(
    process_id: u32,
    success: bool,
    reason: Seq<char>,
    report: Option<String>,
) -> bool {
    &&& report is None <==> success
    &&& report is Some ==> report->0@ == "failed to terminate backend process tree "@
        + text::decimal(process_id as nat) + ": "@ + reason
}

/// What is reported after `taskkill` ended: nothing where it succeeded, else its
/// exit status or the reason why it did not run.
pub fn tree_kill_report(process_id: u32, success: bool, reason: &str) -> (report: Option<String>)
    ensures
        tells_of_tree(process_id, success, reason@, report),
{
    if success {
        None
    } else {
        Some(failure_report("failed to terminate backend process tree ", process_id, reason))
    }
}

/// A line that says what failed for which process, and why.
fn failure_report(what: &str, process_id: u32, reason: &str) -> (report: String)
    ensures
        report@ == what@ + text::decimal(process_id as nat) + ": "@ + reason@,
{
    let mut report = text::concat3(what, text::decimal_text(process_id).as_str(), ": ");
    report.append(reason);
    report
}

/// Without a deadline an operation gives its own result and never a timeout error
/// of its own making.
pub proof fn no_deadline_no_timeout<T>(
    backend: Seq<char>,
    operation: Seq<char>,
    completion: Completion<T>,
    result: Result<T, Error>,
)
    requires
        can_end(None, completion),
        settles(None, backend, operation, completion, result),
    ensures
        completion == Completion::Finished(result),
{
}

/// An operation that comes to its own end gives its own result, whatever the deadline
/// is, and one that runs out of time an error that says which backend took too long
/// for what.
pub proof fn operations_give_their_result_or_say_what_took_too_long<T>(
    deadline: Option<Timeout>,
    timeout: Timeout,
    backend: Seq<char>,
    operation: Seq<char>,
    own: Result<T, Error>,
    finished: Result<T, Error>,
    elapsed: Result<T, Error>,
)
    requires
        settles(deadline, backend, operation, Completion::Finished(own), finished),
        settles(Some(timeout), backend, operation, Completion::Elapsed, elapsed),
    ensures
        finished == own,
        elapsed matches Err(Error::BackendTimeout { backend: b, operation: o, timeout: t }) && b@
            == backend && o@ == operation && t == timeout,
        can_end::<T>(Some(timeout), Completion::Elapsed),
        !can_end::<T>(None, Completion::Elapsed),
        can_end(deadline, Completion::Finished(own)),
{
}

/// A process group is addressed by the number that, added to its leader's, gives
/// nothing in thirty-two bits.
pub proof fn group_and_leader_add_up_to_nothing(process_id: u32)
    requires
        process_id != 0x8000_0000,
    ensures
        (group_number(process_id) + process_id) % 0x1_0000_0000 == 0,
        i32::MIN < group_number(process_id) <= i32::MAX,
{
}

/// A child process runs the backend's own command line in its own directory with its
/// own variables; this process talks to it over its input and output and leaves its
/// errors where they go.
pub proof fn child_processes_run_what_is_configured<'a, D>(
    backend: BackendServerConfig<D>,
    command: StdioCommand<'a, D>,
)
    requires
        runs(backend, command),
    ensures
        command.program@ == backend.command@,
        command.args@ == backend.args@,
        command.env@ == backend.env@,
        backend.cwd matches Some(dir) ==> command.cwd is Some && *command.cwd->0 == dir,
        backend.cwd is None ==> command.cwd is None,
        command.stdin is Piped && command.stdout is Piped && command.stderr is Inherited,
{
}

/// A handshake that succeeds gives the client with its process, one that is refused
/// fails for the reason given, and one that takes too long stops the process and says
/// which backend took too long to connect.
pub proof fn handshakes_connect_fail_or_stop_the_process<C>(
    deadline: Option<Timeout>,
    timeout: Timeout,
    backend_name: Seq<char>,
    process_id: Option<u32>,
    client: C,
    reason: String,
    connected: StdioOutcome<C>,
    refused: StdioOutcome<C>,
    late: StdioOutcome<C>,
)
    requires
        follows_handshake(
            deadline,
            backend_name,
            process_id,
            StdioHandshake::Connected(client),
            connected,
        ),
        follows_handshake(
            deadline,
            backend_name,
            process_id,
            StdioHandshake::Refused(reason),
            refused,
        ),
        follows_handshake(
            Some(timeout),
            backend_name,
            process_id,
            StdioHandshake::Elapsed,
            late,
        ),
    ensures
        connected == StdioOutcome::Connected(client, process_id),
        refused matches StdioOutcome::Failed(Error::Config(own)) && own == reason,
        late matches StdioOutcome::Abandoned { process_id: stopped, error } && stopped == process_id
            && (error matches Error::BackendTimeout { backend, operation, timeout: after }
            && backend@ == backend_name && operation@ == "connection"@ && after == timeout),
{
}

/// A signal that is delivered, or that finds nobody, is not told of; any other is told
/// of with the number of the process, in digits, and the reason.
pub proof fn failed_signals_are_told_of(
    process_id: u32,
    result: i32,
    error_code: Option<i32>,
    no_such_process: i32,
    reason: Seq<char>,
    of_group: Option<String>,
    success: bool,
    of_tree: Option<String>,
)
    requires
        tells_of_group(process_id, result, error_code, no_such_process, reason, of_group),
        tells_of_tree(process_id, success, reason, of_tree),
    ensures
        result == 0 ==> of_group is None,
        error_code == Some(no_such_process) ==> of_group is None,
        result != 0 && error_code != Some(no_such_process) ==> of_group is Some && exists|
            digits: Seq<char>,
        |
            text::number(digits) == process_id && of_group->0@ == #[trigger] (
            "failed to terminate backend process group "@ + digits + ": "@ + reason),
        success ==> of_tree is None,
        !success ==> of_tree is Some && exists|digits: Seq<char>|
            text::number(digits) == process_id && of_tree->0@ == #[trigger] (
            "failed to terminate backend process tree "@ + digits + ": "@ + reason),
{
    let digits = text::decimal(process_id as nat);
    text::decimal_text_reads_as_its_number(process_id as nat);
    if of_group is Some {
        assert(of_group->0@ == "failed to terminate backend process group "@ + digits + ": "@
            + reason);
    }
    if of_tree is Some {
        assert(of_tree->0@ == "failed to terminate backend process tree "@ + digits + ": "@
            + reason);
    }
}

} // verus!
