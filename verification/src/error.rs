//! Crate-wide error type.

use vstd::prelude::*;

use crate::outside;
use crate::outside::{http_error_text, io_error_text, json_error_text, quote};
use crate::text::{concat, concat3};
use crate::timeout;
use crate::timeout::Timeout;

verus! {

/// All errors that the library produces.
#[derive(Debug)]
pub enum Error {
    /// A compression level that is not known, by its name.
    UnknownCompressionLevel(String),
    /// A tool that no backend offers, by its name.
    ToolNotFound(String),
    /// JSON that does not parse or does not have the expected shape.
    Json(serde_json::Error),
    /// A failed input or output operation.
    Io(std::io::Error),
    /// Text that does not parse.
    Parse(String),
    /// A request or a setting that is not valid.
    Validation(String),
    /// A failed authentication.
    Auth(String),
    /// A wrong configuration, or a backend that refuses an operation.
    Config(String),
    /// A backend operation that took longer than its timeout.
    BackendTimeout {
        /// The backend's name.
        backend: String,
        /// What the backend was asked to do.
        operation: String,
        /// The timeout that ran out.
        timeout: Timeout,
    },
    /// A failed HTTP client.
    Http(reqwest::Error),
    /// A failed request for assistance to a language model.
    LlmAssist(String),
}

/// The message of `error`, where `source` is the text of the error that it
/// carries: the JSON, input or output, or HTTP error. The other errors carry
/// none.
pub open spec fn error_text(error: Error, source: Seq<char>) -> Seq<char> {
    match error {
        Error::UnknownCompressionLevel(level) => "unknown compression level: "@
            + outside::quoted_text(level@),
        Error::ToolNotFound(tool) => "tool not found: "@ + outside::quoted_text(tool@),
        Error::Json(_) => "JSON error: "@ + source,
        Error::Io(_) => "IO error: "@ + source,
        Error::Parse(reason) => "parse error: "@ + reason@,
        Error::Validation(reason) => "validation error: "@ + reason@,
        Error::Auth(reason) => "auth error: "@ + reason@,
        Error::Config(reason) => "config error: "@ + reason@,
        Error::BackendTimeout { backend, operation, timeout } => "backend "@
            + outside::quoted_text(backend@) + " timed out during "@ + operation@ + " after "@
            + timeout::span_text(timeout@),
        Error::Http(_) => "HTTP error: "@ + source,
        Error::LlmAssist(reason) => "LLM assist error: "@ + reason@,
    }
}

/// `error` carries one whose text rests on the machine: an input or output error,
/// or the JSON error of a stream.
pub open spec fn rests_on_machine(error: Error) -> bool {
    match error {
        Error::Io(_) => true,
        Error::Json(source) => outside::is_stream_error(source),
        _ => false,
    }
}

/// The text of the error that `error` carries, where it does not rest on the
/// machine; empty where it carries none.
pub open spec fn source_text(error: Error) -> Seq<char> {
    match error {
        Error::Json(source) => outside::json_error_display(source),
        Error::Http(source) => outside::http_error_display(source),
        _ => Seq::empty(),
    }
}

/// A message that `error` can have.
pub open spec fn is_message(error: Error, message: Seq<char>) -> bool {
    exists|source: Seq<char>| message == #[trigger] error_text(error, source)
}

impl Error {
    /// The error's message, with `source` for the text of the error it carries.
    pub fn message_with(&self, source: &str) -> (message: String)
        ensures
            message@ == error_text(*self, source@),
    {
        match self {
            Error::UnknownCompressionLevel(level) => concat(
                "unknown compression level: ",
                quote(level.as_str()).as_str(),
            ),
            Error::ToolNotFound(tool) => concat("tool not found: ", quote(tool.as_str()).as_str()),
            Error::Json(_) => concat("JSON error: ", source),
            Error::Io(_) => concat("IO error: ", source),
            Error::Parse(reason) => concat("parse error: ", reason.as_str()),
            Error::Validation(reason) => concat("validation error: ", reason.as_str()),
            Error::Auth(reason) => concat("auth error: ", reason.as_str()),
            Error::Config(reason) => concat("config error: ", reason.as_str()),
            Error::BackendTimeout { backend, operation, timeout } => {
                let mut message = concat3(
                    "backend ",
                    quote(backend.as_str()).as_str(),
                    " timed out during ",
                );
                message.append(operation.as_str());
                message.append(" after ");
                message.append(timeout.to_text().as_str());
                message
            },
            Error::Http(_) => concat("HTTP error: ", source),
            Error::LlmAssist(reason) => concat("LLM assist error: ", reason.as_str()),
        }
    }

    /// The text of the error that this one carries; empty where it carries none.
    fn source(&self) -> (source: String)
        ensures
            !rests_on_machine(*self) ==> source@ == source_text(*self),
    {
        match self {
            Error::Json(error) => json_error_text(error),
            Error::Io(error) => io_error_text(error),
            Error::Http(error) => http_error_text(error),
            _ => String::new(),
        }
    }

    /// Whether the machine decides the text behind the prefix of the message.
    pub fn depends_on_machine(&self) -> (depends: bool)
        ensures
            depends == rests_on_machine(*self),
    {
        match self {
            Error::Io(_) => true,
            Error::Json(source) => source.is_io(),
            _ => false,
        }
    }

    /// The error's message. Where the error it carries rests on the machine, so
    /// does the text behind the prefix.
    pub fn message(&self) -> (message: String)
        ensures
            is_message(*self, message@),
            !rests_on_machine(*self) ==> message@ == error_text(*self, source_text(*self)),
    {
        let source = self.source();
        self.message_with(source.as_str())
    }
}

impl From<serde_json::Error> for Error {
    fn from(error: serde_json::Error) -> (converted: Self) {
        Error::Json(error)
    }
}

impl vstd::std_specs::convert::FromSpecImpl<serde_json::Error> for Error {
    open spec fn obeys_from_spec() -> bool {
        true
    }

    open spec fn from_spec(error: serde_json::Error) -> Self {
        Error::Json(error)
    }
}

impl From<std::io::Error> for Error {
    fn from(error: std::io::Error) -> (converted: Self) {
        Error::Io(error)
    }
}

impl vstd::std_specs::convert::FromSpecImpl<std::io::Error> for Error {
    open spec fn obeys_from_spec() -> bool {
        true
    }

    open spec fn from_spec(error: std::io::Error) -> Self {
        Error::Io(error)
    }
}

impl From<reqwest::Error> for Error {
    fn from(error: reqwest::Error) -> (converted: Self) {
        Error::Http(error)
    }
}

impl vstd::std_specs::convert::FromSpecImpl<reqwest::Error> for Error {
    open spec fn obeys_from_spec() -> bool {
        true
    }

    open spec fn from_spec(error: reqwest::Error) -> Self {
        Error::Http(error)
    }
}

/// What each error says: its kind, and what it carries.
pub proof fn messages_say_the_kind_and_the_cause(error: Error, source: Seq<char>)
    ensures
        error matches Error::UnknownCompressionLevel(level) ==> error_text(error, source)
            == "unknown compression level: "@ + outside::quoted_text(level@),
        error matches Error::ToolNotFound(tool) ==> error_text(error, source)
            == "tool not found: "@ + outside::quoted_text(tool@),
        error is Json ==> error_text(error, source) == "JSON error: "@ + source,
        error is Io ==> error_text(error, source) == "IO error: "@ + source,
        error matches Error::Parse(reason) ==> error_text(error, source) == "parse error: "@
            + reason@,
        error matches Error::Validation(reason) ==> error_text(error, source)
            == "validation error: "@ + reason@,
        error matches Error::Auth(reason) ==> error_text(error, source) == "auth error: "@
            + reason@,
        error matches Error::Config(reason) ==> error_text(error, source) == "config error: "@
            + reason@,
        error matches Error::BackendTimeout { backend, operation, timeout } ==> error_text(
            error,
            source,
        ) == "backend "@ + outside::quoted_text(backend@) + " timed out during "@ + operation@
            + " after "@ + timeout::span_text(timeout@),
        error is Http ==> error_text(error, source) == "HTTP error: "@ + source,
        error matches Error::LlmAssist(reason) ==> error_text(error, source)
            == "LLM assist error: "@ + reason@,
{
}

/// A JSON error is shown by its own text unless it comes from a stream, an HTTP error
/// always is, and of the others only an input or output error rests on the machine.
pub proof fn sources_show_their_own_text(error: Error)
    ensures
        rests_on_machine(error) <==> error is Io || (error is Json && outside::is_stream_error(
            error->Json_0,
        )),
        error matches Error::Json(source) ==> source_text(error) == outside::json_error_display(
            source,
        ),
        error matches Error::Http(source) ==> source_text(error) == outside::http_error_display(
            source,
        ),
{
}

/// Every message of an error says its kind, also where the machine decides the rest;
/// and an error that carries none has one message.
pub proof fn every_message_says_the_kind(error: Error, message: Seq<char>)
    requires
        is_message(error, message),
    ensures
        error is Io ==> exists|rest: Seq<char>| message == #[trigger] ("IO error: "@ + rest),
        error is Json ==> exists|rest: Seq<char>| message == #[trigger] ("JSON error: "@ + rest),
        error is Http ==> exists|rest: Seq<char>| message == #[trigger] ("HTTP error: "@ + rest),
        !(error is Io || error is Json || error is Http) ==> message == error_text(
            error,
            Seq::empty(),
        ),
{
    let source = choose|source: Seq<char>| message == #[trigger] error_text(error, source);
    if error is Io {
        assert(message == "IO error: "@ + source);
    }
    if error is Json {
        assert(message == "JSON error: "@ + source);
    }
    if error is Http {
        assert(message == "HTTP error: "@ + source);
    }
}

} // verus!
