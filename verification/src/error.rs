//! The errors of the REST client.

use reqwest::StatusCode;
use vstd::prelude::*;
use vstd::string::*;

use crate::external::client_error_status;

verus! {

/// Where a server listens unless it is told otherwise.
pub const DEFAULT_ADDRESS: &'static str = "http://127.0.0.1:7280";

/// What requests and responses carry unless they say otherwise.
pub const DEFAULT_CONTENT_TYPE: &'static str = "application/json";

/// What went wrong in the REST client.
#[derive(Debug)]
pub enum Error {
    /// The HTTP library failed.
    Client(reqwest::Error),
    /// The client itself failed.
    Internal(String),
    /// Reading or writing failed.
    Io(std::io::Error),
    /// A URL could not be parsed.
    UrlParse(String),
    /// A JSON conversion failed.
    Json(serde_json::Error),
    /// The server answered with an HTTP error status.
    Http(String),
    /// The server answered with an error of its own.
    Api(ApiError),
}

/// An error that the server reports.
#[derive(Debug)]
pub struct ApiError {
    pub error: String,
}

/// What kind of thing went wrong.
#[derive(Clone, Copy, Debug, PartialEq, Eq, Structural)]
pub enum ErrorKind {
    Client,
    Internal,
    Io,
    UrlParse,
    Json,
    Http,
    Api,
}

impl ErrorKind {
    /// What the text of every error of the kind starts with.
    pub open spec fn spec_label(self) -> Seq<char> {
        match self {
            ErrorKind::Client => "Reqwest client lib error: "@,
            ErrorKind::Internal => "Internal Quickwit client error: "@,
            ErrorKind::Io => "IO error: "@,
            ErrorKind::UrlParse => "Url parsing error: "@,
            ErrorKind::Json => "Serde JSON error: "@,
            ErrorKind::Http => "HTTP error status: "@,
            ErrorKind::Api => "Api error: "@,
        }
    }

    /// The text of an error of the kind with the given details.
    pub open spec fn spec_message(self, detail: Seq<char>) -> Seq<char> {
        self.spec_label() + detail
    }

    /// The text of an error of the kind with the given details.
    pub fn message(self, detail: &str) -> (text: String)
        ensures
            text@ == self.spec_message(detail@),
    {
        let label = match self {
            ErrorKind::Client => "Reqwest client lib error: ",
            ErrorKind::Internal => "Internal Quickwit client error: ",
            ErrorKind::Io => "IO error: ",
            ErrorKind::UrlParse => "Url parsing error: ",
            ErrorKind::Json => "Serde JSON error: ",
            ErrorKind::Http => "HTTP error status: ",
            ErrorKind::Api => "Api error: ",
        };
        label.to_owned().concat(detail)
    }
}

impl ApiError {
    /// The text of the error.
    pub open spec fn spec_display_text(self) -> Seq<char> {
        "(error="@ + self.error@ + ")"@
    }

    /// The text of the error.
    pub fn display_text(&self) -> (text: String)
        ensures
            text@ == self.spec_display_text(),
    {
        "(error=".to_owned().concat(self.error.as_str()).concat(")")
    }
}

/// Whether `text` is what the `Display` of `value` writes.
pub open spec fn is_display_of<T: std::fmt::Display>(value: T, text: Seq<char>) -> bool {
    exists|written: String| #[trigger]
        to_string_from_display_ensures::<T>(&value, written) && written@ == text
}

impl Error {
    /// The kind of the error.
    pub open spec fn spec_kind(self) -> ErrorKind {
        match self {
            Error::Client(_) => ErrorKind::Client,
            Error::Internal(_) => ErrorKind::Internal,
            Error::Io(_) => ErrorKind::Io,
            Error::UrlParse(_) => ErrorKind::UrlParse,
            Error::Json(_) => ErrorKind::Json,
            Error::Http(_) => ErrorKind::Http,
            Error::Api(_) => ErrorKind::Api,
        }
    }

    /// Whether `detail` is the text of what the error holds.
    pub open spec fn has_detail(self, detail: Seq<char>) -> bool {
        match self {
            Error::Client(err) => is_display_of(err, detail),
            Error::Internal(text) => detail == text@,
            Error::Io(err) => is_display_of(err, detail),
            Error::UrlParse(text) => detail == text@,
            Error::Json(err) => is_display_of(err, detail),
            Error::Http(text) => detail == text@,
            Error::Api(err) => detail == err.spec_display_text(),
        }
    }

    /// The HTTP status that the error stems from, if the HTTP library knows of one.
    pub fn status_code(&self) -> (status: Option<StatusCode>)
        ensures
            status == match *self {
                Error::Client(err) => client_error_status(err),
                _ => None,
            },
    {
        match self {
            Error::Client(err) => err.status(),
            _ => None,
        }
    }

    /// The kind of the error.
    pub fn kind(&self) -> (kind: ErrorKind)
        ensures
            kind == self.spec_kind(),
    {
        match self {
            Error::Client(_) => ErrorKind::Client,
            Error::Internal(_) => ErrorKind::Internal,
            Error::Io(_) => ErrorKind::Io,
            Error::UrlParse(_) => ErrorKind::UrlParse,
            Error::Json(_) => ErrorKind::Json,
            Error::Http(_) => ErrorKind::Http,
            Error::Api(_) => ErrorKind::Api,
        }
    }

    /// The text of what the error holds.
    pub fn detail(&self) -> (detail: String)
        ensures
            self.has_detail(detail@),
    {
        match self {
            Error::Client(err) => err.to_string(),
            Error::Internal(text) => text.clone(),
            Error::Io(err) => err.to_string(),
            Error::UrlParse(text) => text.clone(),
            Error::Json(err) => err.to_string(),
            Error::Http(text) => text.clone(),
            Error::Api(err) => err.display_text(),
        }
    }

    /// The text of the error.
    pub fn display_text(&self) -> (text: String)
        ensures
            exists|detail: Seq<char>| #[trigger]
                self.has_detail(detail) && text@ == self.spec_kind().spec_message(detail),
    {
        let detail = self.detail();
        self.kind().message(detail.as_str())
    }
}

impl From<reqwest::Error> for Error {
    fn from(err: reqwest::Error) -> (converted: Self) {
        Error::Client(err)
    }
}

impl vstd::std_specs::convert::FromSpecImpl<reqwest::Error> for Error {
    open spec fn obeys_from_spec() -> bool {
        true
    }

    open spec fn from_spec(err: reqwest::Error) -> Self {
        Error::Client(err)
    }
}

impl From<std::io::Error> for Error {
    fn from(err: std::io::Error) -> (converted: Self) {
        Error::Io(err)
    }
}

impl vstd::std_specs::convert::FromSpecImpl<std::io::Error> for Error {
    open spec fn obeys_from_spec() -> bool {
        true
    }

    open spec fn from_spec(err: std::io::Error) -> Self {
        Error::Io(err)
    }
}

impl From<serde_json::Error> for Error {
    fn from(err: serde_json::Error) -> (converted: Self) {
        Error::Json(err)
    }
}

impl vstd::std_specs::convert::FromSpecImpl<serde_json::Error> for Error {
    open spec fn obeys_from_spec() -> bool {
        true
    }

    open spec fn from_spec(err: serde_json::Error) -> Self {
        Error::Json(err)
    }
}

impl From<ApiError> for Error {
    fn from(err: ApiError) -> (converted: Self) {
        Error::Api(err)
    }
}

impl vstd::std_specs::convert::FromSpecImpl<ApiError> for Error {
    open spec fn obeys_from_spec() -> bool {
        true
    }

    open spec fn from_spec(err: ApiError) -> Self {
        Error::Api(err)
    }
}

/// The text of an error tells its kind and its details: no two errors that differ in either have
/// the same text.
pub proof fn law_a_message_tells_kind_and_detail(
    kind: ErrorKind,
    detail: Seq<char>,
    other_kind: ErrorKind,
    other_detail: Seq<char>,
)
    requires
        kind.spec_message(detail) == other_kind.spec_message(other_detail),
    ensures
        kind == other_kind,
        detail == other_detail,
{
    reveal_strlit("Reqwest client lib error: ");
    reveal_strlit("Internal Quickwit client error: ");
    reveal_strlit("IO error: ");
    reveal_strlit("Url parsing error: ");
    reveal_strlit("Serde JSON error: ");
    reveal_strlit("HTTP error status: ");
    reveal_strlit("Api error: ");
    let text = kind.spec_message(detail);
    let other_text = other_kind.spec_message(other_detail);
    assert(text[0] == other_text[0]);
    assert(text[1] == other_text[1]);
    let start = kind.spec_label().len() as int;
    assert(detail =~= text.skip(start));
    assert(other_detail =~= other_text.skip(start));
}

/// The text of a server error tells what the server reported.
pub proof fn law_an_api_error_text_tells_the_error(err: ApiError, other: ApiError)
    requires
        err.spec_display_text() == other.spec_display_text(),
    ensures
        err.error@ == other.error@,
{
    reveal_strlit("(error=");
    reveal_strlit(")");
    let text = err.spec_display_text();
    assert(err.error@ =~= text.subrange(7, text.len() - 1));
    assert(other.error@ =~= text.subrange(7, text.len() - 1));
}

/// The text of an error is the label of its kind, and behind it the details as they are.
pub proof fn law_message(kind: ErrorKind, detail: &str, text: String)
    requires
        call_ensures(ErrorKind::message, (kind, detail), text),
    ensures
        kind is Client ==> text@ == "Reqwest client lib error: "@ + detail@,
        kind is Internal ==> text@ == "Internal Quickwit client error: "@ + detail@,
        kind is Io ==> text@ == "IO error: "@ + detail@,
        kind is UrlParse ==> text@ == "Url parsing error: "@ + detail@,
        kind is Json ==> text@ == "Serde JSON error: "@ + detail@,
        kind is Http ==> text@ == "HTTP error status: "@ + detail@,
        kind is Api ==> text@ == "Api error: "@ + detail@,
        text@.len() >= detail@.len(),
        text@.skip(text@.len() - detail@.len()) == detail@,
{
    assert(text@.skip(text@.len() - detail@.len()) =~= detail@);
}

/// Every error is of the kind of its variant.
pub proof fn law_kind(error: Error, kind: ErrorKind)
    requires
        call_ensures(Error::kind, (&error,), kind),
    ensures
        error is Client <==> kind is Client,
        error is Internal <==> kind is Internal,
        error is Io <==> kind is Io,
        error is UrlParse <==> kind is UrlParse,
        error is Json <==> kind is Json,
        error is Http <==> kind is Http,
        error is Api <==> kind is Api,
{
}

/// The details of an error are the text that it holds, or what the `Display` of its cause writes,
/// whatever the cause: no variant drops its cause.
pub proof fn law_detail(error: Error, detail: String)
    requires
        call_ensures(Error::detail, (&error,), detail),
    ensures
        error matches Error::Client(err) ==> exists|written: String| #[trigger]
            to_string_from_display_ensures(&err, written) && detail@ == written@,
        error matches Error::Internal(held) ==> detail@ == held@,
        error matches Error::Io(err) ==> exists|written: String| #[trigger]
            to_string_from_display_ensures(&err, written) && detail@ == written@,
        error matches Error::UrlParse(held) ==> detail@ == held@,
        error matches Error::Json(err) ==> exists|written: String| #[trigger]
            to_string_from_display_ensures(&err, written) && detail@ == written@,
        error matches Error::Http(held) ==> detail@ == held@,
        error matches Error::Api(err) ==> {
            &&& detail@.len() == err.error@.len() + 8
            &&& detail@.subrange(7, detail@.len() - 1) == err.error@
        },
{
    reveal_strlit("(error=");
    reveal_strlit(")");
    if let Error::Api(err) = error {
        assert(detail@.subrange(7, detail@.len() - 1) =~= err.error@);
    }
}

/// What can be the details of an error: what the `Display` of its cause writes, or the text that it
/// holds, and nothing else.
pub proof fn law_has_detail(error: Error, detail: Seq<char>)
    ensures
        error matches Error::Client(err) ==> (error.has_detail(detail) <==> exists|written: String|
            #[trigger]
            to_string_from_display_ensures(&err, written) && written@ == detail),
        error matches Error::Internal(held) ==> (error.has_detail(detail) <==> detail == held@),
        error matches Error::Io(err) ==> (error.has_detail(detail) <==> exists|written: String|
            #[trigger]
            to_string_from_display_ensures(&err, written) && written@ == detail),
        error matches Error::UrlParse(held) ==> (error.has_detail(detail) <==> detail == held@),
        error matches Error::Json(err) ==> (error.has_detail(detail) <==> exists|written: String|
            #[trigger]
            to_string_from_display_ensures(&err, written) && written@ == detail),
        error matches Error::Http(held) ==> (error.has_detail(detail) <==> detail == held@),
        error matches Error::Api(err) ==> (error.has_detail(detail) <==> detail == "(error="@
            + err.error@ + ")"@),
{
}

/// The text of an error is the label of its variant, and behind it the text that it holds, or what
/// the `Display` of its cause writes, whatever the cause.
pub proof fn law_display_text(error: Error, text: String)
    requires
        call_ensures(Error::display_text, (&error,), text),
    ensures
        error matches Error::Client(err) ==> exists|written: String| #[trigger]
            to_string_from_display_ensures(&err, written) && text@ == "Reqwest client lib error: "@
                + written@,
        error matches Error::Internal(held) ==> text@ == "Internal Quickwit client error: "@ + held@,
        error matches Error::Io(err) ==> exists|written: String| #[trigger]
            to_string_from_display_ensures(&err, written) && text@ == "IO error: "@
                + written@,
        error matches Error::UrlParse(held) ==> text@ == "Url parsing error: "@ + held@,
        error matches Error::Json(err) ==> exists|written: String| #[trigger]
            to_string_from_display_ensures(&err, written) && text@ == "Serde JSON error: "@
                + written@,
        error matches Error::Http(held) ==> text@ == "HTTP error status: "@ + held@,
        error matches Error::Api(err) ==> text@ == "Api error: "@ + ("(error="@ + err.error@ + ")"@),
{
}

/// The text of a server error is what the server reported, once and as it is, between `(error=` and
/// a closing bracket.
pub proof fn law_api_error_display_text(err: ApiError, text: String)
    requires
        call_ensures(ApiError::display_text, (&err,), text),
    ensures
        text@.len() == err.error@.len() + 8,
        text@.take(7) == "(error="@,
        text@.subrange(7, text@.len() - 1) == err.error@,
        text@.last() == ')',
{
    reveal_strlit("(error=");
    reveal_strlit(")");
    assert(text@.take(7) =~= "(error="@);
    assert(text@.subrange(7, text@.len() - 1) =~= err.error@);
}

/// The status of an error is the one that the HTTP library knows, for every error of that library;
/// no other error has one.
pub proof fn law_status_code(error: Error, status: Option<StatusCode>)
    requires
        call_ensures(Error::status_code, (&error,), status),
    ensures
        error matches Error::Client(err) ==> status == client_error_status(err),
        status is Some ==> error is Client,
{
}

/// Converting an error of the HTTP library gives the error that stands for it, with the cause as it is, whatever
/// the cause.
pub proof fn law_from_client_error(err: reqwest::Error, converted: Error)
    requires
        call_ensures(<Error as From<reqwest::Error>>::from, (err,), converted),
    ensures
        converted matches Error::Client(held) && held == err,
{
}

/// Converting an IO error gives the error that stands for it, with the cause as it is, whatever
/// the cause.
pub proof fn law_from_io_error(err: std::io::Error, converted: Error)
    requires
        call_ensures(<Error as From<std::io::Error>>::from, (err,), converted),
    ensures
        converted matches Error::Io(held) && held == err,
{
}

/// Converting a JSON error gives the error that stands for it, with the cause as it is, whatever
/// the cause.
pub proof fn law_from_json_error(err: serde_json::Error, converted: Error)
    requires
        call_ensures(<Error as From<serde_json::Error>>::from, (err,), converted),
    ensures
        converted matches Error::Json(held) && held == err,
{
}

/// Converting an error that the server reported gives the error that stands for it, with the cause as it is, whatever
/// the cause.
pub proof fn law_from_api_error(err: ApiError, converted: Error)
    requires
        call_ensures(<Error as From<ApiError>>::from, (err,), converted),
    ensures
        converted matches Error::Api(held) && held == err,
{
}

/// An error that was converted has the status of its cause if the cause is one of the HTTP library.
pub proof fn law_a_converted_client_error_keeps_its_status(
    err: reqwest::Error,
    converted: Error,
    status: Option<StatusCode>,
)
    requires
        call_ensures(<Error as From<reqwest::Error>>::from, (err,), converted),
        call_ensures(Error::status_code, (&converted,), status),
    ensures
        status == client_error_status(err),
{
}

/// The text of a server error that was converted holds all that the server reported, and nothing
/// else between its first 18 characters and its last.
pub proof fn law_a_converted_server_error_keeps_its_text(
    err: ApiError,
    converted: Error,
    text: String,
)
    requires
        call_ensures(<Error as From<ApiError>>::from, (err,), converted),
        call_ensures(Error::display_text, (&converted,), text),
    ensures
        text@.len() == err.error@.len() + 19,
        text@.subrange(18, text@.len() - 1) == err.error@,
{
    reveal_strlit("Api error: ");
    reveal_strlit("(error=");
    reveal_strlit(")");
    law_display_text(converted, text);
    assert(text@.subrange(18, text@.len() - 1) =~= err.error@);
}

} // verus!
