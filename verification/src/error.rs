//! Error kinds and the error type that stops request processing.
use vstd::prelude::*;

use crate::context::flow_control::{FlowControl, FlowControlView, IntoFlowControl, TagQuery, TagQueryView};
use crate::text::{contains, has_infix, push_str};
use crate::time::Duration;

verus! {

/// The category of an error.
#[derive(Debug, Clone, Copy, PartialEq, Eq, Structural)]
pub enum ErrorKind {
    /// HTTP-related errors (invalid requests, connection failures, etc.)
    Http,
    /// Dataset operation errors
    Dataset,
    /// Worker processing errors
    Worker,
    /// Backend initialization or client creation errors
    Backend,
    /// Context or request processing errors
    Context,
    /// I/O errors
    Io,
    /// Timeout errors
    Timeout,
    /// Other unclassified errors
    Other,
}

/// The name of each error kind.
pub open spec fn kind_name(kind: ErrorKind) -> Seq<char> {
    match kind {
        ErrorKind::Http => "http"@,
        ErrorKind::Dataset => "dataset"@,
        ErrorKind::Worker => "worker"@,
        ErrorKind::Backend => "backend"@,
        ErrorKind::Context => "context"@,
        ErrorKind::Io => "io"@,
        ErrorKind::Timeout => "timeout"@,
        ErrorKind::Other => "other"@,
    }
}

impl ErrorKind {
    /// Returns a string representation of the error kind.
    pub fn as_str(self) -> (s: &'static str)
        ensures
            s@ == kind_name(self),
    {
        match self {
            ErrorKind::Http => "http",
            ErrorKind::Dataset => "dataset",
            ErrorKind::Worker => "worker",
            ErrorKind::Backend => "backend",
            ErrorKind::Context => "context",
            ErrorKind::Io => "io",
            ErrorKind::Timeout => "timeout",
            ErrorKind::Other => "other",
        }
    }
}

/// Unrecoverable failure during request processing.
///
/// Carries a kind, a message, an optional description of the underlying
/// cause, and an optional tag query that selects the tasks to terminate.
#[derive(Debug)]
pub struct Error {
    kind: ErrorKind,
    message: String,
    source: Option<String>,
    query: Option<TagQuery>,
}

/// The mathematical value of an [`Error`].
pub struct ErrorView {
    pub kind: ErrorKind,
    pub message: Seq<char>,
    pub source: Option<Seq<char>>,
    pub query: Option<TagQueryView>,
}

impl View for Error {
    type V = ErrorView;

    closed spec fn view(&self) -> ErrorView {
        ErrorView {
            kind: self.kind,
            message: self.message@,
            source: match self.source {
                Some(s) => Some(s@),
                None => None,
            },
            query: match self.query {
                Some(q) => Some(q@),
                None => None,
            },
        }
    }
}

/// The kind that [`Error::from_boxed`] infers from an error's description.
pub open spec fn inferred_kind(message: Seq<char>) -> ErrorKind {
    if has_infix(message, "http"@) || has_infix(message, "request"@) {
        ErrorKind::Http
    } else if has_infix(message, "io"@) || has_infix(message, "file"@) {
        ErrorKind::Io
    } else if has_infix(message, "timeout"@) {
        ErrorKind::Timeout
    } else {
        ErrorKind::Other
    }
}

/// The error that [`Error::from_boxed`] makes of an error's description.
pub open spec fn boxed_error(description: Seq<char>) -> ErrorView {
    ErrorView { kind: inferred_kind(description), message: description, source: Some(description), query: None }
}

/// The text of an error as it is displayed: `[kind] message`.
pub open spec fn error_text(kind: ErrorKind, message: Seq<char>) -> Seq<char> {
    "["@ + kind_name(kind) + "] "@ + message
}

/// The flow-control decision that an error stands for.
pub open spec fn error_flow_control(e: ErrorView) -> FlowControlView {
    match e.query {
        Some(q) => FlowControlView::Fail(
            q,
            match e.source {
                Some(s) => s,
                None => e.message,
            },
        ),
        None => FlowControlView::Hold(TagQueryView::Owner, 0),
    }
}

/// How a boxed error's kind is inferred from its description: a mention of
/// "http" or "request" makes it an HTTP error whatever else it mentions; an
/// I/O error needs "io" or "file" and neither of those; a timeout needs
/// "timeout" and none of the four; anything else is of another kind.
pub proof fn lemma_boxed_error_kind(d: Seq<char>)
    ensures
        has_infix(d, "http"@) || has_infix(d, "request"@) ==> boxed_error(d).kind == ErrorKind::Http,
        boxed_error(d).kind == ErrorKind::Http <==> (has_infix(d, "http"@) || has_infix(d, "request"@)),
        boxed_error(d).kind == ErrorKind::Io <==> (!has_infix(d, "http"@) && !has_infix(d, "request"@)
            && (has_infix(d, "io"@) || has_infix(d, "file"@))),
        boxed_error(d).kind == ErrorKind::Timeout <==> (!has_infix(d, "http"@) && !has_infix(d, "request"@)
            && !has_infix(d, "io"@) && !has_infix(d, "file"@) && has_infix(d, "timeout"@)),
        boxed_error(d).kind == ErrorKind::Other <==> (!has_infix(d, "http"@) && !has_infix(d, "request"@)
            && !has_infix(d, "io"@) && !has_infix(d, "file"@) && !has_infix(d, "timeout"@)),
        boxed_error(d).message == d && boxed_error(d).source == Some(d) && boxed_error(d).query is None,
{
}

impl Error {
    /// Creates a new error with the given kind and message.
    pub fn new(kind: ErrorKind, message: &str) -> (e: Error)
        ensures
            e@ == (ErrorView { kind, message: message@, source: None, query: None }),
    {
        Error { kind, message: String::from_str(message), source: None, query: None }
    }

    /// Creates a new error with the given kind and an owned message.
    pub fn with_message(kind: ErrorKind, message: String) -> (e: Error)
        ensures
            e@ == (ErrorView { kind, message: message@, source: None, query: None }),
    {
        Error { kind, message, source: None, query: None }
    }

    /// Creates a new error with the given kind, message, and the description of its cause.
    pub fn with_source(kind: ErrorKind, message: &str, source: String) -> (e: Error)
        ensures
            e@ == (ErrorView { kind, message: message@, source: Some(source@), query: None }),
    {
        Error { kind, message: String::from_str(message), source: Some(source), query: None }
    }

    /// Creates a new error from the description of another error, inferring
    /// its kind from the words in the description.
    pub fn from_boxed(error: String) -> (e: Error)
        ensures
            e@ == boxed_error(error@),
    {
        let kind = if contains(error.as_str(), "http") || contains(error.as_str(), "request") {
            ErrorKind::Http
        } else if contains(error.as_str(), "io") || contains(error.as_str(), "file") {
            ErrorKind::Io
        } else if contains(error.as_str(), "timeout") {
            ErrorKind::Timeout
        } else {
            ErrorKind::Other
        };
        let message = error.clone();
        Error { kind, message, source: Some(error), query: None }
    }

    /// Returns the error kind.
    pub fn kind(&self) -> (k: ErrorKind)
        ensures
            k == self@.kind,
    {
        self.kind
    }

    /// Returns the error message.
    pub fn message(&self) -> (m: &str)
        ensures
            m@ == self@.message,
    {
        self.message.as_str()
    }

    /// Returns the description of the underlying cause, if any.
    pub fn source(&self) -> (s: Option<&str>)
        ensures
            match s {
                Some(x) => self@.source == Some(x@),
                None => self@.source is None,
            },
    {
        match &self.source {
            Some(x) => Some(x.as_str()),
            None => None,
        }
    }

    /// Overrides the current tag query: the tasks with matching tags are terminated.
    pub fn with_query(self, query: TagQuery) -> (e: Error)
        ensures
            e@ == (ErrorView { query: Some(query@), ..self@ }),
    {
        Error { query: Some(query), ..self }
    }

    /// A copy of this error.
    pub fn duplicate(&self) -> (e: Error)
        ensures
            e@ == self@,
    {
        let source = match &self.source {
            Some(x) => Some(x.clone()),
            None => None,
        };
        let query = match &self.query {
            Some(q) => Some(q.duplicate()),
            None => None,
        };
        Error { kind: self.kind, message: self.message.clone(), source, query }
    }

    /// Returns the tag query if set.
    pub fn query(&self) -> (q: Option<&TagQuery>)
        ensures
            match q {
                Some(x) => self@.query == Some(x@),
                None => self@.query is None,
            },
    {
        match &self.query {
            Some(x) => Some(x),
            None => None,
        }
    }

    /// The error as it is displayed: `[kind] message`.
    pub fn to_display_string(&self) -> (s: String)
        ensures
            s@ == error_text(self@.kind, self@.message),
    {
        let mut s = String::from_str("[");
        push_str(&mut s, self.kind.as_str());
        push_str(&mut s, "] ");
        push_str(&mut s, self.message.as_str());
        s
    }
}

impl IntoFlowControl for Error {
    open spec fn flow_control_of(&self) -> FlowControlView {
        error_flow_control(self@)
    }

    fn into_flow_control(self) -> (f: FlowControl) {
        match self.query {
            Some(query) => {
                let cause = match self.source {
                    Some(source) => source,
                    None => self.message,
                };
                FlowControl::Fail(query, cause)
            },
            None => FlowControl::Hold(TagQuery::Owner, Duration::zero()),
        }
    }
}

} // verus!
