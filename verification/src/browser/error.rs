//! Errors of browser automation and of configuration.
use vstd::prelude::*;

use thirtyfour::error::WebDriverError;

use crate::error::{Error, ErrorKind, ErrorView};
use crate::text::{decimal, push_decimal, push_signed_decimal, push_str, signed_decimal};

verus! {

#[verifier::external_type_specification]
#[verifier::external_body]
pub struct ExWebDriverError(WebDriverError);

/// The text of a WebDriver error.
/// Calls `WebDriverError`'s `to_string`; nothing is stated of the text.
#[verifier::external_body]
fn webdriver_error_text(error: &WebDriverError) -> String {
    error.to_string()
}

/// Kinds of navigation failures.
#[derive(Debug, Clone, Copy, PartialEq, Eq, Structural)]
pub enum NavigationErrorType {
    /// URL is malformed or invalid
    InvalidUrl,
    /// Network error (DNS, connection refused, etc.)
    NetworkError,
    /// HTTP error with the given status code
    HttpError(u16),
    /// SSL/TLS certificate error
    CertificateError,
    /// Timeout during navigation
    Timeout,
    /// Navigation was blocked
    Blocked,
    /// Unknown navigation failure
    Unknown,
}

/// The text of a navigation failure.
pub open spec fn navigation_text(t: NavigationErrorType) -> Seq<char> {
    match t {
        NavigationErrorType::InvalidUrl => "Invalid URL"@,
        NavigationErrorType::NetworkError => "Network error"@,
        NavigationErrorType::HttpError(code) => "HTTP error "@ + decimal(code as nat),
        NavigationErrorType::CertificateError => "Certificate error"@,
        NavigationErrorType::Timeout => "Navigation timeout"@,
        NavigationErrorType::Blocked => "Navigation blocked"@,
        NavigationErrorType::Unknown => "Unknown navigation error"@,
    }
}

impl NavigationErrorType {
    /// Appends the failure's text to `out`.
    pub fn write_text(&self, out: &mut String)
        ensures
            final(out)@ == old(out)@ + navigation_text(*self),
    {
        match self {
            NavigationErrorType::InvalidUrl => push_str(out, "Invalid URL"),
            NavigationErrorType::NetworkError => push_str(out, "Network error"),
            NavigationErrorType::HttpError(code) => {
                push_str(out, "HTTP error ");
                push_decimal(out, *code as u64);
            },
            NavigationErrorType::CertificateError => push_str(out, "Certificate error"),
            NavigationErrorType::Timeout => push_str(out, "Navigation timeout"),
            NavigationErrorType::Blocked => push_str(out, "Navigation blocked"),
            NavigationErrorType::Unknown => push_str(out, "Unknown navigation error"),
        }
    }

    /// The failure as it is displayed.
    pub fn to_display_string(&self) -> (s: String)
        ensures
            s@ == navigation_text(*self),
    {
        let mut s = String::new();
        self.write_text(&mut s);
        s
    }
}

/// Errors of browser operations.
#[derive(Debug)]
pub enum BrowserError {
    /// Failed to connect to a WebDriver server.
    ConnectionFailed { url: String, source: String },
    /// A WebDriver server returned an error.
    WebDriverError { error: Box<WebDriverError>, context: Option<String> },
    /// A browser session is invalid or expired.
    InvalidSession { session_id: Option<String>, reason: String },
    /// An operation timed out.
    Timeout { operation: String, duration_secs: u64 },
    /// The browser pool is exhausted or unavailable.
    PoolExhausted { pool_size: usize, active_connections: usize },
    /// A configuration is invalid.
    Configuration { message: String, field: Option<String> },
    /// A browser process operation failed.
    ProcessError { operation: String, exit_code: Option<i32>, message: String },
    /// An element interaction failed.
    ElementError { operation: String, selector: Option<String>, reason: String },
    /// A navigation failed.
    NavigationError { url: String, error_type: NavigationErrorType, details: Option<String> },
    /// A script execution failed.
    ScriptError { script: String, message: String },
    /// A resource could not be had (file not found, download failed, etc.).
    ResourceError { resource_type: String, identifier: String, reason: String },
    /// A capability was refused.
    CapabilityError { capability: String, value: String, reason: String },
    /// A browser operation failed.
    OperationFailed { operation: String, message: String },
}

/// `prefix + s + suffix` when `s` is present, nothing otherwise.
pub open spec fn optional_part(prefix: Seq<char>, s: Option<String>, suffix: Seq<char>) -> Seq<char> {
    match s {
        Some(x) => prefix + x@ + suffix,
        None => Seq::empty(),
    }
}

/// The text of a browser error, except for the WebDriver error itself.
pub open spec fn browser_error_text(e: BrowserError) -> Seq<char> {
    match e {
        BrowserError::ConnectionFailed { url, source } =>
            "Failed to connect to WebDriver server at '"@ + url@ + "': "@ + source@,
        BrowserError::WebDriverError { error, context } =>
            "WebDriver error"@ + optional_part(" during "@, context, ""@) + ": "@,
        BrowserError::InvalidSession { session_id, reason } =>
            "Invalid browser session"@ + optional_part(" '"@, session_id, "'"@) + ": "@ + reason@,
        BrowserError::Timeout { operation, duration_secs } =>
            "Operation '"@ + operation@ + "' timed out after "@ + decimal(duration_secs as nat) + " seconds"@,
        BrowserError::PoolExhausted { pool_size, active_connections } =>
            "Browser pool exhausted: "@ + decimal(active_connections as nat) + "/"@ + decimal(pool_size as nat)
                + " connections active"@,
        BrowserError::Configuration { message, field } =>
            "Configuration error"@ + optional_part(" in '"@, field, "'"@) + ": "@ + message@,
        BrowserError::ProcessError { operation, exit_code, message } =>
            "Process '"@ + operation@ + "' failed"@ + match exit_code {
                Some(c) => " with exit code "@ + signed_decimal(c as int),
                None => Seq::empty(),
            } + ": "@ + message@,
        BrowserError::ElementError { operation, selector, reason } =>
            "Element operation '"@ + operation@ + "' failed"@ + optional_part(" on selector '"@, selector, "'"@)
                + ": "@ + reason@,
        BrowserError::NavigationError { url, error_type, details } =>
            "Navigation to '"@ + url@ + "' failed: "@ + navigation_text(error_type)
                + optional_part(" ("@, details, ")"@),
        BrowserError::ScriptError { script, message } =>
            "Script execution failed: "@ + message@ + "\nScript: "@ + script@,
        BrowserError::ResourceError { resource_type, identifier, reason } =>
            "Resource error for "@ + resource_type@ + " '"@ + identifier@ + "': "@ + reason@,
        BrowserError::CapabilityError { capability, value, reason } =>
            "Capability '"@ + capability@ + "' error with value '"@ + value@ + "': "@ + reason@,
        BrowserError::OperationFailed { operation, message } =>
            "Operation '"@ + operation@ + "' failed: "@ + message@,
    }
}

/// The category name of a browser error.
pub open spec fn browser_error_category(e: BrowserError) -> Seq<char> {
    match e {
        BrowserError::ConnectionFailed { .. } => "connection"@,
        BrowserError::WebDriverError { .. } => "webdriver"@,
        BrowserError::InvalidSession { .. } => "session"@,
        BrowserError::Timeout { .. } => "timeout"@,
        BrowserError::PoolExhausted { .. } => "pool"@,
        BrowserError::Configuration { .. } => "config"@,
        BrowserError::ProcessError { .. } => "process"@,
        BrowserError::ElementError { .. } => "element"@,
        BrowserError::NavigationError { .. } => "navigation"@,
        BrowserError::ScriptError { .. } => "script"@,
        BrowserError::ResourceError { .. } => "resource"@,
        BrowserError::CapabilityError { .. } => "capability"@,
        BrowserError::OperationFailed { .. } => "operation"@,
    }
}

/// Whether retrying may help: connection, timeout, pool, resource and generic
/// operation failures, and navigation failures caused by the network, a
/// timeout or a server error (status 500 to 599).
pub open spec fn browser_error_retryable(e: BrowserError) -> bool {
    match e {
        BrowserError::ConnectionFailed { .. } => true,
        BrowserError::WebDriverError { .. } => false,
        BrowserError::InvalidSession { .. } => false,
        BrowserError::Timeout { .. } => true,
        BrowserError::PoolExhausted { .. } => true,
        BrowserError::Configuration { .. } => false,
        BrowserError::ProcessError { .. } => false,
        BrowserError::ElementError { .. } => false,
        BrowserError::NavigationError { error_type, .. } => match error_type {
            NavigationErrorType::NetworkError => true,
            NavigationErrorType::Timeout => true,
            NavigationErrorType::HttpError(code) => 500 <= code <= 599,
            _ => false,
        },
        BrowserError::ScriptError { .. } => false,
        BrowserError::ResourceError { .. } => true,
        BrowserError::CapabilityError { .. } => false,
        BrowserError::OperationFailed { .. } => true,
    }
}

/// Which browser errors are worth retrying: connection failures, timeouts,
/// an exhausted pool, resource failures and generic operation failures;
/// navigation failures exactly when the network failed, the navigation
/// timed out, or the server answered with a status from 500 to 599; no
/// other error.
pub proof fn lemma_retryable(e: BrowserError)
    ensures
        e matches BrowserError::NavigationError { error_type, .. } ==> (browser_error_retryable(e) <==> (
            error_type is NetworkError || error_type is Timeout
            || (error_type matches NavigationErrorType::HttpError(c) && 500 <= c <= 599))),
        (e is ConnectionFailed || e is Timeout || e is PoolExhausted || e is ResourceError
            || e is OperationFailed) ==> browser_error_retryable(e),
        (e is WebDriverError || e is InvalidSession || e is Configuration || e is ProcessError
            || e is ElementError || e is ScriptError || e is CapabilityError) ==> !browser_error_retryable(e),
{
}

/// How browser errors map to the framework's kinds: connection and
/// navigation failures are HTTP errors, timeouts are timeouts, element and
/// script failures are the worker's, resource failures are I/O, and all
/// the others are the backend's.
pub proof fn lemma_error_kinds(e: BrowserError)
    ensures
        (e is ConnectionFailed || e is NavigationError) <==> browser_error_kind(e) == ErrorKind::Http,
        e is Timeout <==> browser_error_kind(e) == ErrorKind::Timeout,
        (e is ElementError || e is ScriptError) <==> browser_error_kind(e) == ErrorKind::Worker,
        e is ResourceError <==> browser_error_kind(e) == ErrorKind::Io,
        (e is WebDriverError || e is InvalidSession || e is PoolExhausted || e is Configuration
            || e is ProcessError || e is CapabilityError || e is OperationFailed)
            <==> browser_error_kind(e) == ErrorKind::Backend,
{
}

/// The framework error kind of a browser error.
pub open spec fn browser_error_kind(e: BrowserError) -> ErrorKind {
    match e {
        BrowserError::ConnectionFailed { .. } => ErrorKind::Http,
        BrowserError::WebDriverError { .. } => ErrorKind::Backend,
        BrowserError::InvalidSession { .. } => ErrorKind::Backend,
        BrowserError::Timeout { .. } => ErrorKind::Timeout,
        BrowserError::PoolExhausted { .. } => ErrorKind::Backend,
        BrowserError::Configuration { .. } => ErrorKind::Backend,
        BrowserError::ProcessError { .. } => ErrorKind::Backend,
        BrowserError::ElementError { .. } => ErrorKind::Worker,
        BrowserError::NavigationError { .. } => ErrorKind::Http,
        BrowserError::ScriptError { .. } => ErrorKind::Worker,
        BrowserError::ResourceError { .. } => ErrorKind::Io,
        BrowserError::CapabilityError { .. } => ErrorKind::Backend,
        BrowserError::OperationFailed { .. } => ErrorKind::Backend,
    }
}

/// Appends `prefix + s + suffix` to `out` when `s` is present.
fn push_optional(out: &mut String, prefix: &str, s: &Option<String>, suffix: &str)
    ensures
        final(out)@ == old(out)@ + optional_part(prefix@, *s, suffix@),
{
    match s {
        Some(x) => {
            push_str(out, prefix);
            push_str(out, x.as_str());
            push_str(out, suffix);
        },
        None => {
            assert(old(out)@ + Seq::<char>::empty() == old(out)@);
        },
    }
}

impl BrowserError {
    /// Creates a connection failure.
    pub fn connection_failed(url: &str, source: &str) -> (e: BrowserError)
        ensures
            e matches BrowserError::ConnectionFailed { url: u, source: s } && u@ == url@ && s@ == source@,
    {
        BrowserError::ConnectionFailed { url: String::from_str(url), source: String::from_str(source) }
    }

    /// Creates a WebDriver error with optional context.
    pub fn webdriver(error: WebDriverError, context: Option<String>) -> (e: BrowserError)
        ensures
            e matches BrowserError::WebDriverError { error: x, context: c } && *x == error && c == context,
    {
        BrowserError::WebDriverError { error: Box::new(error), context }
    }

    /// Creates an invalid session error.
    pub fn invalid_session(session_id: Option<String>, reason: &str) -> (e: BrowserError)
        ensures
            e matches BrowserError::InvalidSession { session_id: s, reason: r } && s == session_id && r@ == reason@,
    {
        BrowserError::InvalidSession { session_id, reason: String::from_str(reason) }
    }

    /// Creates a timeout error.
    pub fn timeout(operation: &str, duration_secs: u64) -> (e: BrowserError)
        ensures
            e matches BrowserError::Timeout { operation: o, duration_secs: d } && o@ == operation@ && d == duration_secs,
    {
        BrowserError::Timeout { operation: String::from_str(operation), duration_secs }
    }

    /// Creates a pool exhausted error.
    pub fn pool_exhausted(pool_size: usize, active_connections: usize) -> (e: BrowserError)
        ensures
            e == (BrowserError::PoolExhausted { pool_size, active_connections }),
    {
        BrowserError::PoolExhausted { pool_size, active_connections }
    }

    /// Creates a configuration error.
    pub fn configuration(message: &str, field: Option<String>) -> (e: BrowserError)
        ensures
            e matches BrowserError::Configuration { message: m, field: f } && m@ == message@ && f == field,
    {
        BrowserError::Configuration { message: String::from_str(message), field }
    }

    /// Creates a process error.
    pub fn process_error(operation: &str, exit_code: Option<i32>, message: &str) -> (e: BrowserError)
        ensures
            e matches BrowserError::ProcessError { operation: o, exit_code: c, message: m }
                && o@ == operation@ && c == exit_code && m@ == message@,
    {
        BrowserError::ProcessError {
            operation: String::from_str(operation),
            exit_code,
            message: String::from_str(message),
        }
    }

    /// Creates an element error.
    pub fn element_error(operation: &str, selector: Option<String>, reason: &str) -> (e: BrowserError)
        ensures
            e matches BrowserError::ElementError { operation: o, selector: s, reason: r }
                && o@ == operation@ && s == selector && r@ == reason@,
    {
        BrowserError::ElementError {
            operation: String::from_str(operation),
            selector,
            reason: String::from_str(reason),
        }
    }

    /// Creates a navigation error.
    pub fn navigation_error(url: &str, error_type: NavigationErrorType, details: Option<String>) -> (e: BrowserError)
        ensures
            e matches BrowserError::NavigationError { url: u, error_type: t, details: d }
                && u@ == url@ && t == error_type && d == details,
    {
        BrowserError::NavigationError { url: String::from_str(url), error_type, details }
    }

    /// Creates a script error.
    pub fn javascript_error(script: &str, error: &str) -> (e: BrowserError)
        ensures
            e matches BrowserError::ScriptError { script: s, message: m } && s@ == script@ && m@ == error@,
    {
        BrowserError::ScriptError { script: String::from_str(script), message: String::from_str(error) }
    }

    /// Creates a resource error.
    pub fn resource_error(resource_type: &str, identifier: &str, reason: &str) -> (e: BrowserError)
        ensures
            e matches BrowserError::ResourceError { resource_type: t, identifier: i, reason: r }
                && t@ == resource_type@ && i@ == identifier@ && r@ == reason@,
    {
        BrowserError::ResourceError {
            resource_type: String::from_str(resource_type),
            identifier: String::from_str(identifier),
            reason: String::from_str(reason),
        }
    }

    /// Creates a capability error.
    pub fn capability_error(capability: &str, value: &str, reason: &str) -> (e: BrowserError)
        ensures
            e matches BrowserError::CapabilityError { capability: c, value: v, reason: r }
                && c@ == capability@ && v@ == value@ && r@ == reason@,
    {
        BrowserError::CapabilityError {
            capability: String::from_str(capability),
            value: String::from_str(value),
            reason: String::from_str(reason),
        }
    }

    /// Creates an operation failed error.
    pub fn operation_failed(operation: &str, message: &str) -> (e: BrowserError)
        ensures
            e matches BrowserError::OperationFailed { operation: o, message: m } && o@ == operation@ && m@ == message@,
    {
        BrowserError::OperationFailed { operation: String::from_str(operation), message: String::from_str(message) }
    }

    /// A navigation error of an unknown URL.
    pub fn from_navigation(error_type: NavigationErrorType) -> (e: BrowserError)
        ensures
            e matches BrowserError::NavigationError { url: u, error_type: t, details: d }
                && u@ == "unknown"@ && t == error_type && d is None,
    {
        BrowserError::NavigationError { url: String::from_str("unknown"), error_type, details: None }
    }

    /// A WebDriver error without context.
    pub fn from_webdriver(error: WebDriverError) -> (e: BrowserError)
        ensures
            e matches BrowserError::WebDriverError { error: x, context: c } && *x == error && c is None,
    {
        BrowserError::WebDriverError { error: Box::new(error), context: None }
    }

    /// Returns the error category for grouping similar errors.
    pub fn category(&self) -> (c: &'static str)
        ensures
            c@ == browser_error_category(*self),
    {
        match self {
            BrowserError::ConnectionFailed { .. } => "connection",
            BrowserError::WebDriverError { .. } => "webdriver",
            BrowserError::InvalidSession { .. } => "session",
            BrowserError::Timeout { .. } => "timeout",
            BrowserError::PoolExhausted { .. } => "pool",
            BrowserError::Configuration { .. } => "config",
            BrowserError::ProcessError { .. } => "process",
            BrowserError::ElementError { .. } => "element",
            BrowserError::NavigationError { .. } => "navigation",
            BrowserError::ScriptError { .. } => "script",
            BrowserError::ResourceError { .. } => "resource",
            BrowserError::CapabilityError { .. } => "capability",
            BrowserError::OperationFailed { .. } => "operation",
        }
    }

    /// Returns whether this error is generally retryable.
    pub fn is_retryable(&self) -> (r: bool)
        ensures
            r == browser_error_retryable(*self),
    {
        match self {
            BrowserError::ConnectionFailed { .. } => true,
            BrowserError::WebDriverError { .. } => false,
            BrowserError::InvalidSession { .. } => false,
            BrowserError::Timeout { .. } => true,
            BrowserError::PoolExhausted { .. } => true,
            BrowserError::Configuration { .. } => false,
            BrowserError::ProcessError { .. } => false,
            BrowserError::ElementError { .. } => false,
            BrowserError::NavigationError { error_type, .. } => match error_type {
                NavigationErrorType::NetworkError => true,
                NavigationErrorType::Timeout => true,
                NavigationErrorType::HttpError(code) => 500 <= *code && *code <= 599,
                _ => false,
            },
            BrowserError::ScriptError { .. } => false,
            BrowserError::ResourceError { .. } => true,
            BrowserError::CapabilityError { .. } => false,
            BrowserError::OperationFailed { .. } => true,
        }
    }

    /// Returns the framework error kind of this error.
    pub fn error_kind(&self) -> (k: ErrorKind)
        ensures
            k == browser_error_kind(*self),
    {
        match self {
            BrowserError::ConnectionFailed { .. } => ErrorKind::Http,
            BrowserError::WebDriverError { .. } => ErrorKind::Backend,
            BrowserError::InvalidSession { .. } => ErrorKind::Backend,
            BrowserError::Timeout { .. } => ErrorKind::Timeout,
            BrowserError::PoolExhausted { .. } => ErrorKind::Backend,
            BrowserError::Configuration { .. } => ErrorKind::Backend,
            BrowserError::ProcessError { .. } => ErrorKind::Backend,
            BrowserError::ElementError { .. } => ErrorKind::Worker,
            BrowserError::NavigationError { .. } => ErrorKind::Http,
            BrowserError::ScriptError { .. } => ErrorKind::Worker,
            BrowserError::ResourceError { .. } => ErrorKind::Io,
            BrowserError::CapabilityError { .. } => ErrorKind::Backend,
            BrowserError::OperationFailed { .. } => ErrorKind::Backend,
        }
    }

    /// The error as it is displayed. For a WebDriver error, the text of the
    /// WebDriver error itself follows the part that the contract states.
    pub fn to_display_string(&self) -> (s: String)
        ensures
            self is WebDriverError ==> s@.subrange(0, browser_error_text(*self).len() as int) == browser_error_text(*self)
                && browser_error_text(*self).len() <= s@.len(),
            !(self is WebDriverError) ==> s@ == browser_error_text(*self),
    {
        let mut s = String::new();
        match self {
            BrowserError::ConnectionFailed { url, source } => {
                push_str(&mut s, "Failed to connect to WebDriver server at '");
                push_str(&mut s, url.as_str());
                push_str(&mut s, "': ");
                push_str(&mut s, source.as_str());
            },
            BrowserError::WebDriverError { error, context } => {
                push_str(&mut s, "WebDriver error");
                push_optional(&mut s, " during ", context, "");
                push_str(&mut s, ": ");
                let ghost head = s@;
                assert(head =~= browser_error_text(*self));
                let text = webdriver_error_text(error);
                push_str(&mut s, text.as_str());
                assert(s@.subrange(0, head.len() as int) =~= head);
            },
            BrowserError::InvalidSession { session_id, reason } => {
                push_str(&mut s, "Invalid browser session");
                push_optional(&mut s, " '", session_id, "'");
                push_str(&mut s, ": ");
                push_str(&mut s, reason.as_str());
            },
            BrowserError::Timeout { operation, duration_secs } => {
                push_str(&mut s, "Operation '");
                push_str(&mut s, operation.as_str());
                push_str(&mut s, "' timed out after ");
                push_decimal(&mut s, *duration_secs);
                push_str(&mut s, " seconds");
            },
            BrowserError::PoolExhausted { pool_size, active_connections } => {
                push_str(&mut s, "Browser pool exhausted: ");
                push_decimal(&mut s, *active_connections as u64);
                push_str(&mut s, "/");
                push_decimal(&mut s, *pool_size as u64);
                push_str(&mut s, " connections active");
            },
            BrowserError::Configuration { message, field } => {
                push_str(&mut s, "Configuration error");
                push_optional(&mut s, " in '", field, "'");
                push_str(&mut s, ": ");
                push_str(&mut s, message.as_str());
            },
            BrowserError::ProcessError { operation, exit_code, message } => {
                push_str(&mut s, "Process '");
                push_str(&mut s, operation.as_str());
                push_str(&mut s, "' failed");
                match exit_code {
                    Some(c) => {
                        push_str(&mut s, " with exit code ");
                        push_signed_decimal(&mut s, *c as i64);
                    },
                    None => {},
                }
                push_str(&mut s, ": ");
                push_str(&mut s, message.as_str());
            },
            BrowserError::ElementError { operation, selector, reason } => {
                push_str(&mut s, "Element operation '");
                push_str(&mut s, operation.as_str());
                push_str(&mut s, "' failed");
                push_optional(&mut s, " on selector '", selector, "'");
                push_str(&mut s, ": ");
                push_str(&mut s, reason.as_str());
            },
            BrowserError::NavigationError { url, error_type, details } => {
                push_str(&mut s, "Navigation to '");
                push_str(&mut s, url.as_str());
                push_str(&mut s, "' failed: ");
                error_type.write_text(&mut s);
                push_optional(&mut s, " (", details, ")");
            },
            BrowserError::ScriptError { script, message } => {
                push_str(&mut s, "Script execution failed: ");
                push_str(&mut s, message.as_str());
                push_str(&mut s, "\nScript: ");
                push_str(&mut s, script.as_str());
            },
            BrowserError::ResourceError { resource_type, identifier, reason } => {
                push_str(&mut s, "Resource error for ");
                push_str(&mut s, resource_type.as_str());
                push_str(&mut s, " '");
                push_str(&mut s, identifier.as_str());
                push_str(&mut s, "': ");
                push_str(&mut s, reason.as_str());
            },
            BrowserError::CapabilityError { capability, value, reason } => {
                push_str(&mut s, "Capability '");
                push_str(&mut s, capability.as_str());
                push_str(&mut s, "' error with value '");
                push_str(&mut s, value.as_str());
                push_str(&mut s, "': ");
                push_str(&mut s, reason.as_str());
            },
            BrowserError::OperationFailed { operation, message } => {
                push_str(&mut s, "Operation '");
                push_str(&mut s, operation.as_str());
                push_str(&mut s, "' failed: ");
                push_str(&mut s, message.as_str());
            },
        }
        s
    }

    /// The framework error for this error: its kind, with the displayed text as message.
    pub fn into_error(self) -> (e: Error)
        ensures
            e@.kind == browser_error_kind(self),
            e@.source is None,
            e@.query is None,
            !(self is WebDriverError) ==> e@.message == browser_error_text(self),
    {
        let kind = self.error_kind();
        let text = self.to_display_string();
        Error::with_message(kind, text)
    }
}

/// Errors of configuration values.
#[derive(Debug)]
pub enum ConfigError {
    /// Invalid URL provided in configuration
    InvalidUrl { message: String },
    /// Invalid timeout value provided in configuration
    InvalidTimeout { message: String },
    /// Invalid pool configuration provided
    InvalidPool { message: String },
    /// Configuration validation failed
    Validation { message: String },
}

/// The text of a configuration error.
pub open spec fn config_error_text(e: ConfigError) -> Seq<char> {
    match e {
        ConfigError::InvalidUrl { message } => "Invalid URL: "@ + message@,
        ConfigError::InvalidTimeout { message } => "Invalid timeout: "@ + message@,
        ConfigError::InvalidPool { message } => "Invalid pool configuration: "@ + message@,
        ConfigError::Validation { message } => "Validation error: "@ + message@,
    }
}

impl ConfigError {
    /// The error as it is displayed.
    pub fn to_display_string(&self) -> (s: String)
        ensures
            s@ == config_error_text(*self),
    {
        let mut s = String::new();
        match self {
            ConfigError::InvalidUrl { message } => {
                push_str(&mut s, "Invalid URL: ");
                push_str(&mut s, message.as_str());
            },
            ConfigError::InvalidTimeout { message } => {
                push_str(&mut s, "Invalid timeout: ");
                push_str(&mut s, message.as_str());
            },
            ConfigError::InvalidPool { message } => {
                push_str(&mut s, "Invalid pool configuration: ");
                push_str(&mut s, message.as_str());
            },
            ConfigError::Validation { message } => {
                push_str(&mut s, "Validation error: ");
                push_str(&mut s, message.as_str());
            },
        }
        s
    }

    /// The framework error for this error: a backend error with the displayed text.
    pub fn into_error(self) -> (e: Error)
        ensures
            e@ == (ErrorView { kind: ErrorKind::Backend, message: config_error_text(self), source: None, query: None }),
    {
        let text = self.to_display_string();
        Error::with_message(ErrorKind::Backend, text)
    }
}

} // verus!
