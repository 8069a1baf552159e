//! WebDriver endpoint configuration, pool configuration and their builders.
use vstd::prelude::*;

use crate::browser::browser_type::{browser_type_text, BrowserType};
use crate::browser::json::{Capabilities, Json};
use crate::error::{error_text, Error, ErrorKind, ErrorView};
use crate::text::{bool_str, bool_text, has_prefix, push_str, starts_with, strip_trailing, trim_end_char};
use crate::time::Duration;

verus! {

/// The error of building a configuration: a required field was not set, or
/// the values do not pass validation.
#[derive(Debug)]
pub enum BuilderError {
    /// The named field is required and was not set.
    UninitializedField(String),
    /// Validation failed with this message.
    ValidationError(String),
}

/// The text of a builder error.
pub open spec fn builder_error_text(e: BuilderError) -> Seq<char> {
    match e {
        BuilderError::UninitializedField(f) => "`"@ + f@ + "` must be initialized"@,
        BuilderError::ValidationError(m) => m@,
    }
}

impl BuilderError {
    /// The error as it is displayed.
    pub fn to_display_string(&self) -> (s: String)
        ensures
            s@ == builder_error_text(*self),
    {
        let mut s = String::new();
        match self {
            BuilderError::UninitializedField(f) => {
                push_str(&mut s, "`");
                push_str(&mut s, f.as_str());
                push_str(&mut s, "` must be initialized");
            },
            BuilderError::ValidationError(m) => {
                push_str(&mut s, m.as_str());
            },
        }
        s
    }
}

/// The message of the first check that a WebDriver endpoint fails, or `None`
/// when it passes: the URL must be non-empty and start with `http://` or
/// `https://`, both timeouts must be non-zero.
pub open spec fn endpoint_problem(url: Seq<char>, connect_timeout: nat, request_timeout: nat) -> Option<Seq<char>> {
    if url.len() == 0 {
        Some("WebDriver URL cannot be empty"@)
    } else if !has_prefix(url, "http://"@) && !has_prefix(url, "https://"@) {
        Some("Invalid WebDriver URL format: "@ + url)
    } else if connect_timeout == 0 {
        Some("Connect timeout must be greater than zero"@)
    } else if request_timeout == 0 {
        Some("Request timeout must be greater than zero"@)
    } else {
        None
    }
}

/// The validation result for a problem message: a backend error with the message.
pub open spec fn problem_result(p: Option<Seq<char>>, r: Result<(), Error>) -> bool {
    match p {
        None => r is Ok,
        Some(m) => r matches Err(e) && e@ == (ErrorView { kind: ErrorKind::Backend, message: m, source: None, query: None }),
    }
}

/// Checks a WebDriver endpoint, as [`endpoint_problem`] says.
fn check_endpoint(url: &str, connect_timeout: Duration, request_timeout: Duration) -> (r: Result<(), Error>)
    ensures
        problem_result(endpoint_problem(url@, connect_timeout@, request_timeout@), r),
{
    if url.unicode_len() == 0 {
        return Err(Error::new(ErrorKind::Backend, "WebDriver URL cannot be empty"));
    }
    if !starts_with(url, "http://") && !starts_with(url, "https://") {
        let mut m = String::from_str("Invalid WebDriver URL format: ");
        push_str(&mut m, url);
        return Err(Error::with_message(ErrorKind::Backend, m));
    }
    if connect_timeout.is_zero() {
        return Err(Error::new(ErrorKind::Backend, "Connect timeout must be greater than zero"));
    }
    if request_timeout.is_zero() {
        return Err(Error::new(ErrorKind::Backend, "Request timeout must be greater than zero"));
    }
    Ok(())
}

/// The message of the first check that a builder's set fields fail: only the
/// fields that are set are checked.
pub open spec fn builder_endpoint_problem(
    url: Option<Seq<char>>,
    connect_timeout: Option<nat>,
    request_timeout: Option<nat>,
) -> Option<Seq<char>> {
    match url {
        Some(u) if u.len() == 0 => Some("WebDriver URL cannot be empty"@),
        Some(u) if !has_prefix(u, "http://"@) && !has_prefix(u, "https://"@) => Some(
            "Invalid WebDriver URL format: "@ + u,
        ),
        _ => if connect_timeout == Some(0nat) {
            Some("Connect timeout must be greater than zero"@)
        } else if request_timeout == Some(0nat) {
            Some("Request timeout must be greater than zero"@)
        } else {
            None
        },
    }
}

/// The view of an optional string.
pub open spec fn opt_str(s: Option<String>) -> Option<Seq<char>> {
    match s {
        Some(x) => Some(x@),
        None => None,
    }
}

/// The view of an optional span.
pub open spec fn opt_span(d: Option<Duration>) -> Option<nat> {
    match d {
        Some(x) => Some(x@),
        None => None,
    }
}

/// Checks the set fields of an endpoint builder, as [`builder_endpoint_problem`] says.
fn check_builder_endpoint(
    url: &Option<String>,
    connect_timeout: Option<Duration>,
    request_timeout: Option<Duration>,
) -> (r: Result<(), Error>)
    ensures
        problem_result(builder_endpoint_problem(opt_str(*url), opt_span(connect_timeout), opt_span(request_timeout)), r),
{
    match url {
        Some(u) => {
            if u.as_str().unicode_len() == 0 {
                return Err(Error::new(ErrorKind::Backend, "WebDriver URL cannot be empty"));
            }
            if !starts_with(u.as_str(), "http://") && !starts_with(u.as_str(), "https://") {
                let mut m = String::from_str("Invalid WebDriver URL format: ");
                push_str(&mut m, u.as_str());
                return Err(Error::with_message(ErrorKind::Backend, m));
            }
        },
        None => {},
    }
    match connect_timeout {
        Some(t) => {
            if t.is_zero() {
                return Err(Error::new(ErrorKind::Backend, "Connect timeout must be greater than zero"));
            }
        },
        None => {},
    }
    match request_timeout {
        Some(t) => {
            if t.is_zero() {
                return Err(Error::new(ErrorKind::Backend, "Request timeout must be greater than zero"));
            }
        },
        None => {},
    }
    Ok(())
}

/// The builder error for a failed validation: the validation error's displayed text.
pub open spec fn validation_failure(m: Seq<char>) -> Seq<char> {
    error_text(ErrorKind::Backend, m)
}

/// Configuration of a WebDriver connection.
#[derive(Debug)]
pub struct BrowserConfig {
    /// The WebDriver server URL (e.g., <http://127.0.0.1:4444>)
    pub url: String,
    /// WebDriver capabilities
    pub capabilities: Capabilities,
    /// Connection timeout
    pub connect_timeout: Duration,
    /// Request timeout for WebDriver commands
    pub request_timeout: Duration,
    /// Whether the browser process is managed (spawned) or an existing server is used
    pub managed: bool,
}

/// `c` is the configuration of `url` with the default settings: no
/// capabilities, a 30-second connect timeout and a 60-second request timeout.
pub open spec fn default_config(c: BrowserConfig, url: Seq<char>, managed: bool) -> bool {
    &&& c.url@ == url
    &&& c.capabilities@ == Map::<Seq<char>, Json>::empty()
    &&& c.connect_timeout@ == 30 * 1_000_000_000
    &&& c.request_timeout@ == 60 * 1_000_000_000
    &&& c.managed == managed
}

impl BrowserConfig {
    /// A configuration for `url` with default values: no capabilities, a
    /// 30-second connect timeout, a 60-second request timeout, unmanaged.
    pub fn new(url: &str) -> (c: BrowserConfig)
        ensures
            default_config(c, url@, false),
    {
        BrowserConfig {
            url: String::from_str(url),
            capabilities: Capabilities::new(),
            connect_timeout: Duration::from_secs(30),
            request_timeout: Duration::from_secs(60),
            managed: false,
        }
    }

    /// Starts building a configuration.
    pub fn builder() -> (b: BrowserConfigBuilder)
        ensures
            b.url is None && b.capabilities is None && b.connect_timeout is None
                && b.request_timeout is None && b.managed is None,
    {
        BrowserConfigBuilder {
            url: None,
            capabilities: None,
            connect_timeout: None,
            request_timeout: None,
            managed: None,
        }
    }

    /// Sets a WebDriver capability.
    pub fn with_capability(self, key: &str, value: Json) -> (c: BrowserConfig)
        ensures
            c.capabilities@ == self.capabilities@.insert(key@, value),
            c.url == self.url && c.connect_timeout == self.connect_timeout
                && c.request_timeout == self.request_timeout && c.managed == self.managed,
    {
        let mut caps = self.capabilities;
        caps.insert(String::from_str(key), value);
        BrowserConfig { capabilities: caps, ..self }
    }

    /// Sets multiple WebDriver capabilities.
    pub fn with_capabilities(self, capabilities: Capabilities) -> (c: BrowserConfig)
        ensures
            c.capabilities@ == self.capabilities@.union_prefer_right(capabilities@),
            c.url == self.url && c.connect_timeout == self.connect_timeout
                && c.request_timeout == self.request_timeout && c.managed == self.managed,
    {
        let mut caps = self.capabilities;
        caps.extend(capabilities);
        BrowserConfig { capabilities: caps, ..self }
    }

    /// Sets the connection timeout.
    pub fn with_connect_timeout(self, timeout: Duration) -> (c: BrowserConfig)
        ensures
            c == (BrowserConfig { connect_timeout: timeout, ..self }),
    {
        BrowserConfig { connect_timeout: timeout, ..self }
    }

    /// Marks the connection as managed: the browser process is spawned.
    pub fn managed(self) -> (c: BrowserConfig)
        ensures
            c == (BrowserConfig { managed: true, ..self }),
    {
        BrowserConfig { managed: true, ..self }
    }

    /// Marks the connection as unmanaged: an existing WebDriver server is used.
    pub fn unmanaged(self) -> (c: BrowserConfig)
        ensures
            c == (BrowserConfig { managed: false, ..self }),
    {
        BrowserConfig { managed: false, ..self }
    }

    /// Validates the configuration: a non-empty `http://` or `https://` URL
    /// and non-zero timeouts.
    pub fn validate(&self) -> (r: Result<(), Error>)
        ensures
            problem_result(endpoint_problem(self.url@, self.connect_timeout@, self.request_timeout@), r),
    {
        check_endpoint(self.url.as_str(), self.connect_timeout, self.request_timeout)
    }

    /// Returns the WebDriver URL without trailing slashes.
    pub fn base_url(&self) -> (u: &str)
        ensures
            u@ == strip_trailing(self.url@, '/'),
    {
        trim_end_char(self.url.as_str(), '/')
    }

    /// The configuration as it is displayed: `Browser(url, managed: flag)`.
    pub fn to_display_string(&self) -> (s: String)
        ensures
            s@ == "Browser("@ + self.url@ + ", managed: "@ + bool_text(self.managed) + ")"@,
    {
        let mut s = String::from_str("Browser(");
        push_str(&mut s, self.url.as_str());
        push_str(&mut s, ", managed: ");
        push_str(&mut s, bool_str(self.managed));
        push_str(&mut s, ")");
        s
    }
}

impl Default for BrowserConfig {
    fn default() -> (c: BrowserConfig)
        ensures
            c.url@ == "http://127.0.0.1:4444"@,
            c.capabilities@ == Map::<Seq<char>, Json>::empty(),
            c.connect_timeout@ == 30 * 1_000_000_000,
            c.request_timeout@ == 60 * 1_000_000_000,
            !c.managed,
    {
        BrowserConfig::new("http://127.0.0.1:4444")
    }
}

/// Builds a [`BrowserConfig`]; the URL is required.
#[derive(Debug)]
pub struct BrowserConfigBuilder {
    pub url: Option<String>,
    pub capabilities: Option<Capabilities>,
    pub connect_timeout: Option<Duration>,
    pub request_timeout: Option<Duration>,
    pub managed: Option<bool>,
}

impl BrowserConfigBuilder {
    /// Sets the URL.
    pub fn with_url(self, url: &str) -> (b: BrowserConfigBuilder)
        ensures
            b.url matches Some(u) && u@ == url@,
            b.capabilities == self.capabilities && b.connect_timeout == self.connect_timeout
                && b.request_timeout == self.request_timeout && b.managed == self.managed,
    {
        BrowserConfigBuilder { url: Some(String::from_str(url)), ..self }
    }

    /// Sets the capabilities.
    pub fn with_capabilities(self, capabilities: Capabilities) -> (b: BrowserConfigBuilder)
        ensures
            b == (BrowserConfigBuilder { capabilities: Some(capabilities), ..self }),
    {
        BrowserConfigBuilder { capabilities: Some(capabilities), ..self }
    }

    /// Sets the connection timeout.
    pub fn with_connect_timeout(self, timeout: Duration) -> (b: BrowserConfigBuilder)
        ensures
            b == (BrowserConfigBuilder { connect_timeout: Some(timeout), ..self }),
    {
        BrowserConfigBuilder { connect_timeout: Some(timeout), ..self }
    }

    /// Sets the request timeout.
    pub fn with_request_timeout(self, timeout: Duration) -> (b: BrowserConfigBuilder)
        ensures
            b == (BrowserConfigBuilder { request_timeout: Some(timeout), ..self }),
    {
        BrowserConfigBuilder { request_timeout: Some(timeout), ..self }
    }

    /// Sets whether the connection is managed.
    pub fn with_managed(self, managed: bool) -> (b: BrowserConfigBuilder)
        ensures
            b == (BrowserConfigBuilder { managed: Some(managed), ..self }),
    {
        BrowserConfigBuilder { managed: Some(managed), ..self }
    }

    /// Builds the configuration: the set fields are validated first, then the
    /// URL is required; unset fields take their defaults (no capabilities, a
    /// 30-second connect timeout, a 60-second request timeout, unmanaged).
    pub fn build(self) -> (r: Result<BrowserConfig, BuilderError>)
        ensures
            match builder_endpoint_problem(opt_str(self.url), opt_span(self.connect_timeout), opt_span(self.request_timeout)) {
                Some(m) => r matches Err(BuilderError::ValidationError(t)) && t@ == validation_failure(m),
                None => match self.url {
                    None => r matches Err(BuilderError::UninitializedField(f)) && f@ == "url"@,
                    Some(u) => r matches Ok(c) && c.url == u
                        && (match self.capabilities {
                            Some(caps) => c.capabilities == caps,
                            None => c.capabilities@ == Map::<Seq<char>, Json>::empty(),
                        })
                        && c.connect_timeout@ == (match self.connect_timeout { Some(t) => t@, None => 30 * 1_000_000_000 })
                        && c.request_timeout@ == (match self.request_timeout { Some(t) => t@, None => 60 * 1_000_000_000 })
                        && c.managed == (match self.managed { Some(m) => m, None => false }),
                },
            },
    {
        match check_builder_endpoint(&self.url, self.connect_timeout, self.request_timeout) {
            Ok(()) => {},
            Err(e) => {
                return Err(BuilderError::ValidationError(e.to_display_string()));
            },
        }
        let url = match self.url {
            Some(u) => u,
            None => {
                return Err(BuilderError::UninitializedField(String::from_str("url")));
            },
        };
        let capabilities = match self.capabilities {
            Some(c) => c,
            None => Capabilities::new(),
        };
        let connect_timeout = match self.connect_timeout {
            Some(t) => t,
            None => Duration::from_secs(30),
        };
        let request_timeout = match self.request_timeout {
            Some(t) => t,
            None => Duration::from_secs(60),
        };
        let managed = match self.managed {
            Some(m) => m,
            None => false,
        };
        Ok(BrowserConfig { url, capabilities, connect_timeout, request_timeout, managed })
    }
}

/// Configuration of a WebDriver endpoint for a given browser.
#[derive(Debug)]
pub struct WebDriverConfig {
    /// The WebDriver server URL (e.g., "http://127.0.0.1:4444")
    pub url: String,
    /// Browser type and version requirements
    pub browser: BrowserType,
    /// WebDriver capabilities
    pub capabilities: Capabilities,
    /// Connection timeout
    pub connect_timeout: Duration,
    /// Request timeout for WebDriver commands
    pub request_timeout: Duration,
    /// Whether the browser process is managed (spawned) or an existing server is used
    pub managed: bool,
}

impl WebDriverConfig {
    /// A configuration for `url` with default values: Chrome, no
    /// capabilities, a 30-second connect timeout, a 60-second request
    /// timeout, unmanaged.
    pub fn new(url: &str) -> (c: WebDriverConfig)
        ensures
            c.url@ == url@,
            c.browser is Chrome,
            c.capabilities@ == Map::<Seq<char>, Json>::empty(),
            c.connect_timeout@ == 30 * 1_000_000_000,
            c.request_timeout@ == 60 * 1_000_000_000,
            !c.managed,
    {
        WebDriverConfig {
            url: String::from_str(url),
            browser: BrowserType::Chrome,
            capabilities: Capabilities::new(),
            connect_timeout: Duration::from_secs(30),
            request_timeout: Duration::from_secs(60),
            managed: false,
        }
    }

    /// Starts building a configuration.
    pub fn builder() -> (b: WebDriverConfigBuilder)
        ensures
            b.url is None && b.browser is None && b.capabilities is None && b.connect_timeout is None
                && b.request_timeout is None && b.managed is None,
    {
        WebDriverConfigBuilder {
            url: None,
            browser: None,
            capabilities: None,
            connect_timeout: None,
            request_timeout: None,
            managed: None,
        }
    }

    /// Sets a WebDriver capability.
    pub fn with_capability(self, key: &str, value: Json) -> (c: WebDriverConfig)
        ensures
            c.capabilities@ == self.capabilities@.insert(key@, value),
            c.url == self.url && c.browser == self.browser && c.connect_timeout == self.connect_timeout
                && c.request_timeout == self.request_timeout && c.managed == self.managed,
    {
        let mut caps = self.capabilities;
        caps.insert(String::from_str(key), value);
        WebDriverConfig { capabilities: caps, ..self }
    }

    /// Sets multiple WebDriver capabilities.
    pub fn with_capabilities(self, capabilities: Capabilities) -> (c: WebDriverConfig)
        ensures
            c.capabilities@ == self.capabilities@.union_prefer_right(capabilities@),
            c.url == self.url && c.browser == self.browser && c.connect_timeout == self.connect_timeout
                && c.request_timeout == self.request_timeout && c.managed == self.managed,
    {
        let mut caps = self.capabilities;
        caps.extend(capabilities);
        WebDriverConfig { capabilities: caps, ..self }
    }

    /// Sets the browser type.
    pub fn with_browser(self, browser: BrowserType) -> (c: WebDriverConfig)
        ensures
            c == (WebDriverConfig { browser, ..self }),
    {
        WebDriverConfig { browser, ..self }
    }

    /// Sets the connection timeout.
    pub fn with_connect_timeout(self, timeout: Duration) -> (c: WebDriverConfig)
        ensures
            c == (WebDriverConfig { connect_timeout: timeout, ..self }),
    {
        WebDriverConfig { connect_timeout: timeout, ..self }
    }

    /// Marks the connection as managed: the browser process is spawned.
    pub fn managed(self) -> (c: WebDriverConfig)
        ensures
            c == (WebDriverConfig { managed: true, ..self }),
    {
        WebDriverConfig { managed: true, ..self }
    }

    /// Marks the connection as unmanaged: an existing WebDriver server is used.
    pub fn unmanaged(self) -> (c: WebDriverConfig)
        ensures
            c == (WebDriverConfig { managed: false, ..self }),
    {
        WebDriverConfig { managed: false, ..self }
    }

    /// Validates the configuration: a non-empty `http://` or `https://` URL
    /// and non-zero timeouts.
    pub fn validate(&self) -> (r: Result<(), Error>)
        ensures
            problem_result(endpoint_problem(self.url@, self.connect_timeout@, self.request_timeout@), r),
    {
        check_endpoint(self.url.as_str(), self.connect_timeout, self.request_timeout)
    }

    /// Returns the WebDriver URL without trailing slashes.
    pub fn base_url(&self) -> (u: &str)
        ensures
            u@ == strip_trailing(self.url@, '/'),
    {
        trim_end_char(self.url.as_str(), '/')
    }

    /// The configuration as it is displayed: `WebDriver(url, browser, managed: flag)`.
    pub fn to_display_string(&self) -> (s: String)
        ensures
            s@ == "WebDriver("@ + self.url@ + ", "@ + browser_type_text(self.browser) + ", managed: "@
                + bool_text(self.managed) + ")"@,
    {
        let mut s = String::from_str("WebDriver(");
        push_str(&mut s, self.url.as_str());
        push_str(&mut s, ", ");
        self.browser.write_text(&mut s);
        push_str(&mut s, ", managed: ");
        push_str(&mut s, bool_str(self.managed));
        push_str(&mut s, ")");
        s
    }
}

impl Default for WebDriverConfig {
    fn default() -> (c: WebDriverConfig)
        ensures
            c.url@ == "http://127.0.0.1:4444"@,
            c.browser is Chrome,
            c.capabilities@ == Map::<Seq<char>, Json>::empty(),
            c.connect_timeout@ == 30 * 1_000_000_000,
            c.request_timeout@ == 60 * 1_000_000_000,
            !c.managed,
    {
        WebDriverConfig::new("http://127.0.0.1:4444")
    }
}

/// Builds a [`WebDriverConfig`]; the URL is required.
#[derive(Debug)]
pub struct WebDriverConfigBuilder {
    pub url: Option<String>,
    pub browser: Option<BrowserType>,
    pub capabilities: Option<Capabilities>,
    pub connect_timeout: Option<Duration>,
    pub request_timeout: Option<Duration>,
    pub managed: Option<bool>,
}

impl WebDriverConfigBuilder {
    /// Sets the URL.
    pub fn with_url(self, url: &str) -> (b: WebDriverConfigBuilder)
        ensures
            b.url matches Some(u) && u@ == url@,
            b.browser == self.browser && b.capabilities == self.capabilities
                && b.connect_timeout == self.connect_timeout && b.request_timeout == self.request_timeout
                && b.managed == self.managed,
    {
        WebDriverConfigBuilder { url: Some(String::from_str(url)), ..self }
    }

    /// Sets the browser type.
    pub fn with_browser(self, browser: BrowserType) -> (b: WebDriverConfigBuilder)
        ensures
            b == (WebDriverConfigBuilder { browser: Some(browser), ..self }),
    {
        WebDriverConfigBuilder { browser: Some(browser), ..self }
    }

    /// Sets the capabilities.
    pub fn with_capabilities(self, capabilities: Capabilities) -> (b: WebDriverConfigBuilder)
        ensures
            b == (WebDriverConfigBuilder { capabilities: Some(capabilities), ..self }),
    {
        WebDriverConfigBuilder { capabilities: Some(capabilities), ..self }
    }

    /// Sets the connection timeout.
    pub fn with_connect_timeout(self, timeout: Duration) -> (b: WebDriverConfigBuilder)
        ensures
            b == (WebDriverConfigBuilder { connect_timeout: Some(timeout), ..self }),
    {
        WebDriverConfigBuilder { connect_timeout: Some(timeout), ..self }
    }

    /// Sets the request timeout.
    pub fn with_request_timeout(self, timeout: Duration) -> (b: WebDriverConfigBuilder)
        ensures
            b == (WebDriverConfigBuilder { request_timeout: Some(timeout), ..self }),
    {
        WebDriverConfigBuilder { request_timeout: Some(timeout), ..self }
    }

    /// Sets whether the connection is managed.
    pub fn with_managed(self, managed: bool) -> (b: WebDriverConfigBuilder)
        ensures
            b == (WebDriverConfigBuilder { managed: Some(managed), ..self }),
    {
        WebDriverConfigBuilder { managed: Some(managed), ..self }
    }

    /// Builds the configuration: the set fields are validated first, then the
    /// URL is required; unset fields take their defaults (Chrome, no
    /// capabilities, a 30-second connect timeout, a 60-second request
    /// timeout, unmanaged).
    pub fn build(self) -> (r: Result<WebDriverConfig, BuilderError>)
        ensures
            match builder_endpoint_problem(opt_str(self.url), opt_span(self.connect_timeout), opt_span(self.request_timeout)) {
                Some(m) => r matches Err(BuilderError::ValidationError(t)) && t@ == validation_failure(m),
                None => match self.url {
                    None => r matches Err(BuilderError::UninitializedField(f)) && f@ == "url"@,
                    Some(u) => r matches Ok(c) && c.url == u
                        && (match self.browser {
                            Some(b) => c.browser == b,
                            None => c.browser is Chrome,
                        })
                        && (match self.capabilities {
                            Some(caps) => c.capabilities == caps,
                            None => c.capabilities@ == Map::<Seq<char>, Json>::empty(),
                        })
                        && c.connect_timeout@ == (match self.connect_timeout { Some(t) => t@, None => 30 * 1_000_000_000 })
                        && c.request_timeout@ == (match self.request_timeout { Some(t) => t@, None => 60 * 1_000_000_000 })
                        && c.managed == (match self.managed { Some(m) => m, None => false }),
                },
            },
    {
        match check_builder_endpoint(&self.url, self.connect_timeout, self.request_timeout) {
            Ok(()) => {},
            Err(e) => {
                return Err(BuilderError::ValidationError(e.to_display_string()));
            },
        }
        let url = match self.url {
            Some(u) => u,
            None => {
                return Err(BuilderError::UninitializedField(String::from_str("url")));
            },
        };
        let browser = match self.browser {
            Some(b) => b,
            None => BrowserType::Chrome,
        };
        let capabilities = match self.capabilities {
            Some(c) => c,
            None => Capabilities::new(),
        };
        let connect_timeout = match self.connect_timeout {
            Some(t) => t,
            None => Duration::from_secs(30),
        };
        let request_timeout = match self.request_timeout {
            Some(t) => t,
            None => Duration::from_secs(60),
        };
        let managed = match self.managed {
            Some(m) => m,
            None => false,
        };
        Ok(WebDriverConfig { url, browser, capabilities, connect_timeout, request_timeout, managed })
    }
}

/// What a builder builds passes validation: the builder checks the fields
/// that are set, and the default timeouts are not zero.
pub proof fn lemma_built_config_valid(url: Seq<char>, connect_timeout: Option<nat>, request_timeout: Option<nat>)
    requires
        builder_endpoint_problem(Some(url), connect_timeout, request_timeout) is None,
    ensures
        endpoint_problem(
            url,
            match connect_timeout { Some(t) => t, None => 30 * 1_000_000_000 },
            match request_timeout { Some(t) => t, None => 60 * 1_000_000_000 },
        ) is None,
{
}

} // verus!
