//! How a browser connection turns a request into a response: timeouts, what
//! to extract, and the size limit.
use vstd::prelude::*;

use crate::browser::config::BuilderError;
use crate::browser::pool::or_default;
use crate::text::{all_white_space, trims_to_empty};
use crate::time::{nanos_per_sec, Duration};

verus! {

/// Configuration of browser behavior.
#[derive(Debug)]
pub struct BrowserBehaviorConfig {
    /// Timeout for page navigation
    pub navigation_timeout: Duration,
    /// Timeout for element finding operations
    pub element_timeout: Duration,
    /// Whether to extract full HTML content
    pub extract_html: bool,
    /// Whether to extract text content
    pub extract_text: bool,
    /// Whether to execute JavaScript for dynamic content
    pub enable_javascript: bool,
    /// Whether to wait for page load completion
    pub wait_for_load: bool,
    /// Custom user agent string
    pub user_agent: Option<String>,
    /// Maximum response body size in bytes
    pub max_response_size: usize,
    /// Whether to capture screenshots on errors
    pub capture_screenshots: bool,
}

/// The default behavior: a 30-second navigation timeout, a 10-second element
/// timeout, HTML extracted and text not, JavaScript enabled, waiting for the
/// page load, no user agent, a 10 MiB response limit, no screenshots.
pub open spec fn default_behavior(c: BrowserBehaviorConfig) -> bool {
    &&& c.navigation_timeout@ == 30 * nanos_per_sec()
    &&& c.element_timeout@ == 10 * nanos_per_sec()
    &&& c.extract_html
    &&& !c.extract_text
    &&& c.enable_javascript
    &&& c.wait_for_load
    &&& c.user_agent is None
    &&& c.max_response_size == 10 * 1024 * 1024
    &&& !c.capture_screenshots
}

impl BrowserBehaviorConfig {
    /// The default behavior, as [`default_behavior`] says.
    pub fn new() -> (c: BrowserBehaviorConfig)
        ensures
            default_behavior(c),
    {
        BrowserBehaviorConfig {
            navigation_timeout: Duration::from_secs(30),
            element_timeout: Duration::from_secs(10),
            extract_html: true,
            extract_text: false,
            enable_javascript: true,
            wait_for_load: true,
            user_agent: None,
            max_response_size: 10 * 1024 * 1024,
            capture_screenshots: false,
        }
    }

    /// Starts building a behavior configuration.
    pub fn builder() -> (b: BrowserBehaviorConfigBuilder)
        ensures
            b.navigation_timeout is None && b.element_timeout is None && b.extract_html is None
                && b.extract_text is None && b.enable_javascript is None && b.wait_for_load is None
                && b.user_agent is None && b.max_response_size is None && b.capture_screenshots is None,
    {
        BrowserBehaviorConfigBuilder {
            navigation_timeout: None,
            element_timeout: None,
            extract_html: None,
            extract_text: None,
            enable_javascript: None,
            wait_for_load: None,
            user_agent: None,
            max_response_size: None,
            capture_screenshots: None,
        }
    }
}

impl Default for BrowserBehaviorConfig {
    fn default() -> (c: BrowserBehaviorConfig)
        ensures
            default_behavior(c),
    {
        BrowserBehaviorConfig::new()
    }
}

/// Builds a [`BrowserBehaviorConfig`]; unset fields take the defaults.
#[derive(Debug)]
pub struct BrowserBehaviorConfigBuilder {
    pub navigation_timeout: Option<Duration>,
    pub element_timeout: Option<Duration>,
    pub extract_html: Option<bool>,
    pub extract_text: Option<bool>,
    pub enable_javascript: Option<bool>,
    pub wait_for_load: Option<bool>,
    pub user_agent: Option<Option<String>>,
    pub max_response_size: Option<usize>,
    pub capture_screenshots: Option<bool>,
}

/// The message of the first check that a behavior builder's set fields fail,
/// or `None`: whole seconds in both timeouts, a positive size limit, a user
/// agent that is not blank.
pub open spec fn behavior_problem(b: BrowserBehaviorConfigBuilder) -> Option<Seq<char>> {
    if b.navigation_timeout matches Some(t) && t@ / nanos_per_sec() == 0 {
        Some("Navigation timeout must be greater than 0"@)
    } else if b.element_timeout matches Some(t) && t@ / nanos_per_sec() == 0 {
        Some("Element timeout must be greater than 0"@)
    } else if b.max_response_size == Some(0usize) {
        Some("Max response size must be greater than 0"@)
    } else if b.user_agent matches Some(Some(ua)) && all_white_space(ua@) {
        Some("User agent cannot be empty"@)
    } else {
        None
    }
}

impl BrowserBehaviorConfigBuilder {
    /// Sets the navigation timeout.
    pub fn with_navigation_timeout(self, timeout: Duration) -> (b: BrowserBehaviorConfigBuilder)
        ensures
            b == (BrowserBehaviorConfigBuilder { navigation_timeout: Some(timeout), ..self }),
    {
        BrowserBehaviorConfigBuilder { navigation_timeout: Some(timeout), ..self }
    }

    /// Sets the element timeout.
    pub fn with_element_timeout(self, timeout: Duration) -> (b: BrowserBehaviorConfigBuilder)
        ensures
            b == (BrowserBehaviorConfigBuilder { element_timeout: Some(timeout), ..self }),
    {
        BrowserBehaviorConfigBuilder { element_timeout: Some(timeout), ..self }
    }

    /// Sets whether full HTML is extracted.
    pub fn with_extract_html(self, on: bool) -> (b: BrowserBehaviorConfigBuilder)
        ensures
            b == (BrowserBehaviorConfigBuilder { extract_html: Some(on), ..self }),
    {
        BrowserBehaviorConfigBuilder { extract_html: Some(on), ..self }
    }

    /// Sets whether text content is extracted.
    pub fn with_extract_text(self, on: bool) -> (b: BrowserBehaviorConfigBuilder)
        ensures
            b == (BrowserBehaviorConfigBuilder { extract_text: Some(on), ..self }),
    {
        BrowserBehaviorConfigBuilder { extract_text: Some(on), ..self }
    }

    /// Sets whether JavaScript is executed.
    pub fn with_enable_javascript(self, on: bool) -> (b: BrowserBehaviorConfigBuilder)
        ensures
            b == (BrowserBehaviorConfigBuilder { enable_javascript: Some(on), ..self }),
    {
        BrowserBehaviorConfigBuilder { enable_javascript: Some(on), ..self }
    }

    /// Sets whether to wait for the page load.
    pub fn with_wait_for_load(self, on: bool) -> (b: BrowserBehaviorConfigBuilder)
        ensures
            b == (BrowserBehaviorConfigBuilder { wait_for_load: Some(on), ..self }),
    {
        BrowserBehaviorConfigBuilder { wait_for_load: Some(on), ..self }
    }

    /// Sets the user agent.
    pub fn with_user_agent(self, user_agent: &str) -> (b: BrowserBehaviorConfigBuilder)
        ensures
            b.user_agent matches Some(Some(ua)) && ua@ == user_agent@,
            b.navigation_timeout == self.navigation_timeout && b.element_timeout == self.element_timeout
                && b.extract_html == self.extract_html && b.extract_text == self.extract_text
                && b.enable_javascript == self.enable_javascript && b.wait_for_load == self.wait_for_load
                && b.max_response_size == self.max_response_size
                && b.capture_screenshots == self.capture_screenshots,
    {
        BrowserBehaviorConfigBuilder { user_agent: Some(Some(String::from_str(user_agent))), ..self }
    }

    /// Sets the maximum response body size in bytes.
    pub fn with_max_response_size(self, size: usize) -> (b: BrowserBehaviorConfigBuilder)
        ensures
            b == (BrowserBehaviorConfigBuilder { max_response_size: Some(size), ..self }),
    {
        BrowserBehaviorConfigBuilder { max_response_size: Some(size), ..self }
    }

    /// Sets whether screenshots are captured on errors.
    pub fn with_capture_screenshots(self, on: bool) -> (b: BrowserBehaviorConfigBuilder)
        ensures
            b == (BrowserBehaviorConfigBuilder { capture_screenshots: Some(on), ..self }),
    {
        BrowserBehaviorConfigBuilder { capture_screenshots: Some(on), ..self }
    }

    /// Builds the configuration: the set fields are checked as
    /// [`behavior_problem`] says; unset fields take the defaults of
    /// [`default_behavior`].
    pub fn build(self) -> (r: Result<BrowserBehaviorConfig, BuilderError>)
        ensures
            match behavior_problem(self) {
                Some(m) => r matches Err(BuilderError::ValidationError(t)) && t@ == m,
                None => r matches Ok(c) && {
                    &&& c.navigation_timeout@ == match self.navigation_timeout { Some(t) => t@, None => 30 * nanos_per_sec() }
                    &&& c.element_timeout@ == match self.element_timeout { Some(t) => t@, None => 10 * nanos_per_sec() }
                    &&& c.extract_html == or_default(self.extract_html, true)
                    &&& c.extract_text == or_default(self.extract_text, false)
                    &&& c.enable_javascript == or_default(self.enable_javascript, true)
                    &&& c.wait_for_load == or_default(self.wait_for_load, true)
                    &&& match self.user_agent { Some(x) => c.user_agent == x, None => c.user_agent is None }
                    &&& c.max_response_size == or_default(self.max_response_size, 10485760usize)
                    &&& c.capture_screenshots == or_default(self.capture_screenshots, false)
                },
            },
    {
        match self.navigation_timeout {
            Some(t) => {
                if t.as_secs() == 0 {
                    return Err(BuilderError::ValidationError(String::from_str("Navigation timeout must be greater than 0")));
                }
            },
            None => {},
        }
        match self.element_timeout {
            Some(t) => {
                if t.as_secs() == 0 {
                    return Err(BuilderError::ValidationError(String::from_str("Element timeout must be greater than 0")));
                }
            },
            None => {},
        }
        match self.max_response_size {
            Some(n) => {
                if n == 0 {
                    return Err(BuilderError::ValidationError(String::from_str("Max response size must be greater than 0")));
                }
            },
            None => {},
        }
        match &self.user_agent {
            Some(Some(ua)) => {
                if trims_to_empty(ua.as_str()) {
                    return Err(BuilderError::ValidationError(String::from_str("User agent cannot be empty")));
                }
            },
            _ => {},
        }
        let d = BrowserBehaviorConfig::new();
        Ok(BrowserBehaviorConfig {
            navigation_timeout: match self.navigation_timeout {
                Some(t) => t,
                None => d.navigation_timeout,
            },
            element_timeout: match self.element_timeout {
                Some(t) => t,
                None => d.element_timeout,
            },
            extract_html: match self.extract_html {
                Some(x) => x,
                None => d.extract_html,
            },
            extract_text: match self.extract_text {
                Some(x) => x,
                None => d.extract_text,
            },
            enable_javascript: match self.enable_javascript {
                Some(x) => x,
                None => d.enable_javascript,
            },
            wait_for_load: match self.wait_for_load {
                Some(x) => x,
                None => d.wait_for_load,
            },
            user_agent: match self.user_agent {
                Some(x) => x,
                None => None,
            },
            max_response_size: match self.max_response_size {
                Some(x) => x,
                None => d.max_response_size,
            },
            capture_screenshots: match self.capture_screenshots {
                Some(x) => x,
                None => d.capture_screenshots,
            },
        })
    }
}

} // verus!
