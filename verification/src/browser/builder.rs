//! The builder of the browser backend: WebDriver endpoints and the settings of
//! the pool that holds the browsers.
use vstd::prelude::*;

use crate::browser::config::{default_config, endpoint_problem, BrowserConfig};
use crate::browser::manager::{fresh_manager, placed, BrowserManager};
use crate::error::{Error, ErrorKind, ErrorView};
use crate::text::{decimal, push_decimal, push_str};
use crate::time::Duration;

verus! {

/// Collects the endpoints and pool settings of a browser backend.
#[derive(Debug)]
pub struct BrowserBuilder {
    /// WebDriver endpoints, in the order they were added.
    pub configs: Vec<BrowserConfig>,
    /// Maximum pool size.
    pub max_size: Option<usize>,
    /// Minimum pool size.
    pub min_size: Option<usize>,
    /// Timeout for acquiring a browser from the pool.
    pub acquire_timeout: Option<Duration>,
    /// Maximum lifetime of a browser.
    pub max_lifetime: Option<Duration>,
    /// Maximum idle time of a browser.
    pub max_idle_time: Option<Duration>,
    /// Whether browsers are health-checked.
    pub health_checks: Option<bool>,
    /// Attempts per browser creation.
    pub max_retry_attempts: Option<usize>,
    /// Whether endpoints go unvalidated, when added and when built.
    pub skip_validation: bool,
}

/// What the pool of a browser backend is built from: the manager that
/// creates the browsers, the pool's size and how long a caller waits for a
/// browser.
#[derive(Debug)]
pub struct BrowserPlan {
    pub manager: BrowserManager,
    pub max_size: usize,
    pub wait_timeout: Option<Duration>,
}

/// The first problem among `configs`, checked in order.
pub open spec fn first_problem(configs: Seq<BrowserConfig>) -> Option<Seq<char>>
    decreases configs.len(),
{
    if configs.len() == 0 {
        None
    } else {
        match first_problem(configs.drop_last()) {
            Some(p) => Some(p),
            None => config_problem(configs.last()),
        }
    }
}

/// The problem with one endpoint, if any.
pub open spec fn config_problem(c: BrowserConfig) -> Option<Seq<char>> {
    endpoint_problem(c.url@, c.connect_timeout@, c.request_timeout@)
}

/// A backend error with `message`.
pub open spec fn backend_error(message: Seq<char>) -> ErrorView {
    ErrorView { kind: ErrorKind::Backend, message, source: None, query: None }
}

/// The text of an optional size as it is displayed: `Some(n)` or `None`.
pub open spec fn optional_size_text(n: Option<usize>) -> Seq<char> {
    match n {
        Some(x) => "Some("@ + decimal(x as nat) + ")"@,
        None => "None"@,
    }
}

/// The problem with the pool settings, if any: the maximum size (10 when
/// unset) must be positive and the minimum size (1 when unset) must not
/// exceed it.
pub open spec fn pool_settings_problem(max_size: Option<usize>, min_size: Option<usize>) -> Option<Seq<char>> {
    let max = match max_size { Some(x) => x, None => 10 };
    let min = match min_size { Some(x) => x, None => 1 };
    if max == 0 {
        Some("Pool max_size must be greater than zero"@)
    } else if min > max {
        Some("Pool min_size cannot be greater than max_size"@)
    } else {
        None
    }
}

impl BrowserBuilder {
    /// A builder with no endpoints and no settings.
    pub fn new() -> (b: BrowserBuilder)
        ensures
            b.configs@.len() == 0,
            b.max_size is None && b.min_size is None && b.acquire_timeout is None,
            b.max_lifetime is None && b.max_idle_time is None,
            b.health_checks is None && b.max_retry_attempts is None,
            !b.skip_validation,
    {
        BrowserBuilder {
            configs: Vec::new(),
            max_size: None,
            min_size: None,
            acquire_timeout: None,
            max_lifetime: None,
            max_idle_time: None,
            health_checks: None,
            max_retry_attempts: None,
            skip_validation: false,
        }
    }

    /// Adds an existing WebDriver server at `addr` with default settings.
    pub fn with_unmanaged(self, addr: &str) -> (b: BrowserBuilder)
        ensures
            b.configs@.len() == self.configs@.len() + 1,
            b.configs@.drop_last() == self.configs@,
            default_config(b.configs@.last(), addr@, false),
            b == (BrowserBuilder { configs: b.configs, ..self }),
    {
        let mut b = self;
        b.configs.push(BrowserConfig::new(addr).unmanaged());
        b
    }

    /// Adds a WebDriver server at `addr` whose browser process the pool spawns.
    pub fn with_managed(self, addr: &str) -> (b: BrowserBuilder)
        ensures
            b.configs@.len() == self.configs@.len() + 1,
            b.configs@.drop_last() == self.configs@,
            default_config(b.configs@.last(), addr@, true),
            b == (BrowserBuilder { configs: b.configs, ..self }),
    {
        let mut b = self;
        b.configs.push(BrowserConfig::new(addr).managed());
        b
    }

    /// Adds an endpoint; unless validation is off, an endpoint that fails
    /// [`BrowserConfig::validate`] is refused with its error.
    pub fn with_config(self, config: BrowserConfig) -> (r: Result<BrowserBuilder, Error>)
        ensures
            !self.skip_validation && config_problem(config) is Some ==> (r matches Err(e)
                && e@ == backend_error(config_problem(config)->0)),
            self.skip_validation || config_problem(config) is None ==> (r matches Ok(b)
                && b.configs@ == self.configs@.push(config)
                && b == (BrowserBuilder { configs: b.configs, ..self })),
    {
        if !self.skip_validation {
            let v = config.validate();
            match v {
                Err(e) => {
                    return Err(e);
                },
                Ok(()) => {},
            }
        }
        let mut b = self;
        b.configs.push(config);
        Ok(b)
    }

    /// Adds endpoints in order; unless validation is off, the first endpoint
    /// that fails validation refuses them all with its error.
    pub fn with_configs(self, configs: Vec<BrowserConfig>) -> (r: Result<BrowserBuilder, Error>)
        ensures
            !self.skip_validation && first_problem(configs@) is Some ==> (r matches Err(e)
                && e@ == backend_error(first_problem(configs@)->0)),
            self.skip_validation || first_problem(configs@) is None ==> (r matches Ok(b)
                && b.configs@ == self.configs@ + configs@
                && b == (BrowserBuilder { configs: b.configs, ..self })),
    {
        if !self.skip_validation {
            let v = validate_all(&configs);
            match v {
                Err(e) => {
                    return Err(e);
                },
                Ok(()) => {},
            }
        }
        let mut b = self;
        let mut more = configs;
        b.configs.append(&mut more);
        Ok(b)
    }

    /// Sets the maximum pool size.
    pub fn with_max_pool_size(self, max_size: usize) -> (b: BrowserBuilder)
        ensures
            b == (BrowserBuilder { max_size: Some(max_size), ..self }),
    {
        BrowserBuilder { max_size: Some(max_size), ..self }
    }

    /// Sets the minimum pool size.
    pub fn with_min_pool_size(self, min_size: usize) -> (b: BrowserBuilder)
        ensures
            b == (BrowserBuilder { min_size: Some(min_size), ..self }),
    {
        BrowserBuilder { min_size: Some(min_size), ..self }
    }

    /// Sets the timeout for acquiring a browser from the pool.
    pub fn with_acquire_timeout(self, timeout: Duration) -> (b: BrowserBuilder)
        ensures
            b == (BrowserBuilder { acquire_timeout: Some(timeout), ..self }),
    {
        BrowserBuilder { acquire_timeout: Some(timeout), ..self }
    }

    /// Sets the maximum lifetime of a browser.
    pub fn with_max_lifetime(self, lifetime: Duration) -> (b: BrowserBuilder)
        ensures
            b == (BrowserBuilder { max_lifetime: Some(lifetime), ..self }),
    {
        BrowserBuilder { max_lifetime: Some(lifetime), ..self }
    }

    /// Sets the maximum idle time of a browser.
    pub fn with_max_idle_time(self, idle_time: Duration) -> (b: BrowserBuilder)
        ensures
            b == (BrowserBuilder { max_idle_time: Some(idle_time), ..self }),
    {
        BrowserBuilder { max_idle_time: Some(idle_time), ..self }
    }

    /// Enables or disables health checks of pooled browsers.
    pub fn with_health_checks(self, enabled: bool) -> (b: BrowserBuilder)
        ensures
            b == (BrowserBuilder { health_checks: Some(enabled), ..self }),
    {
        BrowserBuilder { health_checks: Some(enabled), ..self }
    }

    /// Sets the attempts per browser creation, at least 1.
    pub fn with_max_retry_attempts(self, attempts: usize) -> (b: BrowserBuilder)
        ensures
            b == (BrowserBuilder { max_retry_attempts: Some(if attempts < 1 { 1 } else { attempts }), ..self }),
    {
        let a = if attempts < 1 { 1 } else { attempts };
        BrowserBuilder { max_retry_attempts: Some(a), ..self }
    }

    /// Turns off validation of endpoints, both when they are added and when
    /// the backend is built.
    pub fn without_config_validation(self) -> (b: BrowserBuilder)
        ensures
            b == (BrowserBuilder { skip_validation: true, ..self }),
    {
        BrowserBuilder { skip_validation: true, ..self }
    }

    /// The builder as it is displayed:
    /// `BrowserBuilder(configs: N, max_size: Some(M))` or `... max_size: None)`.
    pub fn to_display_string(&self) -> (s: String)
        ensures
            s@ == "BrowserBuilder(configs: "@ + decimal(self.configs@.len()) + ", max_size: "@
                + optional_size_text(self.max_size) + ")"@,
    {
        let mut s = String::from_str("BrowserBuilder(configs: ");
        push_decimal(&mut s, self.configs.len() as u64);
        push_str(&mut s, ", max_size: ");
        match self.max_size {
            Some(x) => {
                push_str(&mut s, "Some(");
                push_decimal(&mut s, x as u64);
                push_str(&mut s, ")");
            },
            None => {
                push_str(&mut s, "None");
            },
        }
        push_str(&mut s, ")");
        s
    }

    /// Checks the settings and gathers what the pool is built from. There
    /// must be an endpoint; unless validation is off, every endpoint must pass
    /// validation (the first that fails gives its error); the pool sizes must
    /// fit. The plan holds the endpoints under identifiers 1, 2, ... in order, the health-check and
    /// retry settings (health checks on and 3 attempts when unset), the
    /// maximum size (10 when unset) and the acquire timeout.
    pub fn build(self) -> (r: Result<BrowserPlan, Error>)
        ensures
            self.configs@.len() == 0 ==> (r matches Err(e)
                && e@ == backend_error("At least one WebDriver configuration is required"@)),
            self.configs@.len() > 0 && !self.skip_validation && first_problem(self.configs@) is Some ==> (
                r matches Err(e) && e@ == backend_error(first_problem(self.configs@)->0)),
            self.configs@.len() > 0 && (self.skip_validation || first_problem(self.configs@) is None)
                && pool_settings_problem(self.max_size, self.min_size) is Some ==> (
                r matches Err(e) && e@ == backend_error(pool_settings_problem(self.max_size, self.min_size)->0)),
            self.configs@.len() > 0 && (self.skip_validation || first_problem(self.configs@) is None)
                && pool_settings_problem(self.max_size, self.min_size) is None ==> (
                r matches Ok(p) && {
                    &&& p.max_size == (match self.max_size { Some(x) => x, None => 10 })
                    &&& p.wait_timeout == self.acquire_timeout
                    &&& p.manager@.health_check_enabled == (match self.health_checks { Some(h) => h, None => true })
                    &&& p.manager@.max_retry_attempts == (match self.max_retry_attempts { Some(a) => a, None => 3 })
                    &&& self.configs@.len() < u64::MAX ==> placed(
                        fresh_manager(),
                        p.manager@,
                        self.configs@,
                        self.configs@.len() as int,
                    )
                }),
    {
        if self.configs.len() == 0 {
            return Err(Error::new(ErrorKind::Backend, "At least one WebDriver configuration is required"));
        }
        if !self.skip_validation {
            let v = validate_all(&self.configs);
            match v {
                Err(e) => {
                    return Err(e);
                },
                Ok(()) => {},
            }
        }
        let max_size = match self.max_size {
            Some(x) => x,
            None => 10,
        };
        let min_size = match self.min_size {
            Some(x) => x,
            None => 1,
        };
        if max_size == 0 {
            return Err(Error::new(ErrorKind::Backend, "Pool max_size must be greater than zero"));
        }
        if min_size > max_size {
            return Err(Error::new(ErrorKind::Backend, "Pool min_size cannot be greater than max_size"));
        }
        let mut manager = BrowserManager::new().with_configs(self.configs);
        match self.health_checks {
            Some(enabled) => {
                manager = manager.with_health_checks(enabled);
            },
            None => {},
        }
        match self.max_retry_attempts {
            Some(attempts) => {
                manager = manager.with_max_retry_attempts(attempts);
            },
            None => {},
        }
        Ok(BrowserPlan { manager, max_size, wait_timeout: self.acquire_timeout })
    }
}

impl Default for BrowserBuilder {
    fn default() -> (b: BrowserBuilder)
        ensures
            b.configs@.len() == 0,
            b.max_size is None && b.min_size is None && b.acquire_timeout is None,
            b.max_lifetime is None && b.max_idle_time is None,
            b.health_checks is None && b.max_retry_attempts is None,
            !b.skip_validation,
    {
        BrowserBuilder::new()
    }
}

/// Validates endpoints in order; the first that fails validation gives its
/// error.
pub fn validate_all(configs: &Vec<BrowserConfig>) -> (r: Result<(), Error>)
    ensures
        match first_problem(configs@) {
            Some(p) => r matches Err(e) && e@ == backend_error(p),
            None => r is Ok,
        },
{
    let mut i: usize = 0;
    while i < configs.len()
        invariant
            i <= configs@.len(),
            first_problem(configs@.take(i as int)) is None,
        decreases configs@.len() - i,
    {
        assert(configs@.take(i + 1).drop_last() == configs@.take(i as int));
        let v = configs[i].validate();
        match v {
            Err(e) => {
                proof {
                    assert(configs@.take(i + 1).last() == configs@[i as int]);
                    assert(first_problem(configs@.take(i + 1)) == config_problem(configs@[i as int]));
                    lemma_first_problem_prefix(configs@, i + 1);
                }
                return Err(e);
            },
            Ok(()) => {},
        }
        i = i + 1;
    }
    assert(configs@.take(configs@.len() as int) == configs@);
    Ok(())
}

/// The error when the pool itself could not be built, given the pool's own
/// description of the failure.
pub fn pool_build_error(reason: &str) -> (e: Error)
    ensures
        e@ == backend_error("Failed to create browser connection pool: "@ + reason@),
{
    let mut m = String::from_str("Failed to create browser connection pool: ");
    push_str(&mut m, reason);
    Error::with_message(ErrorKind::Backend, m)
}

/// When a prefix of the endpoints has a problem, so have they all, and it is
/// the same problem.
proof fn lemma_first_problem_prefix(configs: Seq<BrowserConfig>, n: int)
    requires
        0 < n <= configs.len(),
        first_problem(configs.take(n)) is Some,
    ensures
        first_problem(configs) == first_problem(configs.take(n)),
    decreases configs.len() - n,
{
    if n < configs.len() {
        assert(configs.take(n + 1).drop_last() == configs.take(n));
        lemma_first_problem_prefix(configs, n + 1);
    } else {
        assert(configs.take(n) == configs);
    }
}

} // verus!
