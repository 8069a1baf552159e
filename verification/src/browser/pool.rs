//! Configuration of the browser connection pool.
use vstd::prelude::*;

use crate::browser::config::{opt_span, problem_result, validation_failure, BuilderError};
use crate::error::{Error, ErrorKind};
use crate::time::Duration;

verus! {

/// The message of the first check that pool settings fail, or `None`: the
/// maximum size must be positive, the minimum size at most the maximum, the
/// acquire timeout non-zero.
pub open spec fn pool_problem(max_size: nat, min_size: nat, acquire_timeout: nat) -> Option<Seq<char>> {
    if max_size == 0 {
        Some("Pool max_size must be greater than zero"@)
    } else if min_size > max_size {
        Some("Pool min_size cannot be greater than max_size"@)
    } else if acquire_timeout == 0 {
        Some("Acquire timeout must be greater than zero"@)
    } else {
        None
    }
}

/// Checks the size limits of a pool: the maximum positive, the minimum at most the maximum.
pub fn check_pool_sizes(max_size: usize, min_size: usize) -> (r: Result<(), Error>)
    ensures
        problem_result(
            if max_size == 0 {
                Some("Pool max_size must be greater than zero"@)
            } else if min_size > max_size {
                Some("Pool min_size cannot be greater than max_size"@)
            } else {
                None
            },
            r,
        ),
{
    if max_size == 0 {
        return Err(Error::new(ErrorKind::Backend, "Pool max_size must be greater than zero"));
    }
    if min_size > max_size {
        return Err(Error::new(ErrorKind::Backend, "Pool min_size cannot be greater than max_size"));
    }
    Ok(())
}

/// Configuration of the browser connection pool.
#[derive(Debug, Clone, Copy, PartialEq, Eq, Structural)]
pub struct PoolConfig {
    /// Maximum number of browser instances in the pool
    pub max_size: usize,
    /// Minimum number of browser instances to keep alive
    pub min_size: usize,
    /// Timeout for acquiring a browser from the pool
    pub acquire_timeout: Duration,
    /// Maximum lifetime of a browser instance
    pub max_lifetime: Option<Duration>,
    /// Maximum idle time before recycling a browser
    pub max_idle_time: Option<Duration>,
    /// Health check interval for browser instances
    pub health_check_interval: Duration,
}

/// The default pool settings: at most 10 browsers, at least 1, a 30-second
/// acquire timeout, a one-hour lifetime, a five-minute idle time, a one-minute
/// health check interval.
pub open spec fn default_pool(c: PoolConfig) -> bool {
    &&& c.max_size == 10
    &&& c.min_size == 1
    &&& c.acquire_timeout@ == 30 * 1_000_000_000
    &&& c.max_lifetime matches Some(d) && d@ == 3600 * 1_000_000_000
    &&& c.max_idle_time matches Some(d) && d@ == 300 * 1_000_000_000
    &&& c.health_check_interval@ == 60 * 1_000_000_000
}

impl PoolConfig {
    /// The default pool settings, as [`default_pool`] says.
    pub fn new() -> (c: PoolConfig)
        ensures
            default_pool(c),
    {
        PoolConfig {
            max_size: 10,
            min_size: 1,
            acquire_timeout: Duration::from_secs(30),
            max_lifetime: Some(Duration::from_secs(3600)),
            max_idle_time: Some(Duration::from_secs(300)),
            health_check_interval: Duration::from_secs(60),
        }
    }

    /// Starts building pool settings.
    pub fn builder() -> (b: PoolConfigBuilder)
        ensures
            b.max_size is None && b.min_size is None && b.acquire_timeout is None
                && b.max_lifetime is None && b.max_idle_time is None && b.health_check_interval is None,
    {
        PoolConfigBuilder {
            max_size: None,
            min_size: None,
            acquire_timeout: None,
            max_lifetime: None,
            max_idle_time: None,
            health_check_interval: None,
        }
    }

    /// Validates the pool settings, as [`pool_problem`] says.
    pub fn validate(&self) -> (r: Result<(), Error>)
        ensures
            problem_result(pool_problem(self.max_size as nat, self.min_size as nat, self.acquire_timeout@), r),
    {
        match check_pool_sizes(self.max_size, self.min_size) {
            Ok(()) => {},
            Err(e) => {
                return Err(e);
            },
        }
        if self.acquire_timeout.is_zero() {
            return Err(Error::new(ErrorKind::Backend, "Acquire timeout must be greater than zero"));
        }
        Ok(())
    }

    /// Sets the maximum pool size.
    pub fn with_max_size(self, max_size: usize) -> (c: PoolConfig)
        ensures
            c == (PoolConfig { max_size, ..self }),
    {
        PoolConfig { max_size, ..self }
    }

    /// Sets the minimum pool size.
    pub fn with_min_size(self, min_size: usize) -> (c: PoolConfig)
        ensures
            c == (PoolConfig { min_size, ..self }),
    {
        PoolConfig { min_size, ..self }
    }

    /// Sets the acquire timeout.
    pub fn with_acquire_timeout(self, timeout: Duration) -> (c: PoolConfig)
        ensures
            c == (PoolConfig { acquire_timeout: timeout, ..self }),
    {
        PoolConfig { acquire_timeout: timeout, ..self }
    }

    /// Sets the maximum lifetime of a browser.
    pub fn with_max_lifetime(self, lifetime: Duration) -> (c: PoolConfig)
        ensures
            c == (PoolConfig { max_lifetime: Some(lifetime), ..self }),
    {
        PoolConfig { max_lifetime: Some(lifetime), ..self }
    }

    /// Sets the maximum idle time of a browser.
    pub fn with_max_idle_time(self, idle_time: Duration) -> (c: PoolConfig)
        ensures
            c == (PoolConfig { max_idle_time: Some(idle_time), ..self }),
    {
        PoolConfig { max_idle_time: Some(idle_time), ..self }
    }

    /// Sets the health check interval.
    pub fn with_health_check_interval(self, interval: Duration) -> (c: PoolConfig)
        ensures
            c == (PoolConfig { health_check_interval: interval, ..self }),
    {
        PoolConfig { health_check_interval: interval, ..self }
    }
}

impl Default for PoolConfig {
    fn default() -> (c: PoolConfig)
        ensures
            default_pool(c),
    {
        PoolConfig::new()
    }
}

/// Builds a [`PoolConfig`]; unset fields take the defaults.
#[derive(Debug, Clone, Copy)]
pub struct PoolConfigBuilder {
    pub max_size: Option<usize>,
    pub min_size: Option<usize>,
    pub acquire_timeout: Option<Duration>,
    pub max_lifetime: Option<Duration>,
    pub max_idle_time: Option<Duration>,
    pub health_check_interval: Option<Duration>,
}

/// The value of an optional setting, or its default.
pub open spec fn or_default<A>(x: Option<A>, d: A) -> A {
    match x {
        Some(v) => v,
        None => d,
    }
}

impl PoolConfigBuilder {
    /// Sets the maximum pool size.
    pub fn with_max_size(self, max_size: usize) -> (b: PoolConfigBuilder)
        ensures
            b == (PoolConfigBuilder { max_size: Some(max_size), ..self }),
    {
        PoolConfigBuilder { max_size: Some(max_size), ..self }
    }

    /// Sets the minimum pool size.
    pub fn with_min_size(self, min_size: usize) -> (b: PoolConfigBuilder)
        ensures
            b == (PoolConfigBuilder { min_size: Some(min_size), ..self }),
    {
        PoolConfigBuilder { min_size: Some(min_size), ..self }
    }

    /// Sets the acquire timeout.
    pub fn with_acquire_timeout(self, timeout: Duration) -> (b: PoolConfigBuilder)
        ensures
            b == (PoolConfigBuilder { acquire_timeout: Some(timeout), ..self }),
    {
        PoolConfigBuilder { acquire_timeout: Some(timeout), ..self }
    }

    /// Sets the maximum lifetime of a browser.
    pub fn with_max_lifetime(self, lifetime: Duration) -> (b: PoolConfigBuilder)
        ensures
            b == (PoolConfigBuilder { max_lifetime: Some(lifetime), ..self }),
    {
        PoolConfigBuilder { max_lifetime: Some(lifetime), ..self }
    }

    /// Sets the maximum idle time of a browser.
    pub fn with_max_idle_time(self, idle_time: Duration) -> (b: PoolConfigBuilder)
        ensures
            b == (PoolConfigBuilder { max_idle_time: Some(idle_time), ..self }),
    {
        PoolConfigBuilder { max_idle_time: Some(idle_time), ..self }
    }

    /// Sets the health check interval.
    pub fn with_health_check_interval(self, interval: Duration) -> (b: PoolConfigBuilder)
        ensures
            b == (PoolConfigBuilder { health_check_interval: Some(interval), ..self }),
    {
        PoolConfigBuilder { health_check_interval: Some(interval), ..self }
    }

    /// Builds the pool settings: the sizes (defaults 10 and 1) and a set
    /// acquire timeout are checked as [`pool_problem`] says; unset fields take
    /// the defaults of [`default_pool`].
    pub fn build(self) -> (r: Result<PoolConfig, BuilderError>)
        ensures
            match pool_problem(
                or_default(self.max_size, 10) as nat,
                or_default(self.min_size, 1) as nat,
                match self.acquire_timeout { Some(t) => t@, None => 1 },
            ) {
                Some(m) => r matches Err(BuilderError::ValidationError(t)) && t@ == validation_failure(m),
                None => r matches Ok(c) && {
                    &&& c.max_size == or_default(self.max_size, 10)
                    &&& c.min_size == or_default(self.min_size, 1)
                    &&& c.acquire_timeout@ == match self.acquire_timeout { Some(t) => t@, None => 30 * 1_000_000_000 }
                    &&& match self.max_lifetime {
                        Some(t) => c.max_lifetime == Some(t),
                        None => c.max_lifetime matches Some(d) && d@ == 3600 * 1_000_000_000,
                    }
                    &&& match self.max_idle_time {
                        Some(t) => c.max_idle_time == Some(t),
                        None => c.max_idle_time matches Some(d) && d@ == 300 * 1_000_000_000,
                    }
                    &&& c.health_check_interval@ == match self.health_check_interval {
                        Some(t) => t@,
                        None => 60 * 1_000_000_000,
                    }
                },
            },
    {
        let max_size = match self.max_size {
            Some(n) => n,
            None => 10,
        };
        let min_size = match self.min_size {
            Some(n) => n,
            None => 1,
        };
        match check_pool_sizes(max_size, min_size) {
            Ok(()) => {},
            Err(e) => {
                return Err(BuilderError::ValidationError(e.to_display_string()));
            },
        }
        match self.acquire_timeout {
            Some(t) => {
                if t.is_zero() {
                    let e = Error::new(ErrorKind::Backend, "Acquire timeout must be greater than zero");
                    return Err(BuilderError::ValidationError(e.to_display_string()));
                }
            },
            None => {},
        }
        let defaults = PoolConfig::new();
        Ok(PoolConfig {
            max_size,
            min_size,
            acquire_timeout: match self.acquire_timeout {
                Some(t) => t,
                None => defaults.acquire_timeout,
            },
            max_lifetime: match self.max_lifetime {
                Some(t) => Some(t),
                None => defaults.max_lifetime,
            },
            max_idle_time: match self.max_idle_time {
                Some(t) => Some(t),
                None => defaults.max_idle_time,
            },
            health_check_interval: match self.health_check_interval {
                Some(t) => t,
                None => defaults.health_check_interval,
            },
        })
    }
}

/// Pool settings that the builder builds pass validation: the builder checks
/// the sizes with their defaults and a set acquire timeout, and the default
/// acquire timeout is not zero.
pub proof fn lemma_built_pool_valid(max_size: nat, min_size: nat, acquire_timeout: Option<nat>)
    requires
        pool_problem(max_size, min_size, match acquire_timeout { Some(t) => t, None => 1 }) is None,
    ensures
        pool_problem(max_size, min_size, match acquire_timeout { Some(t) => t, None => 30 * 1_000_000_000 }) is None,
{
}

} // verus!
