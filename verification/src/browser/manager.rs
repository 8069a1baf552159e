//! The settings of the browser pool's manager: the WebDriver endpoints it
//! creates browsers for, health checks, and retries of failed creations.
use std::collections::HashMap;
use vstd::prelude::*;

use crate::browser::config::BrowserConfig;
use crate::error::{Error, ErrorKind, ErrorView};
use crate::text::{decimal, push_decimal, push_str};
use crate::time::Duration;

verus! {

/// What to do after a failed attempt to create a browser.
#[derive(Debug)]
pub enum RetryStep {
    /// Wait this long, then try again.
    Retry(Duration),
    /// Stop with this error.
    GiveUp(Error),
}

/// Creates browsers for a set of WebDriver endpoints, each under an
/// identifier handed out in increasing order from 1.
#[derive(Debug)]
pub struct BrowserManager {
    configs: HashMap<u64, BrowserConfig>,
    next_id: u64,
    health_check_enabled: bool,
    max_retry_attempts: usize,
}

/// The settings of a [`BrowserManager`].
pub struct ManagerView {
    pub configs: Map<u64, BrowserConfig>,
    pub next_id: u64,
    pub health_check_enabled: bool,
    pub max_retry_attempts: usize,
}

impl View for BrowserManager {
    type V = ManagerView;

    closed spec fn view(&self) -> ManagerView {
        ManagerView {
            configs: self.configs@,
            next_id: self.next_id,
            health_check_enabled: self.health_check_enabled,
            max_retry_attempts: self.max_retry_attempts,
        }
    }
}

/// The settings of a new manager: no endpoints, next identifier 1, health
/// checks on, 3 attempts per creation.
pub open spec fn fresh_manager() -> ManagerView {
    ManagerView { configs: Map::empty(), next_id: 1, health_check_enabled: true, max_retry_attempts: 3 }
}

/// The message when creating a browser failed on every attempt.
pub open spec fn give_up_text(attempts: nat, error: Seq<char>) -> Seq<char> {
    "Failed to create WebDriver after "@ + decimal(attempts) + " attempts: "@ + error
}

impl BrowserManager {
    /// A manager with no endpoints, health checks on, and 3 attempts per creation.
    pub fn new() -> (m: BrowserManager)
        ensures
            m@ == fresh_manager(),
    {
        BrowserManager { configs: HashMap::new(), next_id: 1, health_check_enabled: true, max_retry_attempts: 3 }
    }

    /// Adds an endpoint under the next identifier; the identifier counter
    /// wraps at `u64::MAX`, and an endpoint already under that identifier is
    /// replaced.
    pub fn with_config(self, config: BrowserConfig) -> (m: BrowserManager)
        ensures
            m@ == (ManagerView {
                configs: self@.configs.insert(self@.next_id, config),
                next_id: if self@.next_id == u64::MAX { 0 } else { (self@.next_id + 1) as u64 },
                ..self@
            }),
    {
        let id = self.next_id;
        let mut configs = self.configs;
        configs.insert(id, config);
        BrowserManager { configs, next_id: id.wrapping_add(1), ..self }
    }

    /// Adds endpoints in order, as repeated [`BrowserManager::with_config`] does.
    pub fn with_configs(self, configs: Vec<BrowserConfig>) -> (m: BrowserManager)
        ensures
            m@.health_check_enabled == self@.health_check_enabled,
            m@.max_retry_attempts == self@.max_retry_attempts,
            self@.next_id + configs@.len() <= u64::MAX ==> placed(self@, m@, configs@, configs@.len() as int),
    {
        let mut m = self;
        let mut rest = configs;
        let ghost all = rest@;
        let ghost start = m@;
        let mut i: usize = 0;
        assert(all.len() == rest.len());
        while rest.len() > 0
            invariant
                all.len() <= usize::MAX,
                i <= all.len(),
                rest@ == all.skip(i as int),
                m@.health_check_enabled == start.health_check_enabled,
                m@.max_retry_attempts == start.max_retry_attempts,
                start.next_id + all.len() <= u64::MAX ==> placed(start, m@, all, i as int),
            decreases rest.len(),
        {
            let c = rest.remove(0);
            assert(c == all[i as int]);
            assert(rest@ == all.skip(i + 1));
            let ghost before = m@;
            m = m.with_config(c);
            proof {
                if start.next_id + all.len() <= u64::MAX {
                    lemma_placed_step(start, before, m@, all, i as int);
                }
            }
            i = i + 1;
        }
        assert(i == all.len());
        m
    }

    /// Enables or disables health checks when browsers are recycled.
    pub fn with_health_checks(self, enabled: bool) -> (m: BrowserManager)
        ensures
            m@ == (ManagerView { health_check_enabled: enabled, ..self@ }),
    {
        BrowserManager { health_check_enabled: enabled, ..self }
    }

    /// Sets the number of attempts per browser creation.
    pub fn with_max_retry_attempts(self, attempts: usize) -> (m: BrowserManager)
        ensures
            m@ == (ManagerView { max_retry_attempts: attempts, ..self@ }),
    {
        BrowserManager { max_retry_attempts: attempts, ..self }
    }

    /// Returns true if the manager has no endpoints.
    pub fn is_empty(&self) -> (r: bool)
        ensures
            r == self@.configs.is_empty(),
    {
        self.configs.is_empty()
    }

    /// The number of endpoints.
    pub fn len(&self) -> (n: usize)
        ensures
            n == self@.configs.len(),
    {
        self.configs.len()
    }

    /// One of the endpoints, if there are any; which one is left to the
    /// order in which the map is walked.
    pub fn select_config(&self) -> (c: Option<&BrowserConfig>)
        ensures
            c is None <==> self@.configs.is_empty(),
            c matches Some(x) ==> exists|id: u64| #[trigger] self@.configs.contains_key(id) && self@.configs[id] == *x,
    {
        let mut first: Option<&BrowserConfig> = None;
        for v in it: self.configs.values()
            invariant_except_break
                first is None,
                it.index() == 0,
            ensures
                first is None ==> self@.configs.is_empty(),
                first matches Some(x) ==> self@.configs.values().contains(*x),
        {
            assert(it.seq().unref().to_set() == self@.configs.values());
            assert(it.seq().unref()[0] == *v);
            first = Some(v);
            break;
        }
        first
    }

    /// Returns whether browsers are health-checked when recycled.
    pub fn health_checks_enabled(&self) -> (b: bool)
        ensures
            b == self@.health_check_enabled,
    {
        self.health_check_enabled
    }

    /// Returns the number of attempts per browser creation.
    pub fn max_retry_attempts(&self) -> (n: usize)
        ensures
            n == self@.max_retry_attempts,
    {
        self.max_retry_attempts
    }

    /// The error when there is no endpoint to create a browser for.
    pub fn no_config_error() -> (e: Error)
        ensures
            e@ == (ErrorView {
                kind: ErrorKind::Backend,
                message: "No WebDriver configurations available"@,
                source: None,
                query: None,
            }),
    {
        Error::new(ErrorKind::Backend, "No WebDriver configurations available")
    }

    /// What to do after attempt number `attempt` (counting from 1) failed
    /// with `error`: wait `100 * attempt` milliseconds and retry while
    /// attempts are left, otherwise give up with a backend error.
    pub fn after_failure(&self, attempt: usize, error: &str) -> (s: RetryStep)
        requires
            attempt <= 184_467_440_737_095_516,
        ensures
            attempt < self@.max_retry_attempts ==> (s matches RetryStep::Retry(d) && d@ == 100 * attempt * 1_000_000),
            attempt >= self@.max_retry_attempts ==> (s matches RetryStep::GiveUp(e) && e@ == (ErrorView {
                kind: ErrorKind::Backend,
                message: give_up_text(self@.max_retry_attempts as nat, error@),
                source: None,
                query: None,
            })),
    {
        if attempt < self.max_retry_attempts {
            RetryStep::Retry(Duration::from_millis(100 * attempt as u64))
        } else {
            let mut m = String::from_str("Failed to create WebDriver after ");
            push_decimal(&mut m, self.max_retry_attempts as u64);
            push_str(&mut m, " attempts: ");
            push_str(&mut m, error);
            RetryStep::GiveUp(Error::with_message(ErrorKind::Backend, m))
        }
    }

    /// The outcome of recycling a browser after a health check: fine when
    /// healthy, a backend error otherwise.
    pub fn recycle_result(healthy: bool) -> (r: Result<(), Error>)
        ensures
            healthy ==> r is Ok,
            !healthy ==> (r matches Err(e) && e@ == (ErrorView {
                kind: ErrorKind::Backend,
                message: "WebDriver failed health check during recycle"@,
                source: None,
                query: None,
            })),
    {
        if healthy {
            Ok(())
        } else {
            Err(Error::new(ErrorKind::Backend, "WebDriver failed health check during recycle"))
        }
    }
}

impl Default for BrowserManager {
    fn default() -> (m: BrowserManager)
        ensures
            m@ == fresh_manager(),
    {
        BrowserManager::new()
    }
}

/// `after` holds what `before` held, plus the first `n` of `added` under
/// consecutive identifiers from `before`'s next identifier.
pub open spec fn placed(before: ManagerView, after: ManagerView, added: Seq<BrowserConfig>, n: int) -> bool {
    &&& after.next_id == before.next_id + n
    &&& forall|k: u64| before.next_id <= k < before.next_id + n ==> #[trigger] after.configs.contains_key(k)
        && after.configs[k] == added[k - before.next_id]
    &&& forall|k: u64| #[trigger] before.configs.contains_key(k) ==> after.configs.contains_key(k)
        && (k < before.next_id ==> after.configs[k] == before.configs[k])
    &&& forall|k: u64| #[trigger] after.configs.contains_key(k) ==> before.configs.contains_key(k)
        || (before.next_id <= k < before.next_id + n)
}

/// One more endpoint placed under the next identifier extends [`placed`].
proof fn lemma_placed_step(start: ManagerView, before: ManagerView, after: ManagerView, all: Seq<BrowserConfig>, i: int)
    requires
        0 <= i < all.len(),
        start.next_id + all.len() <= u64::MAX,
        placed(start, before, all, i),
        after.configs == before.configs.insert(before.next_id, all[i]),
        after.next_id == before.next_id + 1,
    ensures
        placed(start, after, all, i + 1),
{
    let key = before.next_id;
    assert forall|k: u64| start.next_id <= k < start.next_id + i + 1 implies #[trigger] after.configs.contains_key(k)
        && after.configs[k] == all[k - start.next_id] by {
        if k != key {
            assert(before.configs.contains_key(k));
        }
    }
    assert forall|k: u64| #[trigger] after.configs.contains_key(k) implies start.configs.contains_key(k)
        || (start.next_id <= k < start.next_id + i + 1) by {
        if k != key {
            assert(before.configs.contains_key(k));
        }
    }
}

} // verus!
