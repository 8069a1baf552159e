//! A browser connection with its lifecycle and usage statistics. Points in
//! time are spans since the clock's origin, supplied by the caller.
use vstd::prelude::*;

use crate::browser::config::WebDriverConfig;
use crate::browser::stats::ConnectionStats;
use crate::time::Duration;

use thirtyfour::session::handle::SessionHandle;
use thirtyfour::WebDriver;

verus! {

#[verifier::external_type_specification]
#[verifier::external_body]
pub struct ExWebDriver(WebDriver);

/// Declared because `WebDriver` dereferences to it.
#[verifier::external_type_specification]
#[verifier::external_body]
pub struct ExSessionHandle(SessionHandle);

/// The identifier of a WebDriver session, as text.
/// Calls `SessionHandle::session_id` on the driver and renders the identifier
/// with `to_string`; nothing is stated of the text, which the WebDriver
/// server chose when the session was created.
#[verifier::external_body]
fn session_id_text(driver: &WebDriver) -> String {
    driver.session_id().to_string()
}

/// A connection to a browser instance, with its configuration, lifecycle
/// timestamps, request and error counts, and health.
#[derive(Debug)]
pub struct BrowserConnection<D> {
    id: u64,
    client: D,
    config: WebDriverConfig,
    created_at: Duration,
    last_used: Duration,
    request_count: u64,
    error_count: u64,
    healthy: bool,
    session_id: Option<String>,
}

/// The mathematical value of a [`BrowserConnection`], without its driver and
/// configuration.
pub struct ConnectionView {
    pub id: u64,
    pub created_at: nat,
    pub last_used: nat,
    pub request_count: u64,
    pub error_count: u64,
    pub healthy: bool,
    pub session_id: Option<Seq<char>>,
}

/// The time elapsed from `since` to `now`; zero if `now` is earlier.
pub open spec fn elapsed(since: nat, now: nat) -> nat {
    if now >= since { (now - since) as nat } else { 0 }
}

/// A connection is quickly judged healthy when it is marked healthy and at
/// most half of its requests failed.
pub open spec fn quick_healthy(v: ConnectionView) -> bool {
    v.healthy && (v.request_count == 0 || 2 * v.error_count <= v.request_count)
}

/// The quick health check: a connection marked unhealthy fails it; one
/// marked healthy passes it when it has served no request, and otherwise
/// exactly when at most half of its requests failed.
pub proof fn lemma_quick_health(v: ConnectionView)
    ensures
        !v.healthy ==> !quick_healthy(v),
        v.healthy && v.request_count == 0 ==> quick_healthy(v),
        v.healthy && v.request_count > 0 ==> (quick_healthy(v) <==> 2 * v.error_count <= v.request_count),
        v.healthy && v.request_count > 0 && 2 * v.error_count > v.request_count ==> !quick_healthy(v),
{
}

impl<D> View for BrowserConnection<D> {
    type V = ConnectionView;

    closed spec fn view(&self) -> ConnectionView {
        ConnectionView {
            id: self.id,
            created_at: self.created_at@,
            last_used: self.last_used@,
            request_count: self.request_count,
            error_count: self.error_count,
            healthy: self.healthy,
            session_id: match self.session_id {
                Some(s) => Some(s@),
                None => None,
            },
        }
    }
}

impl<D> BrowserConnection<D> {
    /// The driver.
    pub closed spec fn driver(&self) -> D {
        self.client
    }

    /// The configuration.
    pub closed spec fn configuration(&self) -> WebDriverConfig {
        self.config
    }

    /// A new, healthy connection created at `now`, with no requests or errors.
    pub fn with_session(id: u64, client: D, config: WebDriverConfig, session_id: Option<String>, now: Duration) -> (c: BrowserConnection<D>)
        ensures
            c@ == (ConnectionView {
                id,
                created_at: now@,
                last_used: now@,
                request_count: 0,
                error_count: 0,
                healthy: true,
                session_id: match session_id {
                    Some(s) => Some(s@),
                    None => None,
                },
            }),
            c.driver() == client,
            c.configuration() == config,
    {
        BrowserConnection {
            id,
            client,
            config,
            created_at: now,
            last_used: now,
            request_count: 0,
            error_count: 0,
            healthy: true,
            session_id,
        }
    }

    /// Returns the connection's identifier.
    pub fn id(&self) -> (n: u64)
        ensures
            n == self@.id,
    {
        self.id
    }

    /// Returns the configuration used to create the connection.
    pub fn config(&self) -> (c: &WebDriverConfig)
        ensures
            *c == self.configuration(),
    {
        &self.config
    }

    /// Returns the driver.
    pub fn webdriver(&self) -> (d: &D)
        ensures
            *d == self.driver(),
    {
        &self.client
    }

    /// Returns the driver for changes; the statistics stay as they are.
    pub fn webdriver_mut(&mut self) -> (d: &mut D)
        ensures
            *d == old(self).driver(),
            final(self).driver() == *final(d),
            final(self)@ == old(self)@,
            final(self).configuration() == old(self).configuration(),
    {
        &mut self.client
    }

    /// Returns when the connection was created.
    pub fn created_at(&self) -> (t: Duration)
        ensures
            t@ == self@.created_at,
    {
        self.created_at
    }

    /// Returns when the connection was last used.
    pub fn last_used(&self) -> (t: Duration)
        ensures
            t@ == self@.last_used,
    {
        self.last_used
    }

    /// Returns the WebDriver session ID, if any.
    pub fn session_id(&self) -> (s: Option<&str>)
        ensures
            match s {
                Some(x) => self@.session_id == Some(x@),
                None => self@.session_id is None,
            },
    {
        match &self.session_id {
            Some(s) => Some(s.as_str()),
            None => None,
        }
    }

    /// Returns the age of the connection at `now`.
    pub fn age(&self, now: Duration) -> (d: Duration)
        ensures
            d@ == elapsed(self@.created_at, now@),
    {
        now.saturating_sub(self.created_at)
    }

    /// Returns how long the connection has been idle at `now`.
    pub fn idle_time(&self, now: Duration) -> (d: Duration)
        ensures
            d@ == elapsed(self@.last_used, now@),
    {
        now.saturating_sub(self.last_used)
    }

    /// Returns the number of requests processed.
    pub fn request_count(&self) -> (n: u64)
        ensures
            n == self@.request_count,
    {
        self.request_count
    }

    /// Returns the number of errors encountered.
    pub fn error_count(&self) -> (n: u64)
        ensures
            n == self@.error_count,
    {
        self.error_count
    }

    /// Returns whether the connection is marked healthy.
    pub fn is_healthy(&self) -> (b: bool)
        ensures
            b == self@.healthy,
    {
        self.healthy
    }

    /// Marks the connection as used at `now`: one more request (wrapping at
    /// `u64::MAX`, as an atomic counter does).
    pub fn mark_used(&mut self, now: Duration)
        ensures
            final(self)@ == (ConnectionView {
                last_used: now@,
                request_count: if old(self)@.request_count == u64::MAX { 0 } else { (old(self)@.request_count + 1) as u64 },
                ..old(self)@
            }),
            final(self).driver() == old(self).driver(),
            final(self).configuration() == old(self).configuration(),
    {
        self.last_used = now;
        self.request_count = self.request_count.wrapping_add(1);
    }

    /// Records an error: one more error (wrapping at `u64::MAX`).
    pub fn mark_error(&mut self)
        ensures
            final(self)@ == (ConnectionView {
                error_count: if old(self)@.error_count == u64::MAX { 0 } else { (old(self)@.error_count + 1) as u64 },
                ..old(self)@
            }),
            final(self).driver() == old(self).driver(),
            final(self).configuration() == old(self).configuration(),
    {
        self.error_count = self.error_count.wrapping_add(1);
    }

    /// Sets the health status.
    pub fn set_healthy(&mut self, healthy: bool)
        ensures
            final(self)@ == (ConnectionView { healthy, ..old(self)@ }),
            final(self).driver() == old(self).driver(),
            final(self).configuration() == old(self).configuration(),
    {
        self.healthy = healthy;
    }

    /// Resets the counts and marks the connection healthy.
    pub fn reset_stats(&mut self)
        ensures
            final(self)@ == (ConnectionView { request_count: 0, error_count: 0, healthy: true, ..old(self)@ }),
            final(self).driver() == old(self).driver(),
            final(self).configuration() == old(self).configuration(),
    {
        self.request_count = 0;
        self.error_count = 0;
        self.healthy = true;
    }

    /// A check without network calls, as [`quick_healthy`] says: marked
    /// healthy, and no more than half of the requests failed.
    pub fn quick_health_check(&self) -> (b: bool)
        ensures
            b == quick_healthy(self@),
    {
        if !self.healthy {
            return false;
        }
        if self.request_count > 0 {
            let errors = self.error_count as u128;
            let requests = self.request_count as u128;
            if 2 * errors > requests {
                return false;
            }
        }
        true
    }

    /// The connection's statistics at `now`.
    pub fn stats(&self, now: Duration) -> (s: ConnectionStats)
        ensures
            s.id == self@.id,
            s.age@ == elapsed(self@.created_at, now@),
            s.idle_time@ == elapsed(self@.last_used, now@),
            s.request_count == self@.request_count,
            s.error_count == self@.error_count,
            s.healthy == self@.healthy,
            match s.session_id {
                Some(x) => self@.session_id == Some(x@),
                None => self@.session_id is None,
            },
            s.config_url@ == self.configuration().url@,
    {
        ConnectionStats {
            id: self.id,
            age: self.age(now),
            idle_time: self.idle_time(now),
            request_count: self.request_count,
            error_count: self.error_count,
            healthy: self.healthy,
            session_id: self.session_id.clone(),
            config_url: self.config.url.clone(),
        }
    }
}

impl BrowserConnection<WebDriver> {
    /// A new, healthy connection to a WebDriver session, created at `now`,
    /// with no requests or errors; the session's identifier is recorded.
    pub fn new(id: u64, client: WebDriver, config: WebDriverConfig, now: Duration) -> (c: BrowserConnection<WebDriver>)
        ensures
            c@.id == id,
            c@.created_at == now@,
            c@.last_used == now@,
            c@.request_count == 0,
            c@.error_count == 0,
            c@.healthy,
            c@.session_id is Some,
            c.driver() == client,
            c.configuration() == config,
    {
        let session_id = session_id_text(&client);
        BrowserConnection::with_session(id, client, config, Some(session_id), now)
    }
}

} // verus!
