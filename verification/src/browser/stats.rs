//! Statistics of browser connections and their aggregation.
use vstd::prelude::*;

use crate::time::{max_nanos, Duration};

verus! {

/// Statistics of one browser connection.
#[derive(Debug)]
pub struct ConnectionStats {
    /// Connection ID
    pub id: u64,
    /// Age of the connection
    pub age: Duration,
    /// Time since last use
    pub idle_time: Duration,
    /// Number of requests processed
    pub request_count: u64,
    /// Number of errors encountered
    pub error_count: u64,
    /// Health status
    pub healthy: bool,
    /// WebDriver session ID
    pub session_id: Option<String>,
    /// Configuration URL
    pub config_url: String,
}

/// A connection is stale when it is older than `max_age` or has been idle
/// longer than `max_idle`.
pub open spec fn stale(s: ConnectionStats, max_age: nat, max_idle: nat) -> bool {
    s.age@ > max_age || s.idle_time@ > max_idle
}

impl ConnectionStats {
    /// Returns whether the connection is stale, as [`stale`] says.
    pub fn is_stale(&self, max_age: Duration, max_idle: Duration) -> (r: bool)
        ensures
            r == stale(*self, max_age@, max_idle@),
    {
        self.age.longer_than(&max_age) || self.idle_time.longer_than(&max_idle)
    }
}

/// The elements of `s` whose pick is `true`, in order.
pub open spec fn picked<A>(s: Seq<A>, picks: Seq<bool>) -> Seq<A>
    decreases s.len(),
{
    if s.len() == 0 || picks.len() < s.len() {
        Seq::empty()
    } else if picks[s.len() - 1] {
        picked(s.drop_last(), picks).push(s.last())
    } else {
        picked(s.drop_last(), picks)
    }
}

proof fn lemma_picked_same<A>(s: Seq<A>, p: Seq<bool>, q: Seq<bool>)
    requires
        s.len() <= p.len(),
        s.len() <= q.len(),
        forall|i: int| 0 <= i < s.len() ==> p[i] == q[i],
    ensures
        picked(s, p) == picked(s, q),
    decreases s.len(),
{
    if s.len() > 0 {
        lemma_picked_same(s.drop_last(), p, q);
    }
}

/// The sum of the request counts.
pub open spec fn sum_requests(s: Seq<ConnectionStats>) -> nat
    decreases s.len(),
{
    if s.len() == 0 { 0 } else { sum_requests(s.drop_last()) + s.last().request_count as nat }
}

/// The sum of the error counts.
pub open spec fn sum_errors(s: Seq<ConnectionStats>) -> nat
    decreases s.len(),
{
    if s.len() == 0 { 0 } else { sum_errors(s.drop_last()) + s.last().error_count as nat }
}

/// The sum of the ages.
pub open spec fn sum_ages(s: Seq<ConnectionStats>) -> nat
    decreases s.len(),
{
    if s.len() == 0 { 0 } else { sum_ages(s.drop_last()) + s.last().age@ }
}

/// The number of healthy connections.
pub open spec fn count_healthy(s: Seq<ConnectionStats>) -> nat
    decreases s.len(),
{
    if s.len() == 0 { 0 } else { count_healthy(s.drop_last()) + if s.last().healthy { 1nat } else { 0nat } }
}

/// Healthy and unhealthy connections together are all of them: the healthy
/// ones are never more than all.
pub proof fn lemma_count_healthy_bound(s: Seq<ConnectionStats>)
    ensures
        count_healthy(s) <= s.len(),
    decreases s.len(),
{
    if s.len() > 0 {
        lemma_count_healthy_bound(s.drop_last());
    }
}

/// A collection of connection statistics for analysis.
#[derive(Debug)]
pub struct ConnectionStatsCollection {
    stats: Vec<ConnectionStats>,
}

impl View for ConnectionStatsCollection {
    type V = Seq<ConnectionStats>;

    closed spec fn view(&self) -> Seq<ConnectionStats> {
        self.stats@
    }
}

impl ConnectionStatsCollection {
    /// An empty collection.
    pub fn new() -> (c: ConnectionStatsCollection)
        ensures
            c@ == Seq::<ConnectionStats>::empty(),
    {
        ConnectionStatsCollection { stats: Vec::new() }
    }

    /// Adds statistics to the collection.
    pub fn add(&mut self, stats: ConnectionStats)
        ensures
            final(self)@ == old(self)@.push(stats),
    {
        self.stats.push(stats);
    }

    /// Returns all statistics, in the order they were added.
    pub fn all(&self) -> (s: &[ConnectionStats])
        ensures
            s@ == self@,
    {
        self.stats.as_slice()
    }

    /// Returns the number of connections.
    pub fn count(&self) -> (n: usize)
        ensures
            n == self@.len(),
    {
        self.stats.len()
    }

    /// Returns the number of healthy connections.
    pub fn healthy_count(&self) -> (n: usize)
        ensures
            n == count_healthy(self@),
    {
        let mut n: usize = 0;
        for i in 0..self.stats.len()
            invariant
                n == count_healthy(self@.take(i as int)),
                n <= i,
        {
            assert(self@.take(i + 1).drop_last() == self@.take(i as int));
            if self.stats[i].healthy {
                n = n + 1;
            }
        }
        assert(self@.take(self@.len() as int) == self@);
        n
    }

    /// Returns the number of unhealthy connections.
    pub fn unhealthy_count(&self) -> (n: usize)
        ensures
            n == self@.len() - count_healthy(self@),
    {
        let h = self.healthy_count();
        proof {
            lemma_count_healthy_bound(self@);
        }
        self.count() - h
    }

    /// Returns the total number of requests across all connections.
    pub fn total_requests(&self) -> (n: u64)
        requires
            sum_requests(self@) <= u64::MAX,
        ensures
            n == sum_requests(self@),
    {
        let mut n: u64 = 0;
        for i in 0..self.stats.len()
            invariant
                n == sum_requests(self@.take(i as int)),
                sum_requests(self@) <= u64::MAX,
        {
            assert(self@.take(i + 1).drop_last() == self@.take(i as int));
            proof {
                lemma_sum_requests_prefix(self@, i + 1);
            }
            n = n + self.stats[i].request_count;
        }
        assert(self@.take(self@.len() as int) == self@);
        n
    }

    /// Returns the total number of errors across all connections.
    pub fn total_errors(&self) -> (n: u64)
        requires
            sum_errors(self@) <= u64::MAX,
        ensures
            n == sum_errors(self@),
    {
        let mut n: u64 = 0;
        for i in 0..self.stats.len()
            invariant
                n == sum_errors(self@.take(i as int)),
                sum_errors(self@) <= u64::MAX,
        {
            assert(self@.take(i + 1).drop_last() == self@.take(i as int));
            proof {
                lemma_sum_errors_prefix(self@, i + 1);
            }
            n = n + self.stats[i].error_count;
        }
        assert(self@.take(self@.len() as int) == self@);
        n
    }

    /// Returns the average age of the connections, rounded down to the
    /// nanosecond; zero when there are none.
    pub fn average_age(&self) -> (d: Duration)
        ensures
            d@ == if self@.len() == 0 { 0 } else { sum_ages(self@) / self@.len() },
    {
        if self.stats.len() == 0 {
            return Duration::zero();
        }
        let n = self.stats.len();
        let nn = n as u128;
        // The sum so far is `q * n + r` with `r < n`: the average is built
        // up as a quotient and a remainder, so nothing overflows.
        let mut q: u128 = 0;
        let mut r: u128 = 0;
        for i in 0..n
            invariant
                n == self@.len(),
                nn == n,
                0 < n,
                r < nn,
                q * nn + r == sum_ages(self@.take(i as int)),
                sum_ages(self@.take(i as int)) <= i * max_nanos(),
        {
            assert(self@.take(i + 1).drop_last() == self@.take(i as int));
            assert(self@.take(i + 1).last() == self@[i as int]);
            let a = self.stats[i].age.as_nanos();
            let aq = a / nn;
            let ar = a % nn;
            proof {
                vstd::arithmetic::div_mod::lemma_fundamental_div_mod(a as int, nn as int);
                lemma_average_step(q as int, r as int, aq as int, ar as int, a as int, nn as int, i as int);
            }
            q = q + aq;
            r = r + ar;
            if r >= nn {
                q = q + 1;
                r = r - nn;
            }
        }
        assert(self@.take(n as int) == self@);
        proof {
            vstd::arithmetic::div_mod::lemma_fundamental_div_mod_converse(sum_ages(self@) as int, n as int, q as int, r as int);
            lemma_quotient_bound(q as int, r as int, n as int);
        }
        Duration::from_total_nanos(q)
    }

    /// Returns, in order, the statistics for which `predicate` holds.
    pub fn filter<F: Fn(&ConnectionStats) -> bool>(&self, predicate: F) -> (r: Vec<&ConnectionStats>)
        requires
            forall|i: int| 0 <= i < self@.len() ==> predicate.requires((&self@[i],)),
        ensures
            exists|picks: Seq<bool>| {
                &&& picks.len() == self@.len()
                &&& (forall|i: int| 0 <= i < self@.len() ==> predicate.ensures((&self@[i],), #[trigger] picks[i]))
                &&& r@.map_values(|x: &ConnectionStats| *x) == picked(self@, picks)
            },
    {
        let mut out: Vec<&ConnectionStats> = Vec::new();
        let ghost mut picks: Seq<bool> = Seq::empty();
        for i in 0..self.stats.len()
            invariant
                forall|k: int| 0 <= k < self@.len() ==> predicate.requires((&self@[k],)),
                picks.len() == i,
                forall|k: int| 0 <= k < i ==> predicate.ensures((&self@[k],), #[trigger] picks[k]),
                out@.map_values(|x: &ConnectionStats| *x) == picked(self@.take(i as int), picks),
        {
            let s = &self.stats[i];
            let keep = predicate(s);
            let ghost before = out@.map_values(|x: &ConnectionStats| *x);
            if keep {
                out.push(s);
            }
            proof {
                let old_picks = picks;
                picks = picks.push(keep);
                assert(picks.drop_last() == old_picks);
                assert(self@.take(i + 1).drop_last() == self@.take(i as int));
                assert(self@.take(i + 1).last() == self@[i as int]);
                lemma_picked_same(self@.take(i as int), old_picks, picks);
                assert(before == picked(self@.take(i as int), picks));
                if keep {
                    assert(out@.map_values(|x: &ConnectionStats| *x) =~= before.push(self@[i as int]));
                } else {
                    assert(out@.map_values(|x: &ConnectionStats| *x) =~= before);
                }
            }
        }
        assert(self@.take(self@.len() as int) == self@);
        out
    }

    /// Returns, in order, the stale connections, as [`stale`] says.
    pub fn stale_connections(&self, max_age: Duration, max_idle: Duration) -> (r: Vec<&ConnectionStats>)
        ensures
            r@.map_values(|x: &ConnectionStats| *x) == picked(
                self@,
                self@.map_values(|s: ConnectionStats| stale(s, max_age@, max_idle@)),
            ),
    {
        let is_stale = |s: &ConnectionStats| -> (b: bool)
            ensures
                b == stale(*s, max_age@, max_idle@),
            { s.is_stale(max_age, max_idle) };
        let r = self.filter(is_stale);
        proof {
            let picks = choose|picks: Seq<bool>| {
                &&& picks.len() == self@.len()
                &&& (forall|i: int| 0 <= i < self@.len() ==> #[trigger] picks[i] == stale(self@[i], max_age@, max_idle@))
                &&& r@.map_values(|x: &ConnectionStats| *x) == picked(self@, picks)
            };
            lemma_picked_same(
                self@,
                picks,
                self@.map_values(|s: ConnectionStats| stale(s, max_age@, max_idle@)),
            );
        }
        r
    }
}

proof fn lemma_sum_requests_prefix(s: Seq<ConnectionStats>, n: int)
    requires
        0 <= n <= s.len(),
    ensures
        sum_requests(s.take(n)) <= sum_requests(s),
    decreases s.len() - n,
{
    if n < s.len() {
        lemma_sum_requests_prefix(s, n + 1);
        assert(s.take(n + 1).drop_last() == s.take(n));
    } else {
        assert(s.take(n) == s);
    }
}

proof fn lemma_sum_errors_prefix(s: Seq<ConnectionStats>, n: int)
    requires
        0 <= n <= s.len(),
    ensures
        sum_errors(s.take(n)) <= sum_errors(s),
    decreases s.len() - n,
{
    if n < s.len() {
        lemma_sum_errors_prefix(s, n + 1);
        assert(s.take(n + 1).drop_last() == s.take(n));
    } else {
        assert(s.take(n) == s);
    }
}

/// One more age keeps the quotient and remainder within bounds.
proof fn lemma_average_step(q: int, r: int, aq: int, ar: int, a: int, n: int, i: int)
    requires
        0 <= q,
        0 <= r < n,
        0 <= i < n,
        0 <= a <= max_nanos(),
        a == n * aq + ar,
        0 <= ar < n,
        0 <= aq,
        q * n + r <= i * max_nanos(),
    ensures
        (q + aq) * n + r + ar == q * n + r + a,
        (q + aq + 1) * n + (r + ar - n) == (q + aq) * n + r + ar,
        (q + aq) * n + r + ar <= (i + 1) * max_nanos(),
        q + aq <= max_nanos(),
        r + ar < 2 * n,
{
    assert((q + aq + 1) * n == (q + aq) * n + n) by (nonlinear_arith);
    assert((q + aq) * n + r + ar == q * n + r + a) by (nonlinear_arith)
        requires
            a == n * aq + ar,
    ;
    assert((i + 1) * max_nanos() <= n * max_nanos()) by (nonlinear_arith)
        requires
            i + 1 <= n,
    ;
    assert(q + aq <= max_nanos()) by (nonlinear_arith)
        requires
            (q + aq) * n <= n * max_nanos(),
            n >= 1,
            q + aq >= 0,
    ;
}

/// The average never exceeds the longest representable span.
proof fn lemma_quotient_bound(q: int, r: int, n: int)
    requires
        0 <= q,
        0 <= r < n,
        q * n + r <= n * max_nanos(),
    ensures
        q <= max_nanos(),
{
    assert(q <= max_nanos()) by (nonlinear_arith)
        requires
            q * n + r <= n * max_nanos(),
            0 <= r,
            n >= 1,
            q >= 0,
    ;
}

} // verus!
