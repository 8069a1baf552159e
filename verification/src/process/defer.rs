//! The runner's record of deferred tags, and how flow-control decisions
//! update it.
use vstd::prelude::*;

use crate::context::flow_control::{tag_views, FlowControl, FlowControlView, TagQuery, TagQueryView};
use crate::context::tag::{Tag, TagView};
use crate::context::flow_control::IntoFlowControl;
use crate::error::{boxed_error, error_flow_control, Error, ErrorView};
use crate::keyed::{distinct_keys, lemma_pairs_absent, lemma_pairs_index, lemma_pairs_push, lemma_pairs_update, pairs_map};
use crate::time::{max_nanos, sat_add, Duration};

verus! {

/// The later of two points in time.
pub open spec fn later(a: nat, b: nat) -> nat {
    if a >= b { a } else { b }
}

/// Defers one tag: an unseen tag until `minimum`; a seen one by `duration`
/// past its current deadline, but at least until `minimum`.
pub open spec fn defer_one(m: Map<TagView, nat>, t: TagView, duration: nat, minimum: nat) -> Map<TagView, nat> {
    m.insert(
        t,
        if m.contains_key(t) {
            later(sat_add(m[t], duration), minimum)
        } else {
            minimum
        },
    )
}

/// Defers each of `ts` in turn, first to last.
pub open spec fn defer_all(m: Map<TagView, nat>, ts: Seq<TagView>, duration: nat, minimum: nat) -> Map<TagView, nat>
    decreases ts.len(),
{
    if ts.len() == 0 {
        m
    } else {
        defer_one(defer_all(m, ts.drop_last(), duration, minimum), ts.last(), duration, minimum)
    }
}

/// The deadlines after deferring the tags that `query` selects, for a request
/// owned by `owner`, at time `now`: `Every` stands for the fallback tag, which
/// covers the tags not yet seen.
pub open spec fn deferred(m: Map<TagView, nat>, query: TagQueryView, owner: TagView, duration: nat, now: nat) -> Map<TagView, nat> {
    let minimum = sat_add(now, duration);
    match query {
        TagQueryView::Owner => defer_one(m, owner, duration, minimum),
        TagQueryView::Single(x) => defer_one(m, x, duration, minimum),
        TagQueryView::Every => defer_one(m, TagView::Fallback, duration, minimum),
        TagQueryView::List(xs) => defer_all(m, xs, duration, minimum),
    }
}

/// The deadlines after a flow-control decision: `Wait` and `Hold` defer tags,
/// the others leave the deadlines as they are.
pub open spec fn notified(m: Map<TagView, nat>, f: FlowControlView, owner: TagView, now: nat) -> Map<TagView, nat> {
    match f {
        FlowControlView::Wait(q, d) => deferred(m, q, owner, d, now),
        FlowControlView::Hold(q, d) => deferred(m, q, owner, d, now),
        _ => m,
    }
}

/// The error that a decision fails the run with: a `Fail` decision fails it
/// with the error that its cause describes; the other decisions do not.
pub open spec fn decision_failure(f: FlowControlView) -> Option<ErrorView> {
    match f {
        FlowControlView::Fail(_, cause) => Some(boxed_error(cause)),
        _ => None,
    }
}

/// The deadline before which tasks with a tag are deferred, per tag; the
/// fallback tag stands for the tags not yet seen.
#[derive(Debug)]
pub struct DeferTable {
    entries: Vec<(Tag, Duration)>,
}

/// The views of the entries of a [`DeferTable`].
pub open spec fn entry_views(s: Seq<(Tag, Duration)>) -> Seq<(TagView, nat)> {
    s.map_values(|e: (Tag, Duration)| (e.0@, e.1@))
}

impl View for DeferTable {
    type V = Map<TagView, nat>;

    closed spec fn view(&self) -> Map<TagView, nat> {
        pairs_map(entry_views(self.entries@))
    }
}

impl DeferTable {
    /// Each tag occurs at most once.
    pub closed spec fn wf(&self) -> bool {
        distinct_keys(entry_views(self.entries@))
    }

    /// Creates a table with no deferred tags.
    pub fn new() -> (t: DeferTable)
        ensures
            t.wf(),
            t@ == Map::<TagView, nat>::empty(),
    {
        let t = DeferTable { entries: Vec::new() };
        assert(entry_views(t.entries@) =~= Seq::<(TagView, nat)>::empty());
        t
    }

    /// The position of `tag` among the entries, if it has one.
    fn position(&self, tag: &Tag) -> (p: Option<usize>)
        requires
            self.wf(),
        ensures
            match p {
                Some(i) => i < self.entries@.len() && self.entries@[i as int].0@ == tag@,
                None => forall|i: int| 0 <= i < self.entries@.len() ==> self.entries@[i].0@ != tag@,
            },
    {
        for i in 0..self.entries.len()
            invariant
                forall|j: int| 0 <= j < i ==> self.entries@[j].0@ != tag@,
        {
            if self.entries[i].0.same_as(tag) {
                return Some(i);
            }
        }
        None
    }

    /// The deadline of `tag`, if it is deferred.
    pub fn deadline(&self, tag: &Tag) -> (d: Option<Duration>)
        requires
            self.wf(),
        ensures
            match d {
                Some(x) => self@.contains_key(tag@) && self@[tag@] == x@,
                None => !self@.contains_key(tag@),
            },
    {
        match self.position(tag) {
            Some(i) => {
                proof {
                    lemma_pairs_index(entry_views(self.entries@), i as int);
                }
                Some(self.entries[i].1)
            },
            None => {
                proof {
                    let s = entry_views(self.entries@);
                    assert forall|i: int| 0 <= i < s.len() implies s[i].0 != tag@ by {
                        assert(self.entries@[i].0@ != tag@);
                    }
                    lemma_pairs_absent(s, tag@);
                }
                None
            },
        }
    }

    /// Defers one tag, as [`defer_one`] says.
    fn defer_one(&mut self, tag: Tag, duration: Duration, minimum: Duration)
        requires
            old(self).wf(),
        ensures
            final(self).wf(),
            final(self)@ == defer_one(old(self)@, tag@, duration@, minimum@),
    {
        let ghost before = entry_views(self.entries@);
        match self.position(&tag) {
            Some(i) => {
                proof {
                    lemma_pairs_index(before, i as int);
                }
                let current = self.entries[i].1;
                let next = current.saturating_add(duration).max(minimum);
                self.entries.set(i, (tag, next));
                proof {
                    assert(entry_views(self.entries@) =~= before.update(i as int, (before[i as int].0, next@)));
                    lemma_pairs_update(before, i as int, next@);
                }
            },
            None => {
                proof {
                    assert forall|i: int| 0 <= i < before.len() implies before[i].0 != tag@ by {
                        assert(self.entries@[i].0@ != tag@);
                    }
                    lemma_pairs_absent(before, tag@);
                }
                let ghost tv = tag@;
                self.entries.push((tag, minimum));
                proof {
                    assert(entry_views(self.entries@) =~= before.push((tv, minimum@)));
                    lemma_pairs_push(before, tv, minimum@);
                }
            },
        }
    }

    /// Defers all tags selected by `query`, as [`deferred`] says, for a request
    /// owned by `owner`, at time `now`.
    pub fn apply_defer(&mut self, query: TagQuery, owner: Tag, duration: Duration, now: Duration)
        requires
            old(self).wf(),
        ensures
            final(self).wf(),
            final(self)@ == deferred(old(self)@, query@, owner@, duration@, now@),
    {
        let minimum = now.saturating_add(duration);
        match query {
            TagQuery::Owner => self.defer_one(owner, duration, minimum),
            TagQuery::Single(x) => self.defer_one(x, duration, minimum),
            TagQuery::Every => self.defer_one(Tag::Fallback, duration, minimum),
            TagQuery::List(xs) => {
                let ghost ts = tag_views(xs@);
                let ghost start = self@;
                for i in 0..xs.len()
                    invariant
                        self.wf(),
                        ts == tag_views(xs@),
                        self@ == defer_all(start, ts.take(i as int), duration@, minimum@),
                {
                    assert(ts.take(i + 1).drop_last() == ts.take(i as int));
                    self.defer_one(xs[i].duplicate(), duration, minimum);
                }
                assert(ts.take(xs.len() as int) == ts);
            },
        }
    }

    /// Applies a flow-control decision to the deadlines, as [`notified`] says,
    /// and reports a `Fail` decision as the error that its cause describes,
    /// as [`decision_failure`] says; the other decisions succeed.
    pub fn notify(&mut self, flow: FlowControl, owner: Tag, now: Duration) -> (r: Result<(), Error>)
        requires
            old(self).wf(),
        ensures
            final(self).wf(),
            final(self)@ == notified(old(self)@, flow@, owner@, now@),
            match decision_failure(flow@) {
                Some(v) => r matches Err(e) && e@ == v,
                None => r is Ok,
            },
    {
        match flow {
            FlowControl::Wait(q, d) => {
                self.apply_defer(q, owner, d, now);
                Ok(())
            },
            FlowControl::Hold(q, d) => {
                self.apply_defer(q, owner, d, now);
                Ok(())
            },
            FlowControl::Fail(_, cause) => Err(Error::from_boxed(cause)),
            FlowControl::Continue => Ok(()),
            FlowControl::Skip => Ok(()),
        }
    }

    /// Records how the processing of one request ended, as the runner does.
    /// When the worker decided, the decision is applied for the request's
    /// owner tag and reported as [`DeferTable::notify`] does. When the
    /// backend failed, the decision that the error stands for is applied for
    /// the fallback tag, and the backend's error is reported.
    pub fn record_outcome(&mut self, outcome: Result<(FlowControl, Tag), Error>, now: Duration) -> (r: Result<(), Error>)
        requires
            old(self).wf(),
        ensures
            final(self).wf(),
            final(self)@ == match outcome {
                Ok((f, owner)) => notified(old(self)@, f@, owner@, now@),
                Err(e) => notified(old(self)@, error_flow_control(e@), TagView::Fallback, now@),
            },
            match outcome {
                Ok((f, _)) => match decision_failure(f@) {
                    Some(v) => r matches Err(e) && e@ == v,
                    None => r is Ok,
                },
                Err(e) => r matches Err(x) && x@ == e@,
            },
    {
        match outcome {
            Ok((flow, owner)) => self.notify(flow, owner, now),
            Err(e) => {
                let flow = e.duplicate().into_flow_control();
                let _ = self.notify(flow, Tag::Fallback, now);
                Err(e)
            },
        }
    }
}

/// The tags that a query defers for a request owned by `owner`: the owner's
/// tag (even the fallback tag), the single tag, every listed tag, or the
/// fallback tag for every tag.
pub open spec fn defer_targets(query: TagQueryView, owner: TagView) -> Seq<TagView> {
    match query {
        TagQueryView::Owner => seq![owner],
        TagQueryView::Single(x) => seq![x],
        TagQueryView::Every => seq![TagView::Fallback],
        TagQueryView::List(xs) => xs,
    }
}

proof fn lemma_defer_all_facts(m: Map<TagView, nat>, ts: Seq<TagView>, duration: nat, minimum: nat)
    requires
        forall|t: TagView| #[trigger] m.contains_key(t) ==> m[t] <= max_nanos(),
        minimum <= max_nanos(),
    ensures
        forall|t: TagView| #[trigger] defer_all(m, ts, duration, minimum).contains_key(t) ==> defer_all(m, ts, duration, minimum)[t] <= max_nanos(),
        forall|t: TagView| #[trigger] m.contains_key(t) ==> defer_all(m, ts, duration, minimum).contains_key(t)
            && defer_all(m, ts, duration, minimum)[t] >= m[t],
        forall|t: TagView| ts.contains(t) ==> #[trigger] defer_all(m, ts, duration, minimum).contains_key(t)
            && defer_all(m, ts, duration, minimum)[t] >= minimum,
        forall|t: TagView| !ts.contains(t) ==> (#[trigger] defer_all(m, ts, duration, minimum).contains_key(t)
            == m.contains_key(t)) && (m.contains_key(t) ==> defer_all(m, ts, duration, minimum)[t] == m[t]),
    decreases ts.len(),
{
    if ts.len() > 0 {
        let rest = ts.drop_last();
        let last = ts.last();
        let prev = defer_all(m, rest, duration, minimum);
        let next = defer_all(m, ts, duration, minimum);
        lemma_defer_all_facts(m, rest, duration, minimum);
        assert(next == defer_one(prev, last, duration, minimum));
        assert forall|t: TagView| #[trigger] m.contains_key(t) implies next.contains_key(t) && next[t] >= m[t] by {
            assert(prev.contains_key(t));
        }
        assert forall|t: TagView| #[trigger] next.contains_key(t) implies next[t] <= max_nanos() by {
            if t != last {
                assert(prev.contains_key(t));
            }
        }
        assert forall|t: TagView| ts.contains(t) implies #[trigger] next.contains_key(t) && next[t] >= minimum by {
            if t != last {
                let i = choose|i: int| 0 <= i < ts.len() && ts[i] == t;
                assert(i != ts.len() - 1);
                assert(rest[i] == t);
                assert(rest.contains(t));
                assert(prev.contains_key(t));
            }
        }
        assert forall|t: TagView| !ts.contains(t) implies (#[trigger] next.contains_key(t) == m.contains_key(t)) && (
        m.contains_key(t) ==> next[t] == m[t]) by {
            assert(ts[ts.len() - 1] == last);
            assert forall|i: int| 0 <= i < rest.len() implies rest[i] != t by {
                assert(ts[i] == rest[i]);
            }
            assert(!rest.contains(t));
            assert(prev.contains_key(t) == m.contains_key(t));
        }
    }
}

/// The deadlines a query sets are those of deferring its targets in turn.
proof fn lemma_deferred_targets(m: Map<TagView, nat>, query: TagQueryView, owner: TagView, duration: nat, now: nat)
    ensures
        deferred(m, query, owner, duration, now) == defer_all(
            m,
            defer_targets(query, owner),
            duration,
            sat_add(now, duration),
        ),
{
    let ts = defer_targets(query, owner);
    let minimum = sat_add(now, duration);
    if !(query is List) {
        assert(ts.drop_last() =~= Seq::<TagView>::empty());
        assert(defer_all(m, Seq::<TagView>::empty(), duration, minimum) == m);
        assert(defer_all(m, ts, duration, minimum) == defer_one(m, ts.last(), duration, minimum));
    }
}

/// A decision never brings a deadline forward, nor forgets a deferred tag.
pub proof fn lemma_notified_never_earlier(m: Map<TagView, nat>, f: FlowControlView, owner: TagView, now: nat)
    requires
        forall|t: TagView| #[trigger] m.contains_key(t) ==> m[t] <= max_nanos(),
    ensures
        forall|t: TagView| #[trigger] m.contains_key(t) ==> notified(m, f, owner, now).contains_key(t)
            && notified(m, f, owner, now)[t] >= m[t],
{
    match f {
        FlowControlView::Wait(q, d) => {
            lemma_deferred_targets(m, q, owner, d, now);
            lemma_defer_all_facts(m, defer_targets(q, owner), d, sat_add(now, d));
        },
        FlowControlView::Hold(q, d) => {
            lemma_deferred_targets(m, q, owner, d, now);
            lemma_defer_all_facts(m, defer_targets(q, owner), d, sat_add(now, d));
        },
        _ => {},
    }
}

/// Deferring by a query puts each of its targets off until at least
/// `duration` from now, and leaves every other tag as it was.
pub proof fn lemma_deferred_reach(m: Map<TagView, nat>, query: TagQueryView, owner: TagView, duration: nat, now: nat)
    requires
        forall|t: TagView| #[trigger] m.contains_key(t) ==> m[t] <= max_nanos(),
    ensures
        forall|t: TagView| defer_targets(query, owner).contains(t) ==> #[trigger] deferred(
            m,
            query,
            owner,
            duration,
            now,
        ).contains_key(t) && deferred(m, query, owner, duration, now)[t] >= sat_add(now, duration),
        forall|t: TagView| !defer_targets(query, owner).contains(t) ==> (#[trigger] deferred(
            m,
            query,
            owner,
            duration,
            now,
        ).contains_key(t) == m.contains_key(t)) && (m.contains_key(t) ==> deferred(
            m,
            query,
            owner,
            duration,
            now,
        )[t] == m[t]),
{
    let ts = defer_targets(query, owner);
    let r = deferred(m, query, owner, duration, now);
    lemma_deferred_targets(m, query, owner, duration, now);
    lemma_defer_all_facts(m, ts, duration, sat_add(now, duration));
    assert forall|t: TagView| ts.contains(t) implies #[trigger] r.contains_key(t) && r[t] >= sat_add(now, duration) by {
        assert(defer_all(m, ts, duration, sat_add(now, duration)).contains_key(t));
    }
}

} // verus!
