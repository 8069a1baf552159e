//! The queue of requests that the crawler processes, backed by a dataset.
use vstd::prelude::*;

use crate::context::request::{url_request, Request, RequestSource, RequestView};
use crate::context::tag::{Depth, Tag, TagView};
use crate::dataset::{inserted, Dataset};
use crate::error::{Error, ErrorView};
use crate::text::{bool_str, bool_text, decimal, push_decimal, push_str};

verus! {

/// The request that a source stands for, or the error that turning it into a
/// request gives.
pub open spec fn source_request(s: RequestSource) -> Result<RequestView, ErrorView> {
    match s {
        RequestSource::Request(r) => Ok(r@),
        RequestSource::Url(u) => url_request(u@),
    }
}

/// `current` if set, `default` otherwise.
pub open spec fn or_else<A>(current: Option<A>, default: Option<A>) -> Option<A> {
    match current {
        Some(x) => Some(x),
        None => default,
    }
}

/// The depth of a branched request: one more than the queue's depth, stopping
/// at `u32::MAX`.
pub open spec fn branch_depth(depth: u32) -> nat {
    if depth < u32::MAX { (depth + 1) as nat } else { u32::MAX as nat }
}

/// The views of a sequence of requests.
pub open spec fn request_views(s: Seq<Request>) -> Seq<RequestView> {
    s.map_values(|x: Request| x@)
}

proof fn lemma_views_inserted(s: Seq<Request>, x: Request, front: bool)
    ensures
        request_views(inserted(s, x, front)) == inserted(request_views(s), x@, front),
{
    assert(request_views(inserted(s, x, front)) =~= inserted(request_views(s), x@, front));
}

/// A request queue's settings, as the contracts see them.
pub struct QueueSettings {
    pub depth: u32,
    pub default_tag: Option<TagView>,
    pub default_depth: Option<nat>,
}

/// The request that `append` writes: the queue's default tag and depth fill
/// in what the request lacks.
pub open spec fn appended(q: QueueSettings, r: RequestView) -> RequestView {
    RequestView { tag: or_else(r.tag, q.default_tag), depth: or_else(r.depth, q.default_depth), ..r }
}

/// The request that `branch` writes: a missing depth becomes one more than
/// the queue's depth, a missing tag the default tag.
pub open spec fn branched(q: QueueSettings, r: RequestView) -> RequestView {
    RequestView {
        tag: or_else(r.tag, q.default_tag),
        depth: or_else(r.depth, Some(branch_depth(q.depth))),
        ..r
    }
}

/// The request that `append_with_tag` writes: the tag replaces the request's
/// own, the default depth fills in a missing depth.
pub open spec fn appended_with_tag(q: QueueSettings, tag: TagView, r: RequestView) -> RequestView {
    RequestView { tag: Some(tag), depth: or_else(r.depth, q.default_depth), ..r }
}

/// The request that `branch_with_tag` writes: the tag replaces the request's
/// own, the depth becomes one more than the queue's depth.
pub open spec fn branched_with_tag(q: QueueSettings, tag: TagView, r: RequestView) -> RequestView {
    RequestView { tag: Some(tag), depth: Some(branch_depth(q.depth)), ..r }
}

/// A request queue backed by a dataset, with an optional default tag and
/// depth for the requests added to it.
#[derive(Debug)]
pub struct RequestQueue<D> {
    inner: D,
    depth: u32,
    default_tag: Option<Tag>,
    default_depth: Option<Depth>,
}

impl<D: Dataset<Request>> RequestQueue<D> {
    /// The queue's depth and defaults.
    pub closed spec fn settings(&self) -> QueueSettings {
        QueueSettings {
            depth: self.depth,
            default_tag: match self.default_tag {
                Some(t) => Some(t@),
                None => None,
            },
            default_depth: match self.default_depth {
                Some(d) => Some(d@),
                None => None,
            },
        }
    }

    /// The dataset behind the queue.
    pub closed spec fn dataset(&self) -> D {
        self.inner
    }

    /// Creates a queue with no defaults over `inner`, for requests at `depth`.
    pub fn new(inner: D, depth: u32) -> (q: RequestQueue<D>)
        requires
            depth >= 1,
        ensures
            q.dataset() == inner,
            q.settings() == (QueueSettings { depth, default_tag: None, default_depth: None }),
    {
        RequestQueue { inner, depth, default_tag: None, default_depth: None }
    }

    /// Sets the default tag attached to requests that lack one.
    pub fn with_default_tag(self, tag: Tag) -> (q: RequestQueue<D>)
        ensures
            q.dataset() == self.dataset(),
            q.settings() == (QueueSettings { default_tag: Some(tag@), ..self.settings() }),
    {
        RequestQueue { default_tag: Some(tag), ..self }
    }

    /// Sets the default depth attached to requests that lack one.
    pub fn with_default_depth(self, depth: Depth) -> (q: RequestQueue<D>)
        ensures
            q.dataset() == self.dataset(),
            q.settings() == (QueueSettings { default_depth: Some(depth@), ..self.settings() }),
    {
        RequestQueue { default_depth: Some(depth), ..self }
    }

    /// The queue as it is shown for debugging: its depth and whether it has
    /// a default tag and a default depth.
    pub fn to_debug_string(&self) -> (s: String)
        ensures
            s@ == "RequestQueue { depth: "@ + decimal(self.settings().depth as nat) + ", has_default_tag: "@
                + bool_text(self.settings().default_tag is Some) + ", has_default_depth: "@ + bool_text(
                self.settings().default_depth is Some,
            ) + ", .. }"@,
    {
        let mut s = String::from_str("RequestQueue { depth: ");
        push_decimal(&mut s, self.depth as u64);
        push_str(&mut s, ", has_default_tag: ");
        push_str(&mut s, bool_str(self.default_tag.is_some()));
        push_str(&mut s, ", has_default_depth: ");
        push_str(&mut s, bool_str(self.default_depth.is_some()));
        push_str(&mut s, ", .. }");
        s
    }

    /// Gives up the queue for the dataset behind it.
    pub fn into_inner(self) -> (d: D)
        ensures
            d == self.dataset(),
    {
        self.inner
    }

    /// Returns the dataset behind the queue.
    pub fn inner(&self) -> (d: &D)
        ensures
            *d == self.dataset(),
    {
        &self.inner
    }

    /// The depth of requests that `branch` adds.
    fn next_depth(&self) -> (d: Depth)
        ensures
            d@ == branch_depth(self.depth),
    {
        let n: u32 = self.depth.saturating_add(1);
        Depth::new(n as usize)
    }

    /// Attaches the queue's default tag and depth where the request lacks them.
    fn apply_defaults(&self, request: &mut Request)
        ensures
            final(request)@ == appended(self.settings(), old(request)@),
    {
        match &self.default_tag {
            Some(t) => request.tag_if_absent(t.duplicate()),
            None => {},
        }
        match self.default_depth {
            Some(d) => request.depth_if_absent(d),
            None => {},
        }
    }

    /// Inserts a request into the queue, filling in the default tag and depth.
    pub fn append(&mut self, source: RequestSource) -> (r: Result<(), Error>)
        ensures
            final(self).settings() == old(self).settings(),
            match source_request(source) {
                Err(e) => r matches Err(x) && x@ == e && final(self).dataset() == old(self).dataset(),
                Ok(req) => {
                    &&& old(self).dataset().never_fails() ==> r is Ok
                    &&& r is Ok ==> request_views(final(self).dataset().items()) == inserted(
                        request_views(old(self).dataset().items()),
                        appended(old(self).settings(), req),
                        old(self).dataset().writes_to_front(),
                    )
                },
            },
    {
        let mut request = match source.into_request() {
            Ok(x) => x,
            Err(e) => return Err(e),
        };
        self.apply_defaults(&mut request);
        let ghost written = request;
        let r = self.inner.write(request);
        proof {
            lemma_views_inserted(old(self).inner.items(), written, old(self).inner.writes_to_front());
        }
        r
    }

    /// Inserts a request one level deeper than the queue: a missing depth becomes
    /// the queue's depth plus one, a missing tag the default tag.
    pub fn branch(&mut self, source: RequestSource) -> (r: Result<(), Error>)
        ensures
            final(self).settings() == old(self).settings(),
            match source_request(source) {
                Err(e) => r matches Err(x) && x@ == e && final(self).dataset() == old(self).dataset(),
                Ok(req) => {
                    &&& old(self).dataset().never_fails() ==> r is Ok
                    &&& r is Ok ==> request_views(final(self).dataset().items()) == inserted(
                        request_views(old(self).dataset().items()),
                        branched(old(self).settings(), req),
                        old(self).dataset().writes_to_front(),
                    )
                },
            },
    {
        let mut request = match source.into_request() {
            Ok(x) => x,
            Err(e) => return Err(e),
        };
        let depth = self.next_depth();
        request.depth_if_absent(depth);
        match &self.default_tag {
            Some(t) => request.tag_if_absent(t.duplicate()),
            None => {},
        }
        let ghost written = request;
        let r = self.inner.write(request);
        proof {
            lemma_views_inserted(old(self).inner.items(), written, old(self).inner.writes_to_front());
        }
        r
    }

    /// Inserts a request with `tag`, replacing its own; the default depth fills in
    /// a missing depth.
    pub fn append_with_tag(&mut self, tag: Tag, source: RequestSource) -> (r: Result<(), Error>)
        ensures
            final(self).settings() == old(self).settings(),
            match source_request(source) {
                Err(e) => r matches Err(x) && x@ == e && final(self).dataset() == old(self).dataset(),
                Ok(req) => {
                    &&& old(self).dataset().never_fails() ==> r is Ok
                    &&& r is Ok ==> request_views(final(self).dataset().items()) == inserted(
                        request_views(old(self).dataset().items()),
                        appended_with_tag(old(self).settings(), tag@, req),
                        old(self).dataset().writes_to_front(),
                    )
                },
            },
    {
        let mut request = match source.into_request() {
            Ok(x) => x,
            Err(e) => return Err(e),
        };
        request.set_tag(tag);
        match self.default_depth {
            Some(d) => request.depth_if_absent(d),
            None => {},
        }
        let ghost written = request;
        let r = self.inner.write(request);
        proof {
            lemma_views_inserted(old(self).inner.items(), written, old(self).inner.writes_to_front());
        }
        r
    }

    /// Inserts a request with `tag`, replacing its own, one level deeper than the
    /// queue, replacing its own depth.
    pub fn branch_with_tag(&mut self, tag: Tag, source: RequestSource) -> (r: Result<(), Error>)
        ensures
            final(self).settings() == old(self).settings(),
            match source_request(source) {
                Err(e) => r matches Err(x) && x@ == e && final(self).dataset() == old(self).dataset(),
                Ok(req) => {
                    &&& old(self).dataset().never_fails() ==> r is Ok
                    &&& r is Ok ==> request_views(final(self).dataset().items()) == inserted(
                        request_views(old(self).dataset().items()),
                        branched_with_tag(old(self).settings(), tag@, req),
                        old(self).dataset().writes_to_front(),
                    )
                },
            },
    {
        let mut request = match source.into_request() {
            Ok(x) => x,
            Err(e) => return Err(e),
        };
        request.set_tag(tag);
        let depth = self.next_depth();
        request.set_depth(depth);
        let ghost written = request;
        let r = self.inner.write(request);
        proof {
            lemma_views_inserted(old(self).inner.items(), written, old(self).inner.writes_to_front());
        }
        r
    }
}

/// What the queue writes for each way of adding a request. `branch_with_tag`
/// replaces the tag with its own and the depth with one more than the
/// queue's depth (at most `u32::MAX`), whatever the request carried;
/// `branch` gives that depth only to a request without one; `append` and
/// `append_with_tag` fill in the queue's defaults where the request has
/// none. Everything else of the request is written as it is.
pub proof fn lemma_written_requests(q: QueueSettings, tag: TagView, r: RequestView)
    ensures
        branched_with_tag(q, tag, r).tag == Some(tag),
        branched_with_tag(q, tag, r).depth == Some(
            if q.depth < u32::MAX { (q.depth + 1) as nat } else { u32::MAX as nat },
        ),
        branched(q, r).depth == (match r.depth {
            Some(d) => Some(d),
            None => Some(if q.depth < u32::MAX { (q.depth + 1) as nat } else { u32::MAX as nat }),
        }),
        branched(q, r).tag == (match r.tag {
            Some(t) => Some(t),
            None => q.default_tag,
        }),
        appended(q, r).tag == (match r.tag {
            Some(t) => Some(t),
            None => q.default_tag,
        }),
        appended(q, r).depth == (match r.depth {
            Some(d) => Some(d),
            None => q.default_depth,
        }),
        appended_with_tag(q, tag, r).tag == Some(tag),
        appended_with_tag(q, tag, r).depth == (match r.depth {
            Some(d) => Some(d),
            None => q.default_depth,
        }),
        branched_with_tag(q, tag, r) == (RequestView {
            tag: branched_with_tag(q, tag, r).tag,
            depth: branched_with_tag(q, tag, r).depth,
            ..r
        }),
        branched(q, r) == (RequestView { tag: branched(q, r).tag, depth: branched(q, r).depth, ..r }),
        appended(q, r) == (RequestView { tag: appended(q, r).tag, depth: appended(q, r).depth, ..r }),
        appended_with_tag(q, tag, r) == (RequestView {
            tag: appended_with_tag(q, tag, r).tag,
            depth: appended_with_tag(q, tag, r).depth,
            ..r
        }),
{
}

/// A tag or depth that a request carries survives the queue's defaults: the
/// defaults only fill in what is missing, and the tagged operations always
/// attach their tag.
pub proof fn lemma_own_settings_kept(q: QueueSettings, tag: TagView, r: RequestView)
    ensures
        r.tag is Some ==> appended(q, r).tag == r.tag && branched(q, r).tag == r.tag,
        r.depth is Some ==> appended(q, r).depth == r.depth && branched(q, r).depth == r.depth
            && appended_with_tag(q, tag, r).depth == r.depth,
        appended_with_tag(q, tag, r).tag == Some(tag) && branched_with_tag(q, tag, r).tag == Some(tag),
        appended(q, r).uri == r.uri && branched(q, r).uri == r.uri,
{
}

} // verus!
