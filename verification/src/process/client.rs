//! The client's settings: backend, worker, concurrency limit and the requests
//! that seed the queue.
use vstd::prelude::*;

use crate::context::request::Request;
use crate::dataset::{written, Dataset};
use crate::error::Error;

verus! {

/// The concurrency limit that `with_concurrency_limit(limit)` sets: never below 1.
pub open spec fn effective_limit(limit: usize) -> usize {
    if limit >= 1 { limit } else { 1 }
}

/// Holds a backend and a worker, the number of requests processed at once,
/// and the requests queued when processing starts.
#[derive(Debug)]
pub struct Client<B, W> {
    backend: B,
    worker: W,
    limit: usize,
    initial: Vec<Request>,
}

impl<B, W> Client<B, W> {
    #[verifier::type_invariant]
    spec fn positive_limit(self) -> bool {
        self.limit >= 1
    }

    /// The concurrency limit.
    pub closed spec fn limit(&self) -> usize {
        self.limit
    }

    /// The requests queued when processing starts, in the order they were added.
    pub closed spec fn initial(&self) -> Seq<Request> {
        self.initial@
    }

    /// The backend.
    pub closed spec fn backend_spec(&self) -> B {
        self.backend
    }

    /// The worker.
    pub closed spec fn worker_spec(&self) -> W {
        self.worker
    }

    /// Creates a client with a concurrency limit of 8 and no initial requests.
    pub fn new(backend: B, worker: W) -> (c: Client<B, W>)
        ensures
            c.backend_spec() == backend,
            c.worker_spec() == worker,
            c.limit() == 8,
            c.initial().len() == 0,
    {
        Client { backend, worker, limit: 8, initial: Vec::new() }
    }

    /// Returns the backend.
    pub fn backend(&self) -> (b: &B)
        ensures
            *b == self.backend_spec(),
    {
        &self.backend
    }

    /// Returns the worker.
    pub fn worker(&self) -> (w: &W)
        ensures
            *w == self.worker_spec(),
    {
        &self.worker
    }

    /// Returns the concurrency limit.
    pub fn concurrency_limit(&self) -> (n: usize)
        ensures
            n == self.limit(),
            n >= 1,
    {
        proof {
            use_type_invariant(self);
        }
        self.limit
    }

    /// Sets the maximum number of requests processed at once; the minimum is 1.
    pub fn with_concurrency_limit(self, limit: usize) -> (c: Client<B, W>)
        ensures
            c.limit() == effective_limit(limit),
            c.initial() == self.initial(),
            c.backend_spec() == self.backend_spec(),
            c.worker_spec() == self.worker_spec(),
    {
        let limit = if limit >= 1 { limit } else { 1 };
        Client { limit, ..self }
    }

    /// Adds a request to the ones queued when processing starts.
    pub fn with_initial_request(self, request: Request) -> (c: Client<B, W>)
        ensures
            c.initial() == self.initial().push(request),
            c.limit() == self.limit(),
            c.backend_spec() == self.backend_spec(),
            c.worker_spec() == self.worker_spec(),
    {
        proof {
            use_type_invariant(&self);
        }
        let mut initial = self.initial;
        initial.push(request);
        Client { initial, ..self }
    }

    /// Adds requests, in order, to the ones queued when processing starts.
    pub fn with_initial_requests(self, requests: Vec<Request>) -> (c: Client<B, W>)
        ensures
            c.initial() == self.initial() + requests@,
            c.limit() == self.limit(),
            c.backend_spec() == self.backend_spec(),
            c.worker_spec() == self.worker_spec(),
    {
        proof {
            use_type_invariant(&self);
        }
        let mut initial = self.initial;
        let mut requests = requests;
        initial.append(&mut requests);
        Client { initial, ..self }
    }

    /// Takes the initial requests, in the order they are written to the
    /// queue: the last added first.
    pub fn take_initial(&mut self) -> (r: Vec<Request>)
        ensures
            r@ == old(self).initial().reverse(),
            final(self).initial().len() == 0,
            final(self).limit() == old(self).limit(),
            final(self).backend_spec() == old(self).backend_spec(),
            final(self).worker_spec() == old(self).worker_spec(),
    {
        proof {
            use_type_invariant(&*self);
        }
        let mut requests: Vec<Request> = Vec::new();
        std::mem::swap(&mut requests, &mut self.initial);
        let ghost all = requests@;
        let mut out: Vec<Request> = Vec::new();
        while requests.len() > 0
            invariant
                requests@.len() <= all.len(),
                requests@ == all.take(requests@.len() as int),
                out@ == all.reverse().take(all.len() - requests@.len()),
            decreases requests.len(),
        {
            let ghost k = requests@.len() as int;
            let request = requests.pop().unwrap();
            assert(all.reverse()[all.len() - k] == all[k - 1]);
            assert(all.reverse().take(all.len() - k + 1) == all.reverse().take(all.len() - k).push(all[k - 1]));
            out.push(request);
            assert(requests@ == all.take(k - 1));
        }
        assert(all.reverse().take(all.len() as int) == all.reverse());
        out
    }

    /// Takes the initial requests and writes them to `queue`, the last added
    /// first; stops at the first failed write. The initial requests are gone
    /// afterwards, whatever the outcome.
    pub fn seed<D: Dataset<Request>>(&mut self, queue: &mut D) -> (r: Result<(), Error>)
        ensures
            final(self).initial().len() == 0,
            final(self).limit() == old(self).limit(),
            final(self).backend_spec() == old(self).backend_spec(),
            final(self).worker_spec() == old(self).worker_spec(),
            final(queue).writes_to_front() == old(queue).writes_to_front(),
            old(queue).never_fails() ==> r is Ok,
            r is Ok ==> final(queue).items() == written(
                old(queue).items(),
                old(self).initial().reverse(),
                old(queue).writes_to_front(),
            ),
    {
        proof {
            use_type_invariant(&*self);
        }
        let mut requests: Vec<Request> = Vec::new();
        std::mem::swap(&mut requests, &mut self.initial);
        let ghost all = requests@;
        let ghost start = queue.items();
        let ghost front = queue.writes_to_front();
        while requests.len() > 0
            invariant
                front == old(queue).writes_to_front(),
                queue.writes_to_front() == front,
                queue.never_fails() == old(queue).never_fails(),
                start == old(queue).items(),
                all == old(self).initial(),
                self.initial().len() == 0,
                self.limit() == old(self).limit(),
                self.backend_spec() == old(self).backend_spec(),
                self.worker_spec() == old(self).worker_spec(),
                requests@.len() <= all.len(),
                requests@ == all.take(requests@.len() as int),
                queue.items() == written(start, all.reverse().take(all.len() - requests@.len()), front),
            decreases requests.len(),
        {
            let ghost k = requests@.len() as int;
            let request = match requests.pop() {
                Some(x) => x,
                None => {
                    return Ok(());
                },
            };
            assert(all.reverse().take(all.len() - k + 1).drop_last() == all.reverse().take(all.len() - k));
            assert(all.reverse().take(all.len() - k + 1).last() == all[k - 1]);
            assert(all.take(k - 1) == all.take(k).drop_last());
            match queue.write(request) {
                Ok(()) => {},
                Err(e) => {
                    return Err(e);
                },
            }
        }
        assert(all.reverse().take(all.len() as int) == all.reverse());
        Ok(())
    }
}

} // verus!
