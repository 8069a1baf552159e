//! The decisions of a run: when to take the next request from the queue,
//! when to wait for one under way, and when and how the run is over.
use vstd::prelude::*;

use crate::error::{Error, ErrorView};

verus! {

/// What the runner is to do next.
#[derive(Debug)]
pub enum RunAction {
    /// Read the next request from the queue and start it.
    ReadNext,
    /// Wait until one of the requests under way finishes.
    AwaitOne,
    /// The run is over after this many successfully processed requests.
    Finish(usize),
    /// The run is over and fails with this error, the first that a request
    /// or the queue reported.
    Fail(Error),
}

/// The bookkeeping of a run: how many requests may be under way at once,
/// how many are, how many finished successfully, whether reading has
/// stopped, and the first failure.
#[derive(Debug)]
pub struct RunState {
    limit: usize,
    running: usize,
    total: usize,
    stopped: bool,
    failure: Option<Error>,
}

/// The mathematical value of a [`RunState`].
pub struct RunView {
    pub limit: nat,
    pub running: nat,
    pub total: nat,
    pub stopped: bool,
    pub failure: Option<ErrorView>,
}

impl View for RunState {
    type V = RunView;

    closed spec fn view(&self) -> RunView {
        RunView {
            limit: self.limit as nat,
            running: self.running as nat,
            total: self.total as nat,
            stopped: self.stopped,
            failure: match self.failure {
                Some(e) => Some(e@),
                None => None,
            },
        }
    }
}

/// Whether a run state calls for action `a`: read while reading goes on and
/// there is room, wait while requests are under way, and otherwise end: with
/// the first failure if there was one, with the number of successfully
/// processed requests if not.
pub open spec fn calls_for(s: RunView, a: RunAction) -> bool {
    let reading = !s.stopped && s.running < s.limit;
    match a {
        RunAction::ReadNext => reading,
        RunAction::AwaitOne => !reading && s.running > 0,
        RunAction::Finish(n) => !reading && s.running == 0 && s.failure is None && n == s.total,
        RunAction::Fail(e) => !reading && s.running == 0 && s.failure == Some(e@),
    }
}

/// The failure kept after another one: the first one stays.
pub open spec fn first_failure(kept: Option<ErrorView>, e: ErrorView) -> Option<ErrorView> {
    match kept {
        Some(k) => Some(k),
        None => Some(e),
    }
}

impl RunState {
    #[verifier::type_invariant]
    spec fn within_limit(self) -> bool {
        &&& 1 <= self.limit
        &&& self.running <= self.limit
        &&& self.running + self.total <= usize::MAX
        &&& self.failure is Some ==> self.stopped
    }

    /// A run with nothing under way and at most `limit` requests at once.
    pub fn new(limit: usize) -> (s: RunState)
        requires
            limit >= 1,
        ensures
            s@ == (RunView { limit: limit as nat, running: 0, total: 0, stopped: false, failure: None }),
            s@.running <= s@.limit,
    {
        RunState { limit, running: 0, total: 0, stopped: false, failure: None }
    }

    /// The number of requests started so far and not failed: those under way
    /// and those finished successfully.
    pub fn started(&self) -> (n: usize)
        ensures
            n == self@.running + self@.total,
    {
        proof {
            use_type_invariant(self);
        }
        self.running + self.total
    }

    /// The next action, as [`calls_for`] says; a requested shutdown stops
    /// the reading first.
    pub fn next_action(&mut self, shutdown: bool) -> (a: RunAction)
        ensures
            final(self)@ == (RunView { stopped: old(self)@.stopped || shutdown, ..old(self)@ }),
            calls_for(final(self)@, a),
            a is ReadNext ==> final(self)@.running < final(self)@.limit,
            final(self)@.running <= final(self)@.limit,
    {
        proof {
            use_type_invariant(&*self);
        }
        if shutdown {
            self.stopped = true;
        }
        if !self.stopped && self.running < self.limit {
            RunAction::ReadNext
        } else if self.running > 0 {
            RunAction::AwaitOne
        } else {
            match &self.failure {
                Some(e) => RunAction::Fail(e.duplicate()),
                None => RunAction::Finish(self.total),
            }
        }
    }

    /// Records a read from the queue: a request that was started, none (the
    /// queue is empty), which stops the reading, or the queue's error, which
    /// stops the reading and fails the run unless it failed already.
    pub fn on_read(&mut self, read: Result<bool, Error>)
        requires
            calls_for(old(self)@, RunAction::ReadNext),
            old(self)@.running + old(self)@.total < usize::MAX,
        ensures
            final(self)@.running <= final(self)@.limit,
            match read {
                Ok(true) => final(self)@ == (RunView { running: old(self)@.running + 1, ..old(self)@ }),
                Ok(false) => final(self)@ == (RunView { stopped: true, ..old(self)@ }),
                Err(e) => final(self)@ == (RunView {
                    stopped: true,
                    failure: first_failure(old(self)@.failure, e@),
                    ..old(self)@
                }),
            },
    {
        proof {
            use_type_invariant(&*self);
        }
        match read {
            Ok(true) => {
                self.running = self.running + 1;
            },
            Ok(false) => {
                self.stopped = true;
            },
            Err(e) => {
                self.stopped = true;
                if self.failure.is_none() {
                    self.failure = Some(e);
                }
            },
        }
    }

    /// Records that a request finished: successfully, which counts it, or
    /// with an error, which stops the reading and fails the run unless it
    /// failed already.
    pub fn on_finished(&mut self, outcome: Result<(), Error>)
        requires
            old(self)@.running > 0,
        ensures
            final(self)@.running <= final(self)@.limit,
            match outcome {
                Ok(()) => final(self)@ == (RunView {
                    running: (old(self)@.running - 1) as nat,
                    total: old(self)@.total + 1,
                    ..old(self)@
                }),
                Err(e) => final(self)@ == (RunView {
                    running: (old(self)@.running - 1) as nat,
                    stopped: true,
                    failure: first_failure(old(self)@.failure, e@),
                    ..old(self)@
                }),
            },
    {
        proof {
            use_type_invariant(&*self);
        }
        self.running = self.running - 1;
        match outcome {
            Ok(()) => {
                self.total = self.total + 1;
            },
            Err(e) => {
                self.stopped = true;
                if self.failure.is_none() {
                    self.failure = Some(e);
                }
            },
        }
    }
}

} // verus!
