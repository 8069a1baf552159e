//! A backend, client and worker that does nothing, for testing and debugging.
use vstd::prelude::*;

use crate::context::flow_control::{FlowControl, FlowControlView, IntoFlowControl};
use crate::context::request::Request;
use crate::context::response::Response;
use crate::error::{error_flow_control, Error};

verus! {

/// A no-op backend, client and worker.
///
/// As a client it answers every request with an empty `200 OK` response. As a
/// worker it either always continues, always skips, or resolves the request
/// and continues on success.
#[derive(Debug, Clone, Copy, PartialEq, Eq, Structural)]
pub struct Noop {
    always: Option<bool>,
}

impl Noop {
    /// Creates a no-op worker: `Some(true)` always continues, `Some(false)`
    /// always skips, `None` resolves the request first.
    pub fn new(always: Option<bool>) -> (n: Noop)
        ensures
            n.rule() == always,
    {
        Noop { always }
    }

    /// The rule given at creation.
    pub closed spec fn rule(&self) -> Option<bool> {
        self.always
    }

    /// As a backend: the client is the no-op itself.
    pub fn client(&self) -> (c: Noop)
        ensures
            c == *self,
    {
        *self
    }

    /// As a client: an empty `200 OK` response, whatever the request.
    pub fn resolve(&self, request: Request) -> (r: Result<Response, Error>)
        ensures
            r matches Ok(resp) && resp@.status == 200 && resp@.headers.len() == 0 && resp@.body.len() == 0,
    {
        Ok(Response::new(Vec::new()))
    }

    /// As a worker, before resolving: the decision if the rule makes one,
    /// `None` if the request must be resolved first.
    pub fn decide(&self) -> (f: Option<FlowControl>)
        ensures
            match self.rule() {
                Some(true) => f matches Some(x) && x@ == FlowControlView::Continue,
                Some(false) => f matches Some(x) && x@ == FlowControlView::Skip,
                None => f is None,
            },
    {
        match self.always {
            Some(true) => Some(FlowControl::Continue),
            Some(false) => Some(FlowControl::Skip),
            None => None,
        }
    }

    /// As a worker, after resolving: continue on success, otherwise the
    /// decision that the error stands for.
    pub fn after_resolve(outcome: Result<Response, Error>) -> (f: FlowControl)
        ensures
            match outcome {
                Ok(_) => f@ == FlowControlView::Continue,
                Err(e) => f@ == error_flow_control(e@),
            },
    {
        match outcome {
            Ok(_) => FlowControl::Continue,
            Err(e) => e.into_flow_control(),
        }
    }
}

impl Default for Noop {
    fn default() -> (n: Noop)
        ensures
            n.rule() is None,
    {
        Noop { always: None }
    }
}

} // verus!
