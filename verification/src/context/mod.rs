//! Requests, responses, routing tags and flow control.
pub mod flow_control;
pub mod request;
pub mod request_queue;
pub mod response;
pub mod tag;
