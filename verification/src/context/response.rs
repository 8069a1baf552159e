//! HTTP responses handed back by clients.
use vstd::prelude::*;

use crate::context::request::Version;
use crate::text::push_str;

verus! {

/// An HTTP response: status code, protocol version, headers and body.
#[derive(Debug)]
pub struct Response {
    status: u16,
    version: Version,
    headers: Vec<(String, String)>,
    body: Vec<u8>,
}

/// The mathematical value of a [`Response`].
pub struct ResponseView {
    pub status: u16,
    pub version: Version,
    pub headers: Seq<(Seq<char>, Seq<char>)>,
    pub body: Seq<u8>,
}

impl View for Response {
    type V = ResponseView;

    closed spec fn view(&self) -> ResponseView {
        ResponseView {
            status: self.status,
            version: self.version,
            headers: self.headers@.map_values(|h: (String, String)| (h.0@, h.1@)),
            body: self.body@,
        }
    }
}

impl Response {
    /// An HTTP/1.1 `200 OK` response with no headers and the given body.
    pub fn new(body: Vec<u8>) -> (r: Response)
        ensures
            r@.status == 200,
            r@.version == Version::Http11,
            r@.headers.len() == 0,
            r@.body == body@,
    {
        let r = Response { status: 200, version: Version::Http11, headers: Vec::new(), body };
        assert(r@.headers =~= Seq::<(Seq<char>, Seq<char>)>::empty());
        r
    }

    /// The same response with one more header.
    pub fn with_header(self, name: &str, value: &str) -> (r: Response)
        ensures
            r@ == (ResponseView { headers: self@.headers.push((name@, value@)), ..self@ }),
    {
        let mut headers = self.headers;
        let mut n = String::new();
        push_str(&mut n, name);
        let mut v = String::new();
        push_str(&mut v, value);
        headers.push((n, v));
        let r = Response { status: self.status, version: self.version, headers, body: self.body };
        assert(r@.headers =~= self@.headers.push((name@, value@)));
        r
    }

    /// The same response with another status code.
    pub fn with_status(self, status: u16) -> (r: Response)
        ensures
            r@ == (ResponseView { status, ..self@ }),
    {
        Response { status, ..self }
    }

    /// The same response with another protocol version.
    pub fn with_version(self, version: Version) -> (r: Response)
        ensures
            r@ == (ResponseView { version, ..self@ }),
    {
        Response { version, ..self }
    }

    /// Returns the protocol version.
    pub fn version(&self) -> (v: Version)
        ensures
            v == self@.version,
    {
        self.version
    }

    /// Returns the headers, in order.
    pub fn headers(&self) -> (h: &Vec<(String, String)>)
        ensures
            h@.map_values(|x: (String, String)| (x.0@, x.1@)) == self@.headers,
    {
        &self.headers
    }

    /// Returns the status code.
    pub fn status(&self) -> (s: u16)
        ensures
            s == self@.status,
    {
        self.status
    }

    /// Returns the body.
    pub fn body(&self) -> (b: &Vec<u8>)
        ensures
            b@ == self@.body,
    {
        &self.body
    }
}

} // verus!
