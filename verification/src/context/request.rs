//! HTTP requests with the routing tag and recursion depth that the crawler
//! attaches to them.
use vstd::prelude::*;

use crate::context::tag::{depth_of, Depth, Tag, TagView};
use crate::error::{Error, ErrorKind, ErrorView};
use crate::text::{chars_of, str_eq};

verus! {

/// The HTTP request method: a standard one, or an extension method named
/// by a token.
#[derive(Debug, PartialEq, Eq)]
pub enum Method {
    Get,
    Post,
    Put,
    Delete,
    Head,
    Options,
    Patch,
    Connect,
    Trace,
    Query,
    Extension(String),
}

impl Clone for Method {
    fn clone(&self) -> (m: Method)
        ensures
            method_name(m) == method_name(*self),
            m is Extension <==> *self is Extension,
    {
        self.duplicate()
    }
}

/// The name of a method, as it is sent.
pub open spec fn method_name(m: Method) -> Seq<char> {
    match m {
        Method::Get => "GET"@,
        Method::Post => "POST"@,
        Method::Put => "PUT"@,
        Method::Delete => "DELETE"@,
        Method::Head => "HEAD"@,
        Method::Options => "OPTIONS"@,
        Method::Patch => "PATCH"@,
        Method::Connect => "CONNECT"@,
        Method::Trace => "TRACE"@,
        Method::Query => "QUERY"@,
        Method::Extension(n) => n@,
    }
}

/// The name of one of the standard methods.
pub open spec fn standard_method_name(s: Seq<char>) -> bool {
    ||| s == "GET"@
    ||| s == "POST"@
    ||| s == "PUT"@
    ||| s == "DELETE"@
    ||| s == "HEAD"@
    ||| s == "OPTIONS"@
    ||| s == "PATCH"@
    ||| s == "CONNECT"@
    ||| s == "TRACE"@
    ||| s == "QUERY"@
}

/// A character that may stand in a token: a letter, a digit, or one of
/// ``!#$%&'*+-.^_`|~``.
pub open spec fn is_token_char(c: char) -> bool {
    ||| ('0' <= c && c <= '9')
    ||| ('A' <= c && c <= 'Z')
    ||| ('a' <= c && c <= 'z')
    ||| c == '!' || c == '#' || c == '$' || c == '%' || c == '&' || c == '\''
    ||| c == '*' || c == '+' || c == '-' || c == '.' || c == '^' || c == '_'
    ||| c == '`' || c == '|' || c == '~'
}

/// A valid method name: a non-empty token. Method names are case-sensitive.
pub open spec fn is_method_name(s: Seq<char>) -> bool {
    s.len() > 0 && forall|i: int| 0 <= i < s.len() ==> is_token_char(#[trigger] s[i])
}

/// Whether `c` may stand in a token.
fn token_char(c: char) -> (r: bool)
    ensures
        r == is_token_char(c),
{
    ('0' <= c && c <= '9') || ('A' <= c && c <= 'Z') || ('a' <= c && c <= 'z') || c == '!' || c == '#'
        || c == '$' || c == '%' || c == '&' || c == '\'' || c == '*' || c == '+' || c == '-' || c == '.'
        || c == '^' || c == '_' || c == '`' || c == '|' || c == '~'
}

impl Method {
    /// The method's name, as it is sent.
    pub fn as_str(&self) -> (s: &str)
        ensures
            s@ == method_name(*self),
    {
        match self {
            Method::Get => "GET",
            Method::Post => "POST",
            Method::Put => "PUT",
            Method::Delete => "DELETE",
            Method::Head => "HEAD",
            Method::Options => "OPTIONS",
            Method::Patch => "PATCH",
            Method::Connect => "CONNECT",
            Method::Trace => "TRACE",
            Method::Query => "QUERY",
            Method::Extension(n) => n.as_str(),
        }
    }

    /// A copy of this method.
    pub fn duplicate(&self) -> (m: Method)
        ensures
            method_name(m) == method_name(*self),
            m is Extension <==> *self is Extension,
    {
        match self {
            Method::Get => Method::Get,
            Method::Post => Method::Post,
            Method::Put => Method::Put,
            Method::Delete => Method::Delete,
            Method::Head => Method::Head,
            Method::Options => Method::Options,
            Method::Patch => Method::Patch,
            Method::Connect => Method::Connect,
            Method::Trace => Method::Trace,
            Method::Query => Method::Query,
            Method::Extension(n) => Method::Extension(n.clone()),
        }
    }

    /// The method named `name`, as the `http` crate reads it: a standard
    /// method by its exact (upper-case) name, otherwise an extension method
    /// when the name is a non-empty token, otherwise none.
    pub fn from_name(name: &str) -> (r: Option<Method>)
        ensures
            is_method_name(name@) <==> r is Some,
            r matches Some(m) ==> method_name(m) == name@ && (m is Extension <==> !standard_method_name(name@)),
    {
        proof {
            reveal_strlit("GET");
            reveal_strlit("POST");
            reveal_strlit("PUT");
            reveal_strlit("DELETE");
            reveal_strlit("HEAD");
            reveal_strlit("OPTIONS");
            reveal_strlit("PATCH");
            reveal_strlit("CONNECT");
            reveal_strlit("TRACE");
            reveal_strlit("QUERY");
        }
        if str_eq(name, "GET") {
            Some(Method::Get)
        } else if str_eq(name, "POST") {
            Some(Method::Post)
        } else if str_eq(name, "PUT") {
            Some(Method::Put)
        } else if str_eq(name, "DELETE") {
            Some(Method::Delete)
        } else if str_eq(name, "HEAD") {
            Some(Method::Head)
        } else if str_eq(name, "OPTIONS") {
            Some(Method::Options)
        } else if str_eq(name, "PATCH") {
            Some(Method::Patch)
        } else if str_eq(name, "CONNECT") {
            Some(Method::Connect)
        } else if str_eq(name, "TRACE") {
            Some(Method::Trace)
        } else if str_eq(name, "QUERY") {
            Some(Method::Query)
        } else {
            let cs = chars_of(name);
            if cs.len() == 0 {
                return None;
            }
            let mut i: usize = 0;
            while i < cs.len()
                invariant
                    cs@ == name@,
                    i <= cs.len(),
                    forall|j: int| 0 <= j < i ==> is_token_char(#[trigger] name@[j]),
                decreases cs.len() - i,
            {
                if !token_char(cs[i]) {
                    return None;
                }
                i = i + 1;
            }
            Some(Method::Extension(String::from_str(name)))
        }
    }
}

/// The HTTP protocol version of a request.
#[derive(Debug, Clone, Copy, PartialEq, Eq, Structural)]
pub enum Version {
    Http09,
    Http10,
    Http11,
    H2,
    H3,
}

/// What the `http` crate makes of `uri`: the parsed URI as it renders it, or
/// the message of the error it reports.
pub uninterp spec fn parsed_uri(uri: Seq<char>) -> Result<Seq<char>, Seq<char>>;

/// Parses a URI the way an `http` request builder does.
/// Calls `http::Uri::try_from`; the result is named by [`parsed_uri`]: the
/// parsed URI rendered by its `Display`, or the text of the `InvalidUri` error.
#[verifier::external_body]
fn check_uri(uri: &str) -> (r: Result<String, String>)
    ensures
        match r {
            Ok(t) => parsed_uri(uri@) == Ok::<Seq<char>, Seq<char>>(t@),
            Err(m) => parsed_uri(uri@) == Err::<Seq<char>, Seq<char>>(m@),
        },
{
    match http::Uri::try_from(uri) {
        Ok(u) => Ok(u.to_string()),
        Err(e) => Err(e.to_string()),
    }
}

/// What the `http` crate makes of a header name: the name as it stores it,
/// or the message of the error it reports.
pub uninterp spec fn parsed_header_name(name: Seq<char>) -> Result<Seq<char>, Seq<char>>;

/// Parses a header name the way an `http` request builder does.
/// Calls `http::HeaderName::try_from`; the result is named by
/// [`parsed_header_name`]: the name's `as_str`, or the text of the
/// `InvalidHeaderName` error.
#[verifier::external_body]
fn check_header_name(name: &str) -> (r: Result<String, String>)
    ensures
        match r {
            Ok(n) => parsed_header_name(name@) == Ok::<Seq<char>, Seq<char>>(n@),
            Err(m) => parsed_header_name(name@) == Err::<Seq<char>, Seq<char>>(m@),
        },
{
    match http::HeaderName::try_from(name) {
        Ok(n) => Ok(n.as_str().to_string()),
        Err(e) => Err(e.to_string()),
    }
}

/// A character that a header value may hold: any but the control
/// characters, tab excepted. (The `http` crate refuses a value that has a
/// byte below 32 other than a tab, or the byte 127; every other character's
/// bytes are accepted.)
pub open spec fn is_header_value_char(c: char) -> bool {
    (c >= ' ' && c != '\u{7f}') || c == '\t'
}

/// A header value that the `http` crate accepts.
pub open spec fn valid_header_value(value: Seq<char>) -> bool {
    forall|i: int| 0 <= i < value.len() ==> is_header_value_char(#[trigger] value[i])
}

/// The message of the error that the `http` crate reports for a refused
/// header value.
pub open spec fn header_value_message() -> Seq<char> {
    "failed to parse header value"@
}

/// Checks a header value the way an `http` request builder does.
/// Calls `http::HeaderValue::try_from`, which accepts the value exactly when
/// every character is allowed by [`is_header_value_char`], and otherwise
/// fails with an `InvalidHeaderValue` whose text is always
/// "failed to parse header value".
#[verifier::external_body]
fn check_header_value(value: &str) -> (r: Result<(), String>)
    ensures
        r is Ok <==> valid_header_value(value@),
        r matches Err(m) ==> m@ == header_value_message(),
{
    match http::HeaderValue::try_from(value) {
        Ok(_) => Ok(()),
        Err(e) => Err(e.to_string()),
    }
}

/// The error that building a request gives when the `http` crate refused
/// its URI or one of its headers with `message`.
pub open spec fn http_build_error(message: Seq<char>) -> ErrorView {
    ErrorView { kind: ErrorKind::Http, message: "HTTP error"@, source: Some(message), query: None }
}

/// The views of a request's headers, in the order they were added.
pub open spec fn header_views(s: Seq<(String, String)>) -> Seq<(Seq<char>, Seq<char>)> {
    s.map_values(|h: (String, String)| (h.0@, h.1@))
}

/// An HTTP request together with its routing tag and recursion depth, if set.
#[derive(Debug)]
pub struct Request {
    method: Method,
    uri: String,
    target: String,
    version: Version,
    headers: Vec<(String, String)>,
    tag: Option<Tag>,
    depth: Option<Depth>,
    body: Vec<u8>,
}

/// The mathematical value of a [`Request`]: the URI as it was given and as
/// the `http` crate renders it once parsed (the target that is requested),
/// the protocol version, the headers in order, the tag, depth and body.
pub struct RequestView {
    pub method: Seq<char>,
    pub uri: Seq<char>,
    pub target: Seq<char>,
    pub version: Version,
    pub headers: Seq<(Seq<char>, Seq<char>)>,
    pub tag: Option<TagView>,
    pub depth: Option<nat>,
    pub body: Seq<u8>,
}

/// The view of an optional tag.
pub open spec fn opt_tag_view(t: Option<Tag>) -> Option<TagView> {
    match t {
        Some(x) => Some(x@),
        None => None,
    }
}

/// The view of an optional depth.
pub open spec fn opt_depth_view(d: Option<Depth>) -> Option<nat> {
    match d {
        Some(x) => Some(x@),
        None => None,
    }
}

impl View for Request {
    type V = RequestView;

    closed spec fn view(&self) -> RequestView {
        RequestView {
            method: method_name(self.method),
            uri: self.uri@,
            target: self.target@,
            version: self.version,
            headers: header_views(self.headers@),
            tag: opt_tag_view(self.tag),
            depth: opt_depth_view(self.depth),
            body: self.body@,
        }
    }
}

/// The tag of a request, the fallback tag when none is attached.
pub open spec fn tag_or_fallback(r: RequestView) -> TagView {
    match r.tag {
        Some(t) => t,
        None => TagView::Fallback,
    }
}

/// The depth of a request, 1 when none is attached.
pub open spec fn depth_or_min(r: RequestView) -> nat {
    match r.depth {
        Some(d) => d,
        None => 1,
    }
}

impl Request {
    /// Starts building an HTTP/1.1 `GET` request for `/`, without headers.
    pub fn builder() -> (b: RequestBuilder)
        ensures
            b@ == (RequestBuilderView { request: fresh_request(), failure: None }),
    {
        let b = RequestBuilder {
            method: Method::Get,
            uri: String::from_str("/"),
            target: String::from_str("/"),
            version: Version::Http11,
            headers: Vec::new(),
            tag: None,
            depth: None,
            body: Vec::new(),
            failure: None,
        };
        assert(header_views(b.headers@) =~= Seq::<(Seq<char>, Seq<char>)>::empty());
        b
    }

    /// Returns the request method.
    pub fn method(&self) -> (m: Method)
        ensures
            method_name(m) == self@.method,
    {
        self.method.duplicate()
    }

    /// Returns the request URI.
    pub fn uri(&self) -> (u: &str)
        ensures
            u@ == self@.uri,
    {
        self.uri.as_str()
    }

    /// Returns the URI as the `http` crate renders it once parsed: what is
    /// requested.
    pub fn target(&self) -> (t: &str)
        ensures
            t@ == self@.target,
    {
        self.target.as_str()
    }

    /// Returns the protocol version.
    pub fn version(&self) -> (v: Version)
        ensures
            v == self@.version,
    {
        self.version
    }

    /// Returns the headers, names as the `http` crate stores them, in the
    /// order they were added.
    pub fn headers(&self) -> (h: &Vec<(String, String)>)
        ensures
            header_views(h@) == self@.headers,
    {
        &self.headers
    }

    /// Returns the request body.
    pub fn body(&self) -> (b: &Vec<u8>)
        ensures
            b@ == self@.body,
    {
        &self.body
    }

    /// Attaches `tag`, replacing the one attached before.
    pub fn set_tag(&mut self, tag: Tag)
        ensures
            final(self)@ == (RequestView { tag: Some(tag@), ..old(self)@ }),
    {
        self.tag = Some(tag);
    }

    /// Attaches `depth`, replacing the one attached before.
    pub fn set_depth(&mut self, depth: Depth)
        ensures
            final(self)@ == (RequestView { depth: Some(depth@), ..old(self)@ }),
    {
        self.depth = Some(depth);
    }

    /// Attaches `tag` unless a tag is attached already.
    pub fn tag_if_absent(&mut self, tag: Tag)
        ensures
            final(self)@ == (RequestView {
                tag: match old(self)@.tag {
                    Some(t) => Some(t),
                    None => Some(tag@),
                },
                ..old(self)@
            }),
    {
        if self.tag.is_none() {
            self.tag = Some(tag);
        }
    }

    /// Attaches `depth` unless a depth is attached already.
    pub fn depth_if_absent(&mut self, depth: Depth)
        ensures
            final(self)@ == (RequestView {
                depth: match old(self)@.depth {
                    Some(d) => Some(d),
                    None => Some(depth@),
                },
                ..old(self)@
            }),
    {
        if self.depth.is_none() {
            self.depth = Some(depth);
        }
    }
}

/// Extension methods that read the tag and depth attached to a request.
pub trait TaskExt {
    /// Returns a reference to the attached tag.
    fn try_tag(&self) -> Option<&Tag>;

    /// Returns the attached tag, the fallback tag otherwise.
    fn tag(&self) -> Tag;

    /// Returns the recursive depth of this request, 1 if none is attached.
    fn depth(&self) -> usize;
}

impl TaskExt for Request {
    fn try_tag(&self) -> (t: Option<&Tag>)
        ensures
            match t {
                Some(x) => self@.tag == Some(x@),
                None => self@.tag is None,
            },
    {
        match &self.tag {
            Some(t) => Some(t),
            None => None,
        }
    }

    fn tag(&self) -> (t: Tag)
        ensures
            t@ == tag_or_fallback(self@),
    {
        match &self.tag {
            Some(t) => t.duplicate(),
            None => Tag::Fallback,
        }
    }

    fn depth(&self) -> (d: usize)
        ensures
            d == depth_or_min(self@),
    {
        match self.depth {
            Some(d) => d.get(),
            None => Depth::min().get(),
        }
    }
}

/// The request that a new builder starts from: an HTTP/1.1 `GET` request for
/// `/`, without headers, tag, depth or body.
pub open spec fn fresh_request() -> RequestView {
    RequestView {
        method: "GET"@,
        uri: "/"@,
        target: "/"@,
        version: Version::Http11,
        headers: Seq::empty(),
        tag: None,
        depth: None,
        body: Seq::empty(),
    }
}

/// The failure kept after another one: the first one stays.
pub open spec fn first_failure(kept: Option<Seq<char>>, m: Seq<char>) -> Option<Seq<char>> {
    match kept {
        Some(k) => Some(k),
        None => Some(m),
    }
}

/// Builds a [`Request`]. As with the `http` crate's builder, the URI and each
/// header are checked when they are set, and the first one refused makes the
/// build fail.
#[derive(Debug)]
pub struct RequestBuilder {
    method: Method,
    uri: String,
    target: String,
    version: Version,
    headers: Vec<(String, String)>,
    tag: Option<Tag>,
    depth: Option<Depth>,
    body: Vec<u8>,
    failure: Option<String>,
}

/// The mathematical value of a [`RequestBuilder`]: the request it builds, and
/// the message of the first refused URI or header, if any.
pub struct RequestBuilderView {
    pub request: RequestView,
    pub failure: Option<Seq<char>>,
}

impl View for RequestBuilder {
    type V = RequestBuilderView;

    closed spec fn view(&self) -> RequestBuilderView {
        RequestBuilderView {
            request: RequestView {
                method: method_name(self.method),
                uri: self.uri@,
                target: self.target@,
                version: self.version,
                headers: header_views(self.headers@),
                tag: opt_tag_view(self.tag),
                depth: opt_depth_view(self.depth),
                body: self.body@,
            },
            failure: match self.failure {
                Some(m) => Some(m@),
                None => None,
            },
        }
    }
}

/// What building a request for `url` with a fresh builder gives: a `GET`
/// request for the parsed URL, or the error of the `http` crate.
pub open spec fn url_request(url: Seq<char>) -> Result<RequestView, ErrorView> {
    match parsed_uri(url) {
        Ok(t) => Ok(RequestView { uri: url, target: t, ..fresh_request() }),
        Err(m) => Err(http_build_error(m)),
    }
}

impl RequestBuilder {
    /// Keeps the first refusal.
    fn refuse(self, message: String) -> (b: RequestBuilder)
        ensures
            b@ == (RequestBuilderView { failure: first_failure(self@.failure, message@), ..self@ }),
    {
        match self.failure {
            Some(_) => self,
            None => RequestBuilder { failure: Some(message), ..self },
        }
    }

    /// Sets the request method, as the `http` crate reads its name; a name
    /// that is not a valid method makes the build fail.
    pub fn method(self, method: Method) -> (b: RequestBuilder)
        ensures
            is_method_name(method_name(method)) ==> b@ == (RequestBuilderView {
                request: RequestView { method: method_name(method), ..self@.request },
                ..self@
            }),
            !is_method_name(method_name(method)) ==> b@ == (RequestBuilderView {
                failure: first_failure(self@.failure, "invalid HTTP method"@),
                ..self@
            }),
    {
        let checked = Method::from_name(method.as_str());
        match checked {
            Some(m) => RequestBuilder { method: m, ..self },
            None => self.refuse(String::from_str("invalid HTTP method")),
        }
    }

    /// Sets the request URI, which the `http` crate parses; a URI that it
    /// refuses makes the build fail.
    pub fn uri(self, uri: &str) -> (b: RequestBuilder)
        ensures
            match parsed_uri(uri@) {
                Ok(t) => b@ == (RequestBuilderView {
                    request: RequestView { uri: uri@, target: t, ..self@.request },
                    ..self@
                }),
                Err(m) => b@ == (RequestBuilderView { failure: first_failure(self@.failure, m), ..self@ }),
            },
    {
        let parsed = check_uri(uri);
        self.with_parsed_uri(uri, parsed)
    }

    /// Sets the request URI from what parsing `uri` gave: the parsed URI's
    /// rendering, or the parse error's message, which makes the build fail.
    pub fn with_parsed_uri(self, uri: &str, parsed: Result<String, String>) -> (b: RequestBuilder)
        ensures
            match parsed {
                Ok(t) => b@ == (RequestBuilderView {
                    request: RequestView { uri: uri@, target: t@, ..self@.request },
                    ..self@
                }),
                Err(m) => b@ == (RequestBuilderView { failure: first_failure(self@.failure, m@), ..self@ }),
            },
    {
        match parsed {
            Ok(t) => RequestBuilder { uri: String::from_str(uri), target: t, ..self },
            Err(m) => self.refuse(m),
        }
    }

    /// Adds a header, which the `http` crate checks: its name first, then its
    /// value; one that it refuses makes the build fail.
    pub fn header(self, name: &str, value: &str) -> (b: RequestBuilder)
        ensures
            match parsed_header_name(name@) {
                Err(m) => b@ == (RequestBuilderView { failure: first_failure(self@.failure, m), ..self@ }),
                Ok(n) => if valid_header_value(value@) {
                    b@ == (RequestBuilderView {
                        request: RequestView { headers: self@.request.headers.push((n, value@)), ..self@.request },
                        ..self@
                    })
                } else {
                    b@ == (RequestBuilderView { failure: first_failure(self@.failure, header_value_message()), ..self@ })
                },
            },
    {
        let checked_name = check_header_name(name);
        match checked_name {
            Err(m) => self.refuse(m),
            Ok(n) => {
                let checked_value = check_header_value(value);
                self.with_checked_header(Ok(n), value, checked_value)
            },
        }
    }

    /// Adds a header from what checking it gave: the name as stored, or the
    /// name's error; then the value's check. A refusal makes the build fail.
    pub fn with_checked_header(self, name: Result<String, String>, value: &str, value_check: Result<(), String>) -> (b: RequestBuilder)
        ensures
            match name {
                Err(m) => b@ == (RequestBuilderView { failure: first_failure(self@.failure, m@), ..self@ }),
                Ok(n) => match value_check {
                    Err(m) => b@ == (RequestBuilderView { failure: first_failure(self@.failure, m@), ..self@ }),
                    Ok(()) => b@ == (RequestBuilderView {
                        request: RequestView { headers: self@.request.headers.push((n@, value@)), ..self@.request },
                        ..self@
                    }),
                },
            },
    {
        match name {
            Err(m) => self.refuse(m),
            Ok(n) => match value_check {
                Err(m) => self.refuse(m),
                Ok(()) => {
                    let mut b = self;
                    let ghost before = b.headers@;
                    let entry = (n, String::from_str(value));
                    let ghost ev = (entry.0@, entry.1@);
                    b.headers.push(entry);
                    assert(header_views(b.headers@) =~= header_views(before).push(ev));
                    b
                },
            },
        }
    }

    /// Sets the protocol version.
    pub fn version(self, version: Version) -> (b: RequestBuilder)
        ensures
            b@ == (RequestBuilderView { request: RequestView { version, ..self@.request }, ..self@ }),
    {
        RequestBuilder { version, ..self }
    }

    /// Sets the request body.
    pub fn body(self, body: Vec<u8>) -> (b: RequestBuilder)
        ensures
            b@ == (RequestBuilderView { request: RequestView { body: body@, ..self@.request }, ..self@ }),
    {
        RequestBuilder { body, ..self }
    }

    /// Builds the request; fails with an HTTP error whose source is the
    /// message of the first URI or header that was refused.
    pub fn build(self) -> (r: Result<Request, Error>)
        ensures
            match self@.failure {
                None => r matches Ok(req) && req@ == self@.request,
                Some(m) => r matches Err(e) && e@ == http_build_error(m),
            },
    {
        match self.failure {
            None => Ok(Request {
                method: self.method,
                uri: self.uri,
                target: self.target,
                version: self.version,
                headers: self.headers,
                tag: self.tag,
                depth: self.depth,
                body: self.body,
            }),
            Some(m) => Err(Error::with_source(ErrorKind::Http, "HTTP error", m)),
        }
    }
}

/// Extension methods that attach a tag and a depth to a request being built.
pub trait TaskBuilder: Sized {
    /// Attaches a tag.
    fn tag(self, tag: Tag) -> Self;

    /// Attaches a depth value.
    fn depth(self, depth: usize) -> Self;
}

impl TaskBuilder for RequestBuilder {
    fn tag(self, tag: Tag) -> (b: RequestBuilder)
        ensures
            b@ == (RequestBuilderView { request: RequestView { tag: Some(tag@), ..self@.request }, ..self@ }),
    {
        RequestBuilder { tag: Some(tag), ..self }
    }

    fn depth(self, depth: usize) -> (b: RequestBuilder)
        ensures
            b@ == (RequestBuilderView {
                request: RequestView { depth: Some(depth_of(depth as nat)), ..self@.request },
                ..self@
            }),
    {
        RequestBuilder { depth: Some(Depth::new(depth)), ..self }
    }
}

/// A request being processed by the crawler.
#[derive(Debug)]
pub struct Task {
    inner: Request,
}

impl View for Task {
    type V = RequestView;

    closed spec fn view(&self) -> RequestView {
        self.inner@
    }
}

impl Task {
    /// Creates a task from a request.
    pub fn new(request: Request) -> (t: Task)
        ensures
            t@ == request@,
    {
        Task { inner: request }
    }

    /// Returns the underlying request.
    pub fn request(&self) -> (r: &Request)
        ensures
            r@ == self@,
    {
        &self.inner
    }

    /// Returns the underlying request, consuming the task.
    pub fn into_request(self) -> (r: Request)
        ensures
            r@ == self@,
    {
        self.inner
    }

    /// Returns a reference to the attached tag.
    pub fn try_tag(&self) -> (t: Option<&Tag>)
        ensures
            match t {
                Some(x) => self@.tag == Some(x@),
                None => self@.tag is None,
            },
    {
        self.inner.try_tag()
    }

    /// Returns the attached tag, the fallback tag otherwise.
    pub fn tag(&self) -> (t: Tag)
        ensures
            t@ == tag_or_fallback(self@),
    {
        self.inner.tag()
    }

    /// The depth of the wrapped request, 1 when none is attached.
    pub fn depth(&self) -> (d: usize)
        ensures
            d == depth_or_min(self@),
    {
        self.inner.depth()
    }
}

/// Something that a request can be made from: an existing request or a URL.
#[derive(Debug)]
pub enum RequestSource {
    /// An existing HTTP request.
    Request(Request),
    /// A URL that becomes a `GET` request.
    Url(String),
}

impl RequestSource {
    /// A source made of an existing request.
    pub fn from_request(request: Request) -> (s: RequestSource)
        ensures
            s matches RequestSource::Request(r) && r@ == request@,
    {
        RequestSource::Request(request)
    }

    /// A source made of a URL.
    pub fn from_url(url: &str) -> (s: RequestSource)
        ensures
            s matches RequestSource::Url(u) && u@ == url@,
    {
        RequestSource::Url(String::from_str(url))
    }

    /// A source made of an owned URL.
    pub fn from_string(url: String) -> (s: RequestSource)
        ensures
            s matches RequestSource::Url(u) && u@ == url@,
    {
        RequestSource::Url(url)
    }

    /// Turns the source into a request: an existing request as it is, a URL
    /// into a `GET` request without tag, depth, headers or body, provided it
    /// parses.
    pub fn into_request(self) -> (r: Result<Request, Error>)
        ensures
            match self {
                RequestSource::Request(req) => r matches Ok(x) && x@ == req@,
                RequestSource::Url(u) => match url_request(u@) {
                    Ok(v) => r matches Ok(x) && x@ == v,
                    Err(v) => r matches Err(e) && e@ == v,
                },
            },
    {
        match self {
            RequestSource::Request(request) => Ok(request),
            RequestSource::Url(url) => Request::builder().uri(url.as_str()).build(),
        }
    }
}

} // verus!
