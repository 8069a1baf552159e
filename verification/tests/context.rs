use spire::context::flow_control::{flip, FlowControl, IntoFlowControl, TagQuery};
use spire::context::request::{Method, Request, RequestSource, Task, TaskBuilder, TaskExt, Version};
use spire::context::request_queue::RequestQueue;
use spire::context::response::Response;
use spire::context::tag::{Depth, Tag};
use spire::dataset::memory::InMemDataset;
use spire::dataset::{Dataset, DatasetBulkExt};
use spire::error::{Error, ErrorKind};
use spire::time::Duration;

fn make_task(f: fn(spire::context::request::RequestBuilder) -> spire::context::request::RequestBuilder) -> Task {
    let request = Request::builder().uri("https://example.com/");
    let request = f(request).body(Vec::new()).build().unwrap();
    Task::new(request)
}

#[test]
fn with_tag() {
    let task = make_task(|x| x);
    assert_eq!(task.tag(), Tag::Fallback);
    let task = make_task(|x| x.tag(Tag::sequence("")));
    assert_eq!(task.tag(), Tag::sequence(""));
}

#[test]
fn with_depth() {
    let task = make_task(|x| x);
    assert_eq!(task.depth(), 1);
    let task = make_task(|x| x.depth(2));
    assert_eq!(task.depth(), 2);
}

#[test]
fn task_ext_on_request() {
    let request = Request::builder()
        .uri("https://example.com/")
        .tag(Tag::sequence("test"))
        .body(Vec::new())
        .build()
        .unwrap();
    assert_eq!(request.tag(), Tag::sequence("test"));
    assert_eq!(request.depth(), 1);
}

#[test]
fn basic() {
    assert!(matches!(().into_flow_control(), FlowControl::Continue));
    let data = Duration::default();
    assert!(matches!(data.into_flow_control(), FlowControl::Wait(..)));
}

#[test]
fn with_option() {
    let flip: Option<Duration> = Some(Duration::default());
    assert!(matches!(flip.into_flow_control(), FlowControl::Wait(..)));
    let flip: Option<Duration> = None;
    assert!(matches!(flip.into_flow_control(), FlowControl::Continue));
}

#[test]
fn with_result() {
    let flip: Result<Duration, Duration> = Ok(Duration::default());
    assert!(matches!(flip.into_flow_control(), FlowControl::Wait(..)));
    let flip: Result<Duration, Duration> = Err(Duration::default());
    assert!(matches!(flip.into_flow_control(), FlowControl::Hold(..)));
}

#[test]
fn flip_twice_gives_back() {
    let f = flip(flip(FlowControl::Wait(TagQuery::Every, Duration::from_secs(3))));
    match f {
        FlowControl::Wait(TagQuery::Every, d) => assert_eq!(d.as_secs(), 3),
        other => panic!("unexpected {:?}", other),
    }
    assert!(matches!(flip(FlowControl::Continue), FlowControl::Skip));
    assert!(matches!(flip(FlowControl::Skip), FlowControl::Continue));
    assert!(matches!(flip(FlowControl::Fail(TagQuery::Owner, String::from("x"))), FlowControl::Fail(..)));
}

#[test]
fn result_of_unit_error_skips() {
    let r: Result<(), ()> = Err(());
    assert!(matches!(r.into_flow_control(), FlowControl::Skip));
}

#[test]
fn flow_control_accessors() {
    let f = FlowControl::Hold(TagQuery::Single(Tag::sequence("a")), Duration::from_millis(1500));
    assert_eq!(f.duration().as_millis(), 1500);
    assert!(matches!(f.query(), TagQuery::Single(_)));
    assert_eq!(FlowControl::Continue.duration().as_nanos(), 0);
    assert!(matches!(FlowControl::Skip.query(), TagQuery::Owner));
    assert!(matches!(FlowControl::error(String::from("boom")), FlowControl::Hold(TagQuery::Owner, _)));
}

#[test]
fn tag_query_matching() {
    let a = Tag::sequence("a");
    let b = Tag::sequence("b");
    assert!(TagQuery::Owner.is_match(&a, &a));
    assert!(!TagQuery::Owner.is_match(&a, &b));
    assert!(!TagQuery::Owner.is_match(&Tag::Fallback, &Tag::Fallback));
    assert!(TagQuery::Every.is_match(&Tag::Fallback, &a));
    assert!(TagQuery::Single(Tag::rehash(7)).is_match(&Tag::rehash(7), &a));
    assert!(TagQuery::List(vec![a.clone(), b.clone()]).is_match(&b, &Tag::Fallback));
    assert!(!TagQuery::List(vec![a.clone()]).is_match(&b, &Tag::Fallback));
}

#[test]
fn depth_never_below_one() {
    assert_eq!(Depth::new(0).get(), 1);
    assert_eq!(Depth::new(5).get(), 5);
    assert_eq!(Depth::default().get(), 1);
}

#[test]
fn test_request_source_from_str() {
    let source = RequestSource::from_url("https://example.com");
    assert!(matches!(source, RequestSource::Url(_)));
}

#[test]
fn test_request_source_from_string() {
    let url = String::from("https://example.com");
    let source = RequestSource::from_string(url);
    assert!(matches!(source, RequestSource::Url(_)));
}

#[test]
fn test_request_source_from_request() {
    let request = Request::builder().uri("https://example.com").body(Vec::new()).build().unwrap();
    let source = RequestSource::from_request(request);
    assert!(matches!(source, RequestSource::Request(_)));
}

#[test]
fn test_request_source_try_into_request_from_url() {
    let source = RequestSource::Url("https://example.com".to_string());
    let request: Result<Request, Error> = source.into_request();
    assert!(request.is_ok());
    let request = request.unwrap();
    assert_eq!(request.method(), Method::Get);
    assert_eq!(request.uri(), "https://example.com");
}

#[test]
fn test_request_source_try_into_request_from_request() {
    let original_request = Request::builder()
        .method(Method::Post)
        .uri("https://example.com/api")
        .body(Vec::new())
        .build()
        .unwrap();

    let source = RequestSource::Request(original_request);
    let request: Result<Request, Error> = source.into_request();
    assert!(request.is_ok());
    let request = request.unwrap();
    assert_eq!(request.method(), Method::Post);
    assert_eq!(request.uri(), "https://example.com/api");
}

#[test]
fn test_request_source_try_into_request_invalid_url() {
    let source = RequestSource::Url("not a valid url with spaces".to_string());
    let request: Result<Request, Error> = source.into_request();
    assert!(request.is_err());
}

#[test]
fn invalid_url_is_an_http_error() {
    let err = RequestSource::from_url("not a valid url with spaces").into_request().unwrap_err();
    assert_eq!(err.kind(), ErrorKind::Http);
    assert_eq!(err.message(), "HTTP error");
    assert!(err.source().is_some());
}

#[test]
fn uri_check_outcome_decides_the_build() {
    let ok = Request::builder().with_parsed_uri("anything", Ok("anything/".to_string())).build().unwrap();
    assert_eq!(ok.uri(), "anything");
    assert_eq!(ok.target(), "anything/");
    let err = Request::builder()
        .with_parsed_uri("anything", Err("invalid uri character".to_string()))
        .build()
        .unwrap_err();
    assert_eq!(err.kind(), ErrorKind::Http);
    assert_eq!(err.source(), Some("invalid uri character"));
}

#[test]
fn parsed_uri_is_the_target() {
    let request = Request::builder().uri("https://example.com").build().unwrap();
    assert_eq!(request.uri(), "https://example.com");
    assert_eq!(request.target(), "https://example.com/");
    assert_eq!(request.version(), Version::Http11);
}

#[test]
fn headers_are_checked_and_kept_in_order() {
    let request = Request::builder()
        .uri("https://example.com/")
        .header("Accept", "text/html")
        .header("x-trace", "1")
        .version(Version::H2)
        .build()
        .unwrap();
    assert_eq!(
        request.headers(),
        &vec![("accept".to_string(), "text/html".to_string()), ("x-trace".to_string(), "1".to_string())]
    );
    assert_eq!(request.version(), Version::H2);
    let err = Request::builder().header("bad name", "x").uri("not a valid url").build().unwrap_err();
    assert_eq!(err.kind(), ErrorKind::Http);
    assert_eq!(err.source(), Some("invalid HTTP header name"));
    let err = Request::builder().header("x", "bad\nvalue").build().unwrap_err();
    assert_eq!(err.kind(), ErrorKind::Http);
    let checked = Request::builder()
        .with_checked_header(Ok("k".to_string()), "v", Ok(()))
        .with_checked_header(Ok("k2".to_string()), "v2", Err("nope".to_string()))
        .build()
        .unwrap_err();
    assert_eq!(checked.source(), Some("nope"));
}

#[test]
fn methods_are_read_as_http_reads_them() {
    assert_eq!(Method::from_name("GET"), Some(Method::Get));
    assert_eq!(Method::from_name("QUERY"), Some(Method::Query));
    assert_eq!(Method::from_name("PURGE"), Some(Method::Extension("PURGE".to_string())));
    assert_eq!(Method::from_name("get"), Some(Method::Extension("get".to_string())));
    assert_eq!(Method::from_name(""), None);
    assert_eq!(Method::from_name("BAD METHOD"), None);
    assert_eq!(Method::Extension("PURGE".to_string()).as_str(), "PURGE");
    let request = Request::builder().method(Method::Extension("PURGE".to_string())).uri("https://a/").build().unwrap();
    assert_eq!(request.method(), Method::Extension("PURGE".to_string()));
    let normalized = Request::builder().method(Method::Extension("POST".to_string())).build().unwrap();
    assert_eq!(normalized.method(), Method::Post);
    let err = Request::builder().method(Method::Extension("BAD METHOD".to_string())).build().unwrap_err();
    assert_eq!(err.kind(), ErrorKind::Http);
    assert_eq!(err.source(), Some("invalid HTTP method"));
}

#[test]
fn header_values_refuse_control_characters() {
    let ok = Request::builder().header("x", "tab\tand é").build().unwrap();
    assert_eq!(ok.headers()[0].1, "tab\tand é");
    let err = Request::builder().header("x", "del\u{7f}").build().unwrap_err();
    assert_eq!(err.source(), Some("failed to parse header value"));
}

#[test]
fn responses_carry_a_version() {
    let response = Response::new(vec![1]);
    assert_eq!(response.version(), Version::Http11);
    assert_eq!(response.with_version(Version::H2).version(), Version::H2);
}

fn create_test_queue() -> RequestQueue<InMemDataset<Request>> {
    RequestQueue::new(InMemDataset::queue(), 1)
}

#[test]
fn test_append_with_url() {
    let mut queue = create_test_queue();
    let result = queue.append(RequestSource::from_url("https://example.com"));
    assert!(result.is_ok());
}

#[test]
fn test_branch_with_url() {
    let mut queue = create_test_queue();
    let result = queue.branch(RequestSource::from_url("https://example.com"));
    assert!(result.is_ok());
}

#[test]
fn test_append_with_tag() {
    let mut queue = create_test_queue();
    let result = queue.append_with_tag(Tag::sequence("test"), RequestSource::from_url("https://example.com"));
    assert!(result.is_ok());
}

#[test]
fn test_branch_with_tag() {
    let mut queue = create_test_queue();
    let result = queue.branch_with_tag(Tag::sequence("test"), RequestSource::from_url("https://example.com"));
    assert!(result.is_ok());
}

#[test]
fn test_with_default_tag() {
    let mut queue = create_test_queue().with_default_tag(Tag::sequence("default"));
    let result = queue.append(RequestSource::from_url("https://example.com"));
    assert!(result.is_ok());
}

#[test]
fn test_with_default_depth() {
    let mut queue = create_test_queue().with_default_depth(Depth::new(5));
    let result = queue.append(RequestSource::from_url("https://example.com"));
    assert!(result.is_ok());
}

#[test]
fn test_debug_display() {
    let queue = create_test_queue()
        .with_default_tag(Tag::sequence("test"))
        .with_default_depth(Depth::new(3));
    let debug_str = queue.to_debug_string();
    assert!(debug_str.contains("RequestQueue"));
    assert!(debug_str.contains("has_default_tag: true"));
    assert!(debug_str.contains("has_default_depth: true"));
}

#[test]
fn test_try_into_ergonomics() {
    let mut queue = create_test_queue();

    let result1 = queue.append(RequestSource::from_url("https://example.com"));
    assert!(result1.is_ok());

    let url = String::from("https://example.com/page");
    let result2 = queue.branch(RequestSource::from_string(url));
    assert!(result2.is_ok());

    let request = Request::builder().uri("https://example.com/api").body(Vec::new()).build().unwrap();
    let result3 = queue.append_with_tag(Tag::sequence("api"), RequestSource::from_request(request));
    assert!(result3.is_ok());

    let result4 = queue.branch_with_tag(Tag::sequence("detail"), RequestSource::from_url("https://example.com/detail"));
    assert!(result4.is_ok());
}

#[test]
fn queue_defaults_fill_only_what_is_missing() {
    let mut queue = create_test_queue()
        .with_default_tag(Tag::sequence("default"))
        .with_default_depth(Depth::new(4));
    let own = Request::builder()
        .uri("https://example.com/own")
        .tag(Tag::sequence("own"))
        .depth(9)
        .build()
        .unwrap();
    queue.append(RequestSource::from_request(own)).unwrap();
    queue.append(RequestSource::from_url("https://example.com/bare")).unwrap();
    queue.branch(RequestSource::from_url("https://example.com/child")).unwrap();
    let mut data = queue.into_inner();
    let first = data.read().unwrap().unwrap();
    assert_eq!(first.tag(), Tag::sequence("own"));
    assert_eq!(first.depth(), 9);
    let second = data.read().unwrap().unwrap();
    assert_eq!(second.tag(), Tag::sequence("default"));
    assert_eq!(second.depth(), 4);
    let third = data.read().unwrap().unwrap();
    assert_eq!(third.tag(), Tag::sequence("default"));
    assert_eq!(third.depth(), 2);
    assert!(data.read().unwrap().is_none());
}

#[test]
fn tagged_operations_replace_the_tag() {
    let mut queue = RequestQueue::new(InMemDataset::stack(), 7);
    let own = Request::builder().uri("https://example.com/x").tag(Tag::sequence("own")).build().unwrap();
    queue.branch_with_tag(Tag::sequence("forced"), RequestSource::from_request(own)).unwrap();
    let mut data = queue.into_inner();
    let r = data.read().unwrap().unwrap();
    assert_eq!(r.tag(), Tag::sequence("forced"));
    assert_eq!(r.depth(), 8);
}

#[test]
fn queue_hands_out_in_write_order() {
    let mut q: InMemDataset<u32> = InMemDataset::queue();
    q.write_bulk(vec![1, 2, 3]).unwrap();
    assert_eq!(q.read_all().unwrap(), vec![1, 2, 3]);
}

#[test]
fn stack_hands_out_in_reverse_order() {
    let mut s: InMemDataset<u32> = InMemDataset::stack();
    s.write_bulk(vec![1, 2, 3]).unwrap();
    assert_eq!(s.len(), 3);
    assert_eq!(s.read_bulk(2).unwrap(), vec![3, 2]);
    assert_eq!(s.read().unwrap(), Some(1));
    assert!(s.is_empty());
}

#[test]
fn response_parts() {
    let r = Response::new(vec![1, 2]).with_header("a", "b");
    assert_eq!(r.status(), 200);
    assert_eq!(r.body(), &vec![1u8, 2]);
}
