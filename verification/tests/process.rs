use spire::backend::noop::Noop;
use spire::browser::behavior::BrowserBehaviorConfig;
use spire::browser::config::WebDriverConfig;
use spire::browser::connection::BrowserConnection as ClientConnection;
use spire::browser::visit::{user_agent_script, BrowserConnection, VisitAction, VisitEvent, VisitStage};
use spire::context::flow_control::{FlowControl, TagQuery};
use spire::context::request::{Request, TaskExt};
use spire::context::tag::Tag;
use spire::dataset::memory::InMemDataset;
use spire::dataset::{Dataset, DatasetBulkExt};
use spire::error::{Error, ErrorKind};
use spire::process::client::Client;
use spire::process::defer::DeferTable;
use spire::process::run::{RunAction, RunState};
use spire::text::{chars_of, contains, push_signed_decimal, starts_with, str_eq, trim_end_char, trims_to_empty, u64_to_decimal};
use spire::time::Duration;

fn secs(n: u64) -> Duration {
    Duration::from_secs(n)
}

#[test]
fn wait_defers_the_owner() {
    let mut table = DeferTable::new();
    let owner = Tag::sequence("page");
    table.notify(FlowControl::Wait(TagQuery::Owner, secs(5)), owner.clone(), secs(100)).unwrap();
    assert_eq!(table.deadline(&owner), Some(secs(105)));
    assert_eq!(table.deadline(&Tag::Fallback), None);
}

#[test]
fn deferring_again_extends_the_deadline() {
    let mut table = DeferTable::new();
    let t = Tag::rehash(1);
    table.apply_defer(TagQuery::Single(t.clone()), Tag::Fallback, secs(10), secs(0));
    table.apply_defer(TagQuery::Single(t.clone()), Tag::Fallback, secs(10), secs(1));
    assert_eq!(table.deadline(&t), Some(secs(20)));
    table.apply_defer(TagQuery::Single(t.clone()), Tag::Fallback, secs(1), secs(100));
    assert_eq!(table.deadline(&t), Some(secs(101)));
}

#[test]
fn every_defers_the_fallback_and_list_each_tag() {
    let mut table = DeferTable::new();
    table.notify(FlowControl::Hold(TagQuery::Every, secs(2)), Tag::sequence("x"), secs(1)).unwrap();
    assert_eq!(table.deadline(&Tag::Fallback), Some(secs(3)));
    let a = Tag::sequence("a");
    let b = Tag::sequence("b");
    table.notify(FlowControl::Wait(TagQuery::List(vec![a.clone(), b.clone(), a.clone()]), secs(4)), Tag::Fallback, secs(0)).unwrap();
    assert_eq!(table.deadline(&a), Some(secs(8)));
    assert_eq!(table.deadline(&b), Some(secs(4)));
}

#[test]
fn continue_skip_and_fail_leave_deadlines() {
    let mut table = DeferTable::new();
    assert!(table.notify(FlowControl::Continue, Tag::Fallback, secs(1)).is_ok());
    assert!(table.notify(FlowControl::Skip, Tag::Fallback, secs(1)).is_ok());
    let e = table.notify(FlowControl::Fail(TagQuery::Every, "request timeout".to_string()), Tag::Fallback, secs(1)).unwrap_err();
    assert_eq!(e.kind(), ErrorKind::Http);
    assert_eq!(e.message(), "request timeout");
    assert_eq!(e.source(), Some("request timeout"));
    assert_eq!(table.deadline(&Tag::Fallback), None);
}

#[test]
fn backend_failure_holds_the_fallback() {
    let mut table = DeferTable::new();
    let outcome: Result<(FlowControl, Tag), Error> = Err(Error::new(ErrorKind::Backend, "down"));
    let e = table.record_outcome(outcome, secs(50)).unwrap_err();
    assert_eq!(e.kind(), ErrorKind::Backend);
    assert_eq!(e.message(), "down");
    assert_eq!(table.deadline(&Tag::Fallback), Some(secs(50)));
    let failed: Result<(FlowControl, Tag), Error> = Ok((FlowControl::Fail(TagQuery::Owner, "gone".to_string()), Tag::rehash(3)));
    assert_eq!(table.record_outcome(failed, secs(50)).unwrap_err().message(), "gone");
    let ok: Result<(FlowControl, Tag), Error> = Ok((FlowControl::Wait(TagQuery::Owner, secs(1)), Tag::rehash(3)));
    table.record_outcome(ok, secs(50)).unwrap();
    assert_eq!(table.deadline(&Tag::rehash(3)), Some(secs(51)));
}

fn get(uri: &str) -> Request {
    Request::builder().uri(uri).build().unwrap()
}

#[test]
fn client_settings() {
    let client = Client::new(Noop::default(), Noop::new(Some(true)));
    assert_eq!(client.concurrency_limit(), 8);
    let client = client.with_concurrency_limit(0);
    assert_eq!(client.concurrency_limit(), 1);
    let client = client.with_concurrency_limit(32);
    assert_eq!(client.concurrency_limit(), 32);
}

#[test]
fn seeding_writes_the_last_added_first() {
    let mut client = Client::new(Noop::default(), Noop::default())
        .with_initial_request(get("https://a.example/"))
        .with_initial_requests(vec![get("https://b.example/"), get("https://c.example/")]);
    let mut queue: InMemDataset<Request> = InMemDataset::queue();
    client.seed(&mut queue).unwrap();
    let uris: Vec<String> = queue.read_all().unwrap().iter().map(|r| r.uri().to_string()).collect();
    assert_eq!(uris, vec!["https://c.example/", "https://b.example/", "https://a.example/"]);
    let mut again: InMemDataset<Request> = InMemDataset::stack();
    client.seed(&mut again).unwrap();
    assert!(again.is_empty());
}

#[test]
fn noop_worker_rules() {
    assert!(matches!(Noop::new(Some(true)).decide(), Some(FlowControl::Continue)));
    assert!(matches!(Noop::new(Some(false)).decide(), Some(FlowControl::Skip)));
    assert!(Noop::new(None).decide().is_none());
    let response = Noop::default().resolve(get("https://a.example/")).unwrap();
    assert_eq!(response.status(), 200);
    assert!(response.body().is_empty());
    assert!(matches!(Noop::after_resolve(Ok(response)), FlowControl::Continue));
    let e = Error::new(ErrorKind::Http, "x").with_query(TagQuery::Every);
    assert!(matches!(Noop::after_resolve(Err(e)), FlowControl::Fail(TagQuery::Every, _)));
}

#[test]
fn errors_display_and_infer_kinds() {
    assert_eq!(Error::new(ErrorKind::Dataset, "full").to_display_string(), "[dataset] full");
    assert_eq!(Error::from_boxed("request timed out".to_string()).kind(), ErrorKind::Http);
    assert_eq!(Error::from_boxed("read file".to_string()).kind(), ErrorKind::Io);
    assert_eq!(Error::from_boxed("a timeout".to_string()).kind(), ErrorKind::Timeout);
    assert_eq!(Error::from_boxed("boom".to_string()).kind(), ErrorKind::Other);
    assert_eq!(ErrorKind::Worker.as_str(), "worker");
}

#[test]
fn decimal_rendering() {
    assert_eq!(u64_to_decimal(0), "0");
    assert_eq!(u64_to_decimal(18446744073709551615), "18446744073709551615");
    let mut s = String::from("n=");
    push_signed_decimal(&mut s, i64::MIN);
    assert_eq!(s, "n=-9223372036854775808");
}

#[test]
fn duration_arithmetic() {
    assert_eq!(secs(3).saturating_sub(secs(5)), Duration::zero());
    assert_eq!(secs(3).saturating_add(Duration::from_millis(250)).as_millis(), 3250);
    assert_eq!(Duration::from_nanos(7).as_nanos(), 7);
    assert_eq!(secs(10).div(4).as_millis(), 2500);
    assert!(secs(2).longer_than(&secs(1)));
    assert_eq!(secs(2).max(secs(9)), secs(9));
    assert!(secs(u64::MAX).checked_add(secs(1)).is_none());
}

#[test]
fn connection_bookkeeping() {
    let mut c = ClientConnection::with_session(1, (), WebDriverConfig::new("http://h"), Some("s".to_string()), secs(10));
    c.mark_used(secs(12));
    c.mark_used(secs(15));
    c.mark_error();
    assert_eq!(c.request_count(), 2);
    assert_eq!(c.error_count(), 1);
    assert!(c.quick_health_check());
    c.mark_error();
    c.mark_error();
    assert!(!c.quick_health_check());
    let s = c.stats(secs(20));
    assert_eq!(s.age, secs(10));
    assert_eq!(s.idle_time, secs(5));
    assert_eq!(s.config_url, "http://h");
    c.reset_stats();
    assert!(c.quick_health_check());
    c.set_healthy(false);
    assert!(!c.quick_health_check());
}

fn respond_body(action: VisitAction) -> Vec<u8> {
    match action {
        VisitAction::Respond(r) => {
            assert_eq!(r.status(), 200);
            r.body().clone()
        },
        other => panic!("unexpected {:?}", other),
    }
}

#[test]
fn visit_with_defaults_reads_the_html() {
    let conn = BrowserConnection::from_pooled(());
    let config = BrowserBehaviorConfig::default();
    let mut visit = conn.visit("https://example.com/");
    assert!(matches!(visit.step(&config, VisitEvent::Begin), VisitAction::Navigate(u) if u == "https://example.com/"));
    assert!(matches!(visit.step(&config, VisitEvent::Navigated(Ok(()))), VisitAction::AwaitScript(_, t) if t == secs(10)));
    assert!(matches!(visit.step(&config, VisitEvent::Loaded), VisitAction::ReadSource));
    let body = respond_body(visit.step(&config, VisitEvent::Source(Ok("<html></html>".to_string()))));
    assert_eq!(body, b"<html></html>".to_vec());
    assert_eq!(visit.stage, VisitStage::Finished);
}

#[test]
fn visit_fails_on_navigation_and_empty_url() {
    let config = BrowserBehaviorConfig::default();
    let conn = BrowserConnection::from_pooled(());
    let mut visit = conn.visit("");
    match visit.step(&config, VisitEvent::Begin) {
        VisitAction::Fail(e) => assert_eq!(e.message(), "Empty URL provided"),
        other => panic!("unexpected {:?}", other),
    }
    let mut visit = conn.visit("https://x/");
    visit.step(&config, VisitEvent::Begin);
    match visit.step(&config, VisitEvent::Navigated(Err("refused".to_string()))) {
        VisitAction::Fail(e) => assert_eq!(e.message(), "Failed to navigate to https://x/: refused"),
        other => panic!("unexpected {:?}", other),
    }
}

#[test]
fn visit_sets_the_user_agent_and_extracts_text() {
    let mut config = BrowserBehaviorConfig::default();
    config.user_agent = Some("Bot's".to_string());
    config.extract_html = false;
    config.extract_text = true;
    config.wait_for_load = false;
    config.max_response_size = 3;
    let conn = BrowserConnection::from_pooled_with_config((), config);
    let config = conn.config();
    let mut visit = conn.visit("https://x/");
    match visit.step(config, VisitEvent::Begin) {
        VisitAction::RunScript(s) => assert!(s.contains("return 'Bot\\'s';")),
        other => panic!("unexpected {:?}", other),
    }
    assert!(matches!(visit.step(config, VisitEvent::AgentSet), VisitAction::Navigate(_)));
    assert!(matches!(visit.step(config, VisitEvent::Navigated(Ok(()))), VisitAction::ReadText(_)));
    let body = respond_body(visit.step(config, VisitEvent::Text(Some("hello".to_string()))));
    assert_eq!(body, b"hel".to_vec());
}

#[test]
fn visit_falls_back_to_the_source() {
    let mut config = BrowserBehaviorConfig::default();
    config.extract_html = false;
    config.wait_for_load = false;
    let conn = BrowserConnection::from_pooled_with_config(7u8, config);
    assert_eq!(*conn.driver(), 7);
    let config = conn.config();
    let mut visit = conn.visit("https://x/");
    visit.step(config, VisitEvent::Begin);
    assert!(matches!(visit.step(config, VisitEvent::Navigated(Ok(()))), VisitAction::ReadSource));
    let body = respond_body(visit.step(config, VisitEvent::Source(Err("gone".to_string()))));
    assert!(body.is_empty());
}

#[test]
fn html_extraction_failure_fails_the_visit() {
    let config = BrowserBehaviorConfig::default();
    let conn = BrowserConnection::from_pooled(());
    let mut visit = conn.visit("https://x/");
    visit.step(&config, VisitEvent::Begin);
    visit.step(&config, VisitEvent::Navigated(Ok(())));
    visit.step(&config, VisitEvent::Loaded);
    match visit.step(&config, VisitEvent::Source(Err("closed".to_string()))) {
        VisitAction::Fail(e) => assert_eq!(e.message(), "Failed to extract HTML: closed"),
        other => panic!("unexpected {:?}", other),
    }
}

#[test]
fn user_agent_script_escapes_quotes() {
    let s = user_agent_script("a'b");
    assert_eq!(
        s,
        "Object.defineProperty(navigator, 'userAgent', {\n                    get: function () { return 'a\\'b'; }\n                });"
    );
}

#[test]
fn test_config_management() {
    let mut config = BrowserBehaviorConfig::default();
    assert!(config.extract_html);
    assert!(!config.extract_text);

    config.extract_text = true;
    assert!(config.extract_text);

    let config2 = BrowserBehaviorConfig::builder()
        .with_extract_text(true)
        .with_user_agent("TestBot/1.0")
        .build()
        .expect("Should build successfully");

    assert!(config2.extract_text);
    assert_eq!(config2.user_agent, Some("TestBot/1.0".to_string()));
}

#[test]
fn test_debug_connection() {
    let config = BrowserBehaviorConfig::default();
    let debug_str = format!("{:?}", config);
    assert!(!debug_str.is_empty());
}

#[test]
fn requests_keep_their_tags_through_the_queue() {
    let mut q: InMemDataset<Request> = InMemDataset::queue();
    q.write(get("https://a/")).unwrap();
    let r = q.read().unwrap().unwrap();
    assert_eq!(r.tag(), Tag::Fallback);
    assert_eq!(q.len(), 0);
    q.write_bulk(vec![get("https://b/")]).unwrap();
    assert_eq!(q.read_bulk(5).unwrap().len(), 1);
}

#[test]
fn run_reads_up_to_the_limit_then_waits() {
    let mut state = RunState::new(2);
    assert!(matches!(state.next_action(false), RunAction::ReadNext));
    state.on_read(Ok(true));
    assert!(matches!(state.next_action(false), RunAction::ReadNext));
    state.on_read(Ok(true));
    assert!(matches!(state.next_action(false), RunAction::AwaitOne));
    state.on_finished(Ok(()));
    assert!(matches!(state.next_action(false), RunAction::ReadNext));
    state.on_read(Ok(false));
    assert!(matches!(state.next_action(false), RunAction::AwaitOne));
    state.on_finished(Ok(()));
    assert!(matches!(state.next_action(false), RunAction::Finish(2)));
    assert_eq!(state.started(), 2);
}

#[test]
fn run_stops_reading_on_failure_and_shutdown() {
    let mut state = RunState::new(3);
    state.next_action(false);
    state.on_read(Ok(true));
    state.next_action(false);
    state.on_read(Ok(true));
    assert!(matches!(state.next_action(false), RunAction::ReadNext));
    state.on_read(Ok(true));
    assert!(matches!(state.next_action(false), RunAction::AwaitOne));
    state.on_finished(Ok(()));
    assert!(matches!(state.next_action(true), RunAction::AwaitOne));
    state.on_finished(Ok(()));
    state.on_finished(Ok(()));
    assert!(matches!(state.next_action(false), RunAction::Finish(3)));
    let mut idle = RunState::new(1);
    assert!(matches!(idle.next_action(true), RunAction::Finish(0)));
}

#[test]
fn a_failed_request_fails_the_run_with_the_first_error() {
    let mut state = RunState::new(3);
    state.next_action(false);
    state.on_read(Ok(true));
    state.next_action(false);
    state.on_read(Ok(true));
    state.next_action(false);
    state.on_read(Ok(true));
    state.on_finished(Err(Error::new(ErrorKind::Worker, "first")));
    assert!(matches!(state.next_action(false), RunAction::AwaitOne));
    state.on_finished(Err(Error::new(ErrorKind::Worker, "second")));
    state.on_finished(Ok(()));
    match state.next_action(false) {
        RunAction::Fail(e) => assert_eq!(e.message(), "first"),
        other => panic!("unexpected {:?}", other),
    }
    let mut broken = RunState::new(1);
    broken.next_action(false);
    broken.on_read(Err(Error::new(ErrorKind::Dataset, "queue down")));
    match broken.next_action(false) {
        RunAction::Fail(e) => assert_eq!(e.message(), "queue down"),
        other => panic!("unexpected {:?}", other),
    }
}

#[test]
fn take_initial_gives_the_write_order() {
    let mut client = Client::new(Noop::default(), Noop::default())
        .with_initial_requests(vec![get("https://a.example/"), get("https://b.example/")]);
    let taken: Vec<String> = client.take_initial().iter().map(|r| r.uri().to_string()).collect();
    assert_eq!(taken, vec!["https://b.example/", "https://a.example/"]);
    assert!(client.take_initial().is_empty());
}

#[test]
fn string_predicates() {
    assert_eq!(chars_of("añb"), vec!['a', 'ñ', 'b']);
    assert!(starts_with("https://x", "https://"));
    assert!(!starts_with("http", "https://"));
    assert!(starts_with("abc", ""));
    assert!(contains("request timeout", "timeout"));
    assert!(contains("abc", ""));
    assert!(!contains("abc", "abcd"));
    assert!(!contains("ab c", "bc"));
    assert!(str_eq("édge", "édge"));
    assert!(!str_eq("edge", "edges"));
    assert_eq!(trim_end_char("http://h:4444///", '/'), "http://h:4444");
    assert_eq!(trim_end_char("///", '/'), "");
    assert_eq!(trim_end_char("é/x", '/'), "é/x");
    assert!(trims_to_empty(" \t\n\u{3000}"));
    assert!(!trims_to_empty(" a "));
    assert!(trims_to_empty(""));
}
