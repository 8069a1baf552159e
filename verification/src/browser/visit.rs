//! How a pooled browser turns a request into a response: the steps of a page
//! visit, decided one event at a time while the driver does the work.
use vstd::prelude::*;

use crate::browser::behavior::{default_behavior, BrowserBehaviorConfig};
use crate::browser::builder::backend_error;
use crate::context::request::Version;
use crate::context::response::{Response, ResponseView};
use crate::error::{Error, ErrorKind};
use crate::text::{push_char, push_str};
use crate::time::Duration;
use vstd::utf8::{encode_utf8, is_char_boundary};

verus! {

/// The text that precedes the user agent in the script that sets it.
pub open spec fn agent_prefix() -> Seq<char> {
    "Object.defineProperty(navigator, 'userAgent', {\n                    get: function () { return '"@
}

/// The text that follows the user agent in the script that sets it.
pub open spec fn agent_suffix() -> Seq<char> {
    "'; }\n                });"@
}

/// `s` with a backslash before each single quote.
pub open spec fn escape_quotes(s: Seq<char>) -> Seq<char>
    decreases s.len(),
{
    if s.len() == 0 {
        Seq::empty()
    } else {
        escape_quotes(s.drop_last()) + if s.last() == '\'' {
            seq!['\\', '\'']
        } else {
            seq![s.last()]
        }
    }
}

/// The script that makes the page see `user_agent` as the browser's user agent.
pub open spec fn agent_script(user_agent: Seq<char>) -> Seq<char> {
    agent_prefix() + escape_quotes(user_agent) + agent_suffix()
}

/// The script that resolves once the document has loaded.
pub open spec fn load_script() -> Seq<char> {
    "\n                return new Promise((resolve) => {\n                    if (document.readyState === 'complete') {\n                        resolve();\n                    } else {\n                        window.addEventListener('load', resolve);\n                    }\n                });\n            "@
}

/// The script that returns the text of the document's body.
pub open spec fn text_script() -> Seq<char> {
    "\n                return document.body ?\n                    document.body.innerText || document.body.textContent || '' : '';\n            "@
}

/// The body of a response: the content's bytes, cut at `max` bytes.
pub open spec fn limited(bytes: Seq<u8>, max: usize) -> Seq<u8> {
    if bytes.len() > max { bytes.take(max as int) } else { bytes }
}

/// The response to a visit that produced `content`.
pub open spec fn page_response(content: Seq<char>, max: usize) -> ResponseView {
    ResponseView {
        status: 200,
        version: Version::Http11,
        headers: seq![("content-type"@, "text/html; charset=utf-8"@)],
        body: limited(encode_utf8(content), max),
    }
}

/// `content` can be cut at `max` bytes: it is no longer, or a character
/// starts there.
pub open spec fn cuttable(content: Seq<char>, max: usize) -> bool {
    encode_utf8(content).len() <= max || is_char_boundary(encode_utf8(content), max as int)
}

/// Appends `s` to `out`, a backslash before each single quote.
pub fn push_escaped(out: &mut String, s: &str)
    ensures
        final(out)@ == old(out)@ + escape_quotes(s@),
{
    let n = s.unicode_len();
    let ghost start = out@;
    for i in 0..n
        invariant
            n == s@.len(),
            out@ == start + escape_quotes(s@.take(i as int)),
    {
        let c = s.get_char(i);
        assert(s@.take(i + 1).drop_last() == s@.take(i as int));
        if c == '\'' {
            push_char(out, '\\');
        }
        push_char(out, c);
    }
    assert(s@.take(n as int) == s@);
}

/// The script that makes the page see `user_agent` as the browser's user
/// agent, single quotes escaped.
pub fn user_agent_script(user_agent: &str) -> (s: String)
    ensures
        s@ == agent_script(user_agent@),
{
    let mut s = String::from_str(
        "Object.defineProperty(navigator, 'userAgent', {\n                    get: function () { return '",
    );
    push_escaped(&mut s, user_agent);
    push_str(&mut s, "'; }\n                });");
    s
}

/// The response to a visit that produced `content`: `200 OK`, an HTML
/// content type, and the content cut at `max` bytes.
pub fn page_response_for(content: &str, max: usize) -> (r: Response)
    requires
        cuttable(content@, max),
    ensures
        r@ == page_response(content@, max),
{
    let all = content.as_bytes();
    let bytes = if all.len() > max {
        let (head, _) = content.split_at(max);
        let b = head.as_bytes_vec();
        assert(b@ =~= encode_utf8(content@).take(max as int));
        b
    } else {
        content.as_bytes_vec()
    };
    assert(bytes@ == limited(encode_utf8(content@), max));
    let r = Response::new(bytes).with_header("content-type", "text/html; charset=utf-8");
    assert(r@.headers =~= seq![("content-type"@, "text/html; charset=utf-8"@)]);
    r
}

/// Where a page visit stands.
#[derive(Debug, Clone, Copy, PartialEq, Eq, Structural)]
pub enum VisitStage {
    /// Nothing done yet.
    Fresh,
    /// Waiting for the user-agent script.
    SettingAgent,
    /// Waiting for the navigation.
    Navigating,
    /// Waiting for the page to load.
    Loading,
    /// Waiting for the page source.
    ReadingHtml,
    /// Waiting for the text script.
    ReadingText,
    /// Waiting for the page source, which may be missing.
    ReadingFallback,
    /// Done.
    Finished,
}

/// What the driver reports back.
#[derive(Debug)]
pub enum VisitEvent {
    /// The visit starts.
    Begin,
    /// The user-agent script ran; whether it worked does not matter.
    AgentSet,
    /// The navigation ended, or failed with the driver's message.
    Navigated(Result<(), String>),
    /// The wait for the page load ended, in time or not.
    Loaded,
    /// The page source, or the driver's message.
    Source(Result<String, String>),
    /// The text the text script returned, if it returned text.
    Text(Option<String>),
}

/// What the driver is to do next.
#[derive(Debug)]
pub enum VisitAction {
    /// Run this script; its outcome is reported as `AgentSet`.
    RunScript(String),
    /// Navigate to this URL.
    Navigate(String),
    /// Run this script for at most this long; reported as `Loaded`.
    AwaitScript(String, Duration),
    /// Read the page source.
    ReadSource,
    /// Run this script and report the text it returns.
    ReadText(String),
    /// The visit ends with this response.
    Respond(Response),
    /// The visit fails with this error.
    Fail(Error),
}

/// A visit of one page with a pooled browser.
#[derive(Debug)]
pub struct PageVisit {
    pub url: String,
    pub stage: VisitStage,
}

/// How far a visit has come; every step takes it further, so a visit ends
/// after at most five steps.
pub open spec fn stage_rank(stage: VisitStage) -> nat {
    match stage {
        VisitStage::Fresh => 0,
        VisitStage::SettingAgent => 1,
        VisitStage::Navigating => 2,
        VisitStage::Loading => 3,
        VisitStage::ReadingHtml => 4,
        VisitStage::ReadingText => 4,
        VisitStage::ReadingFallback => 4,
        VisitStage::Finished => 5,
    }
}

/// The event that a visit waits for in `stage`.
pub open spec fn expects(stage: VisitStage, event: VisitEvent) -> bool {
    match stage {
        VisitStage::Fresh => event is Begin,
        VisitStage::SettingAgent => event is AgentSet,
        VisitStage::Navigating => event is Navigated,
        VisitStage::Loading => event is Loaded,
        VisitStage::ReadingHtml => event is Source,
        VisitStage::ReadingText => event is Text,
        VisitStage::ReadingFallback => event is Source,
        VisitStage::Finished => false,
    }
}

/// The content can be cut at the size limit, where the event hands some over.
pub open spec fn event_cuttable(event: VisitEvent, max: usize) -> bool {
    match event {
        VisitEvent::Source(Ok(c)) => cuttable(c@, max),
        VisitEvent::Text(Some(t)) => cuttable(t@, max),
        _ => true,
    }
}

/// The navigation was asked for.
pub open spec fn navigating(v: PageVisit, a: VisitAction) -> bool {
    &&& v.stage == VisitStage::Navigating
    &&& a matches VisitAction::Navigate(u) && u@ == v.url@
}

/// The extraction was asked for: the page source when HTML is extracted,
/// else the text script when text is, else the page source anyway.
pub open spec fn extracting(config: BrowserBehaviorConfig, v: PageVisit, a: VisitAction) -> bool {
    if config.extract_html {
        v.stage == VisitStage::ReadingHtml && a is ReadSource
    } else if config.extract_text {
        &&& v.stage == VisitStage::ReadingText
        &&& a matches VisitAction::ReadText(s) && s@ == text_script()
    } else {
        v.stage == VisitStage::ReadingFallback && a is ReadSource
    }
}

/// The visit ended with the response to `content`.
pub open spec fn responding(max: usize, v: PageVisit, a: VisitAction, content: Seq<char>) -> bool {
    &&& v.stage == VisitStage::Finished
    &&& a matches VisitAction::Respond(r) && r@ == page_response(content, max)
}

/// The visit failed with a backend error with `message`.
pub open spec fn failing(v: PageVisit, a: VisitAction, message: Seq<char>) -> bool {
    &&& v.stage == VisitStage::Finished
    &&& a matches VisitAction::Fail(e) && e@ == backend_error(message)
}

/// What a visit extracts: the page's HTML whenever HTML extraction is on,
/// whatever the text setting says; the body text only when HTML extraction
/// is off and text extraction is on; and the page source as a fallback when
/// both are off.
pub proof fn lemma_extraction_choice(config: BrowserBehaviorConfig, v: PageVisit, a: VisitAction)
    requires
        extracting(config, v, a),
    ensures
        config.extract_html ==> v.stage == VisitStage::ReadingHtml && a is ReadSource,
        !config.extract_html && config.extract_text ==> v.stage == VisitStage::ReadingText
            && (a matches VisitAction::ReadText(s) && s@ == text_script()),
        !config.extract_html && !config.extract_text ==> v.stage == VisitStage::ReadingFallback
            && a is ReadSource,
        a is ReadText <==> (!config.extract_html && config.extract_text),
{
}

impl PageVisit {
    /// A visit of `url` that has not started.
    pub fn new(url: String) -> (v: PageVisit)
        ensures
            v.url == url,
            v.stage == VisitStage::Fresh,
    {
        PageVisit { url, stage: VisitStage::Fresh }
    }

    /// Asks for the extraction that the configuration calls for.
    fn extract(&mut self, config: &BrowserBehaviorConfig) -> (a: VisitAction)
        ensures
            final(self).url == old(self).url,
            extracting(*config, *final(self), a),
    {
        if config.extract_html {
            self.stage = VisitStage::ReadingHtml;
            VisitAction::ReadSource
        } else if config.extract_text {
            self.stage = VisitStage::ReadingText;
            VisitAction::ReadText(
                String::from_str(
                    "\n                return document.body ?\n                    document.body.innerText || document.body.textContent || '' : '';\n            ",
                ),
            )
        } else {
            self.stage = VisitStage::ReadingFallback;
            VisitAction::ReadSource
        }
    }

    /// Ends the visit with the response to `content`.
    fn respond(&mut self, max: usize, content: &str) -> (a: VisitAction)
        requires
            cuttable(content@, max),
        ensures
            final(self).url == old(self).url,
            responding(max, *final(self), a, content@),
    {
        self.stage = VisitStage::Finished;
        VisitAction::Respond(page_response_for(content, max))
    }

    /// Ends the visit with a backend error.
    fn fail(&mut self, message: String) -> (a: VisitAction)
        ensures
            final(self).url == old(self).url,
            failing(*final(self), a, message@),
    {
        self.stage = VisitStage::Finished;
        VisitAction::Fail(Error::with_message(ErrorKind::Backend, message))
    }

    /// Takes the driver's report and says what to do next: start with the
    /// user-agent script when one is configured, navigate, wait for the load
    /// when configured, extract the HTML or the text (or the HTML anyway when
    /// neither is configured), and answer with the content cut to the size
    /// limit. An empty URL, a failed navigation and a failed HTML extraction
    /// fail the visit; the other failures are passed over.
    pub fn step(&mut self, config: &BrowserBehaviorConfig, event: VisitEvent) -> (a: VisitAction)
        requires
            expects(old(self).stage, event),
            event_cuttable(event, config.max_response_size),
        ensures
            final(self).url == old(self).url,
            stage_rank(final(self).stage) > stage_rank(old(self).stage),
            match event {
                VisitEvent::Begin => if old(self).url@.len() == 0 {
                    failing(*final(self), a, "Empty URL provided"@)
                } else {
                    match config.user_agent {
                        Some(ua) => {
                            &&& final(self).stage == VisitStage::SettingAgent
                            &&& a matches VisitAction::RunScript(s) && s@ == agent_script(ua@)
                        },
                        None => navigating(*final(self), a),
                    }
                },
                VisitEvent::AgentSet => navigating(*final(self), a),
                VisitEvent::Navigated(Err(m)) => failing(
                    *final(self),
                    a,
                    "Failed to navigate to "@ + old(self).url@ + ": "@ + m@,
                ),
                VisitEvent::Navigated(Ok(())) => if config.wait_for_load {
                    &&& final(self).stage == VisitStage::Loading
                    &&& a matches VisitAction::AwaitScript(s, t) && s@ == load_script()
                        && t == config.element_timeout
                } else {
                    extracting(*config, *final(self), a)
                },
                VisitEvent::Loaded => extracting(*config, *final(self), a),
                VisitEvent::Source(Err(m)) => if old(self).stage == VisitStage::ReadingHtml {
                    failing(*final(self), a, "Failed to extract HTML: "@ + m@)
                } else {
                    responding(config.max_response_size, *final(self), a, Seq::empty())
                },
                VisitEvent::Source(Ok(c)) => responding(config.max_response_size, *final(self), a, c@),
                VisitEvent::Text(Some(t)) => responding(config.max_response_size, *final(self), a, t@),
                VisitEvent::Text(None) => responding(config.max_response_size, *final(self), a, Seq::empty()),
            },
    {
        match event {
            VisitEvent::Begin => {
                if self.url.unicode_len() == 0 {
                    return self.fail(String::from_str("Empty URL provided"));
                }
                match &config.user_agent {
                    Some(ua) => {
                        let script = user_agent_script(ua.as_str());
                        self.stage = VisitStage::SettingAgent;
                        VisitAction::RunScript(script)
                    },
                    None => {
                        self.stage = VisitStage::Navigating;
                        VisitAction::Navigate(self.url.clone())
                    },
                }
            },
            VisitEvent::AgentSet => {
                self.stage = VisitStage::Navigating;
                VisitAction::Navigate(self.url.clone())
            },
            VisitEvent::Navigated(Err(m)) => {
                let mut message = String::from_str("Failed to navigate to ");
                push_str(&mut message, self.url.as_str());
                push_str(&mut message, ": ");
                push_str(&mut message, m.as_str());
                self.fail(message)
            },
            VisitEvent::Navigated(Ok(())) => {
                if config.wait_for_load {
                    self.stage = VisitStage::Loading;
                    VisitAction::AwaitScript(
                        String::from_str(
                            "\n                return new Promise((resolve) => {\n                    if (document.readyState === 'complete') {\n                        resolve();\n                    } else {\n                        window.addEventListener('load', resolve);\n                    }\n                });\n            ",
                        ),
                        config.element_timeout,
                    )
                } else {
                    self.extract(config)
                }
            },
            VisitEvent::Loaded => self.extract(config),
            VisitEvent::Source(Err(m)) => {
                if self.stage == VisitStage::ReadingHtml {
                    let mut message = String::from_str("Failed to extract HTML: ");
                    push_str(&mut message, m.as_str());
                    self.fail(message)
                } else {
                    proof {
                        lemma_empty_cuttable(config.max_response_size);
                    }
                    self.respond(config.max_response_size, "")
                }
            },
            VisitEvent::Source(Ok(c)) => self.respond(config.max_response_size, c.as_str()),
            VisitEvent::Text(Some(t)) => self.respond(config.max_response_size, t.as_str()),
            VisitEvent::Text(None) => {
                proof {
                    lemma_empty_cuttable(config.max_response_size);
                }
                self.respond(config.max_response_size, "")
            },
        }
    }
}

/// A browser taken from the pool, with the behavior that its page visits follow.
#[derive(Debug)]
pub struct BrowserConnection<D> {
    driver: D,
    config: BrowserBehaviorConfig,
}

impl<D> BrowserConnection<D> {
    /// The browser's driver.
    pub closed spec fn driver_spec(&self) -> D {
        self.driver
    }

    /// The behavior of page visits.
    pub closed spec fn config_spec(&self) -> BrowserBehaviorConfig {
        self.config
    }

    /// A connection for a pooled browser with the default behavior.
    pub fn from_pooled(driver: D) -> (c: BrowserConnection<D>)
        ensures
            c.driver_spec() == driver,
            default_behavior(c.config_spec()),
    {
        BrowserConnection { driver, config: BrowserBehaviorConfig::new() }
    }

    /// A connection for a pooled browser with the given behavior.
    pub fn from_pooled_with_config(driver: D, config: BrowserBehaviorConfig) -> (c: BrowserConnection<D>)
        ensures
            c.driver_spec() == driver,
            c.config_spec() == config,
    {
        BrowserConnection { driver, config }
    }

    /// Returns the behavior of page visits.
    pub fn config(&self) -> (c: &BrowserBehaviorConfig)
        ensures
            *c == self.config_spec(),
    {
        &self.config
    }

    /// The same connection with another behavior.
    pub fn with_config(self, config: BrowserBehaviorConfig) -> (c: BrowserConnection<D>)
        ensures
            c.driver_spec() == self.driver_spec(),
            c.config_spec() == config,
    {
        BrowserConnection { config, ..self }
    }

    /// Returns the driver, to drive the browser directly.
    pub fn driver(&self) -> (d: &D)
        ensures
            *d == self.driver_spec(),
    {
        &self.driver
    }

    /// Returns the driver for changes.
    pub fn driver_mut(&mut self) -> (d: &mut D)
        ensures
            *d == old(self).driver_spec(),
            final(self).driver_spec() == *final(d),
            final(self).config_spec() == old(self).config_spec(),
    {
        &mut self.driver
    }

    /// Starts a visit of `url`, as the resolution of a request begins.
    pub fn visit(&self, url: &str) -> (v: PageVisit)
        ensures
            v.url@ == url@,
            v.stage == VisitStage::Fresh,
    {
        PageVisit::new(String::from_str(url))
    }
}

/// The empty content can be cut anywhere.
proof fn lemma_empty_cuttable(max: usize)
    ensures
        ""@ == Seq::<char>::empty(),
        cuttable(""@, max),
{
    reveal_strlit("");
    assert(""@ =~= Seq::<char>::empty());
    assert(encode_utf8(Seq::<char>::empty()) =~= Seq::<u8>::empty());
}

/// A response body is never longer than the size limit.
pub proof fn lemma_response_within_limit(content: Seq<char>, max: usize)
    ensures
        page_response(content, max).body.len() <= max,
{
}

/// A user agent without single quotes goes into the script as it is.
pub proof fn lemma_plain_agent_unchanged(s: Seq<char>)
    requires
        !s.contains('\''),
    ensures
        escape_quotes(s) == s,
    decreases s.len(),
{
    if s.len() > 0 {
        assert(!s.drop_last().contains('\'')) by {
            if s.drop_last().contains('\'') {
                let i = choose|i: int| 0 <= i < s.drop_last().len() && s.drop_last()[i] == '\'';
                assert(s[i] == '\'');
            }
        }
        lemma_plain_agent_unchanged(s.drop_last());
        assert(s[s.len() - 1] == s.last());
        assert(s.drop_last() + seq![s.last()] =~= s);
    }
}

} // verus!
