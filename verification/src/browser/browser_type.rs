//! Supported browsers and the WebDriver capabilities that each one gets.
use vstd::prelude::*;

use crate::browser::json::{holds_data, json_is, same_json, strs, text_data, Capabilities, Json, JsonData};
use crate::text::{push_str, str_eq};

verus! {

/// `s` with every letter in lowercase, as `str::to_lowercase` gives it.
pub uninterp spec fn lowercase(s: Seq<char>) -> Seq<char>;

/// The lowercase form of `s`.
/// Calls `str::to_lowercase`; the result is named by [`lowercase`].
#[verifier::external_body]
fn to_lowercase(s: &str) -> (r: String)
    ensures
        r@ == lowercase(s@),
{
    s.to_lowercase()
}

/// A browser driven through WebDriver.
#[derive(Debug)]
pub enum BrowserType {
    /// Google Chrome
    Chrome,
    /// Mozilla Firefox
    Firefox,
    /// Microsoft Edge
    Edge,
    /// Apple Safari (macOS only)
    Safari,
    /// A browser with a custom name and explicit capabilities
    Custom { name: String, capabilities: Capabilities },
}

/// The WebDriver browser name.
pub open spec fn browser_name_of(b: BrowserType) -> Seq<char> {
    match b {
        BrowserType::Chrome => "chrome"@,
        BrowserType::Firefox => "firefox"@,
        BrowserType::Edge => "MicrosoftEdge"@,
        BrowserType::Safari => "safari"@,
        BrowserType::Custom { name, .. } => name@,
    }
}

/// The text of a browser type.
pub open spec fn browser_type_text(b: BrowserType) -> Seq<char> {
    match b {
        BrowserType::Chrome => "Chrome"@,
        BrowserType::Firefox => "Firefox"@,
        BrowserType::Edge => "Edge"@,
        BrowserType::Safari => "Safari"@,
        BrowserType::Custom { name, .. } => "Custom("@ + name@ + ")"@,
    }
}

/// The browser that a name stands for: the names are compared in lowercase,
/// an unknown name gives a custom browser of that lowercase name.
pub open spec fn browser_for_name(lower: Seq<char>, b: BrowserType) -> bool {
    if lower == "chrome"@ || lower == "google-chrome"@ {
        b is Chrome
    } else if lower == "firefox"@ || lower == "mozilla-firefox"@ {
        b is Firefox
    } else if lower == "edge"@ || lower == "microsoft-edge"@ || lower == "microsoftedge"@ {
        b is Edge
    } else if lower == "safari"@ || lower == "apple-safari"@ {
        b is Safari
    } else {
        b matches BrowserType::Custom { name, capabilities } && name@ == lower
            && capabilities@ == Map::<Seq<char>, Json>::empty()
    }
}

/// The command-line arguments Chrome starts with.
pub open spec fn chrome_args() -> Seq<Seq<char>> {
    seq![
        "--no-sandbox"@,
        "--disable-dev-shm-usage"@,
        "--disable-gpu"@,
        "--disable-extensions"@,
        "--disable-background-timer-throttling"@,
        "--disable-backgrounding-occluded-windows"@,
        "--disable-renderer-backgrounding"@,
    ]
}

/// The command-line arguments Firefox starts with.
pub open spec fn firefox_args() -> Seq<Seq<char>> {
    seq!["--no-sandbox"@, "--disable-dev-shm-usage"@]
}

/// The command-line arguments Edge starts with.
pub open spec fn edge_args() -> Seq<Seq<char>> {
    seq!["--no-sandbox"@, "--disable-dev-shm-usage"@, "--disable-gpu"@, "--disable-extensions"@]
}

/// The arguments added for headless operation: a window of 1920 by 1080.
pub open spec fn headless_args(b: BrowserType) -> Seq<Seq<char>> {
    match b {
        BrowserType::Firefox => seq!["--headless"@, "--width=1920"@, "--height=1080"@],
        _ => seq!["--headless"@, "--window-size=1920,1080"@],
    }
}

/// Chrome's preferences; for performance, images, plugins and media streams
/// are blocked as well.
pub open spec fn chrome_prefs(performance: bool) -> Seq<(Seq<char>, JsonData)> {
    let base = seq![
        ("profile.default_content_setting_values.notifications"@, JsonData::Number(2)),
        ("profile.default_content_settings.popups"@, JsonData::Number(0)),
        ("profile.managed_default_content_settings.images"@, JsonData::Number(2)),
    ];
    if performance {
        base + seq![
            ("profile.default_content_setting_values.plugins"@, JsonData::Number(2)),
            ("profile.default_content_setting_values.media_stream"@, JsonData::Number(2)),
        ]
    } else {
        base
    }
}

/// Firefox's preferences; for performance, images and media are blocked as well.
pub open spec fn firefox_prefs(performance: bool) -> Seq<(Seq<char>, JsonData)> {
    let base = seq![
        ("dom.webnotifications.enabled"@, JsonData::Bool(false)),
        ("dom.push.enabled"@, JsonData::Bool(false)),
        ("permissions.default.desktop-notification"@, JsonData::Number(2)),
        ("permissions.default.geo"@, JsonData::Number(2)),
    ];
    if performance {
        base + seq![
            ("permissions.default.image"@, JsonData::Number(2)),
            ("media.navigator.enabled"@, JsonData::Bool(false)),
            ("media.peerconnection.enabled"@, JsonData::Bool(false)),
        ]
    } else {
        base
    }
}

/// Browser options with arguments and preferences.
pub open spec fn options_data(args: Seq<Seq<char>>, prefs: Seq<(Seq<char>, JsonData)>) -> JsonData {
    JsonData::Object(seq![("args"@, JsonData::Array(text_data(args))), ("prefs"@, JsonData::Object(prefs))])
}

/// The capabilities of a browser named `name` whose options are under `key`,
/// with the capabilities common to all browsers: insecure certificates
/// accepted and the normal page-load strategy.
pub open spec fn with_common(name: Seq<char>, key: Seq<char>, options: JsonData) -> Map<Seq<char>, JsonData> {
    map!["browserName"@ => JsonData::Text(name), key => options]
        .insert("acceptInsecureCerts"@, JsonData::Bool(true))
        .insert("pageLoadStrategy"@, JsonData::Text("normal"@))
}

/// The capabilities of a built-in browser, plain, for headless operation, or
/// for performance.
pub open spec fn builtin_caps(b: BrowserType, headless: bool, performance: bool) -> Map<Seq<char>, JsonData> {
    let extra = if headless { headless_args(b) } else { Seq::empty() };
    match b {
        BrowserType::Chrome => with_common(
            "chrome"@,
            "goog:chromeOptions"@,
            options_data(chrome_args() + extra, chrome_prefs(performance)),
        ),
        BrowserType::Firefox => with_common(
            "firefox"@,
            "moz:firefoxOptions"@,
            options_data(firefox_args() + extra, firefox_prefs(performance)),
        ),
        BrowserType::Edge => with_common(
            "MicrosoftEdge"@,
            "ms:edgeOptions"@,
            JsonData::Object(seq![("args"@, JsonData::Array(text_data(
                edge_args() + extra + if performance {
                    seq!["--disable-images"@, "--disable-javascript"@, "--disable-plugins"@]
                } else {
                    Seq::empty()
                },
            )))]),
        ),
        _ => with_common(
            "safari"@,
            "webkit:WebRTCConfiguration"@,
            JsonData::Object(seq![("DisableInsecureMediaCapture"@, JsonData::Bool(true))]),
        ),
    }
}

/// The capabilities of a custom browser named `name` with capabilities
/// `extra`: its own capabilities, its name as `browserName` where they give
/// none, and the common capabilities over them.
pub open spec fn custom_caps(c: Map<Seq<char>, Json>, name: Seq<char>, extra: Map<Seq<char>, Json>) -> bool {
    &&& c.dom() == extra.dom().insert("browserName"@).insert("acceptInsecureCerts"@).insert("pageLoadStrategy"@)
    &&& json_is(c["acceptInsecureCerts"@], JsonData::Bool(true))
    &&& json_is(c["pageLoadStrategy"@], JsonData::Text("normal"@))
    &&& !extra.contains_key("browserName"@) ==> json_is(c["browserName"@], JsonData::Text(name))
    &&& forall|k: Seq<char>| #[trigger] extra.contains_key(k) && k != "acceptInsecureCerts"@ && k != "pageLoadStrategy"@
        ==> same_json(c[k], extra[k])
}

/// The capabilities that a browser type gets: plain, for headless operation,
/// or for performance; a custom browser gets its own either way.
pub open spec fn capabilities_of(b: BrowserType, c: Map<Seq<char>, Json>, headless: bool, performance: bool) -> bool {
    match b {
        BrowserType::Custom { name, capabilities } => custom_caps(c, name@, capabilities@),
        _ => holds_data(c, builtin_caps(b, headless, performance)),
    }
}

/// Appends an entry to an object under construction.
fn push_entry(
    entries: &mut Vec<(String, Json)>,
    key: &str,
    value: Json,
    Ghost(data): Ghost<Seq<(Seq<char>, JsonData)>>,
    Ghost(d): Ghost<JsonData>,
)
    requires
        json_is(Json::Object(*old(entries)), JsonData::Object(data)),
        json_is(value, d),
    ensures
        json_is(Json::Object(*final(entries)), JsonData::Object(data.push((key@, d)))),
{
    entries.push(Json::entry(key, value));
    assert forall|i: int| 0 <= i < entries@.len() implies (#[trigger] entries@[i]).0@ == data.push((key@, d))[i].0
        && json_is(entries@[i].1, data.push((key@, d))[i].1) by {
        if i < data.len() {
            assert(json_is(Json::Object(*old(entries)), JsonData::Object(data)));
            assert(old(entries)@[i] == entries@[i]);
        }
    }
}

impl BrowserType {
    /// Returns the WebDriver browser name.
    pub fn browser_name(&self) -> (n: &str)
        ensures
            n@ == browser_name_of(*self),
    {
        match self {
            BrowserType::Chrome => "chrome",
            BrowserType::Firefox => "firefox",
            BrowserType::Edge => "MicrosoftEdge",
            BrowserType::Safari => "safari",
            BrowserType::Custom { name, .. } => name.as_str(),
        }
    }

    /// Appends the browser type's text to `out`.
    pub fn write_text(&self, out: &mut String)
        ensures
            final(out)@ == old(out)@ + browser_type_text(*self),
    {
        match self {
            BrowserType::Chrome => push_str(out, "Chrome"),
            BrowserType::Firefox => push_str(out, "Firefox"),
            BrowserType::Edge => push_str(out, "Edge"),
            BrowserType::Safari => push_str(out, "Safari"),
            BrowserType::Custom { name, .. } => {
                push_str(out, "Custom(");
                push_str(out, name.as_str());
                push_str(out, ")");
            },
        }
    }

    /// The browser type as it is displayed.
    pub fn to_display_string(&self) -> (s: String)
        ensures
            s@ == browser_type_text(*self),
    {
        let mut s = String::new();
        self.write_text(&mut s);
        s
    }

    /// Returns whether this browser runs headless: all but Safari.
    pub fn supports_headless(&self) -> (r: bool)
        ensures
            r == !(*self is Safari),
    {
        match self {
            BrowserType::Chrome | BrowserType::Firefox | BrowserType::Edge => true,
            BrowserType::Safari => false,
            BrowserType::Custom { .. } => true,
        }
    }

    /// Google Chrome.
    pub fn chrome() -> (b: BrowserType)
        ensures
            b is Chrome,
    {
        BrowserType::Chrome
    }

    /// Mozilla Firefox.
    pub fn firefox() -> (b: BrowserType)
        ensures
            b is Firefox,
    {
        BrowserType::Firefox
    }

    /// Microsoft Edge.
    pub fn edge() -> (b: BrowserType)
        ensures
            b is Edge,
    {
        BrowserType::Edge
    }

    /// Apple Safari.
    pub fn safari() -> (b: BrowserType)
        ensures
            b is Safari,
    {
        BrowserType::Safari
    }

    /// A custom browser without capabilities.
    pub fn custom(name: &str) -> (b: BrowserType)
        ensures
            b matches BrowserType::Custom { name: n, capabilities: c } && n@ == name@
                && c@ == Map::<Seq<char>, Json>::empty(),
    {
        BrowserType::Custom { name: String::from_str(name), capabilities: Capabilities::new() }
    }

    /// A custom browser with initial capabilities.
    pub fn custom_with_capabilities(name: &str, capabilities: Capabilities) -> (b: BrowserType)
        ensures
            b matches BrowserType::Custom { name: n, capabilities: c } && n@ == name@ && c == capabilities,
    {
        BrowserType::Custom { name: String::from_str(name), capabilities }
    }

    /// The browser for a name, compared in lowercase; an unknown name gives a
    /// custom browser.
    pub fn from_name(value: &str) -> (b: BrowserType)
        ensures
            browser_for_name(lowercase(value@), b),
    {
        BrowserType::from_lowercase_name(to_lowercase(value))
    }

    /// The browser for a name that is already in lowercase; an unknown name
    /// gives a custom browser of that name.
    pub fn from_lowercase_name(lower: String) -> (b: BrowserType)
        ensures
            browser_for_name(lower@, b),
    {
        let l = lower.as_str();
        if str_eq(l, "chrome") || str_eq(l, "google-chrome") {
            BrowserType::Chrome
        } else if str_eq(l, "firefox") || str_eq(l, "mozilla-firefox") {
            BrowserType::Firefox
        } else if str_eq(l, "edge") || str_eq(l, "microsoft-edge") || str_eq(l, "microsoftedge") {
            BrowserType::Edge
        } else if str_eq(l, "safari") || str_eq(l, "apple-safari") {
            BrowserType::Safari
        } else {
            BrowserType::Custom { name: lower, capabilities: Capabilities::new() }
        }
    }
}

impl BrowserType {
    /// The capabilities of a built-in browser.
    fn builtin_capabilities(&self, headless: bool, performance: bool) -> (c: Capabilities)
        requires
            !(*self is Custom),
            !(headless && performance),
        ensures
            holds_data(c@, builtin_caps(*self, headless, performance)),
    {
        let ghost extra = if headless { headless_args(*self) } else { Seq::<Seq<char>>::empty() };
        let (name, key, options): (&str, &str, Json) = match self {
            BrowserType::Chrome => {
                let more: &[&str] = if headless { &["--headless", "--window-size=1920,1080"] } else { &[] };
                let base: &[&str] = &[
                    "--no-sandbox",
                    "--disable-dev-shm-usage",
                    "--disable-gpu",
                    "--disable-extensions",
                    "--disable-background-timer-throttling",
                    "--disable-backgrounding-occluded-windows",
                    "--disable-renderer-backgrounding",
                ];
                assert(strs(base@) =~= chrome_args());
                assert(strs(more@) =~= extra);
                let args = Json::texts(base, more);
                let mut prefs = vec![
                    Json::entry("profile.default_content_setting_values.notifications", Json::Number(2)),
                    Json::entry("profile.default_content_settings.popups", Json::Number(0)),
                    Json::entry("profile.managed_default_content_settings.images", Json::Number(2)),
                ];
                if performance {
                    prefs.push(Json::entry("profile.default_content_setting_values.plugins", Json::Number(2)));
                    prefs.push(Json::entry("profile.default_content_setting_values.media_stream", Json::Number(2)));
                }
                let prefs = Json::Object(prefs);
                assert(json_is(prefs, JsonData::Object(chrome_prefs(performance)))) by {
                    reveal_with_fuel(json_is, 2);
                }
                let options = Json::Object(vec![Json::entry("args", args), Json::entry("prefs", prefs)]);
                assert(json_is(options, options_data(chrome_args() + extra, chrome_prefs(performance))));
                ("chrome", "goog:chromeOptions", options)
            },
            BrowserType::Firefox => {
                let more: &[&str] = if headless { &["--headless", "--width=1920", "--height=1080"] } else { &[] };
                let base: &[&str] = &["--no-sandbox", "--disable-dev-shm-usage"];
                assert(strs(base@) =~= firefox_args());
                assert(strs(more@) =~= extra);
                let args = Json::texts(base, more);
                let mut prefs = vec![
                    Json::entry("dom.webnotifications.enabled", Json::Bool(false)),
                    Json::entry("dom.push.enabled", Json::Bool(false)),
                    Json::entry("permissions.default.desktop-notification", Json::Number(2)),
                    Json::entry("permissions.default.geo", Json::Number(2)),
                ];
                if performance {
                    prefs.push(Json::entry("permissions.default.image", Json::Number(2)));
                    prefs.push(Json::entry("media.navigator.enabled", Json::Bool(false)));
                    prefs.push(Json::entry("media.peerconnection.enabled", Json::Bool(false)));
                }
                let prefs = Json::Object(prefs);
                assert(json_is(prefs, JsonData::Object(firefox_prefs(performance)))) by {
                    reveal_with_fuel(json_is, 2);
                }
                let options = Json::Object(vec![Json::entry("args", args), Json::entry("prefs", prefs)]);
                assert(json_is(options, options_data(firefox_args() + extra, firefox_prefs(performance))));
                ("firefox", "moz:firefoxOptions", options)
            },
            BrowserType::Edge => {
                let more: &[&str] = if headless {
                    &["--headless", "--window-size=1920,1080"]
                } else if performance {
                    &["--disable-images", "--disable-javascript", "--disable-plugins"]
                } else {
                    &[]
                };
                let base: &[&str] = &["--no-sandbox", "--disable-dev-shm-usage", "--disable-gpu", "--disable-extensions"];
                let ghost tail = edge_args() + extra + if performance {
                    seq!["--disable-images"@, "--disable-javascript"@, "--disable-plugins"@]
                } else {
                    Seq::<Seq<char>>::empty()
                };
                assert(strs(base@) + strs(more@) =~= tail);
                let args = Json::texts(base, more);
                let options = Json::Object(vec![Json::entry("args", args)]);
                assert(json_is(options, JsonData::Object(seq![("args"@, JsonData::Array(text_data(tail)))])));
                ("MicrosoftEdge", "ms:edgeOptions", options)
            },
            _ => {
                let options = Json::Object(vec![Json::entry("DisableInsecureMediaCapture", Json::Bool(true))]);
                assert(json_is(options, JsonData::Object(seq![("DisableInsecureMediaCapture"@, JsonData::Bool(true))]))) by {
                    reveal_with_fuel(json_is, 2);
                }
                ("safari", "webkit:WebRTCConfiguration", options)
            },
        };
        let ghost d = builtin_caps(*self, headless, performance);
        let mut caps = Capabilities::new();
        caps.insert(String::from_str("browserName"), Json::text(name));
        caps.insert(String::from_str(key), options);
        caps.insert(String::from_str("acceptInsecureCerts"), Json::Bool(true));
        caps.insert(String::from_str("pageLoadStrategy"), Json::text("normal"));
        assert(caps@.dom() =~= d.dom());
        assert(json_is(Json::Bool(true), JsonData::Bool(true)));
        caps
    }

    /// The capabilities of a custom browser: its name as `browserName`, its
    /// own capabilities over that, and the common capabilities over those.
    fn custom_capabilities(name: &str, capabilities: &Capabilities) -> (c: Capabilities)
        ensures
            custom_caps(c@, name@, capabilities@),
    {
        let mut caps = Capabilities::new();
        caps.insert(String::from_str("browserName"), Json::text(name));
        caps.extend(capabilities.duplicate());
        caps.insert(String::from_str("acceptInsecureCerts"), Json::Bool(true));
        caps.insert(String::from_str("pageLoadStrategy"), Json::text("normal"));
        proof {
            reveal_strlit("browserName");
            reveal_strlit("acceptInsecureCerts");
            reveal_strlit("pageLoadStrategy");
            assert("acceptInsecureCerts"@.len() == 19);
            assert("pageLoadStrategy"@.len() == 16);
            assert("browserName"@.len() == 11);
        }
        assert(caps@["acceptInsecureCerts"@] == Json::Bool(true));
        assert(json_is(Json::Bool(true), JsonData::Bool(true)));
        assert(caps@.dom() =~= capabilities@.dom().insert("browserName"@).insert("acceptInsecureCerts"@).insert(
            "pageLoadStrategy"@,
        ));
        caps
    }

    /// The WebDriver capabilities of this browser: its name, its options
    /// (command-line arguments and preferences) and the capabilities common
    /// to all browsers.
    pub fn default_capabilities(&self) -> (c: Capabilities)
        ensures
            capabilities_of(*self, c@, false, false),
    {
        match self {
            BrowserType::Custom { name, capabilities } => BrowserType::custom_capabilities(name.as_str(), capabilities),
            _ => self.builtin_capabilities(false, false),
        }
    }

    /// The capabilities for headless operation: the default ones with the
    /// arguments for a headless 1920 by 1080 window; Safari and custom
    /// browsers get the default ones.
    pub fn headless_capabilities(&self) -> (c: Capabilities)
        ensures
            capabilities_of(*self, c@, true, false),
    {
        match self {
            BrowserType::Custom { name, capabilities } => BrowserType::custom_capabilities(name.as_str(), capabilities),
            _ => self.builtin_capabilities(true, false),
        }
    }

    /// The capabilities for performance: the default ones with images and
    /// other content blocked; Safari and custom browsers get the default ones.
    pub fn performance_capabilities(&self) -> (c: Capabilities)
        ensures
            capabilities_of(*self, c@, false, true),
    {
        match self {
            BrowserType::Custom { name, capabilities } => BrowserType::custom_capabilities(name.as_str(), capabilities),
            _ => self.builtin_capabilities(false, true),
        }
    }

    /// Adds a capability: a custom browser gets it among its own; any other
    /// browser becomes a custom browser of its WebDriver name with its
    /// default capabilities and this one.
    pub fn with_capability(self, key: &str, value: Json) -> (b: BrowserType)
        ensures
            b is Custom,
            browser_name_of(b) == browser_name_of(self),
            match self {
                BrowserType::Custom { name, capabilities } => b matches BrowserType::Custom { name: n, capabilities: c }
                    && n == name && c@ == capabilities@.insert(key@, value),
                _ => b matches BrowserType::Custom { name: n, capabilities: c }
                    && n@ == browser_name_of(self)
                    && c@.contains_key(key@) && c@[key@] == value
                    && holds_data(c@.remove(key@), builtin_caps(self, false, false).remove(key@)),
            },
    {
        match self {
            BrowserType::Custom { name, capabilities } => {
                let mut caps = capabilities;
                caps.insert(String::from_str(key), value);
                BrowserType::Custom { name, capabilities: caps }
            },
            _ => {
                let name = String::from_str(self.browser_name());
                let mut caps = self.builtin_capabilities(false, false);
                let ghost before = caps@;
                caps.insert(String::from_str(key), value);
                assert(caps@.remove(key@) =~= before.remove(key@));
                assert(caps@.remove(key@).dom() =~= builtin_caps(self, false, false).remove(key@).dom());
                BrowserType::Custom { name, capabilities: caps }
            },
        }
    }
}

/// The capability under which a built-in browser keeps its options.
pub open spec fn options_key(b: BrowserType) -> Seq<char> {
    match b {
        BrowserType::Chrome => "goog:chromeOptions"@,
        BrowserType::Firefox => "moz:firefoxOptions"@,
        BrowserType::Edge => "ms:edgeOptions"@,
        _ => "webkit:WebRTCConfiguration"@,
    }
}

/// Headless and performance capabilities start from the default ones: the
/// same capability names, and the same values but for the browser's options.
pub proof fn lemma_tuned_from_default(b: BrowserType, headless: bool, performance: bool)
    requires
        !(b is Custom),
    ensures
        builtin_caps(b, headless, performance).dom() == builtin_caps(b, false, false).dom(),
        forall|k: Seq<char>| k != options_key(b) && #[trigger] builtin_caps(b, false, false).contains_key(k)
            ==> builtin_caps(b, headless, performance)[k] == builtin_caps(b, false, false)[k],
{
    assert(builtin_caps(b, headless, performance).dom() =~= builtin_caps(b, false, false).dom());
}

impl Default for BrowserType {
    /// Google Chrome.
    fn default() -> (b: BrowserType)
        ensures
            b is Chrome,
    {
        BrowserType::Chrome
    }
}

} // verus!
