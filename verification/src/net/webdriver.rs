//! Web-driver configuration, Chrome options, selectors and the scraping decisions.
//!
//! Durations are held in milliseconds.
use crate::json::{JsonNumber, JsonValue, JsonView};
use crate::text::opt_view;
use crate::text::views;
use chrono::{Datelike, Offset, TimeZone, Timelike};
use vstd::prelude::*;

verus! {

/// Settings of the web-driver pool and of each session.
#[derive(Debug)]
pub struct WebDriverConfig {
    pub url: Option<String>,
    pub user_agent: Option<String>,
    /// The page-load timeout, in milliseconds (configured in seconds).
    pub page_load_timeout_sec: Option<u64>,
    /// The script timeout, in milliseconds (configured in seconds).
    pub script_timeout_sec: Option<u64>,
    pub pool_max_size: usize,
    /// How long a caller waits for a pooled session, in milliseconds.
    pub pool_timeout_wait_sec: Option<u64>,
    /// How long creating a session may take, in milliseconds.
    pub pool_timeout_create_sec: Option<u64>,
    /// How long recycling a session may take, in milliseconds.
    pub pool_timeout_recycle_sec: Option<u64>,
}

impl Default for WebDriverConfig {
    /// No server URL or user agent; page loads and scripts time out after 30 s; at
    /// most 3 sessions; waiting for one times out after 120 s, creating one after
    /// 60 s and recycling one after 30 s.
    fn default() -> (r: Self)
        ensures
            r.url is None,
            r.user_agent is None,
            r.page_load_timeout_sec == Some(30000u64),
            r.script_timeout_sec == Some(30000u64),
            r.pool_max_size == 3,
            r.pool_timeout_wait_sec == Some(120000u64),
            r.pool_timeout_create_sec == Some(60000u64),
            r.pool_timeout_recycle_sec == Some(30000u64),
    {
        WebDriverConfig {
            url: None,
            user_agent: None,
            page_load_timeout_sec: Some(30000),
            script_timeout_sec: Some(30000),
            pool_max_size: 3,
            pool_timeout_wait_sec: Some(120000),
            pool_timeout_create_sec: Some(60000),
            pool_timeout_recycle_sec: Some(30000),
        }
    }
}

/// The settings of a session pool: its size, its timeouts, and first-in first-out
/// handing out of sessions.
#[derive(Debug, Clone, Copy, PartialEq, Eq, Structural)]
pub struct PoolSettings {
    pub max_size: usize,
    pub wait: Option<u64>,
    pub create: Option<u64>,
    pub recycle: Option<u64>,
    pub fifo: bool,
}

impl WebDriverConfig {
    /// The pool settings of the configuration.
    pub fn pool_config(&self) -> (r: PoolSettings)
        ensures
            r == (PoolSettings {
                max_size: self.pool_max_size,
                wait: self.pool_timeout_wait_sec,
                create: self.pool_timeout_create_sec,
                recycle: self.pool_timeout_recycle_sec,
                fifo: true,
            }),
    {
        PoolSettings {
            max_size: self.pool_max_size,
            wait: self.pool_timeout_wait_sec,
            create: self.pool_timeout_create_sec,
            recycle: self.pool_timeout_recycle_sec,
            fifo: true,
        }
    }

    /// The server URL, the local chromedriver by default.
    pub fn server_url(&self) -> (r: String)
        ensures
            r@ == match self.url {
                Some(u) => u@,
                None => "http://localhost:9515"@,
            },
    {
        match &self.url {
            Some(u) => u.clone(),
            None => crate::text::owned("http://localhost:9515"),
        }
    }

    /// The page-load and script timeouts, 5 s each by default.
    pub fn session_timeouts(&self) -> (r: (u64, u64))
        ensures
            r.0 == match self.page_load_timeout_sec {
                Some(t) => t,
                None => 5000,
            },
            r.1 == match self.script_timeout_sec {
                Some(t) => t,
                None => 5000,
            },
    {
        let page = match self.page_load_timeout_sec {
            Some(t) => t,
            None => 5000,
        };
        let script = match self.script_timeout_sec {
            Some(t) => t,
            None => 5000,
        };
        (page, script)
    }
}

/// The user agent Chrome presents when none is configured.
pub open spec fn default_user_agent() -> Seq<char> {
    "Mozilla/5.0 (Macintosh; Intel Mac OS X 10_15_7) AppleWebKit/537.36 (KHTML, like Gecko) Chrome/122.0.0.0 Safari/537.36"@
}

/// The fixed command-line arguments Chrome is started with, in order.
pub open spec fn fixed_chrome_args() -> Seq<Seq<char>> {
    seq![
        "start-maximized"@,
        "--headless=new"@,
        "--no-sandbox"@,
        "--disable-dev-shm-usage"@,
        "--disable-browser-side-navigation"@,
        "--disable-gpu"@,
        "--disable-web-security"@,
        "--disable-features=TranslateUI"@,
        "--disable-ipc-flooding-protection"@,
        "--disable-renderer-backgrounding"@,
        "--disable-backgrounding-occluded-windows"@,
        "--disable-field-trial-config"@,
        "--disable-back-forward-cache"@,
        "--disable-component-extensions-with-background-pages"@,
        "--max_old_space_size=4096"@,
        "--js-flags=--max-old-space-size=4096"@,
        "--aggressive-cache-discard"@,
        "--disable-background-networking"@,
        "--disable-default-apps"@,
        "--disable-sync"@,
        "--disable-logging"@,
        "--disable-metrics"@,
        "--disable-metrics-repo"@,
        "--mute-audio"@,
        "--no-default-browser-check"@,
        "--disable-hang-monitor"@,
        "--disable-prompt-on-repost"@,
        "--disable-translate"@,
        "--disable-search-engine-choice-screen"@,
        "--use-mock-keychain"@,
        "--disable-component-update"@,
        "--disable-infobars"@,
        "--disable-extensions"@,
        "--dns-prefetch-disable"@,
        "--disable-blink-features=AutomationControlled"@,
        "--disable-browser-side-navigation"@,
    ]
}

/// All command-line arguments Chrome is started with: the fixed ones, then the user
/// agent, then the language.
pub open spec fn chrome_args(user_agent: Option<Seq<char>>) -> Seq<Seq<char>> {
    fixed_chrome_args() + seq![
        "--user-agent="@ + match user_agent {
            Some(u) => u,
            None => default_user_agent(),
        },
        "--lang=ja-JP"@,
    ]
}

/// The command-line arguments Chrome is started with.
pub fn chrome_arguments(user_agent: &Option<String>) -> (r: Vec<String>)
    ensures
        views(r@) == chrome_args(opt_view(*user_agent)),
{
    let fixed = [
        "start-maximized",
        "--headless=new",
        "--no-sandbox",
        "--disable-dev-shm-usage",
        "--disable-browser-side-navigation",
        "--disable-gpu",
        "--disable-web-security",
        "--disable-features=TranslateUI",
        "--disable-ipc-flooding-protection",
        "--disable-renderer-backgrounding",
        "--disable-backgrounding-occluded-windows",
        "--disable-field-trial-config",
        "--disable-back-forward-cache",
        "--disable-component-extensions-with-background-pages",
        "--max_old_space_size=4096",
        "--js-flags=--max-old-space-size=4096",
        "--aggressive-cache-discard",
        "--disable-background-networking",
        "--disable-default-apps",
        "--disable-sync",
        "--disable-logging",
        "--disable-metrics",
        "--disable-metrics-repo",
        "--mute-audio",
        "--no-default-browser-check",
        "--disable-hang-monitor",
        "--disable-prompt-on-repost",
        "--disable-translate",
        "--disable-search-engine-choice-screen",
        "--use-mock-keychain",
        "--disable-component-update",
        "--disable-infobars",
        "--disable-extensions",
        "--dns-prefetch-disable",
        "--disable-blink-features=AutomationControlled",
        "--disable-browser-side-navigation",
    ];
    let ghost fv = fixed@.map_values(|s: &str| s@);
    assert(fv =~= fixed_chrome_args());
    let mut out: Vec<String> = Vec::new();
    let mut i: usize = 0;
    while i < fixed.len()
        invariant
            i <= fixed.len(),
            fv == fixed@.map_values(|s: &str| s@),
            views(out@) == fv.take(i as int),
        decreases fixed.len() - i,
    {
        let ghost before = views(out@);
        out.push(crate::text::owned(fixed[i]));
        assert(views(out@) =~= before.push(fixed@[i as int]@));
        assert(fv.take(i + 1) =~= fv.take(i as int).push(fv[i as int]));
        i += 1;
    }
    assert(fv.take(fixed.len() as int) =~= fv);
    let agent = match user_agent {
        Some(u) => crate::text::concat("--user-agent=", u.as_str()),
        None => crate::text::concat(
            "--user-agent=",
            "Mozilla/5.0 (Macintosh; Intel Mac OS X 10_15_7) AppleWebKit/537.36 (KHTML, like Gecko) Chrome/122.0.0.0 Safari/537.36",
        ),
    };
    let ghost before = views(out@);
    out.push(agent);
    out.push(crate::text::owned("--lang=ja-JP"));
    assert(views(out@) =~= chrome_args(opt_view(*user_agent)));
    out
}

/// The browser switch that is excluded, so that Chrome does not announce automation.
pub fn excluded_switch() -> (r: String)
    ensures
        r@ == "enable-automation"@,
{
    crate::text::owned("enable-automation")
}

/// The Chrome preferences: no password manager, notifications, pop-ups, images,
/// microphone, camera, geolocation, plugins, broker or automatic downloads, and
/// WebRTC kept off non-proxied UDP.
pub open spec fn chrome_prefs_members() -> Seq<(Seq<char>, JsonView)> {
    seq![
        ("credentials_enable_service"@, JsonView::Bool(false)),
        ("profile.password_manager_enabled"@, JsonView::Bool(false)),
        ("profile.default_content_setting_values.notifications"@, JsonView::Number(JsonNumber::PosInt(2))),
        ("profile.default_content_settings.popups"@, JsonView::Number(JsonNumber::PosInt(0))),
        ("profile.managed_default_content_settings.images"@, JsonView::Number(JsonNumber::PosInt(2))),
        ("webrtc.ip_handling_policy"@, JsonView::String("disable_non_proxied_udp"@)),
        ("webrtc.multiple_routes_enabled"@, JsonView::Bool(false)),
        ("webrtc.nonproxied_udp_enabled"@, JsonView::Bool(false)),
        ("profile.default_content_setting_values.media_stream_mic"@, JsonView::Number(JsonNumber::PosInt(2))),
        ("profile.default_content_setting_values.media_stream_camera"@, JsonView::Number(JsonNumber::PosInt(2))),
        ("profile.default_content_setting_values.geolocation"@, JsonView::Number(JsonNumber::PosInt(2))),
        ("profile.default_content_setting_values.plugins"@, JsonView::Number(JsonNumber::PosInt(2))),
        ("profile.default_content_setting_values.ppapi_broker"@, JsonView::Number(JsonNumber::PosInt(2))),
        ("profile.default_content_setting_values.automatic_downloads"@, JsonView::Number(JsonNumber::PosInt(2))),
    ]
}

fn member(key: &str, v: JsonValue) -> (r: (String, JsonValue))
    ensures
        r.0@ == key@,
        r.1 == v,
{
    (crate::text::owned(key), v)
}

/// The Chrome preferences as a JSON object.
pub fn chrome_prefs() -> (r: JsonValue)
    ensures
        r@ == JsonView::Object(chrome_prefs_members()),
{
    let mut m: Vec<(String, JsonValue)> = Vec::new();
    m.push(member("credentials_enable_service", JsonValue::Bool(false)));
    m.push(member("profile.password_manager_enabled", JsonValue::Bool(false)));
    m.push(member("profile.default_content_setting_values.notifications", JsonValue::Number(JsonNumber::PosInt(2))));
    m.push(member("profile.default_content_settings.popups", JsonValue::Number(JsonNumber::PosInt(0))));
    m.push(member("profile.managed_default_content_settings.images", JsonValue::Number(JsonNumber::PosInt(2))));
    m.push(member("webrtc.ip_handling_policy", JsonValue::String(crate::text::owned("disable_non_proxied_udp"))));
    m.push(member("webrtc.multiple_routes_enabled", JsonValue::Bool(false)));
    m.push(member("webrtc.nonproxied_udp_enabled", JsonValue::Bool(false)));
    m.push(member("profile.default_content_setting_values.media_stream_mic", JsonValue::Number(JsonNumber::PosInt(2))));
    m.push(member("profile.default_content_setting_values.media_stream_camera", JsonValue::Number(JsonNumber::PosInt(2))));
    m.push(member("profile.default_content_setting_values.geolocation", JsonValue::Number(JsonNumber::PosInt(2))));
    m.push(member("profile.default_content_setting_values.plugins", JsonValue::Number(JsonNumber::PosInt(2))));
    m.push(member("profile.default_content_setting_values.ppapi_broker", JsonValue::Number(JsonNumber::PosInt(2))));
    m.push(member("profile.default_content_setting_values.automatic_downloads", JsonValue::Number(JsonNumber::PosInt(2))));
    proof {
        crate::json::lemma_members_view(m@);
        assert(crate::json::entries_view(m@) =~= chrome_prefs_members());
    }
    JsonValue::Object(m)
}

/// How an element is located on a page.
#[derive(Debug, Clone, Copy, PartialEq, Eq, Structural)]
pub enum SelectorType {
    ById,
    ByClassName,
    ByCSS,
    ByXPath,
    ByName,
    ByTag,
    ByLinkText,
}

/// A locator: how to find an element and the text to find it by.
#[derive(Debug)]
pub enum ByLocator {
    Id(String),
    ClassName(String),
    Css(String),
    XPath(String),
    Name(String),
    Tag(String),
    LinkText(String),
}

/// The selector type numbered `n`, counting from 1 in declaration order.
pub open spec fn selector_numbered(n: i32) -> Option<SelectorType> {
    if n == 1 {
        Some(SelectorType::ById)
    } else if n == 2 {
        Some(SelectorType::ByClassName)
    } else if n == 3 {
        Some(SelectorType::ByCSS)
    } else if n == 4 {
        Some(SelectorType::ByXPath)
    } else if n == 5 {
        Some(SelectorType::ByName)
    } else if n == 6 {
        Some(SelectorType::ByTag)
    } else if n == 7 {
        Some(SelectorType::ByLinkText)
    } else {
        None
    }
}

impl SelectorType {
    /// The selector type numbered `n` (from 1); none for any other number.
    pub fn new(n: i32) -> (r: Option<SelectorType>)
        ensures
            r == selector_numbered(n),
    {
        if n == 1 {
            Some(SelectorType::ById)
        } else if n == 2 {
            Some(SelectorType::ByClassName)
        } else if n == 3 {
            Some(SelectorType::ByCSS)
        } else if n == 4 {
            Some(SelectorType::ByXPath)
        } else if n == 5 {
            Some(SelectorType::ByName)
        } else if n == 6 {
            Some(SelectorType::ByTag)
        } else if n == 7 {
            Some(SelectorType::ByLinkText)
        } else {
            None
        }
    }

    /// The locator of this type for the text.
    pub fn to_by(&self, s: &str) -> (r: ByLocator)
        ensures
            match *self {
                SelectorType::ById => r matches ByLocator::Id(x) && x@ == s@,
                SelectorType::ByClassName => r matches ByLocator::ClassName(x) && x@ == s@,
                SelectorType::ByCSS => r matches ByLocator::Css(x) && x@ == s@,
                SelectorType::ByXPath => r matches ByLocator::XPath(x) && x@ == s@,
                SelectorType::ByName => r matches ByLocator::Name(x) && x@ == s@,
                SelectorType::ByTag => r matches ByLocator::Tag(x) && x@ == s@,
                SelectorType::ByLinkText => r matches ByLocator::LinkText(x) && x@ == s@,
            },
    {
        let t = crate::text::owned(s);
        match *self {
            SelectorType::ById => ByLocator::Id(t),
            SelectorType::ByClassName => ByLocator::ClassName(t),
            SelectorType::ByCSS => ByLocator::Css(t),
            SelectorType::ByXPath => ByLocator::XPath(t),
            SelectorType::ByName => ByLocator::Name(t),
            SelectorType::ByTag => ByLocator::Tag(t),
            SelectorType::ByLinkText => ByLocator::LinkText(t),
        }
    }
}

/// The attempts made to create a session.
pub const MAX_CREATE_ATTEMPTS: u32 = 3;

/// The pause, in seconds, after a failed attempt to create a session: 2^(attempt-1)
/// before the next attempt, none after the last.
pub fn creation_retry_delay_secs(attempt: u32) -> (r: Option<u64>)
    requires
        1 <= attempt,
    ensures
        attempt < MAX_CREATE_ATTEMPTS ==> r == Some(vstd::arithmetic::power2::pow2((attempt - 1) as nat) as u64),
        attempt >= MAX_CREATE_ATTEMPTS ==> r is None,
{
    if attempt < MAX_CREATE_ATTEMPTS {
        proof {
            vstd::arithmetic::power2::lemma2_to64();
        }
        if attempt == 1 {
            Some(1)
        } else {
            Some(2)
        }
    } else {
        None
    }
}

/// The pause, in seconds, after a failed attempt to take a session from the pool:
/// 2 before the next attempt, none after the last.
pub fn pool_retry_delay_secs(attempt: usize, max_retries: usize) -> (r: Option<u64>)
    ensures
        attempt < max_retries ==> r == Some(2u64),
        attempt >= max_retries ==> r is None,
{
    if attempt < max_retries {
        Some(2)
    } else {
        None
    }
}

/// The most pages followed through "next page" links.
pub const MAX_PAGE_NUM: i32 = 50;

/// What to do after reading the content of a followed page.
#[derive(Debug, Clone, Copy, PartialEq, Eq, Structural)]
pub enum NextPageStep {
    /// The page was empty: keep nothing from it and stop.
    StopEmpty,
    /// Keep the page and follow the next link.
    KeepAndFollow,
    /// Keep the page and stop: the page limit is reached.
    KeepAndStop,
}

/// The step after reading page number `page_num` of a multi-page article.
pub fn next_page_step(content_is_empty: bool, page_num: i32) -> (r: NextPageStep)
    ensures
        content_is_empty ==> r == NextPageStep::StopEmpty,
        !content_is_empty && page_num <= MAX_PAGE_NUM ==> r == NextPageStep::KeepAndFollow,
        !content_is_empty && page_num > MAX_PAGE_NUM ==> r == NextPageStep::KeepAndStop,
{
    if content_is_empty {
        NextPageStep::StopEmpty
    } else if page_num <= MAX_PAGE_NUM {
        NextPageStep::KeepAndFollow
    } else {
        NextPageStep::KeepAndStop
    }
}

/// Whether scraped contents are usable: an article without content is an error.
pub fn contents_found(contents: &Vec<String>) -> (r: bool)
    ensures
        r == (contents@.len() > 0),
{
    contents.len() > 0
}


/// An ASCII decimal digit.
pub open spec fn is_digit(c: char) -> bool {
    48 <= (c as u32) && (c as u32) <= 57
}

/// Text made of decimal digits only, at least one.
pub open spec fn is_digits(s: Seq<char>) -> bool {
    s.len() > 0 && forall|i: int| 0 <= i < s.len() ==> is_digit(#[trigger] s[i])
}

/// The value of a text of decimal digits.
pub open spec fn digits_value(s: Seq<char>) -> nat
    decreases s.len(),
{
    if s.len() == 0 {
        0
    } else {
        digits_value(s.drop_last()) * 10 + ((s.last() as u32) - 48) as nat
    }
}

/// The `u32` that `str::parse` reads from the text: an optional `+`, then decimal
/// digits only, whose value fits; nothing otherwise.
pub open spec fn parsed_u32(s: Seq<char>) -> Option<u32> {
    let d = if s.len() > 0 && s[0] == '+' {
        s.drop_first()
    } else {
        s
    };
    if is_digits(d) && digits_value(d) <= u32::MAX {
        Some(digits_value(d) as u32)
    } else {
        None
    }
}

/// The `i32` that `str::parse` reads from the text: an optional `+` or `-`, then
/// decimal digits only, whose signed value fits; nothing otherwise.
pub open spec fn parsed_i32(s: Seq<char>) -> Option<i32> {
    if s.len() > 0 && s[0] == '-' {
        let d = s.drop_first();
        if is_digits(d) && digits_value(d) <= 2147483648 {
            Some((0 - digits_value(d)) as i32)
        } else {
            None
        }
    } else {
        let d = if s.len() > 0 && s[0] == '+' {
            s.drop_first()
        } else {
            s
        };
        if is_digits(d) && digits_value(d) <= i32::MAX {
            Some(digits_value(d) as i32)
        } else {
            None
        }
    }
}

/// A prefix of a text of digits has at most the text's value.
proof fn lemma_prefix_value_le(s: Seq<char>, k: int)
    requires
        0 <= k <= s.len(),
    ensures
        digits_value(s.take(k)) <= digits_value(s),
    decreases s.len(),
{
    if k == s.len() {
        assert(s.take(k) =~= s);
    } else {
        assert(s.take(k) =~= s.drop_last().take(k));
        lemma_prefix_value_le(s.drop_last(), k);
    }
}

/// The value of the decimal digits of `s` from `start` on, when they are all digits,
/// at least one, and their value is at most `max`.
fn read_decimal(s: &str, start: usize, max: u64) -> (r: Option<u64>)
    requires
        start <= s@.len(),
        max <= 0x1_0000_0000,
    ensures
        match r {
            Some(v) => is_digits(s@.subrange(start as int, s@.len() as int)) && digits_value(
                s@.subrange(start as int, s@.len() as int),
            ) <= max && v == digits_value(s@.subrange(start as int, s@.len() as int)),
            None => !(is_digits(s@.subrange(start as int, s@.len() as int)) && digits_value(
                s@.subrange(start as int, s@.len() as int),
            ) <= max),
        },
{
    let n = s.unicode_len();
    let ghost d = s@.subrange(start as int, n as int);
    if start >= n {
        return None;
    }
    let mut v: u64 = 0;
    let mut i: usize = start;
    while i < n
        invariant
            n == s@.len(),
            start < n,
            start <= i <= n,
            d == s@.subrange(start as int, n as int),
            max <= 0x1_0000_0000,
            v <= max,
            v == digits_value(d.take(i - start)),
            forall|j: int| 0 <= j < i - start ==> is_digit(#[trigger] d[j]),
        decreases n - i,
    {
        let c = s.get_char(i);
        assert(d[i - start] == c);
        let code = c as u32;
        if code < 48 || code > 57 {
            assert(!is_digit(d[i - start]));
            return None;
        }
        assert(d.take(i - start + 1).drop_last() =~= d.take(i - start));
        assert(d.take(i - start + 1).last() == c);
        let next: u64 = v * 10 + (code - 48) as u64;
        assert(next == digits_value(d.take(i - start + 1)));
        if next > max {
            proof {
                lemma_prefix_value_le(d, i - start + 1);
            }
            return None;
        }
        v = next;
        i += 1;
    }
    assert(d.take(n - start) =~= d);
    Some(v)
}

/// Reads an `i32` as `str::parse` does: an optional sign, then decimal digits only,
/// whose signed value fits.
fn parse_i32(s: &str) -> (r: Option<i32>)
    ensures
        r == parsed_i32(s@),
{
    let n = s.unicode_len();
    if n > 0 && s.get_char(0) == '-' {
        assert(s@.subrange(1, n as int) =~= s@.drop_first());
        match read_decimal(s, 1, 2147483648) {
            Some(v) => Some((0i64 - v as i64) as i32),
            None => None,
        }
    } else {
        let start: usize = if n > 0 && s.get_char(0) == '+' {
            1
        } else {
            0
        };
        assert(s@.subrange(1, n as int) =~= s@.drop_first());
        assert(s@.subrange(0, n as int) =~= s@);
        match read_decimal(s, start, 2147483647) {
            Some(v) => Some(v as i32),
            None => None,
        }
    }
}

/// Reads a `u32` as `str::parse` does: an optional `+`, then decimal digits only,
/// whose value fits.
fn parse_u32(s: &str) -> (r: Option<u32>)
    ensures
        r == parsed_u32(s@),
{
    let n = s.unicode_len();
    let start: usize = if n > 0 && s.get_char(0) == '+' {
        1
    } else {
        0
    };
    assert(s@.subrange(1, n as int) =~= s@.drop_first());
    assert(s@.subrange(0, n as int) =~= s@);
    match read_decimal(s, start, 4294967295) {
        Some(v) => Some(v as u32),
        None => None,
    }
}

/// The date and time read from the groups of a datetime pattern.
#[derive(Debug, Clone, Copy, PartialEq, Eq, Structural)]
pub struct DateParts {
    pub year: i32,
    pub month: u32,
    pub day: u32,
    pub hour: u32,
    pub minute: u32,
    pub second: u32,
}

/// A group of a datetime pattern did not hold a number.
#[derive(Debug, Clone, Copy, PartialEq, Eq, Structural)]
pub struct DatetimeGroupError {
    pub group: usize,
}

/// The texts of the groups of a match, as the pattern captured them.
pub open spec fn group_views(captures: Seq<Option<String>>) -> Seq<Option<Seq<char>>> {
    captures.map_values(|o: Option<String>| opt_view(o))
}

/// The text of group `k`, when the pattern captured it.
pub open spec fn group(groups: Seq<Option<Seq<char>>>, k: int) -> Option<Seq<char>> {
    if 0 <= k < groups.len() {
        groups[k]
    } else {
        None
    }
}

/// The number of a group read as `u32`: zero when the group is absent.
pub open spec fn group_u32(groups: Seq<Option<Seq<char>>>, k: int) -> Option<u32> {
    match group(groups, k) {
        Some(t) => parsed_u32(t),
        None => Some(0),
    }
}

/// The date parts read from the groups: year, month, day, hour, minute and second
/// in groups 1 to 6; an absent year is the current year, any other absent part 0.
/// Nothing when a captured group does not read as a number.
pub open spec fn date_parts_of(groups: Seq<Option<Seq<char>>>, current_year: i32) -> Option<DateParts> {
    let year = match group(groups, 1) {
        Some(t) => parsed_i32(t),
        None => Some(current_year),
    };
    match (year, group_u32(groups, 2), group_u32(groups, 3), group_u32(groups, 4), group_u32(groups, 5), group_u32(groups, 6)) {
        (Some(y), Some(mo), Some(d), Some(h), Some(mi), Some(s)) => Some(
            DateParts { year: y, month: mo, day: d, hour: h, minute: mi, second: s },
        ),
        _ => None,
    }
}

fn read_group_u32(captures: &Vec<Option<String>>, k: usize) -> (r: Result<u32, DatetimeGroupError>)
    ensures
        match group_u32(group_views(captures@), k as int) {
            Some(v) => r == Ok::<u32, DatetimeGroupError>(v),
            None => r == Err::<u32, DatetimeGroupError>(DatetimeGroupError { group: k }),
        },
{
    if k < captures.len() {
        assert(group_views(captures@)[k as int] == opt_view(captures@[k as int]));
        match &captures[k] {
            Some(t) => match parse_u32(t.as_str()) {
                Some(v) => Ok(v),
                None => Err(DatetimeGroupError { group: k }),
            },
            None => Ok(0),
        }
    } else {
        Ok(0)
    }
}

/// The date parts read from the groups of a datetime pattern; an error names the
/// first group that does not read as a number.
pub fn datetime_parts(captures: &Vec<Option<String>>, current_year: i32) -> (r: Result<DateParts, DatetimeGroupError>)
    ensures
        match date_parts_of(group_views(captures@), current_year) {
            Some(p) => r == Ok::<DateParts, DatetimeGroupError>(p),
            None => r is Err,
        },
{
    let year = if 1 < captures.len() {
        assert(group_views(captures@)[1] == opt_view(captures@[1]));
        match &captures[1] {
            Some(t) => match parse_i32(t.as_str()) {
                Some(v) => v,
                None => return Err(DatetimeGroupError { group: 1 }),
            },
            None => current_year,
        }
    } else {
        current_year
    };
    let month = match read_group_u32(captures, 2) {
        Ok(v) => v,
        Err(e) => return Err(e),
    };
    let day = match read_group_u32(captures, 3) {
        Ok(v) => v,
        Err(e) => return Err(e),
    };
    let hour = match read_group_u32(captures, 4) {
        Ok(v) => v,
        Err(e) => return Err(e),
    };
    let minute = match read_group_u32(captures, 5) {
        Ok(v) => v,
        Err(e) => return Err(e),
    };
    let second = match read_group_u32(captures, 6) {
        Ok(v) => v,
        Err(e) => return Err(e),
    };
    Ok(DateParts { year, month, day, hour, minute, second })
}

/// The groups of the first match of a regular expression in a text: `None` when the
/// pattern does not compile, `Some(None)` when it does not match.
pub uninterp spec fn regex_first_captures(pattern: Seq<char>, text: Seq<char>) -> Option<Option<Seq<Option<Seq<char>>>>>;

/// Compiles the pattern with `regex::Regex::new` and takes the groups of its first
/// match in the text (`Regex::captures`, `Captures::iter`), group 0 first; group 0,
/// the whole match, is always present. The error is the regex crate's message.
#[verifier::external_body]
fn first_captures(pattern: &str, text: &str) -> (r: Result<Option<Vec<Option<String>>>, String>)
    ensures
        match r {
            Ok(Some(v)) => regex_first_captures(pattern@, text@) == Some(Some(group_views(v@))) && v@.len() >= 1
                && v@[0] is Some,
            Ok(None) => regex_first_captures(pattern@, text@) == Some(None::<Seq<Option<Seq<char>>>>),
            Err(_) => regex_first_captures(pattern@, text@) is None,
        },
{
    let re = regex::Regex::new(pattern).map_err(|e| e.to_string())?;
    Ok(re.captures(text).map(|c| c.iter().map(|m| m.map(|m| m.as_str().to_string())).collect()))
}

/// Why a datetime could not be read with a pattern.
#[derive(Debug)]
pub enum DatetimePatternError {
    /// The pattern does not compile; the regex crate's message.
    Pattern(String),
    /// A group of the match does not read as a number.
    Group(DatetimeGroupError),
}

/// The pattern a datetime is read with: one that is given and not empty.
pub fn datetime_pattern(datetime_regex: &Option<String>) -> (r: Option<&String>)
    ensures
        match datetime_regex {
            Some(p) => if p@.len() > 0 {
                r == Some(p)
            } else {
                r is None
            },
            None => r is None,
        },
{
    match datetime_regex {
        Some(p) => if p.unicode_len() > 0 {
            Some(p)
        } else {
            None
        },
        None => None,
    }
}

/// The date parts that a datetime pattern finds in the text: nothing when the
/// pattern does not match; an error when it does not compile or when a group of
/// its first match does not read as a number.
pub fn datetime_parts_by_pattern(pattern: &str, text: &str, current_year: i32) -> (r: Result<
    Option<DateParts>,
    DatetimePatternError,
>)
    ensures
        match regex_first_captures(pattern@, text@) {
            None => r matches Err(DatetimePatternError::Pattern(_)),
            Some(None) => r matches Ok(None),
            Some(Some(groups)) => match date_parts_of(groups, current_year) {
                Some(p) => r matches Ok(Some(q)) && q == p,
                None => r matches Err(DatetimePatternError::Group(_)),
            },
        },
{
    match first_captures(pattern, text) {
        Err(e) => Err(DatetimePatternError::Pattern(e)),
        Ok(None) => Ok(None),
        Ok(Some(groups)) => match datetime_parts(&groups, current_year) {
            Ok(p) => Ok(Some(p)),
            Err(e) => Err(DatetimePatternError::Group(e)),
        },
    }
}

/// A date and time as chrono holds one with a fixed offset: the local calendar date
/// and time of day, and the offset in seconds east of UTC.
#[derive(Debug, Clone, Copy, PartialEq, Eq, Structural)]
pub struct DateTimeParts {
    pub year: i32,
    pub month: u32,
    pub day: u32,
    pub hour: u32,
    pub minute: u32,
    pub second: u32,
    pub nanosecond: u32,
    pub offset_seconds: i32,
}

/// What `chrono::DateTime::parse_from_rfc3339` reads from the text.
pub uninterp spec fn rfc3339_parsed(text: Seq<char>) -> Option<DateTimeParts>;

/// What `chrono::DateTime::parse_from_str` reads from the text with the format
/// `%+` (ISO 8601).
pub uninterp spec fn iso_parsed(text: Seq<char>) -> Option<DateTimeParts>;

/// Reads an RFC 3339 date and time with chrono; the error is chrono's message.
#[verifier::external_body]
fn parse_rfc3339(text: &str) -> (r: Result<DateTimeParts, String>)
    ensures
        match r {
            Ok(d) => rfc3339_parsed(text@) == Some(d),
            Err(_) => rfc3339_parsed(text@) is None,
        },
{
    chrono::DateTime::parse_from_rfc3339(text).map(|d| DateTimeParts {
        year: d.year(), month: d.month(), day: d.day(), hour: d.hour(), minute: d.minute(), second: d.second(),
        nanosecond: d.nanosecond(), offset_seconds: d.offset().local_minus_utc(),
    }).map_err(|e| e.to_string())
}

/// Reads an ISO 8601 date and time with chrono's format `%+`; the error is chrono's
/// message.
#[verifier::external_body]
fn parse_iso(text: &str) -> (r: Result<DateTimeParts, String>)
    ensures
        match r {
            Ok(d) => iso_parsed(text@) == Some(d),
            Err(_) => iso_parsed(text@) is None,
        },
{
    chrono::DateTime::parse_from_str(text, "%+").map(|d| DateTimeParts {
        year: d.year(), month: d.month(), day: d.day(), hour: d.hour(), minute: d.minute(), second: d.second(),
        nanosecond: d.nanosecond(), offset_seconds: d.offset().local_minus_utc(),
    }).map_err(|e| e.to_string())
}

/// The date parts read in the machine's local time zone (chrono's
/// `Local.with_ymd_and_hms(..).single()`, with its offset fixed): nothing when the
/// parts name no valid time or the zone makes them ambiguous. Which offset comes
/// out depends on the machine's time zone and is not stated; the local date and
/// time are the parts given, at whole seconds.
#[verifier::external_body]
fn local_datetime(p: DateParts) -> (r: Option<DateTimeParts>)
    ensures
        r matches Some(d) ==> d.year == p.year && d.month == p.month && d.day == p.day && d.hour == p.hour
            && d.minute == p.minute && d.second == p.second && d.nanosecond == 0,
{
    chrono::Local.with_ymd_and_hms(p.year, p.month, p.day, p.hour, p.minute, p.second).single().map(|d| DateTimeParts {
        year: d.year(), month: d.month(), day: d.day(), hour: d.hour(), minute: d.minute(), second: d.second(),
        nanosecond: d.nanosecond(), offset_seconds: d.offset().fix().local_minus_utc(),
    })
}

/// Why a scraped date could not be read.
#[derive(Debug)]
pub enum DatetimeError {
    /// The pattern does not compile; the regex crate's message.
    Pattern(String),
    /// A group of the pattern's match does not read as a number.
    Group(DatetimeGroupError),
    /// Without a pattern, the text is neither RFC 3339 nor ISO 8601; chrono's message.
    Unreadable(String),
}

/// The local date and time of a value: its parts without the offset.
pub open spec fn local_parts(d: DateTimeParts) -> DateParts {
    DateParts { year: d.year, month: d.month, day: d.day, hour: d.hour, minute: d.minute, second: d.second }
}

/// Reads a scraped date. With a non-empty pattern, the groups of its first match
/// give the date and time, read in the local time zone (nothing when it does not
/// match, or when the zone has no single such time). Without one, the text is read
/// as RFC 3339, else as ISO 8601.
pub fn datetime_of_scraped(text: &str, datetime_regex: &Option<String>, current_year: i32) -> (r: Result<
    Option<DateTimeParts>,
    DatetimeError,
>)
    ensures
        (datetime_regex matches Some(p) && p@.len() > 0) ==> match regex_first_captures(
            datetime_regex->Some_0@,
            text@,
        ) {
            None => r matches Err(DatetimeError::Pattern(_)),
            Some(None) => r matches Ok(None),
            Some(Some(groups)) => match date_parts_of(groups, current_year) {
                Some(p) => r matches Ok(o) && (o matches Some(d) ==> local_parts(d) == p && d.nanosecond == 0),
                None => r matches Err(DatetimeError::Group(_)),
            },
        },
        !(datetime_regex matches Some(p) && p@.len() > 0) ==> match rfc3339_parsed(text@) {
            Some(d) => r matches Ok(Some(e)) && e == d,
            None => match iso_parsed(text@) {
                Some(d) => r matches Ok(Some(e)) && e == d,
                None => r matches Err(DatetimeError::Unreadable(_)),
            },
        },
{
    match datetime_pattern(datetime_regex) {
        Some(pattern) => match datetime_parts_by_pattern(pattern.as_str(), text, current_year) {
            Ok(Some(p)) => Ok(local_datetime(p)),
            Ok(None) => Ok(None),
            Err(DatetimePatternError::Pattern(e)) => Err(DatetimeError::Pattern(e)),
            Err(DatetimePatternError::Group(e)) => Err(DatetimeError::Group(e)),
        },
        None => match parse_rfc3339(text) {
            Ok(d) => Ok(Some(d)),
            Err(_) => match parse_iso(text) {
                Ok(d) => Ok(Some(d)),
                Err(e) => Err(DatetimeError::Unreadable(e)),
            },
        },
    }
}

/// Selector types are numbered from 1 in their declaration order: `ById` 1,
/// `ByClassName` 2, `ByCSS` 3, `ByXPath` 4, `ByName` 5, `ByTag` 6, `ByLinkText` 7;
/// every other number names none, and no two numbers name the same type.
pub proof fn law_selector_numbering(n: i32, m: i32)
    ensures
        selector_numbered(1) == Some(SelectorType::ById),
        selector_numbered(2) == Some(SelectorType::ByClassName),
        selector_numbered(3) == Some(SelectorType::ByCSS),
        selector_numbered(4) == Some(SelectorType::ByXPath),
        selector_numbered(5) == Some(SelectorType::ByName),
        selector_numbered(6) == Some(SelectorType::ByTag),
        selector_numbered(7) == Some(SelectorType::ByLinkText),
        n < 1 || n > 7 ==> selector_numbered(n) is None,
        selector_numbered(n) is Some && selector_numbered(n) == selector_numbered(m) ==> n == m,
{
}

} // verus!
