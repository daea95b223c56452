//! Robots.txt: where it lives, what it allows, and how a fetch of it is read.
use crate::text::opt_view;
use vstd::prelude::*;

verus! {

#[verifier::external_type_specification]
#[verifier::external_body]
pub struct ExUrl(url::Url);

#[verifier::external_type_specification]
#[verifier::external_body]
pub struct ExUrlParseError(url::ParseError);

/// The serialization of a parsed URL (`Url::as_str`).
pub uninterp spec fn url_text(u: url::Url) -> Seq<char>;

/// The serialization of the URL that `Url::parse` makes of the text, if it parses.
pub uninterp spec fn parsed_url(s: Seq<char>) -> Option<Seq<char>>;

/// The serialization after `Url::set_path` with the given path.
pub uninterp spec fn url_with_path(url: Seq<char>, path: Seq<char>) -> Seq<char>;

/// The serialization after `Url::set_fragment(None)`.
pub uninterp spec fn url_without_fragment(url: Seq<char>) -> Seq<char>;

/// The serialization after `Url::set_query(None)`.
pub uninterp spec fn url_without_query(url: Seq<char>) -> Seq<char>;

/// Whether robotstxt's default matcher lets the user agent fetch the URL under the
/// given robots.txt (`one_agent_allowed_by_robots`).
pub uninterp spec fn robots_allows(robots_txt: Seq<char>, user_agent: Seq<char>, url: Seq<char>) -> bool;

/// The longest serialization whose path may be replaced: the url crate keeps
/// positions in `u32` and panics past it.
pub const MAX_URL_LEN: usize = 4294967000;

/// Parses an absolute URL with the url crate.
#[verifier::external_body]
fn parse_url(s: &str) -> (r: Result<url::Url, url::ParseError>)
    ensures
        match r {
            Ok(u) => parsed_url(s@) == Some(url_text(u)),
            Err(_) => parsed_url(s@) is None,
        },
{
    url::Url::parse(s)
}

/// The serialization of a URL.
#[verifier::external_body]
fn url_as_str(u: &url::Url) -> (r: &str)
    ensures
        r@ == url_text(*u),
{
    u.as_str()
}

/// Replaces the path of a URL.
#[verifier::external_body]
fn url_set_path(u: &mut url::Url, path: &str)
    requires
        url_text(*old(u)).len() + 12 * path@.len() < 4294967295,
    ensures
        url_text(*final(u)) == url_with_path(url_text(*old(u)), path@),
{
    u.set_path(path)
}

/// Removes the fragment of a URL.
#[verifier::external_body]
fn url_clear_fragment(u: &mut url::Url)
    ensures
        url_text(*final(u)) == url_without_fragment(url_text(*old(u))),
{
    u.set_fragment(None)
}

/// Removes the query of a URL.
#[verifier::external_body]
fn url_clear_query(u: &mut url::Url)
    ensures
        url_text(*final(u)) == url_without_query(url_text(*old(u))),
{
    u.set_query(None)
}

/// robotstxt's parser keeps at most this many bytes of a line; it skips the rest of
/// the line, counting the skipped characters.
pub const ROBOTS_LINE_LIMIT: usize = 16663;

/// A line ending of robots.txt: `\n` or `\r`.
pub open spec fn is_line_end_byte(b: u8) -> bool {
    b == 10 || b == 13
}

/// The number of bytes of the line before position `i`: those since the last line
/// ending.
pub open spec fn line_bytes_before(bytes: Seq<u8>, i: int) -> nat
    decreases i,
{
    if i <= 0 {
        0
    } else if is_line_end_byte(bytes[i - 1]) {
        0
    } else {
        line_bytes_before(bytes, i - 1) + 1
    }
}

/// A byte that begins a character in UTF-8: not a continuation byte.
pub open spec fn starts_char(b: u8) -> bool {
    b < 128 || b >= 192
}

/// Every character that robotstxt's parser skips, past the limit of its line, is
/// ASCII. The parser adds the number of skipped characters to a byte offset, so a
/// skipped character of more than one byte makes it slice the text inside a
/// character, and panic.
pub open spec fn robots_body_parsable(bytes: Seq<u8>) -> bool {
    forall|i: int|
        0 <= i < bytes.len() && starts_char(bytes[i]) && #[trigger] line_bytes_before(bytes, i)
            >= ROBOTS_LINE_LIMIT ==> bytes[i] < 128
}

/// The robots.txt text can be given to robotstxt's parser.
pub open spec fn robots_text_parsable(text: Seq<char>) -> bool {
    robots_body_parsable(vstd::utf8::encode_utf8(text))
}

/// Whether robotstxt's parser can read the text without panicking: no character
/// past the limit of its line is outside ASCII.
pub fn robots_txt_parsable(robots_txt: &str) -> (r: bool)
    ensures
        r == robots_text_parsable(robots_txt@),
{
    let bytes = robots_txt.as_bytes();
    let mut run: usize = 0;
    let mut i: usize = 0;
    while i < bytes.len()
        invariant
            bytes@ == vstd::utf8::encode_utf8(robots_txt@),
            i <= bytes.len(),
            run <= i,
            run == line_bytes_before(bytes@, i as int),
            forall|j: int|
                0 <= j < i && starts_char(bytes@[j]) && #[trigger] line_bytes_before(bytes@, j)
                    >= ROBOTS_LINE_LIMIT ==> bytes@[j] < 128,
        decreases bytes.len() - i,
    {
        let b = bytes[i];
        if (b < 128 || b >= 192) && run >= ROBOTS_LINE_LIMIT && b >= 128 {
            return false;
        }
        if b == 10 || b == 13 {
            run = 0;
        } else {
            run = run + 1;
        }
        i += 1;
    }
    true
}

/// Asks robotstxt's default matcher whether the user agent may fetch the URL.
/// The text must be parsable: robotstxt's parser panics on a line whose part past
/// its limit holds a character of more than one byte. An empty robots.txt allows
/// everything: with no rule parsed, the matcher's `disallow` finds no priority
/// above zero.
#[verifier::external_body]
fn matcher_allows(robots_txt: &str, user_agent: &str, url: &str) -> (r: bool)
    requires
        robots_text_parsable(robots_txt@),
    ensures
        r == robots_allows(robots_txt@, user_agent@, url@),
        robots_txt@.len() == 0 ==> r,
{
    let mut matcher = robotstxt::DefaultMatcher::default();
    matcher.one_agent_allowed_by_robots(robots_txt, user_agent, url)
}

/// Why the robots.txt address of a URL could not be made.
#[derive(Debug)]
pub enum RobotsUrlError {
    /// The URL does not parse.
    Parse(url::ParseError),
    /// The URL is too long for its path to be replaced.
    TooLong,
}

/// The robots.txt address of a site: the URL with path `/robots.txt` and no query
/// or fragment.
pub open spec fn robots_url_of(url: Seq<char>) -> Seq<char> {
    url_without_query(url_without_fragment(url_with_path(url, "/robots.txt"@)))
}

/// The robots.txt URL of the site of `url_str`.
pub fn robots_txt_url(url_str: &str) -> (r: Result<url::Url, RobotsUrlError>)
    ensures
        match r {
            Ok(u) => parsed_url(url_str@) matches Some(p) && p.len() < MAX_URL_LEN && url_text(u) == robots_url_of(p),
            Err(RobotsUrlError::Parse(_)) => parsed_url(url_str@) is None,
            Err(RobotsUrlError::TooLong) => parsed_url(url_str@) matches Some(p) && p.len() >= MAX_URL_LEN,
        },
{
    let mut url = match parse_url(url_str) {
        Ok(u) => u,
        Err(e) => return Err(RobotsUrlError::Parse(e)),
    };
    let len = url_as_str(&url).unicode_len();
    if len >= MAX_URL_LEN {
        return Err(RobotsUrlError::TooLong);
    }
    let path = "/robots.txt";
    proof {
        reveal_strlit("/robots.txt");
    }
    url_set_path(&mut url, path);
    url_clear_fragment(&mut url);
    url_clear_query(&mut url);
    Ok(url)
}

/// The address that robots.txt is checked against: the URL as the url crate
/// serializes it, or the url crate's error when it does not parse.
pub fn robots_check_url(url_str: &str) -> (r: Result<String, url::ParseError>)
    ensures
        match parsed_url(url_str@) {
            Some(u) => r matches Ok(s) && s@ == u,
            None => r is Err,
        },
{
    match parse_url(url_str) {
        Ok(u) => Ok(crate::text::owned(url_as_str(&u))),
        Err(e) => Err(e),
    }
}

/// Whether robots.txt lets the user agent fetch the URL.
pub fn available_url_by_robots_txt(robots_txt: &str, url: &str, user_agent: &str) -> (r: bool)
    requires
        robots_text_parsable(robots_txt@),
    ensures
        r == robots_allows(robots_txt@, user_agent@, url@),
        robots_txt@.len() == 0 ==> r,
{
    matcher_allows(robots_txt, user_agent, url)
}

/// The user agent under which a page is checked when none is given.
pub open spec fn default_robots_agent() -> Seq<char> {
    "robotstxt"@
}

/// The user agent under which robots.txt itself is fetched.
pub fn robots_fetch_agent() -> (r: &'static str)
    ensures
        r@ == "curl/8.7.1"@,
{
    "curl/8.7.1"
}

/// Whether a page may be read: unknown (`None`) without a robots.txt, else what
/// robots.txt says for the user agent, `robotstxt` when none is given.
pub fn robots_txt_verdict(robots_txt: &Option<String>, url: &str, user_agent: Option<&str>) -> (r: Option<bool>)
    requires
        match robots_txt {
            Some(t) => robots_text_parsable(t@),
            None => true,
        },
    ensures
        match robots_txt {
            Some(t) => r == Some(robots_allows(
                t@,
                match user_agent {
                    Some(a) => a@,
                    None => default_robots_agent(),
                },
                url@,
            )),
            None => r is None,
        },
{
    match robots_txt {
        Some(t) => {
            let agent = match user_agent {
                Some(a) => a,
                None => "robotstxt",
            };
            Some(available_url_by_robots_txt(t.as_str(), url, agent))
        },
        None => None,
    }
}

/// Whether robots.txt denies reading: only a verdict of `false` denies; an unknown
/// verdict allows.
pub fn denied_by_robots(verdict: Option<bool>) -> (r: bool)
    ensures
        r == (verdict == Some(false)),
{
    match verdict {
        Some(b) => !b,
        None => false,
    }
}

/// Why fetching robots.txt failed.
#[derive(Debug)]
pub enum RobotsTxtError {
    /// The body of a successful response could not be read.
    Content(String),
    /// The server answered with a status other than success or not found.
    NotSuccess(u16),
}

/// Whether an HTTP status is a success (2xx).
pub fn is_success_status(status: u16) -> (r: bool)
    ensures
        r == (200 <= status <= 299),
{
    200 <= status && status <= 299
}

/// What a fetch of robots.txt gives: its text on success, nothing when it is not
/// found, an error otherwise. The body is read only on success.
pub fn robots_txt_from_response(status: u16, body: Result<String, String>) -> (r: Result<Option<String>, RobotsTxtError>)
    ensures
        200 <= status <= 299 ==> match body {
            Ok(t) => r matches Ok(Some(x)) && x == t,
            Err(e) => r matches Err(RobotsTxtError::Content(x)) && x == e,
        },
        status == 404 ==> (r matches Ok(None)),
        !(200 <= status <= 299) && status != 404 ==> (r matches Err(RobotsTxtError::NotSuccess(s)) && s == status),
{
    if is_success_status(status) {
        match body {
            Ok(t) => Ok(Some(t)),
            Err(e) => Err(RobotsTxtError::Content(e)),
        }
    } else if status == 404 {
        Ok(None)
    } else {
        Err(RobotsTxtError::NotSuccess(status))
    }
}

/// A page read as an article: its title, its main content as HTML, and the text of
/// that content.
#[derive(Debug)]
pub struct Article {
    pub title: String,
    pub content: String,
    pub text: String,
}

/// What the readability crate's extractor reads from the HTML of a page at the URL:
/// the title, content and text of the article, or nothing when it fails.
pub uninterp spec fn extracted_article(html: Seq<char>, url: Seq<char>) -> Option<(Seq<char>, Seq<char>, Seq<char>)>;

/// Runs the readability crate's extractor (`readability::extractor::extract`) on the
/// HTML of the page at the URL. The error is the extractor's error, as debug text.
#[verifier::external_body]
fn readability_extract(html: &str, url: &url::Url) -> (r: Result<Article, String>)
    ensures
        match r {
            Ok(a) => extracted_article(html@, url_text(*url)) == Some((a.title@, a.content@, a.text@)),
            Err(_) => extracted_article(html@, url_text(*url)) is None,
        },
{
    let mut input = std::io::Cursor::new(html.as_bytes());
    match ::readability::extractor::extract(&mut input, url) {
        Ok(p) => Ok(Article { title: p.title, content: p.content, text: p.text }),
        Err(e) => Err(format!("{e:?}")),
    }
}

/// Why a page could not be read as an article.
#[derive(Debug)]
pub enum ExtractError {
    /// The address of the page does not parse.
    Url(url::ParseError),
    /// The extractor failed; its error as debug text.
    Readability(String),
}

/// Reads the HTML of the page at `url` as an article.
pub fn extract_article(html: &str, url: &str) -> (r: Result<Article, ExtractError>)
    ensures
        match parsed_url(url@) {
            None => r matches Err(ExtractError::Url(_)),
            Some(u) => match extracted_article(html@, u) {
                Some((title, content, text)) => r matches Ok(a) && a.title@ == title && a.content@ == content
                    && a.text@ == text,
                None => r matches Err(ExtractError::Readability(_)),
            },
        },
{
    let parsed = match parse_url(url) {
        Ok(u) => u,
        Err(e) => return Err(ExtractError::Url(e)),
    };
    match readability_extract(html, &parsed) {
        Ok(a) => Ok(a),
        Err(e) => Err(ExtractError::Readability(e)),
    }
}

} // verus!
