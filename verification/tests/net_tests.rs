use infra_utils::net::readability::{
    available_url_by_robots_txt, denied_by_robots, is_success_status, robots_txt_from_response, robots_txt_url,
    robots_txt_verdict, RobotsTxtError, RobotsUrlError, extract_article, ExtractError,
    robots_check_url, robots_txt_parsable,
};
use infra_utils::net::reqwest::{client_settings, rss_client_settings};
use infra_utils::net::rss_client::{
    atom_category_to_rss_category, atom_entry_description, atom_entry_enclosure, atom_entry_to_rss_item,
    atom_feed_to_rss_channel, atom_link_href, atom_text_value, parse_feed_content, FeedChannel, AtomCategory, AtomContent, AtomDate, AtomEntry, AtomFeed, AtomLink,
    AtomText,
};

#[test]
fn test_robots_txt_url() {
    assert_eq!(
        robots_txt_url("https://www.example.com").unwrap().as_str(),
        "https://www.example.com/robots.txt"
    );
    assert_eq!(
        robots_txt_url("https://www.example.com/search?hoge=fuga").unwrap().as_str(),
        "https://www.example.com/robots.txt"
    );
    assert_eq!(
        robots_txt_url("https://www.example.com/search/?hoge=fuga#id").unwrap().as_str(),
        "https://www.example.com/robots.txt"
    );
}

#[test]
fn robots_txt_url_rejects_relative_url() {
    assert!(matches!(robots_txt_url("not a url"), Err(RobotsUrlError::Parse(_))));
}

#[test]
fn robots_txt_url_keeps_port() {
    assert_eq!(
        robots_txt_url("http://example.com:8080/a/b?x=1").unwrap().as_str(),
        "http://example.com:8080/robots.txt"
    );
}

#[test]
fn robots_rules_are_obeyed() {
    let robots = "User-agent: *\nDisallow: /private/\n";
    assert!(!available_url_by_robots_txt(robots, "https://example.com/private/page", "mybot"));
    assert!(available_url_by_robots_txt(robots, "https://example.com/public/page", "mybot"));
}

#[test]
fn empty_robots_txt_allows_everything() {
    assert!(available_url_by_robots_txt("", "https://example.com/anything", "mybot"));
}

#[test]
fn robots_verdict_uses_default_agent() {
    let robots = Some("User-agent: robotstxt\nDisallow: /\n".to_string());
    assert_eq!(robots_txt_verdict(&robots, "https://example.com/x", None), Some(false));
    assert_eq!(robots_txt_verdict(&robots, "https://example.com/x", Some("other")), Some(true));
    assert_eq!(robots_txt_verdict(&None, "https://example.com/x", None), None);
}

#[test]
fn only_a_false_verdict_denies() {
    assert!(denied_by_robots(Some(false)));
    assert!(!denied_by_robots(Some(true)));
    assert!(!denied_by_robots(None));
}

#[test]
fn robots_response_statuses() {
    assert!(is_success_status(200));
    assert!(is_success_status(299));
    assert!(!is_success_status(300));
    assert_eq!(robots_txt_from_response(200, Ok("User-agent: *".to_string())).unwrap(), Some("User-agent: *".to_string()));
    assert_eq!(robots_txt_from_response(404, Ok(String::new())).unwrap(), None);
    assert!(matches!(robots_txt_from_response(500, Ok(String::new())), Err(RobotsTxtError::NotSuccess(500))));
    assert!(matches!(
        robots_txt_from_response(200, Err("broken".to_string())),
        Err(RobotsTxtError::Content(e)) if e == "broken"
    ));
}

#[test]
fn client_settings_defaults() {
    let s = client_settings(None, None, Some(5000), Some(3));
    assert_eq!(s.user_agent, None);
    assert_eq!(s.timeout_ms, 30000);
    assert_eq!(s.connect_timeout_ms, 5000);
    assert_eq!(s.max_retries, Some(3));
    let r = rss_client_settings("agent/1.0", 1000, 2000);
    assert_eq!(r.user_agent.as_deref(), Some("agent/1.0"));
    assert_eq!(r.max_retries, Some(2));
}

fn link(href: &str, rel: &str) -> AtomLink {
    AtomLink { href: href.to_string(), rel: rel.to_string(), mime_type: None, length: None }
}

fn text(s: &str) -> AtomText {
    AtomText { value: s.to_string() }
}

fn entry() -> AtomEntry {
    AtomEntry {
        title: text("Atom Entry"),
        id: "https://example.com/atom-entry".to_string(),
        updated: AtomDate::Rfc2822("Wed, 24 Jun 2026 20:00:25 +0000".to_string()),
        published: None,
        authors: vec![],
        categories: vec![],
        links: vec![link("https://example.com/atom-entry", "alternate")],
        summary: Some(text("Atom entry summary")),
        content: None,
    }
}

#[test]
fn atom_feed_becomes_rss_channel() {
    let feed = AtomFeed {
        title: text("Atom Feed"),
        id: "https://example.com/feed.xml".to_string(),
        updated: AtomDate::Rfc2822("Wed, 24 Jun 2026 20:00:25 +0000".to_string()),
        links: vec![link("https://example.com/", "alternate")],
        subtitle: Some(text("Atom subtitle")),
        rights: None,
        lang: None,
        categories: vec![],
        generator: None,
        entries: vec![entry()],
    };
    let channel = atom_feed_to_rss_channel(&feed).unwrap();
    assert_eq!(channel.title, "Atom Feed");
    assert_eq!(channel.link, "https://example.com/");
    assert_eq!(channel.description, "Atom subtitle");
    assert_eq!(channel.last_build_date.as_deref(), Some("Wed, 24 Jun 2026 20:00:25 +0000"));
    assert_eq!(channel.items.len(), 1);
    let item = &channel.items[0];
    assert_eq!(item.title.as_deref(), Some("Atom Entry"));
    assert_eq!(item.link.as_deref(), Some("https://example.com/atom-entry"));
    assert_eq!(item.description.as_deref(), Some("Atom entry summary"));
    assert_eq!(item.guid.as_ref().map(|g| g.value.as_str()), Some("https://example.com/atom-entry"));
    assert_eq!(item.guid.as_ref().map(|g| g.permalink), Some(false));
    assert_eq!(item.pub_date.as_deref(), Some("Wed, 24 Jun 2026 20:00:25 +0000"));
}

#[test]
fn feed_without_links_is_linked_by_id_and_described_by_rights() {
    let feed = AtomFeed {
        title: text("T"),
        id: "urn:feed".to_string(),
        updated: AtomDate::Rfc2822("u".to_string()),
        links: vec![link("", "alternate")],
        subtitle: None,
        rights: Some(text("(c) me")),
        lang: Some("en".to_string()),
        categories: vec![AtomCategory { term: "t".to_string(), scheme: Some("s".to_string()), label: None }],
        generator: Some("gen".to_string()),
        entries: vec![],
    };
    let channel = atom_feed_to_rss_channel(&feed).unwrap();
    assert_eq!(channel.link, "urn:feed");
    assert_eq!(channel.description, "(c) me");
    assert_eq!(channel.copyright.as_deref(), Some("(c) me"));
    assert_eq!(channel.language.as_deref(), Some("en"));
    assert_eq!(channel.generator.as_deref(), Some("gen"));
    assert_eq!(channel.categories[0].name, "t");
    assert_eq!(channel.categories[0].domain.as_deref(), Some("s"));
    assert!(channel.items.is_empty());
}

#[test]
fn link_prefers_alternate_with_address() {
    let links = vec![link("https://a/", "self"), link("", "alternate"), link("https://b/", "alternate")];
    assert_eq!(atom_link_href(&links).as_deref(), Some("https://b/"));
    let links = vec![link("", "alternate"), link("https://c/", "self")];
    assert_eq!(atom_link_href(&links).as_deref(), Some("https://c/"));
    let links = vec![link("", "alternate")];
    assert_eq!(atom_link_href(&links), None);
}

#[test]
fn category_prefers_non_empty_label() {
    let c = atom_category_to_rss_category(&AtomCategory { term: "term".into(), scheme: None, label: Some("Label".into()) });
    assert_eq!(c.name, "Label");
    let c = atom_category_to_rss_category(&AtomCategory { term: "term".into(), scheme: None, label: Some(String::new()) });
    assert_eq!(c.name, "term");
    assert_eq!(c.domain, None);
}

#[test]
fn entry_enclosure_description_and_content() {
    let mut e = entry();
    e.links.push(AtomLink {
        href: "https://example.com/a.mp3".into(),
        rel: "enclosure".into(),
        mime_type: Some("audio/mpeg".into()),
        length: None,
    });
    let enc = atom_entry_enclosure(&e).unwrap();
    assert_eq!(enc.url, "https://example.com/a.mp3");
    assert_eq!(enc.length, "");
    assert_eq!(enc.mime_type, "audio/mpeg");
    e.summary = None;
    e.content = Some(AtomContent { value: None, src: Some("https://example.com/body".into()) });
    assert_eq!(atom_entry_description(&e), None);
    let item = atom_entry_to_rss_item(&e).unwrap();
    assert_eq!(item.content.as_deref(), Some("https://example.com/body"));
    e.content = Some(AtomContent { value: Some("inline".into()), src: None });
    assert_eq!(atom_entry_description(&e).as_deref(), Some("inline"));
}

#[test]
fn entry_guid_falls_back_to_link_and_date_to_published() {
    let mut e = entry();
    e.id = String::new();
    e.published = Some(AtomDate::Rfc2822("Mon, 01 Jan 2024 00:00:00 +0000".into()));
    e.authors = vec!["Alice".into(), "Bob".into()];
    let item = atom_entry_to_rss_item(&e).unwrap();
    assert_eq!(item.guid.unwrap().value, "https://example.com/atom-entry");
    assert_eq!(item.pub_date.as_deref(), Some("Mon, 01 Jan 2024 00:00:00 +0000"));
    assert_eq!(item.author.as_deref(), Some("Alice"));
    assert_eq!(atom_text_value(&text("x")), "x");
}

#[test]
fn article_is_extracted_from_html() {
    let html = "<html><head><title>Weekly notes</title></head><body><div id=\"main\"><p>The first paragraph of the article, with enough words, commas, and sentences to be scored as content.</p><p>A second paragraph follows it, again long enough, with more commas, words and text.</p></div></body></html>";
    let article = extract_article(html, "https://example.com/notes/1").unwrap();
    assert_eq!(article.title, "Weekly notes");
    assert!(article.text.contains("The first paragraph of the article"));
    assert!(!article.content.is_empty());
    assert!(matches!(extract_article(html, "not a url"), Err(ExtractError::Url(_))));
}

#[test]
fn robots_text_parsable_past_line_limit() {
    assert!(robots_txt_parsable("User-agent: *\nDisallow: /private\n"));
    assert!(robots_txt_parsable(""));
    let long_ascii = format!("# {}\nUser-agent: *\nDisallow: /x\n", "a".repeat(20000));
    assert!(robots_txt_parsable(&long_ascii));
    let long_japanese = format!("# {}\nDisallow: /x\n", "あ".repeat(7000));
    assert!(!robots_txt_parsable(&long_japanese));
    let short_japanese = format!("# {}\nDisallow: /x\n", "あ".repeat(100));
    assert!(robots_txt_parsable(&short_japanese));
    assert!(!available_url_by_robots_txt(&long_ascii, "https://example.com/x", "mybot"));
}

#[test]
fn robots_check_url_serializes() {
    assert_eq!(robots_check_url("https://Example.com").unwrap(), "https://example.com/");
    assert!(robots_check_url("not a url").is_err());
}

#[test]
fn parse_feed_content_reads_rss() {
    let channel = match parse_feed_content(
        br#"<?xml version="1.0"?>
<rss version="2.0">
  <channel>
    <title>RSS Feed</title>
    <link>https://example.com/</link>
    <description>RSS description</description>
    <item>
      <title>RSS Item</title>
      <link>https://example.com/rss-item</link>
      <description>RSS item description</description>
      <pubDate>Wed, 24 Jun 2026 20:00:25 +0000</pubDate>
    </item>
  </channel>
</rss>"#,
    )
    .expect("RSS should parse")
    {
        FeedChannel::Rss(channel) => channel,
        FeedChannel::Atom(_) => panic!("RSS should be read as RSS"),
    };

    assert_eq!(channel.title, "RSS Feed");
    assert_eq!(channel.link, "https://example.com/");
    assert_eq!(channel.items.len(), 1);
    assert_eq!(channel.items[0].title.as_deref(), Some("RSS Item"));
}

#[test]
fn parse_feed_content_reads_atom_as_rss_channel() {
    let channel = match parse_feed_content(
        br#"<?xml version="1.0" encoding="utf-8"?>
<feed xmlns="http://www.w3.org/2005/Atom">
  <title>Atom Feed</title>
  <subtitle>Atom subtitle</subtitle>
  <link href="https://example.com/"/>
  <updated>2026-06-24T20:00:25Z</updated>
  <id>https://example.com/feed.xml</id>
  <entry>
    <title>Atom Entry</title>
    <link href="https://example.com/atom-entry"/>
    <id>https://example.com/atom-entry</id>
    <updated>2026-06-24T20:00:25Z</updated>
    <summary>Atom entry summary</summary>
  </entry>
</feed>"#,
    )
    .expect("Atom should parse")
    {
        FeedChannel::Atom(channel) => channel,
        FeedChannel::Rss(_) => panic!("Atom should be carried over"),
    };

    assert_eq!(channel.title, "Atom Feed");
    assert_eq!(channel.link, "https://example.com/");
    assert_eq!(channel.description, "Atom subtitle");
    assert_eq!(channel.last_build_date.as_deref(), Some("Wed, 24 Jun 2026 20:00:25 +0000"));
    assert_eq!(channel.items.len(), 1);
    assert_eq!(channel.items[0].title.as_deref(), Some("Atom Entry"));
    assert_eq!(channel.items[0].link.as_deref(), Some("https://example.com/atom-entry"));
    assert_eq!(channel.items[0].description.as_deref(), Some("Atom entry summary"));
    assert_eq!(
        channel.items[0].guid.as_ref().map(|guid| guid.value.as_str()),
        Some("https://example.com/atom-entry")
    );
    assert_eq!(channel.items[0].pub_date.as_deref(), Some("Wed, 24 Jun 2026 20:00:25 +0000"));
}

#[test]
fn parse_feed_content_rejects_unknown_xml() {
    let err = parse_feed_content(br#"<?xml version="1.0"?><root />"#).expect_err("Unknown XML should be rejected");

    assert!(err.message().contains("failed to parse feed as RSS or Atom"));
}

#[test]
fn atom_feed_with_unwritable_year_is_refused() {
    let content = br#"<?xml version="1.0" encoding="utf-8"?>
<feed xmlns="http://www.w3.org/2005/Atom">
  <title>Far future</title>
  <id>https://example.com/feed.xml</id>
  <updated>1 Jan 10000 00:00:00 +0000</updated>
</feed>"#;
    let err = parse_feed_content(content).expect_err("a year RFC 2822 cannot hold is refused");
    assert!(err.message().contains("failed to parse feed as RSS or Atom"));
    assert!(!err.atom_error.is_empty());
}

#[test]
fn entry_dates_follow_publication_first() {
    let mut e = entry();
    e.updated = AtomDate::Unwritable;
    e.published = Some(AtomDate::Rfc2822("Mon, 01 Jan 2024 00:00:00 +0000".into()));
    assert_eq!(atom_entry_to_rss_item(&e).unwrap().pub_date.as_deref(), Some("Mon, 01 Jan 2024 00:00:00 +0000"));
    e.published = None;
    assert!(atom_entry_to_rss_item(&e).is_none());
    e.published = Some(AtomDate::Unwritable);
    e.updated = AtomDate::Rfc2822("Wed, 24 Jun 2026 20:00:25 +0000".into());
    assert!(atom_entry_to_rss_item(&e).is_none());
}

#[test]
fn rss_channel_is_read_into_the_model() {
    let channel = match parse_feed_content(
        br#"<?xml version="1.0"?>
<rss version="2.0">
  <channel>
    <title>T</title>
    <link>https://example.com/</link>
    <description>D</description>
    <managingEditor>ed@example.com</managingEditor>
    <ttl>60</ttl>
    <category domain="d">news</category>
    <item>
      <title>I</title>
      <comments>https://example.com/c</comments>
      <enclosure url="https://example.com/a.mp3" length="10" type="audio/mpeg"/>
      <guid isPermaLink="false">g1</guid>
    </item>
  </channel>
</rss>"#,
    )
    .unwrap()
    {
        FeedChannel::Rss(c) => c,
        FeedChannel::Atom(_) => panic!("RSS should be read as RSS"),
    };
    assert_eq!(channel.managing_editor.as_deref(), Some("ed@example.com"));
    assert_eq!(channel.ttl.as_deref(), Some("60"));
    assert_eq!(channel.categories[0].name, "news");
    assert_eq!(channel.categories[0].domain.as_deref(), Some("d"));
    let item = &channel.items[0];
    assert_eq!(item.comments.as_deref(), Some("https://example.com/c"));
    assert_eq!(item.enclosure.as_ref().map(|e| e.length.as_str()), Some("10"));
    assert_eq!(item.guid.as_ref().map(|g| (g.value.as_str(), g.permalink)), Some(("g1", false)));
}
