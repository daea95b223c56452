//! Atom feeds read as RSS channels.
//!
//! Feeds are parsed by the `rss` and `atom_syndication` crates; an Atom feed is
//! then carried over into the RSS shape by the conversions here, which work on
//! plain models of the two formats. Dates are held as RFC 2822 text.
use crate::text::opt_view;
use chrono::format::{Fixed, Item};
use vstd::prelude::*;

verus! {

/// The smallest index below `n` where `p` holds, if any.
pub open spec fn first_where(n: int, p: spec_fn(int) -> bool) -> Option<int> {
    if exists|i: int| 0 <= i < n && #[trigger] p(i) && (forall|j: int| 0 <= j < i ==> !#[trigger] p(j)) {
        Some(choose|i: int| 0 <= i < n && #[trigger] p(i) && (forall|j: int| 0 <= j < i ==> !#[trigger] p(j)))
    } else {
        None
    }
}

/// `first_where` finds the index that a left-to-right search stops at.
pub proof fn lemma_first_where_is(n: int, p: spec_fn(int) -> bool, i: int)
    requires
        0 <= i < n,
        p(i),
        forall|j: int| 0 <= j < i ==> !#[trigger] p(j),
    ensures
        first_where(n, p) == Some(i),
{
    let c = choose|c: int| 0 <= c < n && #[trigger] p(c) && (forall|j: int| 0 <= j < c ==> !#[trigger] p(j));
    assert(0 <= i < n && p(i) && (forall|j: int| 0 <= j < i ==> !#[trigger] p(j)));
    if c < i {
        assert(!p(c));
    }
    if i < c {
        assert(!p(i));
    }
}

/// A link of an Atom feed or entry.
#[derive(Debug)]
pub struct AtomLink {
    pub href: String,
    pub rel: String,
    pub mime_type: Option<String>,
    pub length: Option<String>,
}

/// A category of an Atom feed or entry.
#[derive(Debug)]
pub struct AtomCategory {
    pub term: String,
    pub scheme: Option<String>,
    pub label: Option<String>,
}

/// The content of an Atom entry: inline text, or the location of the content.
#[derive(Debug)]
pub struct AtomContent {
    pub value: Option<String>,
    pub src: Option<String>,
}

/// A human-readable Atom text construct.
#[derive(Debug)]
pub struct AtomText {
    pub value: String,
}

/// A date of an Atom feed or entry as RFC 2822 text, or `Unwritable` when its year
/// lies outside what RFC 2822 holds (0 to 9999).
#[derive(Debug)]
pub enum AtomDate {
    Rfc2822(String),
    Unwritable,
}

/// The text of a date; nothing when it cannot be written.
pub open spec fn date_view(d: AtomDate) -> Option<Seq<char>> {
    match d {
        AtomDate::Rfc2822(t) => Some(t@),
        AtomDate::Unwritable => None,
    }
}

/// An Atom entry.
#[derive(Debug)]
pub struct AtomEntry {
    pub title: AtomText,
    pub id: String,
    pub updated: AtomDate,
    pub published: Option<AtomDate>,
    pub authors: Vec<String>,
    pub categories: Vec<AtomCategory>,
    pub links: Vec<AtomLink>,
    pub summary: Option<AtomText>,
    pub content: Option<AtomContent>,
}

/// An Atom feed; `generator` is the generator's name.
#[derive(Debug)]
pub struct AtomFeed {
    pub title: AtomText,
    pub id: String,
    pub updated: AtomDate,
    pub links: Vec<AtomLink>,
    pub subtitle: Option<AtomText>,
    pub rights: Option<AtomText>,
    pub lang: Option<String>,
    pub categories: Vec<AtomCategory>,
    pub generator: Option<String>,
    pub entries: Vec<AtomEntry>,
}

/// The content of an Atom link.
pub struct AtomLinkView {
    pub href: Seq<char>,
    pub rel: Seq<char>,
    pub mime_type: Option<Seq<char>>,
    pub length: Option<Seq<char>>,
}

impl View for AtomLink {
    type V = AtomLinkView;

    open spec fn view(&self) -> AtomLinkView {
        AtomLinkView {
            href: self.href@,
            rel: self.rel@,
            mime_type: opt_view(self.mime_type),
            length: opt_view(self.length),
        }
    }
}

/// The content of an Atom category.
pub struct AtomCategoryView {
    pub term: Seq<char>,
    pub scheme: Option<Seq<char>>,
    pub label: Option<Seq<char>>,
}

impl View for AtomCategory {
    type V = AtomCategoryView;

    open spec fn view(&self) -> AtomCategoryView {
        AtomCategoryView { term: self.term@, scheme: opt_view(self.scheme), label: opt_view(self.label) }
    }
}

/// The content of an Atom entry's content element.
pub struct AtomContentView {
    pub value: Option<Seq<char>>,
    pub src: Option<Seq<char>>,
}

/// The view of optional Atom content.
pub open spec fn content_view(c: Option<AtomContent>) -> Option<AtomContentView> {
    match c {
        Some(c) => Some(AtomContentView { value: opt_view(c.value), src: opt_view(c.src) }),
        None => None,
    }
}

/// The text of an optional Atom text construct.
pub open spec fn text_view(t: Option<AtomText>) -> Option<Seq<char>> {
    match t {
        Some(t) => Some(t.value@),
        None => None,
    }
}

/// The contents of Atom links.
pub open spec fn link_views(s: Seq<AtomLink>) -> Seq<AtomLinkView> {
    s.map_values(|l: AtomLink| l@)
}

/// The contents of Atom categories.
pub open spec fn category_views(s: Seq<AtomCategory>) -> Seq<AtomCategoryView> {
    s.map_values(|c: AtomCategory| c@)
}

/// The content of an Atom entry.
pub struct AtomEntryView {
    pub title: Seq<char>,
    pub id: Seq<char>,
    pub updated: Option<Seq<char>>,
    pub published: Option<Option<Seq<char>>>,
    pub authors: Seq<Seq<char>>,
    pub categories: Seq<AtomCategoryView>,
    pub links: Seq<AtomLinkView>,
    pub summary: Option<Seq<char>>,
    pub content: Option<AtomContentView>,
}

impl View for AtomEntry {
    type V = AtomEntryView;

    open spec fn view(&self) -> AtomEntryView {
        AtomEntryView {
            title: self.title.value@,
            id: self.id@,
            updated: date_view(self.updated),
            published: match self.published {
                Some(d) => Some(date_view(d)),
                None => None,
            },
            authors: self.authors@.map_values(|a: String| a@),
            categories: category_views(self.categories@),
            links: link_views(self.links@),
            summary: text_view(self.summary),
            content: content_view(self.content),
        }
    }
}

/// The content of an Atom feed.
pub struct AtomFeedView {
    pub title: Seq<char>,
    pub id: Seq<char>,
    pub updated: Option<Seq<char>>,
    pub links: Seq<AtomLinkView>,
    pub subtitle: Option<Seq<char>>,
    pub rights: Option<Seq<char>>,
    pub lang: Option<Seq<char>>,
    pub categories: Seq<AtomCategoryView>,
    pub generator: Option<Seq<char>>,
    pub entries: Seq<AtomEntryView>,
}

impl View for AtomFeed {
    type V = AtomFeedView;

    open spec fn view(&self) -> AtomFeedView {
        AtomFeedView {
            title: self.title.value@,
            id: self.id@,
            updated: date_view(self.updated),
            links: link_views(self.links@),
            subtitle: text_view(self.subtitle),
            rights: text_view(self.rights),
            lang: opt_view(self.lang),
            categories: category_views(self.categories@),
            generator: opt_view(self.generator),
            entries: self.entries@.map_values(|e: AtomEntry| e@),
        }
    }
}

/// A category of an RSS channel or item.
#[derive(Debug)]
pub struct RssCategory {
    pub name: String,
    pub domain: Option<String>,
}

/// A media object attached to an RSS item.
#[derive(Debug)]
pub struct RssEnclosure {
    pub url: String,
    pub length: String,
    pub mime_type: String,
}

/// The unique identifier of an RSS item.
#[derive(Debug)]
pub struct RssGuid {
    pub value: String,
    pub permalink: bool,
}

/// An RSS item.
#[derive(Debug)]
pub struct RssItem {
    pub title: Option<String>,
    pub link: Option<String>,
    pub description: Option<String>,
    pub author: Option<String>,
    pub categories: Vec<RssCategory>,
    pub enclosure: Option<RssEnclosure>,
    pub guid: Option<RssGuid>,
    pub pub_date: Option<String>,
    pub content: Option<String>,
    pub comments: Option<String>,
}

/// An RSS channel.
#[derive(Debug)]
pub struct RssChannel {
    pub title: String,
    pub link: String,
    pub description: String,
    pub language: Option<String>,
    pub copyright: Option<String>,
    pub managing_editor: Option<String>,
    pub webmaster: Option<String>,
    pub pub_date: Option<String>,
    pub last_build_date: Option<String>,
    pub categories: Vec<RssCategory>,
    pub generator: Option<String>,
    pub ttl: Option<String>,
    pub items: Vec<RssItem>,
}

/// The content of an RSS category: its name and domain.
pub open spec fn category_view(c: RssCategory) -> (Seq<char>, Option<Seq<char>>) {
    (c.name@, opt_view(c.domain))
}

/// The content of an RSS enclosure: its URL, length and MIME type.
pub open spec fn enclosure_view(e: Option<RssEnclosure>) -> Option<(Seq<char>, Seq<char>, Seq<char>)> {
    match e {
        Some(e) => Some((e.url@, e.length@, e.mime_type@)),
        None => None,
    }
}

/// The content of an RSS guid: its value and whether it is a permalink.
pub open spec fn guid_view(g: Option<RssGuid>) -> Option<(Seq<char>, bool)> {
    match g {
        Some(g) => Some((g.value@, g.permalink)),
        None => None,
    }
}

/// The content of an RSS item.
pub struct RssItemView {
    pub title: Option<Seq<char>>,
    pub link: Option<Seq<char>>,
    pub description: Option<Seq<char>>,
    pub author: Option<Seq<char>>,
    pub categories: Seq<(Seq<char>, Option<Seq<char>>)>,
    pub enclosure: Option<(Seq<char>, Seq<char>, Seq<char>)>,
    pub guid: Option<(Seq<char>, bool)>,
    pub pub_date: Option<Seq<char>>,
    pub content: Option<Seq<char>>,
    pub comments: Option<Seq<char>>,
}

impl View for RssItem {
    type V = RssItemView;

    open spec fn view(&self) -> RssItemView {
        RssItemView {
            title: opt_view(self.title),
            link: opt_view(self.link),
            description: opt_view(self.description),
            author: opt_view(self.author),
            categories: self.categories@.map_values(|c: RssCategory| category_view(c)),
            enclosure: enclosure_view(self.enclosure),
            guid: guid_view(self.guid),
            pub_date: opt_view(self.pub_date),
            content: opt_view(self.content),
            comments: opt_view(self.comments),
        }
    }
}

/// The content of an RSS channel.
pub struct RssChannelView {
    pub title: Seq<char>,
    pub link: Seq<char>,
    pub description: Seq<char>,
    pub language: Option<Seq<char>>,
    pub copyright: Option<Seq<char>>,
    pub managing_editor: Option<Seq<char>>,
    pub webmaster: Option<Seq<char>>,
    pub pub_date: Option<Seq<char>>,
    pub last_build_date: Option<Seq<char>>,
    pub categories: Seq<(Seq<char>, Option<Seq<char>>)>,
    pub generator: Option<Seq<char>>,
    pub ttl: Option<Seq<char>>,
    pub items: Seq<RssItemView>,
}

impl View for RssChannel {
    type V = RssChannelView;

    open spec fn view(&self) -> RssChannelView {
        RssChannelView {
            title: self.title@,
            link: self.link@,
            description: self.description@,
            language: opt_view(self.language),
            copyright: opt_view(self.copyright),
            managing_editor: opt_view(self.managing_editor),
            webmaster: opt_view(self.webmaster),
            pub_date: opt_view(self.pub_date),
            last_build_date: opt_view(self.last_build_date),
            categories: self.categories@.map_values(|c: RssCategory| category_view(c)),
            generator: opt_view(self.generator),
            ttl: opt_view(self.ttl),
            items: self.items@.map_values(|i: RssItem| i@),
        }
    }
}

/// The link is marked `alternate` and has an address.
pub open spec fn is_alternate_link(l: AtomLinkView) -> bool {
    l.rel == "alternate"@ && l.href.len() > 0
}

/// The address of a feed or entry: that of the first `alternate` link with an
/// address, else that of the first link with an address.
pub open spec fn link_href(links: Seq<AtomLinkView>) -> Option<Seq<char>> {
    match first_where(links.len() as int, |i: int| is_alternate_link(links[i])) {
        Some(i) => Some(links[i].href),
        None => match first_where(links.len() as int, |i: int| links[i].href.len() > 0) {
            Some(i) => Some(links[i].href),
            None => None,
        },
    }
}

/// The RSS category of an Atom category: named by its label when the label is
/// present and not empty, else by its term; its scheme becomes the domain.
pub open spec fn category_of(c: AtomCategoryView) -> (Seq<char>, Option<Seq<char>>) {
    (
        match c.label {
            Some(l) => if l.len() > 0 {
                l
            } else {
                c.term
            },
            None => c.term,
        },
        c.scheme,
    )
}

/// The enclosure of an entry: its first link marked `enclosure`, with an empty
/// length and MIME type where the link gives none.
pub open spec fn enclosure_of(e: AtomEntryView) -> Option<(Seq<char>, Seq<char>, Seq<char>)> {
    match first_where(e.links.len() as int, |i: int| e.links[i].rel == "enclosure"@) {
        Some(i) => Some(
            (
                e.links[i].href,
                match e.links[i].length {
                    Some(l) => l,
                    None => Seq::empty(),
                },
                match e.links[i].mime_type {
                    Some(m) => m,
                    None => Seq::empty(),
                },
            ),
        ),
        None => None,
    }
}

/// The description of an entry: its summary, else its inline content.
pub open spec fn description_of(e: AtomEntryView) -> Option<Seq<char>> {
    match e.summary {
        Some(s) => Some(s),
        None => match e.content {
            Some(c) => c.value,
            None => None,
        },
    }
}

/// The date of an entry's item: its publication date when it has one, else its
/// update date; nothing when that date cannot be written as RFC 2822.
pub open spec fn item_date(e: AtomEntryView) -> Option<Seq<char>> {
    match e.published {
        Some(p) => p,
        None => e.updated,
    }
}

/// The RSS item of an Atom entry whose date is written as `date`.
pub open spec fn item_with_date(e: AtomEntryView, date: Seq<char>) -> RssItemView {
    let link = link_href(e.links);
    RssItemView {
        title: Some(e.title),
        link,
        description: description_of(e),
        author: if e.authors.len() > 0 {
            Some(e.authors[0])
        } else {
            None
        },
        categories: e.categories.map_values(|c: AtomCategoryView| category_of(c)),
        enclosure: enclosure_of(e),
        guid: Some(
            (
                if e.id.len() == 0 {
                    match link {
                        Some(l) => l,
                        None => Seq::empty(),
                    }
                } else {
                    e.id
                },
                false,
            ),
        ),
        pub_date: Some(date),
        content: match e.content {
            Some(c) => match c.value {
                Some(v) => Some(v),
                None => c.src,
            },
            None => None,
        },
        comments: None,
    }
}

/// The RSS item of an Atom entry: nothing when its date cannot be written.
pub open spec fn item_of(e: AtomEntryView) -> Option<RssItemView> {
    match item_date(e) {
        Some(d) => Some(item_with_date(e, d)),
        None => None,
    }
}

/// Every entry of the feed gives an item.
pub open spec fn items_writable(entries: Seq<AtomEntryView>) -> bool {
    forall|i: int| 0 <= i < entries.len() ==> (#[trigger] item_of(entries[i])) is Some
}

/// The RSS channel of an Atom feed whose update date is written as `updated`.
pub open spec fn channel_with_date(f: AtomFeedView, updated: Seq<char>) -> RssChannelView {
    RssChannelView {
        title: f.title,
        link: match link_href(f.links) {
            Some(l) => l,
            None => f.id,
        },
        description: match f.subtitle {
            Some(s) => s,
            None => match f.rights {
                Some(r) => r,
                None => Seq::empty(),
            },
        },
        language: f.lang,
        copyright: f.rights,
        managing_editor: None,
        webmaster: None,
        pub_date: None,
        last_build_date: Some(updated),
        categories: f.categories.map_values(|c: AtomCategoryView| category_of(c)),
        generator: f.generator,
        ttl: None,
        items: f.entries.map_values(|e: AtomEntryView| item_of(e)->Some_0),
    }
}

/// The RSS channel of an Atom feed: nothing when one of the dates it writes (the
/// feed's update date, or an item's date) cannot be written as RFC 2822.
pub open spec fn channel_of(f: AtomFeedView) -> Option<RssChannelView> {
    match f.updated {
        Some(u) => if items_writable(f.entries) {
            Some(channel_with_date(f, u))
        } else {
            None
        },
        None => None,
    }
}

fn copy_opt(o: &Option<String>) -> (r: Option<String>)
    ensures
        opt_view(r) == opt_view(*o),
{
    match o {
        Some(s) => Some(s.clone()),
        None => None,
    }
}

/// The text of an Atom text construct.
pub fn atom_text_value(text: &AtomText) -> (r: String)
    ensures
        r@ == text.value@,
{
    text.value.clone()
}

/// The address of a feed or entry: that of its first `alternate` link with an
/// address, else that of its first link with an address.
pub fn atom_link_href(links: &Vec<AtomLink>) -> (r: Option<String>)
    ensures
        opt_view(r) == link_href(link_views(links@)),
{
    let ghost lv = link_views(links@);
    let ghost alt = |i: int| is_alternate_link(lv[i]);
    let ghost any = |i: int| lv[i].href.len() > 0;
    let mut i: usize = 0;
    while i < links.len()
        invariant
            i <= links.len(),
            lv == link_views(links@),
            alt == (|i: int| is_alternate_link(lv[i])),
            forall|j: int| 0 <= j < i ==> !#[trigger] alt(j),
        decreases links.len() - i,
    {
        assert(lv[i as int] == links@[i as int]@);
        if crate::text::str_eq(links[i].rel.as_str(), "alternate") && links[i].href.unicode_len() > 0 {
            proof {
                lemma_first_where_is(lv.len() as int, alt, i as int);
            }
            return Some(links[i].href.clone());
        }
        i += 1;
    }
    assert(first_where(lv.len() as int, alt) is None);
    let mut k: usize = 0;
    while k < links.len()
        invariant
            k <= links.len(),
            lv == link_views(links@),
            any == (|i: int| lv[i].href.len() > 0),
            alt == (|i: int| is_alternate_link(lv[i])),
            first_where(lv.len() as int, alt) is None,
            forall|j: int| 0 <= j < k ==> !#[trigger] any(j),
        decreases links.len() - k,
    {
        assert(lv[k as int] == links@[k as int]@);
        if links[k].href.unicode_len() > 0 {
            proof {
                lemma_first_where_is(lv.len() as int, any, k as int);
            }
            return Some(links[k].href.clone());
        }
        k += 1;
    }
    assert(first_where(lv.len() as int, any) is None);
    None
}

/// The RSS category of an Atom category.
pub fn atom_category_to_rss_category(category: &AtomCategory) -> (r: RssCategory)
    ensures
        category_view(r) == category_of(category@),
{
    let name = match &category.label {
        Some(l) => if l.unicode_len() > 0 {
            l.clone()
        } else {
            category.term.clone()
        },
        None => category.term.clone(),
    };
    RssCategory { name, domain: copy_opt(&category.scheme) }
}

/// The RSS categories of Atom categories, in order.
fn convert_categories(categories: &Vec<AtomCategory>) -> (r: Vec<RssCategory>)
    ensures
        r@.map_values(|c: RssCategory| category_view(c)) == category_views(categories@).map_values(
            |c: AtomCategoryView| category_of(c),
        ),
{
    let ghost target = category_views(categories@).map_values(|c: AtomCategoryView| category_of(c));
    let mut out: Vec<RssCategory> = Vec::new();
    let mut i: usize = 0;
    while i < categories.len()
        invariant
            i <= categories.len(),
            target == category_views(categories@).map_values(|c: AtomCategoryView| category_of(c)),
            out@.map_values(|c: RssCategory| category_view(c)) == target.take(i as int),
        decreases categories.len() - i,
    {
        let c = atom_category_to_rss_category(&categories[i]);
        let ghost before = out@;
        out.push(c);
        proof {
            assert(out@.map_values(|c: RssCategory| category_view(c)) =~= before.map_values(
                |c: RssCategory| category_view(c),
            ).push(category_view(c)));
            assert(target[i as int] == category_of(categories@[i as int]@));
            assert(target.take(i + 1) =~= target.take(i as int).push(target[i as int]));
        }
        i += 1;
    }
    assert(target.take(categories@.len() as int) =~= target);
    out
}

/// The enclosure of an entry: its first link marked `enclosure`.
pub fn atom_entry_enclosure(entry: &AtomEntry) -> (r: Option<RssEnclosure>)
    ensures
        enclosure_view(r) == enclosure_of(entry@),
{
    let ghost lv = link_views(entry.links@);
    let ghost p = |i: int| lv[i].rel == "enclosure"@;
    let mut i: usize = 0;
    while i < entry.links.len()
        invariant
            i <= entry.links.len(),
            lv == link_views(entry.links@),
            p == (|i: int| lv[i].rel == "enclosure"@),
            forall|j: int| 0 <= j < i ==> !#[trigger] p(j),
        decreases entry.links.len() - i,
    {
        assert(lv[i as int] == entry.links@[i as int]@);
        if crate::text::str_eq(entry.links[i].rel.as_str(), "enclosure") {
            proof {
                lemma_first_where_is(lv.len() as int, p, i as int);
            }
            let link = &entry.links[i];
            let length = match &link.length {
                Some(l) => l.clone(),
                None => String::new(),
            };
            let mime_type = match &link.mime_type {
                Some(m) => m.clone(),
                None => String::new(),
            };
            return Some(RssEnclosure { url: link.href.clone(), length, mime_type });
        }
        i += 1;
    }
    assert(first_where(lv.len() as int, p) is None);
    None
}

/// The description of an entry: its summary, else its inline content.
pub fn atom_entry_description(entry: &AtomEntry) -> (r: Option<String>)
    ensures
        opt_view(r) == description_of(entry@),
{
    match &entry.summary {
        Some(s) => Some(atom_text_value(s)),
        None => match &entry.content {
            Some(c) => copy_opt(&c.value),
            None => None,
        },
    }
}

/// The text of a date, when it can be written.
fn date_text(d: &AtomDate) -> (r: Option<String>)
    ensures
        opt_view(r) == date_view(*d),
{
    match d {
        AtomDate::Rfc2822(t) => Some(t.clone()),
        AtomDate::Unwritable => None,
    }
}

/// The RSS item of an Atom entry: none when the entry's date (its publication date,
/// else its update date) cannot be written as RFC 2822.
pub fn atom_entry_to_rss_item(entry: &AtomEntry) -> (r: Option<RssItem>)
    ensures
        match item_of(entry@) {
            Some(v) => r matches Some(x) && x@ == v,
            None => r is None,
        },
{
    let date = match &entry.published {
        Some(p) => date_text(p),
        None => date_text(&entry.updated),
    };
    let pub_date = match date {
        Some(d) => d,
        None => return None,
    };
    let link = atom_link_href(&entry.links);
    let title = atom_text_value(&entry.title);
    let description = atom_entry_description(entry);
    let author = if entry.authors.len() > 0 {
        Some(entry.authors[0].clone())
    } else {
        None
    };
    let categories = convert_categories(&entry.categories);
    let enclosure = atom_entry_enclosure(entry);
    let guid_value = if entry.id.unicode_len() == 0 {
        match &link {
            Some(l) => l.clone(),
            None => String::new(),
        }
    } else {
        entry.id.clone()
    };
    let content = match &entry.content {
        Some(c) => match &c.value {
            Some(v) => Some(v.clone()),
            None => copy_opt(&c.src),
        },
        None => None,
    };
    let r = RssItem {
        title: Some(title),
        link,
        description,
        author,
        categories,
        enclosure,
        guid: Some(RssGuid { value: guid_value, permalink: false }),
        pub_date: Some(pub_date),
        content,
        comments: None,
    };
    assert(r@ == item_of(entry@)->Some_0);
    Some(r)
}

/// The RSS channel of an Atom feed: none when one of the dates it writes cannot be
/// written as RFC 2822.
pub fn atom_feed_to_rss_channel(feed: &AtomFeed) -> (r: Option<RssChannel>)
    ensures
        match channel_of(feed@) {
            Some(v) => r matches Some(c) && c@ == v,
            None => r is None,
        },
{
    let updated = match date_text(&feed.updated) {
        Some(u) => u,
        None => return None,
    };
    let title = atom_text_value(&feed.title);
    let link = match atom_link_href(&feed.links) {
        Some(l) => l,
        None => feed.id.clone(),
    };
    let description = match &feed.subtitle {
        Some(s) => atom_text_value(s),
        None => match &feed.rights {
            Some(r) => atom_text_value(r),
            None => String::new(),
        },
    };
    let copyright = match &feed.rights {
        Some(r) => Some(atom_text_value(r)),
        None => None,
    };
    let ghost es = feed@.entries;
    let mut items: Vec<RssItem> = Vec::new();
    let mut i: usize = 0;
    while i < feed.entries.len()
        invariant
            i <= feed.entries.len(),
            es == feed@.entries,
            es.len() == feed.entries@.len(),
            forall|j: int| 0 <= j < i ==> (#[trigger] item_of(es[j])) is Some,
            items@.len() == i,
            forall|j: int| 0 <= j < i ==> (#[trigger] items@[j])@ == item_of(es[j])->Some_0,
        decreases feed.entries.len() - i,
    {
        assert(es[i as int] == feed.entries@[i as int]@);
        let it = match atom_entry_to_rss_item(&feed.entries[i]) {
            Some(it) => it,
            None => {
                assert(!items_writable(es));
                return None;
            },
        };
        items.push(it);
        i += 1;
    }
    assert(items_writable(es));
    assert(items@.map_values(|x: RssItem| x@) =~= es.map_values(|e: AtomEntryView| item_of(e)->Some_0));
    let r = RssChannel {
        title,
        link,
        description,
        language: copy_opt(&feed.lang),
        copyright,
        managing_editor: None,
        webmaster: None,
        pub_date: None,
        last_build_date: Some(updated),
        categories: convert_categories(&feed.categories),
        generator: copy_opt(&feed.generator),
        ttl: None,
        items,
    };
    assert(r@ == channel_with_date(feed@, updated@));
    Some(r)
}


/// The result of `first_where` satisfies the predicate, and `None` means no index does.
pub proof fn lemma_first_where_props(n: int, p: spec_fn(int) -> bool)
    ensures
        match first_where(n, p) {
            Some(i) => 0 <= i < n && p(i),
            None => forall|i: int| 0 <= i < n ==> !#[trigger] p(i),
        },
{
    if first_where(n, p) is None {
        assert forall|i: int| 0 <= i < n implies !#[trigger] p(i) by {
            if p(i) {
                lemma_first_where_exists(n, p, i);
            }
        }
    }
}

/// When some index satisfies the predicate, there is a first one.
proof fn lemma_first_where_exists(n: int, p: spec_fn(int) -> bool, i: int)
    requires
        0 <= i < n,
        p(i),
    ensures
        first_where(n, p) is Some,
    decreases i,
{
    if forall|j: int| 0 <= j < i ==> !#[trigger] p(j) {
        lemma_first_where_is(n, p, i);
    } else {
        let j = choose|j: int| 0 <= j < i && #[trigger] p(j);
        lemma_first_where_exists(n, p, j);
    }
}

/// The address of a feed or entry is the non-empty address of one of its links, and
/// there is none only when no link has an address.
pub proof fn law_link_is_a_link_address(links: Seq<AtomLinkView>)
    ensures
        match link_href(links) {
            Some(h) => h.len() > 0 && exists|i: int| 0 <= i < links.len() && #[trigger] links[i].href == h,
            None => forall|i: int| 0 <= i < links.len() ==> (#[trigger] links[i]).href.len() == 0,
        },
{
    let alt = |i: int| is_alternate_link(links[i]);
    let any = |i: int| links[i].href.len() > 0;
    lemma_first_where_props(links.len() as int, alt);
    lemma_first_where_props(links.len() as int, any);
    match first_where(links.len() as int, alt) {
        Some(i) => {
            assert(links[i].href == link_href(links)->Some_0);
        },
        None => match first_where(links.len() as int, any) {
            Some(i) => {
                assert(links[i].href == link_href(links)->Some_0);
            },
            None => {
                assert forall|i: int| 0 <= i < links.len() implies (#[trigger] links[i]).href.len() == 0 by {
                    assert(!any(i));
                }
            },
        },
    }
}

/// An entry without an id is identified by its address.
pub proof fn law_guid_falls_back_to_link(e: AtomEntryView, date: Seq<char>)
    requires
        e.id.len() == 0,
        link_href(e.links) is Some,
    ensures
        item_with_date(e, date).guid == Some((link_href(e.links)->Some_0, false)),
        item_with_date(e, date).link == link_href(e.links),
{
}

/// An item is dated by its entry's publication date when the entry has one; only
/// without one is the update date written, so an unwritable update date does not
/// keep an entry with a writable publication date from becoming an item.
pub proof fn law_item_dated_by_publication(e: AtomEntryView)
    ensures
        e.published matches Some(Some(p)) ==> item_of(e) == Some(item_with_date(e, p)),
        e.published is None ==> (item_of(e) is Some <==> e.updated is Some),
{
}

/// An entry with a summary is described by its summary, whatever its content; only
/// an entry without one is described by its inline content, and by nothing when it
/// has none.
pub proof fn law_summary_describes(e: AtomEntryView)
    ensures
        forall|s: Seq<char>, it: RssItemView|
            e.summary == Some(s) && item_of(e) == Some(it) ==> it.description == Some(s),
        forall|it: RssItemView|
            e.summary is None && item_of(e) == Some(it) ==> it.description == match e.content {
                Some(c) => c.value,
                None => None,
            },
{
}

/// A channel has one item per entry of its feed, each carried over in order.
pub proof fn law_one_item_per_entry(f: AtomFeedView)
    ensures
        channel_of(f) matches Some(c) ==> c.items.len() == f.entries.len() && forall|i: int|
            0 <= i < f.entries.len() ==> item_of(#[trigger] f.entries[i]) == Some(c.items[i]),
{
}

#[verifier::external_type_specification]
#[verifier::external_body]
pub struct ExRssChannel(rss::Channel);

#[verifier::external_type_specification]
#[verifier::external_body]
pub struct ExRssItem(rss::Item);

#[verifier::external_type_specification]
#[verifier::external_body]
pub struct ExRssCategory(rss::Category);

#[verifier::external_type_specification]
#[verifier::external_body]
pub struct ExRssEnclosure(rss::Enclosure);

#[verifier::external_type_specification]
#[verifier::external_body]
pub struct ExRssGuid(rss::Guid);

#[verifier::external_type_specification]
#[verifier::external_body]
pub struct ExAtomEntry(atom_syndication::Entry);

#[verifier::external_type_specification]
#[verifier::external_body]
pub struct ExAtomLink(atom_syndication::Link);

#[verifier::external_type_specification]
#[verifier::external_body]
pub struct ExAtomCategory(atom_syndication::Category);

#[verifier::external_type_specification]
#[verifier::external_body]
pub struct ExAtomText(atom_syndication::Text);

#[verifier::external_type_specification]
#[verifier::external_body]
pub struct ExAtomFeed(atom_syndication::Feed);

#[verifier::external_type_specification]
#[verifier::external_body]
pub struct ExAtomContent(atom_syndication::Content);

/// The RSS channel that `rss::Channel::read_from` reads from the bytes, as the model
/// holds it, or nothing when it fails.
pub uninterp spec fn rss_channel_read(content: Seq<u8>) -> Option<RssChannelView>;

/// The Atom feed that `atom_syndication::Feed::read_from` reads from the bytes, as
/// the model holds it (each date as RFC 2822 text, or unwritable when its year lies
/// outside 0 to 9999), or nothing when it fails.
pub uninterp spec fn atom_feed_read(content: Seq<u8>) -> Option<AtomFeedView>;

/// Carries an RSS category into the model, field for field. Part of the conversion
/// made by `read_rss`.
#[verifier::external_body]
fn rss_category_model(c: &rss::Category) -> RssCategory {
    RssCategory { name: c.name().to_owned(), domain: c.domain().map(str::to_owned) }
}

/// Carries an RSS enclosure into the model, field for field. Part of the conversion
/// made by `read_rss`.
#[verifier::external_body]
fn rss_enclosure_model(e: &rss::Enclosure) -> RssEnclosure {
    RssEnclosure { url: e.url().to_owned(), length: e.length().to_owned(), mime_type: e.mime_type().to_owned() }
}

/// Carries an RSS guid into the model, field for field. Part of the conversion made
/// by `read_rss`.
#[verifier::external_body]
fn rss_guid_model(g: &rss::Guid) -> RssGuid {
    RssGuid { value: g.value().to_owned(), permalink: g.is_permalink() }
}

/// Carries an RSS item into the model, field for field. Part of the conversion made
/// by `read_rss`.
#[verifier::external_body]
fn rss_item_model(i: &rss::Item) -> RssItem {
    RssItem {
        title: i.title.clone(),
        link: i.link.clone(),
        description: i.description.clone(),
        author: i.author.clone(),
        categories: i.categories.iter().map(rss_category_model).collect(),
        enclosure: i.enclosure.as_ref().map(rss_enclosure_model),
        guid: i.guid.as_ref().map(rss_guid_model),
        pub_date: i.pub_date.clone(),
        content: i.content.clone(),
        comments: i.comments.clone(),
    }
}

/// Carries an RSS channel into the model, field for field. Part of the conversion
/// made by `read_rss`.
#[verifier::external_body]
fn rss_channel_model(c: &rss::Channel) -> RssChannel {
    RssChannel {
        title: c.title.clone(),
        link: c.link.clone(),
        description: c.description.clone(),
        language: c.language.clone(),
        copyright: c.copyright.clone(),
        managing_editor: c.managing_editor.clone(),
        webmaster: c.webmaster.clone(),
        pub_date: c.pub_date.clone(),
        last_build_date: c.last_build_date.clone(),
        categories: c.categories.iter().map(rss_category_model).collect(),
        generator: c.generator.clone(),
        ttl: c.ttl.clone(),
        items: c.items.iter().map(rss_item_model).collect(),
    }
}

/// Reads an RSS channel with `rss::Channel::read_from` and carries it into the
/// model; the error is the rss crate's message.
#[verifier::external_body]
fn read_rss(content: &[u8]) -> (r: Result<RssChannel, String>)
    ensures
        match r {
            Ok(c) => rss_channel_read(content@) == Some(c@),
            Err(_) => rss_channel_read(content@) is None,
        },
{
    rss::Channel::read_from(content).map(|c| rss_channel_model(&c)).map_err(|e| e.to_string())
}

/// Carries an Atom text construct into the model. Part of the conversion made by
/// `read_atom`.
#[verifier::external_body]
fn atom_text_model(t: &atom_syndication::Text) -> AtomText {
    AtomText { value: t.as_str().to_owned() }
}

/// Carries an Atom link into the model, field for field. Part of the conversion
/// made by `read_atom`.
#[verifier::external_body]
fn atom_link_model(l: &atom_syndication::Link) -> AtomLink {
    AtomLink {
        href: l.href().to_owned(),
        rel: l.rel().to_owned(),
        mime_type: l.mime_type().map(str::to_owned),
        length: l.length().map(str::to_owned),
    }
}

/// Carries an Atom category into the model, field for field. Part of the
/// conversion made by `read_atom`.
#[verifier::external_body]
fn atom_category_model(c: &atom_syndication::Category) -> AtomCategory {
    AtomCategory { term: c.term().to_owned(), scheme: c.scheme().map(str::to_owned), label: c.label().map(str::to_owned) }
}

/// Carries an Atom entry's content into the model: its inline value and its
/// source. Part of the conversion made by `read_atom`.
#[verifier::external_body]
fn atom_content_model(c: &atom_syndication::Content) -> AtomContent {
    AtomContent { value: c.value().map(str::to_owned), src: c.src().map(str::to_owned) }
}

/// Writes the entry's `updated` and `published` dates as RFC 2822 text with
/// chrono's RFC 2822 writer, the one behind `DateTime::to_rfc2822`. Where
/// `to_rfc2822` panics (a year outside 0 to 9999), the writer fails instead and the
/// date is kept as unwritable. Part of the conversion made by `read_atom`.
#[verifier::external_body]
fn entry_dates_model(e: &atom_syndication::Entry) -> (AtomDate, Option<AtomDate>) {
    let items = [Item::Fixed(Fixed::RFC2822)];
    let text = |d: &atom_syndication::FixedDateTime| {
        let mut t = String::new();
        d.format_with_items(items.iter()).write_to(&mut t).map_or(AtomDate::Unwritable, |_| AtomDate::Rfc2822(t))
    };
    (text(e.updated()), e.published().map(text))
}

/// Writes the feed's `updated` date as RFC 2822 text with chrono's RFC 2822 writer,
/// the one behind `DateTime::to_rfc2822`; where that panics (a year outside 0 to
/// 9999), the writer fails instead and the date is kept as unwritable. Part of the
/// conversion made by `read_atom`.
#[verifier::external_body]
fn feed_updated_model(f: &atom_syndication::Feed) -> AtomDate {
    let items = [Item::Fixed(Fixed::RFC2822)];
    let mut t = String::new();
    f.updated().format_with_items(items.iter()).write_to(&mut t).map_or(AtomDate::Unwritable, |_| AtomDate::Rfc2822(t))
}

/// Carries an Atom entry into the model, field for field, and authors by name.
/// Part of the conversion made by `read_atom`.
#[verifier::external_body]
fn atom_entry_model(e: &atom_syndication::Entry) -> AtomEntry {
    let (updated, published) = entry_dates_model(e);
    AtomEntry {
        title: atom_text_model(e.title()),
        id: e.id().to_owned(),
        updated,
        published,
        authors: e.authors().iter().map(|a| a.name().to_owned()).collect(),
        categories: e.categories().iter().map(atom_category_model).collect(),
        links: e.links().iter().map(atom_link_model).collect(),
        summary: e.summary().map(atom_text_model),
        content: e.content().map(atom_content_model),
    }
}

/// Reads an Atom feed with `atom_syndication::Feed::read_from` and carries it into
/// the model, field for field; the error is the atom_syndication crate's message.
#[verifier::external_body]
fn read_atom(content: &[u8]) -> (r: Result<AtomFeed, String>)
    ensures
        match r {
            Ok(f) => atom_feed_read(content@) == Some(f@),
            Err(_) => atom_feed_read(content@) is None,
        },
{
    let f = atom_syndication::Feed::read_from(content).map_err(|e| e.to_string())?;
    Ok(AtomFeed {
        title: atom_text_model(f.title()),
        id: f.id().to_owned(),
        updated: feed_updated_model(&f),
        links: f.links().iter().map(atom_link_model).collect(),
        subtitle: f.subtitle().map(atom_text_model),
        rights: f.rights().map(atom_text_model),
        lang: f.lang().map(str::to_owned),
        categories: f.categories().iter().map(atom_category_model).collect(),
        generator: f.generator().map(|g| g.value.clone()),
        entries: f.entries().iter().map(atom_entry_model).collect(),
    })
}

/// A feed read as an RSS channel: an RSS channel as the rss crate read it, or an
/// Atom feed carried over into the RSS shape.
#[derive(Debug)]
pub enum FeedChannel {
    Rss(RssChannel),
    Atom(RssChannel),
}

/// The content was neither RSS nor Atom: the rss crate's error, and the error of
/// reading it as Atom.
#[derive(Debug)]
pub struct FeedError {
    pub rss_error: String,
    pub atom_error: String,
}

impl FeedError {
    /// The error's message.
    pub fn message(&self) -> (r: String)
        ensures
            r@ == "failed to parse feed as RSS or Atom: "@ + self.rss_error@,
    {
        crate::text::concat("failed to parse feed as RSS or Atom: ", self.rss_error.as_str())
    }
}

/// Reads a feed: as RSS when the rss crate reads it, else as Atom carried over into
/// an RSS channel, else an error. An Atom feed with a date that RFC 2822 cannot
/// hold, where the channel writes it, is refused.
pub fn parse_feed_content(content: &[u8]) -> (r: Result<FeedChannel, FeedError>)
    ensures
        match rss_channel_read(content@) {
            Some(v) => r matches Ok(FeedChannel::Rss(c)) && c@ == v,
            None => match atom_feed_read(content@) {
                Some(f) => match channel_of(f) {
                    Some(v) => r matches Ok(FeedChannel::Atom(c)) && c@ == v,
                    None => r is Err,
                },
                None => r is Err,
            },
        },
{
    match read_rss(content) {
        Ok(c) => Ok(FeedChannel::Rss(c)),
        Err(rss_error) => match read_atom(content) {
            Ok(f) => match atom_feed_to_rss_channel(&f) {
                Some(c) => Ok(FeedChannel::Atom(c)),
                None => Err(FeedError {
                    rss_error,
                    atom_error: crate::text::owned("a date of the feed has a year that RFC 2822 cannot hold"),
                }),
            },
            Err(atom_error) => Err(FeedError { rss_error, atom_error }),
        },
    }
}

} // verus!
