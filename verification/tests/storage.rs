use nuuslees::config::{AppConfig, Config, FeedConfig, GroupConfig};
use nuuslees::channel::{Channel, ChannelItem};
use nuuslees::db::{feed_from_channel, item_from_entry, Database, DbError, Feed, FeedItem, Group};
use nuuslees::tables::Timestamp;

const T0: Timestamp = Timestamp { secs: 1_700_000_000, nanos: 0 };
const T1: Timestamp = Timestamp { secs: 1_700_000_100, nanos: 5 };

fn group(name: &str, desc: &str) -> Group {
    Group { id: 0, name: name.to_string(), desc: desc.to_string() }
}

fn feed(group_id: i32, name: &str, url: &str, at: Timestamp) -> Feed {
    Feed {
        id: 0,
        group_id,
        name: name.to_string(),
        desc: format!("about {name}"),
        url: url.to_string(),
        updated_at: at,
    }
}

fn item(feed_id: i32, title: &str, url: &str) -> FeedItem {
    FeedItem {
        id: 0,
        feed_id,
        title: title.to_string(),
        url: url.to_string(),
        desc: format!("{title} in short"),
        content: format!("<p>{title}</p>"),
        read: false,
        pub_date: T0,
    }
}

fn config_of(groups: Vec<GroupConfig>) -> Config {
    Config {
        config: AppConfig { _data_dir: String::new(), _config_dir: String::new() },
        confirm_quit: true,
        groups,
    }
}

const DOC_TWO_ITEMS: &str = "<?xml version=\"1.0\" encoding=\"UTF-8\"?>\
<rss version=\"2.0\"><channel><title>Tech News</title><link>http://example.com</link>\
<description>All about tech</description>\
<item><title>First</title><link>http://example.com/1</link><description>one</description>\
<pubDate>2024-01-02T03:04:05Z</pubDate></item>\
<item><title>Second</title><link>http://example.com/2</link><description>two</description>\
<pubDate>Mon, 01 Jan 2024 00:00:00 GMT</pubDate></item>\
</channel></rss>";

fn doc_one_item(title: &str, link: &str) -> String {
    format!(
        "<rss version=\"2.0\"><channel><title>{title}</title><link>http://x</link>\
<description>d</description><item><title>{title} item</title><link>{link}</link>\
</item></channel></rss>"
    )
}

#[test]
fn new_store_lists_only_the_synthetic_group() {
    let db = Database::new();
    let groups = db.get_groups().unwrap();
    assert_eq!(groups.len(), 1);
    assert_eq!(groups[0].id, -1);
    assert_eq!(groups[0].name, "All Feeds");
    assert_eq!(groups[0].desc, "See all feeds in all groups");
    assert!(db.get_feeds().unwrap().is_empty());
    assert!(db.get_feed_items().unwrap().is_empty());
}

#[test]
fn upsert_group_assigns_ids_in_insertion_order() {
    let mut db = Database::new();
    assert_eq!(db.upsert_group(group("Tech", "t")), Ok(1));
    assert_eq!(db.upsert_group(group("News", "n")), Ok(2));
    assert_eq!(db.upsert_group(group("Art", "a")), Ok(3));
    let groups = db.get_groups().unwrap();
    let names: Vec<&str> = groups.iter().map(|g| g.name.as_str()).collect();
    assert_eq!(names, vec!["All Feeds", "Tech", "News", "Art"]);
    let ids: Vec<i32> = groups.iter().map(|g| g.id).collect();
    assert_eq!(ids, vec![-1, 1, 2, 3]);
}

#[test]
fn upsert_group_twice_yields_one_row_and_the_same_id() {
    let mut db = Database::new();
    let first = db.upsert_group(group("Tech", "technology")).unwrap();
    let second = db.upsert_group(group("Tech", "technology")).unwrap();
    assert_eq!(first, second);
    let groups = db.get_groups().unwrap();
    assert_eq!(groups.len(), 2);
    assert_eq!(groups[1], Group { id: first, name: "Tech".into(), desc: "technology".into() });
}

#[test]
fn upsert_group_on_known_name_replaces_the_description() {
    let mut db = Database::new();
    db.upsert_group(group("Tech", "old")).unwrap();
    db.upsert_group(group("News", "n")).unwrap();
    let id = db.upsert_group(group("Tech", "new")).unwrap();
    assert_eq!(id, 1);
    let groups = db.get_groups().unwrap();
    assert_eq!(groups.len(), 3);
    assert_eq!(groups[1].desc, "new");
    assert_eq!(groups[2].name, "News");
}

#[test]
fn upsert_group_ignores_the_id_it_is_given() {
    let mut db = Database::new();
    let id = db.upsert_group(Group { id: 77, name: "Tech".into(), desc: String::new() }).unwrap();
    assert_eq!(id, 1);
}

#[test]
fn get_group_id_finds_by_name_or_answers_minus_one() {
    let mut db = Database::new();
    db.upsert_group(group("Tech", "t")).unwrap();
    db.upsert_group(group("News", "n")).unwrap();
    assert_eq!(db.get_group_id("News"), Ok(2));
    assert_eq!(db.get_group_id("Tech"), Ok(1));
    assert_eq!(db.get_group_id("Sport"), Ok(-1));
    assert_eq!(db.get_group_id("All Feeds"), Ok(-1));
}

#[test]
fn upsert_feed_twice_yields_one_row_and_the_same_id() {
    let mut db = Database::new();
    let g = db.upsert_group(group("Tech", "t")).unwrap();
    let first = db.upsert_feed(feed(g, "Blog", "http://blog", T0)).unwrap();
    let second = db.upsert_feed(feed(g, "Blog", "http://blog", T0)).unwrap();
    assert_eq!(first, 1);
    assert_eq!(second, 1);
    let feeds = db.get_feeds().unwrap();
    assert_eq!(feeds.len(), 1);
    assert_eq!(feeds[0].id, 1);
    assert_eq!(feeds[0].url, "http://blog");
}

#[test]
fn upsert_feed_on_known_url_merges_name_and_time_and_keeps_the_id() {
    let mut db = Database::new();
    let g1 = db.upsert_group(group("Tech", "t")).unwrap();
    let g2 = db.upsert_group(group("News", "n")).unwrap();
    db.upsert_feed(feed(g1, "Other", "http://other", T0)).unwrap();
    let id = db.upsert_feed(feed(g1, "Blog", "http://blog", T0)).unwrap();
    let again = db.upsert_feed(feed(g2, "Renamed", "http://blog", T1)).unwrap();
    assert_eq!(id, 2);
    assert_eq!(again, 2);
    let feeds = db.get_feeds().unwrap();
    assert_eq!(feeds.len(), 2);
    assert_eq!(
        feeds[1],
        Feed {
            id: 2,
            group_id: g1,
            name: "Renamed".into(),
            desc: "about Renamed".into(),
            url: "http://blog".into(),
            updated_at: T1,
        }
    );
    assert_eq!(feeds[0].name, "Other");
    assert_eq!(feeds[0].updated_at, T0);
}

#[test]
fn upsert_feed_needs_a_stored_group() {
    let mut db = Database::new();
    db.upsert_group(group("Tech", "t")).unwrap();
    assert_eq!(db.upsert_feed(feed(5, "Blog", "http://blog", T0)), Err(DbError::ForeignKey));
    assert_eq!(db.upsert_feed(feed(-1, "Blog", "http://blog", T0)), Err(DbError::ForeignKey));
    assert_eq!(db.upsert_feed(feed(0, "Blog", "http://blog", T0)), Err(DbError::ForeignKey));
    assert!(db.get_feeds().unwrap().is_empty());
}

#[test]
fn upsert_feed_item_twice_yields_one_row_and_the_same_id() {
    let mut db = Database::new();
    let g = db.upsert_group(group("Tech", "t")).unwrap();
    let f = db.upsert_feed(feed(g, "Blog", "http://blog", T0)).unwrap();
    let first = db.upsert_feed_item(item(f, "Post", "http://blog/1")).unwrap();
    let second = db.upsert_feed_item(item(f, "Post", "http://blog/1")).unwrap();
    assert_eq!(first, 1);
    assert_eq!(second, 1);
    assert_eq!(db.get_feed_items().unwrap().len(), 1);
}

#[test]
fn upsert_feed_item_on_known_url_merges_everything_but_id_feed_and_url() {
    let mut db = Database::new();
    let g = db.upsert_group(group("Tech", "t")).unwrap();
    let f1 = db.upsert_feed(feed(g, "Blog", "http://blog", T0)).unwrap();
    let f2 = db.upsert_feed(feed(g, "Zine", "http://zine", T0)).unwrap();
    db.upsert_feed_item(item(f1, "Post", "http://blog/1")).unwrap();
    let mut changed = item(f2, "Post, revised", "http://blog/1");
    changed.read = true;
    changed.pub_date = T1;
    assert_eq!(db.upsert_feed_item(changed), Ok(1));
    let items = db.get_feed_items().unwrap();
    assert_eq!(items.len(), 1);
    assert_eq!(items[0].id, 1);
    assert_eq!(items[0].feed_id, f1);
    assert_eq!(items[0].title, "Post, revised");
    assert_eq!(items[0].desc, "Post, revised in short");
    assert!(items[0].read);
    assert_eq!(items[0].pub_date, T1);
}

#[test]
fn upsert_feed_item_needs_a_stored_feed() {
    let mut db = Database::new();
    assert_eq!(db.upsert_feed_item(item(1, "Post", "http://blog/1")), Err(DbError::ForeignKey));
    assert!(db.get_feed_items().unwrap().is_empty());
}

#[test]
fn listings_of_items_leave_the_content_out() {
    let mut db = Database::new();
    let g = db.upsert_group(group("Tech", "t")).unwrap();
    let f = db.upsert_feed(feed(g, "Blog", "http://blog", T0)).unwrap();
    db.upsert_feed_item(item(f, "Post", "http://blog/1")).unwrap();
    assert_eq!(db.get_feed_items().unwrap()[0].content, "");
    assert_eq!(db.get_feed_items_from_feed(f).unwrap()[0].content, "");
    assert_eq!(db.get_feed_items_from_group(g).unwrap()[0].content, "");
    assert_eq!(db.get_feed_items().unwrap()[0].title, "Post");
}

#[test]
fn feeds_of_a_group_start_with_the_synthetic_feed() {
    let mut db = Database::new();
    let g1 = db.upsert_group(group("Tech", "t")).unwrap();
    let g2 = db.upsert_group(group("News", "n")).unwrap();
    db.upsert_feed(feed(g1, "A", "http://a", T0)).unwrap();
    db.upsert_feed(feed(g2, "B", "http://b", T0)).unwrap();
    db.upsert_feed(feed(g1, "C", "http://c", T0)).unwrap();
    let feeds = db.get_feeds_from_group(g1, T1).unwrap();
    assert_eq!(feeds.len(), 3);
    assert_eq!(
        feeds[0],
        Feed {
            id: -1,
            group_id: g1,
            name: "All Feeds".into(),
            desc: "See all feeds in this group".into(),
            url: String::new(),
            updated_at: T1,
        }
    );
    assert_eq!(feeds[1].name, "A");
    assert_eq!(feeds[2].name, "C");
    let none = db.get_feeds_from_group(9, T1).unwrap();
    assert_eq!(none.len(), 1);
    assert_eq!(none[0].id, -1);
    assert_eq!(none[0].group_id, 9);
}

#[test]
fn items_are_listed_by_feed_and_by_group() {
    let mut db = Database::new();
    let g1 = db.upsert_group(group("Tech", "t")).unwrap();
    let g2 = db.upsert_group(group("News", "n")).unwrap();
    let a = db.upsert_feed(feed(g1, "A", "http://a", T0)).unwrap();
    let b = db.upsert_feed(feed(g2, "B", "http://b", T0)).unwrap();
    let c = db.upsert_feed(feed(g1, "C", "http://c", T0)).unwrap();
    db.upsert_feed_item(item(a, "a1", "http://a/1")).unwrap();
    db.upsert_feed_item(item(b, "b1", "http://b/1")).unwrap();
    db.upsert_feed_item(item(c, "c1", "http://c/1")).unwrap();
    db.upsert_feed_item(item(a, "a2", "http://a/2")).unwrap();
    let titles = |items: Vec<FeedItem>| items.into_iter().map(|i| i.title).collect::<Vec<_>>();
    assert_eq!(titles(db.get_feed_items().unwrap()), vec!["a1", "b1", "c1", "a2"]);
    assert_eq!(titles(db.get_feed_items_from_feed(a).unwrap()), vec!["a1", "a2"]);
    assert_eq!(titles(db.get_feed_items_from_feed(b).unwrap()), vec!["b1"]);
    assert_eq!(titles(db.get_feed_items_from_group(g1).unwrap()), vec!["a1", "c1", "a2"]);
    assert_eq!(titles(db.get_feed_items_from_group(g2).unwrap()), vec!["b1"]);
    assert!(db.get_feed_items_from_group(-1).unwrap().is_empty());
    assert!(db.get_feed_items_from_feed(42).unwrap().is_empty());
}

#[test]
fn refresh_without_a_configuration_changes_nothing() {
    let mut db = Database::new();
    db.upsert_group(group("Tech", "t")).unwrap();
    assert_eq!(db.refresh_feeds(&vec![vec![Some(DOC_TWO_ITEMS.to_string())]], T0), Ok(()));
    assert_eq!(db.get_groups().unwrap().len(), 2);
    assert!(db.get_feeds().unwrap().is_empty());
}

#[test]
fn refresh_of_one_group_with_one_feed_of_two_items() {
    let mut db = Database::new();
    db.set_config(config_of(vec![GroupConfig {
        name: "Tech".into(),
        desc: "technology".into(),
        feeds: vec![FeedConfig { name: None, desc: None, link: "http://example.com/rss".into() }],
    }]));
    assert_eq!(db.refresh_feeds(&vec![vec![Some(DOC_TWO_ITEMS.to_string())]], T1), Ok(()));

    let groups = db.get_groups().unwrap();
    assert_eq!(groups.len(), 2);
    assert_eq!(groups[0].name, "All Feeds");
    assert_eq!(groups[1], Group { id: 1, name: "Tech".into(), desc: "technology".into() });

    let feeds = db.get_feeds_from_group(1, T0).unwrap();
    assert_eq!(feeds.len(), 2);
    assert_eq!(feeds[0].id, -1);
    assert_eq!(
        feeds[1],
        Feed {
            id: 1,
            group_id: 1,
            name: "Tech News".into(),
            desc: "All about tech".into(),
            url: "http://example.com/rss".into(),
            updated_at: T1,
        }
    );

    let items = db.get_feed_items_from_feed(1).unwrap();
    assert_eq!(items.len(), 2);
    assert_eq!(
        items[0],
        FeedItem {
            id: 1,
            feed_id: 1,
            title: "First".into(),
            url: "http://example.com/1".into(),
            desc: "one".into(),
            content: String::new(),
            read: false,
            pub_date: Timestamp { secs: 1_704_164_645, nanos: 0 },
        }
    );
    assert_eq!(items[1].title, "Second");
    assert_eq!(items[1].url, "http://example.com/2");
    assert_eq!(items[1].pub_date, T1);
}

#[test]
fn refresh_takes_name_and_description_from_the_configuration_first() {
    let mut db = Database::new();
    db.set_config(config_of(vec![GroupConfig {
        name: "Tech".into(),
        desc: String::new(),
        feeds: vec![FeedConfig {
            name: Some("My name".into()),
            desc: None,
            link: "http://example.com/rss".into(),
        }],
    }]));
    db.refresh_feeds(&vec![vec![Some(DOC_TWO_ITEMS.to_string())]], T0).unwrap();
    let feeds = db.get_feeds().unwrap();
    assert_eq!(feeds[0].name, "My name");
    assert_eq!(feeds[0].desc, "All about tech");
}

#[test]
fn refresh_twice_is_idempotent() {
    let mut db = Database::new();
    db.set_config(config_of(vec![GroupConfig {
        name: "Tech".into(),
        desc: "technology".into(),
        feeds: vec![FeedConfig { name: None, desc: None, link: "http://example.com/rss".into() }],
    }]));
    let docs = vec![vec![Some(DOC_TWO_ITEMS.to_string())]];
    db.refresh_feeds(&docs, T0).unwrap();
    let groups = db.get_groups().unwrap();
    let feeds = db.get_feeds().unwrap();
    let items = db.get_feed_items().unwrap();
    db.refresh_feeds(&docs, T0).unwrap();
    assert_eq!(db.get_groups().unwrap(), groups);
    assert_eq!(db.get_feeds().unwrap(), feeds);
    assert_eq!(db.get_feed_items().unwrap(), items);
}

#[test]
fn a_feed_that_fails_does_not_stop_its_siblings() {
    let mut db = Database::new();
    let link = |s: &str| FeedConfig { name: None, desc: None, link: s.into() };
    db.set_config(config_of(vec![GroupConfig {
        name: "Tech".into(),
        desc: String::new(),
        feeds: vec![link("http://one"), link("http://two"), link("http://three")],
    }]));
    let docs = vec![vec![
        Some(doc_one_item("One", "http://one/1")),
        None,
        Some(doc_one_item("Three", "http://three/1")),
    ]];
    assert_eq!(db.refresh_feeds(&docs, T0), Ok(()));
    let feeds = db.get_feeds().unwrap();
    let urls: Vec<&str> = feeds.iter().map(|f| f.url.as_str()).collect();
    assert_eq!(urls, vec!["http://one", "http://three"]);
    let items = db.get_feed_items().unwrap();
    let titles: Vec<&str> = items.iter().map(|i| i.title.as_str()).collect();
    assert_eq!(titles, vec!["One item", "Three item"]);
    assert_eq!(items[1].feed_id, 2);
}

#[test]
fn a_document_that_is_not_rss_skips_only_its_feed() {
    let mut db = Database::new();
    let link = |s: &str| FeedConfig { name: None, desc: None, link: s.into() };
    db.set_config(config_of(vec![
        GroupConfig {
            name: "Tech".into(),
            desc: String::new(),
            feeds: vec![link("http://bad"), link("http://good")],
        },
        GroupConfig { name: "News".into(), desc: String::new(), feeds: vec![link("http://n")] },
    ]));
    let docs = vec![
        vec![Some("<html><body>not a feed</body></html>".to_string()), Some(doc_one_item("Good", "http://good/1"))],
        vec![Some(doc_one_item("N", "http://n/1"))],
    ];
    assert_eq!(db.refresh_feeds(&docs, T0), Ok(()));
    let feeds = db.get_feeds().unwrap();
    let urls: Vec<&str> = feeds.iter().map(|f| f.url.as_str()).collect();
    assert_eq!(urls, vec!["http://good", "http://n"]);
    assert_eq!(feeds[1].group_id, 2);
    assert_eq!(db.get_feed_items().unwrap().len(), 2);
}

#[test]
fn documents_that_were_not_handed_over_count_as_failed() {
    let mut db = Database::new();
    let link = |s: &str| FeedConfig { name: None, desc: None, link: s.into() };
    db.set_config(config_of(vec![
        GroupConfig { name: "Tech".into(), desc: String::new(), feeds: vec![link("http://a"), link("http://b")] },
        GroupConfig { name: "News".into(), desc: String::new(), feeds: vec![link("http://n")] },
    ]));
    let docs = vec![vec![Some(doc_one_item("A", "http://a/1"))]];
    assert_eq!(db.refresh_feeds(&docs, T0), Ok(()));
    assert_eq!(db.get_groups().unwrap().len(), 3);
    assert_eq!(db.get_feeds().unwrap().len(), 1);
    assert_eq!(db.get_feed_items().unwrap().len(), 1);
}

#[test]
fn entries_without_a_link_share_one_row() {
    let mut db = Database::new();
    db.set_config(config_of(vec![GroupConfig {
        name: "Tech".into(),
        desc: String::new(),
        feeds: vec![FeedConfig { name: None, desc: None, link: "http://a".into() }],
    }]));
    let doc = "<rss version=\"2.0\"><channel><title>T</title><link>l</link><description>d</description>\
<item><title>x</title></item><item><title>y</title></item></channel></rss>";
    db.refresh_feeds(&vec![vec![Some(doc.to_string())]], T0).unwrap();
    let items = db.get_feed_items().unwrap();
    assert_eq!(items.len(), 1);
    assert_eq!(items[0].url, "");
    assert_eq!(items[0].title, "y");
    assert_eq!(items[0].desc, "");
    assert_eq!(items[0].pub_date, T0);
}

fn entry(title: Option<&str>, link: Option<&str>) -> ChannelItem {
    ChannelItem {
        title: title.map(String::from),
        link: link.map(String::from),
        description: None,
        pub_date: None,
    }
}

fn channel_of(items: Vec<ChannelItem>) -> Channel {
    Channel { title: "Tech News".into(), description: "All about tech".into(), items }
}

#[test]
fn an_entry_becomes_an_unread_row_without_content() {
    let full = ChannelItem {
        title: Some("First".into()),
        link: Some("http://example.com/1".into()),
        description: Some("one".into()),
        pub_date: Some("whatever the text".into()),
    };
    assert_eq!(
        item_from_entry(&full, Some(T1), 7, T0),
        FeedItem {
            id: 0,
            feed_id: 7,
            title: "First".into(),
            url: "http://example.com/1".into(),
            desc: "one".into(),
            content: String::new(),
            read: false,
            pub_date: T1,
        }
    );
    assert_eq!(item_from_entry(&full, None, 7, T0).pub_date, T0);
    let bare = item_from_entry(&entry(None, None), None, 3, T1);
    assert_eq!(
        bare,
        FeedItem {
            id: 0,
            feed_id: 3,
            title: String::new(),
            url: String::new(),
            desc: String::new(),
            content: String::new(),
            read: false,
            pub_date: T1,
        }
    );
}

#[test]
fn a_feed_row_takes_from_the_document_what_the_configuration_leaves_open() {
    let channel = channel_of(vec![]);
    let open = FeedConfig { name: None, desc: None, link: "http://a".into() };
    assert_eq!(
        feed_from_channel(&open, &channel, 4, T1),
        Feed {
            id: 0,
            group_id: 4,
            name: "Tech News".into(),
            desc: "All about tech".into(),
            url: "http://a".into(),
            updated_at: T1,
        }
    );
    let set = FeedConfig { name: Some("Mine".into()), desc: Some("my words".into()), link: "http://a".into() };
    let row = feed_from_channel(&set, &channel, 4, T0);
    assert_eq!((row.name.as_str(), row.desc.as_str()), ("Mine", "my words"));
}

#[test]
fn merging_a_document_upserts_the_feed_and_its_entries() {
    let mut db = Database::new();
    let g = db.upsert_group(group("Tech", "t")).unwrap();
    let cfg = FeedConfig { name: None, desc: None, link: "http://example.com/rss".into() };
    let channel = channel_of(vec![
        entry(Some("First"), Some("http://example.com/1")),
        entry(Some("Second"), Some("http://example.com/2")),
    ]);
    db.merge_channel(&cfg, &channel, g, T1);
    let feeds = db.get_feeds().unwrap();
    assert_eq!(feeds.len(), 1);
    assert_eq!((feeds[0].id, feeds[0].group_id, feeds[0].name.as_str()), (1, g, "Tech News"));
    let items = db.get_feed_items_from_feed(1).unwrap();
    let rows: Vec<(i32, i32, &str, &str)> =
        items.iter().map(|i| (i.id, i.feed_id, i.title.as_str(), i.url.as_str())).collect();
    assert_eq!(
        rows,
        vec![(1, 1, "First", "http://example.com/1"), (2, 1, "Second", "http://example.com/2")]
    );
    assert!(items.iter().all(|i| i.pub_date == T1 && !i.read));

    let again = channel_of(vec![entry(Some("First, revised"), Some("http://example.com/1"))]);
    db.merge_channel(&cfg, &again, g, T0);
    assert_eq!(db.get_feeds().unwrap().len(), 1);
    assert_eq!(db.get_feeds().unwrap()[0].updated_at, T0);
    let items = db.get_feed_items().unwrap();
    assert_eq!(items.len(), 2);
    assert_eq!((items[0].id, items[0].title.as_str(), items[0].pub_date), (1, "First, revised", T0));
    assert_eq!(items[1].title, "Second");
}

#[test]
fn merging_for_a_group_that_is_not_stored_changes_nothing() {
    let mut db = Database::new();
    db.upsert_group(group("Tech", "t")).unwrap();
    let cfg = FeedConfig { name: None, desc: None, link: "http://example.com/rss".into() };
    let channel = channel_of(vec![entry(Some("First"), Some("http://example.com/1"))]);
    db.merge_channel(&cfg, &channel, 9, T1);
    assert!(db.get_feeds().unwrap().is_empty());
    assert!(db.get_feed_items().unwrap().is_empty());
}
