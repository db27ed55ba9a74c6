//! The stored entities and the storage gateway that keeps their tables.

use crate::channel::{parse_timestamp, read_channel, text_of, Channel, ChannelItem};
use crate::config::{Config, FeedConfig, GroupConfig};
use crate::sync::{
    docs_at, entry_date, entry_row, feed_row, merged_channel, refreshed, sync_feed, sync_feeds,
    sync_group, sync_groups, sync_items,
};
use crate::tables::{
    all_feeds_feed, all_feeds_group, empty_tables, feed_in_group, feed_upsert_ok, feeds_wf,
    group_id_of, group_upsert_ok, groups_wf, has_feed_at, has_feed_id, has_group_id,
    has_group_named, has_item_at, item_upsert_ok, items_wf, lemma_feed_at, lemma_filter_step,
    lemma_group_named, lemma_item_at, lemma_upsert_feed_wf, lemma_upsert_group_wf,
    lemma_upsert_item_wf, listed_feeds_of_group, listed_groups, listed_item, listed_items,
    listed_items_of_feed, listed_items_of_group, tables_wf, upsert_feed, upsert_feed_rows,
    upsert_group, upsert_group_rows, upsert_item, upsert_item_rows, upserted_feed_id,
    upserted_group_id, upserted_item_id, FeedRow, GroupRow, ItemRow, Tables, Timestamp, ALL_ID,
};
use vstd::prelude::*;

verus! {

/// A named collection of feeds. `id` is 0 until the group is stored.
#[derive(Debug, PartialEq, Eq)]
pub struct Group {
    pub id: i32,
    pub name: String,
    pub desc: String,
}

/// A feed of a group, known by its url.
#[derive(Debug, PartialEq, Eq)]
pub struct Feed {
    pub id: i32,
    pub group_id: i32,
    pub name: String,
    pub desc: String,
    pub url: String,
    pub updated_at: Timestamp,
}

/// An entry of a feed, known by its url.
#[derive(Debug, PartialEq, Eq, Hash)]
pub struct FeedItem {
    pub id: i32,
    pub feed_id: i32,
    pub title: String,
    pub url: String,
    pub desc: String,
    pub content: String,
    pub read: bool,
    pub pub_date: Timestamp,
}

/// Why the store refused a write.
#[derive(Debug, PartialEq, Eq)]
pub enum DbError {
    /// The row names an owner that is not stored.
    ForeignKey,
    /// The table has handed out its last id.
    IdsExhausted,
    /// Any other failure, in words.
    Custom(String),
}

impl View for Group {
    type V = GroupRow;

    open spec fn view(&self) -> GroupRow {
        GroupRow { id: self.id, name: self.name@, desc: self.desc@ }
    }
}

impl DeepView for Group {
    type V = GroupRow;

    open spec fn deep_view(&self) -> GroupRow {
        self@
    }
}

impl View for Feed {
    type V = FeedRow;

    open spec fn view(&self) -> FeedRow {
        FeedRow {
            id: self.id,
            group_id: self.group_id,
            name: self.name@,
            desc: self.desc@,
            url: self.url@,
            updated_at: self.updated_at,
        }
    }
}

impl DeepView for Feed {
    type V = FeedRow;

    open spec fn deep_view(&self) -> FeedRow {
        self@
    }
}

impl View for FeedItem {
    type V = ItemRow;

    open spec fn view(&self) -> ItemRow {
        ItemRow {
            id: self.id,
            feed_id: self.feed_id,
            title: self.title@,
            url: self.url@,
            desc: self.desc@,
            content: self.content@,
            read: self.read,
            pub_date: self.pub_date,
        }
    }
}

impl DeepView for FeedItem {
    type V = ItemRow;

    open spec fn deep_view(&self) -> ItemRow {
        self@
    }
}

impl Clone for Group {
    fn clone(&self) -> (r: Self)
        ensures
            r == *self,
    {
        Group { id: self.id, name: self.name.clone(), desc: self.desc.clone() }
    }
}

impl Clone for Feed {
    fn clone(&self) -> (r: Self)
        ensures
            r == *self,
    {
        Feed {
            id: self.id,
            group_id: self.group_id,
            name: self.name.clone(),
            desc: self.desc.clone(),
            url: self.url.clone(),
            updated_at: self.updated_at,
        }
    }
}

impl Clone for FeedItem {
    fn clone(&self) -> (r: Self)
        ensures
            r == *self,
    {
        FeedItem {
            id: self.id,
            feed_id: self.feed_id,
            title: self.title.clone(),
            url: self.url.clone(),
            desc: self.desc.clone(),
            content: self.content.clone(),
            read: self.read,
            pub_date: self.pub_date,
        }
    }
}

impl Default for FeedItem {
    fn default() -> (r: Self)
        ensures
            r@ == (ItemRow {
                id: 0,
                feed_id: 0,
                title: Seq::empty(),
                url: Seq::empty(),
                desc: Seq::empty(),
                content: Seq::empty(),
                read: false,
                pub_date: Timestamp { secs: 0, nanos: 0 },
            }),
    {
        FeedItem {
            id: 0,
            feed_id: 0,
            title: String::new(),
            url: String::new(),
            desc: String::new(),
            content: String::new(),
            read: false,
            pub_date: Timestamp { secs: 0, nanos: 0 },
        }
    }
}

/// Copies a list of groups.
pub fn clone_groups(groups: &Vec<Group>) -> (r: Vec<Group>)
    ensures
        r@ == groups@,
{
    let mut out: Vec<Group> = Vec::new();
    let mut i: usize = 0;
    while i < groups.len()
        invariant
            i <= groups.len(),
            out@ == groups@.take(i as int),
        decreases groups.len() - i,
    {
        out.push(groups[i].clone());
        i += 1;
    }
    assert(groups@.take(i as int) == groups@);
    out
}

/// Copies a list of feeds.
pub fn clone_feeds(feeds: &Vec<Feed>) -> (r: Vec<Feed>)
    ensures
        r@ == feeds@,
{
    let mut out: Vec<Feed> = Vec::new();
    let mut i: usize = 0;
    while i < feeds.len()
        invariant
            i <= feeds.len(),
            out@ == feeds@.take(i as int),
        decreases feeds.len() - i,
    {
        out.push(feeds[i].clone());
        i += 1;
    }
    assert(feeds@.take(i as int) == feeds@);
    out
}

/// Copies a list of feed items.
pub fn clone_feed_items(items: &Vec<FeedItem>) -> (r: Vec<FeedItem>)
    ensures
        r@ == items@,
{
    let mut out: Vec<FeedItem> = Vec::new();
    let mut i: usize = 0;
    while i < items.len()
        invariant
            i <= items.len(),
            out@ == items@.take(i as int),
        decreases items.len() - i,
    {
        out.push(items[i].clone());
        i += 1;
    }
    assert(items@.take(i as int) == items@);
    out
}

/// The storage gateway: the three tables, and the configuration that a
/// refresh walks.
pub struct Database {
    groups: Vec<Group>,
    feeds: Vec<Feed>,
    feed_items: Vec<FeedItem>,
    config: Option<Config>,
}

impl View for Database {
    type V = Tables;

    closed spec fn view(&self) -> Tables {
        Tables {
            groups: self.groups.deep_view(),
            feeds: self.feeds.deep_view(),
            items: self.feed_items.deep_view(),
        }
    }
}

impl Database {
    /// The rules of the store hold.
    pub open spec fn wf(&self) -> bool {
        tables_wf(self@)
    }

    /// The configuration that a refresh walks, if one was set.
    pub closed spec fn config(&self) -> Option<Config> {
        self.config
    }

    /// An empty store without a configuration.
    pub fn new() -> (db: Database)
        ensures
            db.wf(),
            db@ == empty_tables(),
            db.config() is None,
    {
        let db = Database {
            groups: Vec::new(),
            feeds: Vec::new(),
            feed_items: Vec::new(),
            config: None,
        };
        assert(db@.groups =~= Seq::empty());
        assert(db@.feeds =~= Seq::empty());
        assert(db@.items =~= Seq::empty());
        db
    }

    /// Whether the group table obeys its rules.
    fn groups_in_order(&self) -> (ok: bool)
        ensures
            ok == groups_wf(self@.groups),
    {
        let n = self.groups.len();
        let mut i: usize = 0;
        while i < n
            invariant
                i <= n,
                n == self.groups.len(),
                self@.groups.len() == n,
                groups_wf(self@.groups.take(i as int)),
            decreases n - i,
        {
            let ghost rows = self@.groups;
            if self.groups[i].id <= 0 {
                assert(rows[i as int].id <= 0);
                return false;
            }
            if i > 0 && self.groups[i - 1].id >= self.groups[i].id {
                assert(rows[i - 1].id >= rows[i as int].id);
                return false;
            }
            let mut j: usize = 0;
            while j < i
                invariant
                    j <= i,
                    i < n,
                    n == self.groups.len(),
                    self@.groups.len() == n,
                    rows == self@.groups,
                    forall|k: int| 0 <= k < j ==> (#[trigger] self@.groups[k]).name
                        != self@.groups[i as int].name,
                decreases i - j,
            {
                if self.groups[j].name == self.groups[i].name {
                    assert(rows[j as int].name == rows[i as int].name);
                    return false;
                }
                j += 1;
            }
            proof {
                let before = rows.take(i as int);
                let after = rows.take(i + 1);
                assert forall|a: int, b: int| 0 <= a < b < after.len() implies (
                #[trigger] after[a]).id < (#[trigger] after[b]).id && after[a].name
                    != after[b].name by {
                    if b < i {
                        assert(before[a].id < before[b].id);
                        assert(before[a].name != before[b].name);
                    } else {
                        assert(rows[a].name != rows[i as int].name);
                        if a < i - 1 {
                            assert(before[a].id < before[i - 1].id);
                        }
                    }
                }
                assert forall|a: int| 0 <= a < after.len() implies (#[trigger] after[a]).id
                    > 0 by {
                    if a < i {
                        assert(before[a].id > 0);
                    }
                }
            }
            i += 1;
        }
        assert(self@.groups.take(n as int) == self@.groups);
        true
    }

    /// Whether the feed table obeys its rules, and every feed belongs to a
    /// stored group.
    fn feeds_in_order(&self) -> (ok: bool)
        ensures
            ok == (feeds_wf(self@.feeds) && forall|k: int|
                0 <= k < self@.feeds.len() ==> has_group_id(
                    self@.groups,
                    (#[trigger] self@.feeds[k]).group_id,
                )),
    {
        let n = self.feeds.len();
        let mut i: usize = 0;
        while i < n
            invariant
                i <= n,
                n == self.feeds.len(),
                self@.feeds.len() == n,
                feeds_wf(self@.feeds.take(i as int)),
                forall|k: int|
                    0 <= k < i ==> has_group_id(self@.groups, (#[trigger] self@.feeds[k]).group_id),
            decreases n - i,
        {
            let ghost rows = self@.feeds;
            if self.feeds[i].id <= 0 {
                assert(rows[i as int].id <= 0);
                return false;
            }
            if i > 0 && self.feeds[i - 1].id >= self.feeds[i].id {
                assert(rows[i - 1].id >= rows[i as int].id);
                return false;
            }
            if !self.group_id_stored(self.feeds[i].group_id) {
                assert(!has_group_id(self@.groups, rows[i as int].group_id));
                return false;
            }
            let mut j: usize = 0;
            while j < i
                invariant
                    j <= i,
                    i < n,
                    n == self.feeds.len(),
                    self@.feeds.len() == n,
                    rows == self@.feeds,
                    forall|k: int| 0 <= k < j ==> (#[trigger] self@.feeds[k]).url
                        != self@.feeds[i as int].url,
                decreases i - j,
            {
                if self.feeds[j].url == self.feeds[i].url {
                    assert(rows[j as int].url == rows[i as int].url);
                    return false;
                }
                j += 1;
            }
            proof {
                let before = rows.take(i as int);
                let after = rows.take(i + 1);
                assert forall|a: int, b: int| 0 <= a < b < after.len() implies (
                #[trigger] after[a]).id < (#[trigger] after[b]).id && after[a].url
                    != after[b].url by {
                    if b < i {
                        assert(before[a].id < before[b].id);
                        assert(before[a].url != before[b].url);
                    } else {
                        assert(rows[a].url != rows[i as int].url);
                        if a < i - 1 {
                            assert(before[a].id < before[i - 1].id);
                        }
                    }
                }
                assert forall|a: int| 0 <= a < after.len() implies (#[trigger] after[a]).id
                    > 0 by {
                    if a < i {
                        assert(before[a].id > 0);
                    }
                }
            }
            i += 1;
        }
        assert(self@.feeds.take(n as int) == self@.feeds);
        true
    }

    /// Whether the item table obeys its rules, and every item belongs to a
    /// stored feed.
    fn items_in_order(&self) -> (ok: bool)
        ensures
            ok == (items_wf(self@.items) && forall|k: int|
                0 <= k < self@.items.len() ==> has_feed_id(
                    self@.feeds,
                    (#[trigger] self@.items[k]).feed_id,
                )),
    {
        let n = self.feed_items.len();
        let mut i: usize = 0;
        while i < n
            invariant
                i <= n,
                n == self.feed_items.len(),
                self@.items.len() == n,
                items_wf(self@.items.take(i as int)),
                forall|k: int|
                    0 <= k < i ==> has_feed_id(self@.feeds, (#[trigger] self@.items[k]).feed_id),
            decreases n - i,
        {
            let ghost rows = self@.items;
            if self.feed_items[i].id <= 0 {
                assert(rows[i as int].id <= 0);
                return false;
            }
            if i > 0 && self.feed_items[i - 1].id >= self.feed_items[i].id {
                assert(rows[i - 1].id >= rows[i as int].id);
                return false;
            }
            if !self.feed_id_stored(self.feed_items[i].feed_id) {
                assert(!has_feed_id(self@.feeds, rows[i as int].feed_id));
                return false;
            }
            let mut j: usize = 0;
            while j < i
                invariant
                    j <= i,
                    i < n,
                    n == self.feed_items.len(),
                    self@.items.len() == n,
                    rows == self@.items,
                    forall|k: int| 0 <= k < j ==> (#[trigger] self@.items[k]).url
                        != self@.items[i as int].url,
                decreases i - j,
            {
                if self.feed_items[j].url == self.feed_items[i].url {
                    assert(rows[j as int].url == rows[i as int].url);
                    return false;
                }
                j += 1;
            }
            proof {
                let before = rows.take(i as int);
                let after = rows.take(i + 1);
                assert forall|a: int, b: int| 0 <= a < b < after.len() implies (
                #[trigger] after[a]).id < (#[trigger] after[b]).id && after[a].url
                    != after[b].url by {
                    if b < i {
                        assert(before[a].id < before[b].id);
                        assert(before[a].url != before[b].url);
                    } else {
                        assert(rows[a].url != rows[i as int].url);
                        if a < i - 1 {
                            assert(before[a].id < before[i - 1].id);
                        }
                    }
                }
                assert forall|a: int| 0 <= a < after.len() implies (#[trigger] after[a]).id
                    > 0 by {
                    if a < i {
                        assert(before[a].id > 0);
                    }
                }
            }
            i += 1;
        }
        assert(self@.items.take(n as int) == self@.items);
        true
    }

    /// A store over rows that were kept elsewhere, each table in insertion
    /// order. Rows that break the rules of the store are refused as a
    /// whole.
    pub fn from_rows(groups: Vec<Group>, feeds: Vec<Feed>, feed_items: Vec<FeedItem>) -> (r:
        Result<Database, DbError>)
        ensures
            r is Ok <==> tables_wf(
                Tables {
                    groups: groups.deep_view(),
                    feeds: feeds.deep_view(),
                    items: feed_items.deep_view(),
                },
            ),
            r matches Ok(db) ==> db.wf() && db.config() is None && db@ == (Tables {
                groups: groups.deep_view(),
                feeds: feeds.deep_view(),
                items: feed_items.deep_view(),
            }),
            r matches Err(e) ==> e is Custom,
    {
        let db = Database { groups, feeds, feed_items, config: None };
        if db.groups_in_order() && db.feeds_in_order() && db.items_in_order() {
            Ok(db)
        } else {
            Err(DbError::Custom("the rows break the rules of the store".to_string()))
        }
    }

    /// Sets the configuration that a refresh walks.
    pub fn set_config(&mut self, config: Config)
        ensures
            final(self)@ == old(self)@,
            final(self).config() == Some(config),
    {
        self.config = Some(config);
    }

    fn find_group(&self, name: &String) -> (r: Option<usize>)
        ensures
            match r {
                Some(i) => i < self@.groups.len() && self@.groups[i as int].name == name@,
                None => !has_group_named(self@.groups, name@),
            },
    {
        let mut i: usize = 0;
        while i < self.groups.len()
            invariant
                i <= self.groups.len(),
                self@.groups.len() == self.groups.len(),
                forall|k: int| 0 <= k < i ==> (#[trigger] self@.groups[k]).name != name@,
            decreases self.groups.len() - i,
        {
            if self.groups[i].name == *name {
                return Some(i);
            }
            i += 1;
        }
        None
    }

    fn find_feed(&self, url: &String) -> (r: Option<usize>)
        ensures
            match r {
                Some(i) => i < self@.feeds.len() && self@.feeds[i as int].url == url@,
                None => !has_feed_at(self@.feeds, url@),
            },
    {
        let mut i: usize = 0;
        while i < self.feeds.len()
            invariant
                i <= self.feeds.len(),
                self@.feeds.len() == self.feeds.len(),
                forall|k: int| 0 <= k < i ==> (#[trigger] self@.feeds[k]).url != url@,
            decreases self.feeds.len() - i,
        {
            if self.feeds[i].url == *url {
                return Some(i);
            }
            i += 1;
        }
        None
    }

    fn find_item(&self, url: &String) -> (r: Option<usize>)
        ensures
            match r {
                Some(i) => i < self@.items.len() && self@.items[i as int].url == url@,
                None => !has_item_at(self@.items, url@),
            },
    {
        let mut i: usize = 0;
        while i < self.feed_items.len()
            invariant
                i <= self.feed_items.len(),
                self@.items.len() == self.feed_items.len(),
                forall|k: int| 0 <= k < i ==> (#[trigger] self@.items[k]).url != url@,
            decreases self.feed_items.len() - i,
        {
            if self.feed_items[i].url == *url {
                return Some(i);
            }
            i += 1;
        }
        None
    }

    fn group_id_stored(&self, id: i32) -> (r: bool)
        ensures
            r == has_group_id(self@.groups, id),
    {
        let mut i: usize = 0;
        while i < self.groups.len()
            invariant
                i <= self.groups.len(),
                self@.groups.len() == self.groups.len(),
                forall|k: int| 0 <= k < i ==> (#[trigger] self@.groups[k]).id != id,
            decreases self.groups.len() - i,
        {
            if self.groups[i].id == id {
                assert(self@.groups[i as int].id == id);
                return true;
            }
            i += 1;
        }
        false
    }

    fn feed_id_stored(&self, id: i32) -> (r: bool)
        ensures
            r == has_feed_id(self@.feeds, id),
    {
        let mut i: usize = 0;
        while i < self.feeds.len()
            invariant
                i <= self.feeds.len(),
                self@.feeds.len() == self.feeds.len(),
                forall|k: int| 0 <= k < i ==> (#[trigger] self@.feeds[k]).id != id,
            decreases self.feeds.len() - i,
        {
            if self.feeds[i].id == id {
                assert(self@.feeds[i as int].id == id);
                return true;
            }
            i += 1;
        }
        false
    }

    /// Inserts the group, or replaces the description of the stored group of
    /// that name. Returns the id of the stored row; the id that `group`
    /// carries is not read.
    pub fn upsert_group(&mut self, group: Group) -> (r: Result<i32, DbError>)
        requires
            old(self).wf(),
        ensures
            final(self).wf(),
            final(self).config() == old(self).config(),
            final(self)@ == upsert_group(old(self)@, group.name@, group.desc@),
            r is Ok <==> group_upsert_ok(old(self)@.groups, group.name@),
            r matches Ok(id) ==> id == upserted_group_id(old(self)@.groups, group.name@),
            r matches Err(e) ==> e is IdsExhausted,
    {
        let ghost rows = self@.groups;
        proof {
            lemma_upsert_group_wf(self@, group.name@, group.desc@);
        }
        match self.find_group(&group.name) {
            Some(i) => {
                proof {
                    lemma_group_named(rows, group.name@, i as int);
                }
                let id = self.groups[i].id;
                self.groups.set(i, Group { id, name: group.name, desc: group.desc });
                assert(self@.groups =~= upsert_group_rows(rows, group.name@, group.desc@));
                Ok(id)
            },
            None => {
                let len = self.groups.len();
                let id: i32 = if len == 0 {
                    1
                } else {
                    let last = self.groups[len - 1].id;
                    assert(last == rows.last().id);
                    if last == i32::MAX {
                        return Err(DbError::IdsExhausted);
                    }
                    last + 1
                };
                self.groups.push(Group { id, name: group.name, desc: group.desc });
                assert(self@.groups =~= upsert_group_rows(rows, group.name@, group.desc@));
                Ok(id)
            },
        }
    }

    /// Inserts the feed, or replaces name, description and time of the
    /// stored feed of that url. A new feed must belong to a stored group.
    /// Returns the id of the stored row; the id that `feed` carries is not
    /// read.
    pub fn upsert_feed(&mut self, feed: Feed) -> (r: Result<i32, DbError>)
        requires
            old(self).wf(),
        ensures
            final(self).wf(),
            final(self).config() == old(self).config(),
            final(self)@ == upsert_feed(old(self)@, feed@),
            r is Ok <==> feed_upsert_ok(old(self)@, feed@),
            r matches Ok(id) ==> id == upserted_feed_id(old(self)@.feeds, feed.url@),
            r matches Err(e) ==> if has_group_id(old(self)@.groups, feed.group_id) {
                e is IdsExhausted
            } else {
                e is ForeignKey
            },
    {
        let ghost rows = self@.feeds;
        proof {
            lemma_upsert_feed_wf(self@, feed@);
        }
        match self.find_feed(&feed.url) {
            Some(i) => {
                proof {
                    lemma_feed_at(rows, feed.url@, i as int);
                }
                let id = self.feeds[i].id;
                let group_id = self.feeds[i].group_id;
                self.feeds.set(
                    i,
                    Feed {
                        id,
                        group_id,
                        name: feed.name,
                        desc: feed.desc,
                        url: feed.url,
                        updated_at: feed.updated_at,
                    },
                );
                assert(self@.feeds =~= upsert_feed_rows(rows, feed@));
                Ok(id)
            },
            None => {
                if !self.group_id_stored(feed.group_id) {
                    return Err(DbError::ForeignKey);
                }
                let len = self.feeds.len();
                let id: i32 = if len == 0 {
                    1
                } else {
                    let last = self.feeds[len - 1].id;
                    assert(last == rows.last().id);
                    if last == i32::MAX {
                        return Err(DbError::IdsExhausted);
                    }
                    last + 1
                };
                self.feeds.push(
                    Feed {
                        id,
                        group_id: feed.group_id,
                        name: feed.name,
                        desc: feed.desc,
                        url: feed.url,
                        updated_at: feed.updated_at,
                    },
                );
                assert(self@.feeds =~= upsert_feed_rows(rows, feed@));
                Ok(id)
            },
        }
    }

    /// Inserts the item, or replaces everything but id, feed and url of the
    /// stored item of that url. A new item must belong to a stored feed.
    /// Returns the id of the stored row; the id that `feed_item` carries is
    /// not read.
    pub fn upsert_feed_item(&mut self, feed_item: FeedItem) -> (r: Result<i32, DbError>)
        requires
            old(self).wf(),
        ensures
            final(self).wf(),
            final(self).config() == old(self).config(),
            final(self)@ == upsert_item(old(self)@, feed_item@),
            r is Ok <==> item_upsert_ok(old(self)@, feed_item@),
            r matches Ok(id) ==> id == upserted_item_id(old(self)@.items, feed_item.url@),
            r matches Err(e) ==> if has_feed_id(old(self)@.feeds, feed_item.feed_id) {
                e is IdsExhausted
            } else {
                e is ForeignKey
            },
    {
        let ghost rows = self@.items;
        proof {
            lemma_upsert_item_wf(self@, feed_item@);
        }
        match self.find_item(&feed_item.url) {
            Some(i) => {
                proof {
                    lemma_item_at(rows, feed_item.url@, i as int);
                }
                let id = self.feed_items[i].id;
                let feed_id = self.feed_items[i].feed_id;
                self.feed_items.set(
                    i,
                    FeedItem {
                        id,
                        feed_id,
                        title: feed_item.title,
                        url: feed_item.url,
                        desc: feed_item.desc,
                        content: feed_item.content,
                        read: feed_item.read,
                        pub_date: feed_item.pub_date,
                    },
                );
                assert(self@.items =~= upsert_item_rows(rows, feed_item@));
                Ok(id)
            },
            None => {
                if !self.feed_id_stored(feed_item.feed_id) {
                    return Err(DbError::ForeignKey);
                }
                let len = self.feed_items.len();
                let id: i32 = if len == 0 {
                    1
                } else {
                    let last = self.feed_items[len - 1].id;
                    assert(last == rows.last().id);
                    if last == i32::MAX {
                        return Err(DbError::IdsExhausted);
                    }
                    last + 1
                };
                self.feed_items.push(
                    FeedItem {
                        id,
                        feed_id: feed_item.feed_id,
                        title: feed_item.title,
                        url: feed_item.url,
                        desc: feed_item.desc,
                        content: feed_item.content,
                        read: feed_item.read,
                        pub_date: feed_item.pub_date,
                    },
                );
                assert(self@.items =~= upsert_item_rows(rows, feed_item@));
                Ok(id)
            },
        }
    }

    /// All groups: the synthetic "All Feeds" group, then the stored groups
    /// in insertion order.
    pub fn get_groups(&self) -> (r: Result<Vec<Group>, DbError>)
        ensures
            r matches Ok(groups) && groups.deep_view() == listed_groups(self@),
    {
        let all_group = Group {
            id: ALL_ID,
            name: "All Feeds".to_string(),
            desc: "See all feeds in all groups".to_string(),
        };
        let mut groups: Vec<Group> = Vec::new();
        groups.push(all_group);
        let mut i: usize = 0;
        while i < self.groups.len()
            invariant
                i <= self.groups.len(),
                self@.groups.len() == self.groups.len(),
                groups.deep_view() == seq![all_feeds_group()] + self@.groups.take(i as int),
            decreases self.groups.len() - i,
        {
            let ghost prev = groups.deep_view();
            groups.push(self.groups[i].clone());
            assert(groups.deep_view() =~= prev.push(self@.groups[i as int]));
            assert(self@.groups.take(i + 1) =~= self@.groups.take(i as int).push(
                self@.groups[i as int],
            ));
            i += 1;
        }
        assert(self@.groups.take(i as int) == self@.groups);
        Ok(groups)
    }

    /// The id of the stored group of this name, or -1 where none has it.
    pub fn get_group_id(&self, group_name: &str) -> (r: Result<i32, DbError>)
        requires
            self.wf(),
        ensures
            r matches Ok(id) && id == group_id_of(self@, group_name@),
    {
        let name = group_name.to_string();
        match self.find_group(&name) {
            Some(i) => {
                proof {
                    lemma_group_named(self@.groups, group_name@, i as int);
                }
                Ok(self.groups[i].id)
            },
            None => Ok(ALL_ID),
        }
    }

    /// All stored feeds in insertion order.
    pub fn get_feeds(&self) -> (r: Result<Vec<Feed>, DbError>)
        ensures
            r matches Ok(feeds) && feeds.deep_view() == self@.feeds,
    {
        let feeds = clone_feeds(&self.feeds);
        assert(feeds.deep_view() =~= self@.feeds);
        Ok(feeds)
    }

    /// All stored items in insertion order, each without its content.
    pub fn get_feed_items(&self) -> (r: Result<Vec<FeedItem>, DbError>)
        ensures
            r matches Ok(items) && items.deep_view() == listed_items(self@),
    {
        let mut items: Vec<FeedItem> = Vec::new();
        let mut i: usize = 0;
        while i < self.feed_items.len()
            invariant
                i <= self.feed_items.len(),
                self@.items.len() == self.feed_items.len(),
                items.deep_view() == self@.items.take(i as int).map_values(
                    |i: ItemRow| listed_item(i),
                ),
            decreases self.feed_items.len() - i,
        {
            let ghost prev = items.deep_view();
            items.push(listed(&self.feed_items[i]));
            assert(items.deep_view() =~= prev.push(listed_item(self@.items[i as int])));
            assert(self@.items.take(i + 1) =~= self@.items.take(i as int).push(
                self@.items[i as int],
            ));
            assert(self@.items.take(i + 1).map_values(|i: ItemRow| listed_item(i)) =~= prev.push(
                listed_item(self@.items[i as int]),
            ));
            i += 1;
        }
        assert(self@.items.take(i as int) == self@.items);
        Ok(items)
    }

    /// The stored items of one feed in insertion order, each without its
    /// content.
    pub fn get_feed_items_from_feed(&self, feed_id: i32) -> (r: Result<Vec<FeedItem>, DbError>)
        ensures
            r matches Ok(items) && items.deep_view() == listed_items_of_feed(self@, feed_id),
    {
        let ghost p = |i: ItemRow| i.feed_id == feed_id;
        let ghost f = |i: ItemRow| listed_item(i);
        let mut items: Vec<FeedItem> = Vec::new();
        let mut i: usize = 0;
        proof {
            if self@.items.len() > 0 {
                lemma_filter_step(self@.items, p, 0);
            } else {
                reveal(Seq::filter);
            }
        }
        while i < self.feed_items.len()
            invariant
                i <= self.feed_items.len(),
                self@.items.len() == self.feed_items.len(),
                p == |i: ItemRow| i.feed_id == feed_id,
                f == |i: ItemRow| listed_item(i),
                items.deep_view() == self@.items.take(i as int).filter(p).map_values(f),
            decreases self.feed_items.len() - i,
        {
            proof {
                lemma_filter_step(self@.items, p, i as int);
            }
            let ghost prev = items.deep_view();
            if self.feed_items[i].feed_id == feed_id {
                items.push(listed(&self.feed_items[i]));
                assert(items.deep_view() =~= prev.push(listed_item(self@.items[i as int])));
                assert(self@.items.take(i + 1).filter(p).map_values(f) =~= prev.push(
                    listed_item(self@.items[i as int]),
                ));
            }
            i += 1;
        }
        assert(self@.items.take(i as int) == self@.items);
        Ok(items)
    }

    fn feed_belongs(&self, feed_id: i32, group_id: i32) -> (b: bool)
        ensures
            b == feed_in_group(self@.feeds, feed_id, group_id),
    {
        let mut k: usize = 0;
        while k < self.feeds.len()
            invariant
                k <= self.feeds.len(),
                self@.feeds.len() == self.feeds.len(),
                forall|j: int|
                    0 <= j < k ==> !((#[trigger] self@.feeds[j]).id == feed_id
                        && self@.feeds[j].group_id == group_id),
            decreases self.feeds.len() - k,
        {
            if self.feeds[k].id == feed_id && self.feeds[k].group_id == group_id {
                assert(self@.feeds[k as int].id == feed_id);
                return true;
            }
            k += 1;
        }
        false
    }

    /// The stored items of all feeds of one group in insertion order, each
    /// without its content.
    pub fn get_feed_items_from_group(&self, group_id: i32) -> (r: Result<Vec<FeedItem>, DbError>)
        ensures
            r matches Ok(items) && items.deep_view() == listed_items_of_group(self@, group_id),
    {
        let ghost feeds = self@.feeds;
        let ghost p = |i: ItemRow| feed_in_group(feeds, i.feed_id, group_id);
        let ghost f = |i: ItemRow| listed_item(i);
        let mut items: Vec<FeedItem> = Vec::new();
        let mut i: usize = 0;
        proof {
            if self@.items.len() > 0 {
                lemma_filter_step(self@.items, p, 0);
            } else {
                reveal(Seq::filter);
            }
        }
        while i < self.feed_items.len()
            invariant
                i <= self.feed_items.len(),
                self@.items.len() == self.feed_items.len(),
                feeds == self@.feeds,
                p == |i: ItemRow| feed_in_group(feeds, i.feed_id, group_id),
                f == |i: ItemRow| listed_item(i),
                items.deep_view() == self@.items.take(i as int).filter(p).map_values(f),
            decreases self.feed_items.len() - i,
        {
            proof {
                lemma_filter_step(self@.items, p, i as int);
            }
            let ghost prev = items.deep_view();
            if self.feed_belongs(self.feed_items[i].feed_id, group_id) {
                items.push(listed(&self.feed_items[i]));
                assert(items.deep_view() =~= prev.push(listed_item(self@.items[i as int])));
                assert(self@.items.take(i + 1).filter(p).map_values(f) =~= prev.push(
                    listed_item(self@.items[i as int]),
                ));
            }
            i += 1;
        }
        assert(self@.items.take(i as int) == self@.items);
        Ok(items)
    }

    /// The feeds of one group: the synthetic "All Feeds" feed, stamped
    /// `now`, then the stored feeds of the group in insertion order.
    pub fn get_feeds_from_group(&self, group_id: i32, now: Timestamp) -> (r: Result<
        Vec<Feed>,
        DbError,
    >)
        ensures
            r matches Ok(feeds) && feeds.deep_view() == listed_feeds_of_group(self@, group_id, now),
    {
        let ghost p = |f: FeedRow| f.group_id == group_id;
        let all_feed = Feed {
            id: ALL_ID,
            group_id,
            name: "All Feeds".to_string(),
            desc: "See all feeds in this group".to_string(),
            url: String::new(),
            updated_at: now,
        };
        let mut feeds: Vec<Feed> = Vec::new();
        feeds.push(all_feed);
        let mut i: usize = 0;
        proof {
            if self@.feeds.len() > 0 {
                lemma_filter_step(self@.feeds, p, 0);
            } else {
                reveal(Seq::filter);
            }
            assert(feeds.deep_view() =~= seq![all_feeds_feed(group_id, now)]
                + self@.feeds.take(0).filter(p));
        }
        while i < self.feeds.len()
            invariant
                i <= self.feeds.len(),
                self@.feeds.len() == self.feeds.len(),
                p == |f: FeedRow| f.group_id == group_id,
                feeds.deep_view() == seq![all_feeds_feed(group_id, now)] + self@.feeds.take(
                    i as int,
                ).filter(p),
            decreases self.feeds.len() - i,
        {
            proof {
                lemma_filter_step(self@.feeds, p, i as int);
            }
            let ghost prev = feeds.deep_view();
            if self.feeds[i].group_id == group_id {
                feeds.push(self.feeds[i].clone());
                assert(feeds.deep_view() =~= prev.push(self@.feeds[i as int]));
                assert(seq![all_feeds_feed(group_id, now)] + self@.feeds.take(i + 1).filter(p)
                    =~= prev.push(self@.feeds[i as int]));
            }
            i += 1;
        }
        assert(self@.feeds.take(i as int) == self@.feeds);
        Ok(feeds)
    }
}

/// The date that an entry carries, read.
fn read_date(entry: &ChannelItem) -> (r: Option<Timestamp>)
    ensures
        r == entry_date(entry@),
{
    match &entry.pub_date {
        Some(text) => parse_timestamp(text.as_str()),
        None => None,
    }
}

/// The row that a document's entry is upserted as under the feed
/// `feed_id`, once its date was read as `date`: title, link and
/// description as the entry has them, or empty; unread and without
/// content; published at `date` or, where there is none, at `now`.
pub fn item_from_entry(
    entry: &ChannelItem,
    date: Option<Timestamp>,
    feed_id: i32,
    now: Timestamp,
) -> (r: FeedItem)
    ensures
        r@ == entry_row(entry@, date, feed_id, now),
{
    let title = match &entry.title {
        Some(t) => t.clone(),
        None => String::new(),
    };
    let url = match &entry.link {
        Some(l) => l.clone(),
        None => String::new(),
    };
    let desc = match &entry.description {
        Some(d) => d.clone(),
        None => String::new(),
    };
    let pub_date = match date {
        Some(date) => date,
        None => now,
    };
    FeedItem { id: 0, feed_id, title, url, desc, content: String::new(), read: false, pub_date }
}

/// The row that a configured feed is upserted as in the group
/// `group_id`: name and description from the configuration, or from the
/// document where the configuration has none; the configured link; stamped
/// `now`.
pub fn feed_from_channel(cfg: &FeedConfig, channel: &Channel, group_id: i32, now: Timestamp) -> (r:
    Feed)
    ensures
        r@ == feed_row(*cfg, channel@, group_id, now),
{
    let name = match &cfg.name {
        Some(n) => n.clone(),
        None => channel.title.clone(),
    };
    let desc = match &cfg.desc {
        Some(d) => d.clone(),
        None => channel.description.clone(),
    };
    Feed { id: 0, group_id, name, desc, url: cfg.link.clone(), updated_at: now }
}

impl Database {
    /// Upserts every entry of a document for the stored feed `feed_id`; an
    /// entry that the store refuses is passed over.
    fn refresh_items(&mut self, channel: &Channel, feed_id: i32, now: Timestamp)
        requires
            old(self).wf(),
        ensures
            final(self).wf(),
            final(self).config() == old(self).config(),
            final(self)@ == sync_items(
                old(self)@,
                channel@.items,
                feed_id,
                now,
                channel@.items.len() as int,
            ),
    {
        let ghost start = self@;
        let mut k: usize = 0;
        while k < channel.items.len()
            invariant
                k <= channel.items.len(),
                channel@.items.len() == channel.items.len(),
                self.wf(),
                self.config() == old(self).config(),
                self@ == sync_items(start, channel@.items, feed_id, now, k as int),
            decreases channel.items.len() - k,
        {
            let date = read_date(&channel.items[k]);
            let item = item_from_entry(&channel.items[k], date, feed_id, now);
            let _ = self.upsert_feed_item(item);
            k += 1;
        }
    }

    /// Merges a feed document for a configured feed of the group
    /// `group_id`: the feed row is upserted, then every entry of the
    /// document under the id of the stored feed; an entry that the store
    /// refuses is passed over. Where the store refuses the feed row,
    /// nothing changes.
    pub fn merge_channel(
        &mut self,
        cfg: &FeedConfig,
        channel: &Channel,
        group_id: i32,
        now: Timestamp,
    )
        requires
            old(self).wf(),
        ensures
            final(self).wf(),
            final(self).config() == old(self).config(),
            final(self)@ == merged_channel(old(self)@, *cfg, channel@, group_id, now),
    {
        let feed = feed_from_channel(cfg, channel, group_id, now);
        match self.upsert_feed(feed) {
            Ok(feed_id) => {
                self.refresh_items(channel, feed_id, now);
            },
            Err(_) => {},
        }
    }

    /// Refreshes one configured feed from the document fetched for it.
    fn refresh_feed(
        &mut self,
        cfg: &FeedConfig,
        doc: &Option<String>,
        group_id: i32,
        now: Timestamp,
    )
        requires
            old(self).wf(),
        ensures
            final(self).wf(),
            final(self).config() == old(self).config(),
            final(self)@ == sync_feed(old(self)@, *cfg, text_of(*doc), group_id, now),
    {
        let content = match doc {
            Some(content) => content,
            None => {
                return ;
            },
        };
        match read_channel(content.as_str()) {
            Ok(channel) => {
                self.merge_channel(cfg, &channel, group_id, now);
            },
            Err(_) => {},
        }
    }

    /// Refreshes one configured group from the documents fetched for its
    /// feeds.
    fn refresh_group(&mut self, group: &GroupConfig, docs: &Vec<Option<String>>, now: Timestamp)
        requires
            old(self).wf(),
        ensures
            final(self).wf(),
            final(self).config() == old(self).config(),
            final(self)@ == sync_group(old(self)@, *group, docs@, now),
    {
        let new_group = Group { id: 0, name: group.name.clone(), desc: group.desc.clone() };
        let group_id = match self.upsert_group(new_group) {
            Ok(id) => id,
            Err(_) => {
                return ;
            },
        };
        let ghost start = self@;
        let missing: Option<String> = None;
        let mut f: usize = 0;
        while f < group.feeds.len()
            invariant
                f <= group.feeds.len(),
                missing is None,
                self.wf(),
                self.config() == old(self).config(),
                self@ == sync_feeds(start, group.feeds@, docs@, group_id, now, f as int),
            decreases group.feeds.len() - f,
        {
            let doc = if f < docs.len() {
                &docs[f]
            } else {
                &missing
            };
            self.refresh_feed(&group.feeds[f], doc, group_id, now);
            f += 1;
        }
    }

    /// Walks the configured groups in order, and merges them, their feeds
    /// and the entries of the fetched documents into the tables.
    /// `documents` holds, for each configured group and each of its feeds,
    /// the document fetched for it, or `None` where the fetch failed; a
    /// document that is not there counts as failed. A group that the store
    /// refuses is skipped with its feeds; a feed whose document is missing,
    /// does not read as RSS or is refused is skipped alone; an entry that
    /// is refused is skipped alone. The refresh as a whole never fails, and
    /// without a configuration it does nothing.
    pub fn refresh_feeds(&mut self, documents: &Vec<Vec<Option<String>>>, now: Timestamp) -> (r:
        Result<(), DbError>)
        requires
            old(self).wf(),
        ensures
            r is Ok,
            final(self).wf(),
            final(self).config() == old(self).config(),
            final(self)@ == match old(self).config() {
                Some(config) => refreshed(old(self)@, config.groups@, documents@, now),
                None => old(self)@,
            },
    {
        let mut taken: Option<Config> = None;
        std::mem::swap(&mut taken, &mut self.config);
        let ghost start = self@;
        match &taken {
            Some(config) => {
                let none: Vec<Option<String>> = Vec::new();
                let mut g: usize = 0;
                while g < config.groups.len()
                    invariant
                        g <= config.groups.len(),
                        none@.len() == 0,
                        self.wf(),
                        self.config() is None,
                        self@ == sync_groups(start, config.groups@, documents@, now, g as int),
                    decreases config.groups.len() - g,
                {
                    let docs = if g < documents.len() {
                        &documents[g]
                    } else {
                        &none
                    };
                    assert(docs@ =~= docs_at(documents@, g as int));
                    self.refresh_group(&config.groups[g], docs, now);
                    g += 1;
                }
            },
            None => {},
        }
        self.config = taken;
        Ok(())
    }
}

/// The item as a listing shows it: a copy without the content.
fn listed(item: &FeedItem) -> (r: FeedItem)
    ensures
        r@ == listed_item(item@),
{
    FeedItem {
        id: item.id,
        feed_id: item.feed_id,
        title: item.title.clone(),
        url: item.url.clone(),
        desc: item.desc.clone(),
        content: String::new(),
        read: item.read,
        pub_date: item.pub_date,
    }
}

} // verus!
