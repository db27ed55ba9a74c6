//! The mathematical model of the three stored tables: rows, the rules the
//! tables obey, and what an upsert does to a table.

use vstd::prelude::*;

verus! {

/// A point in time: whole seconds since the Unix epoch and the nanoseconds
/// within that second.
#[derive(Debug, Clone, Copy, PartialEq, Eq, Hash, Structural)]
pub struct Timestamp {
    pub secs: i64,
    pub nanos: u32,
}

/// A row of the group table.
pub struct GroupRow {
    pub id: i32,
    pub name: Seq<char>,
    pub desc: Seq<char>,
}

/// A row of the feed table.
pub struct FeedRow {
    pub id: i32,
    pub group_id: i32,
    pub name: Seq<char>,
    pub desc: Seq<char>,
    pub url: Seq<char>,
    pub updated_at: Timestamp,
}

/// A row of the feed item table.
pub struct ItemRow {
    pub id: i32,
    pub feed_id: i32,
    pub title: Seq<char>,
    pub url: Seq<char>,
    pub desc: Seq<char>,
    pub content: Seq<char>,
    pub read: bool,
    pub pub_date: Timestamp,
}

/// The three tables, each in insertion order.
pub struct Tables {
    pub groups: Seq<GroupRow>,
    pub feeds: Seq<FeedRow>,
    pub items: Seq<ItemRow>,
}

/// The id of the synthetic "All Feeds" entries. No stored row has it.
pub const ALL_ID: i32 = -1;

/// The id the next inserted row gets, given the id of the last row.
pub open spec fn id_after(last: i32) -> int {
    last + 1
}

// ---------------------------------------------------------------- groups

/// Ids are positive and grow with the insertion order; names are unique.
pub open spec fn groups_wf(rows: Seq<GroupRow>) -> bool {
    &&& forall|i: int| 0 <= i < rows.len() ==> (#[trigger] rows[i]).id > 0
    &&& forall|i: int, j: int|
        0 <= i < j < rows.len() ==> (#[trigger] rows[i]).id < (#[trigger] rows[j]).id
    &&& forall|i: int, j: int|
        0 <= i < j < rows.len() ==> (#[trigger] rows[i]).name != (#[trigger] rows[j]).name
}

pub open spec fn has_group_named(rows: Seq<GroupRow>, name: Seq<char>) -> bool {
    exists|i: int| 0 <= i < rows.len() && (#[trigger] rows[i]).name == name
}

/// The place of the group with this name.
pub open spec fn group_named(rows: Seq<GroupRow>, name: Seq<char>) -> int {
    choose|i: int| 0 <= i < rows.len() && (#[trigger] rows[i]).name == name
}

pub open spec fn has_group_id(rows: Seq<GroupRow>, id: i32) -> bool {
    exists|i: int| 0 <= i < rows.len() && (#[trigger] rows[i]).id == id
}

/// The id a new group would get.
pub open spec fn next_group_id(rows: Seq<GroupRow>) -> int {
    if rows.len() == 0 {
        1
    } else {
        id_after(rows.last().id)
    }
}

/// Whether upserting a group of this name is accepted: it is unless the
/// name is new and the ids are used up.
pub open spec fn group_upsert_ok(rows: Seq<GroupRow>, name: Seq<char>) -> bool {
    has_group_named(rows, name) || next_group_id(rows) <= i32::MAX
}

/// The id of the row that an accepted upsert leaves for this name.
pub open spec fn upserted_group_id(rows: Seq<GroupRow>, name: Seq<char>) -> int {
    if has_group_named(rows, name) {
        rows[group_named(rows, name)].id as int
    } else {
        next_group_id(rows)
    }
}

/// The group table after an accepted upsert: on a known name the
/// description is replaced in place, else a row is appended.
pub open spec fn upsert_group_rows(rows: Seq<GroupRow>, name: Seq<char>, desc: Seq<char>) -> Seq<
    GroupRow,
> {
    if has_group_named(rows, name) {
        let i = group_named(rows, name);
        rows.update(i, GroupRow { id: rows[i].id, name, desc })
    } else {
        rows.push(GroupRow { id: next_group_id(rows) as i32, name, desc })
    }
}

// ----------------------------------------------------------------- feeds

/// Ids are positive and grow with the insertion order; urls are unique.
pub open spec fn feeds_wf(rows: Seq<FeedRow>) -> bool {
    &&& forall|i: int| 0 <= i < rows.len() ==> (#[trigger] rows[i]).id > 0
    &&& forall|i: int, j: int|
        0 <= i < j < rows.len() ==> (#[trigger] rows[i]).id < (#[trigger] rows[j]).id
    &&& forall|i: int, j: int|
        0 <= i < j < rows.len() ==> (#[trigger] rows[i]).url != (#[trigger] rows[j]).url
}

pub open spec fn has_feed_at(rows: Seq<FeedRow>, url: Seq<char>) -> bool {
    exists|i: int| 0 <= i < rows.len() && (#[trigger] rows[i]).url == url
}

/// The place of the feed with this url.
pub open spec fn feed_at(rows: Seq<FeedRow>, url: Seq<char>) -> int {
    choose|i: int| 0 <= i < rows.len() && (#[trigger] rows[i]).url == url
}

pub open spec fn has_feed_id(rows: Seq<FeedRow>, id: i32) -> bool {
    exists|i: int| 0 <= i < rows.len() && (#[trigger] rows[i]).id == id
}

/// The id a new feed would get.
pub open spec fn next_feed_id(rows: Seq<FeedRow>) -> int {
    if rows.len() == 0 {
        1
    } else {
        id_after(rows.last().id)
    }
}

/// The feed row as stored after an upsert of `feed` over the row `old`:
/// id, group and url stay, the rest is taken from `feed`.
pub open spec fn merged_feed(old: FeedRow, feed: FeedRow) -> FeedRow {
    FeedRow {
        id: old.id,
        group_id: old.group_id,
        name: feed.name,
        desc: feed.desc,
        url: old.url,
        updated_at: feed.updated_at,
    }
}

/// The id of the row that an accepted upsert leaves for this url.
pub open spec fn upserted_feed_id(rows: Seq<FeedRow>, url: Seq<char>) -> int {
    if has_feed_at(rows, url) {
        rows[feed_at(rows, url)].id as int
    } else {
        next_feed_id(rows)
    }
}

/// The feed table after an accepted upsert.
pub open spec fn upsert_feed_rows(rows: Seq<FeedRow>, feed: FeedRow) -> Seq<FeedRow> {
    if has_feed_at(rows, feed.url) {
        let i = feed_at(rows, feed.url);
        rows.update(i, merged_feed(rows[i], feed))
    } else {
        rows.push(
            FeedRow {
                id: next_feed_id(rows) as i32,
                group_id: feed.group_id,
                name: feed.name,
                desc: feed.desc,
                url: feed.url,
                updated_at: feed.updated_at,
            },
        )
    }
}

// ----------------------------------------------------------------- items

/// Ids are positive and grow with the insertion order; urls are unique.
pub open spec fn items_wf(rows: Seq<ItemRow>) -> bool {
    &&& forall|i: int| 0 <= i < rows.len() ==> (#[trigger] rows[i]).id > 0
    &&& forall|i: int, j: int|
        0 <= i < j < rows.len() ==> (#[trigger] rows[i]).id < (#[trigger] rows[j]).id
    &&& forall|i: int, j: int|
        0 <= i < j < rows.len() ==> (#[trigger] rows[i]).url != (#[trigger] rows[j]).url
}

pub open spec fn has_item_at(rows: Seq<ItemRow>, url: Seq<char>) -> bool {
    exists|i: int| 0 <= i < rows.len() && (#[trigger] rows[i]).url == url
}

/// The place of the item with this url.
pub open spec fn item_at(rows: Seq<ItemRow>, url: Seq<char>) -> int {
    choose|i: int| 0 <= i < rows.len() && (#[trigger] rows[i]).url == url
}

/// The id a new item would get.
pub open spec fn next_item_id(rows: Seq<ItemRow>) -> int {
    if rows.len() == 0 {
        1
    } else {
        id_after(rows.last().id)
    }
}

/// The item row as stored after an upsert of `item` over the row `old`:
/// id, feed and url stay, the rest is taken from `item`.
pub open spec fn merged_item(old: ItemRow, item: ItemRow) -> ItemRow {
    ItemRow {
        id: old.id,
        feed_id: old.feed_id,
        title: item.title,
        url: old.url,
        desc: item.desc,
        content: item.content,
        read: item.read,
        pub_date: item.pub_date,
    }
}

/// The id of the row that an accepted upsert leaves for this url.
pub open spec fn upserted_item_id(rows: Seq<ItemRow>, url: Seq<char>) -> int {
    if has_item_at(rows, url) {
        rows[item_at(rows, url)].id as int
    } else {
        next_item_id(rows)
    }
}

/// The item table after an accepted upsert.
pub open spec fn upsert_item_rows(rows: Seq<ItemRow>, item: ItemRow) -> Seq<ItemRow> {
    if has_item_at(rows, item.url) {
        let i = item_at(rows, item.url);
        rows.update(i, merged_item(rows[i], item))
    } else {
        rows.push(
            ItemRow {
                id: next_item_id(rows) as i32,
                feed_id: item.feed_id,
                title: item.title,
                url: item.url,
                desc: item.desc,
                content: item.content,
                read: item.read,
                pub_date: item.pub_date,
            },
        )
    }
}

// ---------------------------------------------------------------- tables

/// The rules of the store: each table is well formed, every feed belongs to
/// a stored group and every item to a stored feed.
pub open spec fn tables_wf(t: Tables) -> bool {
    &&& groups_wf(t.groups)
    &&& feeds_wf(t.feeds)
    &&& items_wf(t.items)
    &&& forall|i: int|
        0 <= i < t.feeds.len() ==> has_group_id(t.groups, (#[trigger] t.feeds[i]).group_id)
    &&& forall|i: int|
        0 <= i < t.items.len() ==> has_feed_id(t.feeds, (#[trigger] t.items[i]).feed_id)
}

pub open spec fn empty_tables() -> Tables {
    Tables { groups: Seq::empty(), feeds: Seq::empty(), items: Seq::empty() }
}

/// Whether upserting this feed is accepted: a known url always is; a new
/// one needs a stored group to belong to and a free id.
pub open spec fn feed_upsert_ok(t: Tables, feed: FeedRow) -> bool {
    has_feed_at(t.feeds, feed.url) || (has_group_id(t.groups, feed.group_id) && next_feed_id(
        t.feeds,
    ) <= i32::MAX)
}

/// Whether upserting this item is accepted: a known url always is; a new
/// one needs a stored feed to belong to and a free id.
pub open spec fn item_upsert_ok(t: Tables, item: ItemRow) -> bool {
    has_item_at(t.items, item.url) || (has_feed_id(t.feeds, item.feed_id) && next_item_id(t.items)
        <= i32::MAX)
}

/// The tables after an upsert of a group; a refused upsert changes nothing.
pub open spec fn upsert_group(t: Tables, name: Seq<char>, desc: Seq<char>) -> Tables {
    if group_upsert_ok(t.groups, name) {
        Tables { groups: upsert_group_rows(t.groups, name, desc), ..t }
    } else {
        t
    }
}

/// The tables after an upsert of a feed; a refused upsert changes nothing.
pub open spec fn upsert_feed(t: Tables, feed: FeedRow) -> Tables {
    if feed_upsert_ok(t, feed) {
        Tables { feeds: upsert_feed_rows(t.feeds, feed), ..t }
    } else {
        t
    }
}

/// The tables after an upsert of an item; a refused upsert changes nothing.
pub open spec fn upsert_item(t: Tables, item: ItemRow) -> Tables {
    if item_upsert_ok(t, item) {
        Tables { items: upsert_item_rows(t.items, item), ..t }
    } else {
        t
    }
}

// ------------------------------------------------------------- listings

/// The synthetic group that stands for all groups.
pub open spec fn all_feeds_group() -> GroupRow {
    GroupRow { id: ALL_ID, name: "All Feeds"@, desc: "See all feeds in all groups"@ }
}

/// The synthetic feed that stands for all feeds of a group.
pub open spec fn all_feeds_feed(group_id: i32, now: Timestamp) -> FeedRow {
    FeedRow {
        id: ALL_ID,
        group_id,
        name: "All Feeds"@,
        desc: "See all feeds in this group"@,
        url: Seq::empty(),
        updated_at: now,
    }
}

/// An item as a listing shows it: without its content.
pub open spec fn listed_item(item: ItemRow) -> ItemRow {
    ItemRow { content: Seq::empty(), ..item }
}

/// The listing of all groups: the synthetic group, then the stored ones.
pub open spec fn listed_groups(t: Tables) -> Seq<GroupRow> {
    seq![all_feeds_group()] + t.groups
}

/// The stored feeds of a group, in insertion order.
pub open spec fn feeds_of_group(t: Tables, group_id: i32) -> Seq<FeedRow> {
    t.feeds.filter(|f: FeedRow| f.group_id == group_id)
}

/// The listing of a group's feeds: the synthetic feed, then the stored ones.
pub open spec fn listed_feeds_of_group(t: Tables, group_id: i32, now: Timestamp) -> Seq<FeedRow> {
    seq![all_feeds_feed(group_id, now)] + feeds_of_group(t, group_id)
}

/// The listing of all items.
pub open spec fn listed_items(t: Tables) -> Seq<ItemRow> {
    t.items.map_values(|i: ItemRow| listed_item(i))
}

/// The listing of the items of a feed.
pub open spec fn listed_items_of_feed(t: Tables, feed_id: i32) -> Seq<ItemRow> {
    t.items.filter(|i: ItemRow| i.feed_id == feed_id).map_values(|i: ItemRow| listed_item(i))
}

/// Whether the feed with this id belongs to the group.
pub open spec fn feed_in_group(feeds: Seq<FeedRow>, feed_id: i32, group_id: i32) -> bool {
    exists|k: int|
        0 <= k < feeds.len() && (#[trigger] feeds[k]).id == feed_id && feeds[k].group_id
            == group_id
}

/// The listing of the items of all feeds of a group.
pub open spec fn listed_items_of_group(t: Tables, group_id: i32) -> Seq<ItemRow> {
    t.items.filter(|i: ItemRow| feed_in_group(t.feeds, i.feed_id, group_id)).map_values(
        |i: ItemRow| listed_item(i),
    )
}

/// The id of the group with this name, or the synthetic id where none has it.
pub open spec fn group_id_of(t: Tables, name: Seq<char>) -> i32 {
    if has_group_named(t.groups, name) {
        t.groups[group_named(t.groups, name)].id
    } else {
        ALL_ID
    }
}

// ------------------------------------------------------------------ laws

/// Filtering one more element of a sequence either appends it or not.
pub proof fn lemma_filter_step<A>(s: Seq<A>, p: spec_fn(A) -> bool, i: int)
    requires
        0 <= i < s.len(),
    ensures
        s.take(i + 1).filter(p) == if p(s[i]) {
            s.take(i).filter(p).push(s[i])
        } else {
            s.take(i).filter(p)
        },
        s.take(0).filter(p) == Seq::<A>::empty(),
{
    reveal(Seq::filter);
    assert(s.take(i + 1).drop_last() =~= s.take(i));
    assert(s.take(0).filter(p) =~= Seq::<A>::empty());
}

/// A group name found at a place is the place the model speaks of.
pub proof fn lemma_group_named(rows: Seq<GroupRow>, name: Seq<char>, i: int)
    requires
        groups_wf(rows),
        0 <= i < rows.len(),
        rows[i].name == name,
    ensures
        has_group_named(rows, name),
        group_named(rows, name) == i,
{
    let j = group_named(rows, name);
    if j < i {
        assert(rows[j].name != rows[i].name);
    } else if i < j {
        assert(rows[i].name != rows[j].name);
    }
}

/// A feed url found at a place is the place the model speaks of.
pub proof fn lemma_feed_at(rows: Seq<FeedRow>, url: Seq<char>, i: int)
    requires
        feeds_wf(rows),
        0 <= i < rows.len(),
        rows[i].url == url,
    ensures
        has_feed_at(rows, url),
        feed_at(rows, url) == i,
{
    let j = feed_at(rows, url);
    if j < i {
        assert(rows[j].url != rows[i].url);
    } else if i < j {
        assert(rows[i].url != rows[j].url);
    }
}

/// An item url found at a place is the place the model speaks of.
pub proof fn lemma_item_at(rows: Seq<ItemRow>, url: Seq<char>, i: int)
    requires
        items_wf(rows),
        0 <= i < rows.len(),
        rows[i].url == url,
    ensures
        has_item_at(rows, url),
        item_at(rows, url) == i,
{
    let j = item_at(rows, url);
    if j < i {
        assert(rows[j].url != rows[i].url);
    } else if i < j {
        assert(rows[i].url != rows[j].url);
    }
}

/// The last row of a well-formed table has the largest id.
proof fn lemma_last_group_id(rows: Seq<GroupRow>, a: int)
    requires
        groups_wf(rows),
        0 <= a < rows.len(),
    ensures
        0 < rows[a].id <= rows.last().id,
{
    if a < rows.len() - 1 {
        assert(rows[a].id < rows[rows.len() - 1].id);
    }
}

proof fn lemma_last_feed_id(rows: Seq<FeedRow>, a: int)
    requires
        feeds_wf(rows),
        0 <= a < rows.len(),
    ensures
        0 < rows[a].id <= rows.last().id,
{
    if a < rows.len() - 1 {
        assert(rows[a].id < rows[rows.len() - 1].id);
    }
}

proof fn lemma_last_item_id(rows: Seq<ItemRow>, a: int)
    requires
        items_wf(rows),
        0 <= a < rows.len(),
    ensures
        0 < rows[a].id <= rows.last().id,
{
    if a < rows.len() - 1 {
        assert(rows[a].id < rows[rows.len() - 1].id);
    }
}

/// An upsert of a group keeps the rules of the store.
pub proof fn lemma_upsert_group_wf(t: Tables, name: Seq<char>, desc: Seq<char>)
    requires
        tables_wf(t),
    ensures
        tables_wf(upsert_group(t, name, desc)),
{
    if group_upsert_ok(t.groups, name) {
        let rows = t.groups;
        let new = upsert_group_rows(rows, name, desc);
        if has_group_named(rows, name) {
            let i = group_named(rows, name);
            assert forall|a: int| 0 <= a < new.len() implies (#[trigger] new[a]).id > 0 by {
                assert(rows[a].id > 0);
            }
            assert forall|a: int, b: int| 0 <= a < b < new.len() implies (#[trigger] new[a]).id < (
            #[trigger] new[b]).id && new[a].name != new[b].name by {
                assert(rows[a].id < rows[b].id);
                assert(rows[a].name != rows[b].name);
            }
        } else {
            assert forall|a: int| 0 <= a < new.len() implies (#[trigger] new[a]).id > 0 by {
                if a < rows.len() {
                    assert(rows[a].id > 0);
                } else if rows.len() > 0 {
                    lemma_last_group_id(rows, rows.len() - 1);
                }
            }
            assert forall|a: int, b: int| 0 <= a < b < new.len() implies (#[trigger] new[a]).id < (
            #[trigger] new[b]).id && new[a].name != new[b].name by {
                if b < rows.len() {
                    assert(rows[a].id < rows[b].id);
                    assert(rows[a].name != rows[b].name);
                } else {
                    lemma_last_group_id(rows, a);
                    assert(rows[a].name != name);
                }
            }
        }
        assert forall|k: int| 0 <= k < t.feeds.len() implies has_group_id(
            new,
            (#[trigger] t.feeds[k]).group_id,
        ) by {
            let g = t.feeds[k].group_id;
            assert(has_group_id(rows, g));
            let w = choose|w: int| 0 <= w < rows.len() && (#[trigger] rows[w]).id == g;
            assert(new[w].id == g);
        }
    }
}

/// An upsert of a feed keeps the rules of the store.
pub proof fn lemma_upsert_feed_wf(t: Tables, feed: FeedRow)
    requires
        tables_wf(t),
    ensures
        tables_wf(upsert_feed(t, feed)),
{
    if feed_upsert_ok(t, feed) {
        let rows = t.feeds;
        let new = upsert_feed_rows(rows, feed);
        if has_feed_at(rows, feed.url) {
            let i = feed_at(rows, feed.url);
            assert forall|a: int| 0 <= a < new.len() implies (#[trigger] new[a]).id > 0 by {
                assert(rows[a].id > 0);
            }
            assert forall|a: int, b: int| 0 <= a < b < new.len() implies (#[trigger] new[a]).id < (
            #[trigger] new[b]).id && new[a].url != new[b].url by {
                assert(rows[a].id < rows[b].id);
                assert(rows[a].url != rows[b].url);
            }
            assert forall|k: int| 0 <= k < new.len() implies has_group_id(
                t.groups,
                (#[trigger] new[k]).group_id,
            ) by {
                assert(has_group_id(t.groups, rows[k].group_id));
            }
        } else {
            assert forall|a: int| 0 <= a < new.len() implies (#[trigger] new[a]).id > 0 by {
                if a < rows.len() {
                    assert(rows[a].id > 0);
                } else if rows.len() > 0 {
                    lemma_last_feed_id(rows, rows.len() - 1);
                }
            }
            assert forall|a: int, b: int| 0 <= a < b < new.len() implies (#[trigger] new[a]).id < (
            #[trigger] new[b]).id && new[a].url != new[b].url by {
                if b < rows.len() {
                    assert(rows[a].id < rows[b].id);
                    assert(rows[a].url != rows[b].url);
                } else {
                    lemma_last_feed_id(rows, a);
                    assert(rows[a].url != feed.url);
                }
            }
            assert forall|k: int| 0 <= k < new.len() implies has_group_id(
                t.groups,
                (#[trigger] new[k]).group_id,
            ) by {
                if k < rows.len() {
                    assert(has_group_id(t.groups, rows[k].group_id));
                }
            }
        }
        assert forall|k: int| 0 <= k < t.items.len() implies has_feed_id(
            new,
            (#[trigger] t.items[k]).feed_id,
        ) by {
            let f = t.items[k].feed_id;
            assert(has_feed_id(rows, f));
            let w = choose|w: int| 0 <= w < rows.len() && (#[trigger] rows[w]).id == f;
            assert(new[w].id == f);
        }
    }
}

/// An upsert of an item keeps the rules of the store.
pub proof fn lemma_upsert_item_wf(t: Tables, item: ItemRow)
    requires
        tables_wf(t),
    ensures
        tables_wf(upsert_item(t, item)),
{
    if item_upsert_ok(t, item) {
        let rows = t.items;
        let new = upsert_item_rows(rows, item);
        if has_item_at(rows, item.url) {
            let i = item_at(rows, item.url);
            assert forall|a: int| 0 <= a < new.len() implies (#[trigger] new[a]).id > 0 by {
                assert(rows[a].id > 0);
            }
            assert forall|a: int, b: int| 0 <= a < b < new.len() implies (#[trigger] new[a]).id < (
            #[trigger] new[b]).id && new[a].url != new[b].url by {
                assert(rows[a].id < rows[b].id);
                assert(rows[a].url != rows[b].url);
            }
            assert forall|k: int| 0 <= k < new.len() implies has_feed_id(
                t.feeds,
                (#[trigger] new[k]).feed_id,
            ) by {
                assert(has_feed_id(t.feeds, rows[k].feed_id));
            }
        } else {
            assert forall|a: int| 0 <= a < new.len() implies (#[trigger] new[a]).id > 0 by {
                if a < rows.len() {
                    assert(rows[a].id > 0);
                } else if rows.len() > 0 {
                    lemma_last_item_id(rows, rows.len() - 1);
                }
            }
            assert forall|a: int, b: int| 0 <= a < b < new.len() implies (#[trigger] new[a]).id < (
            #[trigger] new[b]).id && new[a].url != new[b].url by {
                if b < rows.len() {
                    assert(rows[a].id < rows[b].id);
                    assert(rows[a].url != rows[b].url);
                } else {
                    lemma_last_item_id(rows, a);
                    assert(rows[a].url != item.url);
                }
            }
            assert forall|k: int| 0 <= k < new.len() implies has_feed_id(
                t.feeds,
                (#[trigger] new[k]).feed_id,
            ) by {
                if k < rows.len() {
                    assert(has_feed_id(t.feeds, rows[k].feed_id));
                }
            }
        }
    }
}

/// No stored row carries the id of the synthetic entries.
pub proof fn law_synthetic_id_is_free(t: Tables)
    requires
        tables_wf(t),
    ensures
        !has_group_id(t.groups, ALL_ID),
        !has_feed_id(t.feeds, ALL_ID),
        forall|i: int| 0 <= i < t.items.len() ==> (#[trigger] t.items[i]).id != ALL_ID,
{
}

/// Upserting the same group twice is upserting it once: the second upsert
/// changes no table, adds no row and returns the id of the first.
pub proof fn law_upsert_group_idempotent(t: Tables, name: Seq<char>, desc: Seq<char>)
    requires
        tables_wf(t),
    ensures
        ({
            let once = upsert_group(t, name, desc);
            &&& upsert_group(once, name, desc) == once
            &&& group_upsert_ok(t.groups, name) ==> {
                &&& group_upsert_ok(once.groups, name)
                &&& upserted_group_id(once.groups, name) == upserted_group_id(t.groups, name)
                &&& forall|j: int|
                    0 <= j < once.groups.len() && (#[trigger] once.groups[j]).name == name ==> j
                        == group_named(once.groups, name)
            }
        }),
{
    let once = upsert_group(t, name, desc);
    lemma_upsert_group_wf(t, name, desc);
    if group_upsert_ok(t.groups, name) {
        let i = if has_group_named(t.groups, name) {
            group_named(t.groups, name)
        } else {
            t.groups.len() as int
        };
        assert(once.groups[i].name == name);
        lemma_group_named(once.groups, name, i);
        assert(upsert_group_rows(once.groups, name, desc) =~= once.groups);
        assert forall|j: int|
            0 <= j < once.groups.len() && (#[trigger] once.groups[j]).name == name implies j
            == group_named(once.groups, name) by {
            lemma_group_named(once.groups, name, j);
        }
    }
}

/// Upserting the same feed twice is upserting it once.
pub proof fn law_upsert_feed_idempotent(t: Tables, feed: FeedRow)
    requires
        tables_wf(t),
    ensures
        ({
            let once = upsert_feed(t, feed);
            &&& upsert_feed(once, feed) == once
            &&& feed_upsert_ok(t, feed) ==> {
                &&& feed_upsert_ok(once, feed)
                &&& upserted_feed_id(once.feeds, feed.url) == upserted_feed_id(t.feeds, feed.url)
                &&& forall|j: int|
                    0 <= j < once.feeds.len() && (#[trigger] once.feeds[j]).url == feed.url ==> j
                        == feed_at(once.feeds, feed.url)
            }
        }),
{
    let once = upsert_feed(t, feed);
    lemma_upsert_feed_wf(t, feed);
    if feed_upsert_ok(t, feed) {
        let i = if has_feed_at(t.feeds, feed.url) {
            feed_at(t.feeds, feed.url)
        } else {
            t.feeds.len() as int
        };
        assert(once.feeds[i].url == feed.url);
        lemma_feed_at(once.feeds, feed.url, i);
        assert(upsert_feed_rows(once.feeds, feed) =~= once.feeds);
        assert forall|j: int|
            0 <= j < once.feeds.len() && (#[trigger] once.feeds[j]).url == feed.url implies j
            == feed_at(once.feeds, feed.url) by {
            lemma_feed_at(once.feeds, feed.url, j);
        }
    } else {
        assert(!feed_upsert_ok(once, feed));
    }
}

/// Upserting the same item twice is upserting it once.
pub proof fn law_upsert_item_idempotent(t: Tables, item: ItemRow)
    requires
        tables_wf(t),
    ensures
        ({
            let once = upsert_item(t, item);
            &&& upsert_item(once, item) == once
            &&& item_upsert_ok(t, item) ==> {
                &&& item_upsert_ok(once, item)
                &&& upserted_item_id(once.items, item.url) == upserted_item_id(t.items, item.url)
                &&& forall|j: int|
                    0 <= j < once.items.len() && (#[trigger] once.items[j]).url == item.url ==> j
                        == item_at(once.items, item.url)
            }
        }),
{
    let once = upsert_item(t, item);
    lemma_upsert_item_wf(t, item);
    if item_upsert_ok(t, item) {
        let i = if has_item_at(t.items, item.url) {
            item_at(t.items, item.url)
        } else {
            t.items.len() as int
        };
        assert(once.items[i].url == item.url);
        lemma_item_at(once.items, item.url, i);
        assert(upsert_item_rows(once.items, item) =~= once.items);
        assert forall|j: int|
            0 <= j < once.items.len() && (#[trigger] once.items[j]).url == item.url implies j
            == item_at(once.items, item.url) by {
            lemma_item_at(once.items, item.url, j);
        }
    } else {
        assert(!item_upsert_ok(once, item));
    }
}

/// Upserting a feed whose url is stored is accepted and merges: the row
/// keeps its place, id, group and url and takes name, description and time
/// from the upsert; every other row of every table stays as it was.
pub proof fn law_upsert_feed_merges(t: Tables, feed: FeedRow, i: int)
    requires
        tables_wf(t),
        0 <= i < t.feeds.len(),
        t.feeds[i].url == feed.url,
    ensures
        feed_upsert_ok(t, feed),
        upserted_feed_id(t.feeds, feed.url) == t.feeds[i].id,
        upsert_feed(t, feed).groups == t.groups,
        upsert_feed(t, feed).items == t.items,
        upsert_feed(t, feed).feeds == t.feeds.update(
            i,
            FeedRow {
                name: feed.name,
                desc: feed.desc,
                updated_at: feed.updated_at,
                ..t.feeds[i]
            },
        ),
{
    lemma_feed_at(t.feeds, feed.url, i);
}

/// Upserting an item whose url is stored is accepted and merges: the row
/// keeps its place, id, feed and url and takes the rest from the upsert.
pub proof fn law_upsert_item_merges(t: Tables, item: ItemRow, i: int)
    requires
        tables_wf(t),
        0 <= i < t.items.len(),
        t.items[i].url == item.url,
    ensures
        item_upsert_ok(t, item),
        upserted_item_id(t.items, item.url) == t.items[i].id,
        upsert_item(t, item).groups == t.groups,
        upsert_item(t, item).feeds == t.feeds,
        upsert_item(t, item).items == t.items.update(
            i,
            ItemRow { id: t.items[i].id, feed_id: t.items[i].feed_id, url: t.items[i].url, ..item },
        ),
{
    lemma_item_at(t.items, item.url, i);
}

/// Upserting a group whose name is stored is accepted and merges: the row
/// keeps its place, id and name and takes the description from the upsert.
pub proof fn law_upsert_group_merges(t: Tables, name: Seq<char>, desc: Seq<char>, i: int)
    requires
        tables_wf(t),
        0 <= i < t.groups.len(),
        t.groups[i].name == name,
    ensures
        group_upsert_ok(t.groups, name),
        upserted_group_id(t.groups, name) == t.groups[i].id,
        upsert_group(t, name, desc).feeds == t.feeds,
        upsert_group(t, name, desc).items == t.items,
        upsert_group(t, name, desc).groups == t.groups.update(i, GroupRow { desc, ..t.groups[i] }),
{
    lemma_group_named(t.groups, name, i);
}

} // verus!
