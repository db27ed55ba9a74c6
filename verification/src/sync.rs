//! What a refresh does to the tables: the configured groups and feeds are
//! walked in order, every failure skips as little as it can, and the walk
//! always reaches the end.

use crate::channel::{parsed_channel, parsed_timestamp, text_of, ChannelItemView, ChannelView};
use crate::config::{FeedConfig, GroupConfig};
use crate::tables::{
    feed_upsert_ok, group_upsert_ok, has_feed_at, has_feed_id, has_group_id, has_item_at,
    lemma_upsert_feed_wf, lemma_upsert_group_wf, lemma_upsert_item_wf, next_feed_id,
    next_item_id, tables_wf, upsert_feed, upsert_group, upsert_item, upserted_feed_id,
    upserted_group_id, FeedRow, ItemRow, Tables, Timestamp,
};
use vstd::prelude::*;

verus! {

/// The text, or the empty text where there is none.
pub open spec fn text_or_empty(text: Option<Seq<char>>) -> Seq<char> {
    match text {
        Some(t) => t,
        None => Seq::empty(),
    }
}

/// The row that a document's entry is upserted as, once its date was
/// read as `date`: unread, without content, published at that date or,
/// where there is none, at `now`.
pub open spec fn entry_row(
    item: ChannelItemView,
    date: Option<Timestamp>,
    feed_id: i32,
    now: Timestamp,
) -> ItemRow {
    ItemRow {
        id: 0,
        feed_id,
        title: text_or_empty(item.title),
        url: text_or_empty(item.link),
        desc: text_or_empty(item.description),
        content: Seq::empty(),
        read: false,
        pub_date: match date {
            Some(date) => date,
            None => now,
        },
    }
}

/// The date that an entry carries: none where it has no date, or one
/// that does not read as a date.
pub open spec fn entry_date(item: ChannelItemView) -> Option<Timestamp> {
    match item.pub_date {
        Some(text) => parsed_timestamp(text),
        None => None,
    }
}

/// The row that a document's entry is upserted as.
pub open spec fn item_row(item: ChannelItemView, feed_id: i32, now: Timestamp) -> ItemRow {
    entry_row(item, entry_date(item), feed_id, now)
}

/// The row that a configured feed is upserted as: name and description
/// from the configuration, or from the document where the configuration
/// has none.
pub open spec fn feed_row(cfg: FeedConfig, channel: ChannelView, group_id: i32, now: Timestamp)
    -> FeedRow {
    FeedRow {
        id: 0,
        group_id,
        name: match text_of(cfg.name) {
            Some(n) => n,
            None => channel.title,
        },
        desc: match text_of(cfg.desc) {
            Some(d) => d,
            None => channel.description,
        },
        url: cfg.link@,
        updated_at: now,
    }
}

/// The tables after the first `n` entries of a document were upserted. A
/// refused entry is passed over.
pub open spec fn sync_items(
    t: Tables,
    items: Seq<ChannelItemView>,
    feed_id: i32,
    now: Timestamp,
    n: int,
) -> Tables
    decreases n,
{
    if n <= 0 {
        t
    } else {
        upsert_item(sync_items(t, items, feed_id, now, n - 1), item_row(items[n - 1], feed_id, now))
    }
}

/// The tables after a feed document was merged for a configured feed:
/// the feed row is upserted, then every entry of the document under the
/// id of the stored feed. Where the store refuses the feed row, nothing
/// changes.
pub open spec fn merged_channel(
    t: Tables,
    cfg: FeedConfig,
    channel: ChannelView,
    group_id: i32,
    now: Timestamp,
) -> Tables {
    let feed = feed_row(cfg, channel, group_id, now);
    if feed_upsert_ok(t, feed) {
        sync_items(
            upsert_feed(t, feed),
            channel.items,
            upserted_feed_id(t.feeds, feed.url) as i32,
            now,
            channel.items.len() as int,
        )
    } else {
        t
    }
}

/// The tables after one configured feed was refreshed from its document:
/// a feed whose document was not fetched or does not read as RSS is
/// skipped; any other document is merged.
pub open spec fn sync_feed(
    t: Tables,
    cfg: FeedConfig,
    doc: Option<Seq<char>>,
    group_id: i32,
    now: Timestamp,
) -> Tables {
    match doc {
        None => t,
        Some(content) => match parsed_channel(content) {
            None => t,
            Some(channel) => merged_channel(t, cfg, channel, group_id, now),
        },
    }
}

/// The document fetched for the feed at place `k` of a group: none where
/// the fetch failed or nothing was handed over.
pub open spec fn doc_at(docs: Seq<Option<String>>, k: int) -> Option<Seq<char>> {
    if 0 <= k < docs.len() {
        text_of(docs[k])
    } else {
        None
    }
}

/// The tables after the first `n` feeds of a group were refreshed.
pub open spec fn sync_feeds(
    t: Tables,
    feeds: Seq<FeedConfig>,
    docs: Seq<Option<String>>,
    group_id: i32,
    now: Timestamp,
    n: int,
) -> Tables
    decreases n,
{
    if n <= 0 {
        t
    } else {
        sync_feed(
            sync_feeds(t, feeds, docs, group_id, now, n - 1),
            feeds[n - 1],
            doc_at(docs, n - 1),
            group_id,
            now,
        )
    }
}

/// The documents fetched for the group at place `k`.
pub open spec fn docs_at(docs: Seq<Vec<Option<String>>>, k: int) -> Seq<Option<String>> {
    if 0 <= k < docs.len() {
        docs[k]@
    } else {
        Seq::empty()
    }
}

/// The tables after one configured group was refreshed: where the store
/// refuses the group, none of its feeds is touched.
pub open spec fn sync_group(t: Tables, group: GroupConfig, docs: Seq<Option<String>>, now: Timestamp)
    -> Tables {
    if group_upsert_ok(t.groups, group.name@) {
        sync_feeds(
            upsert_group(t, group.name@, group.desc@),
            group.feeds@,
            docs,
            upserted_group_id(t.groups, group.name@) as i32,
            now,
            group.feeds@.len() as int,
        )
    } else {
        t
    }
}

/// The tables after the first `n` configured groups were refreshed.
pub open spec fn sync_groups(
    t: Tables,
    groups: Seq<GroupConfig>,
    docs: Seq<Vec<Option<String>>>,
    now: Timestamp,
    n: int,
) -> Tables
    decreases n,
{
    if n <= 0 {
        t
    } else {
        sync_group(sync_groups(t, groups, docs, now, n - 1), groups[n - 1], docs_at(docs, n - 1), now)
    }
}

/// The tables after a refresh over the whole configuration.
pub open spec fn refreshed(
    t: Tables,
    groups: Seq<GroupConfig>,
    docs: Seq<Vec<Option<String>>>,
    now: Timestamp,
) -> Tables {
    sync_groups(t, groups, docs, now, groups.len() as int)
}

/// Upserting entries keeps the rules of the store.
proof fn lemma_sync_items_wf(
    t: Tables,
    items: Seq<ChannelItemView>,
    feed_id: i32,
    now: Timestamp,
    n: int,
)
    requires
        tables_wf(t),
    ensures
        tables_wf(sync_items(t, items, feed_id, now, n)),
    decreases n,
{
    if n > 0 {
        lemma_sync_items_wf(t, items, feed_id, now, n - 1);
        lemma_upsert_item_wf(
            sync_items(t, items, feed_id, now, n - 1),
            item_row(items[n - 1], feed_id, now),
        );
    }
}

/// Merging a document keeps the rules of the store.
pub proof fn law_merge_keeps_the_rules(
    t: Tables,
    cfg: FeedConfig,
    channel: ChannelView,
    group_id: i32,
    now: Timestamp,
)
    requires
        tables_wf(t),
    ensures
        tables_wf(merged_channel(t, cfg, channel, group_id, now)),
{
    let feed = feed_row(cfg, channel, group_id, now);
    if feed_upsert_ok(t, feed) {
        lemma_upsert_feed_wf(t, feed);
        lemma_sync_items_wf(
            upsert_feed(t, feed),
            channel.items,
            upserted_feed_id(t.feeds, feed.url) as i32,
            now,
            channel.items.len() as int,
        );
    }
}

/// Refreshing a feed keeps the rules of the store.
proof fn lemma_sync_feed_wf(
    t: Tables,
    cfg: FeedConfig,
    doc: Option<Seq<char>>,
    group_id: i32,
    now: Timestamp,
)
    requires
        tables_wf(t),
    ensures
        tables_wf(sync_feed(t, cfg, doc, group_id, now)),
{
    if doc is Some && parsed_channel(doc->0) is Some {
        law_merge_keeps_the_rules(t, cfg, parsed_channel(doc->0)->0, group_id, now);
    }
}

/// Refreshing feeds keeps the rules of the store.
proof fn lemma_sync_feeds_wf(
    t: Tables,
    feeds: Seq<FeedConfig>,
    docs: Seq<Option<String>>,
    group_id: i32,
    now: Timestamp,
    n: int,
)
    requires
        tables_wf(t),
    ensures
        tables_wf(sync_feeds(t, feeds, docs, group_id, now, n)),
    decreases n,
{
    if n > 0 {
        lemma_sync_feeds_wf(t, feeds, docs, group_id, now, n - 1);
        lemma_sync_feed_wf(
            sync_feeds(t, feeds, docs, group_id, now, n - 1),
            feeds[n - 1],
            doc_at(docs, n - 1),
            group_id,
            now,
        );
    }
}

/// Refreshing groups keeps the rules of the store.
proof fn lemma_sync_groups_wf(
    t: Tables,
    groups: Seq<GroupConfig>,
    docs: Seq<Vec<Option<String>>>,
    now: Timestamp,
    n: int,
)
    requires
        tables_wf(t),
    ensures
        tables_wf(sync_groups(t, groups, docs, now, n)),
    decreases n,
{
    if n > 0 {
        lemma_sync_groups_wf(t, groups, docs, now, n - 1);
        let before = sync_groups(t, groups, docs, now, n - 1);
        let group = groups[n - 1];
        if group_upsert_ok(before.groups, group.name@) {
            lemma_upsert_group_wf(before, group.name@, group.desc@);
            lemma_sync_feeds_wf(
                upsert_group(before, group.name@, group.desc@),
                group.feeds@,
                docs_at(docs, n - 1),
                upserted_group_id(before.groups, group.name@) as i32,
                now,
                group.feeds@.len() as int,
            );
        }
    }
}

/// Whether the links of the first `n` entries are new to the item table
/// and differ from each other.
pub open spec fn fresh_links(rows: Seq<ItemRow>, items: Seq<ChannelItemView>, n: int) -> bool {
    &&& forall|k: int|
        0 <= k < n ==> !has_item_at(rows, text_or_empty((#[trigger] items[k]).link))
    &&& forall|j: int, k: int|
        0 <= j < k < n ==> text_or_empty((#[trigger] items[j]).link) != text_or_empty(
            (#[trigger] items[k]).link,
        )
}

/// The rows that the first `n` entries of a document become where each
/// is new: one row for each entry, in the order of the document, with
/// ids counted up from `first_id`.
pub open spec fn new_rows(
    first_id: int,
    items: Seq<ChannelItemView>,
    feed_id: i32,
    now: Timestamp,
    n: int,
) -> Seq<ItemRow> {
    Seq::new(
        n as nat,
        |k: int| ItemRow { id: (first_id + k) as i32, ..item_row(items[k], feed_id, now) },
    )
}

/// Entries with new links become rows: where the feed is stored, the
/// links of the entries are new and differ from each other, and ids are
/// left, every entry is one new row under that feed, behind the rows that
/// were there, and nothing else changes.
pub proof fn law_new_entries_become_rows(
    t: Tables,
    items: Seq<ChannelItemView>,
    feed_id: i32,
    now: Timestamp,
    n: int,
)
    requires
        tables_wf(t),
        0 <= n <= items.len(),
        has_feed_id(t.feeds, feed_id),
        fresh_links(t.items, items, n),
        next_item_id(t.items) + n - 1 <= i32::MAX,
    ensures
        sync_items(t, items, feed_id, now, n) == (Tables {
            items: t.items + new_rows(next_item_id(t.items), items, feed_id, now, n),
            ..t
        }),
    decreases n,
{
    let first = next_item_id(t.items);
    if n == 0 {
        assert(t.items + new_rows(first, items, feed_id, now, 0) =~= t.items);
    } else {
        law_new_entries_become_rows(t, items, feed_id, now, n - 1);
        let before = sync_items(t, items, feed_id, now, n - 1);
        let added = new_rows(first, items, feed_id, now, n - 1);
        let row = item_row(items[n - 1], feed_id, now);
        assert(before.items == t.items + added);
        assert(!has_item_at(before.items, row.url)) by {
            if has_item_at(before.items, row.url) {
                let w = choose|w: int|
                    0 <= w < before.items.len() && (#[trigger] before.items[w]).url == row.url;
                if w < t.items.len() {
                    assert(t.items[w].url == row.url);
                    assert(has_item_at(t.items, text_or_empty(items[n - 1].link)));
                } else {
                    let j = w - t.items.len();
                    assert(added[j].url == text_or_empty(items[j].link));
                }
            }
        }
        assert(next_item_id(before.items) == first + n - 1) by {
            if n - 1 > 0 {
                assert(before.items.last() == added[n - 2]);
            } else {
                assert(before.items =~= t.items);
            }
        }
        assert(upsert_item(before, row).items =~= t.items + new_rows(
            first,
            items,
            feed_id,
            now,
            n,
        ));
    }
}

/// A new feed with new entries: where the group is stored, the feed's
/// link and the links of the entries are new, and ids are left, merging
/// the document adds one feed row in that group and one item row for each
/// entry under that feed, and nothing else changes.
pub proof fn law_new_feed_with_new_entries(
    t: Tables,
    cfg: FeedConfig,
    channel: ChannelView,
    group_id: i32,
    now: Timestamp,
)
    requires
        tables_wf(t),
        has_group_id(t.groups, group_id),
        !has_feed_at(t.feeds, cfg.link@),
        next_feed_id(t.feeds) <= i32::MAX,
        fresh_links(t.items, channel.items, channel.items.len() as int),
        next_item_id(t.items) + channel.items.len() - 1 <= i32::MAX,
    ensures
        merged_channel(t, cfg, channel, group_id, now) == (Tables {
            groups: t.groups,
            feeds: t.feeds.push(
                FeedRow {
                    id: next_feed_id(t.feeds) as i32,
                    ..feed_row(cfg, channel, group_id, now)
                },
            ),
            items: t.items + new_rows(
                next_item_id(t.items),
                channel.items,
                next_feed_id(t.feeds) as i32,
                now,
                channel.items.len() as int,
            ),
        }),
{
    let feed = feed_row(cfg, channel, group_id, now);
    let with_feed = upsert_feed(t, feed);
    lemma_upsert_feed_wf(t, feed);
    assert(with_feed.feeds.last().id == next_feed_id(t.feeds));
    assert(has_feed_id(with_feed.feeds, next_feed_id(t.feeds) as i32));
    law_new_entries_become_rows(
        with_feed,
        channel.items,
        next_feed_id(t.feeds) as i32,
        now,
        channel.items.len() as int,
    );
}

/// A refresh keeps the rules of the store, whatever was fetched: names
/// and urls stay unique, every feed keeps a stored group and every item a
/// stored feed.
pub proof fn law_refresh_keeps_the_rules(
    t: Tables,
    groups: Seq<GroupConfig>,
    docs: Seq<Vec<Option<String>>>,
    now: Timestamp,
)
    requires
        tables_wf(t),
    ensures
        tables_wf(refreshed(t, groups, docs, now)),
{
    lemma_sync_groups_wf(t, groups, docs, now, groups.len() as int);
}

/// A feed that fails does not reach its siblings: where the feed at place
/// `k` of a group is skipped for want of a readable document, the tables
/// end as if the group had been configured, and fetched, without it.
pub proof fn law_failed_feed_is_isolated(
    t: Tables,
    feeds: Seq<FeedConfig>,
    docs: Seq<Option<String>>,
    group_id: i32,
    now: Timestamp,
    k: int,
)
    requires
        0 <= k < feeds.len(),
        docs.len() == feeds.len(),
        docs[k] matches Some(content) ==> parsed_channel(content@) is None,
    ensures
        sync_feeds(t, feeds, docs, group_id, now, feeds.len() as int) == sync_feeds(
            t,
            feeds.remove(k),
            docs.remove(k),
            group_id,
            now,
            feeds.len() - 1,
        ),
{
    lemma_skip_failed(t, feeds, docs, group_id, now, k, feeds.len() as int);
}

proof fn lemma_same_prefix(
    t: Tables,
    feeds: Seq<FeedConfig>,
    docs: Seq<Option<String>>,
    feeds2: Seq<FeedConfig>,
    docs2: Seq<Option<String>>,
    group_id: i32,
    now: Timestamp,
    n: int,
)
    requires
        n <= feeds.len(),
        n <= feeds2.len(),
        docs.len() == feeds.len(),
        docs2.len() == feeds2.len(),
        forall|i: int| 0 <= i < n ==> feeds[i] == feeds2[i] && docs[i] == docs2[i],
    ensures
        sync_feeds(t, feeds, docs, group_id, now, n) == sync_feeds(
            t,
            feeds2,
            docs2,
            group_id,
            now,
            n,
        ),
    decreases n,
{
    if n > 0 {
        lemma_same_prefix(t, feeds, docs, feeds2, docs2, group_id, now, n - 1);
    }
}

proof fn lemma_skip_failed(
    t: Tables,
    feeds: Seq<FeedConfig>,
    docs: Seq<Option<String>>,
    group_id: i32,
    now: Timestamp,
    k: int,
    n: int,
)
    requires
        0 <= k < n <= feeds.len(),
        docs.len() == feeds.len(),
        docs[k] matches Some(content) ==> parsed_channel(content@) is None,
    ensures
        sync_feeds(t, feeds, docs, group_id, now, n) == sync_feeds(
            t,
            feeds.remove(k),
            docs.remove(k),
            group_id,
            now,
            n - 1,
        ),
    decreases n,
{
    let feeds2 = feeds.remove(k);
    let docs2 = docs.remove(k);
    if n == k + 1 {
        lemma_same_prefix(t, feeds, docs, feeds2, docs2, group_id, now, k);
    } else {
        lemma_skip_failed(t, feeds, docs, group_id, now, k, n - 1);
        assert(feeds2[n - 2] == feeds[n - 1]);
        assert(doc_at(docs2, n - 2) == doc_at(docs, n - 1));
    }
}

/// The id that the next item gets once `n` new rows stand behind `rows`.
proof fn lemma_next_item_id_after(
    rows: Seq<ItemRow>,
    items: Seq<ChannelItemView>,
    feed_id: i32,
    now: Timestamp,
    n: int,
)
    requires
        0 <= n <= items.len(),
        1 <= next_item_id(rows),
        next_item_id(rows) + n - 1 <= i32::MAX,
    ensures
        next_item_id(rows + new_rows(next_item_id(rows), items, feed_id, now, n)) == next_item_id(
            rows,
        ) + n,
{
    let added = new_rows(next_item_id(rows), items, feed_id, now, n);
    if n == 0 {
        assert(rows + added =~= rows);
    } else {
        assert((rows + added).last() == added[n - 1]);
    }
}

/// Of three feeds of a group the second fails, and the others are new:
/// where the documents of the first and the third read as RSS, the
/// document of the second was not fetched or does not, the group is
/// stored, the links of both feeds and of all entries of both documents
/// are new and differ from each other, and ids are left, the refresh adds
/// the first and the third feed, and one row for each entry of both
/// documents, each under its own feed; nothing is added for the second
/// feed, and nothing else changes.
pub proof fn law_second_of_three_feeds_fails(
    t: Tables,
    feeds: Seq<FeedConfig>,
    docs: Seq<Option<String>>,
    first: ChannelView,
    third: ChannelView,
    group_id: i32,
    now: Timestamp,
)
    requires
        tables_wf(t),
        has_group_id(t.groups, group_id),
        feeds.len() == 3,
        docs.len() == 3,
        docs[0] matches Some(text) && parsed_channel(text@) == Some(first),
        docs[1] matches Some(text) ==> parsed_channel(text@) is None,
        docs[2] matches Some(text) && parsed_channel(text@) == Some(third),
        !has_feed_at(t.feeds, feeds[0].link@),
        !has_feed_at(t.feeds, feeds[2].link@),
        feeds[0].link@ != feeds[2].link@,
        next_feed_id(t.feeds) + 1 <= i32::MAX,
        fresh_links(
            t.items,
            first.items + third.items,
            (first.items.len() + third.items.len()) as int,
        ),
        next_item_id(t.items) + first.items.len() + third.items.len() - 1 <= i32::MAX,
    ensures
        sync_feeds(t, feeds, docs, group_id, now, 3) == (Tables {
            groups: t.groups,
            feeds: t.feeds.push(
                FeedRow {
                    id: next_feed_id(t.feeds) as i32,
                    ..feed_row(feeds[0], first, group_id, now)
                },
            ).push(
                FeedRow {
                    id: (next_feed_id(t.feeds) + 1) as i32,
                    ..feed_row(feeds[2], third, group_id, now)
                },
            ),
            items: t.items + new_rows(
                next_item_id(t.items),
                first.items,
                next_feed_id(t.feeds) as i32,
                now,
                first.items.len() as int,
            ) + new_rows(
                next_item_id(t.items) + first.items.len(),
                third.items,
                (next_feed_id(t.feeds) + 1) as i32,
                now,
                third.items.len() as int,
            ),
        }),
{
    let all = first.items + third.items;
    let n1 = first.items.len() as int;
    let n3 = third.items.len() as int;
    let f1 = next_feed_id(t.feeds);
    let i0 = next_item_id(t.items);
    // the failed feed is as good as not configured
    law_failed_feed_is_isolated(t, feeds, docs, group_id, now, 1);
    let two = feeds.remove(1);
    let got = docs.remove(1);
    assert(two[0] == feeds[0] && two[1] == feeds[2]);
    assert(got[0] == docs[0] && got[1] == docs[2]);
    assert(sync_feeds(t, two, got, group_id, now, 0) == t);
    assert(sync_feeds(t, two, got, group_id, now, 1) == sync_feed(
        sync_feeds(t, two, got, group_id, now, 0),
        two[0],
        doc_at(got, 0),
        group_id,
        now,
    ));
    let t1 = merged_channel(t, feeds[0], first, group_id, now);
    assert(sync_feeds(t, two, got, group_id, now, 1) == t1);
    assert(sync_feeds(t, two, got, group_id, now, 2) == sync_feed(
        t1,
        two[1],
        doc_at(got, 1),
        group_id,
        now,
    ));
    let t2 = merged_channel(t1, feeds[2], third, group_id, now);
    assert(sync_feeds(t, two, got, group_id, now, 2) == t2);
    // the first feed and its entries
    assert(fresh_links(t.items, first.items, n1)) by {
        assert forall|k: int| 0 <= k < n1 implies !has_item_at(
            t.items,
            text_or_empty((#[trigger] first.items[k]).link),
        ) by {
            assert(all[k] == first.items[k]);
        }
        assert forall|j: int, k: int| 0 <= j < k < n1 implies text_or_empty(
            (#[trigger] first.items[j]).link,
        ) != text_or_empty((#[trigger] first.items[k]).link) by {
            assert(all[j] == first.items[j] && all[k] == first.items[k]);
        }
    }
    law_new_feed_with_new_entries(t, feeds[0], first, group_id, now);
    law_merge_keeps_the_rules(t, feeds[0], first, group_id, now);
    let rows1 = new_rows(i0, first.items, f1 as i32, now, n1);
    assert(t1.items == t.items + rows1);
    // the third feed and its entries
    assert(!has_feed_at(t1.feeds, feeds[2].link@)) by {
        if has_feed_at(t1.feeds, feeds[2].link@) {
            let w = choose|w: int|
                0 <= w < t1.feeds.len() && (#[trigger] t1.feeds[w]).url == feeds[2].link@;
            if w < t.feeds.len() {
                assert(t.feeds[w].url == feeds[2].link@);
            }
        }
    }
    assert(next_feed_id(t1.feeds) == f1 + 1) by {
        assert(t1.feeds.last().id == f1);
    }
    assert(i0 >= 1) by {
        if t.items.len() > 0 {
            assert(t.items[t.items.len() - 1].id > 0);
        }
    }
    lemma_next_item_id_after(t.items, first.items, f1 as i32, now, n1);
    assert(fresh_links(t1.items, third.items, n3)) by {
        assert forall|k: int| 0 <= k < n3 implies !has_item_at(
            t1.items,
            text_or_empty((#[trigger] third.items[k]).link),
        ) by {
            let link = text_or_empty(third.items[k].link);
            assert(all[n1 + k] == third.items[k]);
            if has_item_at(t1.items, link) {
                let w = choose|w: int|
                    0 <= w < t1.items.len() && (#[trigger] t1.items[w]).url == link;
                if w < t.items.len() {
                    assert(t.items[w].url == link);
                    assert(has_item_at(t.items, text_or_empty(all[n1 + k].link)));
                } else {
                    let j = w - t.items.len();
                    assert(rows1[j].url == text_or_empty(first.items[j].link));
                    assert(all[j] == first.items[j]);
                }
            }
        }
        assert forall|j: int, k: int| 0 <= j < k < n3 implies text_or_empty(
            (#[trigger] third.items[j]).link,
        ) != text_or_empty((#[trigger] third.items[k]).link) by {
            assert(all[n1 + j] == third.items[j] && all[n1 + k] == third.items[k]);
        }
    }
    law_new_feed_with_new_entries(t1, feeds[2], third, group_id, now);
}

} // verus!
