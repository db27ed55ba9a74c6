//! Feed documents: what a fetched RSS document says, as plain values.

use crate::tables::Timestamp;
use vstd::prelude::*;

verus! {

/// One entry of a feed document.
#[derive(Debug)]
pub struct ChannelItem {
    pub title: Option<String>,
    pub link: Option<String>,
    pub description: Option<String>,
    pub pub_date: Option<String>,
}

/// A feed document: its own title and description, and its entries in
/// document order.
#[derive(Debug)]
pub struct Channel {
    pub title: String,
    pub description: String,
    pub items: Vec<ChannelItem>,
}

/// What an entry says.
pub struct ChannelItemView {
    pub title: Option<Seq<char>>,
    pub link: Option<Seq<char>>,
    pub description: Option<Seq<char>>,
    pub pub_date: Option<Seq<char>>,
}

/// What a feed document says.
pub struct ChannelView {
    pub title: Seq<char>,
    pub description: Seq<char>,
    pub items: Seq<ChannelItemView>,
}

/// The text of an optional string.
pub open spec fn text_of(s: Option<String>) -> Option<Seq<char>> {
    match s {
        Some(s) => Some(s@),
        None => None,
    }
}

impl View for ChannelItem {
    type V = ChannelItemView;

    open spec fn view(&self) -> ChannelItemView {
        ChannelItemView {
            title: text_of(self.title),
            link: text_of(self.link),
            description: text_of(self.description),
            pub_date: text_of(self.pub_date),
        }
    }
}

impl DeepView for ChannelItem {
    type V = ChannelItemView;

    open spec fn deep_view(&self) -> ChannelItemView {
        self@
    }
}

impl View for Channel {
    type V = ChannelView;

    open spec fn view(&self) -> ChannelView {
        ChannelView {
            title: self.title@,
            description: self.description@,
            items: self.items.deep_view(),
        }
    }
}

/// The outside parser's error.
#[verifier::external_type_specification]
#[verifier::external_body]
pub struct ExRssError(rss::Error);

/// What the RSS parser makes of a document: `None` where it refuses it.
pub uninterp spec fn parsed_channel(content: Seq<char>) -> Option<ChannelView>;

/// What the date parser makes of a text: `None` where it refuses it.
pub uninterp spec fn parsed_timestamp(text: Seq<char>) -> Option<Timestamp>;

/// Calls `rss::Channel::read_from` on the bytes of `content` and copies
/// title, description and, of each item in order, title, link, description
/// and publication date out of the channel it returns. The contract claims
/// only that the outcome is a function of the document's text.
#[verifier::external_body]
pub(crate) fn read_channel(content: &str) -> (r: Result<Channel, rss::Error>)
    ensures
        match r {
            Ok(channel) => parsed_channel(content@) == Some(channel@),
            Err(_) => parsed_channel(content@) is None,
        },
{
    let channel = rss::Channel::read_from(content.as_bytes())?;
    let items = channel.items().iter().map(|item| ChannelItem {
        title: item.title().map(String::from),
        link: item.link().map(String::from),
        description: item.description().map(String::from),
        pub_date: item.pub_date().map(String::from),
    }).collect();
    Ok(Channel {
        title: channel.title().to_string(),
        description: channel.description().to_string(),
        items,
    })
}

/// Calls chrono's `FromStr` for `DateTime<Utc>` (a relaxed RFC 3339 reader)
/// and takes seconds and nanoseconds out of the date it returns. The
/// contract claims only that the outcome is a function of the text.
#[verifier::external_body]
pub(crate) fn parse_timestamp(text: &str) -> (r: Option<Timestamp>)
    ensures
        r == parsed_timestamp(text@),
{
    match text.parse::<chrono::DateTime<chrono::Utc>>() {
        Ok(date) => Some(Timestamp { secs: date.timestamp(), nanos: date.timestamp_subsec_nanos() }),
        Err(_) => None,
    }
}

} // verus!
