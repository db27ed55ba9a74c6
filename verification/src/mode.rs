//! The navigation mode: which view has the input.

use crate::db::{clone_feed_items, FeedItem};
use crate::tables::ItemRow;
use vstd::prelude::*;

verus! {

/// The navigation mode. Exactly one is active at a time.
#[derive(Debug, PartialEq, Eq, Hash)]
pub enum Mode {
    Main,
    FeedList,
    ViewArticles(Vec<FeedItem>),
    Refreshing,
}

/// What a mode says.
pub enum ModeView {
    Main,
    FeedList,
    ViewArticles(Seq<ItemRow>),
    Refreshing,
}

impl View for Mode {
    type V = ModeView;

    open spec fn view(&self) -> ModeView {
        match self {
            Mode::Main => ModeView::Main,
            Mode::FeedList => ModeView::FeedList,
            Mode::ViewArticles(items) => ModeView::ViewArticles(items.deep_view()),
            Mode::Refreshing => ModeView::Refreshing,
        }
    }
}

impl Default for Mode {
    fn default() -> (r: Self)
        ensures
            r == Mode::Main,
    {
        Mode::Main
    }
}

impl Clone for Mode {
    fn clone(&self) -> (r: Self)
        ensures
            r@ == self@,
    {
        match self {
            Mode::Main => Mode::Main,
            Mode::FeedList => Mode::FeedList,
            Mode::ViewArticles(items) => {
                let copy = clone_feed_items(items);
                assert(copy.deep_view() =~= items.deep_view());
                Mode::ViewArticles(copy)
            },
            Mode::Refreshing => Mode::Refreshing,
        }
    }
}

} // verus!
