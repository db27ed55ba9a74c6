//! The message vocabulary of the system, and the queue the messages wait in.

use crate::db::{clone_feed_items, clone_feeds, clone_groups, Feed, FeedItem, Group};
use crate::mode::{Mode, ModeView};
use crate::tables::{FeedRow, GroupRow, ItemRow};
use std::collections::VecDeque;
use vstd::prelude::*;

verus! {

/// A message: a request for a change of state, or the notice of an event.
#[derive(Debug, PartialEq, Eq)]
pub enum Action {
    Tick,
    Render,
    Resize(u16, u16),
    Suspend,
    Resume,
    ConfirmQuit,
    Quit,
    ChangeTab(usize),
    RemoveTab(usize),
    RequestRefresh,
    Refresh(Vec<Group>),
    NewTabFeedView(Group),
    NewTabArticleViewAll,
    NewTabArticleViewGroup(Group),
    NewTabArticleViewFeed(Feed),
    RequestUpdateFeedView(usize, Group),
    RequestUpdateArticleViewAll(usize),
    RequestUpdateArticleViewGroup(usize, Group),
    RequestUpdateArticleViewFeed(usize, Feed),
    UpdateFeedView(usize, Vec<Feed>),
    UpdateArticleView(usize, Vec<FeedItem>),
    ModeChange(Mode),
    RequestUpdateReader(usize, FeedItem),
    UpdateReader(usize, String),
    ActivateReader,
    ActivateFeedList,
    Error(String),
    Help,
}

/// What a message says.
pub enum ActionView {
    Tick,
    Render,
    Resize(u16, u16),
    Suspend,
    Resume,
    ConfirmQuit,
    Quit,
    ChangeTab(usize),
    RemoveTab(usize),
    RequestRefresh,
    Refresh(Seq<GroupRow>),
    NewTabFeedView(GroupRow),
    NewTabArticleViewAll,
    NewTabArticleViewGroup(GroupRow),
    NewTabArticleViewFeed(FeedRow),
    RequestUpdateFeedView(usize, GroupRow),
    RequestUpdateArticleViewAll(usize),
    RequestUpdateArticleViewGroup(usize, GroupRow),
    RequestUpdateArticleViewFeed(usize, FeedRow),
    UpdateFeedView(usize, Seq<FeedRow>),
    UpdateArticleView(usize, Seq<ItemRow>),
    ModeChange(ModeView),
    RequestUpdateReader(usize, ItemRow),
    UpdateReader(usize, Seq<char>),
    ActivateReader,
    ActivateFeedList,
    Error(Seq<char>),
    Help,
}

impl View for Action {
    type V = ActionView;

    open spec fn view(&self) -> ActionView {
        match self {
            Action::Tick => ActionView::Tick,
            Action::Render => ActionView::Render,
            Action::Resize(w, h) => ActionView::Resize(*w, *h),
            Action::Suspend => ActionView::Suspend,
            Action::Resume => ActionView::Resume,
            Action::ConfirmQuit => ActionView::ConfirmQuit,
            Action::Quit => ActionView::Quit,
            Action::ChangeTab(i) => ActionView::ChangeTab(*i),
            Action::RemoveTab(i) => ActionView::RemoveTab(*i),
            Action::RequestRefresh => ActionView::RequestRefresh,
            Action::Refresh(groups) => ActionView::Refresh(groups.deep_view()),
            Action::NewTabFeedView(g) => ActionView::NewTabFeedView(g@),
            Action::NewTabArticleViewAll => ActionView::NewTabArticleViewAll,
            Action::NewTabArticleViewGroup(g) => ActionView::NewTabArticleViewGroup(g@),
            Action::NewTabArticleViewFeed(f) => ActionView::NewTabArticleViewFeed(f@),
            Action::RequestUpdateFeedView(i, g) => ActionView::RequestUpdateFeedView(*i, g@),
            Action::RequestUpdateArticleViewAll(i) => ActionView::RequestUpdateArticleViewAll(*i),
            Action::RequestUpdateArticleViewGroup(i, g) => ActionView::RequestUpdateArticleViewGroup(
                *i,
                g@,
            ),
            Action::RequestUpdateArticleViewFeed(i, f) => ActionView::RequestUpdateArticleViewFeed(
                *i,
                f@,
            ),
            Action::UpdateFeedView(i, feeds) => ActionView::UpdateFeedView(*i, feeds.deep_view()),
            Action::UpdateArticleView(i, items) => ActionView::UpdateArticleView(
                *i,
                items.deep_view(),
            ),
            Action::ModeChange(m) => ActionView::ModeChange(m@),
            Action::RequestUpdateReader(i, item) => ActionView::RequestUpdateReader(*i, item@),
            Action::UpdateReader(i, content) => ActionView::UpdateReader(*i, content@),
            Action::ActivateReader => ActionView::ActivateReader,
            Action::ActivateFeedList => ActionView::ActivateFeedList,
            Action::Error(message) => ActionView::Error(message@),
            Action::Help => ActionView::Help,
        }
    }
}

impl DeepView for Action {
    type V = ActionView;

    open spec fn deep_view(&self) -> ActionView {
        self@
    }
}

impl Clone for Action {
    fn clone(&self) -> (r: Self)
        ensures
            r@ == self@,
    {
        match self {
            Action::Tick => Action::Tick,
            Action::Render => Action::Render,
            Action::Resize(w, h) => Action::Resize(*w, *h),
            Action::Suspend => Action::Suspend,
            Action::Resume => Action::Resume,
            Action::ConfirmQuit => Action::ConfirmQuit,
            Action::Quit => Action::Quit,
            Action::ChangeTab(i) => Action::ChangeTab(*i),
            Action::RemoveTab(i) => Action::RemoveTab(*i),
            Action::RequestRefresh => Action::RequestRefresh,
            Action::Refresh(groups) => {
                let copy = clone_groups(groups);
                assert(copy.deep_view() =~= groups.deep_view());
                Action::Refresh(copy)
            },
            Action::NewTabFeedView(g) => Action::NewTabFeedView(g.clone()),
            Action::NewTabArticleViewAll => Action::NewTabArticleViewAll,
            Action::NewTabArticleViewGroup(g) => Action::NewTabArticleViewGroup(g.clone()),
            Action::NewTabArticleViewFeed(f) => Action::NewTabArticleViewFeed(f.clone()),
            Action::RequestUpdateFeedView(i, g) => Action::RequestUpdateFeedView(*i, g.clone()),
            Action::RequestUpdateArticleViewAll(i) => Action::RequestUpdateArticleViewAll(*i),
            Action::RequestUpdateArticleViewGroup(i, g) => Action::RequestUpdateArticleViewGroup(
                *i,
                g.clone(),
            ),
            Action::RequestUpdateArticleViewFeed(i, f) => Action::RequestUpdateArticleViewFeed(
                *i,
                f.clone(),
            ),
            Action::UpdateFeedView(i, feeds) => {
                let copy = clone_feeds(feeds);
                assert(copy.deep_view() =~= feeds.deep_view());
                Action::UpdateFeedView(*i, copy)
            },
            Action::UpdateArticleView(i, items) => {
                let copy = clone_feed_items(items);
                assert(copy.deep_view() =~= items.deep_view());
                Action::UpdateArticleView(*i, copy)
            },
            Action::ModeChange(m) => Action::ModeChange(m.clone()),
            Action::RequestUpdateReader(i, item) => Action::RequestUpdateReader(*i, item.clone()),
            Action::UpdateReader(i, content) => Action::UpdateReader(*i, content.clone()),
            Action::ActivateReader => Action::ActivateReader,
            Action::ActivateFeedList => Action::ActivateFeedList,
            Action::Error(message) => Action::Error(message.clone()),
            Action::Help => Action::Help,
        }
    }
}

/// The action queue: messages leave it in the order in which they entered.
pub struct ActionQueue {
    items: VecDeque<Action>,
}

impl View for ActionQueue {
    type V = Seq<ActionView>;

    closed spec fn view(&self) -> Seq<ActionView> {
        self.items.deep_view()
    }
}

impl ActionQueue {
    /// An empty queue.
    pub fn new() -> (q: ActionQueue)
        ensures
            q@ == Seq::<ActionView>::empty(),
    {
        let q = ActionQueue { items: VecDeque::new() };
        assert(q@ =~= Seq::<ActionView>::empty());
        q
    }

    /// Puts a message at the back of the queue.
    pub fn send(&mut self, action: Action)
        ensures
            final(self)@ == old(self)@.push(action@),
    {
        self.items.push_back(action);
        assert(self@ =~= old(self)@.push(action@));
    }

    /// Takes the message at the front of the queue, if there is one.
    pub fn try_recv(&mut self) -> (r: Option<Action>)
        ensures
            match r {
                Some(action) => old(self)@.len() > 0 && action@ == old(self)@[0] && final(self)@
                    == old(self)@.drop_first(),
                None => old(self)@.len() == 0 && final(self)@ == old(self)@,
            },
    {
        let r = self.items.pop_front();
        assert(match r {
            Some(action) => self@ =~= old(self)@.drop_first(),
            None => self@ =~= old(self)@,
        });
        r
    }

    /// How many messages wait.
    pub fn len(&self) -> (n: usize)
        ensures
            n == self@.len(),
    {
        self.items.len()
    }

    /// Whether no message waits.
    pub fn is_empty(&self) -> (b: bool)
        ensures
            b == (self@.len() == 0),
    {
        self.items.len() == 0
    }
}

/// The queue after its front message was processed while `follow_ups`
/// were sent.
pub open spec fn after_processing(queue: Seq<ActionView>, follow_ups: Seq<ActionView>) -> Seq<
    ActionView,
> {
    queue.drop_first() + follow_ups
}

/// The messages of `waiting` in the order in which a drain processes them:
/// the front message first; what it sends, as `follow_ups` tells, goes to
/// the back. A drain of `n` messages takes `n` steps.
pub open spec fn processed(
    waiting: Seq<ActionView>,
    follow_ups: spec_fn(ActionView) -> Seq<ActionView>,
    n: nat,
) -> Seq<ActionView>
    decreases n,
{
    if n == 0 || waiting.len() == 0 {
        Seq::empty()
    } else {
        seq![waiting[0]] + processed(
            after_processing(waiting, follow_ups(waiting[0])),
            follow_ups,
            (n - 1) as nat,
        )
    }
}

/// First in, first out: whatever the processing of messages sends, the
/// messages that wait are processed in the order in which they wait, and
/// before anything that their processing sends.
pub proof fn law_processed_in_order(
    waiting: Seq<ActionView>,
    follow_ups: spec_fn(ActionView) -> Seq<ActionView>,
    n: nat,
)
    requires
        n <= waiting.len(),
    ensures
        processed(waiting, follow_ups, n) == waiting.take(n as int),
    decreases n,
{
    if n > 0 {
        let rest = after_processing(waiting, follow_ups(waiting[0]));
        law_processed_in_order(rest, follow_ups, (n - 1) as nat);
        assert(rest.take(n - 1) =~= waiting.drop_first().take(n - 1));
        assert(waiting.take(n as int) =~= seq![waiting[0]] + waiting.drop_first().take(n - 1));
    } else {
        assert(waiting.take(0) =~= Seq::<ActionView>::empty());
    }
}

/// What the front message sends is processed right after the messages
/// that waited with it.
pub proof fn law_follow_ups_come_last(
    waiting: Seq<ActionView>,
    follow_ups: spec_fn(ActionView) -> Seq<ActionView>,
)
    requires
        waiting.len() > 0,
    ensures
        processed(waiting, follow_ups, waiting.len() + follow_ups(waiting[0]).len())
            == waiting + follow_ups(waiting[0]),
{
    let sent = follow_ups(waiting[0]);
    let rest = after_processing(waiting, sent);
    law_processed_in_order(rest, follow_ups, rest.len());
    assert(rest.take(rest.len() as int) =~= rest);
    assert(seq![waiting[0]] + rest =~= waiting + sent);
}

} // verus!
