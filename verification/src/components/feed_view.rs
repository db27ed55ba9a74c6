//! The list of the feeds of one group: the content of a feed tab.

use crate::action::{Action, ActionQueue, ActionView};
use crate::components::{
    clamp_selection, clamped, next_selection, prev_selection, select_next, select_prev, Component,
    Row, RowView,
};
use crate::config::Config;
use crate::db::{clone_feeds, Feed, Group};
use crate::mode::{Mode, ModeView};
use crate::tables::{FeedRow, GroupRow, ALL_ID};
use crate::tui::{Event, KeyCode, KeyEvent};
use vstd::prelude::*;

verus! {

/// The list of the feeds of one group.
pub struct FeedView {
    /// Whether the component is connected to the action queue.
    pub command_tx: bool,
    pub config: Config,
    pub mode: Mode,
    pub group: Group,
    /// The place of this component's tab.
    pub idx: usize,
    /// The place of the selected tab, as last announced.
    pub selected_idx: usize,
    pub feeds: Vec<Feed>,
    /// The selected entry of the list.
    pub selected: Option<usize>,
}

/// The state of a list of feeds.
pub struct FeedViewState {
    pub connected: bool,
    pub mode: ModeView,
    pub group: GroupRow,
    pub idx: usize,
    pub selected_idx: usize,
    pub feeds: Seq<FeedRow>,
    pub selected: Option<usize>,
}

impl View for FeedView {
    type V = FeedViewState;

    open spec fn view(&self) -> FeedViewState {
        FeedViewState {
            connected: self.command_tx,
            mode: self.mode@,
            group: self.group@,
            idx: self.idx,
            selected_idx: self.selected_idx,
            feeds: self.feeds.deep_view(),
            selected: self.selected,
        }
    }
}

impl FeedViewState {
    /// Whether the component's tab is the selected one.
    pub open spec fn focused(self) -> bool {
        self.selected_idx == self.idx
    }

    /// The state after a key press: in the selected tab the stepping keys
    /// move the selection, wrapping at both ends.
    pub open spec fn on_key(self, key: KeyEvent) -> FeedViewState {
        if !self.focused() {
            self
        } else if key.code.steps_down() {
            FeedViewState { selected: next_selection(self.selected, self.feeds.len()), ..self }
        } else if key.code.steps_up() {
            FeedViewState { selected: prev_selection(self.selected, self.feeds.len()), ..self }
        } else {
            self
        }
    }

    /// What a key press sends: in the selected tab the opening keys ask for
    /// a tab on the articles of the selected feed, or of the whole group
    /// where the synthetic feed is selected.
    pub open spec fn key_sends(self, key: KeyEvent) -> Seq<ActionView> {
        if self.focused() && key.code.opens() && self.connected && self.feeds.len() > 0 {
            let feed = self.feeds[clamped(self.selected, self.feeds.len()) as int];
            if feed.id == ALL_ID {
                seq![ActionView::NewTabArticleViewGroup(self.group)]
            } else {
                seq![ActionView::NewTabArticleViewFeed(feed)]
            }
        } else {
            Seq::empty()
        }
    }

    /// The state after an action. Feeds that are addressed to another tab
    /// are not taken.
    pub open spec fn on_action(self, action: ActionView) -> FeedViewState {
        match action {
            ActionView::ChangeTab(idx) => FeedViewState { selected_idx: idx, ..self },
            ActionView::UpdateFeedView(idx, feeds) => if idx == self.idx {
                FeedViewState { feeds, ..self }
            } else {
                self
            },
            _ => self,
        }
    }

    /// The state after a terminal event.
    pub open spec fn on_event(self, event: Event) -> FeedViewState {
        match event {
            Event::Key(key) => self.on_key(key),
            _ => self,
        }
    }

    /// What a terminal event sends.
    pub open spec fn event_sends(self, event: Event) -> Seq<ActionView> {
        match event {
            Event::Key(key) => self.key_sends(key),
            _ => Seq::empty(),
        }
    }
}

impl FeedView {
    /// The list for the tab at `idx`, before the feeds of `group` are
    /// known. The tab counts as selected.
    pub fn new(idx: usize, group: Group) -> (r: Self)
        ensures
            r.config.is_default(),
            r@ == (FeedViewState {
                connected: false,
                mode: ModeView::Main,
                group: group@,
                idx,
                selected_idx: idx,
                feeds: Seq::empty(),
                selected: Some(0),
            }),
    {
        let r = FeedView {
            command_tx: false,
            config: Config::default(),
            mode: Mode::default(),
            group,
            idx,
            selected_idx: idx,
            feeds: Vec::new(),
            selected: Some(0),
        };
        assert(r@.feeds =~= Seq::empty());
        r
    }
}

impl FeedViewState {
    /// The entries as they are drawn: name and description of each feed,
    /// the selected entry marked.
    pub open spec fn rows(self) -> Seq<RowView> {
        Seq::new(
            self.feeds.len(),
            |i: int|
                RowView {
                    name: self.feeds[i].name,
                    desc: self.feeds[i].desc,
                    highlighted: self.selected == Some(i as usize),
                },
        )
    }
}

impl FeedView {
    /// The entries of the list as they are drawn.
    pub fn rows(&self) -> (r: Vec<Row>)
        ensures
            r.deep_view() == self@.rows(),
    {
        let mut rows: Vec<Row> = Vec::new();
        let mut i: usize = 0;
        while i < self.feeds.len()
            invariant
                i <= self.feeds.len(),
                rows.deep_view() == self@.rows().take(i as int),
            decreases self.feeds.len() - i,
        {
            let ghost prev = rows.deep_view();
            rows.push(
                Row {
                    name: self.feeds[i].name.clone(),
                    desc: self.feeds[i].desc.clone(),
                    highlighted: match self.selected {
                        Some(at) => at == i,
                        None => false,
                    },
                },
            );
            assert(rows.deep_view() =~= prev.push(self@.rows()[i as int]));
            assert(self@.rows().take(i + 1) =~= self@.rows().take(i as int).push(
                self@.rows()[i as int],
            ));
            i += 1;
        }
        assert(self@.rows().take(i as int) =~= self@.rows());
        rows
    }
}

impl Component for FeedView {
    open spec fn wf(&self) -> bool {
        true
    }

    fn register_action_handler(&mut self)
        ensures
            final(self).config == old(self).config,
            final(self)@ == (FeedViewState { connected: true, ..old(self)@ }),
    {
        self.command_tx = true;
    }

    fn register_config_handler(&mut self, config: Config)
        ensures
            final(self)@ == old(self)@,
            final(self).config == config,
    {
        self.config = config;
    }

    fn handle_events(&mut self, event: Event, tx: &mut ActionQueue) -> (r: Option<Action>)
        ensures
            final(self).config == old(self).config,
            r is None,
            final(self)@ == old(self)@.on_event(event),
            final(tx)@ == old(tx)@ + old(self)@.event_sends(event),
    {
        match event {
            Event::Key(key) => self.handle_key_events(key, tx),
            Event::Mouse(mouse) => self.handle_mouse_events(mouse, tx),
            _ => None,
        }
    }

    fn handle_key_events(&mut self, key: KeyEvent, tx: &mut ActionQueue) -> (r: Option<Action>)
        ensures
            final(self).config == old(self).config,
            r is None,
            final(self)@ == old(self)@.on_key(key),
            final(tx)@ == old(tx)@ + old(self)@.key_sends(key),
    {
        if self.selected_idx == self.idx {
            match key.code {
                KeyCode::Char('j') | KeyCode::Down => {
                    self.selected = select_next(self.selected, self.feeds.len());
                },
                KeyCode::Char('k') | KeyCode::Up => {
                    self.selected = select_prev(self.selected, self.feeds.len());
                },
                KeyCode::Char('l') | KeyCode::Enter => {
                    if self.command_tx && self.feeds.len() > 0 {
                        let at = clamp_selection(self.selected, self.feeds.len());
                        let feed = self.feeds[at].clone();
                        if feed.id == ALL_ID {
                            tx.send(Action::NewTabArticleViewGroup(self.group.clone()));
                        } else {
                            tx.send(Action::NewTabArticleViewFeed(feed));
                        }
                    }
                },
                _ => {},
            }
        }
        None
    }

    fn update(&mut self, action: &Action, tx: &mut ActionQueue) -> (r: Option<Action>)
        ensures
            final(self).config == old(self).config,
            r is None,
            final(self)@ == old(self)@.on_action(action@),
            final(tx)@ == old(tx)@,
    {
        match action {
            Action::ChangeTab(idx) => {
                self.selected_idx = *idx;
            },
            Action::UpdateFeedView(idx, feeds) => {
                if self.idx == *idx {
                    self.feeds = clone_feeds(feeds);
                    assert(self.feeds.deep_view() =~= feeds.deep_view());
                }
            },
            _ => {},
        }
        None
    }
}

} // verus!
