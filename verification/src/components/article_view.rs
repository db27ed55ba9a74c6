//! An article tab: a list of articles beside a reader.

use crate::action::{Action, ActionQueue, ActionView};
use crate::components::article_list::{ArticleList, ArticleListState};
use crate::components::article_reader::{ArticleReader, ArticleReaderState};
use crate::components::Component;
use crate::config::Config;
use crate::db::clone_feed_items;
use crate::tui::{Event, KeyEvent, MouseEvent, Rect};
use vstd::prelude::*;

verus! {

/// The content of an article tab.
pub struct ArticleView {
    /// The place of this component's tab.
    pub idx: usize,
    /// The place of the selected tab, as last announced.
    pub selected_idx: usize,
    pub article_list: ArticleList,
    pub article_reader: ArticleReader,
}

/// The state of an article tab.
pub struct ArticleViewState {
    pub idx: usize,
    pub selected_idx: usize,
    pub list: ArticleListState,
    pub reader: ArticleReaderState,
}

impl View for ArticleView {
    type V = ArticleViewState;

    open spec fn view(&self) -> ArticleViewState {
        ArticleViewState {
            idx: self.idx,
            selected_idx: self.selected_idx,
            list: self.article_list@,
            reader: self.article_reader@,
        }
    }
}

impl ArticleViewState {
    /// Whether the component's tab is the selected one.
    pub open spec fn focused(self) -> bool {
        self.selected_idx == self.idx
    }

    /// The tab as it is first made for the place `idx`.
    pub open spec fn fresh(idx: usize) -> ArticleViewState {
        ArticleViewState {
            idx,
            selected_idx: idx,
            list: ArticleListState {
                connected: false,
                mode: crate::mode::ModeView::Main,
                idx,
                feed_items: None,
                selected: Some(0),
                active: true,
            },
            reader: ArticleReaderState {
                connected: false,
                idx,
                content: None,
                scroll_position: (0, 0),
                text: None,
                active: false,
            },
        }
    }

    /// The state with list and reader connected to the action queue.
    pub open spec fn connected(self) -> ArticleViewState {
        ArticleViewState {
            list: ArticleListState { connected: true, ..self.list },
            reader: ArticleReaderState { connected: true, ..self.reader },
            ..self
        }
    }

    /// The state once the tab stands at the place `idx`.
    pub open spec fn at(self, idx: usize) -> ArticleViewState {
        ArticleViewState {
            idx,
            list: ArticleListState { idx, ..self.list },
            reader: ArticleReaderState { idx, ..self.reader },
            ..self
        }
    }

    /// The state after a terminal event: in the selected tab the event
    /// goes to the list and to the reader; elsewhere nothing happens.
    pub open spec fn on_event(self, event: Event) -> ArticleViewState {
        if self.focused() {
            ArticleViewState {
                list: self.list.on_event(event),
                reader: self.reader.on_event(event),
                ..self
            }
        } else {
            self
        }
    }

    /// What a terminal event sends: what the list sends, then what the
    /// reader sends.
    pub open spec fn event_sends(self, event: Event) -> Seq<ActionView> {
        if self.focused() {
            self.list.event_sends(event) + self.reader.event_sends(event)
        } else {
            Seq::empty()
        }
    }

    /// The state after a key press handed to the tab itself: it goes to
    /// the list.
    pub open spec fn on_key(self, key: KeyEvent) -> ArticleViewState {
        ArticleViewState { list: self.list.on_key(key), ..self }
    }

    /// The state after a mouse event handed to the tab itself: it goes to
    /// the list.
    pub open spec fn on_mouse(self, mouse: MouseEvent) -> ArticleViewState {
        ArticleViewState { list: self.list.on_mouse(mouse), ..self }
    }

    /// The state after an action: list and reader see it first; articles
    /// that are addressed to another tab are not taken.
    pub open spec fn on_action(self, action: ActionView) -> ArticleViewState {
        let seen = ArticleViewState {
            list: self.list.on_action(action),
            reader: self.reader.on_action(action),
            ..self
        };
        match action {
            ActionView::ChangeTab(idx) => ArticleViewState { selected_idx: idx, ..seen },
            ActionView::UpdateArticleView(idx, items) => if idx == self.idx {
                ArticleViewState {
                    list: ArticleListState { feed_items: Some(items), ..seen.list },
                    ..seen
                }
            } else {
                seen
            },
            _ => seen,
        }
    }
}

impl ArticleView {
    /// An article tab for the place `idx`, before it holds articles. The
    /// tab counts as selected.
    pub fn new(idx: usize) -> (r: Self)
        ensures
            r.article_list.config.is_default(),
            r@ == ArticleViewState::fresh(idx),
    {
        let article_list = ArticleList::new(idx);
        let article_reader = ArticleReader::new(idx);
        ArticleView { idx, selected_idx: idx, article_list, article_reader }
    }

    /// Moves the tab to the place `idx`: list and reader answer to it from
    /// now on.
    pub fn set_index(&mut self, idx: usize)
        ensures
            final(self).article_list.config == old(self).article_list.config,
            final(self)@ == old(self)@.at(idx),
    {
        self.idx = idx;
        self.article_list.idx = idx;
        self.article_reader.idx = idx;
    }
}

impl Component for ArticleView {
    open spec fn wf(&self) -> bool {
        true
    }

    fn register_action_handler(&mut self)
        ensures
            final(self).article_list.config == old(self).article_list.config,
            final(self)@ == old(self)@.connected(),
    {
        self.article_list.register_action_handler();
        self.article_reader.register_action_handler();
    }

    fn register_config_handler(&mut self, config: Config)
        ensures
            final(self)@ == old(self)@,
            final(self).article_list.config == config,
    {
        self.article_list.register_config_handler(config);
    }

    fn init(&mut self, area: Rect)
        ensures
            final(self).article_list.config == old(self).article_list.config,
            final(self)@ == old(self)@,
    {
        self.article_list.init(area);
        self.article_reader.init(area);
    }

    fn handle_events(&mut self, event: Event, tx: &mut ActionQueue) -> (r: Option<Action>)
        ensures
            final(self).article_list.config == old(self).article_list.config,
            r is None,
            final(self)@ == old(self)@.on_event(event),
            final(tx)@ == old(tx)@ + old(self)@.event_sends(event),
    {
        if self.selected_idx == self.idx {
            self.article_list.handle_events(event, tx);
            self.article_reader.handle_events(event, tx);
            assert(tx@ =~= old(tx)@ + old(self)@.event_sends(event));
        }
        None
    }

    fn handle_key_events(&mut self, key: KeyEvent, tx: &mut ActionQueue) -> (r: Option<Action>)
        ensures
            final(self).article_list.config == old(self).article_list.config,
            r is None,
            final(self)@ == old(self)@.on_key(key),
            final(tx)@ == old(tx)@ + old(self)@.list.key_sends(key),
    {
        self.article_list.handle_key_events(key, tx);
        None
    }

    fn handle_mouse_events(&mut self, mouse: MouseEvent, tx: &mut ActionQueue) -> (r: Option<
        Action,
    >)
        ensures
            final(self).article_list.config == old(self).article_list.config,
            r is None,
            final(self)@ == old(self)@.on_mouse(mouse),
            final(tx)@ == old(tx)@,
    {
        self.article_list.handle_mouse_events(mouse, tx);
        None
    }

    fn update(&mut self, action: &Action, tx: &mut ActionQueue) -> (r: Option<Action>)
        ensures
            final(self).article_list.config == old(self).article_list.config,
            r is None,
            final(self)@ == old(self)@.on_action(action@),
            final(tx)@ == old(tx)@,
    {
        self.article_list.update(action, tx);
        self.article_reader.update(action, tx);
        match action {
            Action::ChangeTab(idx) => {
                self.selected_idx = *idx;
            },
            Action::UpdateArticleView(idx, feed_items) => {
                if self.idx == *idx {
                    let copy = clone_feed_items(feed_items);
                    assert(copy.deep_view() =~= feed_items.deep_view());
                    self.article_list.set_feed_items(copy);
                }
            },
            _ => {},
        }
        None
    }
}

} // verus!
