//! The list of articles: the left pane of an article tab.

use crate::action::{Action, ActionQueue, ActionView};
use crate::components::{
    clamp_selection, clamped, next_selection, prev_selection, select_next, select_prev, Component,
    Row, RowView,
};
use crate::config::Config;
use crate::db::{clone_feed_items, FeedItem};
use crate::mode::{Mode, ModeView};
use crate::tables::ItemRow;
use crate::tui::{Event, KeyCode, KeyEvent, MouseEvent, MouseEventKind};
use vstd::prelude::*;

verus! {

/// The list of articles.
pub struct ArticleList {
    /// Whether the component is connected to the action queue.
    pub command_tx: bool,
    pub config: Config,
    pub mode: Mode,
    /// The place of the tab this list belongs to.
    pub idx: usize,
    pub feed_items: Option<Vec<FeedItem>>,
    /// The selected entry of the list.
    pub selected: Option<usize>,
    /// Whether the list, and not the reader beside it, has the input.
    pub active: bool,
}

/// The state of a list of articles.
pub struct ArticleListState {
    pub connected: bool,
    pub mode: ModeView,
    pub idx: usize,
    pub feed_items: Option<Seq<ItemRow>>,
    pub selected: Option<usize>,
    pub active: bool,
}

/// What a list of articles holds, if it holds one.
pub open spec fn items_of(items: Option<Vec<FeedItem>>) -> Option<Seq<ItemRow>> {
    match items {
        Some(items) => Some(items.deep_view()),
        None => None,
    }
}

impl View for ArticleList {
    type V = ArticleListState;

    open spec fn view(&self) -> ArticleListState {
        ArticleListState {
            connected: self.command_tx,
            mode: self.mode@,
            idx: self.idx,
            feed_items: items_of(self.feed_items),
            selected: self.selected,
            active: self.active,
        }
    }
}

impl ArticleListState {
    /// The state after a key press: while the list has the input and
    /// holds articles, the stepping keys move the selection.
    pub open spec fn on_key(self, key: KeyEvent) -> ArticleListState {
        if self.active && self.feed_items is Some {
            let len = self.feed_items->0.len();
            if key.code.steps_down() {
                ArticleListState { selected: next_selection(self.selected, len), ..self }
            } else if key.code.steps_up() {
                ArticleListState { selected: prev_selection(self.selected, len), ..self }
            } else {
                self
            }
        } else {
            self
        }
    }

    /// What a key press sends: while the list has the input, the opening
    /// keys ask that the selected article be read, and hand the input to
    /// the reader.
    pub open spec fn key_sends(self, key: KeyEvent) -> Seq<ActionView> {
        if self.active && self.feed_items is Some && key.code.opens() && self.connected
            && self.feed_items->0.len() > 0 {
            let items = self.feed_items->0;
            seq![
                ActionView::RequestUpdateReader(
                    self.idx,
                    items[clamped(self.selected, items.len()) as int],
                ),
                ActionView::ActivateReader,
            ]
        } else {
            Seq::empty()
        }
    }

    /// The state after a mouse event: while the list has the input and
    /// the mode shows articles, scrolling moves the selection.
    pub open spec fn on_mouse(self, mouse: MouseEvent) -> ArticleListState {
        if self.active && self.mode is ViewArticles && self.feed_items is Some {
            let len = self.feed_items->0.len();
            match mouse.kind {
                MouseEventKind::ScrollUp => ArticleListState {
                    selected: next_selection(self.selected, len),
                    ..self
                },
                MouseEventKind::ScrollDown => ArticleListState {
                    selected: prev_selection(self.selected, len),
                    ..self
                },
                MouseEventKind::Other => self,
            }
        } else {
            self
        }
    }

    /// The state after an action.
    pub open spec fn on_action(self, action: ActionView) -> ArticleListState {
        match action {
            ActionView::ModeChange(ModeView::ViewArticles(items)) => ArticleListState {
                feed_items: Some(items),
                ..self
            },
            ActionView::ActivateFeedList => ArticleListState {
                selected: Some(0),
                active: true,
                ..self
            },
            ActionView::ActivateReader => ArticleListState { selected: None, active: false, ..self },
            _ => self,
        }
    }

    /// The state after a terminal event.
    pub open spec fn on_event(self, event: Event) -> ArticleListState {
        match event {
            Event::Key(key) => self.on_key(key),
            Event::Mouse(mouse) => self.on_mouse(mouse),
            _ => self,
        }
    }

    /// What a terminal event sends.
    pub open spec fn event_sends(self, event: Event) -> Seq<ActionView> {
        match event {
            Event::Key(key) => self.key_sends(key),
            _ => Seq::empty(),
        }
    }
}

impl ArticleList {
    /// The list of the tab at `idx`, before it holds articles. It has the
    /// input, and its first entry is selected.
    pub fn new(idx: usize) -> (r: Self)
        ensures
            r.config.is_default(),
            r@ == (ArticleListState {
                connected: false,
                mode: ModeView::Main,
                idx,
                feed_items: None,
                selected: Some(0),
                active: true,
            }),
    {
        ArticleList {
            command_tx: false,
            config: Config::default(),
            mode: Mode::default(),
            idx,
            feed_items: None,
            selected: Some(0),
            active: true,
        }
    }

    /// Gives the list its articles.
    pub fn set_feed_items(&mut self, feed_items: Vec<FeedItem>)
        ensures
            final(self).config == old(self).config,
            final(self)@ == (ArticleListState {
                feed_items: Some(feed_items.deep_view()),
                ..old(self)@
            }),
    {
        self.feed_items = Some(feed_items);
    }
}

impl ArticleListState {
    /// The entries as they are drawn: title and description of each
    /// article, the selected entry marked; none while the list holds no
    /// articles.
    pub open spec fn rows(self) -> Option<Seq<RowView>> {
        match self.feed_items {
            Some(items) => Some(
                Seq::new(
                    items.len(),
                    |i: int|
                        RowView {
                            name: items[i].title,
                            desc: items[i].desc,
                            highlighted: self.selected == Some(i as usize),
                        },
                ),
            ),
            None => None,
        }
    }
}

/// What optional drawn entries say.
pub open spec fn rows_of(rows: Option<Vec<Row>>) -> Option<Seq<RowView>> {
    match rows {
        Some(rows) => Some(rows.deep_view()),
        None => None,
    }
}

impl ArticleList {
    /// The entries of the list as they are drawn, or `None` while the list
    /// holds no articles.
    pub fn rows(&self) -> (r: Option<Vec<Row>>)
        ensures
            rows_of(r) == self@.rows(),
    {
        let items = match &self.feed_items {
            Some(items) => items,
            None => {
                return None;
            },
        };
        let ghost all = self@.rows()->0;
        let mut rows: Vec<Row> = Vec::new();
        let mut i: usize = 0;
        while i < items.len()
            invariant
                i <= items.len(),
                self@.rows() == Some(all),
                self.feed_items == Some(*items),
                rows.deep_view() == all.take(i as int),
            decreases items.len() - i,
        {
            let ghost prev = rows.deep_view();
            rows.push(
                Row {
                    name: items[i].title.clone(),
                    desc: items[i].desc.clone(),
                    highlighted: match self.selected {
                        Some(at) => at == i,
                        None => false,
                    },
                },
            );
            assert(rows.deep_view() =~= prev.push(all[i as int]));
            assert(all.take(i + 1) =~= all.take(i as int).push(all[i as int]));
            i += 1;
        }
        assert(all.take(i as int) =~= all);
        Some(rows)
    }
}

impl Component for ArticleList {
    open spec fn wf(&self) -> bool {
        true
    }

    fn register_action_handler(&mut self)
        ensures
            final(self).config == old(self).config,
            final(self)@ == (ArticleListState { connected: true, ..old(self)@ }),
    {
        self.command_tx = true;
    }

    fn register_config_handler(&mut self, config: Config)
        ensures
            final(self)@ == old(self)@,
            final(self).config == config,
    {
        self.config = config;
    }

    fn handle_events(&mut self, event: Event, tx: &mut ActionQueue) -> (r: Option<Action>)
        ensures
            final(self).config == old(self).config,
            r is None,
            final(self)@ == old(self)@.on_event(event),
            final(tx)@ == old(tx)@ + old(self)@.event_sends(event),
    {
        match event {
            Event::Key(key) => self.handle_key_events(key, tx),
            Event::Mouse(mouse) => self.handle_mouse_events(mouse, tx),
            _ => None,
        }
    }

    fn handle_key_events(&mut self, key: KeyEvent, tx: &mut ActionQueue) -> (r: Option<Action>)
        ensures
            final(self).config == old(self).config,
            r is None,
            final(self)@ == old(self)@.on_key(key),
            final(tx)@ == old(tx)@ + old(self)@.key_sends(key),
    {
        if self.active {
            if let Some(feed_items) = &self.feed_items {
                let len = feed_items.len();
                match key.code {
                    KeyCode::Char('j') | KeyCode::Down => {
                        self.selected = select_next(self.selected, len);
                    },
                    KeyCode::Char('k') | KeyCode::Up => {
                        self.selected = select_prev(self.selected, len);
                    },
                    KeyCode::Char('l') | KeyCode::Enter => {
                        if self.command_tx && len > 0 {
                            let at = clamp_selection(self.selected, len);
                            let item = feed_items[at].clone();
                            tx.send(Action::RequestUpdateReader(self.idx, item));
                            tx.send(Action::ActivateReader);
                            assert(tx@ =~= old(tx)@ + old(self)@.key_sends(key));
                        }
                    },
                    _ => {},
                }
            }
        }
        None
    }

    fn handle_mouse_events(&mut self, mouse: MouseEvent, tx: &mut ActionQueue) -> (r: Option<
        Action,
    >)
        ensures
            final(self).config == old(self).config,
            r is None,
            final(self)@ == old(self)@.on_mouse(mouse),
            final(tx)@ == old(tx)@,
    {
        if self.active {
            if let Mode::ViewArticles(_) = &self.mode {
                if let Some(feed_items) = &self.feed_items {
                    let len = feed_items.len();
                    match mouse.kind {
                        MouseEventKind::ScrollUp => {
                            self.selected = select_next(self.selected, len);
                        },
                        MouseEventKind::ScrollDown => {
                            self.selected = select_prev(self.selected, len);
                        },
                        MouseEventKind::Other => {},
                    }
                }
            }
        }
        None
    }

    fn update(&mut self, action: &Action, tx: &mut ActionQueue) -> (r: Option<Action>)
        ensures
            final(self).config == old(self).config,
            r is None,
            final(self)@ == old(self)@.on_action(action@),
            final(tx)@ == old(tx)@,
    {
        match action {
            Action::ModeChange(mode) => {
                if let Mode::ViewArticles(feed_items) = mode {
                    let copy = clone_feed_items(feed_items);
                    assert(copy.deep_view() =~= feed_items.deep_view());
                    self.feed_items = Some(copy);
                }
            },
            Action::ActivateFeedList => {
                self.selected = Some(0);
                self.active = true;
            },
            Action::ActivateReader => {
                self.selected = None;
                self.active = false;
            },
            _ => {},
        }
        None
    }
}

} // verus!
