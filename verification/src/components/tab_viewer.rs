//! The tab workspace: the open tabs, the strip that names them, and the
//! tab that is selected.

use crate::action::{Action, ActionQueue, ActionView};
use crate::components::article_view::{ArticleView, ArticleViewState};
use crate::components::feed_view::{FeedView, FeedViewState};
use crate::components::group_view::{GroupView, GroupViewState};
use crate::components::tab_bar::TabBar;
use crate::components::Component;
use crate::config::Config;
use crate::mode::{Mode, ModeView};
use crate::tables::GroupRow;
use crate::tui::{Event, KeyCode, KeyEvent, MouseEvent, Rect};
use vstd::prelude::*;

verus! {

/// The content of a tab.
pub enum Tab {
    Groups(GroupView),
    Feeds(FeedView),
    Articles(ArticleView),
}

/// The state of a tab.
pub enum TabState {
    Groups(GroupViewState),
    Feeds(FeedViewState),
    Articles(ArticleViewState),
}

impl View for Tab {
    type V = TabState;

    open spec fn view(&self) -> TabState {
        match self {
            Tab::Groups(c) => TabState::Groups(c@),
            Tab::Feeds(c) => TabState::Feeds(c@),
            Tab::Articles(c) => TabState::Articles(c@),
        }
    }
}

impl DeepView for Tab {
    type V = TabState;

    open spec fn deep_view(&self) -> TabState {
        self@
    }
}

impl TabState {
    /// The place the tab takes itself to stand at.
    pub open spec fn idx(self) -> usize {
        match self {
            TabState::Groups(c) => c.idx,
            TabState::Feeds(c) => c.idx,
            TabState::Articles(c) => c.idx,
        }
    }

    /// The state once the tab stands at the place `idx`.
    pub open spec fn at(self, idx: usize) -> TabState {
        match self {
            TabState::Groups(c) => TabState::Groups(GroupViewState { idx, ..c }),
            TabState::Feeds(c) => TabState::Feeds(FeedViewState { idx, ..c }),
            TabState::Articles(c) => TabState::Articles(c.at(idx)),
        }
    }

    /// The state after a terminal event.
    pub open spec fn on_event(self, event: Event) -> TabState {
        match self {
            TabState::Groups(c) => TabState::Groups(c.on_event(event)),
            TabState::Feeds(c) => TabState::Feeds(c.on_event(event)),
            TabState::Articles(c) => TabState::Articles(c.on_event(event)),
        }
    }

    /// What a terminal event sends.
    pub open spec fn event_sends(self, event: Event) -> Seq<ActionView> {
        match self {
            TabState::Groups(c) => c.event_sends(event),
            TabState::Feeds(c) => c.event_sends(event),
            TabState::Articles(c) => c.event_sends(event),
        }
    }

    /// The state after a key press handed to the tab itself.
    pub open spec fn on_key(self, key: KeyEvent) -> TabState {
        match self {
            TabState::Groups(c) => TabState::Groups(c.on_key(key)),
            TabState::Feeds(c) => TabState::Feeds(c.on_key(key)),
            TabState::Articles(c) => TabState::Articles(c.on_key(key)),
        }
    }

    /// What a key press handed to the tab itself sends.
    pub open spec fn key_sends(self, key: KeyEvent) -> Seq<ActionView> {
        match self {
            TabState::Groups(c) => c.key_sends(key),
            TabState::Feeds(c) => c.key_sends(key),
            TabState::Articles(c) => c.list.key_sends(key),
        }
    }

    /// The state after a mouse event handed to the tab itself.
    pub open spec fn on_mouse(self, mouse: MouseEvent) -> TabState {
        match self {
            TabState::Groups(c) => TabState::Groups(c.on_mouse(mouse)),
            TabState::Feeds(c) => TabState::Feeds(c),
            TabState::Articles(c) => TabState::Articles(c.on_mouse(mouse)),
        }
    }

    /// The state after an action.
    pub open spec fn on_action(self, action: ActionView) -> TabState {
        match self {
            TabState::Groups(c) => TabState::Groups(c.on_action(action)),
            TabState::Feeds(c) => TabState::Feeds(c.on_action(action)),
            TabState::Articles(c) => TabState::Articles(c.on_action(action)),
        }
    }

    /// The state of the tab connected to the action queue.
    pub open spec fn connected(self) -> TabState {
        match self {
            TabState::Groups(c) => TabState::Groups(GroupViewState { connected: true, ..c }),
            TabState::Feeds(c) => TabState::Feeds(FeedViewState { connected: true, ..c }),
            TabState::Articles(c) => TabState::Articles(c.connected()),
        }
    }
}

impl Tab {
    /// The configuration that the tab holds.
    pub open spec fn config(&self) -> Config {
        match self {
            Tab::Groups(c) => c.config,
            Tab::Feeds(c) => c.config,
            Tab::Articles(c) => c.article_list.config,
        }
    }

    /// Moves the tab to the place `idx`: it answers to that place from now
    /// on.
    pub fn set_index(&mut self, idx: usize)
        ensures
            final(self).config() == old(self).config(),
            final(self)@ == old(self)@.at(idx),
    {
        match self {
            Tab::Groups(c) => {
                c.idx = idx;
            },
            Tab::Feeds(c) => {
                c.idx = idx;
            },
            Tab::Articles(c) => {
                c.set_index(idx);
            },
        }
    }
}

impl Component for Tab {
    open spec fn wf(&self) -> bool {
        true
    }

    fn register_action_handler(&mut self)
        ensures
            final(self).config() == old(self).config(),
            final(self)@ == old(self)@.connected(),
    {
        match self {
            Tab::Groups(c) => c.register_action_handler(),
            Tab::Feeds(c) => c.register_action_handler(),
            Tab::Articles(c) => c.register_action_handler(),
        }
    }

    fn register_config_handler(&mut self, config: Config)
        ensures
            final(self)@ == old(self)@,
            final(self).config() == config,
    {
        match self {
            Tab::Groups(c) => c.register_config_handler(config),
            Tab::Feeds(c) => c.register_config_handler(config),
            Tab::Articles(c) => c.register_config_handler(config),
        }
    }

    fn init(&mut self, area: Rect)
        ensures
            final(self).config() == old(self).config(),
            final(self)@ == old(self)@,
    {
        match self {
            Tab::Groups(c) => c.init(area),
            Tab::Feeds(c) => c.init(area),
            Tab::Articles(c) => c.init(area),
        }
    }

    fn handle_events(&mut self, event: Event, tx: &mut ActionQueue) -> (r: Option<Action>)
        ensures
            final(self).config() == old(self).config(),
            r is None,
            final(self)@ == old(self)@.on_event(event),
            final(tx)@ == old(tx)@ + old(self)@.event_sends(event),
    {
        match self {
            Tab::Groups(c) => c.handle_events(event, tx),
            Tab::Feeds(c) => c.handle_events(event, tx),
            Tab::Articles(c) => c.handle_events(event, tx),
        }
    }

    fn handle_key_events(&mut self, key: KeyEvent, tx: &mut ActionQueue) -> (r: Option<Action>)
        ensures
            final(self).config() == old(self).config(),
            r is None,
            final(self)@ == old(self)@.on_key(key),
            final(tx)@ == old(tx)@ + old(self)@.key_sends(key),
    {
        match self {
            Tab::Groups(c) => c.handle_key_events(key, tx),
            Tab::Feeds(c) => c.handle_key_events(key, tx),
            Tab::Articles(c) => c.handle_key_events(key, tx),
        }
    }

    fn handle_mouse_events(&mut self, mouse: MouseEvent, tx: &mut ActionQueue) -> (r: Option<
        Action,
    >)
        ensures
            final(self).config() == old(self).config(),
            r is None,
            final(self)@ == old(self)@.on_mouse(mouse),
            final(tx)@ == old(tx)@,
    {
        match self {
            Tab::Groups(c) => c.handle_mouse_events(mouse, tx),
            Tab::Feeds(c) => c.handle_mouse_events(mouse, tx),
            Tab::Articles(c) => c.handle_mouse_events(mouse, tx),
        }
    }

    fn update(&mut self, action: &Action, tx: &mut ActionQueue) -> (r: Option<Action>)
        ensures
            final(self).config() == old(self).config(),
            r is None,
            final(self)@ == old(self)@.on_action(action@),
            final(tx)@ == old(tx)@,
    {
        match self {
            Tab::Groups(c) => c.update(action, tx),
            Tab::Feeds(c) => c.update(action, tx),
            Tab::Articles(c) => c.update(action, tx),
        }
    }
}

/// The tab workspace.
pub struct TabViewer {
    /// Whether the component is connected to the action queue.
    pub command_tx: bool,
    pub config: Config,
    pub mode: Mode,
    pub tab_bar: TabBar,
    pub tabs: Vec<Tab>,
    /// The place of the selected tab.
    pub selected_tab: usize,
}

/// The state of the tab workspace.
pub struct TabViewerState {
    pub connected: bool,
    pub mode: ModeView,
    /// The titles on the strip.
    pub titles: Seq<Seq<char>>,
    /// The place the strip shows as selected.
    pub bar_selected: usize,
    pub tabs: Seq<TabState>,
    pub selected_tab: usize,
}

impl View for TabViewer {
    type V = TabViewerState;

    open spec fn view(&self) -> TabViewerState {
        TabViewerState {
            connected: self.command_tx,
            mode: self.mode@,
            titles: self.tab_bar@.tabs,
            bar_selected: self.tab_bar@.selected_tab,
            tabs: self.tabs.deep_view(),
            selected_tab: self.selected_tab,
        }
    }
}

/// The configurations that the tabs hold, tab by tab.
pub open spec fn tab_configs(tabs: Seq<Tab>) -> Seq<Config> {
    Seq::new(tabs.len(), |k: int| tabs[k].config())
}

/// The tabs after the first `n` of them saw a terminal event.
pub open spec fn tabs_after_event(tabs: Seq<TabState>, event: Event, n: int) -> Seq<TabState> {
    Seq::new(
        tabs.len(),
        |k: int|
            if k < n {
                tabs[k].on_event(event)
            } else {
                tabs[k]
            },
    )
}

/// What the first `n` tabs send on a terminal event, tab by tab.
pub open spec fn tabs_event_sends(tabs: Seq<TabState>, event: Event, n: int) -> Seq<ActionView>
    decreases n,
{
    if n <= 0 {
        Seq::empty()
    } else {
        tabs_event_sends(tabs, event, n - 1) + tabs[n - 1].event_sends(event)
    }
}

/// The tabs after the first `n` of them saw a mouse event.
pub open spec fn tabs_after_mouse(tabs: Seq<TabState>, mouse: MouseEvent, n: int) -> Seq<TabState> {
    Seq::new(
        tabs.len(),
        |k: int|
            if k < n {
                tabs[k].on_mouse(mouse)
            } else {
                tabs[k]
            },
    )
}

/// The tabs after the first `n` of them saw an action.
pub open spec fn tabs_after_action(tabs: Seq<TabState>, action: ActionView, n: int) -> Seq<
    TabState,
> {
    Seq::new(
        tabs.len(),
        |k: int|
            if k < n {
                tabs[k].on_action(action)
            } else {
                tabs[k]
            },
    )
}

/// The tabs with the first `n` of them connected to the action queue.
pub open spec fn tabs_connected(tabs: Seq<TabState>, n: int) -> Seq<TabState> {
    Seq::new(
        tabs.len(),
        |k: int|
            if k < n {
                tabs[k].connected()
            } else {
                tabs[k]
            },
    )
}

/// The tabs with the first `n` of them standing at their places.
pub open spec fn tabs_renumbered(tabs: Seq<TabState>, n: int) -> Seq<TabState> {
    Seq::new(
        tabs.len(),
        |k: int|
            if k < n {
                tabs[k].at(k as usize)
            } else {
                tabs[k]
            },
    )
}

impl TabViewerState {
    /// The workspace as it is first made: one tab, the list of groups,
    /// selected.
    pub open spec fn fresh() -> TabViewerState {
        TabViewerState {
            connected: false,
            mode: ModeView::Main,
            titles: seq!["Groups"@],
            bar_selected: 0,
            tabs: seq![
                TabState::Groups(
                    GroupViewState {
                        connected: false,
                        mode: ModeView::Main,
                        idx: 0,
                        selected_idx: 0,
                        groups: Seq::empty(),
                        selected: Some(0),
                    },
                ),
            ],
            selected_tab: 0,
        }
    }

    /// The rules of the workspace: the strip names every tab and shows
    /// the selected one, the selected tab exists while there is a tab (a
    /// workspace without tabs selects the first place), and every tab
    /// knows its place.
    pub open spec fn wf(self) -> bool {
        &&& self.tabs.len() <= usize::MAX
        &&& self.titles.len() == self.tabs.len()
        &&& if self.tabs.len() == 0 {
            self.selected_tab == 0
        } else {
            self.selected_tab < self.tabs.len()
        }
        &&& self.bar_selected == self.selected_tab
        &&& forall|i: int| 0 <= i < self.tabs.len() ==> (#[trigger] self.tabs[i]).idx() == i
    }

    /// The state with the tab at `idx` selected; a place without a tab
    /// selects nothing.
    pub open spec fn selecting(self, idx: usize) -> TabViewerState {
        if idx < self.tabs.len() {
            TabViewerState { selected_tab: idx, bar_selected: idx, ..self }
        } else {
            self
        }
    }

    /// What selecting a tab sends: the notice of the change.
    pub open spec fn select_sends(self, idx: usize) -> Seq<ActionView> {
        if idx < self.tabs.len() && self.connected {
            seq![ActionView::ChangeTab(idx)]
        } else {
            Seq::empty()
        }
    }

    /// The state with one more tab: it stands at the end, knows its place,
    /// and is selected.
    pub open spec fn adding(self, title: Seq<char>, tab: TabState) -> TabViewerState {
        TabViewerState {
            titles: self.titles.push(title),
            tabs: self.tabs.push(tab.at(self.tabs.len() as usize)),
            selected_tab: self.tabs.len() as usize,
            bar_selected: self.tabs.len() as usize,
            ..self
        }
    }

    /// What adding a tab sends: the notice that it is selected.
    pub open spec fn add_sends(self) -> Seq<ActionView> {
        if self.connected {
            seq![ActionView::ChangeTab(self.tabs.len() as usize)]
        } else {
            Seq::empty()
        }
    }

    /// Whether there is a tab at `idx` to remove.
    pub open spec fn removable(self, idx: usize) -> bool {
        idx < self.tabs.len()
    }

    /// The selected place after the tab at `idx` was removed. The tab that
    /// was selected stays selected, at its new place; where the selected
    /// tab itself is removed, the tab before it is selected, or the new
    /// first tab where the first was removed.
    pub open spec fn selected_after_removal(self, idx: usize) -> usize {
        if idx <= self.selected_tab && self.selected_tab > 0 {
            (self.selected_tab - 1) as usize
        } else {
            self.selected_tab
        }
    }

    /// The state without the tab at `idx`: the tabs behind it move up, and
    /// every tab knows its new place at once.
    pub open spec fn removing(self, idx: usize) -> TabViewerState {
        if self.removable(idx) {
            let rest = self.tabs.remove(idx as int);
            TabViewerState {
                titles: self.titles.remove(idx as int),
                tabs: tabs_renumbered(rest, rest.len() as int),
                selected_tab: self.selected_after_removal(idx),
                bar_selected: self.selected_after_removal(idx),
                ..self
            }
        } else {
            self
        }
    }

    /// What removing a tab sends: the notice of the selected place, where
    /// the removal moved it or took the selected tab away and a tab is
    /// left to select.
    pub open spec fn remove_sends(self, idx: usize) -> Seq<ActionView> {
        if self.removable(idx) && idx <= self.selected_tab && self.tabs.len() > 1
            && self.connected {
            seq![ActionView::ChangeTab(self.selected_after_removal(idx))]
        } else {
            Seq::empty()
        }
    }

    /// The place before the selected one, or the last before the first.
    pub open spec fn place_before(self) -> usize {
        if self.selected_tab == 0 {
            if self.tabs.len() == 0 {
                0
            } else {
                (self.tabs.len() - 1) as usize
            }
        } else {
            (self.selected_tab - 1) as usize
        }
    }

    /// The place after the selected one, or the first after the last.
    pub open spec fn place_after(self) -> usize {
        if self.selected_tab + 1 < self.tabs.len() {
            (self.selected_tab + 1) as usize
        } else {
            0
        }
    }

    /// The state after a key press: shift-H and shift-L select the tab
    /// before and after, `x` removes the selected tab unless it is the
    /// first.
    pub open spec fn on_key(self, key: KeyEvent) -> TabViewerState {
        if key.shift {
            if key.code == KeyCode::Char('H') {
                self.selecting(self.place_before())
            } else if key.code == KeyCode::Char('L') {
                self.selecting(self.place_after())
            } else {
                self
            }
        } else if key.code == KeyCode::Char('x') && self.selected_tab != 0 {
            self.removing(self.selected_tab)
        } else {
            self
        }
    }

    /// What a key press sends.
    pub open spec fn key_sends(self, key: KeyEvent) -> Seq<ActionView> {
        if key.shift {
            if key.code == KeyCode::Char('H') {
                self.select_sends(self.place_before())
            } else if key.code == KeyCode::Char('L') {
                self.select_sends(self.place_after())
            } else {
                Seq::empty()
            }
        } else if key.code == KeyCode::Char('x') && self.selected_tab != 0 {
            self.remove_sends(self.selected_tab)
        } else {
            Seq::empty()
        }
    }

    /// What a key press answers: the notice of a removed tab.
    pub open spec fn key_reply(self, key: KeyEvent) -> Option<ActionView> {
        if !key.shift && key.code == KeyCode::Char('x') && self.selected_tab != 0
            && self.removable(self.selected_tab) {
            Some(ActionView::RemoveTab(self.selected_tab))
        } else {
            None
        }
    }

    /// The state after a mouse event: every tab sees it.
    pub open spec fn on_mouse(self, mouse: MouseEvent) -> TabViewerState {
        TabViewerState { tabs: tabs_after_mouse(self.tabs, mouse, self.tabs.len() as int), ..self }
    }

    /// The state after every tab saw a terminal event.
    pub open spec fn seen_event(self, event: Event) -> TabViewerState {
        TabViewerState { tabs: tabs_after_event(self.tabs, event, self.tabs.len() as int), ..self }
    }

    /// The state after a terminal event: every tab sees it first, then
    /// the workspace itself reads a key press or a mouse event.
    pub open spec fn on_event(self, event: Event) -> TabViewerState {
        match event {
            Event::Key(key) => self.seen_event(event).on_key(key),
            Event::Mouse(mouse) => self.seen_event(event).on_mouse(mouse),
            _ => self.seen_event(event),
        }
    }

    /// What a terminal event sends: what the tabs send, tab by tab, then
    /// what the workspace itself sends.
    pub open spec fn event_sends(self, event: Event) -> Seq<ActionView> {
        let from_tabs = tabs_event_sends(self.tabs, event, self.tabs.len() as int);
        match event {
            Event::Key(key) => from_tabs + self.seen_event(event).key_sends(key),
            _ => from_tabs,
        }
    }

    /// What a terminal event answers.
    pub open spec fn event_reply(self, event: Event) -> Option<ActionView> {
        match event {
            Event::Key(key) => self.seen_event(event).key_reply(key),
            _ => None,
        }
    }

    /// The feed tab that is opened for a group.
    pub open spec fn feed_tab(self, group: GroupRow) -> TabState {
        TabState::Feeds(
            FeedViewState {
                connected: self.connected,
                mode: ModeView::Main,
                group,
                idx: self.tabs.len() as usize,
                selected_idx: self.tabs.len() as usize,
                feeds: Seq::empty(),
                selected: Some(0),
            },
        )
    }

    /// The article tab that is opened.
    pub open spec fn article_tab(self) -> TabState {
        let fresh = ArticleViewState::fresh(self.tabs.len() as usize);
        TabState::Articles(
            if self.connected {
                fresh.connected()
            } else {
                fresh
            },
        )
    }

    /// The state after every tab saw an action.
    pub open spec fn seen_action(self, action: ActionView) -> TabViewerState {
        TabViewerState {
            tabs: tabs_after_action(self.tabs, action, self.tabs.len() as int),
            ..self
        }
    }

    /// The state after an action: every tab sees it first; a request for
    /// a tab opens one at the end, empty, and selects it.
    pub open spec fn on_action(self, action: ActionView) -> TabViewerState {
        let seen = self.seen_action(action);
        match action {
            ActionView::ModeChange(mode) => TabViewerState { mode, ..seen },
            ActionView::NewTabFeedView(group) => seen.adding(group.name, seen.feed_tab(group)),
            ActionView::NewTabArticleViewAll => seen.adding("All Articles"@, seen.article_tab()),
            ActionView::NewTabArticleViewFeed(feed) => seen.adding(feed.name, seen.article_tab()),
            ActionView::NewTabArticleViewGroup(group) => seen.adding(
                group.name,
                seen.article_tab(),
            ),
            _ => seen,
        }
    }

    /// Whether the action asks for a tab.
    pub open spec fn opens_tab(action: ActionView) -> bool {
        action is NewTabFeedView || action is NewTabArticleViewAll
            || action is NewTabArticleViewFeed || action is NewTabArticleViewGroup
    }

    /// What an action sends: the notice that the opened tab is selected.
    pub open spec fn action_sends(self, action: ActionView) -> Seq<ActionView> {
        if Self::opens_tab(action) {
            self.add_sends()
        } else {
            Seq::empty()
        }
    }

    /// What an action answers: the request for the content of the opened
    /// tab, addressed to the place of that tab.
    pub open spec fn action_reply(self, action: ActionView) -> Option<ActionView> {
        let place = self.tabs.len() as usize;
        match action {
            ActionView::NewTabFeedView(group) => Some(
                ActionView::RequestUpdateFeedView(place, group),
            ),
            ActionView::NewTabArticleViewAll => Some(
                ActionView::RequestUpdateArticleViewAll(place),
            ),
            ActionView::NewTabArticleViewFeed(feed) => Some(
                ActionView::RequestUpdateArticleViewFeed(place, feed),
            ),
            ActionView::NewTabArticleViewGroup(group) => Some(
                ActionView::RequestUpdateArticleViewGroup(place, group),
            ),
            _ => None,
        }
    }
}

/// The view of an optional action.
pub open spec fn reply_of(action: Option<Action>) -> Option<ActionView> {
    match action {
        Some(a) => Some(a@),
        None => None,
    }
}

impl TabViewer {
    /// The workspace with its one tab, the list of groups, selected.
    pub fn new() -> (r: Self)
        ensures
            r@.wf(),
            r@ == TabViewerState::fresh(),
            r.config.is_default(),
            r.tabs@.len() == 1,
            r.tabs@[0].config().is_default(),
    {
        let mut tab_bar = TabBar::new();
        tab_bar.add_tab("Groups".to_string());
        let group_view = GroupView::new();
        let mut tabs: Vec<Tab> = Vec::new();
        tabs.push(Tab::Groups(group_view));
        let r = TabViewer {
            command_tx: false,
            config: Config::default(),
            mode: Mode::Main,
            tab_bar,
            tabs,
            selected_tab: 0,
        };
        assert(r@.titles =~= seq!["Groups"@]);
        assert(r@.tabs =~= seq![r.tabs[0]@]);
        r
    }

    /// Adds a tab at the end and selects it. The tab is told its place.
    /// Returns the place of the tab: the last one.
    pub fn add_new_tab(&mut self, tab_name: String, component: Tab, tx: &mut ActionQueue) -> (r:
        usize)
        requires
            old(self)@.wf(),
        ensures
            tab_configs(final(self).tabs@) == tab_configs(old(self).tabs@).push(
                component.config(),
            ),
            final(self)@.wf(),
            final(self).config == old(self).config,
            final(self)@ == old(self)@.adding(tab_name@, component@),
            final(tx)@ == old(tx)@ + old(self)@.add_sends(),
            r == old(self)@.tabs.len(),
            r == final(self)@.tabs.len() - 1,
            r == final(self)@.selected_tab,
    {
        let idx = self.tabs.len();
        let mut component = component;
        component.set_index(idx);
        let ghost before = self.tabs.deep_view();
        self.tabs.push(component);
        assert(self.tabs.deep_view() =~= before.push(component@));
        assert(tab_configs(self.tabs@) =~= tab_configs(old(self).tabs@).push(component.config()));
        self.selected_tab = idx;
        self.tab_bar.add_tab(tab_name);
        self.tab_bar.select(idx);
        if self.command_tx {
            tx.send(Action::ChangeTab(idx));
        }
        assert(tx@ =~= old(tx)@ + old(self)@.add_sends());
        assert forall|i: int| 0 <= i < self@.tabs.len() implies (#[trigger] self@.tabs[i]).idx()
            == i by {
            if i < before.len() {
                assert(self@.tabs[i] == old(self)@.tabs[i]);
            }
        }
        assert(self@.tabs.len() == self.tabs.len());
        idx
    }

    /// Removes the tab at `tab_idx`, with its title. The tabs behind it
    /// move up and every tab is told its place at once. The tab that was
    /// selected stays selected; where the selected tab itself is removed,
    /// the tab before it is selected, or the new first tab where the
    /// first was removed. Removing the only tab leaves a workspace
    /// without tabs. A place without a tab removes nothing.
    pub fn remove_tab(&mut self, tab_idx: usize, tx: &mut ActionQueue)
        requires
            old(self)@.wf(),
        ensures
            tab_configs(final(self).tabs@) == if tab_idx < old(self).tabs@.len() {
                tab_configs(old(self).tabs@).remove(tab_idx as int)
            } else {
                tab_configs(old(self).tabs@)
            },
            final(self)@.wf(),
            final(self).config == old(self).config,
            final(self)@ == old(self)@.removing(tab_idx),
            final(tx)@ == old(tx)@ + old(self)@.remove_sends(tab_idx),
    {
        if tab_idx >= self.tabs.len() {
            assert(tx@ =~= old(tx)@ + old(self)@.remove_sends(tab_idx));
            return ;
        }
        let ghost before = self.tabs.deep_view();
        let ghost rest = before.remove(tab_idx as int);
        self.tabs.remove(tab_idx);
        assert(self.tabs.deep_view() =~= rest);
        assert(tab_configs(self.tabs@) =~= tab_configs(old(self).tabs@).remove(tab_idx as int));
        self.tab_bar.remove_tab(tab_idx);
        let mut k: usize = 0;
        assert(self.tabs.deep_view() =~= tabs_renumbered(rest, 0));
        while k < self.tabs.len()
            invariant
                k <= self.tabs.len(),
                self.tabs.len() == rest.len(),
                self.tabs.deep_view() == tabs_renumbered(rest, k as int),
                self.command_tx == old(self).command_tx,
                self.config == old(self).config,
                self.mode == old(self).mode,
                self.selected_tab == old(self).selected_tab,
                self.tab_bar@.tabs == old(self)@.titles.remove(tab_idx as int),
                self.tab_bar@.selected_tab == old(self)@.bar_selected,
                tab_configs(self.tabs@) == tab_configs(old(self).tabs@).remove(tab_idx as int),
            decreases self.tabs.len() - k,
        {
            let ghost prev = self.tabs.deep_view();
            let ghost held = self.tabs@;
            assert(prev[k as int] == self.tabs@[k as int]@);
            self.tabs[k].set_index(k);
            assert(tab_configs(self.tabs@) =~= tab_configs(held));
            assert forall|j: int| 0 <= j < prev.len() implies (#[trigger] self.tabs.deep_view()[j])
                == tabs_renumbered(rest, k + 1)[j] by {
                if j != k {
                    assert(self.tabs.deep_view()[j] == prev[j]);
                }
            }
            assert(self.tabs.deep_view() =~= tabs_renumbered(rest, k + 1));
            k += 1;
        }
        if tab_idx <= self.selected_tab {
            let place = if self.selected_tab > 0 {
                self.selected_tab - 1
            } else {
                0
            };
            self.selected_tab = place;
            self.tab_bar.select(place);
            if self.command_tx && self.tabs.len() > 0 {
                tx.send(Action::ChangeTab(place));
            }
        }
        assert(tx@ =~= old(tx)@ + old(self)@.remove_sends(tab_idx));
    }

    /// Selects the tab at `idx` and tells the tabs so. A place without a
    /// tab selects nothing.
    pub fn select_tab(&mut self, idx: usize, tx: &mut ActionQueue)
        requires
            old(self)@.wf(),
        ensures
            final(self).tabs == old(self).tabs,
            final(self)@.wf(),
            final(self).config == old(self).config,
            final(self)@ == old(self)@.selecting(idx),
            final(tx)@ == old(tx)@ + old(self)@.select_sends(idx),
    {
        if idx < self.tabs.len() {
            self.selected_tab = idx;
            self.tab_bar.select(idx);
            if self.command_tx {
                tx.send(Action::ChangeTab(idx));
            }
        }
        assert(tx@ =~= old(tx)@ + old(self)@.select_sends(idx));
    }

    /// The tab that is drawn: the selected one, and no other. Nothing is
    /// drawn where the selected place holds no tab.
    pub fn visible_tab(&self) -> (r: Option<&Tab>)
        ensures
            match r {
                Some(tab) => self@.selected_tab < self@.tabs.len() && tab@
                    == self@.tabs[self@.selected_tab as int],
                None => self@.selected_tab >= self@.tabs.len(),
            },
    {
        if self.selected_tab < self.tabs.len() {
            Some(&self.tabs[self.selected_tab])
        } else {
            None
        }
    }
}

/// Removing a tab that is there takes it and its title away and tells
/// every tab its place: the workspace keeps its rules and holds one tab
/// less; the tabs before the removed one stay where they were, and every
/// tab behind it stands one place lower and knows so.
pub proof fn law_removal_renumbers(s: TabViewerState, idx: usize)
    requires
        s.wf(),
        idx < s.tabs.len(),
    ensures
        s.removing(idx).wf(),
        s.removing(idx).tabs.len() == s.tabs.len() - 1,
        s.removing(idx).titles == s.titles.remove(idx as int),
        forall|k: int|
            0 <= k < idx ==> #[trigger] s.removing(idx).tabs[k] == s.tabs[k].at(k as usize),
        forall|k: int|
            idx <= k < s.tabs.len() - 1 ==> #[trigger] s.removing(idx).tabs[k] == s.tabs[k
                + 1].at(k as usize),
        forall|k: int| 0 <= k < s.tabs.len() - 1 ==> (#[trigger] s.removing(idx).tabs[k]).idx() == k,
{
    let after = s.removing(idx);
    assert forall|i: int| 0 <= i < after.tabs.len() implies (#[trigger] after.tabs[i]).idx()
        == i by {
        lemma_at_place(s.tabs.remove(idx as int)[i], i as usize);
    }
}

/// Removing the selected tab, unless it is the first, selects the tab
/// before it: the workspace keeps its rules, holds one tab less, the tabs
/// before the removed one stay where they were, the tabs behind it move
/// up by one, and the removed tab is no longer among them.
pub proof fn law_removing_selected_selects_preceding(s: TabViewerState)
    requires
        s.wf(),
        s.selected_tab != 0,
    ensures
        s.removing(s.selected_tab).wf(),
        s.removing(s.selected_tab).selected_tab == s.selected_tab - 1,
        s.removing(s.selected_tab).tabs.len() == s.tabs.len() - 1,
        forall|k: int|
            0 <= k < s.selected_tab ==> #[trigger] s.removing(s.selected_tab).tabs[k]
                == s.tabs[k].at(k as usize),
        forall|k: int|
            s.selected_tab <= k < s.tabs.len() - 1 ==> #[trigger] s.removing(
                s.selected_tab,
            ).tabs[k] == s.tabs[k + 1].at(k as usize),
{
    let after = s.removing(s.selected_tab);
    assert forall|i: int| 0 <= i < after.tabs.len() implies (#[trigger] after.tabs[i]).idx()
        == i by {
        lemma_at_place(s.tabs.remove(s.selected_tab as int)[i], i as usize);
    }
}

/// Adding a tab selects it, at the last place.
pub proof fn law_added_tab_is_selected(s: TabViewerState, title: Seq<char>, tab: TabState)
    requires
        s.wf(),
        s.tabs.len() < usize::MAX,
    ensures
        s.adding(title, tab).wf(),
        s.adding(title, tab).selected_tab == s.adding(title, tab).tabs.len() - 1,
        s.adding(title, tab).tabs.last() == tab.at(s.tabs.len() as usize),
{
    let after = s.adding(title, tab);
    assert forall|i: int| 0 <= i < after.tabs.len() implies (#[trigger] after.tabs[i]).idx()
        == i by {
        if i < s.tabs.len() {
            assert(after.tabs[i] == s.tabs[i]);
        } else {
            lemma_at_place(tab, i as usize);
        }
    }
}

/// A tab that is told its place stands there.
pub proof fn lemma_at_place(tab: TabState, idx: usize)
    ensures
        tab.at(idx).idx() == idx,
{
}

/// Seeing an event, a mouse event or an action leaves a tab at its place.
pub proof fn lemma_tab_stays(tab: TabState, event: Event, mouse: MouseEvent, action: ActionView)
    ensures
        tab.on_event(event).idx() == tab.idx(),
        tab.on_mouse(mouse).idx() == tab.idx(),
        tab.on_action(action).idx() == tab.idx(),
        tab.connected().idx() == tab.idx(),
{
}

impl Component for TabViewer {
    open spec fn wf(&self) -> bool {
        self@.wf()
    }

    fn register_action_handler(&mut self)
        ensures
            tab_configs(final(self).tabs@) == tab_configs(old(self).tabs@),
            final(self)@ == (TabViewerState {
                connected: true,
                tabs: tabs_connected(old(self)@.tabs, old(self)@.tabs.len() as int),
                ..old(self)@
            }),
            final(self).config == old(self).config,
    {
        let ghost start = self.tabs.deep_view();
        let mut i: usize = 0;
        assert(self.tabs.deep_view() =~= tabs_connected(start, 0));
        while i < self.tabs.len()
            invariant
                i <= self.tabs.len(),
                self.tabs.len() == start.len(),
                self.tabs.deep_view() == tabs_connected(start, i as int),
                self.command_tx == old(self).command_tx,
                self.config == old(self).config,
                self.mode == old(self).mode,
                self.selected_tab == old(self).selected_tab,
                self.tab_bar == old(self).tab_bar,
                tab_configs(self.tabs@) == tab_configs(old(self).tabs@),
            decreases self.tabs.len() - i,
        {
            let ghost prev = self.tabs.deep_view();
            let ghost held = self.tabs@;
            assert(prev[i as int] == self.tabs@[i as int]@);
            self.tabs[i].register_action_handler();
            assert(tab_configs(self.tabs@) =~= tab_configs(held));
            assert forall|j: int| 0 <= j < prev.len() implies (#[trigger] self.tabs.deep_view()[j])
                == tabs_connected(start, i + 1)[j] by {
                if j != i {
                    assert(self.tabs.deep_view()[j] == prev[j]);
                }
            }
            assert(self.tabs.deep_view() =~= tabs_connected(start, i + 1));
            i += 1;
        }
        self.command_tx = true;
        proof {
            assert forall|k: int| 0 <= k < self@.tabs.len() implies (#[trigger] self@.tabs[k]).idx()
                == k by {
                lemma_tab_stays(
                    start[k],
                    Event::Other,
                    MouseEvent { kind: crate::tui::MouseEventKind::Other },
                    ActionView::Tick,
                );
                assert(start[k].idx() == k);
            }
        }
    }

    fn register_config_handler(&mut self, config: Config)
        ensures
            final(self)@ == old(self)@,
            final(self).config == config,
            forall|k: int|
                0 <= k < final(self).tabs@.len() ==> (#[trigger] final(self).tabs@[k])
                    .config().same_as(&config),
    {
        let ghost start = self.tabs.deep_view();
        let mut i: usize = 0;
        while i < self.tabs.len()
            invariant
                i <= self.tabs.len(),
                self.tabs.deep_view() == start,
                self.command_tx == old(self).command_tx,
                self.mode == old(self).mode,
                self.selected_tab == old(self).selected_tab,
                self.tab_bar == old(self).tab_bar,
                forall|k: int| 0 <= k < i ==> (#[trigger] self.tabs@[k]).config().same_as(&config),
            decreases self.tabs.len() - i,
        {
            let ghost prev = self.tabs.deep_view();
            let ghost held = self.tabs@;
            assert(prev[i as int] == self.tabs@[i as int]@);
            self.tabs[i].register_config_handler(config.clone());
            assert forall|k: int| 0 <= k < i + 1 implies (#[trigger] self.tabs@[k])
                .config().same_as(&config) by {
                if k < i {
                    assert(self.tabs@[k] == held[k]);
                }
            }
            assert forall|j: int| 0 <= j < prev.len() implies (#[trigger] self.tabs.deep_view()[j])
                == prev[j] by {
                if j != i {
                    assert(self.tabs.deep_view()[j] == prev[j]);
                }
            }
            assert(self.tabs.deep_view() =~= prev);
            i += 1;
        }
        self.config = config;
    }

    fn init(&mut self, area: Rect)
        ensures
            tab_configs(final(self).tabs@) == tab_configs(old(self).tabs@),
            final(self)@ == old(self)@,
            final(self).config == old(self).config,
    {
        let ghost start = self.tabs.deep_view();
        let mut i: usize = 0;
        while i < self.tabs.len()
            invariant
                i <= self.tabs.len(),
                self.tabs.deep_view() == start,
                self.command_tx == old(self).command_tx,
                self.config == old(self).config,
                self.mode == old(self).mode,
                self.selected_tab == old(self).selected_tab,
                self.tab_bar == old(self).tab_bar,
                tab_configs(self.tabs@) == tab_configs(old(self).tabs@),
            decreases self.tabs.len() - i,
        {
            let ghost prev = self.tabs.deep_view();
            let ghost held = self.tabs@;
            assert(prev[i as int] == self.tabs@[i as int]@);
            self.tabs[i].init(area);
            assert(tab_configs(self.tabs@) =~= tab_configs(held));
            assert forall|j: int| 0 <= j < prev.len() implies (#[trigger] self.tabs.deep_view()[j])
                == prev[j] by {
                if j != i {
                    assert(self.tabs.deep_view()[j] == prev[j]);
                }
            }
            assert(self.tabs.deep_view() =~= prev);
            i += 1;
        }
    }

    fn handle_events(&mut self, event: Event, tx: &mut ActionQueue) -> (r: Option<Action>)
        ensures
            tab_configs(final(self).tabs@) == if old(self)@.event_reply(event) is Some {
                tab_configs(old(self).tabs@).remove(old(self)@.selected_tab as int)
            } else {
                tab_configs(old(self).tabs@)
            },
            final(self).config == old(self).config,
            final(self)@ == old(self)@.on_event(event),
            final(tx)@ == old(tx)@ + old(self)@.event_sends(event),
            reply_of(r) == old(self)@.event_reply(event),
    {
        let ghost start = self.tabs.deep_view();
        let mut i: usize = 0;
        assert(self.tabs.deep_view() =~= tabs_after_event(start, event, 0));
        assert(tx@ =~= old(tx)@ + tabs_event_sends(start, event, 0));
        while i < self.tabs.len()
            invariant
                i <= self.tabs.len(),
                self.tabs.len() == start.len(),
                self.tabs.deep_view() == tabs_after_event(start, event, i as int),
                tx@ == old(tx)@ + tabs_event_sends(start, event, i as int),
                self.command_tx == old(self).command_tx,
                self.config == old(self).config,
                self.mode == old(self).mode,
                self.selected_tab == old(self).selected_tab,
                self.tab_bar == old(self).tab_bar,
                tab_configs(self.tabs@) == tab_configs(old(self).tabs@),
            decreases self.tabs.len() - i,
        {
            let ghost prev = self.tabs.deep_view();
            let ghost held = self.tabs@;
            assert(prev[i as int] == self.tabs@[i as int]@);
            self.tabs[i].handle_events(event, tx);
            assert(tab_configs(self.tabs@) =~= tab_configs(held));
            assert forall|j: int| 0 <= j < prev.len() implies (#[trigger] self.tabs.deep_view()[j])
                == tabs_after_event(start, event, i + 1)[j] by {
                if j != i {
                    assert(self.tabs.deep_view()[j] == prev[j]);
                }
            }
            assert(self.tabs.deep_view() =~= tabs_after_event(start, event, i + 1));
            assert(tx@ =~= old(tx)@ + tabs_event_sends(start, event, i + 1));
            i += 1;
        }
        proof {
            assert forall|k: int| 0 <= k < self@.tabs.len() implies (#[trigger] self@.tabs[k]).idx()
                == k by {
                lemma_tab_stays(
                    start[k],
                    event,
                    MouseEvent { kind: crate::tui::MouseEventKind::Other },
                    ActionView::Tick,
                );
                assert(start[k].idx() == k);
            }
        }
        assert(self@ == old(self)@.seen_event(event));
        let r = match event {
            Event::Key(key) => self.handle_key_events(key, tx),
            Event::Mouse(mouse) => self.handle_mouse_events(mouse, tx),
            _ => None,
        };
        assert(tx@ =~= old(tx)@ + old(self)@.event_sends(event));
        r
    }

    fn handle_key_events(&mut self, key: KeyEvent, tx: &mut ActionQueue) -> (r: Option<Action>)
        ensures
            tab_configs(final(self).tabs@) == if old(self)@.key_reply(key) is Some {
                tab_configs(old(self).tabs@).remove(old(self)@.selected_tab as int)
            } else {
                tab_configs(old(self).tabs@)
            },
            final(self).config == old(self).config,
            final(self)@ == old(self)@.on_key(key),
            final(tx)@ == old(tx)@ + old(self)@.key_sends(key),
            reply_of(r) == old(self)@.key_reply(key),
    {
        if key.shift {
            match key.code {
                KeyCode::Char('H') => {
                    let place = if self.selected_tab == 0 {
                        if self.tabs.len() == 0 {
                            0
                        } else {
                            self.tabs.len() - 1
                        }
                    } else {
                        self.selected_tab - 1
                    };
                    self.select_tab(place, tx);
                },
                KeyCode::Char('L') => {
                    let place = if self.selected_tab + 1 < self.tabs.len() {
                        self.selected_tab + 1
                    } else {
                        0
                    };
                    self.select_tab(place, tx);
                },
                _ => {
                    assert(tx@ =~= old(tx)@ + old(self)@.key_sends(key));
                },
            }
            None
        } else {
            match key.code {
                KeyCode::Char('x') => {
                    let removed = self.selected_tab;
                    if removed != 0 {
                        self.remove_tab(removed, tx);
                        Some(Action::RemoveTab(removed))
                    } else {
                        assert(tx@ =~= old(tx)@ + old(self)@.key_sends(key));
                        None
                    }
                },
                _ => {
                    assert(tx@ =~= old(tx)@ + old(self)@.key_sends(key));
                    None
                },
            }
        }
    }

    fn handle_mouse_events(&mut self, mouse: MouseEvent, tx: &mut ActionQueue) -> (r: Option<
        Action,
    >)
        ensures
            tab_configs(final(self).tabs@) == tab_configs(old(self).tabs@),
            r is None,
            final(self).config == old(self).config,
            final(self)@ == old(self)@.on_mouse(mouse),
            final(tx)@ == old(tx)@,
    {
        let ghost start = self.tabs.deep_view();
        let mut i: usize = 0;
        assert(self.tabs.deep_view() =~= tabs_after_mouse(start, mouse, 0));
        while i < self.tabs.len()
            invariant
                i <= self.tabs.len(),
                self.tabs.len() == start.len(),
                self.tabs.deep_view() == tabs_after_mouse(start, mouse, i as int),
                tx@ == old(tx)@,
                self.command_tx == old(self).command_tx,
                self.config == old(self).config,
                self.mode == old(self).mode,
                self.selected_tab == old(self).selected_tab,
                self.tab_bar == old(self).tab_bar,
                tab_configs(self.tabs@) == tab_configs(old(self).tabs@),
            decreases self.tabs.len() - i,
        {
            let ghost prev = self.tabs.deep_view();
            let ghost held = self.tabs@;
            assert(prev[i as int] == self.tabs@[i as int]@);
            self.tabs[i].handle_mouse_events(mouse, tx);
            assert(tab_configs(self.tabs@) =~= tab_configs(held));
            assert forall|j: int| 0 <= j < prev.len() implies (#[trigger] self.tabs.deep_view()[j])
                == tabs_after_mouse(start, mouse, i + 1)[j] by {
                if j != i {
                    assert(self.tabs.deep_view()[j] == prev[j]);
                }
            }
            assert(self.tabs.deep_view() =~= tabs_after_mouse(start, mouse, i + 1));
            i += 1;
        }
        proof {
            assert forall|k: int| 0 <= k < self@.tabs.len() implies (#[trigger] self@.tabs[k]).idx()
                == k by {
                lemma_tab_stays(start[k], Event::Other, mouse, ActionView::Tick);
                assert(start[k].idx() == k);
            }
        }
        None
    }

    fn update(&mut self, action: &Action, tx: &mut ActionQueue) -> (r: Option<Action>)
        ensures
            tab_configs(final(self).tabs@).take(old(self).tabs@.len() as int) == tab_configs(
                old(self).tabs@,
            ),
            TabViewerState::opens_tab(action@) ==> final(self).tabs@.last().config().is_default(),
            final(self).config == old(self).config,
            final(self)@ == old(self)@.on_action(action@),
            final(tx)@ == old(tx)@ + old(self)@.action_sends(action@),
            reply_of(r) == old(self)@.action_reply(action@),
    {
        let ghost start = self.tabs.deep_view();
        let mut i: usize = 0;
        assert(self.tabs.deep_view() =~= tabs_after_action(start, action@, 0));
        while i < self.tabs.len()
            invariant
                i <= self.tabs.len(),
                self.tabs.len() == start.len(),
                self.tabs.deep_view() == tabs_after_action(start, action@, i as int),
                tx@ == old(tx)@,
                self.command_tx == old(self).command_tx,
                self.config == old(self).config,
                self.mode == old(self).mode,
                self.selected_tab == old(self).selected_tab,
                self.tab_bar == old(self).tab_bar,
                tab_configs(self.tabs@) == tab_configs(old(self).tabs@),
            decreases self.tabs.len() - i,
        {
            let ghost prev = self.tabs.deep_view();
            let ghost held = self.tabs@;
            assert(prev[i as int] == self.tabs@[i as int]@);
            self.tabs[i].update(action, tx);
            assert(tab_configs(self.tabs@) =~= tab_configs(held));
            assert forall|j: int| 0 <= j < prev.len() implies (#[trigger] self.tabs.deep_view()[j])
                == tabs_after_action(start, action@, i + 1)[j] by {
                if j != i {
                    assert(self.tabs.deep_view()[j] == prev[j]);
                }
            }
            assert(self.tabs.deep_view() =~= tabs_after_action(start, action@, i + 1));
            i += 1;
        }
        proof {
            assert forall|k: int| 0 <= k < self@.tabs.len() implies (#[trigger] self@.tabs[k]).idx()
                == k by {
                lemma_tab_stays(
                    start[k],
                    Event::Other,
                    MouseEvent { kind: crate::tui::MouseEventKind::Other },
                    action@,
                );
                assert(start[k].idx() == k);
            }
        }
        assert(self@ == old(self)@.seen_action(action@));
        let place = self.tabs.len();
        match action {
            Action::ModeChange(mode) => {
                self.mode = mode.clone();
                assert(tx@ =~= old(tx)@ + old(self)@.action_sends(action@));
                None
            },
            Action::NewTabFeedView(group) => {
                let mut feed_view = FeedView::new(place, group.clone());
                if self.command_tx {
                    feed_view.register_action_handler();
                }
                self.add_new_tab(group.name.clone(), Tab::Feeds(feed_view), tx);
                assert(tab_configs(self.tabs@)[self.tabs@.len() - 1] == self.tabs@.last().config());
                Some(Action::RequestUpdateFeedView(place, group.clone()))
            },
            Action::NewTabArticleViewAll => {
                let mut article_view = ArticleView::new(place);
                if self.command_tx {
                    article_view.register_action_handler();
                }
                self.add_new_tab("All Articles".to_string(), Tab::Articles(article_view), tx);
                assert(tab_configs(self.tabs@)[self.tabs@.len() - 1] == self.tabs@.last().config());
                Some(Action::RequestUpdateArticleViewAll(place))
            },
            Action::NewTabArticleViewFeed(feed) => {
                let mut article_view = ArticleView::new(place);
                if self.command_tx {
                    article_view.register_action_handler();
                }
                self.add_new_tab(feed.name.clone(), Tab::Articles(article_view), tx);
                assert(tab_configs(self.tabs@)[self.tabs@.len() - 1] == self.tabs@.last().config());
                Some(Action::RequestUpdateArticleViewFeed(place, feed.clone()))
            },
            Action::NewTabArticleViewGroup(group) => {
                let mut article_view = ArticleView::new(place);
                if self.command_tx {
                    article_view.register_action_handler();
                }
                self.add_new_tab(group.name.clone(), Tab::Articles(article_view), tx);
                assert(tab_configs(self.tabs@)[self.tabs@.len() - 1] == self.tabs@.last().config());
                Some(Action::RequestUpdateArticleViewGroup(place, group.clone()))
            },
            _ => {
                assert(tx@ =~= old(tx)@ + old(self)@.action_sends(action@));
                None
            },
        }
    }
}

} // verus!
