//! The dispatch loop: terminal events come in, actions wait in one queue,
//! and every action is applied at the root and then shown to every
//! component. The loop itself is run from outside: it hands in events,
//! takes one step after the other, and does what a step asks for.

use crate::action::{after_processing, Action, ActionQueue, ActionView};
use crate::components::info_bar::InfoBar;
use crate::components::popup_quit::{QuitPopup, QuitPopupState};
use crate::components::tab_viewer::{
    tabs_after_action, tabs_connected, TabState, TabViewer, TabViewerState,
};
use crate::components::Component;
use crate::config::Config;
use crate::db::Database;
use crate::mode::{Mode, ModeView};
use crate::tables::{
    listed_feeds_of_group, listed_groups, listed_items, listed_items_of_feed,
    listed_items_of_group, Tables, Timestamp,
};
use crate::tui::{Event, KeyCode, KeyEvent, Rect};
use vstd::prelude::*;

verus! {

/// What the loop is doing.
#[derive(Debug, Clone, Copy, PartialEq, Eq, Structural)]
pub enum RunState {
    Running,
    Suspended,
    Quitting,
}

/// What a step asks the caller to do outside the core.
#[derive(Debug, PartialEq, Eq)]
pub enum Effect {
    /// Nothing.
    Nothing,
    /// Draw the components.
    Draw,
    /// Resize the terminal to this width and height, then draw.
    ResizeAndDraw(u16, u16),
    /// Fetch and extract the article at `url` for the reader of the tab
    /// at `idx`, and hand in what came of it.
    Extract { idx: usize, url: String },
}

/// What an effect says.
pub enum EffectView {
    Nothing,
    Draw,
    ResizeAndDraw(u16, u16),
    Extract { idx: usize, url: Seq<char> },
}

impl View for Effect {
    type V = EffectView;

    open spec fn view(&self) -> EffectView {
        match self {
            Effect::Nothing => EffectView::Nothing,
            Effect::Draw => EffectView::Draw,
            Effect::ResizeAndDraw(w, h) => EffectView::ResizeAndDraw(*w, *h),
            Effect::Extract { idx, url } => EffectView::Extract { idx: *idx, url: url@ },
        }
    }
}

impl DeepView for Effect {
    type V = EffectView;

    open spec fn deep_view(&self) -> EffectView {
        self@
    }
}

/// What the loop does after a drain.
#[derive(Debug, Clone, Copy, PartialEq, Eq, Structural)]
pub enum Control {
    /// Wait for the next event.
    Continue,
    /// Give the terminal up and take it again.
    Suspend,
    /// Stop.
    Quit,
}

/// The root of the application.
pub struct App {
    pub config: Config,
    pub db: Database,
    pub tab_viewer: TabViewer,
    pub info_bar: InfoBar,
    pub quit_popup: QuitPopup,
    pub should_quit: bool,
    pub should_suspend: bool,
    pub mode: Mode,
    pub last_tick_key_events: Vec<KeyEvent>,
    pub queue: ActionQueue,
}

/// The state of the application.
pub struct AppState {
    pub viewer: TabViewerState,
    pub popup: QuitPopupState,
    pub should_quit: bool,
    pub should_suspend: bool,
    pub mode: ModeView,
    pub tables: Tables,
    /// The key presses kept since the last tick.
    pub pending_keys: Seq<KeyEvent>,
    /// The actions that wait, front first.
    pub queue: Seq<ActionView>,
}

impl View for App {
    type V = AppState;

    open spec fn view(&self) -> AppState {
        AppState {
            viewer: self.tab_viewer@,
            popup: self.quit_popup@,
            should_quit: self.should_quit,
            should_suspend: self.should_suspend,
            mode: self.mode@,
            tables: self.db@,
            pending_keys: self.last_tick_key_events@,
            queue: self.queue@,
        }
    }
}

/// The action, if there is one, as a sequence.
pub open spec fn sent(reply: Option<ActionView>) -> Seq<ActionView> {
    match reply {
        Some(a) => seq![a],
        None => Seq::empty(),
    }
}

/// The action that the root itself makes of a terminal event, whoever has
/// the input: quit, tick, render and resize pass through, and `q` asks to
/// quit.
pub open spec fn root_action(event: Event) -> Option<ActionView> {
    match event {
        Event::Quit => Some(ActionView::Quit),
        Event::Tick => Some(ActionView::Tick),
        Event::Render => Some(ActionView::Render),
        Event::Resize(w, h) => Some(ActionView::Resize(w, h)),
        Event::Key(key) => if key.code == KeyCode::Char('q') {
            Some(ActionView::ConfirmQuit)
        } else {
            None
        },
        _ => None,
    }
}

/// What an action asks the caller to do outside the core.
pub open spec fn effect_of(action: ActionView) -> EffectView {
    match action {
        ActionView::Render => EffectView::Draw,
        ActionView::Resize(w, h) => EffectView::ResizeAndDraw(w, h),
        ActionView::RequestUpdateReader(idx, item) => EffectView::Extract { idx, url: item.url },
        _ => EffectView::Nothing,
    }
}

impl AppState {
    /// What the loop is doing.
    pub open spec fn run_state(self) -> RunState {
        if self.should_suspend {
            RunState::Suspended
        } else if self.should_quit {
            RunState::Quitting
        } else {
            RunState::Running
        }
    }

    /// What a terminal event sends: the root's own action, then what the
    /// workspace sends and answers, then what the popup sends.
    pub open spec fn event_sends(self, event: Event) -> Seq<ActionView> {
        sent(root_action(event)) + self.viewer.event_sends(event) + sent(
            self.viewer.event_reply(event),
        ) + self.popup.event_sends(event)
    }

    /// The state after a terminal event.
    pub open spec fn on_event(self, event: Event) -> AppState {
        AppState {
            viewer: self.viewer.on_event(event),
            popup: self.popup.on_event(event),
            queue: self.queue + self.event_sends(event),
            ..self
        }
    }

    /// What the root itself sends on an action: the answer to a request
    /// for data, read from the tables.
    pub open spec fn root_sends(self, action: ActionView, now: Timestamp) -> Seq<ActionView> {
        match action {
            ActionView::RequestUpdateFeedView(idx, group) => seq![
                ActionView::UpdateFeedView(idx, listed_feeds_of_group(self.tables, group.id, now)),
            ],
            ActionView::RequestUpdateArticleViewAll(idx) => seq![
                ActionView::UpdateArticleView(idx, listed_items(self.tables)),
            ],
            ActionView::RequestUpdateArticleViewFeed(idx, feed) => seq![
                ActionView::UpdateArticleView(idx, listed_items_of_feed(self.tables, feed.id)),
            ],
            ActionView::RequestUpdateArticleViewGroup(idx, group) => seq![
                ActionView::UpdateArticleView(idx, listed_items_of_group(self.tables, group.id)),
            ],
            _ => Seq::empty(),
        }
    }

    /// What an action sends while it is processed: what the root sends,
    /// then what the workspace sends and answers, then what the popup
    /// sends.
    pub open spec fn action_sends(self, action: ActionView, now: Timestamp) -> Seq<ActionView> {
        self.root_sends(action, now) + self.viewer.action_sends(action) + sent(
            self.viewer.action_reply(action),
        ) + self.popup.action_sends(action)
    }

    /// The state after an action was applied at the root and shown to
    /// every component; the queue is left aside.
    pub open spec fn on_action(self, action: ActionView) -> AppState {
        AppState {
            viewer: self.viewer.on_action(action),
            popup: self.popup.on_action(action),
            should_quit: self.should_quit || action is Quit,
            should_suspend: (self.should_suspend || action is Suspend) && !(action is Resume),
            mode: match action {
                ActionView::ModeChange(mode) => mode,
                _ => self.mode,
            },
            pending_keys: if action is Tick {
                Seq::empty()
            } else {
                self.pending_keys
            },
            ..self
        }
    }

    /// The state after one step: the front action is processed, and what
    /// that sends goes to the back of the queue. Without a waiting action
    /// nothing changes.
    pub open spec fn stepped(self, now: Timestamp) -> AppState {
        if self.queue.len() == 0 {
            self
        } else {
            let action = self.queue[0];
            AppState {
                queue: after_processing(self.queue, self.action_sends(action, now)),
                ..self.on_action(action)
            }
        }
    }

    /// The rules of the application: those of the workspace and of the
    /// store.
    pub open spec fn wf(self) -> bool {
        self.viewer.wf() && crate::tables::tables_wf(self.tables)
    }
}

/// The work that an action stands for: one step for itself, and the
/// work of everything that its processing can send.
pub open spec fn weight(action: ActionView) -> nat {
    match action {
        ActionView::NewTabFeedView(_) => 4,
        ActionView::NewTabArticleViewAll => 4,
        ActionView::NewTabArticleViewGroup(_) => 4,
        ActionView::NewTabArticleViewFeed(_) => 4,
        ActionView::RequestUpdateFeedView(_, _) => 2,
        ActionView::RequestUpdateArticleViewAll(_) => 2,
        ActionView::RequestUpdateArticleViewGroup(_, _) => 2,
        ActionView::RequestUpdateArticleViewFeed(_, _) => 2,
        ActionView::ConfirmQuit => 2,
        _ => 1,
    }
}

/// The work that waits in a queue: an upper bound of the steps that a
/// drain of it takes.
pub open spec fn work(queue: Seq<ActionView>) -> nat
    decreases queue.len(),
{
    if queue.len() == 0 {
        0
    } else {
        work(queue.drop_last()) + weight(queue.last())
    }
}

/// The work of two queues in a row is the work of both.
pub proof fn lemma_work_adds(a: Seq<ActionView>, b: Seq<ActionView>)
    ensures
        work(a + b) == work(a) + work(b),
    decreases b.len(),
{
    if b.len() == 0 {
        assert(a + b =~= a);
    } else {
        lemma_work_adds(a, b.drop_last());
        assert((a + b).drop_last() =~= a + b.drop_last());
    }
}

/// The work of a queue of one action, or of none.
proof fn lemma_work_of_one(action: ActionView)
    ensures
        work(seq![action]) == weight(action),
        work(Seq::<ActionView>::empty()) == 0,
        work(sent(Some(action))) == weight(action),
        work(sent(None)) == 0,
{
    assert(seq![action].drop_last() =~= Seq::<ActionView>::empty());
    assert(work(seq![action]) == work(seq![action].drop_last()) + weight(seq![action].last()));
}

/// Processing an action sends less work than the action stood for.
pub proof fn lemma_follow_ups_are_lighter(s: AppState, action: ActionView, now: Timestamp)
    ensures
        work(s.action_sends(action, now)) < weight(action),
{
    let root = s.root_sends(action, now);
    let from_viewer = s.viewer.action_sends(action);
    let reply = sent(s.viewer.action_reply(action));
    let from_popup = s.popup.action_sends(action);
    lemma_work_adds(root + from_viewer + reply, from_popup);
    lemma_work_adds(root + from_viewer, reply);
    lemma_work_adds(root, from_viewer);
    lemma_work_of_one(ActionView::Quit);
    lemma_work_of_one(ActionView::ChangeTab(s.viewer.tabs.len() as usize));
    if root.len() > 0 {
        lemma_work_of_one(root[0]);
        assert(root =~= seq![root[0]]);
    }
    if s.viewer.action_reply(action) is Some {
        lemma_work_of_one(s.viewer.action_reply(action)->0);
    }
    assert(from_popup.len() > 0 ==> from_popup =~= seq![ActionView::Quit]);
    assert(from_viewer.len() > 0 ==> from_viewer =~= seq![
        ActionView::ChangeTab(s.viewer.tabs.len() as usize),
    ]);
}

/// A drain ends: every step leaves less work in the queue than it found,
/// whatever the components do. No action is sent again by its own
/// processing, and a drain of a queue takes no more steps than the work
/// that waits in it.
pub proof fn law_step_shrinks_the_work(s: AppState, now: Timestamp)
    requires
        s.queue.len() > 0,
    ensures
        work(s.stepped(now).queue) < work(s.queue),
{
    let action = s.queue[0];
    lemma_follow_ups_are_lighter(s, action, now);
    lemma_work_adds(s.queue.drop_first(), s.action_sends(action, now));
    lemma_work_adds(seq![action], s.queue.drop_first());
    lemma_work_of_one(action);
    assert(seq![action] + s.queue.drop_first() =~= s.queue);
}

impl AppState {
    /// The state after a drain: steps are taken until no action waits.
    pub open spec fn drained(self, now: Timestamp) -> AppState
        decreases work(self.queue),
    {
        if self.queue.len() == 0 {
            self
        } else {
            proof {
                law_step_shrinks_the_work(self, now);
            }
            self.stepped(now).drained(now)
        }
    }

    /// What a drain asks the caller to do outside the core, in the order
    /// of the actions that ask for it.
    pub open spec fn drain_effects(self, now: Timestamp) -> Seq<EffectView>
        decreases work(self.queue),
    {
        if self.queue.len() == 0 {
            Seq::empty()
        } else {
            proof {
                law_step_shrinks_the_work(self, now);
            }
            let rest = self.stepped(now).drain_effects(now);
            if effect_of(self.queue[0]) is Nothing {
                rest
            } else {
                seq![effect_of(self.queue[0])] + rest
            }
        }
    }
}

/// What an optional effect says.
pub open spec fn effect_view(effect: Option<Effect>) -> Option<EffectView> {
    match effect {
        Some(e) => Some(e@),
        None => None,
    }
}

impl App {
    /// The application over a configuration and a store: the workspace
    /// with its one tab, nothing waiting, running.
    pub fn new(config: Config, db: Database) -> (app: App)
        requires
            db.wf(),
        ensures
            app@.wf(),
            app.config == config,
            app.db == db,
            app@.run_state() == RunState::Running,
            app@.queue == Seq::<ActionView>::empty(),
            app@.mode == ModeView::Main,
            app@.pending_keys == Seq::<KeyEvent>::empty(),
            app@.viewer == TabViewerState::fresh(),
            app@.popup == (QuitPopupState { connected: false, confirm_quit: false, show: false }),
    {
        App {
            config,
            db,
            tab_viewer: TabViewer::new(),
            info_bar: InfoBar::new(),
            quit_popup: QuitPopup::new(),
            should_quit: false,
            should_suspend: false,
            mode: Mode::Main,
            last_tick_key_events: Vec::new(),
            queue: ActionQueue::new(),
        }
    }

    /// Wires the components up before the first event: each is connected
    /// to the queue, handed the configuration and told the size of the
    /// terminal; then the listing of all groups is sent to them.
    pub fn start(&mut self, area: Rect)
        requires
            old(self)@.wf(),
        ensures
            final(self).info_bar == old(self).info_bar,
            final(self)@.wf(),
            final(self).config == old(self).config,
            final(self).db == old(self).db,
            final(self)@.viewer == (TabViewerState {
                connected: true,
                tabs: tabs_connected(old(self)@.viewer.tabs, old(self)@.viewer.tabs.len() as int),
                ..old(self)@.viewer
            }),
            final(self).tab_viewer.config.same_as(&old(self).config),
            final(self).quit_popup.config.same_as(&old(self).config),
            final(self).quit_popup@ == (QuitPopupState {
                connected: true,
                confirm_quit: old(self).config.confirm_quit,
                show: old(self)@.popup.show,
            }),
            final(self)@.queue == old(self)@.queue.push(
                ActionView::Refresh(listed_groups(old(self)@.tables)),
            ),
            final(self)@.should_quit == old(self)@.should_quit,
            final(self)@.should_suspend == old(self)@.should_suspend,
            final(self)@.mode == old(self)@.mode,
            final(self)@.pending_keys == old(self)@.pending_keys,
    {
        self.tab_viewer.register_action_handler();
        self.info_bar.register_action_handler();
        self.quit_popup.register_action_handler();
        self.tab_viewer.register_config_handler(self.config.clone());
        self.info_bar.register_config_handler(self.config.clone());
        self.quit_popup.register_config_handler(self.config.clone());
        self.tab_viewer.init(area);
        self.info_bar.init(area);
        self.quit_popup.init(area);
        match self.db.get_groups() {
            Ok(groups) => {
                self.queue.send(Action::Refresh(groups));
            },
            Err(_) => {},
        }
    }

    /// Sends the root's own action for a terminal event.
    fn send_root_action(&mut self, event: Event)
        ensures
            final(self).config == old(self).config,
            final(self).db == old(self).db,
            final(self).tab_viewer == old(self).tab_viewer,
            final(self).info_bar == old(self).info_bar,
            final(self).quit_popup == old(self).quit_popup,
            final(self).should_quit == old(self).should_quit,
            final(self).should_suspend == old(self).should_suspend,
            final(self).mode == old(self).mode,
            final(self).last_tick_key_events == old(self).last_tick_key_events,
            final(self)@.queue == old(self)@.queue + sent(root_action(event)),
    {
        match event {
            Event::Quit => self.queue.send(Action::Quit),
            Event::Tick => self.queue.send(Action::Tick),
            Event::Render => self.queue.send(Action::Render),
            Event::Resize(w, h) => self.queue.send(Action::Resize(w, h)),
            Event::Key(key) => {
                if key.code == KeyCode::Char('q') {
                    self.queue.send(Action::ConfirmQuit);
                }
            },
            _ => {},
        }
        assert(self.queue@ =~= old(self)@.queue + sent(root_action(event)));
    }

    /// Shows a terminal event to every component, and sends what a
    /// component answers after what it sent itself.
    fn show_event_to_components(&mut self, event: Event)
        requires
            old(self)@.viewer.wf(),
        ensures
            final(self).info_bar == old(self).info_bar,
            final(self)@.viewer.wf(),
            final(self).config == old(self).config,
            final(self).db == old(self).db,
            final(self).should_quit == old(self).should_quit,
            final(self).should_suspend == old(self).should_suspend,
            final(self).mode == old(self).mode,
            final(self).last_tick_key_events == old(self).last_tick_key_events,
            final(self)@.viewer == old(self)@.viewer.on_event(event),
            final(self)@.popup == old(self)@.popup.on_event(event),
            final(self)@.queue == old(self)@.queue + (old(self)@.viewer.event_sends(event) + sent(
                old(self)@.viewer.event_reply(event),
            ) + old(self)@.popup.event_sends(event)),
    {
        if let Some(action) = self.tab_viewer.handle_events(event, &mut self.queue) {
            self.queue.send(action);
        }
        if let Some(action) = self.info_bar.handle_events(event, &mut self.queue) {
            self.queue.send(action);
        }
        if let Some(action) = self.quit_popup.handle_events(event, &mut self.queue) {
            self.queue.send(action);
        }
        assert(self.queue@ =~= old(self)@.queue + (old(self)@.viewer.event_sends(event) + sent(
            old(self)@.viewer.event_reply(event),
        ) + old(self)@.popup.event_sends(event)));
    }

    /// Takes a terminal event in: the root's own action for it is sent,
    /// then every component sees the event, and what a component answers
    /// is sent after what it sent itself.
    pub fn handle_event(&mut self, event: Event)
        requires
            old(self)@.wf(),
        ensures
            final(self).info_bar == old(self).info_bar,
            final(self)@.wf(),
            final(self).config == old(self).config,
            final(self).db == old(self).db,
            final(self)@ == old(self)@.on_event(event),
    {
        self.send_root_action(event);
        self.show_event_to_components(event);
        assert(self.queue@ =~= old(self)@.queue + old(self)@.event_sends(event));
    }

    /// Applies an action at the root: the flags and the mode follow it,
    /// and a request for data is answered from the tables.
    fn apply_at_root(&mut self, action: &Action, now: Timestamp) -> (effect: Effect)
        ensures
            effect@ == effect_of(action@),
            final(self).config == old(self).config,
            final(self).db == old(self).db,
            final(self).tab_viewer == old(self).tab_viewer,
            final(self).info_bar == old(self).info_bar,
            final(self).quit_popup == old(self).quit_popup,
            final(self)@.should_quit == old(self)@.on_action(action@).should_quit,
            final(self)@.should_suspend == old(self)@.on_action(action@).should_suspend,
            final(self)@.mode == old(self)@.on_action(action@).mode,
            final(self)@.pending_keys == old(self)@.on_action(action@).pending_keys,
            final(self)@.queue == old(self)@.queue + old(self)@.root_sends(action@, now),
    {
        let effect = match action {
            Action::Tick => {
                self.last_tick_key_events.clear();
                Effect::Nothing
            },
            Action::Quit => {
                self.should_quit = true;
                Effect::Nothing
            },
            Action::Suspend => {
                self.should_suspend = true;
                Effect::Nothing
            },
            Action::Resume => {
                self.should_suspend = false;
                Effect::Nothing
            },
            Action::Resize(w, h) => Effect::ResizeAndDraw(*w, *h),
            Action::Render => Effect::Draw,
            Action::ModeChange(mode) => {
                self.mode = mode.clone();
                Effect::Nothing
            },
            Action::RequestUpdateFeedView(idx, group) => {
                if let Ok(feeds) = self.db.get_feeds_from_group(group.id, now) {
                    self.queue.send(Action::UpdateFeedView(*idx, feeds));
                }
                Effect::Nothing
            },
            Action::RequestUpdateArticleViewAll(idx) => {
                if let Ok(items) = self.db.get_feed_items() {
                    self.queue.send(Action::UpdateArticleView(*idx, items));
                }
                Effect::Nothing
            },
            Action::RequestUpdateArticleViewFeed(idx, feed) => {
                if let Ok(items) = self.db.get_feed_items_from_feed(feed.id) {
                    self.queue.send(Action::UpdateArticleView(*idx, items));
                }
                Effect::Nothing
            },
            Action::RequestUpdateArticleViewGroup(idx, group) => {
                if let Ok(items) = self.db.get_feed_items_from_group(group.id) {
                    self.queue.send(Action::UpdateArticleView(*idx, items));
                }
                Effect::Nothing
            },
            Action::RequestUpdateReader(idx, item) => Effect::Extract {
                idx: *idx,
                url: item.url.clone(),
            },
            _ => Effect::Nothing,
        };
        assert(self.queue@ =~= old(self)@.queue + old(self)@.root_sends(action@, now));
        effect
    }

    /// Shows an action to every component, and sends what a component
    /// answers after what it sent itself.
    fn show_to_components(&mut self, action: &Action)
        requires
            old(self)@.viewer.wf(),
        ensures
            final(self).info_bar == old(self).info_bar,
            final(self)@.viewer.wf(),
            final(self).config == old(self).config,
            final(self).db == old(self).db,
            final(self)@.should_quit == old(self)@.should_quit,
            final(self)@.should_suspend == old(self)@.should_suspend,
            final(self)@.mode == old(self)@.mode,
            final(self)@.pending_keys == old(self)@.pending_keys,
            final(self)@.viewer == old(self)@.viewer.on_action(action@),
            final(self)@.popup == old(self)@.popup.on_action(action@),
            final(self)@.queue == old(self)@.queue + (old(self)@.viewer.action_sends(action@)
                + sent(old(self)@.viewer.action_reply(action@)) + old(self)@.popup.action_sends(
                action@,
            )),
    {
        if let Some(follow_up) = self.tab_viewer.update(action, &mut self.queue) {
            self.queue.send(follow_up);
        }
        if let Some(follow_up) = self.info_bar.update(action, &mut self.queue) {
            self.queue.send(follow_up);
        }
        if let Some(follow_up) = self.quit_popup.update(action, &mut self.queue) {
            self.queue.send(follow_up);
        }
        assert(self.queue@ =~= old(self)@.queue + (old(self)@.viewer.action_sends(action@) + sent(
            old(self)@.viewer.action_reply(action@),
        ) + old(self)@.popup.action_sends(action@)));
    }

    /// Takes one step of a drain: the action at the front of the queue is
    /// applied at the root and then shown to every component; what that
    /// sends waits behind everything that waited before. Answers what the
    /// caller has to do outside, or `None` where no action waited.
    /// `now` stamps the synthetic entry of a listing.
    pub fn step(&mut self, now: Timestamp) -> (r: Option<Effect>)
        requires
            old(self)@.wf(),
        ensures
            final(self).info_bar == old(self).info_bar,
            final(self)@.wf(),
            final(self).config == old(self).config,
            final(self).db == old(self).db,
            final(self)@ == old(self)@.stepped(now),
            effect_view(r) == if old(self)@.queue.len() == 0 {
                None
            } else {
                Some(effect_of(old(self)@.queue[0]))
            },
    {
        let action = match self.queue.try_recv() {
            Some(action) => action,
            None => {
                return None;
            },
        };
        let effect = self.apply_at_root(&action, now);
        self.show_to_components(&action);
        assert(self.queue@ =~= after_processing(
            old(self)@.queue,
            old(self)@.action_sends(action@, now),
        ));
        Some(effect)
    }

    /// Drains the queue: takes steps until no action waits, and answers
    /// what the caller has to do outside the core, in order.
    pub fn drain(&mut self, now: Timestamp) -> (effects: Vec<Effect>)
        requires
            old(self)@.wf(),
        ensures
            final(self).info_bar == old(self).info_bar,
            final(self)@.wf(),
            final(self).config == old(self).config,
            final(self).db == old(self).db,
            final(self)@ == old(self)@.drained(now),
            final(self)@.queue.len() == 0,
            effects.deep_view() == old(self)@.drain_effects(now),
    {
        let mut effects: Vec<Effect> = Vec::new();
        assert(effects.deep_view() =~= Seq::<EffectView>::empty());
        loop
            invariant
                self@.wf(),
                self.config == old(self).config,
                self.db == old(self).db,
                self.info_bar == old(self).info_bar,
                self@.drained(now) == old(self)@.drained(now),
                effects.deep_view() + self@.drain_effects(now) == old(self)@.drain_effects(now),
            ensures
                self@.queue.len() == 0,
            decreases work(self@.queue),
        {
            let ghost before = self@;
            let ghost done = effects.deep_view();
            proof {
                if before.queue.len() > 0 {
                    law_step_shrinks_the_work(before, now);
                }
            }
            match self.step(now) {
                None => {
                    break ;
                },
                Some(effect) => {
                    match effect {
                        Effect::Nothing => {},
                        _ => {
                            effects.push(effect);
                            assert(effects.deep_view() =~= done.push(effect@));
                        },
                    }
                    assert(effects.deep_view() + self@.drain_effects(now) =~= done
                        + before.drain_effects(now));
                },
            }
        }
        assert(effects.deep_view() + Seq::<EffectView>::empty() =~= effects.deep_view());
        effects
    }

    /// Takes in what came of an extraction for the reader of the tab at
    /// `idx`: the article body is sent to the readers; a failure is sent
    /// as an error and changes nothing else.
    pub fn extracted(&mut self, idx: usize, content: Option<String>)
        ensures
            final(self).info_bar == old(self).info_bar,
            final(self).config == old(self).config,
            final(self).db == old(self).db,
            final(self)@ == (AppState {
                queue: old(self)@.queue.push(
                    match content {
                        Some(body) => ActionView::UpdateReader(idx, body@),
                        None => ActionView::Error("Failed to display post."@),
                    },
                ),
                ..old(self)@
            }),
    {
        match content {
            Some(body) => self.queue.send(Action::UpdateReader(idx, body)),
            None => self.queue.send(Action::Error("Failed to display post.".to_string())),
        }
    }

    /// Takes in that a component could not be drawn: the failure is sent
    /// as an error, and the frame goes on.
    pub fn draw_failed(&mut self, description: String)
        ensures
            final(self).info_bar == old(self).info_bar,
            final(self).config == old(self).config,
            final(self).db == old(self).db,
            final(self)@ == (AppState {
                queue: old(self)@.queue.push(
                    ActionView::Error("Failed to draw: "@ + description@),
                ),
                ..old(self)@
            }),
    {
        let message = "Failed to draw: ".to_string().concat(description.as_str());
        self.queue.send(Action::Error(message));
    }

    /// Decides, after a drain, how the loop goes on: a suspended loop
    /// gives the terminal up, takes it again and is told to resume; a
    /// quitting loop stops; a running loop waits for the next event.
    pub fn after_drain(&mut self) -> (r: Control)
        ensures
            final(self).info_bar == old(self).info_bar,
            final(self).config == old(self).config,
            final(self).db == old(self).db,
            r == match old(self)@.run_state() {
                RunState::Suspended => Control::Suspend,
                RunState::Quitting => Control::Quit,
                RunState::Running => Control::Continue,
            },
            final(self)@ == (AppState {
                queue: if old(self)@.run_state() == RunState::Suspended {
                    old(self)@.queue.push(ActionView::Resume)
                } else {
                    old(self)@.queue
                },
                ..old(self)@
            }),
    {
        if self.should_suspend {
            self.queue.send(Action::Resume);
            Control::Suspend
        } else if self.should_quit {
            Control::Quit
        } else {
            Control::Continue
        }
    }

    /// What the loop is doing.
    pub fn run_state(&self) -> (r: RunState)
        ensures
            r == self@.run_state(),
    {
        if self.should_suspend {
            RunState::Suspended
        } else if self.should_quit {
            RunState::Quitting
        } else {
            RunState::Running
        }
    }
}

/// An error that is sent changes nothing but the queue: the step that
/// processes it leaves every component, the mode, the flags and the
/// tables as they were. So an extraction that failed leaves the reader
/// showing what it showed.
pub proof fn law_error_changes_nothing(s: AppState, message: Seq<char>, now: Timestamp)
    requires
        s.queue.len() > 0,
        s.queue[0] == ActionView::Error(message),
    ensures
        s.stepped(now) == (AppState { queue: s.queue.drop_first(), ..s }),
{
    let action = ActionView::Error(message);
    assert(tabs_after_action(s.viewer.tabs, action, s.viewer.tabs.len() as int) =~= s.viewer.tabs);
    assert(s.action_sends(action, now) =~= Seq::<ActionView>::empty());
    assert(after_processing(s.queue, s.action_sends(action, now)) =~= s.queue.drop_first());
}

/// A change of mode is mirrored: the step that processes it leaves the
/// root, the workspace and every list of groups in the new mode.
pub proof fn law_mode_is_mirrored(s: AppState, mode: ModeView, now: Timestamp)
    requires
        s.queue.len() > 0,
        s.queue[0] == ActionView::ModeChange(mode),
    ensures
        s.stepped(now).mode == mode,
        s.stepped(now).viewer.mode == mode,
        s.stepped(now).viewer.tabs.len() == s.viewer.tabs.len(),
        forall|k: int|
            0 <= k < s.viewer.tabs.len() ==> ((#[trigger] s.stepped(now).viewer.tabs[k])
                matches TabState::Groups(groups) ==> groups.mode == mode),
{
}

/// Quitting is final: once the loop is told to quit, no step takes that
/// back.
pub proof fn law_quit_is_final(s: AppState, now: Timestamp)
    requires
        s.should_quit,
    ensures
        s.stepped(now).should_quit,
{
}

} // verus!
