//! The list of groups: the content of the first tab.

use crate::action::{Action, ActionQueue, ActionView};
use crate::components::{
    clamp_selection, clamped, next_selection, prev_selection, select_next, select_prev, Component,
    Row, RowView,
};
use crate::config::Config;
use crate::db::{clone_groups, Group};
use crate::mode::{Mode, ModeView};
use crate::tables::{GroupRow, ALL_ID};
use crate::tui::{Event, KeyCode, KeyEvent, MouseEvent, MouseEventKind};
use vstd::prelude::*;

verus! {

/// The list of groups.
pub struct GroupView {
    /// Whether the component is connected to the action queue.
    pub command_tx: bool,
    pub config: Config,
    pub mode: Mode,
    /// The place of this component's tab.
    pub idx: usize,
    /// The place of the selected tab, as last announced.
    pub selected_idx: usize,
    pub groups: Vec<Group>,
    /// The selected entry of the list.
    pub selected: Option<usize>,
}

/// The state of the list of groups.
pub struct GroupViewState {
    pub connected: bool,
    pub mode: ModeView,
    pub idx: usize,
    pub selected_idx: usize,
    pub groups: Seq<GroupRow>,
    pub selected: Option<usize>,
}

impl View for GroupView {
    type V = GroupViewState;

    open spec fn view(&self) -> GroupViewState {
        GroupViewState {
            connected: self.command_tx,
            mode: self.mode@,
            idx: self.idx,
            selected_idx: self.selected_idx,
            groups: self.groups.deep_view(),
            selected: self.selected,
        }
    }
}

impl GroupViewState {
    /// Whether the component's tab is the selected one.
    pub open spec fn focused(self) -> bool {
        self.selected_idx == self.idx
    }

    /// The state after a key press: in the selected tab the stepping keys
    /// move the selection, wrapping at both ends.
    pub open spec fn on_key(self, key: KeyEvent) -> GroupViewState {
        if !self.focused() {
            self
        } else if key.code.steps_down() {
            GroupViewState { selected: next_selection(self.selected, self.groups.len()), ..self }
        } else if key.code.steps_up() {
            GroupViewState { selected: prev_selection(self.selected, self.groups.len()), ..self }
        } else {
            self
        }
    }

    /// What a key press sends: in the selected tab the opening keys ask for
    /// a tab on the selected group, or on all articles where the synthetic
    /// group is selected.
    pub open spec fn key_sends(self, key: KeyEvent) -> Seq<ActionView> {
        if self.focused() && key.code.opens() && self.connected && self.groups.len() > 0 {
            let group = self.groups[clamped(self.selected, self.groups.len()) as int];
            if group.id == ALL_ID {
                seq![ActionView::NewTabArticleViewAll]
            } else {
                seq![ActionView::NewTabFeedView(group)]
            }
        } else {
            Seq::empty()
        }
    }

    /// The state after a mouse event: scrolling moves the selection.
    pub open spec fn on_mouse(self, mouse: MouseEvent) -> GroupViewState {
        match mouse.kind {
            MouseEventKind::ScrollUp => GroupViewState {
                selected: next_selection(self.selected, self.groups.len()),
                ..self
            },
            MouseEventKind::ScrollDown => GroupViewState {
                selected: prev_selection(self.selected, self.groups.len()),
                ..self
            },
            MouseEventKind::Other => self,
        }
    }

    /// The state after an action.
    pub open spec fn on_action(self, action: ActionView) -> GroupViewState {
        match action {
            ActionView::Refresh(groups) => GroupViewState { groups, ..self },
            ActionView::ChangeTab(idx) => GroupViewState { selected_idx: idx, ..self },
            ActionView::ModeChange(mode) => GroupViewState { mode, ..self },
            _ => self,
        }
    }

    /// The state after a terminal event.
    pub open spec fn on_event(self, event: Event) -> GroupViewState {
        match event {
            Event::Key(key) => self.on_key(key),
            Event::Mouse(mouse) => self.on_mouse(mouse),
            _ => self,
        }
    }

    /// What a terminal event sends.
    pub open spec fn event_sends(self, event: Event) -> Seq<ActionView> {
        match event {
            Event::Key(key) => self.key_sends(key),
            _ => Seq::empty(),
        }
    }
}

impl GroupView {
    /// The list before any group is known: in tab 0, which is selected,
    /// with the first entry selected.
    pub fn new() -> (r: Self)
        ensures
            r.config.is_default(),
            r@ == (GroupViewState {
                connected: false,
                mode: ModeView::Main,
                idx: 0,
                selected_idx: 0,
                groups: Seq::empty(),
                selected: Some(0),
            }),
    {
        let r = GroupView {
            command_tx: false,
            config: Config::default(),
            mode: Mode::default(),
            idx: 0,
            selected_idx: 0,
            groups: Vec::new(),
            selected: Some(0),
        };
        assert(r@.groups =~= Seq::empty());
        r
    }
}

impl GroupViewState {
    /// The entries as they are drawn: name and description of each group,
    /// the selected entry marked.
    pub open spec fn rows(self) -> Seq<RowView> {
        Seq::new(
            self.groups.len(),
            |i: int|
                RowView {
                    name: self.groups[i].name,
                    desc: self.groups[i].desc,
                    highlighted: self.selected == Some(i as usize),
                },
        )
    }
}

impl GroupView {
    /// The entries of the list as they are drawn.
    pub fn rows(&self) -> (r: Vec<Row>)
        ensures
            r.deep_view() == self@.rows(),
    {
        let mut rows: Vec<Row> = Vec::new();
        let mut i: usize = 0;
        while i < self.groups.len()
            invariant
                i <= self.groups.len(),
                rows.deep_view() == self@.rows().take(i as int),
            decreases self.groups.len() - i,
        {
            let ghost prev = rows.deep_view();
            rows.push(
                Row {
                    name: self.groups[i].name.clone(),
                    desc: self.groups[i].desc.clone(),
                    highlighted: match self.selected {
                        Some(at) => at == i,
                        None => false,
                    },
                },
            );
            assert(rows.deep_view() =~= prev.push(self@.rows()[i as int]));
            assert(self@.rows().take(i + 1) =~= self@.rows().take(i as int).push(
                self@.rows()[i as int],
            ));
            i += 1;
        }
        assert(self@.rows().take(i as int) =~= self@.rows());
        rows
    }
}

impl Component for GroupView {
    open spec fn wf(&self) -> bool {
        true
    }

    fn register_action_handler(&mut self)
        ensures
            final(self).config == old(self).config,
            final(self)@ == (GroupViewState { connected: true, ..old(self)@ }),
    {
        self.command_tx = true;
    }

    fn register_config_handler(&mut self, config: Config)
        ensures
            final(self)@ == old(self)@,
            final(self).config == config,
    {
        self.config = config;
    }

    fn handle_events(&mut self, event: Event, tx: &mut ActionQueue) -> (r: Option<Action>)
        ensures
            final(self).config == old(self).config,
            r is None,
            final(self)@ == old(self)@.on_event(event),
            final(tx)@ == old(tx)@ + old(self)@.event_sends(event),
    {
        match event {
            Event::Key(key) => self.handle_key_events(key, tx),
            Event::Mouse(mouse) => self.handle_mouse_events(mouse, tx),
            _ => None,
        }
    }

    fn handle_key_events(&mut self, key: KeyEvent, tx: &mut ActionQueue) -> (r: Option<Action>)
        ensures
            final(self).config == old(self).config,
            r is None,
            final(self)@ == old(self)@.on_key(key),
            final(tx)@ == old(tx)@ + old(self)@.key_sends(key),
    {
        if self.selected_idx == self.idx {
            match key.code {
                KeyCode::Char('j') | KeyCode::Down => {
                    self.selected = select_next(self.selected, self.groups.len());
                },
                KeyCode::Char('k') | KeyCode::Up => {
                    self.selected = select_prev(self.selected, self.groups.len());
                },
                KeyCode::Char('l') | KeyCode::Enter => {
                    if self.command_tx && self.groups.len() > 0 {
                        let at = clamp_selection(self.selected, self.groups.len());
                        let group = self.groups[at].clone();
                        if group.id == ALL_ID {
                            tx.send(Action::NewTabArticleViewAll);
                        } else {
                            tx.send(Action::NewTabFeedView(group));
                        }
                    }
                },
                _ => {},
            }
        }
        None
    }

    fn handle_mouse_events(&mut self, mouse: MouseEvent, tx: &mut ActionQueue) -> (r: Option<
        Action,
    >)
        ensures
            final(self).config == old(self).config,
            r is None,
            final(self)@ == old(self)@.on_mouse(mouse),
            final(tx)@ == old(tx)@,
    {
        match mouse.kind {
            MouseEventKind::ScrollUp => {
                self.selected = select_next(self.selected, self.groups.len());
            },
            MouseEventKind::ScrollDown => {
                self.selected = select_prev(self.selected, self.groups.len());
            },
            MouseEventKind::Other => {},
        }
        None
    }

    fn update(&mut self, action: &Action, tx: &mut ActionQueue) -> (r: Option<Action>)
        ensures
            final(self).config == old(self).config,
            r is None,
            final(self)@ == old(self)@.on_action(action@),
            final(tx)@ == old(tx)@,
    {
        match action {
            Action::Refresh(groups) => {
                self.groups = clone_groups(groups);
                assert(self.groups.deep_view() =~= groups.deep_view());
            },
            Action::ChangeTab(idx) => {
                self.selected_idx = *idx;
            },
            Action::ModeChange(mode) => {
                self.mode = mode.clone();
            },
            _ => {},
        }
        None
    }
}

} // verus!
