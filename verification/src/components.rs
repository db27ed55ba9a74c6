//! The visual components: what every one of them can do, and the moves of a
//! selection through a list that several of them share.

use crate::action::{Action, ActionQueue};
use crate::config::Config;
use crate::tui::{Event, KeyEvent, MouseEvent, Rect};
use vstd::prelude::*;

pub mod article_list;
pub mod article_reader;
pub mod article_view;
pub mod feed_view;
pub mod group_view;
pub mod info_bar;
pub mod infobar;
pub mod popup_quit;
pub mod reader;
pub mod tab_bar;
pub mod tab_viewer;
pub mod tabbar;

verus! {

/// What every component can do. A component that has no use for one of
/// these leaves it as it is here: it does nothing and answers nothing.
///
/// Whatever a component does with the queue, it only adds at its back.
pub trait Component: Sized {
    /// The component's own rules hold.
    spec fn wf(&self) -> bool;

    /// Connects the component to the action queue: from now on what it
    /// sends arrives.
    fn register_action_handler(&mut self)
        requires
            old(self).wf(),
        ensures
            final(self).wf(),
        default_ensures
            *final(self) == *old(self),
    {
    }

    /// Hands the component the configuration.
    fn register_config_handler(&mut self, config: Config)
        requires
            old(self).wf(),
        ensures
            final(self).wf(),
        default_ensures
            *final(self) == *old(self),
    {
    }

    /// Tells the component the size of the terminal at the start.
    fn init(&mut self, area: Rect)
        requires
            old(self).wf(),
        ensures
            final(self).wf(),
        default_ensures
            *final(self) == *old(self),
    {
    }

    /// Lets the component react to a terminal event.
    fn handle_events(&mut self, event: Event, tx: &mut ActionQueue) -> (r: Option<Action>)
        requires
            old(self).wf(),
        ensures
            final(self).wf(),
            old(tx)@.is_prefix_of(final(tx)@),
        default_ensures
            *final(self) == *old(self),
            final(tx)@ == old(tx)@,
            r is None,
    {
        None
    }

    /// Lets the component react to a key press.
    fn handle_key_events(&mut self, key: KeyEvent, tx: &mut ActionQueue) -> (r: Option<Action>)
        requires
            old(self).wf(),
        ensures
            final(self).wf(),
            old(tx)@.is_prefix_of(final(tx)@),
        default_ensures
            *final(self) == *old(self),
            final(tx)@ == old(tx)@,
            r is None,
    {
        None
    }

    /// Lets the component react to a mouse event.
    fn handle_mouse_events(&mut self, mouse: MouseEvent, tx: &mut ActionQueue) -> (r: Option<
        Action,
    >)
        requires
            old(self).wf(),
        ensures
            final(self).wf(),
            old(tx)@.is_prefix_of(final(tx)@),
        default_ensures
            *final(self) == *old(self),
            final(tx)@ == old(tx)@,
            r is None,
    {
        None
    }

    /// Lets the component react to an action.
    fn update(&mut self, action: &Action, tx: &mut ActionQueue) -> (r: Option<Action>)
        requires
            old(self).wf(),
        ensures
            final(self).wf(),
            old(tx)@.is_prefix_of(final(tx)@),
        default_ensures
            *final(self) == *old(self),
            final(tx)@ == old(tx)@,
            r is None,
    {
        None
    }
}

/// An entry of a list as it is drawn: two lines of text, and whether the
/// entry is the selected one.
#[derive(Debug, PartialEq, Eq)]
pub struct Row {
    pub name: String,
    pub desc: String,
    pub highlighted: bool,
}

/// What a drawn entry says.
pub struct RowView {
    pub name: Seq<char>,
    pub desc: Seq<char>,
    pub highlighted: bool,
}

impl View for Row {
    type V = RowView;

    open spec fn view(&self) -> RowView {
        RowView { name: self.name@, desc: self.desc@, highlighted: self.highlighted }
    }
}

impl DeepView for Row {
    type V = RowView;

    open spec fn deep_view(&self) -> RowView {
        self@
    }
}

/// The place a selection stands at in a list of `len` entries: the place
/// it names, or the last one where it names a place beyond the list.
pub open spec fn clamped(selected: Option<usize>, len: nat) -> nat {
    let at = match selected {
        Some(i) => i as nat,
        None => 0,
    };
    if at < len {
        at
    } else {
        (len - 1) as nat
    }
}

/// The selection after a step down a list of `len` entries: the next
/// place, or the first after the last. An empty list has no moves.
pub open spec fn next_selection(selected: Option<usize>, len: nat) -> Option<usize> {
    if len == 0 {
        selected
    } else if clamped(selected, len) + 1 < len {
        Some((clamped(selected, len) + 1) as usize)
    } else {
        Some(0)
    }
}

/// The selection after a step up a list of `len` entries: the place
/// before, or the last before the first. An empty list has no moves.
pub open spec fn prev_selection(selected: Option<usize>, len: nat) -> Option<usize> {
    if len == 0 {
        selected
    } else if clamped(selected, len) == 0 {
        Some((len - 1) as usize)
    } else {
        Some((clamped(selected, len) - 1) as usize)
    }
}

/// The place a selection stands at; the list must not be empty.
pub fn clamp_selection(selected: Option<usize>, len: usize) -> (at: usize)
    requires
        len > 0,
    ensures
        at == clamped(selected, len as nat),
        at < len,
{
    let at = match selected {
        Some(i) => i,
        None => 0,
    };
    if at < len {
        at
    } else {
        len - 1
    }
}

/// Steps a selection down a list.
pub fn select_next(selected: Option<usize>, len: usize) -> (r: Option<usize>)
    ensures
        r == next_selection(selected, len as nat),
{
    if len == 0 {
        selected
    } else {
        let at = clamp_selection(selected, len);
        if at + 1 < len {
            Some(at + 1)
        } else {
            Some(0)
        }
    }
}

/// Steps a selection up a list.
pub fn select_prev(selected: Option<usize>, len: usize) -> (r: Option<usize>)
    ensures
        r == prev_selection(selected, len as nat),
{
    if len == 0 {
        selected
    } else {
        let at = clamp_selection(selected, len);
        if at == 0 {
            Some(len - 1)
        } else {
            Some(at - 1)
        }
    }
}

} // verus!
