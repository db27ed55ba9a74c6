//! The question asked before quitting.

use crate::action::{Action, ActionQueue, ActionView};
use crate::components::Component;
use crate::config::Config;
use crate::tui::{Event, KeyCode, KeyEvent};
use vstd::prelude::*;

verus! {

/// The popup that asks whether to quit.
pub struct QuitPopup {
    /// Whether the component is connected to the action queue.
    pub command_tx: bool,
    pub config: Config,
    /// Whether the question is on the screen.
    pub show: bool,
}

/// The state of the popup.
pub struct QuitPopupState {
    pub connected: bool,
    /// Whether quitting asks for confirmation.
    pub confirm_quit: bool,
    pub show: bool,
}

impl View for QuitPopup {
    type V = QuitPopupState;

    open spec fn view(&self) -> QuitPopupState {
        QuitPopupState {
            connected: self.command_tx,
            confirm_quit: self.config.confirm_quit,
            show: self.show,
        }
    }
}

impl QuitPopupState {
    /// The state after a key press: `n` takes the question away.
    pub open spec fn on_key(self, key: KeyEvent) -> QuitPopupState {
        if self.show && key.code == KeyCode::Char('n') {
            QuitPopupState { show: false, ..self }
        } else {
            self
        }
    }

    /// What a key press sends: `y` to the question quits.
    pub open spec fn key_sends(self, key: KeyEvent) -> Seq<ActionView> {
        if self.show && key.code == KeyCode::Char('y') && self.connected {
            seq![ActionView::Quit]
        } else {
            Seq::empty()
        }
    }

    /// The state after an action: a wish to quit puts the question on the
    /// screen where quitting asks for confirmation.
    pub open spec fn on_action(self, action: ActionView) -> QuitPopupState {
        if action is ConfirmQuit && self.confirm_quit {
            QuitPopupState { show: true, ..self }
        } else {
            self
        }
    }

    /// What an action sends: a wish to quit quits at once where quitting
    /// asks for no confirmation.
    pub open spec fn action_sends(self, action: ActionView) -> Seq<ActionView> {
        if action is ConfirmQuit && !self.confirm_quit && self.connected {
            seq![ActionView::Quit]
        } else {
            Seq::empty()
        }
    }

    /// The state after a terminal event.
    pub open spec fn on_event(self, event: Event) -> QuitPopupState {
        match event {
            Event::Key(key) => self.on_key(key),
            _ => self,
        }
    }

    /// What a terminal event sends.
    pub open spec fn event_sends(self, event: Event) -> Seq<ActionView> {
        match event {
            Event::Key(key) => self.key_sends(key),
            _ => Seq::empty(),
        }
    }
}

impl QuitPopup {
    /// The popup, hidden, under the configuration in force before any
    /// was read.
    pub fn new() -> (r: Self)
        ensures
            r.config.is_default(),
            r@ == (QuitPopupState { connected: false, confirm_quit: false, show: false }),
    {
        QuitPopup { command_tx: false, config: Config::default(), show: false }
    }
}

impl Component for QuitPopup {
    open spec fn wf(&self) -> bool {
        true
    }

    fn register_action_handler(&mut self)
        ensures
            final(self).config == old(self).config,
            final(self)@ == (QuitPopupState { connected: true, ..old(self)@ }),
    {
        self.command_tx = true;
    }

    fn register_config_handler(&mut self, config: Config)
        ensures
            final(self)@ == (QuitPopupState { confirm_quit: config.confirm_quit, ..old(self)@ }),
            final(self).config == config,
    {
        self.config = config;
    }

    fn handle_events(&mut self, event: Event, tx: &mut ActionQueue) -> (r: Option<Action>)
        ensures
            final(self).config == old(self).config,
            r is None,
            final(self)@ == old(self)@.on_event(event),
            final(tx)@ == old(tx)@ + old(self)@.event_sends(event),
    {
        match event {
            Event::Key(key) => self.handle_key_events(key, tx),
            _ => None,
        }
    }

    fn handle_key_events(&mut self, key: KeyEvent, tx: &mut ActionQueue) -> (r: Option<Action>)
        ensures
            final(self).config == old(self).config,
            r is None,
            final(self)@ == old(self)@.on_key(key),
            final(tx)@ == old(tx)@ + old(self)@.key_sends(key),
    {
        if self.show {
            match key.code {
                KeyCode::Char('y') => {
                    if self.command_tx {
                        tx.send(Action::Quit);
                    }
                },
                KeyCode::Char('n') => {
                    self.show = false;
                },
                _ => {},
            }
        }
        None
    }

    fn update(&mut self, action: &Action, tx: &mut ActionQueue) -> (r: Option<Action>)
        ensures
            final(self).config == old(self).config,
            r is None,
            final(self)@ == old(self)@.on_action(action@),
            final(tx)@ == old(tx)@ + old(self)@.action_sends(action@),
    {
        match action {
            Action::ConfirmQuit => {
                if self.config.confirm_quit {
                    self.show = true;
                } else if self.command_tx {
                    tx.send(Action::Quit);
                }
            },
            _ => {},
        }
        None
    }
}

} // verus!
