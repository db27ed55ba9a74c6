//! A reader that stands alone: it shows whatever article arrives.

use crate::action::{Action, ActionQueue, ActionView};
use crate::components::article_reader::{
    content_of, scroll_back, scroll_on, scrolled_back, scrolled_on, text_of,
};
use crate::components::Component;
use crate::html::{html_to_text, parsed_html, styled_text, Line, SpanView};
use crate::tui::{Event, KeyCode, KeyEvent, MouseEvent, MouseEventKind};
use vstd::prelude::*;

verus! {

/// A reader that belongs to no tab.
pub struct Reader {
    /// The article body as HTML.
    pub content: Option<String>,
    /// How far the text is scrolled: lines down, columns across.
    pub scroll_position: (u16, u16),
    /// The article body as styled text.
    pub text: Option<Vec<Line>>,
    pub active: bool,
}

/// The state of a reader.
pub struct ReaderState {
    pub content: Option<Seq<char>>,
    pub scroll_position: (u16, u16),
    pub text: Option<Seq<Seq<SpanView>>>,
    pub active: bool,
}

impl View for Reader {
    type V = ReaderState;

    open spec fn view(&self) -> ReaderState {
        ReaderState {
            content: content_of(self.content),
            scroll_position: self.scroll_position,
            text: text_of(self.text),
            active: self.active,
        }
    }
}

impl ReaderState {
    /// The state after a key press: `j` and `k` scroll.
    pub open spec fn on_key(self, key: KeyEvent) -> ReaderState {
        if key.code == KeyCode::Char('k') {
            ReaderState {
                scroll_position: (self.scroll_position.0, scrolled_back(self.scroll_position.1)),
                ..self
            }
        } else if key.code == KeyCode::Char('j') {
            ReaderState {
                scroll_position: (self.scroll_position.0, scrolled_on(self.scroll_position.1)),
                ..self
            }
        } else {
            self
        }
    }

    /// The state after a mouse event: scrolling scrolls.
    pub open spec fn on_mouse(self, mouse: MouseEvent) -> ReaderState {
        match mouse.kind {
            MouseEventKind::ScrollUp => ReaderState {
                scroll_position: (self.scroll_position.0, scrolled_back(self.scroll_position.1)),
                ..self
            },
            MouseEventKind::ScrollDown => ReaderState {
                scroll_position: (self.scroll_position.0, scrolled_on(self.scroll_position.1)),
                ..self
            },
            MouseEventKind::Other => self,
        }
    }

    /// The state after an action: an article for any reader is shown.
    pub open spec fn on_action(self, action: ActionView) -> ReaderState {
        match action {
            ActionView::UpdateReader(_, content) => ReaderState {
                content: Some(content),
                text: Some(styled_text(parsed_html(content))),
                ..self
            },
            _ => self,
        }
    }

    /// The state after a terminal event.
    pub open spec fn on_event(self, event: Event) -> ReaderState {
        match event {
            Event::Key(key) => self.on_key(key),
            Event::Mouse(mouse) => self.on_mouse(mouse),
            _ => self,
        }
    }
}

impl Default for Reader {
    fn default() -> (r: Self)
        ensures
            r@ == (ReaderState {
                content: None,
                scroll_position: (0, 0),
                text: None,
                active: false,
            }),
    {
        Reader::new()
    }
}

impl Reader {
    /// A reader that shows nothing yet.
    pub fn new() -> (r: Self)
        ensures
            r@ == (ReaderState {
                content: None,
                scroll_position: (0, 0),
                text: None,
                active: false,
            }),
    {
        Reader { content: None, scroll_position: (0, 0), text: None, active: false }
    }

    /// Gives the reader an article body; the text is not made yet.
    pub fn set_content(&mut self, content: String)
        ensures
            final(self)@ == (ReaderState { content: Some(content@), ..old(self)@ }),
    {
        self.content = Some(content);
    }

    /// Makes the styled text of the article body. Without a body nothing
    /// changes.
    pub fn build_text(&mut self)
        ensures
            final(self)@ == match old(self)@.content {
                Some(content) => ReaderState {
                    text: Some(styled_text(parsed_html(content))),
                    ..old(self)@
                },
                None => old(self)@,
            },
    {
        if let Some(content) = &self.content {
            let text = html_to_text(content.as_str());
            self.text = Some(text);
        }
    }
}

impl Component for Reader {
    open spec fn wf(&self) -> bool {
        true
    }

    fn handle_events(&mut self, event: Event, tx: &mut ActionQueue) -> (r: Option<Action>)
        ensures
            r is None,
            final(self)@ == old(self)@.on_event(event),
            final(tx)@ == old(tx)@,
    {
        match event {
            Event::Key(key) => self.handle_key_events(key, tx),
            Event::Mouse(mouse) => self.handle_mouse_events(mouse, tx),
            _ => None,
        }
    }

    fn handle_key_events(&mut self, key: KeyEvent, tx: &mut ActionQueue) -> (r: Option<Action>)
        ensures
            r is None,
            final(self)@ == old(self)@.on_key(key),
            final(tx)@ == old(tx)@,
    {
        match key.code {
            KeyCode::Char('k') => {
                self.scroll_position = (self.scroll_position.0, scroll_back(self.scroll_position.1));
            },
            KeyCode::Char('j') => {
                self.scroll_position = (self.scroll_position.0, scroll_on(self.scroll_position.1));
            },
            _ => {},
        }
        None
    }

    fn handle_mouse_events(&mut self, mouse: MouseEvent, tx: &mut ActionQueue) -> (r: Option<
        Action,
    >)
        ensures
            r is None,
            final(self)@ == old(self)@.on_mouse(mouse),
            final(tx)@ == old(tx)@,
    {
        match mouse.kind {
            MouseEventKind::ScrollUp => {
                self.scroll_position = (self.scroll_position.0, scroll_back(self.scroll_position.1));
            },
            MouseEventKind::ScrollDown => {
                self.scroll_position = (self.scroll_position.0, scroll_on(self.scroll_position.1));
            },
            MouseEventKind::Other => {},
        }
        None
    }

    fn update(&mut self, action: &Action, tx: &mut ActionQueue) -> (r: Option<Action>)
        ensures
            r is None,
            final(self)@ == old(self)@.on_action(action@),
            final(tx)@ == old(tx)@,
    {
        match action {
            Action::UpdateReader(_, content) => {
                self.content = Some(content.clone());
                self.build_text();
            },
            _ => {},
        }
        None
    }
}

} // verus!
