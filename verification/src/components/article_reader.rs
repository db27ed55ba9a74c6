//! The reader: the right pane of an article tab, showing one article.

use crate::action::{Action, ActionQueue, ActionView};
use crate::components::Component;
use crate::html::{html_to_text, parsed_html, styled_text, Line, SpanView};
use crate::tui::{Event, KeyCode, KeyEvent, MouseEvent, MouseEventKind};
use vstd::prelude::*;

verus! {

/// The reader of one article tab.
pub struct ArticleReader {
    /// Whether the component is connected to the action queue.
    pub command_tx: bool,
    /// The place of the tab this reader belongs to.
    pub idx: usize,
    /// The article body as HTML.
    pub content: Option<String>,
    /// How far the text is scrolled: lines down, columns across.
    pub scroll_position: (u16, u16),
    /// The article body as styled text.
    pub text: Option<Vec<Line>>,
    /// Whether the reader, and not the list beside it, has the input.
    pub active: bool,
}

/// The state of a reader.
pub struct ArticleReaderState {
    pub connected: bool,
    pub idx: usize,
    pub content: Option<Seq<char>>,
    pub scroll_position: (u16, u16),
    pub text: Option<Seq<Seq<SpanView>>>,
    pub active: bool,
}

/// The text of an optional string.
pub open spec fn content_of(content: Option<String>) -> Option<Seq<char>> {
    match content {
        Some(c) => Some(c@),
        None => None,
    }
}

/// The lines of an optional text.
pub open spec fn text_of(text: Option<Vec<Line>>) -> Option<Seq<Seq<SpanView>>> {
    match text {
        Some(t) => Some(t.deep_view()),
        None => None,
    }
}

/// One step further, as far as the counter goes.
pub open spec fn scrolled_on(at: u16) -> u16 {
    if at < u16::MAX {
        (at + 1) as u16
    } else {
        at
    }
}

/// One step back, as far as the start.
pub open spec fn scrolled_back(at: u16) -> u16 {
    if at > 0 {
        (at - 1) as u16
    } else {
        at
    }
}

impl View for ArticleReader {
    type V = ArticleReaderState;

    open spec fn view(&self) -> ArticleReaderState {
        ArticleReaderState {
            connected: self.command_tx,
            idx: self.idx,
            content: content_of(self.content),
            scroll_position: self.scroll_position,
            text: text_of(self.text),
            active: self.active,
        }
    }
}

impl ArticleReaderState {
    /// The state after a key press: while the reader has the input, `j`
    /// and `k` scroll, and `h` hands the input back to the list.
    pub open spec fn on_key(self, key: KeyEvent) -> ArticleReaderState {
        if !self.active {
            self
        } else if key.code == KeyCode::Char('k') {
            ArticleReaderState {
                scroll_position: (scrolled_back(self.scroll_position.0), self.scroll_position.1),
                ..self
            }
        } else if key.code == KeyCode::Char('j') {
            ArticleReaderState {
                scroll_position: (scrolled_on(self.scroll_position.0), self.scroll_position.1),
                ..self
            }
        } else if key.code == KeyCode::Char('h') && self.connected {
            ArticleReaderState { active: false, ..self }
        } else {
            self
        }
    }

    /// What a key press sends.
    pub open spec fn key_sends(self, key: KeyEvent) -> Seq<ActionView> {
        if self.active && key.code == KeyCode::Char('h') && self.connected {
            seq![ActionView::ActivateFeedList]
        } else {
            Seq::empty()
        }
    }

    /// The state after a mouse event: while the reader has the input,
    /// scrolling scrolls.
    pub open spec fn on_mouse(self, mouse: MouseEvent) -> ArticleReaderState {
        if !self.active {
            self
        } else {
            match mouse.kind {
                MouseEventKind::ScrollUp => ArticleReaderState {
                    scroll_position: (
                        scrolled_back(self.scroll_position.0),
                        self.scroll_position.1,
                    ),
                    ..self
                },
                MouseEventKind::ScrollDown => ArticleReaderState {
                    scroll_position: (scrolled_on(self.scroll_position.0), self.scroll_position.1),
                    ..self
                },
                MouseEventKind::Other => self,
            }
        }
    }

    /// The state once `content` is shown: the text is made of it, and the
    /// scroll starts over.
    pub open spec fn showing(self, content: Seq<char>) -> ArticleReaderState {
        ArticleReaderState {
            content: Some(content),
            text: Some(styled_text(parsed_html(content))),
            scroll_position: (0, 0),
            ..self
        }
    }

    /// The state after an action. An article that is addressed to another
    /// tab is not taken.
    pub open spec fn on_action(self, action: ActionView) -> ArticleReaderState {
        match action {
            ActionView::UpdateReader(idx, content) => if idx == self.idx {
                self.showing(content)
            } else {
                self
            },
            ActionView::ActivateFeedList => ArticleReaderState { active: false, ..self },
            ActionView::ActivateReader => ArticleReaderState { active: true, ..self },
            _ => self,
        }
    }

    /// The state after a terminal event.
    pub open spec fn on_event(self, event: Event) -> ArticleReaderState {
        match event {
            Event::Key(key) => self.on_key(key),
            Event::Mouse(mouse) => self.on_mouse(mouse),
            _ => self,
        }
    }

    /// What a terminal event sends.
    pub open spec fn event_sends(self, event: Event) -> Seq<ActionView> {
        match event {
            Event::Key(key) => self.key_sends(key),
            _ => Seq::empty(),
        }
    }
}

/// One step further, as far as the counter goes.
pub fn scroll_on(at: u16) -> (r: u16)
    ensures
        r == scrolled_on(at),
{
    if at < u16::MAX {
        at + 1
    } else {
        at
    }
}

/// One step back, as far as the start.
pub fn scroll_back(at: u16) -> (r: u16)
    ensures
        r == scrolled_back(at),
{
    if at > 0 {
        at - 1
    } else {
        at
    }
}

impl ArticleReader {
    /// The reader of the tab at `idx`, before it shows anything.
    pub fn new(idx: usize) -> (r: Self)
        ensures
            r@ == (ArticleReaderState {
                connected: false,
                idx,
                content: None,
                scroll_position: (0, 0),
                text: None,
                active: false,
            }),
    {
        ArticleReader {
            command_tx: false,
            idx,
            content: None,
            scroll_position: (0, 0),
            text: None,
            active: false,
        }
    }

    /// Gives the reader an article body; the text is not made yet.
    pub fn set_content(&mut self, content: String)
        ensures
            final(self)@ == (ArticleReaderState { content: Some(content@), ..old(self)@ }),
    {
        self.content = Some(content);
    }

    /// Makes the styled text of the article body. Without a body nothing
    /// changes.
    pub fn build_text(&mut self)
        ensures
            final(self)@ == match old(self)@.content {
                Some(content) => ArticleReaderState {
                    text: Some(styled_text(parsed_html(content))),
                    ..old(self)@
                },
                None => old(self)@,
            },
    {
        if let Some(content) = &self.content {
            let text = html_to_text(content.as_str());
            self.text = Some(text);
        }
    }
}

impl Component for ArticleReader {
    open spec fn wf(&self) -> bool {
        true
    }

    fn register_action_handler(&mut self)
        ensures
            final(self)@ == (ArticleReaderState { connected: true, ..old(self)@ }),
    {
        self.command_tx = true;
    }

    fn handle_events(&mut self, event: Event, tx: &mut ActionQueue) -> (r: Option<Action>)
        ensures
            r is None,
            final(self)@ == old(self)@.on_event(event),
            final(tx)@ == old(tx)@ + old(self)@.event_sends(event),
    {
        match event {
            Event::Key(key) => self.handle_key_events(key, tx),
            Event::Mouse(mouse) => self.handle_mouse_events(mouse, tx),
            _ => None,
        }
    }

    fn handle_key_events(&mut self, key: KeyEvent, tx: &mut ActionQueue) -> (r: Option<Action>)
        ensures
            r is None,
            final(self)@ == old(self)@.on_key(key),
            final(tx)@ == old(tx)@ + old(self)@.key_sends(key),
    {
        if self.active {
            match key.code {
                KeyCode::Char('k') => {
                    self.scroll_position = (
                        scroll_back(self.scroll_position.0),
                        self.scroll_position.1,
                    );
                },
                KeyCode::Char('j') => {
                    self.scroll_position = (
                        scroll_on(self.scroll_position.0),
                        self.scroll_position.1,
                    );
                },
                KeyCode::Char('h') => {
                    if self.command_tx {
                        tx.send(Action::ActivateFeedList);
                        self.active = false;
                    }
                },
                _ => {},
            }
        }
        None
    }

    fn handle_mouse_events(&mut self, mouse: MouseEvent, tx: &mut ActionQueue) -> (r: Option<
        Action,
    >)
        ensures
            r is None,
            final(self)@ == old(self)@.on_mouse(mouse),
            final(tx)@ == old(tx)@,
    {
        if self.active {
            match mouse.kind {
                MouseEventKind::ScrollUp => {
                    self.scroll_position = (
                        scroll_back(self.scroll_position.0),
                        self.scroll_position.1,
                    );
                },
                MouseEventKind::ScrollDown => {
                    self.scroll_position = (
                        scroll_on(self.scroll_position.0),
                        self.scroll_position.1,
                    );
                },
                MouseEventKind::Other => {},
            }
        }
        None
    }

    fn update(&mut self, action: &Action, tx: &mut ActionQueue) -> (r: Option<Action>)
        ensures
            r is None,
            final(self)@ == old(self)@.on_action(action@),
            final(tx)@ == old(tx)@,
    {
        match action {
            Action::UpdateReader(idx, content) => {
                if self.idx == *idx {
                    self.content = Some(content.clone());
                    self.build_text();
                    self.scroll_position = (0, 0);
                }
            },
            Action::ActivateFeedList => {
                self.active = false;
            },
            Action::ActivateReader => {
                self.active = true;
            },
            _ => {},
        }
        None
    }
}

} // verus!
