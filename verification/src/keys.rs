//! The keys of the terminal and the messages they stand for.

use crate::events::handle_key;
use crate::model::{Message, MessageView};
use vstd::prelude::*;

verus! {

/// The keys that the program tells apart.
#[derive(Debug, Clone, Copy, PartialEq, Eq, Structural)]
pub enum KeyCode {
    Left,
    Right,
    Up,
    Down,
    PageUp,
    PageDown,
    Char(char),
    /// Any other key.
    Other,
}

/// What happened to a key.
#[derive(Debug, Clone, Copy, PartialEq, Eq, Structural)]
pub enum KeyEventKind {
    Press,
    Repeat,
    Release,
}

/// A key event as the terminal reports it.
#[derive(Debug, Clone, Copy, PartialEq, Eq, Structural)]
pub struct KeyEvent {
    pub code: KeyCode,
    /// Whether the control key was held.
    pub control: bool,
    pub kind: KeyEventKind,
}

/// The message that a key stands for, whatever happened to the key: the arrows and `h` `j` `k` `l`
/// move, the page keys and `[` `]` turn pages, `q` and control-`c` quit.
pub open spec fn key_message(key: KeyEvent) -> Option<MessageView> {
    match key.code {
        KeyCode::Left => Some(MessageView::MoveLeft),
        KeyCode::Right => Some(MessageView::MoveRight),
        KeyCode::Up => Some(MessageView::MoveUp),
        KeyCode::Down => Some(MessageView::MoveDown),
        KeyCode::PageUp => Some(MessageView::PageUp),
        KeyCode::PageDown => Some(MessageView::PageDown),
        KeyCode::Char(c) => if c == 'h' {
            Some(MessageView::MoveLeft)
        } else if c == 'l' {
            Some(MessageView::MoveRight)
        } else if c == 'k' {
            Some(MessageView::MoveUp)
        } else if c == 'j' {
            Some(MessageView::MoveDown)
        } else if c == '[' {
            Some(MessageView::PageUp)
        } else if c == ']' {
            Some(MessageView::PageDown)
        } else if c == 'q' {
            Some(MessageView::Quit)
        } else if c == 'c' && key.control {
            Some(MessageView::Quit)
        } else {
            None
        },
        KeyCode::Other => None,
    }
}

/// The message that a key event stands for: that of its key if the key was pressed, none if it
/// was released or is repeating.
pub open spec fn key_event_message(key: KeyEvent) -> Option<MessageView> {
    if key.kind == KeyEventKind::Press {
        key_message(key)
    } else {
        None
    }
}

/// The view of an optional message.
pub open spec fn message_view(message: Option<Message>) -> Option<MessageView> {
    match message {
        Some(message) => Some(message@),
        None => None,
    }
}

/// The message that a key event stands for; only presses count.
pub fn handle_key_event(key_event: KeyEvent) -> (message: Option<Message>)
    ensures
        message_view(message) == key_event_message(key_event),
{
    match key_event.kind {
        KeyEventKind::Press => handle_key(key_event),
        _ => None,
    }
}

} // verus!
