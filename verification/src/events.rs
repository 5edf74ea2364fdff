//! From what the terminal reports to the messages of the reducer.

use crate::keys::{
    handle_key_event, key_event_message, key_message, message_view, KeyCode, KeyEvent,
};
use crate::model::{Message, MessageView};
use vstd::prelude::*;

verus! {

/// What the terminal reports.
#[derive(Debug, Clone, Copy, PartialEq, Eq, Structural)]
pub enum Event {
    Key(KeyEvent),
    /// A resize, the mouse, a paste, a change of focus.
    Other,
}

/// The message that an event stands for.
pub open spec fn event_message(event: Event) -> Option<MessageView> {
    match event {
        Event::Key(key) => key_event_message(key),
        Event::Other => None,
    }
}

/// The messages that a run of events stands for, in the order of the events.
pub open spec fn event_messages(events: Seq<Event>) -> Seq<MessageView>
    decreases events.len(),
{
    if events.len() == 0 {
        Seq::empty()
    } else {
        match event_message(events.last()) {
            Some(message) => event_messages(events.drop_last()).push(message),
            None => event_messages(events.drop_last()),
        }
    }
}

/// The views of a list of messages.
pub open spec fn messages_view(messages: Seq<Message>) -> Seq<MessageView> {
    Seq::new(messages.len(), |i: int| messages[i]@)
}

/// The message that a key stands for.
pub fn handle_key(key: KeyEvent) -> (message: Option<Message>)
    ensures
        message_view(message) == key_message(key),
{
    match key.code {
        KeyCode::Left => Some(Message::MoveLeft),
        KeyCode::Right => Some(Message::MoveRight),
        KeyCode::Up => Some(Message::MoveUp),
        KeyCode::Down => Some(Message::MoveDown),
        KeyCode::PageUp => Some(Message::PageUp),
        KeyCode::PageDown => Some(Message::PageDown),
        KeyCode::Char(c) => if c == 'h' {
            Some(Message::MoveLeft)
        } else if c == 'l' {
            Some(Message::MoveRight)
        } else if c == 'k' {
            Some(Message::MoveUp)
        } else if c == 'j' {
            Some(Message::MoveDown)
        } else if c == '[' {
            Some(Message::PageUp)
        } else if c == ']' {
            Some(Message::PageDown)
        } else if c == 'q' {
            Some(Message::Quit)
        } else if c == 'c' && key.control {
            Some(Message::Quit)
        } else {
            None
        },
        KeyCode::Other => None,
    }
}

/// The messages that a run of events stands for, in the order of the events.
pub fn handle_events(events: &Vec<Event>) -> (messages: Vec<Message>)
    ensures
        messages_view(messages@) == event_messages(events@),
{
    let mut messages: Vec<Message> = Vec::new();
    let mut i: usize = 0;
    while i < events.len()
        invariant
            i <= events.len(),
            messages_view(messages@) == event_messages(events@.take(i as int)),
        decreases events.len() - i,
    {
        proof {
            assert(events@.take(i + 1).drop_last() =~= events@.take(i as int));
        }
        let message = match events[i] {
            Event::Key(key) => handle_key_event(key),
            Event::Other => None,
        };
        match message {
            Some(message) => {
                messages.push(message);
            },
            None => {},
        }
        i = i + 1;
    }
    assert(events@.take(i as int) =~= events@);
    messages
}

} // verus!
