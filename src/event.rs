use vstd::prelude::*;
use crate::message::Message;
use crate::turn::TurnToSpeak;

verus! {

/// A message exchanged between the actors and the orchestrator.
#[derive(Debug)]
pub enum Event {
    /// Any handler receiving this event should put its affairs in order.
    Quit,
    /// The user submitted a message with this content.
    UserMessage(String),
    /// A snapshot of the whole conversation.
    ConversationUpdated(Vec<Message>),
    /// A new status line for the user.
    StatusUpdated(String),
    /// The turn passes to this party without a new message: after a failed
    /// completion call the user may speak again.
    TurnUpdated(TurnToSpeak),
}

/// Whether an event is a status update with the given text.
pub open spec fn is_status(e: Event, text: Seq<char>) -> bool {
    e matches Event::StatusUpdated(s) && s@ == text
}

/// Whether an event is a snapshot of the given conversation.
pub open spec fn is_snapshot(e: Event, conversation: Seq<Message>) -> bool {
    e matches Event::ConversationUpdated(v) && v@ == conversation
}

/// The contents of the user messages among some events, in order.
pub open spec fn user_contents(events: Seq<Event>) -> Seq<Seq<char>>
    decreases events.len(),
{
    if events.len() == 0 {
        Seq::empty()
    } else {
        let rest = user_contents(events.drop_last());
        match events.last() {
            Event::UserMessage(c) => rest.push(c@),
            _ => rest,
        }
    }
}

/// Whether any of the events asks to quit.
pub open spec fn has_quit(events: Seq<Event>) -> bool {
    exists|i: int| 0 <= i < events.len() && events[i] is Quit
}

} // verus!
