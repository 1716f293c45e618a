use vstd::prelude::*;
use crate::env::Env;
use crate::event::Event;
use crate::message::Message;
use crate::turn::{turn_for, turn_for_conversation, TurnToSpeak};

verus! {

/// A key as the frontend sees it.
#[derive(Clone, Copy, Debug, PartialEq, Eq, Structural)]
pub enum Key {
    Esc,
    Enter,
    Char(char),
    Other,
}

/// One key press with its modifiers.
#[derive(Clone, Copy, Debug, PartialEq, Eq, Structural)]
pub struct Input {
    pub key: Key,
    pub ctrl: bool,
    pub alt: bool,
}

/// What the frontend does with one key press.
#[derive(Clone, Copy, Debug, PartialEq, Eq, Structural)]
pub enum InputAction {
    /// Ask the orchestrator to quit.
    Quit,
    /// Take the input buffer and send it to the backend as a user message.
    Send,
    /// Drop the key press.
    Ignore,
    /// Pass the key press to the input buffer.
    Edit,
}

/// The rule for one key press: Esc quits; Enter sends the buffer when it is
/// the user's turn and the buffer holds something, and is dropped otherwise;
/// Ctrl+M is a disabled shortcut; everything else edits the buffer.
pub open spec fn input_action(turn: TurnToSpeak, input: Input, input_is_empty: bool) -> InputAction {
    match input.key {
        Key::Esc => InputAction::Quit,
        Key::Enter => if !input_is_empty && turn == TurnToSpeak::User {
            InputAction::Send
        } else {
            InputAction::Ignore
        },
        Key::Char(c) => if c == 'm' && input.ctrl && !input.alt {
            InputAction::Ignore
        } else {
            InputAction::Edit
        },
        Key::Other => InputAction::Edit,
    }
}

/// How far to scroll a conversation of `line_count` lines in a block whose
/// bottom edge is at row `bottom` so that the latest line shows: past the
/// overflow by one row, or not at all when everything fits.
pub open spec fn scroll_offset_for(line_count: u16, bottom: u16) -> u16 {
    if bottom < line_count {
        if line_count - bottom + 1 > u16::MAX {
            u16::MAX
        } else {
            (line_count - bottom + 1) as u16
        }
    } else {
        0
    }
}

/// The scroll offset that keeps the latest line of the conversation in view.
pub fn scroll_offset(line_count: u16, bottom: u16) -> (r: u16)
    ensures
        r == scroll_offset_for(line_count, bottom),
{
    if bottom < line_count {
        (line_count - bottom).saturating_add(1)
    } else {
        0
    }
}

/// The last conversation snapshot among some events, if any.
pub open spec fn last_snapshot(events: Seq<Event>) -> Option<Seq<Message>>
    decreases events.len(),
{
    if events.len() == 0 {
        None
    } else {
        match events.last() {
            Event::ConversationUpdated(v) => Some(v@),
            _ => last_snapshot(events.drop_last()),
        }
    }
}

/// The turn that one event sets, if it sets one.
pub open spec fn event_turn(e: Event, your_name: Seq<char>, their_name: Seq<char>) -> Option<TurnToSpeak> {
    match e {
        Event::ConversationUpdated(v) => Some(turn_for(v@, your_name, their_name)),
        Event::TurnUpdated(t) => Some(t),
        _ => None,
    }
}

/// The turn that the last turn-setting event among some events sets, if any.
pub open spec fn last_turn(events: Seq<Event>, your_name: Seq<char>, their_name: Seq<char>) -> Option<TurnToSpeak>
    decreases events.len(),
{
    if events.len() == 0 {
        None
    } else {
        match event_turn(events.last(), your_name, their_name) {
            Some(t) => Some(t),
            None => last_turn(events.drop_last(), your_name, their_name),
        }
    }
}

/// The last status text among some events, if any.
pub open spec fn last_status(events: Seq<Event>) -> Option<Seq<char>>
    decreases events.len(),
{
    if events.len() == 0 {
        None
    } else {
        match events.last() {
            Event::StatusUpdated(s) => Some(s@),
            _ => last_status(events.drop_last()),
        }
    }
}

/// The frontend actor: a mirror of the conversation, the status line and the
/// turn as the frontend sees it.
#[derive(Debug)]
pub struct State {
    pub conversation: Vec<Message>,
    pub status: String,
    pub turn_to_speak: TurnToSpeak,
    pub env: Env,
}

impl State {
    /// A frontend with nothing mirrored yet: the user's turn.
    pub fn new(env: Env) -> (r: State)
        ensures
            r.conversation@.len() == 0,
            r.status@ == "loading the chatbot..."@,
            r.turn_to_speak == TurnToSpeak::User,
            r.env == env,
    {
        State {
            conversation: Vec::new(),
            status: String::from_str("loading the chatbot..."),
            turn_to_speak: TurnToSpeak::User,
            env,
        }
    }

    /// Decides what one key press does, given whether the input buffer is empty.
    pub fn handle_user_input(&self, input: Input, input_is_empty: bool) -> (r: InputAction)
        ensures
            r == input_action(self.turn_to_speak, input, input_is_empty),
    {
        match input.key {
            Key::Esc => InputAction::Quit,
            Key::Enter => {
                if input_is_empty {
                    InputAction::Ignore
                } else {
                    match self.turn_to_speak {
                        TurnToSpeak::User => InputAction::Send,
                        TurnToSpeak::Bot => InputAction::Ignore,
                    }
                }
            },
            Key::Char(c) => {
                if c == 'm' && input.ctrl && !input.alt {
                    InputAction::Ignore
                } else {
                    InputAction::Edit
                }
            },
            Key::Other => InputAction::Edit,
        }
    }

    /// Takes one event from the backend: a snapshot replaces the mirrored
    /// conversation and sets the turn from its last message; a status replaces
    /// the status line; a turn update sets the turn; anything else is ignored.
    pub fn handle_backend_event(&mut self, event: Event)
        ensures
            final(self).turn_to_speak == match event_turn(
                event,
                old(self).env.your_name_spec(),
                old(self).env.their_name_spec(),
            ) {
                Some(t) => t,
                None => old(self).turn_to_speak,
            },
            final(self).env == old(self).env,
            final(self).conversation@ == match event {
                Event::ConversationUpdated(v) => v@,
                _ => old(self).conversation@,
            },
            final(self).status@ == match event {
                Event::StatusUpdated(s) => s@,
                _ => old(self).status@,
            },
    {
        match event {
            Event::ConversationUpdated(conversation) => {
                self.turn_to_speak = turn_for_conversation(
                    conversation.as_slice(),
                    self.env.your_name(),
                    self.env.their_name(),
                );
                self.conversation = conversation;
            },
            Event::StatusUpdated(status) => {
                self.status = status;
            },
            Event::TurnUpdated(turn) => {
                self.turn_to_speak = turn;
            },
            _ => {},
        }
    }

    /// Takes all the events the backend sent since the last tick, in order.
    pub fn handle_backend_events(&mut self, events: Vec<Event>)
        ensures
            final(self).turn_to_speak == match last_turn(
                events@,
                old(self).env.your_name_spec(),
                old(self).env.their_name_spec(),
            ) {
                Some(t) => t,
                None => old(self).turn_to_speak,
            },
            final(self).env == old(self).env,
            final(self).conversation@ == match last_snapshot(events@) {
                Some(c) => c,
                None => old(self).conversation@,
            },
            final(self).status@ == match last_status(events@) {
                Some(s) => s,
                None => old(self).status@,
            },
    {
        let ghost all = events@;
        let mut events = events;
        let ghost mut k: int = 0;
        assert(all.subrange(0, 0) =~= Seq::<Event>::empty());
        while events.len() > 0
            invariant
                0 <= k <= all.len(),
                events@ == all.subrange(k, all.len() as int),
                self.turn_to_speak == match last_turn(
                    all.subrange(0, k),
                    old(self).env.your_name_spec(),
                    old(self).env.their_name_spec(),
                ) {
                    Some(t) => t,
                    None => old(self).turn_to_speak,
                },
                self.env == old(self).env,
                self.conversation@ == match last_snapshot(all.subrange(0, k)) {
                    Some(c) => c,
                    None => old(self).conversation@,
                },
                self.status@ == match last_status(all.subrange(0, k)) {
                    Some(s) => s,
                    None => old(self).status@,
                },
            decreases events@.len(),
        {
            let e = events.remove(0);
            proof {
                assert(all.subrange(0, k + 1).drop_last() =~= all.subrange(0, k));
                assert(all.subrange(0, k + 1).last() == e);
                k = k + 1;
                assert(events@ =~= all.subrange(k, all.len() as int));
            }
            self.handle_backend_event(e);
        }
        assert(all.subrange(0, all.len() as int) =~= all);
    }
}

} // verus!
