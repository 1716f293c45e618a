use vstd::prelude::*;
use crate::message::Message;
use crate::text::same_text;

verus! {

/// Which party may produce the next message.
#[derive(Clone, Copy, Debug, PartialEq, Eq, Structural)]
pub enum TurnToSpeak {
    User,
    Bot,
}

/// The turn that follows a conversation: the user's when it is empty or when
/// the bot ("their" name) spoke last, the bot's otherwise.
pub open spec fn turn_for(conversation: Seq<Message>, your_name: Seq<char>, their_name: Seq<char>) -> TurnToSpeak {
    if conversation.len() == 0 || conversation.last().sender@ == their_name {
        TurnToSpeak::User
    } else {
        TurnToSpeak::Bot
    }
}

/// The name of the party that holds a turn.
pub open spec fn holder_name(turn: TurnToSpeak, your_name: Seq<char>, their_name: Seq<char>) -> Seq<char> {
    match turn {
        TurnToSpeak::User => your_name,
        TurnToSpeak::Bot => their_name,
    }
}

/// The other party's turn.
pub open spec fn other_turn(turn: TurnToSpeak) -> TurnToSpeak {
    match turn {
        TurnToSpeak::User => TurnToSpeak::Bot,
        TurnToSpeak::Bot => TurnToSpeak::User,
    }
}

/// Derives the turn from the last message of a conversation.
pub fn turn_for_conversation(conversation: &[Message], your_name: &str, their_name: &str) -> (r: TurnToSpeak)
    ensures
        r == turn_for(conversation@, your_name@, their_name@),
{
    let n = conversation.len();
    if n == 0 {
        TurnToSpeak::User
    } else if same_text(conversation[n - 1].sender.as_str(), their_name) {
        TurnToSpeak::User
    } else {
        TurnToSpeak::Bot
    }
}

/// When the party that holds the turn delivers a message, the turn passes to
/// the other party. So a run of delivered messages, each from the party whose
/// turn it is, makes the turn alternate, starting from the turn derived from
/// the last stored message (the user's for an empty conversation).
pub proof fn lemma_turn_alternates(
    conversation: Seq<Message>,
    message: Message,
    your_name: Seq<char>,
    their_name: Seq<char>,
)
    requires
        your_name != their_name,
        message.sender@ == holder_name(turn_for(conversation, your_name, their_name), your_name, their_name),
    ensures
        turn_for(conversation.push(message), your_name, their_name) == other_turn(
            turn_for(conversation, your_name, their_name),
        ),
{
    assert(conversation.push(message).last() == message);
}

/// The turn after `k` delivered messages of a run.
pub open spec fn turn_after(
    conversation: Seq<Message>,
    run: Seq<Message>,
    k: int,
    your_name: Seq<char>,
    their_name: Seq<char>,
) -> TurnToSpeak {
    turn_for(conversation + run.subrange(0, k), your_name, their_name)
}

/// Over a run of delivered messages, each from the party whose turn it is,
/// the turn strictly alternates: after an even number of messages it is the
/// turn derived from the stored conversation, after an odd number the other.
#[verifier::rlimit(30)]
pub proof fn lemma_turns_alternate_over_run(
    conversation: Seq<Message>,
    run: Seq<Message>,
    your_name: Seq<char>,
    their_name: Seq<char>,
    k: int,
)
    requires
        your_name != their_name,
        0 <= k <= run.len(),
        forall|i: int|
            0 <= i < run.len() ==> (#[trigger] run[i]).sender@ == holder_name(
                turn_after(conversation, run, i, your_name, their_name),
                your_name,
                their_name,
            ),
    ensures
        turn_after(conversation, run, k, your_name, their_name) == if k % 2 == 0 {
            turn_for(conversation, your_name, their_name)
        } else {
            other_turn(turn_for(conversation, your_name, their_name))
        },
    decreases k,
{
    if k == 0 {
        assert(conversation + run.subrange(0, 0) =~= conversation);
    } else {
        lemma_turns_alternate_over_run(conversation, run, your_name, their_name, k - 1);
        let before = conversation + run.subrange(0, k - 1);
        let m = run[k - 1];
        assert(m.sender@ == holder_name(
            turn_after(conversation, run, k - 1, your_name, their_name),
            your_name,
            their_name,
        ));
        assert(conversation + run.subrange(0, k) =~= before.push(m));
        lemma_turn_alternates(before, m, your_name, their_name);
        assert((k % 2 == 0) == ((k - 1) % 2 != 0));
    }
}

} // verus!
