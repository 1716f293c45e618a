use vstd::prelude::*;
use crate::env::Env;
use crate::event::{is_snapshot, is_status, user_contents, Event};
use crate::message::{create_prompt_from_messages, prompt_text, snapshot, utc_now, Message, Timestamp};
use crate::status::{
    failed_status, failed_text, ready_status, ready_text, responded_status, responded_text,
    slow_responded_status, slow_responded_text, slow_status, slow_text, waiting_status,
    waiting_text,
};
use crate::turn::{turn_for, turn_for_conversation, TurnToSpeak};

verus! {

/// The single delivery slot of a pending completion call: empty until the
/// call yields its one outcome, a reply or the reason it failed.
#[derive(Debug)]
pub struct PendingResponse {
    pub outcome: Option<Result<Message, String>>,
}

/// Where the backend stands in obtaining the bot's reply. Times are
/// milliseconds on a monotonic clock.
#[derive(Debug)]
pub enum Inner {
    /// Ready to send the next request once it is the bot's turn.
    SendRequest,
    /// Waiting for the reply to a request sent at `start_time`.
    LoadingBotResponse { start_time: u64, rx: PendingResponse },
    /// Still waiting, past the expected response time.
    TakingAWhileToLoadBotResponse { start_time: u64, rx: PendingResponse },
}

/// The phase of the response state machine, without its slot.
pub enum Phase {
    SendRequest,
    Loading { start_time: u64 },
    Slow { start_time: u64 },
}

impl Inner {
    pub open spec fn phase(&self) -> Phase {
        match self {
            Inner::SendRequest => Phase::SendRequest,
            Inner::LoadingBotResponse { start_time, .. } => Phase::Loading { start_time: *start_time },
            Inner::TakingAWhileToLoadBotResponse { start_time, .. } => Phase::Slow {
                start_time: *start_time,
            },
        }
    }

    /// What the pending call has delivered so far.
    pub open spec fn outcome(&self) -> Option<Result<Message, String>> {
        match self {
            Inner::SendRequest => None,
            Inner::LoadingBotResponse { rx, .. } => rx.outcome,
            Inner::TakingAWhileToLoadBotResponse { rx, .. } => rx.outcome,
        }
    }
}

/// Milliseconds from `start` to `now`, or zero where `now` is earlier.
pub open spec fn elapsed(now: u64, start: u64) -> u64 {
    if now >= start {
        (now - start) as u64
    } else {
        0
    }
}

/// The phase after one tick of the state machine at time `now`, given the
/// expected response time and whether the slot holds an outcome.
pub open spec fn next_phase(p: Phase, now: u64, expected: u64, has_outcome: bool) -> Phase {
    match p {
        Phase::SendRequest => Phase::Loading { start_time: now },
        Phase::Loading { start_time } => if elapsed(now, start_time) > expected {
            Phase::Slow { start_time }
        } else if has_outcome {
            Phase::SendRequest
        } else {
            Phase::Loading { start_time }
        },
        Phase::Slow { start_time } => if has_outcome {
            Phase::SendRequest
        } else {
            Phase::Slow { start_time }
        },
    }
}

/// Whether a tick in this phase sends a completion request.
pub open spec fn dispatches(p: Phase) -> bool {
    p is SendRequest
}


/// The phase after ticks at each of `times` in turn, with no outcome arriving.
pub open spec fn run_pending(p: Phase, times: Seq<u64>, expected: u64) -> Phase
    decreases times.len(),
{
    if times.len() == 0 {
        p
    } else {
        next_phase(run_pending(p, times.drop_last(), expected), times.last(), expected, false)
    }
}

/// The turn and phase after one backend tick at `now` in which no user
/// message arrives, given whether the slot holds an outcome. Nothing moves on
/// the user's turn; on the bot's turn the state machine advances once, and
/// whatever outcome it takes in (a reply or a failure) hands the turn back to
/// the user.
pub open spec fn quiet_tick(
    turn: TurnToSpeak,
    p: Phase,
    now: u64,
    expected: u64,
    has_outcome: bool,
) -> (TurnToSpeak, Phase) {
    if turn == TurnToSpeak::User {
        (turn, p)
    } else {
        let q = next_phase(p, now, expected, has_outcome);
        if q is SendRequest && !(p is SendRequest) {
            (TurnToSpeak::User, q)
        } else {
            (TurnToSpeak::Bot, q)
        }
    }
}

/// Whether a backend tick from this turn and phase sends a completion request.
pub open spec fn sends(turn: TurnToSpeak, p: Phase) -> bool {
    turn == TurnToSpeak::Bot && dispatches(p)
}

/// The turn and phase after the first `k` of a run of quiet ticks at `times`,
/// the slot holding an outcome at tick `i` where `arrived[i]`.
pub open spec fn quiet_run(
    turn: TurnToSpeak,
    p: Phase,
    times: Seq<u64>,
    arrived: Seq<bool>,
    expected: u64,
    k: nat,
) -> (TurnToSpeak, Phase)
    decreases k,
{
    if k == 0 {
        (turn, p)
    } else {
        let s = quiet_run(turn, p, times, arrived, expected, (k - 1) as nat);
        quiet_tick(s.0, s.1, times[k - 1], expected, arrived[k - 1])
    }
}

/// How many of the first `k` ticks of a quiet run send a completion request.
pub open spec fn quiet_dispatches(
    turn: TurnToSpeak,
    p: Phase,
    times: Seq<u64>,
    arrived: Seq<bool>,
    expected: u64,
    k: nat,
) -> nat
    decreases k,
{
    if k == 0 {
        0
    } else {
        let s = quiet_run(turn, p, times, arrived, expected, (k - 1) as nat);
        quiet_dispatches(turn, p, times, arrived, expected, (k - 1) as nat) + if sends(s.0, s.1) {
            1nat
        } else {
            0nat
        }
    }
}

proof fn lemma_quiet_run_settles(
    turn: TurnToSpeak,
    p: Phase,
    times: Seq<u64>,
    arrived: Seq<bool>,
    expected: u64,
    k: nat,
)
    requires
        k > 0 || !sends(turn, p),
    ensures
        !sends(
            quiet_run(turn, p, times, arrived, expected, k).0,
            quiet_run(turn, p, times, arrived, expected, k).1,
        ),
    decreases k,
{
    if k > 1 || (k == 1 && !sends(turn, p)) {
        lemma_quiet_run_settles(turn, p, times, arrived, expected, (k - 1) as nat);
    }
}

proof fn lemma_dispatch_count(
    turn: TurnToSpeak,
    p: Phase,
    times: Seq<u64>,
    arrived: Seq<bool>,
    expected: u64,
    k: nat,
)
    ensures
        quiet_dispatches(turn, p, times, arrived, expected, k) <= 1,
        !sends(turn, p) ==> quiet_dispatches(turn, p, times, arrived, expected, k) == 0,
        sends(turn, p) && k > 0 ==> quiet_dispatches(turn, p, times, arrived, expected, k) == 1,
    decreases k,
{
    if k > 0 {
        lemma_dispatch_count(turn, p, times, arrived, expected, (k - 1) as nat);
        if k > 1 || !sends(turn, p) {
            lemma_quiet_run_settles(turn, p, times, arrived, expected, (k - 1) as nat);
        }
    }
}

/// Within one bot turn at most one completion request is sent: over any run
/// of backend ticks without a new user message, whatever replies or failures
/// arrive, at most one tick sends a request. Exactly one does when the run
/// starts on the bot's turn ready to send; none does when a request is
/// already pending or it is the user's turn. A failure hands the turn to the
/// user, so it is never followed by a second request.
pub proof fn lemma_single_dispatch(
    turn: TurnToSpeak,
    p: Phase,
    times: Seq<u64>,
    arrived: Seq<bool>,
    expected: u64,
)
    requires
        arrived.len() == times.len(),
    ensures
        quiet_dispatches(turn, p, times, arrived, expected, times.len()) <= 1,
        !sends(turn, p) ==> quiet_dispatches(turn, p, times, arrived, expected, times.len()) == 0,
        sends(turn, p) && times.len() > 0 ==> quiet_dispatches(turn, p, times, arrived, expected, times.len()) == 1,
{
    lemma_dispatch_count(turn, p, times, arrived, expected, times.len());
}

/// With no reply arriving and a clock that never goes back, a request sent at
/// `start_time` stands slow after a tick exactly when the time since
/// `start_time` exceeds the expected response time; until then it is loading.
/// So once slow it never turns back to loading within the same turn.
pub proof fn lemma_escalation(start_time: u64, times: Seq<u64>, expected: u64, k: int)
    requires
        0 < k <= times.len(),
        forall|i: int| 0 <= i < times.len() ==> start_time <= #[trigger] times[i],
        forall|i: int, j: int| 0 <= i <= j < times.len() ==> times[i] <= times[j],
    ensures
        run_pending(Phase::Loading { start_time }, times.subrange(0, k), expected) == if elapsed(
            times[k - 1],
            start_time,
        ) > expected {
            Phase::Slow { start_time }
        } else {
            Phase::Loading { start_time }
        },
    decreases k,
{
    let run = times.subrange(0, k);
    assert(run.last() == times[k - 1]);
    if k == 1 {
        assert(run.drop_last() =~= Seq::<u64>::empty());
    } else {
        assert(run.drop_last() =~= times.subrange(0, k - 1));
        lemma_escalation(start_time, times, expected, k - 1);
        assert(times[k - 2] <= times[k - 1]);
    }
}

/// A slow request stays slow for as long as no outcome arrives.
pub proof fn lemma_slow_stays_slow(start_time: u64, times: Seq<u64>, expected: u64)
    ensures
        run_pending(Phase::Slow { start_time }, times, expected) == (Phase::Slow { start_time }),
    decreases times.len(),
{
    if times.len() > 0 {
        lemma_slow_stays_slow(start_time, times.drop_last(), expected);
    }
}

/// A request for the completion service: the arguments of one call.
#[derive(Debug)]
pub struct CompletionCall {
    pub id: u64,
    pub prompt: String,
    pub their_name: String,
    pub model: String,
    pub max_tokens: u32,
}

/// What one backend tick asks of the world: events for the frontend, in
/// order, and at most one completion request to start.
#[derive(Debug)]
pub struct Tick {
    pub events: Vec<Event>,
    pub request: Option<CompletionCall>,
}

/// The backend actor: owner of the conversation and of the turn.
#[derive(Debug)]
pub struct State {
    pub conversation: Vec<Message>,
    pub inner: Inner,
    pub env: Env,
    pub turn_to_speak: TurnToSpeak,
}

/// How the state and the events of a tick follow from the slot's content, once
/// the status line (the first event) is out. `pending` is the state kept while
/// nothing has arrived.
pub open spec fn completes(
    pre: State,
    post: State,
    outcome: Option<Result<Message, String>>,
    events: Seq<Event>,
    waited: u64,
    slow: bool,
    pending: Inner,
) -> bool {
    &&& post.env == pre.env
    &&& match outcome {
        None => {
            &&& post.conversation@ == pre.conversation@
            &&& post.turn_to_speak == pre.turn_to_speak
            &&& post.inner == pending
            &&& events.len() == 1
        },
        Some(Ok(m)) => {
            &&& post.conversation@ == pre.conversation@.push(m)
            &&& post.turn_to_speak == TurnToSpeak::User
            &&& post.inner is SendRequest
            &&& events.len() == 3
            &&& is_snapshot(events[1], post.conversation@)
            &&& is_status(
                events[2],
                if slow {
                    slow_responded_status(waited)
                } else {
                    responded_status(waited)
                },
            )
        },
        Some(Err(reason)) => {
            &&& post.conversation@ == pre.conversation@
            &&& post.turn_to_speak == TurnToSpeak::User
            &&& post.inner is SendRequest
            &&& events.len() == 3
            &&& is_status(events[1], failed_status(reason@))
            &&& events[2] == Event::TurnUpdated(TurnToSpeak::User)
        },
    }
}

/// The request that a tick in `SendRequest` makes for this state.
pub open spec fn is_request_for(c: CompletionCall, s: State) -> bool {
    &&& c.id == s.conversation@.len() as u64
    &&& c.prompt@ == prompt_text(
        s.env.starting_prompt_spec(),
        s.conversation@,
        s.env.prompt_context_length_spec() as nat,
    )
    &&& c.their_name@ == s.env.their_name_spec()
    &&& c.model@ == s.env.model_spec()
    &&& c.max_tokens == s.env.token_limit_spec()
}

/// One tick of the response state machine at time `now`.
pub open spec fn machine_step(
    pre: State,
    post: State,
    now: u64,
    events: Seq<Event>,
    request: Option<CompletionCall>,
) -> bool {
    let expected = pre.env.expected_response_time_spec();
    &&& post.inner.phase() == next_phase(pre.inner.phase(), now, expected, pre.inner.outcome() is Some)
    &&& (request is Some) == dispatches(pre.inner.phase())
    &&& match pre.inner {
        Inner::SendRequest => {
            &&& post.conversation@ == pre.conversation@
            &&& post.turn_to_speak == pre.turn_to_speak
            &&& post.env == pre.env
            &&& post.inner == (Inner::LoadingBotResponse {
                start_time: now,
                rx: PendingResponse { outcome: None },
            })
            &&& events.len() == 0
            &&& request matches Some(c) && is_request_for(c, pre)
        },
        Inner::LoadingBotResponse { start_time, rx } => {
            let waited = elapsed(now, start_time);
            if waited > expected {
                &&& post.conversation@ == pre.conversation@
                &&& post.turn_to_speak == pre.turn_to_speak
                &&& post.env == pre.env
                &&& post.inner == (Inner::TakingAWhileToLoadBotResponse { start_time, rx })
                &&& events.len() == 1
                &&& is_status(events[0], slow_status((waited / 1000) as u64))
            } else {
                &&& events.len() >= 1
                &&& is_status(events[0], waiting_status())
                &&& completes(pre, post, rx.outcome, events, waited, false, pre.inner)
            }
        },
        Inner::TakingAWhileToLoadBotResponse { start_time, rx } => {
            let waited = elapsed(now, start_time);
            &&& events.len() >= 1
            &&& is_status(events[0], slow_status((waited / 1000) as u64))
            &&& completes(pre, post, rx.outcome, events, waited, true, pre.inner)
        },
    }
}

/// How the backend stands after handling the frontend's events `events`,
/// having answered with `out`: each user message appended, in order, with the
/// next id and the user's name, each answered by a snapshot, and the turn
/// handed to the bot if there was any.
pub open spec fn handled(pre: State, post: State, events: Seq<Event>, out: Seq<Event>) -> bool {
    let before = pre.conversation@;
    let after = post.conversation@;
    let added = user_contents(events);
    &&& after.len() == before.len() + added.len()
    &&& after.subrange(0, before.len() as int) == before
    &&& forall|i: int|
        0 <= i < added.len() ==> {
            &&& (#[trigger] after[before.len() + i]).id == (before.len() + i) as u64
            &&& after[before.len() + i].sender@ == pre.env.your_name_spec()
            &&& after[before.len() + i].content@ == added[i]
        }
    &&& out.len() == added.len()
    &&& forall|i: int|
        0 <= i < added.len() ==> is_snapshot(#[trigger] out[i], after.subrange(0, before.len() + i + 1))
    &&& post.turn_to_speak == if added.len() > 0 {
        TurnToSpeak::Bot
    } else {
        pre.turn_to_speak
    }
    &&& post.inner == pre.inner
    &&& post.env == pre.env
}

/// One whole backend tick: the frontend's events are handled, then, if it is
/// the bot's turn, the state machine advances once; its events follow.
pub open spec fn tick_step(pre: State, post: State, events: Seq<Event>, now: u64, r: Tick) -> bool {
    exists|mid: State, first: Seq<Event>|
        {
            &&& #[trigger] handled(pre, mid, events, first)
            &&& if mid.turn_to_speak == TurnToSpeak::Bot {
                &&& first.len() <= r.events@.len()
                &&& r.events@.subrange(0, first.len() as int) == first
                &&& machine_step(
                    mid,
                    post,
                    now,
                    r.events@.subrange(first.len() as int, r.events@.len() as int),
                    r.request,
                )
            } else {
                &&& post == mid
                &&& r.events@ == first
                &&& r.request is None
            }
        }
}

impl State {
    /// The turn agrees with the last message of the conversation, or it was
    /// handed back to the user after the bot failed to answer that message.
    pub open spec fn wf(&self) -> bool {
        ||| self.turn_to_speak == turn_for(
            self.conversation@,
            self.env.your_name_spec(),
            self.env.their_name_spec(),
        )
        ||| {
            &&& self.turn_to_speak == TurnToSpeak::User
            &&& self.conversation@.len() > 0
            &&& self.conversation@.last().sender@ != self.env.their_name_spec()
        }
    }

    /// The two parties have different names, and a reply waiting in the slot
    /// comes from the bot.
    pub open spec fn replies_from_bot(&self) -> bool {
        &&& self.env.your_name_spec() != self.env.their_name_spec()
        &&& self.inner.outcome() matches Some(Ok(m)) ==> m.sender@ == self.env.their_name_spec()
    }

    /// Starts a session. A fresh one (`resume` false) begins with an empty
    /// conversation whatever is stored; a resumed one continues the stored
    /// conversation. The turn is derived from the last message. The events are
    /// for the frontend: a snapshot of the conversation and the ready status.
    pub fn new(env: Env, resume: bool, stored: Vec<Message>) -> (r: (State, Vec<Event>))
        ensures
            r.0.env == env,
            r.0.inner is SendRequest,
            resume ==> r.0.conversation@ == stored@,
            !resume ==> r.0.conversation@.len() == 0,
            r.0.turn_to_speak == turn_for(r.0.conversation@, env.your_name_spec(), env.their_name_spec()),
            r.0.wf(),
            !resume ==> r.0.turn_to_speak == TurnToSpeak::User,
            resume && stored@.len() > 0 && stored@.last().sender@ == env.their_name_spec()
                ==> r.0.turn_to_speak == TurnToSpeak::User,
            resume && stored@.len() > 0 && stored@.last().sender@ == env.your_name_spec()
                && env.your_name_spec() != env.their_name_spec() ==> r.0.turn_to_speak == TurnToSpeak::Bot,
            r.1@.len() == 2,
            is_snapshot(r.1@[0], r.0.conversation@),
            is_status(r.1@[1], ready_status(env.their_name_spec())),
    {
        let conversation = if resume {
            stored
        } else {
            Vec::new()
        };
        let turn_to_speak = turn_for_conversation(conversation.as_slice(), env.your_name(), env.their_name());
        let mut events: Vec<Event> = Vec::new();
        events.push(Event::ConversationUpdated(snapshot(conversation.as_slice())));
        events.push(Event::StatusUpdated(ready_text(env.their_name())));
        (State { conversation, inner: Inner::SendRequest, env, turn_to_speak }, events)
    }

    /// Appends a message from the user with the given content and time, and
    /// hands the turn to the bot. The event is a snapshot for the frontend, so
    /// that the user's message shows before the bot answers.
    pub fn handle_user_message(&mut self, content: String, timestamp: Timestamp) -> (r: Event)
        ensures
            final(self).conversation@ == old(self).conversation@.push(
                Message {
                    id: old(self).conversation@.len() as u64,
                    sender: final(self).conversation@.last().sender,
                    content,
                    timestamp,
                },
            ),
            final(self).conversation@.last().sender@ == old(self).env.your_name_spec(),
            final(self).turn_to_speak == TurnToSpeak::Bot,
            final(self).inner == old(self).inner,
            final(self).env == old(self).env,
            is_snapshot(r, final(self).conversation@),
            old(self).replies_from_bot() ==> final(self).wf(),
    {
        let message = Message {
            id: self.conversation.len() as u64,
            sender: String::from_str(self.env.your_name()),
            content,
            timestamp,
        };
        self.conversation.push(message);
        self.turn_to_speak = TurnToSpeak::Bot;
        Event::ConversationUpdated(snapshot(self.conversation.as_slice()))
    }

    /// Handles the events that the frontend sent since the last tick, in
    /// order: each user message is appended (stamped with the current time)
    /// and answered with a snapshot; other events are ignored.
    pub fn handle_backend_events(&mut self, events: Vec<Event>) -> (r: Vec<Event>)
        ensures
            handled(*old(self), *final(self), events@, r@),
            old(self).wf() && old(self).replies_from_bot() ==> final(self).wf(),
    {
        let ghost pre = self.conversation@;
        let ghost turn0 = self.turn_to_speak;
        let mut out: Vec<Event> = Vec::new();
        let mut i: usize = 0;
        while i < events.len()
            invariant
                i <= events@.len(),
                self.env == old(self).env,
                self.inner == old(self).inner,
                pre == old(self).conversation@,
                turn0 == old(self).turn_to_speak,
                old(self).wf() && old(self).replies_from_bot() ==> self.wf(),
                ({
                    let post = self.conversation@;
                    let added = user_contents(events@.subrange(0, i as int));
                    &&& post.len() == pre.len() + added.len()
                    &&& post.subrange(0, pre.len() as int) == pre
                    &&& forall|j: int|
                        0 <= j < added.len() ==> {
                            &&& (#[trigger] post[pre.len() + j]).id == (pre.len() + j) as u64
                            &&& post[pre.len() + j].sender@ == self.env.your_name_spec()
                            &&& post[pre.len() + j].content@ == added[j]
                        }
                    &&& out@.len() == added.len()
                    &&& forall|j: int|
                        0 <= j < added.len() ==> is_snapshot(
                            #[trigger] out@[j],
                            post.subrange(0, pre.len() + j + 1),
                        )
                    &&& self.turn_to_speak == if added.len() > 0 {
                        TurnToSpeak::Bot
                    } else {
                        turn0
                    }
                }),
            decreases events@.len() - i,
        {
            let ghost before = self.conversation@;
            let ghost added0 = user_contents(events@.subrange(0, i as int));
            proof {
                assert(events@.subrange(0, i as int + 1).drop_last() =~= events@.subrange(0, i as int));
            }
            match &events[i] {
                Event::UserMessage(content) => {
                    let now = utc_now();
                    let e = self.handle_user_message(content.clone(), now);
                    out.push(e);
                    proof {
                        let post = self.conversation@;
                        let added = user_contents(events@.subrange(0, i as int + 1));
                        assert(added == added0.push(content@));
                        assert(post.subrange(0, pre.len() as int) =~= before.subrange(0, pre.len() as int));
                        assert(post.subrange(0, pre.len() + added0.len() as int + 1) =~= post);
                        assert forall|j: int| 0 <= j < added.len() implies is_snapshot(
                            #[trigger] out@[j],
                            post.subrange(0, pre.len() + j + 1),
                        ) by {
                            if j < added0.len() {
                                assert(post.subrange(0, pre.len() + j + 1) =~= before.subrange(0, pre.len() + j + 1));
                            }
                        }
                        assert forall|j: int| 0 <= j < added.len() implies {
                            &&& (#[trigger] post[pre.len() + j]).id == (pre.len() + j) as u64
                            &&& post[pre.len() + j].sender@ == self.env.your_name_spec()
                            &&& post[pre.len() + j].content@ == added[j]
                        } by {
                            if j < added0.len() {
                                assert(post[pre.len() + j] == before[pre.len() + j]);
                            }
                        }
                    }
                },
                _ => {
                    proof {
                        assert(user_contents(events@.subrange(0, i as int + 1)) == added0);
                    }
                },
            }
            i = i + 1;
        }
        assert(events@.subrange(0, events@.len() as int) =~= events@);
        out
    }

    /// Records the outcome of the pending completion call in its slot. It is
    /// taken only while a call is pending and its slot is still empty;
    /// otherwise nothing is listening and the outcome is dropped.
    pub fn deliver(&mut self, outcome: Result<Message, String>) -> (accepted: bool)
        ensures
            accepted == (!(old(self).inner is SendRequest) && old(self).inner.outcome() is None),
            accepted ==> final(self).inner.phase() == old(self).inner.phase()
                && final(self).inner.outcome() == Some(outcome),
            !accepted ==> final(self).inner == old(self).inner,
            final(self).conversation == old(self).conversation,
            final(self).turn_to_speak == old(self).turn_to_speak,
            final(self).env == old(self).env,
            old(self).wf() ==> final(self).wf(),
            old(self).replies_from_bot() && (outcome matches Ok(m) ==> m.sender@ == old(self).env.their_name_spec())
                ==> final(self).replies_from_bot(),
    {
        match &mut self.inner {
            Inner::SendRequest => false,
            Inner::LoadingBotResponse { rx, .. } => {
                if rx.outcome.is_none() {
                    rx.outcome = Some(outcome);
                    true
                } else {
                    false
                }
            },
            Inner::TakingAWhileToLoadBotResponse { rx, .. } => {
                if rx.outcome.is_none() {
                    rx.outcome = Some(outcome);
                    true
                } else {
                    false
                }
            },
        }
    }

    /// The part of a tick that follows the status line: takes what the slot
    /// holds, if anything, into the conversation.
    fn complete(
        &mut self,
        outcome: Option<Result<Message, String>>,
        waited: u64,
        slow: bool,
        pending: Inner,
        events: &mut Vec<Event>,
    )
        requires
            old(events)@.len() == 1,
        ensures
            completes(*old(self), *final(self), outcome, final(events)@, waited, slow, pending),
            final(events)@[0] == old(events)@[0],
    {
        match outcome {
            None => {
                self.inner = pending;
            },
            Some(Ok(m)) => {
                self.conversation.push(m);
                events.push(Event::ConversationUpdated(snapshot(self.conversation.as_slice())));
                let text = if slow {
                    slow_responded_text(waited)
                } else {
                    responded_text(waited)
                };
                events.push(Event::StatusUpdated(text));
                self.turn_to_speak = TurnToSpeak::User;
                self.inner = Inner::SendRequest;
            },
            Some(Err(reason)) => {
                events.push(Event::StatusUpdated(failed_text(reason.as_str())));
                events.push(Event::TurnUpdated(TurnToSpeak::User));
                self.turn_to_speak = TurnToSpeak::User;
                self.inner = Inner::SendRequest;
            },
        }
    }

    /// Advances the response state machine once, at `now` (milliseconds on a
    /// monotonic clock). In `SendRequest` it asks for one completion request
    /// built from the context window and starts waiting. While waiting it
    /// reports the wait, turns slow once the wait exceeds the expected response
    /// time (keeping the same slot), and takes a delivered reply into the
    /// conversation, handing the turn back to the user. A failure is reported
    /// and also hands the turn back to the user, so no new request is sent
    /// before the user speaks again.
    pub fn run_bot_response_state_machine(&mut self, now: u64) -> (r: Tick)
        ensures
            machine_step(*old(self), *final(self), now, r.events@, r.request),
            old(self).wf() && old(self).replies_from_bot() ==> final(self).wf(),
    {
        let mut inner = Inner::SendRequest;
        std::mem::swap(&mut self.inner, &mut inner);
        let expected = self.env.expected_response_time();
        match inner {
            Inner::SendRequest => {
                let prompt = create_prompt_from_messages(
                    self.env.starting_prompt(),
                    self.conversation.as_slice(),
                    self.env.prompt_context_length(),
                );
                let request = CompletionCall {
                    id: self.conversation.len() as u64,
                    prompt,
                    their_name: String::from_str(self.env.their_name()),
                    model: String::from_str(self.env.openai_model_name()),
                    max_tokens: self.env.token_limit(),
                };
                self.inner = Inner::LoadingBotResponse {
                    start_time: now,
                    rx: PendingResponse { outcome: None },
                };
                Tick { events: Vec::new(), request: Some(request) }
            },
            Inner::LoadingBotResponse { start_time, rx } => {
                let waited: u64 = if now >= start_time {
                    now - start_time
                } else {
                    0
                };
                let mut events: Vec<Event> = Vec::new();
                if waited > expected {
                    events.push(Event::StatusUpdated(slow_text(waited / 1000)));
                    self.inner = Inner::TakingAWhileToLoadBotResponse { start_time, rx };
                } else {
                    events.push(Event::StatusUpdated(waiting_text()));
                    let PendingResponse { outcome } = rx;
                    self.complete(
                        outcome,
                        waited,
                        false,
                        Inner::LoadingBotResponse { start_time, rx: PendingResponse { outcome: None } },
                        &mut events,
                    );
                }
                Tick { events, request: None }
            },
            Inner::TakingAWhileToLoadBotResponse { start_time, rx } => {
                let waited: u64 = if now >= start_time {
                    now - start_time
                } else {
                    0
                };
                let mut events: Vec<Event> = Vec::new();
                events.push(Event::StatusUpdated(slow_text(waited / 1000)));
                let PendingResponse { outcome } = rx;
                self.complete(
                    outcome,
                    waited,
                    true,
                    Inner::TakingAWhileToLoadBotResponse { start_time, rx: PendingResponse { outcome: None } },
                    &mut events,
                );
                Tick { events, request: None }
            },
        }
    }

    /// One backend tick at `now` (milliseconds on a monotonic clock): handles
    /// the frontend's events, then advances the response state machine once if
    /// it is the bot's turn.
    pub fn tick(&mut self, events: Vec<Event>, now: u64) -> (r: Tick)
        ensures
            tick_step(*old(self), *final(self), events@, now, r),
            user_contents(events@).len() == 0 ==> {
                &&& (final(self).turn_to_speak, final(self).inner.phase()) == quiet_tick(
                    old(self).turn_to_speak,
                    old(self).inner.phase(),
                    now,
                    old(self).env.expected_response_time_spec(),
                    old(self).inner.outcome() is Some,
                )
                &&& (r.request is Some) == sends(old(self).turn_to_speak, old(self).inner.phase())
            },
            old(self).wf() && old(self).replies_from_bot() ==> final(self).wf(),
    {
        let ghost ev = events@;
        let mut first = self.handle_backend_events(events);
        let ghost mid = *self;
        let ghost first0 = first@;
        match self.turn_to_speak {
            TurnToSpeak::Bot => {
                let rest = self.run_bot_response_state_machine(now);
                let ghost rest0 = rest;
                let Tick { events: mut more, request } = rest;
                first.append(&mut more);
                let r = Tick { events: first, request };
                assert(handled(*old(self), mid, ev, first0));
                assert(machine_step(mid, *self, now, rest0.events@, rest0.request));
                assert(r.events@.subrange(0, first0.len() as int) =~= first0);
                assert(r.events@.subrange(first0.len() as int, r.events@.len() as int) =~= rest0.events@);
                r
            },
            TurnToSpeak::User => {
                assert(handled(*old(self), mid, ev, first0));
                Tick { events: first, request: None }
            },
        }
    }
}

} // verus!
