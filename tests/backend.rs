use chatbot::backend::{Inner, State, Tick};
use chatbot::env::Env;
use chatbot::event::Event;
use chatbot::message::{Message, Timestamp};
use chatbot::turn::TurnToSpeak;

fn env_with(expected_ms: u64, context: usize, prompt: &str) -> Env {
    Env::from_parts(
        "User".to_string(),
        "Bot".to_string(),
        prompt.to_string(),
        "text-davinci-003".to_string(),
        expected_ms,
        context,
        "chatbot.db".to_string(),
        10,
        100,
    )
}

fn msg(id: u64, sender: &str, content: &str) -> Message {
    Message {
        id,
        sender: sender.to_string(),
        content: content.to_string(),
        timestamp: Timestamp { millis: 1_000 + id as i64 },
    }
}

fn statuses(t: &Tick) -> Vec<String> {
    t.events
        .iter()
        .filter_map(|e| match e {
            Event::StatusUpdated(s) => Some(s.clone()),
            _ => None,
        })
        .collect()
}

fn bot_reply(id: u64, content: &str) -> Result<Message, String> {
    Ok(msg(id, "Bot", content))
}

#[test]
fn fresh_session_ignores_stored_conversation() {
    let stored = vec![msg(0, "User", "Hi"), msg(1, "Bot", "Hello")];
    let (state, events) = State::new(env_with(5000, 5, ""), false, stored);
    assert!(state.conversation.is_empty());
    assert_eq!(state.turn_to_speak, TurnToSpeak::User);
    assert_eq!(events.len(), 2);
    assert!(matches!(&events[0], Event::ConversationUpdated(c) if c.is_empty()));
    assert!(matches!(&events[1], Event::StatusUpdated(s)
        if s == "Bot is ready to chat. Please type your input and press ENTER"));
}

#[test]
fn resumed_session_ending_with_bot_is_users_turn() {
    let stored = vec![msg(0, "User", "Hi"), msg(1, "Bot", "Hello")];
    let (state, events) = State::new(env_with(5000, 5, ""), true, stored);
    assert_eq!(state.conversation.len(), 2);
    assert_eq!(state.turn_to_speak, TurnToSpeak::User);
    assert!(matches!(&events[0], Event::ConversationUpdated(c) if c.len() == 2));
}

#[test]
fn resumed_session_ending_with_user_is_bots_turn() {
    let stored = vec![msg(0, "User", "Hi"), msg(1, "Bot", "Hello"), msg(2, "User", "Still there?")];
    let (state, _) = State::new(env_with(5000, 5, ""), true, stored);
    assert_eq!(state.turn_to_speak, TurnToSpeak::Bot);
}

#[test]
fn resumed_empty_session_is_users_turn() {
    let (state, _) = State::new(env_with(5000, 5, ""), true, Vec::new());
    assert_eq!(state.turn_to_speak, TurnToSpeak::User);
}

#[test]
fn user_message_is_appended_and_requested_once() {
    let (mut state, _) = State::new(env_with(5000, 5, ""), false, Vec::new());
    let t = state.tick(vec![Event::UserMessage("Hello bot.".to_string())], 0);
    assert_eq!(state.conversation.len(), 1);
    assert_eq!(state.conversation[0].sender, "User");
    assert_eq!(state.conversation[0].content, "Hello bot.");
    assert_eq!(state.conversation[0].id, 0);
    assert_eq!(state.turn_to_speak, TurnToSpeak::Bot);
    assert!(matches!(&t.events[0], Event::ConversationUpdated(c) if c.len() == 1 && c[0].content == "Hello bot."));
    let request = t.request.expect("a request is sent");
    assert!(request.prompt.contains("Hello bot."));
    assert_eq!(request.prompt, "User:\nHello bot.\n\n");
    assert_eq!(request.id, 1);
    assert_eq!(request.their_name, "Bot");
    assert_eq!(request.model, "text-davinci-003");
    assert_eq!(request.max_tokens, 100);
    for now in [10, 20, 30, 4_000, 6_000, 60_000] {
        let t = state.tick(Vec::new(), now);
        assert!(t.request.is_none());
    }
}

#[test]
fn no_request_while_users_turn() {
    let (mut state, _) = State::new(env_with(5000, 5, ""), false, Vec::new());
    let t = state.tick(Vec::new(), 0);
    assert!(t.request.is_none());
    assert!(t.events.is_empty());
    assert!(matches!(state.inner, Inner::SendRequest));
}

#[test]
fn status_escalates_after_expected_time() {
    let (mut state, _) = State::new(env_with(5000, 5, ""), false, Vec::new());
    state.tick(vec![Event::UserMessage("Hello bot.".to_string())], 0);
    assert!(matches!(state.inner, Inner::LoadingBotResponse { start_time: 0, .. }));

    let t = state.tick(Vec::new(), 4_000);
    assert_eq!(statuses(&t), vec!["Waiting for bot's response".to_string()]);
    assert!(matches!(state.inner, Inner::LoadingBotResponse { .. }));

    let t = state.tick(Vec::new(), 6_000);
    assert_eq!(statuses(&t), vec!["Waiting for bot's response, It's taking a while (6s)".to_string()]);
    assert!(matches!(state.inner, Inner::TakingAWhileToLoadBotResponse { start_time: 0, .. }));

    for now in [6_500, 7_000, 9_999] {
        let t = state.tick(Vec::new(), now);
        let s = statuses(&t);
        assert_eq!(s.len(), 1);
        assert!(s[0].starts_with("Waiting for bot's response, It's taking a while"));
        assert!(matches!(state.inner, Inner::TakingAWhileToLoadBotResponse { .. }));
    }

    assert!(state.deliver(bot_reply(1, "Hi there.")));
    let t = state.tick(Vec::new(), 12_000);
    assert_eq!(
        statuses(&t),
        vec![
            "Waiting for bot's response, It's taking a while (12s)".to_string(),
            "Bot slowly responded in 12000ms".to_string()
        ]
    );
    assert_eq!(state.conversation.len(), 2);
    assert_eq!(state.conversation[1].content, "Hi there.");
    assert_eq!(state.turn_to_speak, TurnToSpeak::User);
    assert!(matches!(state.inner, Inner::SendRequest));
}

#[test]
fn timely_reply_hands_turn_back() {
    let (mut state, _) = State::new(env_with(5000, 5, ""), false, Vec::new());
    state.tick(vec![Event::UserMessage("Hello bot.".to_string())], 100);
    assert!(state.deliver(bot_reply(1, "Hello user.")));
    assert!(!state.deliver(bot_reply(1, "A second answer")));
    let t = state.tick(Vec::new(), 1_600);
    assert_eq!(t.events.len(), 3);
    assert!(matches!(&t.events[0], Event::StatusUpdated(s) if s == "Waiting for bot's response"));
    assert!(matches!(&t.events[1], Event::ConversationUpdated(c) if c.len() == 2 && c[1].content == "Hello user."));
    assert!(matches!(&t.events[2], Event::StatusUpdated(s) if s == "Bot responded in 1500ms"));
    assert_eq!(state.turn_to_speak, TurnToSpeak::User);
    assert!(matches!(state.inner, Inner::SendRequest));
}

#[test]
fn reply_arriving_at_escalation_is_kept() {
    let (mut state, _) = State::new(env_with(5000, 5, ""), false, Vec::new());
    state.tick(vec![Event::UserMessage("Hello bot.".to_string())], 0);
    assert!(state.deliver(bot_reply(1, "Late.")));
    let t = state.tick(Vec::new(), 5_001);
    assert_eq!(statuses(&t), vec!["Waiting for bot's response, It's taking a while (5s)".to_string()]);
    assert_eq!(state.conversation.len(), 1);
    let t = state.tick(Vec::new(), 5_002);
    assert_eq!(statuses(&t)[1], "Bot slowly responded in 5002ms");
    assert_eq!(state.conversation.len(), 2);
}

#[test]
fn failed_call_hands_turn_back_to_user() {
    let (mut state, _) = State::new(env_with(5000, 5, ""), false, Vec::new());
    let t = state.tick(vec![Event::UserMessage("Hello bot.".to_string())], 0);
    assert!(t.request.is_some());
    assert!(state.deliver(Err("connection refused".to_string())));
    let t = state.tick(Vec::new(), 10);
    assert_eq!(
        statuses(&t),
        vec!["Waiting for bot's response".to_string(), "Bot failed to respond: connection refused".to_string()]
    );
    assert!(matches!(t.events.last(), Some(Event::TurnUpdated(TurnToSpeak::User))));
    assert!(t.request.is_none());
    assert!(matches!(state.inner, Inner::SendRequest));
    assert_eq!(state.turn_to_speak, TurnToSpeak::User);
    assert_eq!(state.conversation.len(), 1);
    for now in [20, 30, 10_000] {
        let t = state.tick(Vec::new(), now);
        assert!(t.request.is_none());
        assert!(t.events.is_empty());
    }
    let t = state.tick(vec![Event::UserMessage("Are you there?".to_string())], 20_000);
    let request = t.request.expect("a new user message brings a new request");
    assert_eq!(request.prompt, "User:\nHello bot.\n\nUser:\nAre you there?\n\n");
}

#[test]
fn deliver_without_pending_call_is_dropped() {
    let (mut state, _) = State::new(env_with(5000, 5, ""), false, Vec::new());
    assert!(!state.deliver(bot_reply(0, "Nobody asked.")));
    assert!(matches!(state.inner, Inner::SendRequest));
}

#[test]
fn turns_alternate_over_a_conversation() {
    let (mut state, _) = State::new(env_with(5000, 5, ""), false, Vec::new());
    let mut turns = vec![state.turn_to_speak];
    for round in 0..3u64 {
        state.tick(vec![Event::UserMessage(format!("question {round}"))], round * 100);
        turns.push(state.turn_to_speak);
        assert!(state.deliver(bot_reply(2 * round + 1, "answer")));
        state.tick(Vec::new(), round * 100 + 50);
        turns.push(state.turn_to_speak);
    }
    for pair in turns.windows(2) {
        assert_ne!(pair[0], pair[1]);
    }
    assert_eq!(turns[0], TurnToSpeak::User);
    let senders: Vec<&str> = state.conversation.iter().map(|m| m.sender.as_str()).collect();
    assert_eq!(senders, vec!["User", "Bot", "User", "Bot", "User", "Bot"]);
}

#[test]
fn several_user_messages_in_one_tick() {
    let (mut state, _) = State::new(env_with(5000, 5, ""), false, Vec::new());
    let out = state.handle_backend_events(vec![
        Event::UserMessage("one".to_string()),
        Event::Quit,
        Event::StatusUpdated("ignored".to_string()),
        Event::UserMessage("two".to_string()),
    ]);
    assert_eq!(out.len(), 2);
    assert!(matches!(&out[0], Event::ConversationUpdated(c) if c.len() == 1));
    assert!(matches!(&out[1], Event::ConversationUpdated(c) if c.len() == 2));
    assert_eq!(state.conversation[1].id, 1);
    assert_eq!(state.conversation[1].content, "two");
    assert_eq!(state.turn_to_speak, TurnToSpeak::Bot);
}

#[test]
fn user_message_gets_current_time() {
    let (mut state, _) = State::new(env_with(5000, 5, ""), false, Vec::new());
    state.handle_backend_events(vec![Event::UserMessage("now".to_string())]);
    // 2020-09-13 in milliseconds since the epoch.
    assert!(state.conversation[0].timestamp.millis > 1_600_000_000_000);
}

#[test]
fn prompt_uses_context_window_of_conversation() {
    let stored = vec![
        msg(0, "User", "m0"),
        msg(1, "Bot", "m1"),
        msg(2, "User", "m2"),
        msg(3, "Bot", "m3"),
        msg(4, "User", "m4"),
    ];
    let (mut state, _) = State::new(env_with(5000, 2, "Be nice."), true, stored);
    assert_eq!(state.turn_to_speak, TurnToSpeak::Bot);
    let t = state.tick(Vec::new(), 0);
    let request = t.request.expect("a request is sent");
    assert_eq!(request.prompt, "Be nice.\n\nBot:\nm3\n\nUser:\nm4\n\n");
    assert_eq!(request.id, 5);
}
