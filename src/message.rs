use vstd::prelude::*;

verus! {

/// A wall-clock instant, in milliseconds since the Unix epoch (UTC).
#[derive(Clone, Copy, Debug, PartialEq, Eq, Structural)]
pub struct Timestamp {
    pub millis: i64,
}

/// Relies on chrono's `Utc::now` and `DateTime::timestamp_millis`: the current
/// time. Nothing is known of the value that comes back.
#[verifier::external_body]
pub(crate) fn utc_now() -> (r: Timestamp) {
    Timestamp { millis: chrono::Utc::now().timestamp_millis() }
}

/// One entry of a conversation.
///
/// Two messages are equal when their ids are equal: ids are positions in one
/// conversation, so messages of different conversations should not be compared.
/// Messages are ordered by their timestamps.
#[derive(Clone, Debug)]
pub struct Message {
    pub id: u64,
    pub sender: String,
    pub content: String,
    pub timestamp: Timestamp,
}

impl PartialEq for Message {
    fn eq(&self, other: &Message) -> (r: bool) {
        self.id == other.id
    }
}

impl vstd::std_specs::cmp::PartialEqSpecImpl for Message {
    open spec fn obeys_eq_spec() -> bool {
        true
    }

    open spec fn eq_spec(&self, other: &Message) -> bool {
        self.id == other.id
    }
}

impl PartialOrd for Message {
    fn partial_cmp(&self, other: &Message) -> (r: Option<core::cmp::Ordering>) {
        if self.timestamp.millis < other.timestamp.millis {
            Some(core::cmp::Ordering::Less)
        } else if self.timestamp.millis > other.timestamp.millis {
            Some(core::cmp::Ordering::Greater)
        } else {
            Some(core::cmp::Ordering::Equal)
        }
    }
}

impl vstd::std_specs::cmp::PartialOrdSpecImpl for Message {
    open spec fn obeys_partial_cmp_spec() -> bool {
        true
    }

    open spec fn partial_cmp_spec(&self, other: &Message) -> Option<core::cmp::Ordering> {
        if self.timestamp.millis < other.timestamp.millis {
            Some(core::cmp::Ordering::Less)
        } else if self.timestamp.millis > other.timestamp.millis {
            Some(core::cmp::Ordering::Greater)
        } else {
            Some(core::cmp::Ordering::Equal)
        }
    }
}

impl Message {
    /// A field-for-field copy of this message.
    pub fn duplicate(&self) -> (r: Message)
        ensures
            r == *self,
    {
        Message {
            id: self.id,
            sender: self.sender.clone(),
            content: self.content.clone(),
            timestamp: self.timestamp,
        }
    }
}

/// A copy of a conversation that shares no storage with the given one.
pub fn snapshot(messages: &[Message]) -> (r: Vec<Message>)
    ensures
        r@ == messages@,
{
    let mut r: Vec<Message> = Vec::new();
    let mut i: usize = 0;
    while i < messages.len()
        invariant
            i <= messages@.len(),
            r@ == messages@.subrange(0, i as int),
        decreases messages@.len() - i,
    {
        r.push(messages[i].duplicate());
        i = i + 1;
    }
    assert(r@ =~= messages@);
    r
}

/// The text that one message contributes to a prompt: its sender, a colon,
/// a newline, its content and a blank line.
pub open spec fn message_block(m: Message) -> Seq<char> {
    m.sender@ + seq![':', '\n'] + m.content@ + seq!['\n', '\n']
}

/// The blocks of all the given messages, in order.
pub open spec fn message_blocks(messages: Seq<Message>) -> Seq<char>
    decreases messages.len(),
{
    if messages.len() == 0 {
        Seq::empty()
    } else {
        message_blocks(messages.drop_last()) + message_block(messages.last())
    }
}

/// The last `n` messages, or all of them where there are at most `n`.
pub open spec fn context_window(messages: Seq<Message>, n: nat) -> Seq<Message> {
    if messages.len() > n {
        messages.subrange(messages.len() - n, messages.len() as int)
    } else {
        messages
    }
}

/// The starting prompt followed by a blank line, or nothing when it is empty.
pub open spec fn prompt_header(starting_prompt: Seq<char>) -> Seq<char> {
    if starting_prompt.len() == 0 {
        Seq::empty()
    } else {
        starting_prompt + seq!['\n', '\n']
    }
}

/// The prompt built from a starting prompt and the context window of a conversation.
pub open spec fn prompt_text(
    starting_prompt: Seq<char>,
    messages: Seq<Message>,
    context_length: nat,
) -> Seq<char> {
    prompt_header(starting_prompt) + message_blocks(context_window(messages, context_length))
}

proof fn lemma_blocks_extend(messages: Seq<Message>, start: int, end: int)
    requires
        0 <= start <= end < messages.len(),
    ensures
        message_blocks(messages.subrange(start, end + 1)) == message_blocks(
            messages.subrange(start, end),
        ) + message_block(messages[end]),
{
    let s = messages.subrange(start, end + 1);
    assert(s.drop_last() =~= messages.subrange(start, end));
}

/// Builds the prompt sent to the completion service: the starting prompt (when
/// not empty) and a blank line, then each of the last `prompt_context_length`
/// messages as `sender:\ncontent\n\n`, oldest first.
pub fn create_prompt_from_messages(
    starting_prompt: &str,
    messages: &[Message],
    prompt_context_length: usize,
) -> (r: String)
    ensures
        r@ == prompt_text(starting_prompt@, messages@, prompt_context_length as nat),
{
    let mut prompt = String::new();
    if !starting_prompt.is_empty() {
        prompt.append(starting_prompt);
        prompt.append("\n\n");
        proof {
            reveal_strlit("\n\n");
        }
    }
    assert(prompt@ =~= prompt_header(starting_prompt@));
    let start: usize = if messages.len() > prompt_context_length {
        messages.len() - prompt_context_length
    } else {
        0
    };
    let mut i: usize = start;
    assert(messages@.subrange(start as int, start as int) =~= Seq::<Message>::empty());
    while i < messages.len()
        invariant
            start <= i <= messages@.len(),
            start == (if messages@.len() > prompt_context_length {
                messages@.len() - prompt_context_length
            } else {
                0
            }),
            prompt@ == prompt_header(starting_prompt@) + message_blocks(
                messages@.subrange(start as int, i as int),
            ),
        decreases messages@.len() - i,
    {
        let m = &messages[i];
        prompt.append(m.sender.as_str());
        prompt.append(":\n");
        prompt.append(m.content.as_str());
        prompt.append("\n\n");
        proof {
            reveal_strlit(":\n");
            reveal_strlit("\n\n");
            lemma_blocks_extend(messages@, start as int, i as int);
            assert(prompt@ =~= prompt_header(starting_prompt@) + message_blocks(
                messages@.subrange(start as int, i as int + 1),
            ));
        }
        i = i + 1;
    }
    assert(messages@.subrange(start as int, messages@.len() as int) =~= context_window(
        messages@,
        prompt_context_length as nat,
    ));
    prompt
}

} // verus!
