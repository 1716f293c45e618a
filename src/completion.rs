use vstd::prelude::*;
use crate::message::{utc_now, Message};

verus! {

/// Whether a character has the Unicode `White_Space` property.
pub open spec fn white_space(c: char) -> bool {
    let u = c as u32;
    ||| 0x09 <= u <= 0x0D
    ||| u == 0x20
    ||| u == 0x85
    ||| u == 0xA0
    ||| u == 0x1680
    ||| 0x2000 <= u <= 0x200A
    ||| u == 0x2028
    ||| u == 0x2029
    ||| u == 0x202F
    ||| u == 0x205F
    ||| u == 0x3000
}

/// Whether a character has the Unicode `White_Space` property, as
/// `char::is_whitespace` decides.
pub fn is_whitespace(c: char) -> (r: bool)
    ensures
        r == white_space(c),
{
    let u = c as u32;
    (0x09 <= u && u <= 0x0D) || u == 0x20 || u == 0x85 || u == 0xA0 || u == 0x1680 || (0x2000 <= u
        && u <= 0x200A) || u == 0x2028 || u == 0x2029 || u == 0x202F || u == 0x205F || u == 0x3000
}

/// `s` without its leading white space.
pub open spec fn trim_start(s: Seq<char>) -> Seq<char>
    decreases s.len(),
{
    if s.len() > 0 && white_space(s[0]) {
        trim_start(s.drop_first())
    } else {
        s
    }
}

/// `s` without its trailing white space.
pub open spec fn trim_end(s: Seq<char>) -> Seq<char>
    decreases s.len(),
{
    if s.len() > 0 && white_space(s.last()) {
        trim_end(s.drop_last())
    } else {
        s
    }
}

/// `s` without leading and trailing white space.
pub open spec fn trimmed(s: Seq<char>) -> Seq<char> {
    trim_end(trim_start(s))
}

/// `s` with every leading repetition of a non-empty `prefix` removed.
pub open spec fn strip_repeated(s: Seq<char>, prefix: Seq<char>) -> Seq<char>
    decreases s.len(),
{
    if prefix.len() > 0 && prefix.len() <= s.len() && s.subrange(0, prefix.len() as int) == prefix {
        strip_repeated(s.subrange(prefix.len() as int, s.len() as int), prefix)
    } else {
        s
    }
}

/// Removes leading and trailing white space.
pub fn trim(s: &str) -> (r: &str)
    ensures
        r@ == trimmed(s@),
{
    let n = s.unicode_len();
    let mut i: usize = 0;
    assert(s@.subrange(0, n as int) =~= s@);
    while i < n && is_whitespace(s.get_char(i))
        invariant
            n == s@.len(),
            i <= n,
            trim_start(s@) == trim_start(s@.subrange(i as int, n as int)),
        decreases n - i,
    {
        proof {
            let t = s@.subrange(i as int, n as int);
            assert(t.drop_first() =~= s@.subrange(i as int + 1, n as int));
        }
        i = i + 1;
    }
    let ghost front = s@.subrange(i as int, n as int);
    assert(trim_start(front) == front);
    let mut j: usize = n;
    while j > i && is_whitespace(s.get_char(j - 1))
        invariant
            n == s@.len(),
            i <= j <= n,
            front == s@.subrange(i as int, n as int),
            trim_end(front) == trim_end(s@.subrange(i as int, j as int)),
        decreases j,
    {
        proof {
            let t = s@.subrange(i as int, j as int);
            assert(t.drop_last() =~= s@.subrange(i as int, j as int - 1));
        }
        j = j - 1;
    }
    let r = s.substring_char(i, j);
    proof {
        let t = s@.subrange(i as int, j as int);
        assert(trim_end(t) == t);
    }
    r
}

/// Whether `s` begins, at position `at`, with all of `p`.
fn starts_with_at(s: &str, n: usize, at: usize, p: &str, m: usize) -> (r: bool)
    requires
        n == s@.len(),
        m == p@.len(),
        at <= n,
    ensures
        r == (m <= n - at && s@.subrange(at as int, at + m) == p@),
{
    if m > n - at {
        return false;
    }
    let mut k: usize = 0;
    while k < m
        invariant
            n == s@.len(),
            m == p@.len(),
            at + m <= n,
            k <= m,
            forall|q: int| 0 <= q < k ==> s@[at + q] == p@[q],
        decreases m - k,
    {
        if s.get_char(at + k) != p.get_char(k) {
            assert(s@.subrange(at as int, at + m)[k as int] != p@[k as int]);
            return false;
        }
        k = k + 1;
    }
    assert(s@.subrange(at as int, at + m) =~= p@);
    true
}

/// Removes every leading repetition of `prefix`, as `str::trim_start_matches`
/// does with a string pattern.
pub fn strip_prefix_repeated<'a>(s: &'a str, prefix: &str) -> (r: &'a str)
    ensures
        r@ == strip_repeated(s@, prefix@),
{
    let n = s.unicode_len();
    let m = prefix.unicode_len();
    let mut at: usize = 0;
    assert(s@.subrange(0, n as int) =~= s@);
    if m == 0 {
        return s;
    }
    while starts_with_at(s, n, at, prefix, m)
        invariant
            n == s@.len(),
            m == prefix@.len(),
            m > 0,
            at <= n,
            strip_repeated(s@, prefix@) == strip_repeated(s@.subrange(at as int, n as int), prefix@),
        decreases n - at,
    {
        proof {
            let t = s@.subrange(at as int, n as int);
            assert(t.subrange(0, m as int) =~= s@.subrange(at as int, at + m));
            assert(t.subrange(m as int, t.len() as int) =~= s@.subrange(at + m, n as int));
        }
        at = at + m;
    }
    proof {
        let t = s@.subrange(at as int, n as int);
        if m <= t.len() {
            assert(t.subrange(0, m as int) =~= s@.subrange(at as int, at + m));
        }
    }
    s.substring_char(at, n)
}

/// One generated completion.
#[derive(Debug)]
pub struct Choice {
    pub text: String,
}

/// The completion service's answer, with the fields this client reads.
#[derive(Debug)]
pub struct TextCompletionResponse {
    pub choices: Vec<Choice>,
}

impl TextCompletionResponse {
    /// The text of the first choice, without leading and trailing white space.
    pub fn message(&self) -> (r: String)
        requires
            self.choices@.len() > 0,
        ensures
            r@ == trimmed(self.choices@[0].text@),
    {
        String::from_str(trim(self.choices[0].text.as_str()))
    }
}

/// The content of the bot's reply in a response: the first choice, trimmed,
/// without the `name:` prefixes that the bot sometimes starts with.
pub open spec fn reply_content(text: Seq<char>, their_name: Seq<char>) -> Seq<char> {
    strip_repeated(trimmed(text), their_name + seq![':'])
}

/// The bot's reply in a completion response, as a message of the conversation
/// with the given id, stamped with the current time; `None` where the response
/// holds no choice.
pub fn reply_from_response(id: u64, their_name: &str, response: &TextCompletionResponse) -> (r: Option<Message>)
    ensures
        r is None <==> response.choices@.len() == 0,
        r matches Some(m) ==> {
            &&& m.id == id
            &&& m.sender@ == their_name@
            &&& m.content@ == reply_content(response.choices@[0].text@, their_name@)
        },
{
    if response.choices.len() == 0 {
        return None;
    }
    let text = response.message();
    let mut prefix = String::from_str(their_name);
    prefix.append(":");
    proof {
        reveal_strlit(":");
        assert(prefix@ =~= their_name@ + seq![':']);
    }
    let content = String::from_str(strip_prefix_repeated(text.as_str(), prefix.as_str()));
    Some(Message { id, sender: String::from_str(their_name), content, timestamp: utc_now() })
}

} // verus!
