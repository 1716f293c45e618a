use vstd::prelude::*;
use crate::text::{decimal_digits, decimal_text};

verus! {

/// Shown while a response is pending and not yet slow.
pub open spec fn waiting_status() -> Seq<char> {
    "Waiting for bot's response"@
}

/// Shown while a response is pending and slow, with the seconds waited so far.
pub open spec fn slow_status(seconds: u64) -> Seq<char> {
    "Waiting for bot's response, It's taking a while ("@ + decimal_digits(seconds as nat) + "s)"@
}

/// Shown when a response arrived in time, with the milliseconds it took.
pub open spec fn responded_status(millis: u64) -> Seq<char> {
    "Bot responded in "@ + decimal_digits(millis as nat) + "ms"@
}

/// Shown when a slow response finally arrived, with the milliseconds it took.
pub open spec fn slow_responded_status(millis: u64) -> Seq<char> {
    "Bot slowly responded in "@ + decimal_digits(millis as nat) + "ms"@
}

/// Shown when the completion service failed, with its reason.
pub open spec fn failed_status(reason: Seq<char>) -> Seq<char> {
    "Bot failed to respond: "@ + reason
}

/// Shown once the backend is ready for the user's first message.
pub open spec fn ready_status(their_name: Seq<char>) -> Seq<char> {
    their_name + " is ready to chat. Please type your input and press ENTER"@
}

pub fn waiting_text() -> (r: String)
    ensures
        r@ == waiting_status(),
{
    String::from_str("Waiting for bot's response")
}

pub fn slow_text(seconds: u64) -> (r: String)
    ensures
        r@ == slow_status(seconds),
{
    let mut r = String::from_str("Waiting for bot's response, It's taking a while (");
    let n = decimal_text(seconds);
    r.append(n.as_str());
    r.append("s)");
    r
}

pub fn responded_text(millis: u64) -> (r: String)
    ensures
        r@ == responded_status(millis),
{
    let mut r = String::from_str("Bot responded in ");
    let n = decimal_text(millis);
    r.append(n.as_str());
    r.append("ms");
    r
}

pub fn slow_responded_text(millis: u64) -> (r: String)
    ensures
        r@ == slow_responded_status(millis),
{
    let mut r = String::from_str("Bot slowly responded in ");
    let n = decimal_text(millis);
    r.append(n.as_str());
    r.append("ms");
    r
}

pub fn failed_text(reason: &str) -> (r: String)
    ensures
        r@ == failed_status(reason@),
{
    let mut r = String::from_str("Bot failed to respond: ");
    r.append(reason);
    r
}

pub fn ready_text(their_name: &str) -> (r: String)
    ensures
        r@ == ready_status(their_name@),
{
    let mut r = String::from_str(their_name);
    r.append(" is ready to chat. Please type your input and press ENTER");
    r
}

} // verus!
