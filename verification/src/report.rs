//! The plain-text reports the HTTP surface serves, each with an exact
//! character-level model, and the JSON body that carries one.

use rand::Rng;
use vstd::prelude::*;
use vstd::string::StringExecFns;

use crate::decimal::{dec_model, dec_model_int, i64_to_dec, is_digit, lemma_dec_model_digits, u64_to_dec};
use crate::mailbox::Mailbox;

verus! {

/// The mailbox-size report: the count of received messages, rendered in
/// decimal inside a fixed sentence.
pub open spec fn events_msg_model(count: nat) -> Seq<char> {
    "[NEW]: received "@ + dec_model(count) + " messages"@
}

/// The current-time report for the unix timestamp `ts`.
pub open spec fn time_msg_model(ts: int) -> Seq<char> {
    "[NEW]: current unix timestamp: "@ + dec_model_int(ts)
}

/// The random-string report for the generated text `s`.
pub open spec fn random_msg_model(s: Seq<char>) -> Seq<char> {
    random_prefix() + s
}

/// The fixed sentence the random-string report starts with.
pub open spec fn random_prefix() -> Seq<char> {
    "[NEW]: random string: "@
}

/// The IP-lookup report for the looked-up address text `ip`.
pub open spec fn ip_msg_model(ip: Seq<char>) -> Seq<char> {
    "[NEW]: your IP address is: "@ + ip
}

/// The JSON object carrying a report: `{"msg":"<msg>"}` with `msg` spliced in
/// verbatim. For a `json_plain` message this is exactly the JSON
/// serialization of an object with the one string field `msg`.
pub open spec fn body_model(msg: Seq<char>) -> Seq<char> {
    "{\"msg\":\""@ + msg + "\"}"@
}

/// Whether `c` may stand verbatim inside a JSON string: printable ASCII,
/// neither the quote nor the backslash.
pub open spec fn json_plain_char(c: char) -> bool {
    32 <= c as u32 <= 126 && c != '"' && c != '\\'
}

/// Whether every character of `s` may stand verbatim inside a JSON string.
pub open spec fn json_plain(s: Seq<char>) -> bool {
    forall|i: int| 0 <= i < s.len() ==> json_plain_char(#[trigger] s[i])
}

/// The fixed greeting served at the root.
pub fn root_message() -> (r: &'static str)
    ensures
        r@ == "[NEW]: test service"@,
{
    "[NEW]: test service"
}

/// Renders the mailbox-size report for a count of `count` messages.
pub fn events_message(count: usize) -> (r: String)
    ensures
        r@ == events_msg_model(count as nat),
{
    let mut s = String::from_str("[NEW]: received ");
    s.append(u64_to_dec(count as u64).as_str());
    s.append(" messages");
    s
}

/// The read contract of the events endpoint: reports the number of messages
/// the mailbox holds at the instant of the call. Reading cannot fail.
pub fn events_report(mailbox: &Mailbox) -> (r: String)
    ensures
        r@ == events_msg_model(mailbox@.len()),
{
    events_message(mailbox.length())
}

/// Renders the current-time report for the unix timestamp `ts`.
pub fn time_message(ts: i64) -> (r: String)
    ensures
        r@ == time_msg_model(ts as int),
{
    let mut s = String::from_str("[NEW]: current unix timestamp: ");
    s.append(i64_to_dec(ts).as_str());
    s
}

/// Renders the random-string report around the generated text `s`.
pub fn random_message(s: &str) -> (r: String)
    ensures
        r@ == random_msg_model(s@),
{
    let mut out = String::from_str("[NEW]: random string: ");
    out.append(s);
    out
}

/// Renders the IP-lookup report around the looked-up address text `ip`.
pub fn ip_message(ip: &str) -> (r: String)
    ensures
        r@ == ip_msg_model(ip@),
{
    let mut out = String::from_str("[NEW]: your IP address is: ");
    out.append(ip);
    out
}

/// Wraps a report in the JSON object body.
pub fn msg_body(msg: &str) -> (r: String)
    ensures
        r@ == body_model(msg@),
{
    let mut s = String::from_str("{\"msg\":\"");
    s.append(msg);
    s.append("\"}");
    s
}

/// The events endpoint's full JSON body for a count of `count` messages.
pub fn events_body(count: usize) -> (r: String)
    ensures
        r@ == body_model(events_msg_model(count as nat)),
{
    let msg = events_message(count);
    msg_body(msg.as_str())
}

/// The mailbox-size report is JSON-plain: splicing it verbatim into the body
/// yields exactly the JSON serialization of the one-field object.
pub proof fn lemma_events_msg_plain(count: nat)
    ensures
        json_plain(events_msg_model(count)),
{
    reveal_strlit("[NEW]: received ");
    reveal_strlit(" messages");
    lemma_dec_model_digits(count);
    assert forall|i: int|
        0 <= i < events_msg_model(count).len() implies json_plain_char(
        events_msg_model(count)[i],
    ) by {
        let prefix = "[NEW]: received "@;
        let digits = dec_model(count);
        let suffix = " messages"@;
        if i < prefix.len() {
            assert(events_msg_model(count)[i] == prefix[i]);
        } else if i < prefix.len() + digits.len() {
            assert(events_msg_model(count)[i] == digits[i - prefix.len()]);
            assert(is_digit(digits[i - prefix.len()]));
        } else {
            assert(events_msg_model(count)[i] == suffix[i - prefix.len() - digits.len()]);
        }
    }
}

/// Relies on chrono's `Utc::now`: the current time, as a unix timestamp in
/// seconds. Nothing is assumed of the value.
#[verifier::external_body]
fn current_unix_timestamp() -> i64 {
    chrono::Utc::now().timestamp()
}

/// The current-time report: the time is whatever the clock said, and the text
/// is the exact rendering of that reading.
pub fn time_report() -> (r: String)
    ensures
        exists|ts: int| i64::MIN <= ts <= i64::MAX && r@ == #[trigger] time_msg_model(ts),
{
    let ts = current_unix_timestamp();
    let r = time_message(ts);
    proof {
        assert(r@ == time_msg_model(ts as int));
    }
    r
}

/// Whether `c` is an ASCII alphanumeric character: a digit, an upper-case
/// letter, or a lower-case letter.
pub open spec fn is_alphanumeric_char(c: char) -> bool {
    (48 <= c as u32 <= 57) || (65 <= c as u32 <= 90) || (97 <= c as u32 <= 122)
}

/// Relies on rand's `Alphanumeric` distribution: each sample is drawn from
/// the sixty-two ASCII alphanumeric characters, so the collected string has
/// exactly `len` characters, every one of them alphanumeric.
#[verifier::external_body]
fn sample_alphanumeric(len: usize) -> (r: String)
    ensures
        r@.len() == len as nat,
        forall|i: int| 0 <= i < r@.len() ==> is_alphanumeric_char(#[trigger] r@[i]),
{
    rand::thread_rng()
        .sample_iter(&rand::distributions::Alphanumeric)
        .take(len)
        .map(char::from)
        .collect()
}

/// The random-string report: `len` freshly drawn alphanumeric characters
/// after the fixed sentence. Whatever was drawn, the result starts with that
/// sentence and everything after it is alphanumeric.
pub fn random_string_report(len: usize) -> (r: String)
    ensures
        r@.len() == random_prefix().len() + len as nat,
        r@.subrange(0, random_prefix().len() as int) == random_prefix(),
        forall|i: int|
            random_prefix().len() <= i < r@.len() ==> is_alphanumeric_char(#[trigger] r@[i]),
{
    let s = sample_alphanumeric(len);
    let r = random_message(s.as_str());
    proof {
        assert(r@.subrange(0, random_prefix().len() as int) =~= random_prefix());
    }
    r
}

} // verus!
