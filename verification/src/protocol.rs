//! The newline-delimited line protocol spoken between the relay and its
//! peers.  Each function builds one wire line and pins its exact text.

use vstd::prelude::*;
use crate::text::dec_rep;
use crate::text::join_with;
use crate::text::u64_to_string;
use crate::text::join_strings;

verus! {

/// `"Your token: <n>\n"`, sent once when a connection is accepted.
pub open spec fn spec_token_line(n: nat) -> Seq<char> {
    "Your token: "@ + dec_rep(n) + "\n"@
}

/// Builds the token greeting line for token `n`.
pub fn token_line(n: u64) -> (r: String)
    ensures
        r@ == spec_token_line(n as nat),
{
    let mut r = String::from_str("Your token: ");
    let digits = u64_to_string(n);
    r.append(digits.as_str());
    r.append("\n");
    r
}

/// The name prompt.  It is sent without a terminating newline, a quirk the
/// peer side tolerates by stripping it as a prefix of the following reply.
pub fn name_prompt() -> (r: String)
    ensures
        r@ == "Enter your username: "@,
{
    String::from_str("Enter your username: ")
}

/// The rejection reply when a candidate name is already held.
pub fn error_taken_line() -> (r: String)
    ensures
        r@ == "ERROR: Username is already taken. Please choose a different one.\n"@,
{
    String::from_str("ERROR: Username is already taken. Please choose a different one.\n")
}

/// The acceptance reply for a free candidate name.
pub fn success_line() -> (r: String)
    ensures
        r@ == "SUCCESS: Username accepted.\n"@,
{
    String::from_str("SUCCESS: Username accepted.\n")
}

/// The keepalive probe the relay writes after an idle timeout.
pub fn ping_line() -> (r: String)
    ensures
        r@ == "PING\n"@,
{
    String::from_str("PING\n")
}

/// The keepalive reply a peer sends back for a probe.
pub fn pong_frame() -> (r: String)
    ensures
        r@ == "PONG\n"@,
{
    String::from_str("PONG\n")
}

/// The frame a peer sends to request the current name snapshot.
pub fn userlist_request_frame() -> (r: String)
    ensures
        r@ == "GET_USERLIST\n"@,
{
    String::from_str("GET_USERLIST\n")
}

/// `"SERVER: <name> has joined the chat!\n"`.
pub open spec fn spec_join_notice(name: Seq<char>) -> Seq<char> {
    "SERVER: "@ + name + " has joined the chat!\n"@
}

/// Builds the join notice for `name`.
pub fn join_notice(name: &str) -> (r: String)
    ensures
        r@ == spec_join_notice(name@),
{
    let mut r = String::from_str("SERVER: ");
    r.append(name);
    r.append(" has joined the chat!\n");
    r
}

/// `"SERVER: <name> has left the chat!\n"`.
pub open spec fn spec_leave_notice(name: Seq<char>) -> Seq<char> {
    "SERVER: "@ + name + " has left the chat!\n"@
}

/// Builds the leave notice for `name`.
pub fn leave_notice(name: &str) -> (r: String)
    ensures
        r@ == spec_leave_notice(name@),
{
    let mut r = String::from_str("SERVER: ");
    r.append(name);
    r.append(" has left the chat!\n");
    r
}

/// `"<name>: <text>\n"`, the broadcast form of a posted chat line.
pub open spec fn spec_chat_line(name: Seq<char>, text: Seq<char>) -> Seq<char> {
    name + ": "@ + text + "\n"@
}

/// Builds the broadcast chat line posted by `name`.
pub fn chat_line(name: &str, text: &str) -> (r: String)
    ensures
        r@ == spec_chat_line(name@, text@),
{
    let mut r = String::from_str(name);
    r.append(": ");
    r.append(text);
    r.append("\n");
    r
}

/// `"USERLIST: <names joined by ", ">\n"`.
pub open spec fn spec_userlist_line(names: Seq<Seq<char>>) -> Seq<char> {
    "USERLIST: "@ + join_with(names, ", "@) + "\n"@
}

/// Builds the user-list reply for a name snapshot.
pub fn userlist_line(names: &Vec<String>) -> (r: String)
    ensures
        r@ == spec_userlist_line(names.deep_view()),
{
    let mut r = String::from_str("USERLIST: ");
    let joined = join_strings(names, ", ");
    r.append(joined.as_str());
    r.append("\n");
    r
}

} // verus!
