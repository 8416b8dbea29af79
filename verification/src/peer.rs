//! The peer-side connection state machine: receive the token, negotiate a
//! name against the relay's reply codes, then chat, classifying every
//! incoming line (keepalive probes, user-list snapshots, prompt echoes,
//! chat lines).  The terminal, the socket and the local input loop live
//! outside the library and only hand in plain values.

use vstd::prelude::*;
use crate::protocol::pong_frame;
use crate::text::eq_str;
use crate::text::contains_seq;
use crate::text::contains_sub;
use crate::text::last_word_or_unknown;
use crate::text::starts_with_spec;
use crate::text::starts_with_str;
use crate::text::strip_prefix_str;
use crate::text::trim_spec;
use crate::text::trim_str;
use crate::text::words;

verus! {

/// The phases of the peer-side state machine.
#[derive(Clone, Copy, Debug, PartialEq, Eq, Structural)]
pub enum PeerState {
    /// Connected, waiting for the greeting line with the session token.
    AwaitingToken,
    /// Sending candidate names and branching on the relay's reply codes.
    NegotiatingName,
    /// Steady state: local input goes out, incoming lines are classified.
    Chatting,
    /// Terminal: connection and held resources released.
    Closed,
}

/// The peer's view of its session: its phase, the token text received in
/// the greeting, and the display name once accepted.
pub struct PeerClient {
    pub state: PeerState,
    pub token: Option<String>,
    pub name: Option<String>,
}

/// What to do with a submitted candidate name.
pub enum NameSubmission {
    /// Empty input is rejected locally, without contacting the relay.
    EmptyInput,
    /// Send this frame and read exactly one reply line.
    Send(String),
}

/// The branch taken on the relay's reply to a candidate name.
pub enum ReplyOutcome {
    /// The name was accepted: enter the chat.
    Accepted,
    /// The name is taken: clear the input and show the relay's error line.
    Rejected { error: String },
    /// Anything else: clear the input and show a local error.
    Unexpected { error: String },
}

/// The classification of one line received while chatting.
pub enum Incoming {
    /// A keepalive probe: answer with `reply`, surface nothing.
    Ping { reply: String },
    /// A user-list snapshot: cache `names`, suppressed from the message view.
    UserList { names: String },
    /// An echo of the name prompt: suppressed.
    Prompt,
    /// A chat or notice line to render.
    Chat { line: String },
}

impl PeerClient {
    /// The token text, as a character sequence.
    pub open spec fn token_model(self) -> Seq<char> {
        match self.token {
            Some(t) => t@,
            None => Seq::empty(),
        }
    }

    /// The display name, as a character sequence.
    pub open spec fn name_model(self) -> Seq<char> {
        match self.name {
            Some(n) => n@,
            None => Seq::empty(),
        }
    }

    /// The token arrives before negotiation and the name is set exactly
    /// once, on acceptance.
    pub open spec fn wf(self) -> bool {
        &&& self.state == PeerState::AwaitingToken ==> self.token is None && self.name is None
        &&& self.state == PeerState::NegotiatingName ==> self.token is Some && self.name is None
        &&& self.state == PeerState::Chatting ==> self.token is Some && self.name is Some
    }

    /// A freshly connected peer, waiting for its token.
    pub fn new() -> (r: PeerClient)
        ensures
            r.wf(),
            r.state == PeerState::AwaitingToken,
    {
        PeerClient { state: PeerState::AwaitingToken, token: None, name: None }
    }

    /// Consumes the greeting line: the token is its last
    /// whitespace-separated word (`"Your token: <n>"`), or `"unknown"` for
    /// a line with no words at all.  Failure to read any line at this stage
    /// is fatal; the caller closes instead.
    pub fn on_token_line(&mut self, line: &str)
        requires
            old(self).wf(),
            old(self).state == PeerState::AwaitingToken,
        ensures
            final(self).wf(),
            final(self).state == PeerState::NegotiatingName,
            words(trim_spec(line@)).len() > 0 ==> final(self).token_model() == words(
                trim_spec(line@),
            ).last(),
            words(trim_spec(line@)).len() == 0 ==> final(self).token_model() == "unknown"@,
    {
        let trimmed = trim_str(line);
        let token = last_word_or_unknown(trimmed.as_str());
        self.token = Some(token);
        self.state = PeerState::NegotiatingName;
    }

    /// Turns submitted local input into a candidate-name frame.  Input that
    /// is empty after trimming is rejected locally without contacting the
    /// relay; otherwise the input is sent as typed, newline-terminated.
    pub fn submit_name(&self, input: &str) -> (r: NameSubmission)
        requires
            self.wf(),
            self.state == PeerState::NegotiatingName,
        ensures
            trim_spec(input@).len() == 0 ==> r is EmptyInput,
            trim_spec(input@).len() > 0 ==> (r matches NameSubmission::Send(f) && f@ == input@
                + "\n"@),
    {
        let trimmed = trim_str(input);
        if trimmed.unicode_len() == 0 {
            NameSubmission::EmptyInput
        } else {
            let mut f = String::from_str(input);
            f.append("\n");
            NameSubmission::Send(f)
        }
    }

    /// The reply text the peer actually branches on: the reply line,
    /// trimmed, with a possible echo of the name prompt stripped off the
    /// front.
    pub open spec fn effective_reply(line: Seq<char>) -> Seq<char> {
        let t = trim_spec(line);
        if starts_with_spec(t, "Enter your username: "@) {
            t.skip("Enter your username: "@.len() as int)
        } else {
            t
        }
    }

    /// Branches on the relay's reply to the candidate name `submitted`:
    /// the acceptance line enters the chat with that name; the rejection
    /// line surfaces the relay's error and stays; any other content
    /// surfaces a local error and stays.
    pub fn on_name_reply(&mut self, submitted: &str, line: &str) -> (r: ReplyOutcome)
        requires
            old(self).wf(),
            old(self).state == PeerState::NegotiatingName,
        ensures
            final(self).wf(),
            final(self).token == old(self).token,
            Self::effective_reply(line@) == "SUCCESS: Username accepted."@ ==> ({
                &&& r is Accepted
                &&& final(self).state == PeerState::Chatting
                &&& final(self).name_model() == submitted@
            }),
            (Self::effective_reply(line@) != "SUCCESS: Username accepted."@
                && Self::effective_reply(line@)
                == "ERROR: Username is already taken. Please choose a different one."@) ==> ({
                &&& (r matches ReplyOutcome::Rejected { error } && error@ == Self::effective_reply(
                    line@,
                ))
                &&& *final(self) == *old(self)
            }),
            (Self::effective_reply(line@) != "SUCCESS: Username accepted."@
                && Self::effective_reply(line@)
                != "ERROR: Username is already taken. Please choose a different one."@) ==> ({
                &&& (r matches ReplyOutcome::Unexpected { error } && error@
                    == "Unexpected server response. Please try again."@)
                &&& *final(self) == *old(self)
            }),
    {
        let t = trim_str(line);
        let effective = match strip_prefix_str(t.as_str(), "Enter your username: ") {
            Some(rest) => rest,
            None => t,
        };
        if eq_str(effective.as_str(), "SUCCESS: Username accepted.") {
            self.name = Some(String::from_str(submitted));
            self.state = PeerState::Chatting;
            ReplyOutcome::Accepted
        } else if eq_str(
            effective.as_str(),
            "ERROR: Username is already taken. Please choose a different one.",
        ) {
            ReplyOutcome::Rejected { error: effective }
        } else {
            ReplyOutcome::Unexpected {
                error: String::from_str("Unexpected server response. Please try again."),
            }
        }
    }

    /// Classifies one incoming line while chatting.  A keepalive probe is
    /// answered with the reply frame and never surfaced; a user-list line
    /// updates the cached snapshot (the text after its `"USERLIST: "`
    /// prefix) and is suppressed; an echo of the name prompt is suppressed;
    /// everything else is a chat or notice line, trimmed.
    pub fn classify_incoming(&self, line: &str) -> (r: Incoming)
        requires
            self.wf(),
            self.state == PeerState::Chatting,
        ensures
            ({
                let t = trim_spec(line@);
                &&& t == "PING"@ ==> (r matches Incoming::Ping { reply } && reply@ == "PONG\n"@)
                &&& (t != "PING"@ && starts_with_spec(t, "USERLIST:"@)) ==> (r
                    matches Incoming::UserList { names } && names@ == (if starts_with_spec(
                    t,
                    "USERLIST: "@,
                ) {
                    t.skip("USERLIST: "@.len() as int)
                } else {
                    t
                }))
                &&& (t != "PING"@ && !starts_with_spec(t, "USERLIST:"@) && contains_seq(
                    t,
                    "Enter your username:"@,
                )) ==> r is Prompt
                &&& (t != "PING"@ && !starts_with_spec(t, "USERLIST:"@) && !contains_seq(
                    t,
                    "Enter your username:"@,
                )) ==> (r matches Incoming::Chat { line: l } && l@ == t)
            }),
    {
        let t = trim_str(line);
        if eq_str(t.as_str(), "PING") {
            Incoming::Ping { reply: pong_frame() }
        } else if starts_with_str(t.as_str(), "USERLIST:") {
            let names = match strip_prefix_str(t.as_str(), "USERLIST: ") {
                Some(rest) => rest,
                None => t,
            };
            Incoming::UserList { names }
        } else if contains_sub(t.as_str(), "Enter your username:") {
            Incoming::Prompt
        } else {
            Incoming::Chat { line: t }
        }
    }

    /// Turns submitted chat input into an outgoing frame: empty input sends
    /// nothing, anything else is sent trimmed and newline-terminated.  (A
    /// user-list request keystroke instead sends the request frame from the
    /// protocol module.)
    pub fn chat_frame(&self, input: &str) -> (r: Option<String>)
        requires
            self.wf(),
            self.state == PeerState::Chatting,
        ensures
            input@.len() == 0 ==> r is None,
            input@.len() > 0 ==> (r matches Some(f) && f@ == trim_spec(input@) + "\n"@),
    {
        if input.unicode_len() == 0 {
            None
        } else {
            let mut f = trim_str(input);
            f.append("\n");
            Some(f)
        }
    }

    /// Closes the peer: quit keystroke, remote EOF, or write failure.
    pub fn close(&mut self)
        ensures
            final(self).state == PeerState::Closed,
            final(self).token == old(self).token,
            final(self).name == old(self).name,
    {
        self.state = PeerState::Closed;
    }
}

} // verus!
