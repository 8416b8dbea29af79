//! The server-side session state machine.  A session owns one peer
//! connection; it negotiates a display name against the registry, then
//! relays: lines read from the peer are classified and published, bus
//! events are forwarded back, idle timeouts trigger a keepalive probe, and
//! the end of either loop unregisters the name and announces the leave.
//! The I/O loops around these decisions live outside the library and only
//! hand in plain values.

use vstd::prelude::*;
use crate::bus::ChatEvent;
use crate::bus::EventModel;
use crate::registry::NameRegistry;
use crate::registry::RegisterOutcome;
use crate::registry::spec_has_name;
use crate::registry::spec_has_token;
use crate::protocol::error_taken_line;
use crate::protocol::success_line;
use crate::protocol::userlist_line;
use crate::protocol::spec_userlist_line;
use crate::text::eq_str;
use crate::text::trim_spec;
use crate::text::trim_str;

verus! {

/// The phases of a server-side session.
#[derive(Clone, Copy, Debug, PartialEq, Eq, Structural)]
pub enum SessionState {
    /// Prompting for and checking candidate names.
    AwaitingName,
    /// Name registered; the read loop and the forward loop are running.
    Relaying,
    /// Terminal: connection closed, subscription dropped.
    Closed,
}

/// One peer's server-side state: its token, its name once registered, and
/// its phase.
pub struct Session {
    pub token: u64,
    pub name: Option<String>,
    pub state: SessionState,
}

/// What the name negotiation step asks the caller to do.
pub enum NegotiationStep {
    /// The candidate is taken: write `reply` and prompt again.
    Rejected { reply: String },
    /// The candidate is claimed: write `reply`, publish `notice`, and start
    /// relaying.
    Accepted { reply: String, notice: ChatEvent },
}

/// What the read loop observed: one line, an idle timeout, or the end of
/// the connection (EOF or read error).
pub enum ReadEvent {
    Line(String),
    TimedOut,
    Disconnected,
}

/// What the session asks the caller to do with a read-loop observation.
pub enum RelayAction {
    /// Nothing to do: a keepalive reply (purely a liveness signal) or a
    /// line with no content after trimming.
    Ignore,
    /// Write the user-list reply directly to this peer only.
    SendUserList,
    /// Publish this event to every session.
    Publish(ChatEvent),
    /// Idle timeout: write a keepalive probe and keep waiting.
    SendPing,
    /// The connection ended: run `end_session`.
    EndSession,
}

impl Session {
    /// The registered name, as a character sequence.
    pub open spec fn name_model(self) -> Seq<char> {
        match self.name {
            Some(n) => n@,
            None => Seq::empty(),
        }
    }

    /// A session has a name exactly from registration on.
    pub open spec fn wf(self) -> bool {
        &&& self.state == SessionState::AwaitingName ==> self.name is None
        &&& self.state == SessionState::Relaying ==> self.name is Some
    }

    /// A fresh session for a newly accepted connection.
    pub fn new(token: u64) -> (r: Session)
        ensures
            r.wf(),
            r.token == token,
            r.name is None,
            r.state == SessionState::AwaitingName,
    {
        Session { token, name: None, state: SessionState::AwaitingName }
    }

    /// One round of name negotiation: trims the candidate line, then — in
    /// one atomic registry step — checks uniqueness and claims the name.
    /// Rejection changes nothing and asks for a re-prompt; acceptance
    /// registers the trimmed name, moves the session to `Relaying`, and
    /// hands back the acceptance reply together with the join notice to
    /// publish.
    pub fn offer_name(&mut self, registry: &mut NameRegistry, raw: &str) -> (r: NegotiationStep)
        requires
            old(self).wf(),
            old(self).state == SessionState::AwaitingName,
            old(registry).wf(),
            !spec_has_token(old(registry).model(), old(self).token),
        ensures
            final(self).wf(),
            final(registry).wf(),
            final(self).token == old(self).token,
            spec_has_name(old(registry).model(), trim_spec(raw@)) ==> ({
                &&& (r matches NegotiationStep::Rejected { reply } && reply@
                    == "ERROR: Username is already taken. Please choose a different one.\n"@)
                &&& *final(self) == *old(self)
                &&& *final(registry) == *old(registry)
            }),
            !spec_has_name(old(registry).model(), trim_spec(raw@)) ==> ({
                &&& (r matches NegotiationStep::Accepted { reply, notice } && reply@
                    == "SUCCESS: Username accepted.\n"@ && notice@ == EventModel::Join {
                    name: trim_spec(raw@),
                })
                &&& final(registry).model() == old(registry).model().push(
                    (old(self).token, trim_spec(raw@)),
                )
                &&& final(self).state == SessionState::Relaying
                &&& final(self).name_model() == trim_spec(raw@)
            }),
    {
        let candidate = trim_str(raw);
        let outcome = registry.try_register(self.token, candidate.as_str());
        match outcome {
            RegisterOutcome::Rejected => NegotiationStep::Rejected { reply: error_taken_line() },
            RegisterOutcome::Accepted => {
                let notice = ChatEvent::Join { name: candidate.clone() };
                self.name = Some(candidate);
                self.state = SessionState::Relaying;
                NegotiationStep::Accepted { reply: success_line(), notice }
            },
        }
    }

    /// Gives the session up during name negotiation (read failure or EOF
    /// before any name was registered): nothing was published and nothing
    /// is owed, the session just closes.
    pub fn abandon(&mut self)
        requires
            old(self).wf(),
            old(self).state == SessionState::AwaitingName,
        ensures
            final(self).wf(),
            final(self).state == SessionState::Closed,
            final(self).token == old(self).token,
            final(self).name == old(self).name,
    {
        self.state = SessionState::Closed;
    }

    /// Classifies one read-loop observation while relaying.  A keepalive
    /// reply is discarded; a user-list request is answered directly to this
    /// peer; any other non-empty line (after trimming surrounding
    /// whitespace) is published as this session's chat line, while a line
    /// that trims to nothing is discarded; a timeout asks for a probe; a
    /// closed connection ends the session.
    pub fn on_read_event(&self, ev: ReadEvent) -> (a: RelayAction)
        requires
            self.wf(),
            self.state == SessionState::Relaying,
        ensures
            ev is Disconnected ==> a is EndSession,
            ev is TimedOut ==> a is SendPing,
            ev matches ReadEvent::Line(l) ==> ({
                let t = trim_spec(l@);
                &&& t == "PONG"@ ==> a is Ignore
                &&& (t != "PONG"@ && t == "GET_USERLIST"@) ==> a is SendUserList
                &&& (t != "PONG"@ && t != "GET_USERLIST"@ && t.len() == 0) ==> a is Ignore
                &&& (t != "PONG"@ && t != "GET_USERLIST"@ && t.len() > 0) ==> (a
                    matches RelayAction::Publish(e) && e@ == EventModel::Chat {
                    name: self.name_model(),
                    text: t,
                })
            }),
    {
        match ev {
            ReadEvent::Disconnected => RelayAction::EndSession,
            ReadEvent::TimedOut => RelayAction::SendPing,
            ReadEvent::Line(l) => {
                let t = trim_str(l.as_str());
                if eq_str(t.as_str(), "PONG") {
                    RelayAction::Ignore
                } else if eq_str(t.as_str(), "GET_USERLIST") {
                    RelayAction::SendUserList
                } else if t.unicode_len() == 0 {
                    RelayAction::Ignore
                } else {
                    let name = match &self.name {
                        Some(n) => n.clone(),
                        None => vstd::pervasive::unreached(),
                    };
                    RelayAction::Publish(ChatEvent::Chat { name, text: t })
                }
            },
        }
    }

    /// Ends a relaying session: removes its registry entry, so the name is
    /// free again, and hands back the leave notice to publish.  Nothing
    /// else is broadcast; the user-list snapshot is only ever a direct
    /// reply to the peer that requested it.
    pub fn end_session(&mut self, registry: &mut NameRegistry) -> (r: ChatEvent)
        requires
            old(self).wf(),
            old(self).state == SessionState::Relaying,
            old(registry).wf(),
        ensures
            final(self).wf(),
            final(self).state == SessionState::Closed,
            final(self).token == old(self).token,
            final(self).name == old(self).name,
            final(registry).wf(),
            !spec_has_token(final(registry).model(), old(self).token),
            spec_has_token(old(registry).model(), old(self).token) ==> exists|i: int|
                0 <= i < old(registry).model().len() && old(registry).model()[i].0 == old(
                    self,
                ).token && final(registry).model() == old(registry).model().remove(i),
            !spec_has_token(old(registry).model(), old(self).token) ==> *final(registry) == *old(
                registry,
            ),
            r@ == (EventModel::Leave { name: old(self).name_model() }),
    {
        registry.unregister(self.token);
        let name = match &self.name {
            Some(n) => n.clone(),
            None => vstd::pervasive::unreached(),
        };
        self.state = SessionState::Closed;
        ChatEvent::Leave { name }
    }
}

/// The user-list reply owed to a peer that requested the snapshot: the
/// currently registered names on one line, written directly to that peer
/// and not broadcast.
pub fn user_list_reply(registry: &NameRegistry) -> (r: String)
    ensures
        r@ == spec_userlist_line(registry.names()),
{
    let names = registry.snapshot();
    userlist_line(&names)
}

} // verus!
