//! The publish/subscribe fan-out bus.  All events form one global ordered
//! log; a subscription is a cursor into that log, so every subscriber
//! observes the same total order.  Each subscription holds at most
//! `BUS_CAPACITY` pending events: a subscriber that falls further behind
//! loses its oldest undelivered events rather than blocking publishers.

use vstd::prelude::*;
use crate::protocol::spec_join_notice;
use crate::protocol::spec_leave_notice;
use crate::protocol::spec_chat_line;
use crate::protocol::spec_userlist_line;
use crate::protocol::join_notice;
use crate::protocol::leave_notice;
use crate::protocol::chat_line;
use crate::protocol::userlist_line;

verus! {

/// Per-subscription queue bound.  The drop-oldest policy beyond this bound
/// is a deliberate availability-over-completeness trade-off.
pub const BUS_CAPACITY: usize = 32;

/// One chat notice, owned by the bus once published and replicated, never
/// mutated, to every subscriber.
pub enum ChatEvent {
    /// A session registered a name.
    Join { name: String },
    /// A registered session posted a line of text.
    Chat { name: String, text: String },
    /// A session ended.
    Leave { name: String },
    /// The names registered after a session ended.
    UserList { names: Vec<String> },
}

/// The model of a `ChatEvent`: the same shape over character sequences.
#[verifier::ext_equal]
pub enum EventModel {
    Join { name: Seq<char> },
    Chat { name: Seq<char>, text: Seq<char> },
    Leave { name: Seq<char> },
    UserList { names: Seq<Seq<char>> },
}

impl View for ChatEvent {
    type V = EventModel;

    open spec fn view(&self) -> EventModel {
        match self {
            ChatEvent::Join { name } => EventModel::Join { name: name@ },
            ChatEvent::Chat { name, text } => EventModel::Chat { name: name@, text: text@ },
            ChatEvent::Leave { name } => EventModel::Leave { name: name@ },
            ChatEvent::UserList { names } => EventModel::UserList { names: names.deep_view() },
        }
    }
}

/// The wire line an event takes when forwarded to a peer.
pub open spec fn spec_event_line(m: EventModel) -> Seq<char> {
    match m {
        EventModel::Join { name } => spec_join_notice(name),
        EventModel::Chat { name, text } => spec_chat_line(name, text),
        EventModel::Leave { name } => spec_leave_notice(name),
        EventModel::UserList { names } => spec_userlist_line(names),
    }
}

impl ChatEvent {
    /// A copy with the same model; the bus replicates events this way.
    pub fn duplicate(&self) -> (r: ChatEvent)
        ensures
            r@ == self@,
    {
        match self {
            ChatEvent::Join { name } => ChatEvent::Join { name: name.clone() },
            ChatEvent::Chat { name, text } => ChatEvent::Chat {
                name: name.clone(),
                text: text.clone(),
            },
            ChatEvent::Leave { name } => ChatEvent::Leave { name: name.clone() },
            ChatEvent::UserList { names } => {
                let mut copy: Vec<String> = Vec::new();
                let mut i: usize = 0;
                while i < names.len()
                    invariant
                        0 <= i <= names@.len(),
                        copy.deep_view() == names.deep_view().take(i as int),
                    decreases names@.len() - i,
                {
                    let ghost old_dv = copy.deep_view();
                    copy.push(names[i].clone());
                    proof {
                        assert(copy.deep_view() =~= old_dv.push(names.deep_view()[i as int]));
                        assert(names.deep_view().take(i + 1) =~= names.deep_view().take(
                            i as int,
                        ).push(names.deep_view()[i as int]));
                    }
                    i = i + 1;
                }
                proof {
                    assert(names.deep_view().take(names@.len() as int) =~= names.deep_view());
                    assert(copy.deep_view() == names.deep_view());
                }
                ChatEvent::UserList { names: copy }
            },
        }
    }

    /// Renders this event as its wire line.
    pub fn line(&self) -> (r: String)
        ensures
            r@ == spec_event_line(self@),
    {
        match self {
            ChatEvent::Join { name } => join_notice(name.as_str()),
            ChatEvent::Chat { name, text } => chat_line(name.as_str(), text.as_str()),
            ChatEvent::Leave { name } => leave_notice(name.as_str()),
            ChatEvent::UserList { names } => userlist_line(names),
        }
    }
}

/// The consecutive integers `a, a + 1, ..., b - 1`.
pub open spec fn int_range(a: int, b: int) -> Seq<int>
    recommends
        a <= b,
{
    Seq::new((b - a) as nat, |k: int| a + k)
}

/// The shared fan-out bus: the single ordered log of published events.
pub struct BroadcastBus {
    pub log: Vec<ChatEvent>,
}

impl BroadcastBus {
    /// The global publish order, as event models.
    pub open spec fn log_model(self) -> Seq<EventModel> {
        self.log@.map_values(|e: ChatEvent| e@)
    }

    /// A fresh bus with no events.
    pub fn new() -> (r: BroadcastBus)
        ensures
            r.log_model() == Seq::<EventModel>::empty(),
    {
        let r = BroadcastBus { log: Vec::new() };
        proof {
            assert(r.log_model() =~= Seq::<EventModel>::empty());
        }
        r
    }

    /// Publishes `e` to every subscription currently open, including the
    /// publisher's own: the event is appended to the global order, where
    /// each subscription's cursor will reach it.
    pub fn publish(&mut self, e: ChatEvent)
        ensures
            final(self).log_model() == old(self).log_model().push(e@),
    {
        let ghost old_model = self.log_model();
        self.log.push(e);
        proof {
            assert(self.log_model() =~= old_model.push(self.log@.last()@));
        }
    }

    /// Opens a new per-caller inbox.  Only events published after this call
    /// are visible on it.
    pub fn subscribe(&self) -> (s: Subscription)
        ensures
            s.wf(*self),
            s.start@ == self.log_model().len(),
            s.cursor == self.log_model().len(),
            s.received@ == Seq::<int>::empty(),
            !s.lagged@,
    {
        let s = Subscription {
            cursor: self.log.len(),
            start: Ghost(self.log@.len() as int),
            received: Ghost(Seq::empty()),
            lagged: Ghost(false),
        };
        proof {
            assert(s.received@ =~= int_range(s.start@, s.cursor as int));
        }
        s
    }
}

/// One session's inbox: a cursor into the bus's global log.  `start` is the
/// log position at subscription time, `received` the log positions delivered
/// so far, and `lagged` whether the drop-oldest policy ever discarded
/// anything; the three exist only for reasoning.
pub struct Subscription {
    pub cursor: usize,
    pub start: Ghost<int>,
    pub received: Ghost<Seq<int>>,
    pub lagged: Ghost<bool>,
}

impl Subscription {
    /// Subscription invariant against the bus it was opened on: the cursor
    /// sits between subscription point and log end, delivered positions are
    /// strictly increasing within that window, and a subscription that never
    /// lagged has delivered exactly the positions below its cursor.
    pub open spec fn wf(self, bus: BroadcastBus) -> bool {
        &&& 0 <= self.start@ <= self.cursor <= bus.log_model().len()
        &&& forall|i: int, j: int|
            0 <= i < j < self.received@.len() ==> self.received@[i] < self.received@[j]
        &&& forall|i: int|
            0 <= i < self.received@.len() ==> self.start@ <= #[trigger] self.received@[i]
                < self.cursor
        &&& !self.lagged@ ==> self.received@ == int_range(self.start@, self.cursor as int)
    }

    /// How many published events this subscription has not yet delivered.
    pub open spec fn pending(self, bus: BroadcastBus) -> int {
        bus.log_model().len() - self.cursor
    }

    /// Delivers the next pending event in global publish order, or `None`
    /// when nothing is pending.  A subscriber more than `BUS_CAPACITY`
    /// behind first drops its oldest pending events.
    pub fn try_receive(&mut self, bus: &BroadcastBus) -> (r: Option<ChatEvent>)
        requires
            old(self).wf(*bus),
        ensures
            final(self).wf(*bus),
            final(self).start@ == old(self).start@,
            old(self).pending(*bus) == 0 ==> r is None && *final(self) == *old(self),
            old(self).pending(*bus) > 0 ==> ({
                let c = if old(self).pending(*bus) > BUS_CAPACITY {
                    bus.log_model().len() - BUS_CAPACITY
                } else {
                    old(self).cursor as int
                };
                &&& (r matches Some(e) && e@ == bus.log_model()[c])
                &&& final(self).cursor == c + 1
                &&& final(self).received@ == old(self).received@.push(c)
                &&& final(self).lagged@ == (old(self).lagged@ || old(self).pending(*bus)
                    > BUS_CAPACITY)
            }),
    {
        let len = bus.log.len();
        if self.cursor == len {
            return None;
        }
        let c: usize = if len - self.cursor > BUS_CAPACITY {
            len - BUS_CAPACITY
        } else {
            self.cursor
        };
        let lagged_now = len - self.cursor > BUS_CAPACITY;
        let e = bus.log[c].duplicate();
        let ghost old_received = self.received@;
        self.cursor = c + 1;
        self.received = Ghost(self.received@.push(c as int));
        let ghost new_lagged: bool = self.lagged@ || lagged_now;
        self.lagged = Ghost(new_lagged);
        proof {
            if !self.lagged@ {
                assert(old_received == int_range(self.start@, c as int));
                assert(self.received@ =~= int_range(self.start@, c as int + 1));
            }
        }
        Some(e)
    }
}

/// Publishing more events never disturbs an existing subscription: its
/// invariant is preserved as the log grows.
pub proof fn lemma_sub_wf_after_publish(sub: Subscription, pre: BroadcastBus, post: BroadcastBus)
    requires
        sub.wf(pre),
        pre.log_model().len() <= post.log_model().len(),
    ensures
        sub.wf(post),
{
}

/// Fan-out completeness: an event published after a subscription was opened
/// is delivered to that subscription exactly once, provided the subscriber
/// drained its inbox and never fell behind the queue bound.  This holds for
/// each of any number of subscriptions, including the publisher's own.
pub proof fn lemma_fanout_complete(bus: BroadcastBus, sub: Subscription, i: int)
    requires
        sub.wf(bus),
        !sub.lagged@,
        sub.cursor == bus.log_model().len(),
        sub.start@ <= i < bus.log_model().len(),
    ensures
        exists|j: int| 0 <= j < sub.received@.len() && sub.received@[j] == i,
        forall|j: int, k: int|
            (0 <= j < sub.received@.len() && 0 <= k < sub.received@.len() && j != k) ==> !(
            sub.received@[j] == i && sub.received@[k] == i),
{
    let j = i - sub.start@;
    assert(sub.received@[j] == i);
}

/// Global order, one subscriber: the log positions a subscription delivers
/// are strictly increasing, so it observes events in publish order.
pub proof fn lemma_observation_order(bus: BroadcastBus, sub: Subscription, j: int, k: int)
    requires
        sub.wf(bus),
        0 <= j < k < sub.received@.len(),
    ensures
        sub.received@[j] < sub.received@[k],
{
}

/// Global order, two subscribers: when both observe the same two events,
/// they observe them in the same relative order.
pub proof fn lemma_global_order(
    bus: BroadcastBus,
    a: Subscription,
    b: Subscription,
    ja: int,
    ka: int,
    jb: int,
    kb: int,
)
    requires
        a.wf(bus),
        b.wf(bus),
        0 <= ja < ka < a.received@.len(),
        0 <= jb < b.received@.len(),
        0 <= kb < b.received@.len(),
        a.received@[ja] == b.received@[jb],
        a.received@[ka] == b.received@[kb],
    ensures
        jb < kb,
{
    assert(a.received@[ja] < a.received@[ka]);
    if jb > kb {
        assert(b.received@[kb] < b.received@[jb]);
    }
}

} // verus!
