use std::collections::HashMap;
use vstd::prelude::*;

use crate::channel::{ChannelView, DeliveryChannel};

verus! {

broadcast use vstd::std_specs::hash::group_hash_axioms;

/// A payload pushed to one session.
#[derive(Debug, Clone, PartialEq, Eq)]
pub struct WsMessage(pub String);

/// Ask the registry to deliver a payload to one user's session.
#[derive(Debug, Clone, PartialEq, Eq)]
pub struct UserMessage {
    pub user_id: u128,
    pub message: String,
}

/// Ask the registry to deliver a payload to every registered session.
#[derive(Debug, Clone, PartialEq, Eq)]
pub struct BroadcastMessage(pub String);

/// Attach a session's delivery channel to its user.
#[derive(Debug, Clone, Copy, PartialEq, Eq)]
pub struct ConnectUser {
    pub user_id: u128,
    pub sink: usize,
}

/// Detach whatever session is registered for a user.
#[derive(Debug, Clone, Copy, PartialEq, Eq)]
pub struct DisconnectUser {
    pub user_id: u128,
}

/// The registry as the contracts see it: which channel each connected user
/// is reached through, and every channel opened so far, indexed by sink id.
pub struct RegistryView {
    pub sessions: Map<u128, usize>,
    pub channels: Seq<ChannelView>,
}

impl RegistryView {
    pub open spec fn wf(self) -> bool {
        &&& forall|i: int| 0 <= i < self.channels.len() ==> (#[trigger] self.channels[i]).wf()
        &&& forall|u: u128| #[trigger]
            self.sessions.contains_key(u) ==> self.owns(u, self.sessions[u])
    }

    /// `sink` is a channel opened for a session of `user`.
    pub open spec fn owns(self, user: u128, sink: usize) -> bool {
        sink < self.channels.len() && self.channels[sink as int].owner == user
    }

    /// Sink `i` is the channel its owner is currently registered with.
    pub open spec fn receives(self, i: int) -> bool {
        &&& 0 <= i < self.channels.len()
        &&& self.sessions.contains_key(self.channels[i].owner)
        &&& self.sessions[self.channels[i].owner] == i
    }

    /// Channels keep their owners and only new ones are added.
    pub open spec fn extends(self, later: RegistryView) -> bool {
        &&& self.channels.len() <= later.channels.len()
        &&& forall|i: int|
            0 <= i < self.channels.len() ==> (#[trigger] later.channels[i]).owner
                == self.channels[i].owner
    }

    pub open spec fn open_channel(self, owner: u128, capacity: nat) -> RegistryView {
        RegistryView {
            channels: self.channels.push(
                ChannelView { owner, capacity, open: true, pending: Seq::empty() },
            ),
            ..self
        }
    }

    /// `user` is now reached through `sink`; a previous sink is abandoned.
    pub open spec fn register(self, user: u128, sink: usize) -> RegistryView {
        RegistryView { sessions: self.sessions.insert(user, sink), ..self }
    }

    pub open spec fn unregister(self, user: u128) -> RegistryView {
        RegistryView { sessions: self.sessions.remove(user), ..self }
    }

    pub open spec fn update_channel(self, i: int, c: ChannelView) -> RegistryView {
        RegistryView { channels: self.channels.update(i, c), ..self }
    }

    /// Delivery to the user's registered sink; nothing when the user is offline.
    pub open spec fn route_to_user(self, user: u128, m: String) -> RegistryView {
        if self.sessions.contains_key(user) && self.sessions[user] < self.channels.len() {
            let s = self.sessions[user] as int;
            self.update_channel(s, self.channels[s].offer(m))
        } else {
            self
        }
    }

    /// Delivery to every registered sink, once each.
    pub open spec fn broadcast(self, m: String) -> RegistryView {
        RegistryView {
            channels: Seq::new(
                self.channels.len(),
                |i: int|
                    if self.receives(i) {
                        self.channels[i].offer(m)
                    } else {
                        self.channels[i]
                    },
            ),
            ..self
        }
    }

    pub open spec fn take(self, sink: usize) -> RegistryView {
        self.update_channel(sink as int, self.channels[sink as int].take())
    }

    pub open spec fn close_channel(self, sink: usize) -> RegistryView {
        self.update_channel(sink as int, self.channels[sink as int].close())
    }
}

/// One way a payload is handed to the registry.
pub enum Delivery {
    ToUser(u128, String),
    Everyone(String),
}

impl Delivery {
    pub open spec fn payload(self) -> String {
        match self {
            Delivery::ToUser(_, m) => m,
            Delivery::Everyone(m) => m,
        }
    }
}

impl RegistryView {
    pub open spec fn deliver(self, d: Delivery) -> RegistryView {
        match d {
            Delivery::ToUser(u, m) => self.route_to_user(u, m),
            Delivery::Everyone(m) => self.broadcast(m),
        }
    }

    /// `d` is addressed to sink `s` and `s` has room for it.
    pub open spec fn reaches(self, d: Delivery, s: int) -> bool {
        &&& match d {
            Delivery::ToUser(u, _) => self.sessions.contains_key(u) && self.sessions[u] == s,
            Delivery::Everyone(_) => self.receives(s),
        }
        &&& 0 <= s < self.channels.len()
        &&& self.channels[s].accepts()
    }

    /// What `d` adds to the queue of sink `s`.
    pub open spec fn delivered(self, d: Delivery, s: int) -> Seq<String> {
        if self.reaches(d, s) {
            seq![d.payload()]
        } else {
            Seq::empty()
        }
    }
}

/// A delivery leaves the registry well formed, keeps every channel's owner,
/// and only ever appends its payload to the back of a sink's queue.
pub proof fn lemma_delivery_appends(h: RegistryView, d: Delivery, s: int)
    requires
        h.wf(),
        0 <= s < h.channels.len(),
    ensures
        h.deliver(d).wf(),
        h.extends(h.deliver(d)),
        h.deliver(d).sessions == h.sessions,
        h.deliver(d).channels.len() == h.channels.len(),
        h.deliver(d).channels[s].owner == h.channels[s].owner,
        h.deliver(d).channels[s].open == h.channels[s].open,
        h.deliver(d).channels[s].capacity == h.channels[s].capacity,
        h.deliver(d).channels[s].pending == h.channels[s].pending + h.delivered(d, s),
{
    let g = h.deliver(d);
    assert forall|i: int| 0 <= i < g.channels.len() implies (#[trigger] g.channels[i]).wf()
        && g.channels[i].owner == h.channels[i].owner by {
        assert(h.channels[i].wf());
    }
    assert forall|u: u128| #[trigger] g.sessions.contains_key(u) implies g.owns(
        u,
        g.sessions[u],
    ) by {
        assert(h.owns(u, h.sessions[u]));
    }
    if h.reaches(d, s) {
        assert(g.channels[s].pending =~= h.channels[s].pending + h.delivered(d, s));
    } else {
        assert(g.channels[s].pending =~= h.channels[s].pending + h.delivered(d, s));
    }
}

/// After a user registers `s1` and then `s2`, a payload routed to the user
/// reaches `s2` and no other sink; `s1` in particular is left as it was.
pub proof fn lemma_last_registration_wins(h: RegistryView, u: u128, s1: usize, s2: usize, m: String)
    requires
        h.wf(),
        h.owns(u, s1),
        h.owns(u, s2),
        s1 != s2,
    ensures
        ({
            let before = h.register(u, s1).register(u, s2);
            let after = before.route_to_user(u, m);
            &&& after.channels[s2 as int] == before.channels[s2 as int].offer(m)
            &&& after.channels[s1 as int] == before.channels[s1 as int]
            &&& forall|i: int|
                0 <= i < after.channels.len() && i != s2 ==> after.channels[i]
                    == before.channels[i]
        }),
{
}

/// Unregistering a user twice in a row is the same as doing it once, and the
/// user is absent afterwards.
pub proof fn lemma_unregister_idempotent(h: RegistryView, u: u128)
    ensures
        h.unregister(u).unregister(u) == h.unregister(u),
        !h.unregister(u).unregister(u).sessions.contains_key(u),
{
    assert(h.unregister(u).unregister(u).sessions =~= h.unregister(u).sessions);
}

/// Routing to a user with no registered session changes nothing.
pub proof fn lemma_offline_user_dropped(h: RegistryView, u: u128, m: String)
    requires
        !h.sessions.contains_key(u),
    ensures
        h.route_to_user(u, m) == h,
{
}

/// A broadcast adds its payload exactly once to the queue of every registered
/// user's channel that is open and has room, and touches no other channel.
pub proof fn lemma_broadcast_reaches_all(h: RegistryView, m: String)
    requires
        h.wf(),
    ensures
        h.broadcast(m).sessions == h.sessions,
        h.broadcast(m).channels.len() == h.channels.len(),
        forall|u: u128|
            #![trigger h.sessions[u]]
            h.sessions.contains_key(u) && h.channels[h.sessions[u] as int].accepts()
                ==> h.broadcast(m).channels[h.sessions[u] as int].pending
                == h.channels[h.sessions[u] as int].pending.push(m),
        forall|i: int|
            0 <= i < h.channels.len() && !h.receives(i) ==> #[trigger] h.broadcast(m).channels[i]
                == h.channels[i],
{
    assert forall|u: u128| #![trigger h.sessions[u]]
        h.sessions.contains_key(u) && h.channels[h.sessions[u] as int].accepts() implies h.broadcast(
        m,
    ).channels[h.sessions[u] as int].pending == h.channels[h.sessions[u] as int].pending.push(
        m,
    ) by {
        assert(h.owns(u, h.sessions[u]));
        assert(h.receives(h.sessions[u] as int));
    }
}

/// Two payloads that both reach a session's channel, through any mix of
/// routing and broadcast, are queued in the order they were handed over,
/// behind whatever was already pending.
pub proof fn lemma_fifo_per_session(h: RegistryView, d1: Delivery, d2: Delivery, s: int)
    requires
        h.wf(),
        0 <= s < h.channels.len(),
        h.reaches(d1, s),
        h.deliver(d1).reaches(d2, s),
    ensures
        h.deliver(d1).deliver(d2).channels[s].pending == h.channels[s].pending + seq![
            d1.payload(),
            d2.payload(),
        ],
{
    lemma_delivery_appends(h, d1, s);
    lemma_delivery_appends(h.deliver(d1), d2, s);
    assert(h.deliver(d1).deliver(d2).channels[s].pending =~= h.channels[s].pending + seq![
        d1.payload(),
        d2.payload(),
    ]);
}

/// The process-wide directory of live sessions: at most one sink per user,
/// the last registration winning. Registry operations never fail and never
/// block; delivery goes through each session's bounded channel.
pub struct WsServer {
    sessions: HashMap<u128, usize>,
    channels: Vec<DeliveryChannel>,
}

impl View for WsServer {
    type V = RegistryView;

    closed spec fn view(&self) -> RegistryView {
        RegistryView {
            sessions: self.sessions@,
            channels: self.channels@.map_values(|c: DeliveryChannel| c@),
        }
    }
}

impl WsServer {
    pub fn new() -> (r: WsServer)
        ensures
            r@.wf(),
            r@.sessions == Map::<u128, usize>::empty(),
            r@.channels == Seq::<ChannelView>::empty(),
    {
        let r = WsServer { sessions: HashMap::new(), channels: Vec::new() };
        assert(r@.channels =~= Seq::<ChannelView>::empty());
        r
    }

    /// Opens a fresh delivery channel for a session of `owner` and returns
    /// its sink id.
    pub fn open_channel(&mut self, owner: u128, capacity: usize) -> (r: usize)
        requires
            old(self)@.wf(),
            old(self)@.channels.len() < usize::MAX,
        ensures
            final(self)@.wf(),
            r == old(self)@.channels.len(),
            final(self)@ == old(self)@.open_channel(owner, capacity as nat),
    {
        let r = self.channels.len();
        self.channels.push(DeliveryChannel::new(owner, capacity));
        assert(self@.channels =~= old(self)@.open_channel(owner, capacity as nat).channels);
        r
    }

    pub fn channel_count(&self) -> (r: usize)
        ensures
            r == self@.channels.len(),
    {
        self.channels.len()
    }

    /// The user whose session `sink` was opened for, if `sink` exists.
    pub fn sink_owner(&self, sink: usize) -> (r: Option<u128>)
        ensures
            r == (if sink < self@.channels.len() {
                Some(self@.channels[sink as int].owner)
            } else {
                None
            }),
    {
        if sink < self.channels.len() {
            Some(self.channels[sink].owner())
        } else {
            None
        }
    }

    /// The sink id that `user_id` is currently reached through.
    pub fn session_of(&self, user_id: u128) -> (r: Option<usize>)
        ensures
            r == (if self@.sessions.contains_key(user_id) {
                Some(self@.sessions[user_id])
            } else {
                None
            }),
    {
        match self.sessions.get(&user_id) {
            Some(s) => Some(*s),
            None => None,
        }
    }

    /// Registers `sink` for `user_id`, replacing (not closing) a previous one.
    pub fn register(&mut self, user_id: u128, sink: usize)
        requires
            old(self)@.wf(),
            old(self)@.owns(user_id, sink),
        ensures
            final(self)@.wf(),
            final(self)@ == old(self)@.register(user_id, sink),
    {
        self.sessions.insert(user_id, sink);
        assert forall|u: u128| #[trigger] self@.sessions.contains_key(u) implies self@.owns(
            u,
            self@.sessions[u],
        ) by {
            if u != user_id {
                assert(old(self)@.sessions.contains_key(u));
            }
        }
    }

    /// Removes the entry of `user_id` if there is one; absent users are fine.
    pub fn unregister(&mut self, user_id: u128)
        requires
            old(self)@.wf(),
        ensures
            final(self)@.wf(),
            final(self)@ == old(self)@.unregister(user_id),
    {
        self.sessions.remove(&user_id);
    }

    pub fn connect(&mut self, msg: ConnectUser)
        requires
            old(self)@.wf(),
            old(self)@.owns(msg.user_id, msg.sink),
        ensures
            final(self)@.wf(),
            final(self)@ == old(self)@.register(msg.user_id, msg.sink),
    {
        self.register(msg.user_id, msg.sink);
    }

    pub fn disconnect(&mut self, msg: DisconnectUser)
        requires
            old(self)@.wf(),
        ensures
            final(self)@.wf(),
            final(self)@ == old(self)@.unregister(msg.user_id),
    {
        self.unregister(msg.user_id);
    }

    /// Delivers `message` to the session of `user_id`; an offline user, or a
    /// full or closed channel, drops it silently.
    pub fn send_message_to_user(&mut self, user_id: u128, message: String)
        requires
            old(self)@.wf(),
        ensures
            final(self)@.wf(),
            final(self)@ == old(self)@.route_to_user(user_id, message),
    {
        match self.sessions.get(&user_id) {
            Some(s) => {
                let s = *s;
                let ghost before = self@;
                assert(before.sessions.contains_key(user_id));
                assert(before.owns(user_id, s));
                assert(before.channels[s as int].wf());
                let mut c = self.channels.remove(s);
                assert(c@ == before.channels[s as int]);
                let _ = c.send(message);
                self.channels.insert(s, c);
                assert(self@.channels =~= before.route_to_user(user_id, message).channels);
            },
            None => {},
        }
    }

    /// Delivers `message` once to every registered session.
    pub fn broadcast(&mut self, message: String)
        requires
            old(self)@.wf(),
        ensures
            final(self)@.wf(),
            final(self)@ == old(self)@.broadcast(message),
    {
        let ghost start = self@;
        let n = self.channels.len();
        let mut i: usize = 0;
        while i < n
            invariant
                0 <= i <= n,
                n == start.channels.len(),
                self@.sessions == start.sessions,
                self@.channels.len() == n,
                start.wf(),
                forall|j: int|
                    0 <= j < i ==> #[trigger] self@.channels[j] == start.broadcast(
                        message,
                    ).channels[j],
                forall|j: int| i <= j < n ==> #[trigger] self@.channels[j] == start.channels[j],
            decreases n - i,
        {
            let owner = self.channels[i].owner();
            let registered = match self.sessions.get(&owner) {
                Some(s) => *s == i,
                None => false,
            };
            if registered {
                let ghost before = self@;
                assert(before.channels[i as int].wf());
                let mut c = self.channels.remove(i);
                assert(c@ == before.channels[i as int]);
                assert(start.receives(i as int));
                let _ = c.send(message.clone());
                self.channels.insert(i, c);
                assert(self@.channels =~= before.channels.update(
                    i as int,
                    start.broadcast(message).channels[i as int],
                ));
            }
            i = i + 1;
        }
        assert(self@.channels =~= start.broadcast(message).channels);
    }

    pub fn handle_user_message(&mut self, msg: UserMessage)
        requires
            old(self)@.wf(),
        ensures
            final(self)@.wf(),
            final(self)@ == old(self)@.route_to_user(msg.user_id, msg.message),
    {
        self.send_message_to_user(msg.user_id, msg.message);
    }

    pub fn handle_broadcast(&mut self, msg: BroadcastMessage)
        requires
            old(self)@.wf(),
        ensures
            final(self)@.wf(),
            final(self)@ == old(self)@.broadcast(msg.0),
    {
        self.broadcast(msg.0);
    }

    /// Takes the oldest payload waiting on `sink`.
    pub fn take_outbound(&mut self, sink: usize) -> (r: Option<String>)
        requires
            old(self)@.wf(),
            sink < old(self)@.channels.len(),
        ensures
            final(self)@.wf(),
            final(self)@ == old(self)@.take(sink),
            r == (if old(self)@.channels[sink as int].pending.len() > 0 {
                Some(old(self)@.channels[sink as int].pending[0])
            } else {
                None
            }),
    {
        let ghost before = self@;
        assert(before.channels[sink as int].wf());
        let mut c = self.channels.remove(sink);
        assert(c@ == before.channels[sink as int]);
        let r = c.recv();
        self.channels.insert(sink, c);
        assert(self@.channels =~= before.take(sink).channels);
        r
    }

    /// Tears down `sink`: what is pending is discarded, later sends are dropped.
    pub fn close_channel(&mut self, sink: usize)
        requires
            old(self)@.wf(),
            sink < old(self)@.channels.len(),
        ensures
            final(self)@.wf(),
            final(self)@ == old(self)@.close_channel(sink),
    {
        let ghost before = self@;
        assert(before.channels[sink as int].wf());
        let mut c = self.channels.remove(sink);
        assert(c@ == before.channels[sink as int]);
        c.close();
        self.channels.insert(sink, c);
        assert(self@.channels =~= before.close_channel(sink).channels);
    }
}

} // verus!
