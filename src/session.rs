use vstd::prelude::*;
use vstd::string::*;

use crate::channel::DEFAULT_CHANNEL_CAPACITY;
use crate::server::{RegistryView, WsServer};

verus! {

/// Where a session is in its life. `Closed` is terminal.
#[derive(Debug, Clone, Copy, PartialEq, Eq, Structural)]
pub enum SessionState {
    Connecting,
    Active,
    Closing,
    Closed,
}

/// An inbound WebSocket frame, or the failure to read one.
#[derive(Debug, Clone, PartialEq, Eq)]
pub enum Frame {
    Text(String),
    Binary(Vec<u8>),
    Ping(Vec<u8>),
    Pong(Vec<u8>),
    Close,
    ProtocolError,
}

/// What the session writes back on the wire in answer to a frame.
#[derive(Debug, Clone, PartialEq, Eq)]
pub enum Reply {
    Nothing,
    Text(String),
    Pong(Vec<u8>),
    Close,
}

/// The text written back for an inbound text frame.
pub open spec fn echo_of(text: Seq<char>) -> Seq<char> {
    "Echo: "@ + text
}

/// The reply a session in `state` owes to `frame`, and the state it moves to.
pub open spec fn frame_step(state: SessionState, frame: Frame) -> (SessionState, Reply) {
    if state != SessionState::Active {
        (state, Reply::Nothing)
    } else {
        match frame {
            Frame::Ping(p) => (state, Reply::Pong(p)),
            Frame::Close => (SessionState::Closing, Reply::Close),
            Frame::ProtocolError => (SessionState::Closing, Reply::Close),
            _ => (state, Reply::Nothing),
        }
    }
}

/// One live WebSocket connection bound to a user: it registers its delivery
/// channel when it starts, answers inbound frames, writes out what the
/// registry queued for it, and unregisters exactly once when it stops.
pub struct WsSession {
    user_id: u128,
    sink: usize,
    state: SessionState,
}

impl WsSession {
    pub closed spec fn spec_user_id(&self) -> u128 {
        self.user_id
    }

    pub closed spec fn spec_sink(&self) -> usize {
        self.sink
    }

    pub closed spec fn spec_state(&self) -> SessionState {
        self.state
    }

    /// The session's channel belongs to the registry `r`.
    pub open spec fn bound_to(&self, r: RegistryView) -> bool {
        r.owns(self.spec_user_id(), self.spec_sink())
    }

    /// A session for `user_id`, whose identity the caller has established,
    /// with a fresh delivery channel opened in `server`.
    pub fn new(server: &mut WsServer, user_id: u128) -> (r: WsSession)
        requires
            old(server)@.wf(),
            old(server)@.channels.len() < usize::MAX,
        ensures
            final(server)@.wf(),
            final(server)@ == old(server)@.open_channel(
                user_id,
                DEFAULT_CHANNEL_CAPACITY as nat,
            ),
            r.spec_user_id() == user_id,
            r.spec_sink() == old(server)@.channels.len(),
            r.spec_state() == SessionState::Connecting,
            r.bound_to(final(server)@),
    {
        let sink = server.open_channel(user_id, DEFAULT_CHANNEL_CAPACITY);
        WsSession { user_id, sink, state: SessionState::Connecting }
    }

    pub fn user_id(&self) -> (r: u128)
        ensures
            r == self.spec_user_id(),
    {
        self.user_id
    }

    pub fn sink(&self) -> (r: usize)
        ensures
            r == self.spec_sink(),
    {
        self.sink
    }

    pub fn state(&self) -> (r: SessionState)
        ensures
            r == self.spec_state(),
    {
        self.state
    }

    /// The connection is upgraded: the session becomes active and registers
    /// its channel for its user. Does nothing in any other state.
    pub fn started(&mut self, server: &mut WsServer)
        requires
            old(server)@.wf(),
            old(self).bound_to(old(server)@),
        ensures
            final(server)@.wf(),
            final(self).spec_user_id() == old(self).spec_user_id(),
            final(self).spec_sink() == old(self).spec_sink(),
            final(self).bound_to(final(server)@),
            old(self).spec_state() == SessionState::Connecting ==> {
                &&& final(self).spec_state() == SessionState::Active
                &&& final(server)@ == old(server)@.register(
                    old(self).spec_user_id(),
                    old(self).spec_sink(),
                )
            },
            old(self).spec_state() != SessionState::Connecting ==> {
                &&& final(self).spec_state() == old(self).spec_state()
                &&& final(server)@ == old(server)@
            },
    {
        if self.state == SessionState::Connecting {
            server.register(self.user_id, self.sink);
            self.state = SessionState::Active;
        }
    }

    /// Answers one inbound frame: a ping with a pong carrying the same bytes,
    /// text with its echo, a close or a protocol error by starting to close.
    /// Frames that reach a session that is not active are ignored.
    pub fn handle(&mut self, frame: Frame) -> (r: Reply)
        ensures
            final(self).spec_user_id() == old(self).spec_user_id(),
            final(self).spec_sink() == old(self).spec_sink(),
            match frame {
                Frame::Text(t) => old(self).spec_state() == SessionState::Active ==> {
                    &&& final(self).spec_state() == SessionState::Active
                    &&& r matches Reply::Text(e) && e@ == echo_of(t@)
                },
                _ => true,
            },
            !(frame is Text && old(self).spec_state() == SessionState::Active) ==> (
            final(self).spec_state(), r) == frame_step(old(self).spec_state(), frame),
    {
        if self.state != SessionState::Active {
            return Reply::Nothing;
        }
        match frame {
            Frame::Ping(p) => Reply::Pong(p),
            Frame::Text(t) => {
                let mut e = "Echo: ".to_owned();
                e.append(t.as_str());
                Reply::Text(e)
            },
            Frame::Close => {
                self.state = SessionState::Closing;
                Reply::Close
            },
            Frame::ProtocolError => {
                self.state = SessionState::Closing;
                Reply::Close
            },
            _ => Reply::Nothing,
        }
    }

    /// The next payload to write on the wire, oldest first, while active.
    pub fn next_outbound(&mut self, server: &mut WsServer) -> (r: Option<String>)
        requires
            old(server)@.wf(),
            old(self).bound_to(old(server)@),
        ensures
            final(server)@.wf(),
            *final(self) == *old(self),
            final(self).bound_to(final(server)@),
            old(self).spec_state() == SessionState::Active ==> {
                let q = old(server)@.channels[old(self).spec_sink() as int].pending;
                &&& final(server)@ == old(server)@.take(old(self).spec_sink())
                &&& r == (if q.len() > 0 {
                    Some(q[0])
                } else {
                    None
                })
            },
            old(self).spec_state() != SessionState::Active ==> {
                &&& final(server)@ == old(server)@
                &&& r is None
            },
    {
        if self.state == SessionState::Active {
            server.take_outbound(self.sink)
        } else {
            None
        }
    }

    /// Writing to the wire failed: an active session starts to close.
    pub fn write_failed(&mut self)
        ensures
            final(self).spec_user_id() == old(self).spec_user_id(),
            final(self).spec_sink() == old(self).spec_sink(),
            final(self).spec_state() == (if old(self).spec_state() == SessionState::Active {
                SessionState::Closing
            } else {
                old(self).spec_state()
            }),
    {
        if self.state == SessionState::Active {
            self.state = SessionState::Closing;
        }
    }

    /// Every termination path ends here: the first call unregisters the
    /// user, tears down the channel and closes the session; later calls do
    /// nothing.
    pub fn stopping(&mut self, server: &mut WsServer)
        requires
            old(server)@.wf(),
            old(self).bound_to(old(server)@),
        ensures
            final(server)@.wf(),
            final(self).spec_user_id() == old(self).spec_user_id(),
            final(self).spec_sink() == old(self).spec_sink(),
            final(self).spec_state() == SessionState::Closed,
            final(self).bound_to(final(server)@),
            old(self).spec_state() != SessionState::Closed ==> final(server)@ == old(
                server,
            )@.unregister(old(self).spec_user_id()).close_channel(old(self).spec_sink()),
            old(self).spec_state() == SessionState::Closed ==> final(server)@ == old(server)@,
    {
        if self.state != SessionState::Closed {
            server.unregister(self.user_id);
            server.close_channel(self.sink);
            self.state = SessionState::Closed;
        }
    }
}

} // verus!
