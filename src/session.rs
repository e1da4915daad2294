//! The decisions of a game session: registering with the world, routing
//! inbound packets, framing outbound events, and what each wake-up of the
//! running loop leads to. The caller performs the socket and channel work.
use vstd::prelude::*;
use crate::frame::{body_len, decode_header, frame_packet, le_u16_value, framed, FrameError, HEADER_LEN, MAX_FRAME_LEN};
use crate::opcode::{Opcode, OpcodeTable};
use crate::user::ConnectionId;
use std::sync::Arc;

verus! {

/// Where an event goes.
#[derive(Clone, Copy, Debug, PartialEq, Eq, Structural)]
pub enum EventTarget {
    Global,
    Local,
    Connection,
}

#[derive(Clone, Copy, Debug, PartialEq, Eq, Structural)]
pub enum SessionError {
    Io,
    ConnectionClosed,
    MalformedPacket,
    NoEventMappingForPacket,
    OversizePacket,
    UnknownReverseOpcode,
    WrongEventReceived,
    EntityNotSet,
    NoSenderResponseChannel,
    NoSenderWaitingConnectionEntity,
}

/// A request for the world, built from a client packet.
pub struct Request {
    pub connection_id: ConnectionId,
    pub opcode: Opcode,
    pub data: Vec<u8>,
}

/// An event that the world sends to a session.
pub enum WorldEvent {
    ResponseRegisterConnection { connection: Option<ConnectionId> },
    ResponseDropConnection,
    /// A server packet, its body already encoded.
    Response { opcode: Opcode, data: Vec<u8> },
}

/// The target of the request that a client packet becomes, or `None` where
/// the message has no event yet.
pub open spec fn request_target(o: Opcode) -> Option<EventTarget> {
    match o {
        Opcode::C_CHECK_VERSION => Some(EventTarget::Global),
        Opcode::C_LOGIN_ARBITER => Some(EventTarget::Global),
        Opcode::C_GET_USER_LIST => Some(EventTarget::Global),
        Opcode::C_CAN_CREATE_USER => Some(EventTarget::Global),
        Opcode::C_CHECK_USER_NAME => Some(EventTarget::Global),
        _ => None,
    }
}

pub fn event_target(o: Opcode) -> (r: Option<EventTarget>)
    ensures
        r == request_target(o),
{
    match o {
        Opcode::C_CHECK_VERSION => Some(EventTarget::Global),
        Opcode::C_LOGIN_ARBITER => Some(EventTarget::Global),
        Opcode::C_GET_USER_LIST => Some(EventTarget::Global),
        Opcode::C_CAN_CREATE_USER => Some(EventTarget::Global),
        Opcode::C_CHECK_USER_NAME => Some(EventTarget::Global),
        _ => None,
    }
}

/// The registration's outcome for the world's answer `message`.
pub open spec fn parse_connection_spec(message: Option<WorldEvent>) -> Result<ConnectionId, SessionError> {
    match message {
        None => Err(SessionError::NoSenderWaitingConnectionEntity),
        Some(WorldEvent::ResponseRegisterConnection { connection: Some(id) }) => Ok(id),
        Some(WorldEvent::ResponseRegisterConnection { connection: None }) => Err(SessionError::EntityNotSet),
        Some(_) => Err(SessionError::WrongEventReceived),
    }
}

/// The connection that the world assigned, from its answer to the
/// registration.
pub fn parse_connection(message: Option<WorldEvent>) -> (r: Result<ConnectionId, SessionError>)
    ensures
        r == parse_connection_spec(message),
{
    match message {
        Some(event) => match event {
            WorldEvent::ResponseRegisterConnection { connection } => match connection {
                Some(id) => Ok(id),
                None => Err(SessionError::EntityNotSet),
            },
            _ => Err(SessionError::WrongEventReceived),
        },
        None => Err(SessionError::NoSenderWaitingConnectionEntity),
    }
}

/// What becomes of a client packet.
pub enum Inbound {
    /// Sent to the global world.
    Global(Request),
    /// Meant for an instance world, which does not exist yet: discarded.
    Local(Request),
    /// A request cannot target a connection: discarded as an error.
    Misrouted(Request),
    /// No message has this wire value: discarded with a warning.
    Unmapped(u16),
    /// The message has no event yet: discarded with a warning.
    NoEventMapping(Opcode),
}

/// `r` is what becomes of a client packet `(w, data)` on `connection_id`.
pub open spec fn inbound_spec(
    table: OpcodeTable,
    connection_id: ConnectionId,
    w: u16,
    data: Seq<u8>,
    r: Inbound,
) -> bool {
    let o = table.lookup(w as int);
    if o == Opcode::UNKNOWN {
        r == Inbound::Unmapped(w)
    } else {
        match request_target(o) {
            None => r == Inbound::NoEventMapping(o),
            Some(t) => {
                let ok = |q: Request| q.connection_id == connection_id && q.opcode == o && q.data@ == data;
                match t {
                    EventTarget::Global => r matches Inbound::Global(q) && ok(q),
                    EventTarget::Local => r matches Inbound::Local(q) && ok(q),
                    EventTarget::Connection => r matches Inbound::Misrouted(q) && ok(q),
                }
            },
        }
    }
}

/// Turns a deciphered client packet into a request and picks its route.
pub fn handle_packet(table: &OpcodeTable, connection_id: ConnectionId, w: u16, data: Vec<u8>) -> (r: Inbound)
    requires
        table.wf(),
    ensures
        inbound_spec(*table, connection_id, w, data@, r),
{
    let o = table.get(w);
    if o == Opcode::UNKNOWN {
        return Inbound::Unmapped(w);
    }
    match event_target(o) {
        None => Inbound::NoEventMapping(o),
        Some(t) => {
            let q = Request { connection_id, opcode: o, data };
            match t {
                EventTarget::Global => Inbound::Global(q),
                EventTarget::Local => Inbound::Local(q),
                EventTarget::Connection => Inbound::Misrouted(q),
            }
        },
    }
}

/// What becomes of an event from the world.
pub enum Outbound {
    /// A frame to encipher and write.
    Send(Vec<u8>),
    /// The packet is dropped with an error; the session goes on.
    Dropped(FrameError),
    /// The event carries no packet; the session goes on.
    Ignored,
    /// The session ends.
    Close(SessionError),
}

/// Decides on an event from the world, or on the channel's end (`None`).
pub fn handle_message(table: &OpcodeTable, message: Option<WorldEvent>) -> (r: Outbound)
    requires
        table.wf(),
    ensures
        message is None ==> r == Outbound::Close(SessionError::NoSenderResponseChannel),
        message matches Some(WorldEvent::ResponseDropConnection) ==> r == Outbound::Close(
            SessionError::ConnectionClosed,
        ),
        message matches Some(WorldEvent::ResponseRegisterConnection { .. }) ==> r == Outbound::Ignored,
        message matches Some(WorldEvent::Response { opcode, data }) ==> {
            match table.reverse_lookup(opcode) {
                None => r == Outbound::Dropped(FrameError::UnknownReverseOpcode),
                Some(w) => if data@.len() + HEADER_LEN > MAX_FRAME_LEN {
                    r == Outbound::Dropped(FrameError::OversizePacket)
                } else {
                    r matches Outbound::Send(f) && f@ == framed(w, data@)
                },
            }
        },
{
    match message {
        None => Outbound::Close(SessionError::NoSenderResponseChannel),
        Some(event) => match event {
            WorldEvent::ResponseDropConnection => Outbound::Close(SessionError::ConnectionClosed),
            WorldEvent::ResponseRegisterConnection { .. } => Outbound::Ignored,
            WorldEvent::Response { opcode, data } => match frame_packet(table, opcode, data) {
                Ok(f) => Outbound::Send(f),
                Err(e) => Outbound::Dropped(e),
            },
        },
    }
}


/// Seconds without any wake-up after which a session ends.
pub const IDLE_TIMEOUT_SECS: u64 = 180;

/// The header's total length is at least the header's own and counts
/// exactly the header and `body`.
pub open spec fn frame_fits(header: Seq<u8>, body: Seq<u8>) -> bool {
    let len = le_u16_value(header[0], header[1]) as int;
    len >= HEADER_LEN && body.len() == len - HEADER_LEN
}

/// Why the running loop of a session woke up.
pub enum Wake {
    /// Nothing happened for `IDLE_TIMEOUT_SECS` seconds.
    IdleTimeout,
    /// The peer closed the stream.
    PeerClosed,
    /// A socket read failed.
    ReadFailed,
    /// A frame came in: its deciphered header and body. A header whose
    /// length is below its own, or does not count the body, ends the
    /// session with `MalformedPacket`.
    Frame { header: [u8; 4], body: Vec<u8> },
    /// The world's channel yielded an event, or ended (`None`).
    Message(Option<WorldEvent>),
}

/// What the running loop does next.
pub enum Step {
    /// Leave the loop; with the error that ended it, if any.
    Exit(Option<SessionError>),
    Inbound(Inbound),
    Outbound(Outbound),
}

/// A registered session: the connection that the world assigned and the
/// shared opcode table.
pub struct GameSession {
    pub connection: ConnectionId,
    pub opcode_table: Arc<OpcodeTable>,
}

impl GameSession {
    pub open spec fn table(&self) -> OpcodeTable {
        *self.opcode_table
    }

    pub open spec fn wf(&self) -> bool {
        self.table().wf()
    }

    /// A session for the connection named in the world's answer to the
    /// registration.
    pub fn new(opcode_table: Arc<OpcodeTable>, message: Option<WorldEvent>) -> (r: Result<
        GameSession,
        SessionError,
    >)
        requires
            (*opcode_table).wf(),
        ensures
            r matches Ok(s) ==> s.wf() && s.table() == *opcode_table && parse_connection_spec(message)
                == Ok::<ConnectionId, SessionError>(s.connection),
            r matches Err(e) ==> Err::<ConnectionId, SessionError>(e) == parse_connection_spec(message),
            r is Ok <==> parse_connection_spec(message) is Ok,
    {
        let connection = parse_connection(message)?;
        Ok(GameSession { connection, opcode_table })
    }

    /// Decides on one wake-up of the running loop.
    pub fn handle_connection(&self, wake: Wake) -> (r: Step)
        requires
            self.wf(),
        ensures
            wake is IdleTimeout ==> r == Step::Exit(None),
            wake is PeerClosed ==> r == Step::Exit(Some(SessionError::ConnectionClosed)),
            wake is ReadFailed ==> r == Step::Exit(Some(SessionError::Io)),
            wake matches Wake::Frame { header, body } ==> !frame_fits(header@, body@) ==> r
                == Step::Exit(Some(SessionError::MalformedPacket)),
            wake matches Wake::Frame { header, body } ==> frame_fits(header@, body@) ==> (r matches Step::Inbound(i)
                && inbound_spec(
                self.table(),
                self.connection,
                le_u16_value(header@[2], header@[3]),
                body@,
                i,
            )),
            wake matches Wake::Message(None) ==> r == Step::Exit(
                Some(SessionError::NoSenderResponseChannel),
            ),
            wake matches Wake::Message(Some(WorldEvent::ResponseDropConnection)) ==> r == Step::Exit(
                Some(SessionError::ConnectionClosed),
            ),
            wake matches Wake::Message(Some(WorldEvent::ResponseRegisterConnection { .. })) ==> r
                == Step::Outbound(Outbound::Ignored),
            wake matches Wake::Message(Some(WorldEvent::Response { opcode, data })) ==> (r matches Step::Outbound(o)
                && match self.table().reverse_lookup(opcode) {
                None => o == Outbound::Dropped(FrameError::UnknownReverseOpcode),
                Some(w) => if data@.len() + HEADER_LEN > MAX_FRAME_LEN {
                    o == Outbound::Dropped(FrameError::OversizePacket)
                } else {
                    o matches Outbound::Send(f) && f@ == framed(w, data@)
                },
            }),
    {
        let table: &OpcodeTable = &self.opcode_table;
        match wake {
            Wake::IdleTimeout => Step::Exit(None),
            Wake::PeerClosed => Step::Exit(Some(SessionError::ConnectionClosed)),
            Wake::ReadFailed => Step::Exit(Some(SessionError::Io)),
            Wake::Frame { header, body } => {
                match body_len(&header) {
                    Ok(n) => {
                        if n != body.len() {
                            return Step::Exit(Some(SessionError::MalformedPacket));
                        }
                    },
                    Err(_) => {
                        return Step::Exit(Some(SessionError::MalformedPacket));
                    },
                }
                let (_, w) = decode_header(&header);
                Step::Inbound(handle_packet(table, self.connection, w, body))
            },
            Wake::Message(m) => match handle_message(table, m) {
                Outbound::Close(e) => Step::Exit(Some(e)),
                o => Step::Outbound(o),
            },
        }
    }
}

} // verus!
