//! The framing header that multiplexes invocations over one transport, and
//! the outcomes of a reply decoding attempt.
use crate::wire::{put_u32, put_u8, take_u32, take_u8, u32_at, u32_bytes};
use vstd::prelude::*;

verus! {

/// Width in bytes of every header: sequence, message kind, service, request.
pub const HEADER_LEN: usize = 7;

/// Kind of a frame.
#[derive(Clone, Copy, Debug, PartialEq, Eq, Structural)]
pub enum MsgType {
    Invocation,
    Oneway,
    Reply,
    Notification,
}

/// Services offered by the remote side.
#[derive(Clone, Copy, Debug, PartialEq, Eq, Structural)]
pub enum Service {
    System,
    Ble,
    Wifi,
    Lwip,
}

/// Requests of the network-stack service.
#[derive(Clone, Copy, Debug, PartialEq, Eq, Structural)]
pub enum LwipRequest {
    Socket,
    Getsockopt,
    Fcntl,
    Connect,
    Close,
    Select,
    Send,
    Recv,
    GethostbynameAddrtype,
}

/// Why a reply could not be taken, or a request could not be written.
#[derive(Clone, Copy, Debug, PartialEq, Eq, Structural)]
pub enum CallError {
    /// More bytes are needed; nothing was consumed.
    Incomplete,
    /// The frame answers some other invocation.
    NotOurs,
    /// The frame is ours, or unreadable, and breaks the wire format.
    Malformed,
    /// The bytes do not fit the bounded buffer they were meant for.
    BufferFull,
}

/// The framing header.
#[derive(Clone, Copy, Debug, PartialEq, Eq, Structural)]
pub struct Header {
    pub sequence: u32,
    pub msg_type: MsgType,
    pub service: Service,
    pub request: u8,
}

pub open spec fn msg_type_tag(m: MsgType) -> u8 {
    match m {
        MsgType::Invocation => 0,
        MsgType::Oneway => 1,
        MsgType::Reply => 2,
        MsgType::Notification => 3,
    }
}

pub open spec fn msg_type_of(t: u8) -> Option<MsgType> {
    if t == 0 {
        Some(MsgType::Invocation)
    } else if t == 1 {
        Some(MsgType::Oneway)
    } else if t == 2 {
        Some(MsgType::Reply)
    } else if t == 3 {
        Some(MsgType::Notification)
    } else {
        None
    }
}

pub open spec fn service_tag(s: Service) -> u8 {
    match s {
        Service::System => 1,
        Service::Ble => 2,
        Service::Wifi => 3,
        Service::Lwip => 4,
    }
}

pub open spec fn service_of(t: u8) -> Option<Service> {
    if t == 1 {
        Some(Service::System)
    } else if t == 2 {
        Some(Service::Ble)
    } else if t == 3 {
        Some(Service::Wifi)
    } else if t == 4 {
        Some(Service::Lwip)
    } else {
        None
    }
}

pub open spec fn request_tag(r: LwipRequest) -> u8 {
    match r {
        LwipRequest::Socket => 1,
        LwipRequest::Getsockopt => 2,
        LwipRequest::Fcntl => 3,
        LwipRequest::Connect => 4,
        LwipRequest::Close => 5,
        LwipRequest::Select => 6,
        LwipRequest::Send => 7,
        LwipRequest::Recv => 8,
        LwipRequest::GethostbynameAddrtype => 9,
    }
}

/// Wire form of a header.
pub open spec fn header_bytes(h: Header) -> Seq<u8> {
    u32_bytes(h.sequence) + seq![msg_type_tag(h.msg_type), service_tag(h.service), h.request]
}

/// Reading a header from the start of a frame.
pub open spec fn header_of(data: Seq<u8>) -> Result<Header, CallError> {
    if data.len() < HEADER_LEN {
        Err(CallError::Incomplete)
    } else {
        match (msg_type_of(data[4]), service_of(data[5])) {
            (Some(m), Some(s)) => Ok(
                Header { sequence: u32_at(data, 0), msg_type: m, service: s, request: data[6] },
            ),
            _ => Err(CallError::Malformed),
        }
    }
}

/// The header an invocation of `request` with sequence `seq` is sent with.
pub open spec fn invocation(seq: u32, request: LwipRequest) -> Header {
    Header {
        sequence: seq,
        msg_type: MsgType::Invocation,
        service: Service::Lwip,
        request: request_tag(request),
    }
}

/// Whether a header belongs to a reply to `request`.
pub open spec fn answers(h: Header, request: LwipRequest) -> bool {
    h.msg_type == MsgType::Reply && h.service == Service::Lwip && h.request == request_tag(request)
}

impl MsgType {
    pub fn tag(&self) -> (r: u8)
        ensures
            r == msg_type_tag(*self),
    {
        match self {
            MsgType::Invocation => 0,
            MsgType::Oneway => 1,
            MsgType::Reply => 2,
            MsgType::Notification => 3,
        }
    }

    pub fn from_tag(t: u8) -> (r: Option<MsgType>)
        ensures
            r == msg_type_of(t),
    {
        if t == 0 {
            Some(MsgType::Invocation)
        } else if t == 1 {
            Some(MsgType::Oneway)
        } else if t == 2 {
            Some(MsgType::Reply)
        } else if t == 3 {
            Some(MsgType::Notification)
        } else {
            None
        }
    }
}

impl Service {
    pub fn tag(&self) -> (r: u8)
        ensures
            r == service_tag(*self),
    {
        match self {
            Service::System => 1,
            Service::Ble => 2,
            Service::Wifi => 3,
            Service::Lwip => 4,
        }
    }

    pub fn from_tag(t: u8) -> (r: Option<Service>)
        ensures
            r == service_of(t),
    {
        if t == 1 {
            Some(Service::System)
        } else if t == 2 {
            Some(Service::Ble)
        } else if t == 3 {
            Some(Service::Wifi)
        } else if t == 4 {
            Some(Service::Lwip)
        } else {
            None
        }
    }
}

impl LwipRequest {
    pub fn id(&self) -> (r: u8)
        ensures
            r == request_tag(*self),
    {
        match self {
            LwipRequest::Socket => 1,
            LwipRequest::Getsockopt => 2,
            LwipRequest::Fcntl => 3,
            LwipRequest::Connect => 4,
            LwipRequest::Close => 5,
            LwipRequest::Select => 6,
            LwipRequest::Send => 7,
            LwipRequest::Recv => 8,
            LwipRequest::GethostbynameAddrtype => 9,
        }
    }
}

impl Header {
    /// The header of an invocation of `request` carrying sequence `seq`.
    pub fn invocation(seq: u32, request: LwipRequest) -> (r: Header)
        ensures
            r == invocation(seq, request),
    {
        Header {
            sequence: seq,
            msg_type: MsgType::Invocation,
            service: Service::Lwip,
            request: request.id(),
        }
    }

    /// Appends the wire form of this header.
    pub fn encode(&self, out: &mut Vec<u8>)
        ensures
            final(out)@ == old(out)@ + header_bytes(*self),
    {
        put_u32(out, self.sequence);
        put_u8(out, self.msg_type.tag());
        put_u8(out, self.service.tag());
        put_u8(out, self.request);
    }

    /// Reads the header at the start of `data`; the body follows at `HEADER_LEN`.
    pub fn parse(data: &[u8]) -> (r: Result<Header, CallError>)
        ensures
            r == header_of(data@),
    {
        if data.len() < HEADER_LEN {
            return Err(CallError::Incomplete);
        }
        let sequence = match take_u32(data, 0) {
            Some(v) => v,
            None => return Err(CallError::Incomplete),
        };
        let m = match take_u8(data, 4) {
            Some(v) => v,
            None => return Err(CallError::Incomplete),
        };
        let s = match take_u8(data, 5) {
            Some(v) => v,
            None => return Err(CallError::Incomplete),
        };
        let request = match take_u8(data, 6) {
            Some(v) => v,
            None => return Err(CallError::Incomplete),
        };
        match (MsgType::from_tag(m), Service::from_tag(s)) {
            (Some(msg_type), Some(service)) => Ok(Header { sequence, msg_type, service, request }),
            _ => Err(CallError::Malformed),
        }
    }

    /// Whether this header belongs to a reply to `request`.
    pub fn answers(&self, request: LwipRequest) -> (r: bool)
        ensures
            r == answers(*self, request),
    {
        self.msg_type == MsgType::Reply && self.service == Service::Lwip && self.request
            == request.id()
    }
}

} // verus!
