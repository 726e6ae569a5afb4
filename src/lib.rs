//! Call marshaling for a remote network stack: each socket call writes its
//! arguments into a bounded buffer, names the framing header it is sent
//! with, and decodes its reply from bytes that may arrive in pieces.
pub mod buffer;
pub mod calls;
pub mod header;
pub mod laws;
pub mod matcher;
pub mod records;
pub mod reply;
pub mod wire;

pub use calls::{
    request_frame, Close, Connect, Fcntl, GethostbynameAddrtype, Getsockopt, Recv, Rpc, Select,
    Send, Socket,
};
pub use header::{CallError, Header, LwipRequest, MsgType, Service};
pub use records::{FdSet, SockaddrIn, TimeVal};
