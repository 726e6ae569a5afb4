//! The call descriptors of the network-stack service. Each one writes its
//! argument bytes, names the header it is sent with, and decodes its reply.
use crate::buffer::{bulk_bytes, bulk_extend, bulk_slice, control_bytes, control_slice, BulkBuf, ControlBuf};
use crate::header::{header_bytes, invocation, CallError, Header, LwipRequest};
use crate::records::{sockaddr_bytes, timeval_bytes, FdSet, SockaddrIn, TimeVal};
use crate::reply::{
    appended, commit, host_reply, parse_host, parse_recv, parse_status, recv_reply, status_reply,
};
use crate::wire::{i32_bytes, optional, put_i32, put_sized, put_u32, put_u8, sized, u32_bytes};
use vstd::prelude::*;

verus! {

/// What every remote call does: write its arguments, name the header it is
/// sent with, and try to decode its reply from the bytes received so far.
pub trait Rpc: Sized {
    type ReturnValue;

    /// The request this call is sent as.
    spec fn request(&self) -> LwipRequest;

    /// The call's argument bytes, in wire order.
    spec fn arg_bytes(&self) -> Seq<u8>;

    /// Whether decoding `data` may return `r` and leave the call as `after`.
    spec fn parsed(&self, data: Seq<u8>, r: Result<Self::ReturnValue, CallError>, after: Self) -> bool;

    /// Appends the argument bytes to `out`.
    fn encode_args(&self, out: &mut Vec<u8>)
        ensures
            final(out)@ == old(out)@ + self.arg_bytes();

    /// Appends the argument bytes to `buff`, or fails with `BufferFull` and leaves it as it was.
    fn args(&self, buff: &mut ControlBuf) -> (r: Result<(), CallError>)
        ensures
            appended(control_bytes(*old(buff)), control_bytes(*final(buff)), self.arg_bytes(), r),
    {
        let mut out: Vec<u8> = Vec::new();
        self.encode_args(&mut out);
        commit(buff, &out)
    }

    /// The header of this call's invocation with sequence `seq`.
    fn header(&self, seq: u32) -> (r: Header)
        ensures
            r == invocation(seq, self.request());

    /// Tries to decode this call's reply from `data`.
    fn parse(&mut self, data: &[u8]) -> (r: Result<Self::ReturnValue, CallError>)
        ensures
            old(self).parsed(data@, r, *final(self));
}

/// Appends a whole invocation of `call` with sequence `seq` to `buff`: the
/// header, then the arguments; all of it, or nothing and `BufferFull`.
pub fn request_frame<C: Rpc>(call: &C, seq: u32, buff: &mut ControlBuf) -> (r: Result<(), CallError>)
    ensures
        appended(
            control_bytes(*old(buff)),
            control_bytes(*final(buff)),
            header_bytes(invocation(seq, call.request())) + call.arg_bytes(),
            r,
        ),
{
    let mut out: Vec<u8> = Vec::new();
    call.header(seq).encode(&mut out);
    call.encode_args(&mut out);
    commit(buff, &out)
}

/// Opens a socket.
pub struct Socket {
    pub domain: i32,
    pub t: i32,
    pub protocol: i32,
}

impl Rpc for Socket {
    type ReturnValue = i32;

    open spec fn request(&self) -> LwipRequest {
        LwipRequest::Socket
    }

    open spec fn arg_bytes(&self) -> Seq<u8> {
        i32_bytes(self.domain) + i32_bytes(self.t) + i32_bytes(self.protocol)
    }

    open spec fn parsed(&self, data: Seq<u8>, r: Result<i32, CallError>, after: Self) -> bool {
        r == status_reply(data, LwipRequest::Socket) && after == *self
    }

    fn encode_args(&self, out: &mut Vec<u8>) {
        put_i32(out, self.domain);
        put_i32(out, self.t);
        put_i32(out, self.protocol);
    }

    fn header(&self, seq: u32) -> (r: Header) {
        Header::invocation(seq, LwipRequest::Socket)
    }

    fn parse(&mut self, data: &[u8]) -> (r: Result<i32, CallError>) {
        parse_status(data, LwipRequest::Socket)
    }
}

/// Reads a socket option.
pub struct Getsockopt {
    pub s: i32,
    pub level: i32,
    pub optname: i32,
    pub in_optval: ControlBuf,
    pub out_optval: ControlBuf,
    pub optlen: u32,
}

impl Rpc for Getsockopt {
    type ReturnValue = i32;

    open spec fn request(&self) -> LwipRequest {
        LwipRequest::Getsockopt
    }

    open spec fn arg_bytes(&self) -> Seq<u8> {
        i32_bytes(self.s) + i32_bytes(self.level) + i32_bytes(self.optname) + sized(
            control_bytes(self.in_optval),
        ) + u32_bytes(self.optlen)
    }

    open spec fn parsed(&self, data: Seq<u8>, r: Result<i32, CallError>, after: Self) -> bool {
        r == status_reply(data, LwipRequest::Getsockopt) && after == *self
    }

    fn encode_args(&self, out: &mut Vec<u8>) {
        put_i32(out, self.s);
        put_i32(out, self.level);
        put_i32(out, self.optname);
        put_sized(out, control_slice(&self.in_optval));
        put_u32(out, self.optlen);
    }

    fn header(&self, seq: u32) -> (r: Header) {
        Header::invocation(seq, LwipRequest::Getsockopt)
    }

    /// Decodes the return value; the reply carries no option value back.
    fn parse(&mut self, data: &[u8]) -> (r: Result<i32, CallError>) {
        parse_status(data, LwipRequest::Getsockopt)
    }
}

/// Reads or changes descriptor flags.
pub struct Fcntl {
    pub s: i32,
    pub cmd: i32,
    pub val: i32,
}

impl Rpc for Fcntl {
    type ReturnValue = i32;

    open spec fn request(&self) -> LwipRequest {
        LwipRequest::Fcntl
    }

    open spec fn arg_bytes(&self) -> Seq<u8> {
        i32_bytes(self.s) + i32_bytes(self.cmd) + i32_bytes(self.val)
    }

    open spec fn parsed(&self, data: Seq<u8>, r: Result<i32, CallError>, after: Self) -> bool {
        r == status_reply(data, LwipRequest::Fcntl) && after == *self
    }

    fn encode_args(&self, out: &mut Vec<u8>) {
        put_i32(out, self.s);
        put_i32(out, self.cmd);
        put_i32(out, self.val);
    }

    fn header(&self, seq: u32) -> (r: Header) {
        Header::invocation(seq, LwipRequest::Fcntl)
    }

    fn parse(&mut self, data: &[u8]) -> (r: Result<i32, CallError>) {
        parse_status(data, LwipRequest::Fcntl)
    }
}

/// Connects a socket to an IPv4 address.
pub struct Connect {
    pub s: i32,
    pub name: SockaddrIn,
    pub namelen: u32,
}

impl Rpc for Connect {
    type ReturnValue = i32;

    open spec fn request(&self) -> LwipRequest {
        LwipRequest::Connect
    }

    open spec fn arg_bytes(&self) -> Seq<u8> {
        i32_bytes(self.s) + sized(sockaddr_bytes(self.name)) + u32_bytes(self.namelen)
    }

    open spec fn parsed(&self, data: Seq<u8>, r: Result<i32, CallError>, after: Self) -> bool {
        r == status_reply(data, LwipRequest::Connect) && after == *self
    }

    fn encode_args(&self, out: &mut Vec<u8>) {
        put_i32(out, self.s);
        self.name.encode_sized(out);
        put_u32(out, self.namelen);
    }

    fn header(&self, seq: u32) -> (r: Header) {
        Header::invocation(seq, LwipRequest::Connect)
    }

    fn parse(&mut self, data: &[u8]) -> (r: Result<i32, CallError>) {
        parse_status(data, LwipRequest::Connect)
    }
}

/// Closes a socket.
pub struct Close {
    pub s: i32,
}

impl Rpc for Close {
    type ReturnValue = i32;

    open spec fn request(&self) -> LwipRequest {
        LwipRequest::Close
    }

    open spec fn arg_bytes(&self) -> Seq<u8> {
        i32_bytes(self.s)
    }

    open spec fn parsed(&self, data: Seq<u8>, r: Result<i32, CallError>, after: Self) -> bool {
        r == status_reply(data, LwipRequest::Close) && after == *self
    }

    fn encode_args(&self, out: &mut Vec<u8>) {
        put_i32(out, self.s);
    }

    fn header(&self, seq: u32) -> (r: Header) {
        Header::invocation(seq, LwipRequest::Close)
    }

    fn parse(&mut self, data: &[u8]) -> (r: Result<i32, CallError>) {
        parse_status(data, LwipRequest::Close)
    }
}

/// Wire form of an optional descriptor set.
pub open spec fn fdset_field(f: Option<FdSet>) -> Seq<u8> {
    optional(
        match f {
            Some(set) => Some(sized(set.fd_bits@)),
            None => None,
        },
    )
}

/// Wire form of an optional timeout.
pub open spec fn timeval_field(t: Option<TimeVal>) -> Seq<u8> {
    optional(
        match t {
            Some(tv) => Some(sized(timeval_bytes(tv))),
            None => None,
        },
    )
}

/// Appends an optional descriptor set.
pub fn put_fdset_field(out: &mut Vec<u8>, f: &Option<FdSet>)
    ensures
        final(out)@ == old(out)@ + fdset_field(*f),
{
    match f {
        Some(set) => {
            put_u8(out, 0);
            set.encode_sized(out);
        },
        None => put_u8(out, 1),
    }
}

/// Appends an optional timeout.
pub fn put_timeval_field(out: &mut Vec<u8>, t: &Option<TimeVal>)
    ensures
        final(out)@ == old(out)@ + timeval_field(*t),
{
    match t {
        Some(tv) => {
            put_u8(out, 0);
            tv.encode_sized(out);
        },
        None => put_u8(out, 1),
    }
}

/// Waits for readiness on sets of descriptors.
pub struct Select {
    pub s: i32,
    pub readset: Option<FdSet>,
    pub writeset: Option<FdSet>,
    pub exceptset: Option<FdSet>,
    pub timeval: Option<TimeVal>,
}

impl Rpc for Select {
    type ReturnValue = i32;

    open spec fn request(&self) -> LwipRequest {
        LwipRequest::Select
    }

    open spec fn arg_bytes(&self) -> Seq<u8> {
        i32_bytes(self.s) + fdset_field(self.readset) + fdset_field(self.writeset) + fdset_field(
            self.exceptset,
        ) + timeval_field(self.timeval)
    }

    open spec fn parsed(&self, data: Seq<u8>, r: Result<i32, CallError>, after: Self) -> bool {
        r == status_reply(data, LwipRequest::Select) && after == *self
    }

    fn encode_args(&self, out: &mut Vec<u8>) {
        put_i32(out, self.s);
        put_fdset_field(out, &self.readset);
        put_fdset_field(out, &self.writeset);
        put_fdset_field(out, &self.exceptset);
        put_timeval_field(out, &self.timeval);
    }

    fn header(&self, seq: u32) -> (r: Header) {
        Header::invocation(seq, LwipRequest::Select)
    }

    fn parse(&mut self, data: &[u8]) -> (r: Result<i32, CallError>) {
        parse_status(data, LwipRequest::Select)
    }
}

/// Sends a payload on a socket.
pub struct Send {
    pub s: i32,
    pub data: ControlBuf,
    pub flag: i32,
}

impl Rpc for Send {
    type ReturnValue = i32;

    open spec fn request(&self) -> LwipRequest {
        LwipRequest::Send
    }

    open spec fn arg_bytes(&self) -> Seq<u8> {
        i32_bytes(self.s) + sized(control_bytes(self.data)) + i32_bytes(self.flag)
    }

    open spec fn parsed(&self, data: Seq<u8>, r: Result<i32, CallError>, after: Self) -> bool {
        r == status_reply(data, LwipRequest::Send) && after == *self
    }

    fn encode_args(&self, out: &mut Vec<u8>) {
        put_i32(out, self.s);
        put_sized(out, control_slice(&self.data));
        put_i32(out, self.flag);
    }

    fn header(&self, seq: u32) -> (r: Header) {
        Header::invocation(seq, LwipRequest::Send)
    }

    fn parse(&mut self, data: &[u8]) -> (r: Result<i32, CallError>) {
        parse_status(data, LwipRequest::Send)
    }
}

/// Receives from a socket into caller-owned storage.
pub struct Recv<'a> {
    pub s: i32,
    pub mem: &'a mut BulkBuf,
    pub len: u32,
    pub flag: i32,
    pub timeout: u32,
}

impl<'a> Rpc for Recv<'a> {
    type ReturnValue = i32;

    open spec fn request(&self) -> LwipRequest {
        LwipRequest::Recv
    }

    open spec fn arg_bytes(&self) -> Seq<u8> {
        i32_bytes(self.s) + u32_bytes(self.len) + i32_bytes(self.flag) + u32_bytes(self.timeout)
    }

    /// The payload is appended to `mem` on success only; on any failure
    /// `mem` is left as it was.
    open spec fn parsed(&self, data: Seq<u8>, r: Result<i32, CallError>, after: Self) -> bool {
        &&& after.s == self.s && after.len == self.len && after.flag == self.flag
        &&& after.timeout == self.timeout
        &&& match recv_reply(data, 512 - bulk_bytes(*self.mem).len()) {
            Ok((payload, v)) => r == Ok::<i32, CallError>(v) && bulk_bytes(*after.mem)
                == bulk_bytes(*self.mem) + payload,
            Err(e) => r == Err::<i32, CallError>(e) && *after.mem == *self.mem,
        }
    }

    fn encode_args(&self, out: &mut Vec<u8>) {
        put_i32(out, self.s);
        put_u32(out, self.len);
        put_i32(out, self.flag);
        put_u32(out, self.timeout);
    }

    fn header(&self, seq: u32) -> (r: Header) {
        Header::invocation(seq, LwipRequest::Recv)
    }

    fn parse(&mut self, data: &[u8]) -> (r: Result<i32, CallError>) {
        let room = 512 - bulk_slice(self.mem).len();
        let (start, end, v) = parse_recv(data, room)?;
        let _ = bulk_extend(self.mem, vstd::slice::slice_subrange(data, start, end));
        Ok(v)
    }
}

/// Wire form of an optional control payload.
pub open spec fn bytes_field(b: Option<ControlBuf>) -> Seq<u8> {
    optional(
        match b {
            Some(v) => Some(sized(control_bytes(v))),
            None => None,
        },
    )
}

/// Appends an optional control payload.
pub fn put_bytes_field(out: &mut Vec<u8>, b: &Option<ControlBuf>)
    ensures
        final(out)@ == old(out)@ + bytes_field(*b),
{
    match b {
        Some(v) => {
            put_u8(out, 0);
            put_sized(out, control_slice(v));
        },
        None => put_u8(out, 1),
    }
}

/// Resolves a host name into caller-owned address storage.
pub struct GethostbynameAddrtype<'a> {
    pub hostname: ControlBuf,
    pub addr: &'a mut SockaddrIn,
    pub found: u32,
    pub callback_arg: Option<ControlBuf>,
    pub dns_addrtype: u8,
}

impl<'a> Rpc for GethostbynameAddrtype<'a> {
    type ReturnValue = i8;

    open spec fn request(&self) -> LwipRequest {
        LwipRequest::GethostbynameAddrtype
    }

    open spec fn arg_bytes(&self) -> Seq<u8> {
        sized(control_bytes(self.hostname)) + u32_bytes(self.found) + bytes_field(
            self.callback_arg,
        ) + seq![self.dns_addrtype]
    }

    /// The address is written to `addr` on success only; on any failure
    /// `addr` is left as it was.
    open spec fn parsed(&self, data: Seq<u8>, r: Result<i8, CallError>, after: Self) -> bool {
        &&& after.hostname == self.hostname && after.found == self.found
        &&& after.callback_arg == self.callback_arg && after.dns_addrtype == self.dns_addrtype
        &&& match host_reply(data) {
            Ok((a, status)) => r == Ok::<i8, CallError>(status) && *after.addr == a,
            Err(e) => r == Err::<i8, CallError>(e) && *after.addr == *self.addr,
        }
    }

    fn encode_args(&self, out: &mut Vec<u8>) {
        put_sized(out, control_slice(&self.hostname));
        put_u32(out, self.found);
        put_bytes_field(out, &self.callback_arg);
        put_u8(out, self.dns_addrtype);
    }

    fn header(&self, seq: u32) -> (r: Header) {
        Header::invocation(seq, LwipRequest::GethostbynameAddrtype)
    }

    fn parse(&mut self, data: &[u8]) -> (r: Result<i8, CallError>) {
        let (a, status) = parse_host(data)?;
        *self.addr = a;
        Ok(status)
    }
}

} // verus!
