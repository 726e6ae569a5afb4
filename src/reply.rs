//! Reply shapes shared by the calls, and the step that commits a call's
//! argument bytes to the bounded request buffer.
use crate::buffer::{control_bytes, control_extend, ControlBuf};
use crate::header::{answers, header_of, CallError, Header, LwipRequest, HEADER_LEN};
use crate::records::SockaddrIn;
use crate::wire::{i32_at, take_i32, take_i8, take_u16, take_u32, take_u8, u16_at, u32_at};
use vstd::slice::{slice_subrange, slice_to_vec};
use vstd::prelude::*;

verus! {

/// Outcome of appending `bytes` to a bounded buffer that held `before` and
/// afterwards holds `after`: all of it when it fits, otherwise nothing and
/// `BufferFull`.
pub open spec fn appended(
    before: Seq<u8>,
    after: Seq<u8>,
    bytes: Seq<u8>,
    r: Result<(), CallError>,
) -> bool {
    if before.len() + bytes.len() <= 64 {
        r == Ok::<(), CallError>(()) && after == before + bytes
    } else {
        r == Err::<(), CallError>(CallError::BufferFull) && after == before
    }
}

/// The header check every reply goes through: decoded, and addressed to `request`.
pub open spec fn reply_header(data: Seq<u8>, request: LwipRequest) -> Result<Header, CallError> {
    match header_of(data) {
        Err(e) => Err(e),
        Ok(h) => if answers(h, request) {
            Ok(h)
        } else {
            Err(CallError::NotOurs)
        },
    }
}

/// Decoding a reply whose body is one signed 32-bit return value.
pub open spec fn status_reply(data: Seq<u8>, request: LwipRequest) -> Result<i32, CallError> {
    match reply_header(data, request) {
        Err(e) => Err(e),
        Ok(_) => if data.len() < HEADER_LEN + 4 {
            Err(CallError::Incomplete)
        } else {
            Ok(i32_at(data, HEADER_LEN as int))
        },
    }
}

/// Decoding a receive reply into storage with `room` free bytes: a count,
/// that many payload bytes, then the return value. A count above `room` is
/// `BufferFull` as soon as the count is known.
pub open spec fn recv_reply(data: Seq<u8>, room: int) -> Result<(Seq<u8>, i32), CallError> {
    match reply_header(data, LwipRequest::Recv) {
        Err(e) => Err(e),
        Ok(_) => if data.len() < HEADER_LEN + 4 {
            Err(CallError::Incomplete)
        } else if u32_at(data, HEADER_LEN as int) > room {
            Err(CallError::BufferFull)
        } else {
            let n = u32_at(data, HEADER_LEN as int) as int;
            if data.len() < HEADER_LEN + 4 + n + 4 {
                Err(CallError::Incomplete)
            } else {
                Ok(
                    (
                        data.subrange(HEADER_LEN + 4, HEADER_LEN + 4 + n),
                        i32_at(data, HEADER_LEN + 4 + n),
                    ),
                )
            }
        },
    }
}

/// Width of a host lookup reply body: a count, the address fields, a status.
pub const HOST_BODY_LEN: usize = 13;

/// Decoding a host lookup reply: a 4-byte count, the address fields one by
/// one, then a signed 8-bit status.
pub open spec fn host_reply(data: Seq<u8>) -> Result<(SockaddrIn, i8), CallError> {
    match reply_header(data, LwipRequest::GethostbynameAddrtype) {
        Err(e) => Err(e),
        Ok(_) => if data.len() < HEADER_LEN + HOST_BODY_LEN {
            Err(CallError::Incomplete)
        } else {
            Ok(
                (
                    SockaddrIn {
                        sin_len: data[11],
                        sin_family: data[12],
                        sin_port: u16_at(data, 13),
                        sin_addr: u32_at(data, 15),
                    },
                    data[19] as i8,
                ),
            )
        },
    }
}

/// Appends a call's argument bytes to the request buffer, all or nothing.
pub fn commit(buff: &mut ControlBuf, bytes: &Vec<u8>) -> (r: Result<(), CallError>)
    ensures
        appended(control_bytes(*old(buff)), control_bytes(*final(buff)), bytes@, r),
{
    match control_extend(buff, bytes.as_slice()) {
        Ok(()) => Ok(()),
        Err(()) => Err(CallError::BufferFull),
    }
}

/// Decodes and checks the header of a reply to `request`.
pub fn parse_reply_header(data: &[u8], request: LwipRequest) -> (r: Result<Header, CallError>)
    ensures
        r == reply_header(data@, request),
{
    let h = Header::parse(data)?;
    if h.answers(request) {
        Ok(h)
    } else {
        Err(CallError::NotOurs)
    }
}

/// Decodes a reply whose body is one signed 32-bit return value.
pub fn parse_status(data: &[u8], request: LwipRequest) -> (r: Result<i32, CallError>)
    ensures
        r == status_reply(data@, request),
{
    parse_reply_header(data, request)?;
    match take_i32(data, HEADER_LEN) {
        Some(v) => Ok(v),
        None => Err(CallError::Incomplete),
    }
}

/// Decodes a receive reply for storage with `room` free bytes, returning the
/// payload's position in `data` and the return value.
pub fn parse_recv(data: &[u8], room: usize) -> (r: Result<(usize, usize, i32), CallError>)
    ensures
        match recv_reply(data@, room as int) {
            Ok((payload, v)) => r matches Ok((start, end, w)) && start <= end <= data@.len()
                && data@.subrange(start as int, end as int) == payload && w == v,
            Err(e) => r == Err::<(usize, usize, i32), CallError>(e),
        },
{
    parse_reply_header(data, LwipRequest::Recv)?;
    let n = match take_u32(data, HEADER_LEN) {
        Some(v) => v,
        None => return Err(CallError::Incomplete),
    };
    if n as usize > room {
        return Err(CallError::BufferFull);
    }
    let start = HEADER_LEN + 4;
    if data.len() - start < n as usize {
        return Err(CallError::Incomplete);
    }
    let end = start + n as usize;
    match take_i32(data, end) {
        Some(v) => Ok((start, end, v)),
        None => Err(CallError::Incomplete),
    }
}

/// Decodes a host lookup reply.
pub fn parse_host(data: &[u8]) -> (r: Result<(SockaddrIn, i8), CallError>)
    ensures
        r == host_reply(data@),
{
    parse_reply_header(data, LwipRequest::GethostbynameAddrtype)?;
    if data.len() < HEADER_LEN + HOST_BODY_LEN {
        return Err(CallError::Incomplete);
    }
    let sin_len = match take_u8(data, 11) {
        Some(v) => v,
        None => return Err(CallError::Incomplete),
    };
    let sin_family = match take_u8(data, 12) {
        Some(v) => v,
        None => return Err(CallError::Incomplete),
    };
    let sin_port = match take_u16(data, 13) {
        Some(v) => v,
        None => return Err(CallError::Incomplete),
    };
    let sin_addr = match take_u32(data, 15) {
        Some(v) => v,
        None => return Err(CallError::Incomplete),
    };
    let status = match take_i8(data, 19) {
        Some(v) => v,
        None => return Err(CallError::Incomplete),
    };
    Ok((SockaddrIn { sin_len, sin_family, sin_port, sin_addr }, status))
}

/// Reading an optional variable-length field at `at`: the payload, if
/// present, and the position just after the field.
pub open spec fn optional_at(data: Seq<u8>, at: int) -> Result<(Option<Seq<u8>>, int), CallError> {
    if at >= data.len() {
        Err(CallError::Incomplete)
    } else if data[at] == 1 {
        Ok((None, at + 1))
    } else if data[at] != 0 {
        Err(CallError::Malformed)
    } else if data.len() < at + 5 {
        Err(CallError::Incomplete)
    } else {
        let n = u32_at(data, at + 1) as int;
        if data.len() < at + 5 + n {
            Err(CallError::Incomplete)
        } else {
            Ok((Some(data.subrange(at + 5, at + 5 + n)), at + 5 + n))
        }
    }
}

/// Reads an optional variable-length field at `at`.
pub fn parse_optional(data: &[u8], at: usize) -> (r: Result<(Option<Vec<u8>>, usize), CallError>)
    requires
        at <= data@.len(),
    ensures
        match optional_at(data@, at as int) {
            Ok((Some(p), next)) => r matches Ok((Some(v), n)) && v@ == p && n == next,
            Ok((None, next)) => r matches Ok((None, n)) && n == next,
            Err(e) => r == Err::<(Option<Vec<u8>>, usize), CallError>(e),
        },
{
    if at == data.len() {
        return Err(CallError::Incomplete);
    }
    let flag = match take_u8(data, at) {
        Some(f) => f,
        None => return Err(CallError::Incomplete),
    };
    if flag == 1 {
        return Ok((None, at + 1));
    }
    if flag != 0 {
        return Err(CallError::Malformed);
    }
    let n = match take_u32(data, at + 1) {
        Some(v) => v,
        None => return Err(CallError::Incomplete),
    };
    let start = at + 5;
    if data.len() - start < n as usize {
        return Err(CallError::Incomplete);
    }
    let end = start + n as usize;
    let payload = slice_to_vec(slice_subrange(data, start, end));
    Ok((Some(payload), end))
}

} // verus!
