//! Properties of the codecs that hold across calls: replies decode to what
//! they were built from, foreign frames are left alone, and a reply's
//! outcome does not depend on how its bytes were chunked.
use crate::header::{
    answers, header_bytes, header_of, request_tag, CallError, Header, LwipRequest, MsgType, Service,
};
use crate::records::SockaddrIn;
use crate::reply::{host_reply, optional_at, recv_reply, reply_header, status_reply};
use crate::wire::{
    i32_at, i32_bytes, lemma_i32_round_trip, lemma_u16_round_trip, lemma_u32_round_trip, optional,
    sized, u16_at, u16_bytes, u32_at, u32_bytes,
};
use vstd::prelude::*;

verus! {

/// The header of a reply to `request` with sequence `seq`.
pub open spec fn reply_for(seq: u32, request: LwipRequest) -> Header {
    Header {
        sequence: seq,
        msg_type: MsgType::Reply,
        service: Service::Lwip,
        request: request_tag(request),
    }
}

/// A reply frame whose body is the return value `ret`.
pub open spec fn status_frame(seq: u32, request: LwipRequest, ret: i32) -> Seq<u8> {
    header_bytes(reply_for(seq, request)) + i32_bytes(ret)
}

/// A receive reply frame carrying `payload` and the return value `ret`.
pub open spec fn recv_frame(seq: u32, payload: Seq<u8>, ret: i32) -> Seq<u8> {
    header_bytes(reply_for(seq, LwipRequest::Recv)) + sized(payload) + i32_bytes(ret)
}

/// A host lookup reply frame carrying address `a` and status `status`.
pub open spec fn host_frame(seq: u32, count: u32, a: SockaddrIn, status: i8) -> Seq<u8> {
    header_bytes(reply_for(seq, LwipRequest::GethostbynameAddrtype)) + u32_bytes(count) + seq![
        a.sin_len,
        a.sin_family,
    ] + u16_bytes(a.sin_port) + u32_bytes(a.sin_addr) + seq![status as u8]
}

proof fn lemma_u16_inside(pre: Seq<u8>, x: u16, post: Seq<u8>)
    ensures
        u16_at(pre + u16_bytes(x) + post, pre.len() as int) == x,
{
    let s = pre + u16_bytes(x) + post;
    let i = pre.len() as int;
    lemma_u16_round_trip(x);
    assert(s[i] == u16_bytes(x)[0]);
    assert(s[i + 1] == u16_bytes(x)[1]);
}

proof fn lemma_u32_inside(pre: Seq<u8>, x: u32, post: Seq<u8>)
    ensures
        u32_at(pre + u32_bytes(x) + post, pre.len() as int) == x,
{
    let s = pre + u32_bytes(x) + post;
    let i = pre.len() as int;
    lemma_u32_round_trip(x);
    assert(s[i] == u32_bytes(x)[0]);
    assert(s[i + 1] == u32_bytes(x)[1]);
    assert(s[i + 2] == u32_bytes(x)[2]);
    assert(s[i + 3] == u32_bytes(x)[3]);
}

proof fn lemma_i32_inside(pre: Seq<u8>, x: i32, post: Seq<u8>)
    ensures
        i32_at(pre + i32_bytes(x) + post, pre.len() as int) == x,
{
    lemma_u32_inside(pre, x as u32, post);
    lemma_i32_round_trip(x);
}

/// A header reads back as the header it was written from, whatever follows it.
pub proof fn lemma_header_round_trip(h: Header, rest: Seq<u8>)
    ensures
        header_of(header_bytes(h) + rest) == Ok::<Header, CallError>(h),
{
    let s = header_bytes(h) + rest;
    lemma_u32_inside(Seq::empty(), h.sequence, seq![s[4], s[5], s[6]] + rest);
    assert(s == Seq::<u8>::empty() + u32_bytes(h.sequence) + (seq![s[4], s[5], s[6]] + rest));
}

/// A reply built from a return value decodes to that value.
pub proof fn lemma_status_round_trip(seq: u32, request: LwipRequest, ret: i32)
    ensures
        status_reply(status_frame(seq, request, ret), request) == Ok::<i32, CallError>(ret),
{
    let h = reply_for(seq, request);
    lemma_header_round_trip(h, i32_bytes(ret));
    lemma_i32_inside(header_bytes(h), ret, Seq::empty());
    assert(status_frame(seq, request, ret) == header_bytes(h) + i32_bytes(ret) + Seq::<u8>::empty());
}

/// A receive reply built from a payload that fits the free room decodes to
/// that payload and return value.
pub proof fn lemma_recv_round_trip(seq: u32, payload: Seq<u8>, ret: i32, room: int)
    requires
        payload.len() <= room,
        payload.len() <= u32::MAX,
    ensures
        recv_reply(recv_frame(seq, payload, ret), room) == Ok::<(Seq<u8>, i32), CallError>(
            (payload, ret),
        ),
{
    let h = reply_for(seq, LwipRequest::Recv);
    let hb = header_bytes(h);
    let cnt = u32_bytes(payload.len() as u32);
    let f = recv_frame(seq, payload, ret);
    lemma_header_round_trip(h, sized(payload) + i32_bytes(ret));
    assert(f == hb + (sized(payload) + i32_bytes(ret)));
    lemma_u32_inside(hb, payload.len() as u32, payload + i32_bytes(ret));
    assert(f == hb + cnt + (payload + i32_bytes(ret)));
    lemma_i32_inside(hb + cnt + payload, ret, Seq::empty());
    assert(f == hb + cnt + payload + i32_bytes(ret) + Seq::<u8>::empty());
    assert(f.subrange(11, 11 + payload.len() as int) == payload);
}

/// A host lookup reply decodes to the address and status it was built from.
pub proof fn lemma_host_round_trip(seq: u32, count: u32, a: SockaddrIn, status: i8)
    ensures
        host_reply(host_frame(seq, count, a, status)) == Ok::<(SockaddrIn, i8), CallError>(
            (a, status),
        ),
{
    let h = reply_for(seq, LwipRequest::GethostbynameAddrtype);
    let hb = header_bytes(h);
    let f = host_frame(seq, count, a, status);
    let body = u32_bytes(count) + seq![a.sin_len, a.sin_family] + u16_bytes(a.sin_port)
        + u32_bytes(a.sin_addr) + seq![status as u8];
    assert(f == hb + body);
    lemma_header_round_trip(h, body);
    let pre16 = hb + u32_bytes(count) + seq![a.sin_len, a.sin_family];
    lemma_u16_inside(pre16, a.sin_port, u32_bytes(a.sin_addr) + seq![status as u8]);
    assert(f == pre16 + u16_bytes(a.sin_port) + (u32_bytes(a.sin_addr) + seq![status as u8]));
    let pre32 = pre16 + u16_bytes(a.sin_port);
    lemma_u32_inside(pre32, a.sin_addr, seq![status as u8]);
    assert(f == pre32 + u32_bytes(a.sin_addr) + seq![status as u8]);
    assert(f[19] == status as u8);
    assert(((status as u8) as i8) == status) by (bit_vector);
}

/// A frame whose header reads but names another kind, service or request is
/// left for other invocations: every decoder answers `NotOurs`.
pub proof fn lemma_foreign_frame(data: Seq<u8>, request: LwipRequest, room: int)
    requires
        header_of(data) is Ok,
        !answers(header_of(data)->Ok_0, request),
    ensures
        status_reply(data, request) == Err::<i32, CallError>(CallError::NotOurs),
        request == LwipRequest::Recv ==> recv_reply(data, room) == Err::<(Seq<u8>, i32), CallError>(
            CallError::NotOurs,
        ),
        request == LwipRequest::GethostbynameAddrtype ==> host_reply(data) == Err::<
            (SockaddrIn, i8),
            CallError,
        >(CallError::NotOurs),
{
}

proof fn lemma_header_prefix(data: Seq<u8>, request: LwipRequest, k: int)
    requires
        0 <= k <= data.len(),
    ensures
        reply_header(data.subrange(0, k), request) == Err::<Header, CallError>(
            CallError::Incomplete,
        ) || reply_header(data.subrange(0, k), request) == reply_header(data, request),
{
    let p = data.subrange(0, k);
    if k >= 7 {
        assert(p[0] == data[0] && p[1] == data[1] && p[2] == data[2] && p[3] == data[3]);
        assert(p[4] == data[4] && p[5] == data[5] && p[6] == data[6]);
    }
}

/// Cutting a status reply anywhere gives either `Incomplete` or the outcome
/// of the whole reply, so feeding it in chunks ends as feeding it at once.
pub proof fn lemma_status_chunking(data: Seq<u8>, request: LwipRequest, k: int)
    requires
        0 <= k <= data.len(),
    ensures
        status_reply(data.subrange(0, k), request) == Err::<i32, CallError>(CallError::Incomplete)
            || status_reply(data.subrange(0, k), request) == status_reply(data, request),
{
    lemma_header_prefix(data, request, k);
    let p = data.subrange(0, k);
    if k >= 11 {
        assert(p[7] == data[7] && p[8] == data[8] && p[9] == data[9] && p[10] == data[10]);
    }
}

/// Cutting a receive reply anywhere gives either `Incomplete` or the outcome
/// of the whole reply, so feeding it in chunks ends as feeding it at once.
pub proof fn lemma_recv_chunking(data: Seq<u8>, room: int, k: int)
    requires
        0 <= k <= data.len(),
    ensures
        recv_reply(data.subrange(0, k), room) == Err::<(Seq<u8>, i32), CallError>(
            CallError::Incomplete,
        ) || recv_reply(data.subrange(0, k), room) == recv_reply(data, room),
{
    lemma_header_prefix(data, LwipRequest::Recv, k);
    let p = data.subrange(0, k);
    if k >= 11 {
        assert(p[7] == data[7] && p[8] == data[8] && p[9] == data[9] && p[10] == data[10]);
        let n = u32_at(data, 7) as int;
        if k >= 11 + n + 4 {
            let e = 11 + n;
            assert(p[e] == data[e] && p[e + 1] == data[e + 1] && p[e + 2] == data[e + 2] && p[e
                + 3] == data[e + 3]);
            assert(p.subrange(11, e) == data.subrange(11, e));
        }
    }
}

/// Cutting a host lookup reply anywhere gives either `Incomplete` or the
/// outcome of the whole reply, so feeding it in chunks ends as feeding it at once.
pub proof fn lemma_host_chunking(data: Seq<u8>, k: int)
    requires
        0 <= k <= data.len(),
    ensures
        host_reply(data.subrange(0, k)) == Err::<(SockaddrIn, i8), CallError>(
            CallError::Incomplete,
        ) || host_reply(data.subrange(0, k)) == host_reply(data),
{
    lemma_header_prefix(data, LwipRequest::GethostbynameAddrtype, k);
    let p = data.subrange(0, k);
    if k >= 20 {
        assert(p[11] == data[11] && p[12] == data[12] && p[13] == data[13] && p[14] == data[14]);
        assert(p[15] == data[15] && p[16] == data[16] && p[17] == data[17] && p[18] == data[18]);
        assert(p[19] == data[19]);
    }
}

/// A receive reply that announces more bytes than the storage has room for
/// is `BufferFull`, decided before any payload byte is needed.
pub proof fn lemma_recv_overflow(data: Seq<u8>, room: int)
    requires
        reply_header(data, LwipRequest::Recv) is Ok,
        data.len() >= 11,
        u32_at(data, 7) > room,
    ensures
        recv_reply(data, room) == Err::<(Seq<u8>, i32), CallError>(CallError::BufferFull),
{
}

/// An absent optional field is the single flag byte, and reading it back
/// gives `None` and moves past that byte only.
pub proof fn lemma_absent_field(rest: Seq<u8>)
    ensures
        optional(None) == seq![1u8],
        optional_at(optional(None) + rest, 0) == Ok::<(Option<Seq<u8>>, int), CallError>(
            (None, 1),
        ),
{
    assert((optional(None) + rest)[0] == 1u8);
}

/// A present optional field reads back as its payload, and reading moves
/// past exactly the flag, the count and the payload.
pub proof fn lemma_present_field(payload: Seq<u8>, rest: Seq<u8>)
    requires
        payload.len() <= u32::MAX,
    ensures
        optional_at(optional(Some(sized(payload))) + rest, 0) == Ok::<
            (Option<Seq<u8>>, int),
            CallError,
        >((Some(payload), 5 + payload.len() as int)),
{
    let f = optional(Some(sized(payload))) + rest;
    let cnt = u32_bytes(payload.len() as u32);
    assert(f == seq![0u8] + cnt + (payload + rest));
    lemma_u32_inside(seq![0u8], payload.len() as u32, payload + rest);
    assert(f.subrange(5, 5 + payload.len() as int) == payload);
}

} // verus!
