use heapless::Vec as HVec;
use lwip_rpc::matcher::{match_pending, Pending};
use lwip_rpc::reply::parse_optional;
use lwip_rpc::{
    request_frame, CallError, Close, Connect, Fcntl, FdSet, GethostbynameAddrtype, Getsockopt,
    Header, LwipRequest, MsgType, Recv, Rpc, Select, Send, Service, SockaddrIn, Socket, TimeVal,
};

const REPLY: u8 = 2;
const LWIP: u8 = 4;

fn reply_header(seq: u32, request: u8) -> Vec<u8> {
    let mut v = seq.to_le_bytes().to_vec();
    v.push(REPLY);
    v.push(LWIP);
    v.push(request);
    v
}

fn status_frame(seq: u32, request: u8, ret: i32) -> Vec<u8> {
    let mut v = reply_header(seq, request);
    v.extend_from_slice(&ret.to_le_bytes());
    v
}

fn args_of<C: Rpc>(call: &C) -> Vec<u8> {
    let mut buf: HVec<u8, 64> = HVec::new();
    call.args(&mut buf).unwrap();
    buf.as_slice().to_vec()
}

fn control(bytes: &[u8]) -> HVec<u8, 64> {
    HVec::from_slice(bytes).unwrap()
}

#[test]
fn socket_example() {
    let mut call = Socket { domain: 2, t: 1, protocol: 0 };
    assert_eq!(args_of(&call), vec![2, 0, 0, 0, 1, 0, 0, 0, 0, 0, 0, 0]);
    let frame = status_frame(7, LwipRequest::Socket.id(), 3);
    assert_eq!(&frame[7..], &[3, 0, 0, 0]);
    assert_eq!(call.parse(&frame), Ok(3));
}

#[test]
fn close_example() {
    let mut call = Close { s: 5 };
    assert_eq!(args_of(&call), vec![5, 0, 0, 0]);
    let mut frame = reply_header(1, LwipRequest::Close.id());
    frame.extend_from_slice(&[0xFF, 0xFF, 0xFF, 0xFF]);
    assert_eq!(call.parse(&frame), Ok(-1));
}

#[test]
fn address_record_bytes_are_field_by_field() {
    let a = SockaddrIn { sin_len: 16, sin_family: 2, sin_port: 80, sin_addr: 0x0100007F };
    let mut out = Vec::new();
    a.encode(&mut out);
    assert_eq!(
        out,
        vec![16, 2, 80, 0, 0x7F, 0, 0, 1, 0, 0, 0, 0, 0, 0, 0, 0]
    );
}

#[test]
fn connect_args_carry_sized_address() {
    let call = Connect {
        s: 3,
        name: SockaddrIn { sin_len: 16, sin_family: 2, sin_port: 80, sin_addr: 0x0100007F },
        namelen: 16,
    };
    let mut expected = vec![3, 0, 0, 0, 16, 0, 0, 0];
    expected.extend_from_slice(&[16, 2, 80, 0, 0x7F, 0, 0, 1, 0, 0, 0, 0, 0, 0, 0, 0]);
    expected.extend_from_slice(&[16, 0, 0, 0]);
    assert_eq!(args_of(&call), expected);
}

#[test]
fn fcntl_args_and_reply() {
    let mut call = Fcntl { s: 4, cmd: 3, val: -1 };
    assert_eq!(
        args_of(&call),
        vec![4, 0, 0, 0, 3, 0, 0, 0, 0xFF, 0xFF, 0xFF, 0xFF]
    );
    assert_eq!(call.parse(&status_frame(9, LwipRequest::Fcntl.id(), 2048)), Ok(2048));
}

#[test]
fn getsockopt_args_prefix_the_input_value_with_its_length() {
    let mut call = Getsockopt {
        s: 1,
        level: 0xfff,
        optname: 8,
        in_optval: control(&[9, 8]),
        out_optval: HVec::new(),
        optlen: 4,
    };
    assert_eq!(
        args_of(&call),
        vec![1, 0, 0, 0, 0xff, 0x0f, 0, 0, 8, 0, 0, 0, 2, 0, 0, 0, 9, 8, 4, 0, 0, 0]
    );
    assert_eq!(call.parse(&status_frame(2, LwipRequest::Getsockopt.id(), 0)), Ok(0));
}

#[test]
fn send_args_and_reply() {
    let mut call = Send { s: 2, data: control(b"hi"), flag: 0 };
    assert_eq!(
        args_of(&call),
        vec![2, 0, 0, 0, 2, 0, 0, 0, b'h', b'i', 0, 0, 0, 0]
    );
    assert_eq!(call.parse(&status_frame(3, LwipRequest::Send.id(), 2)), Ok(2));
}

#[test]
fn send_too_large_is_buffer_full_and_leaves_buffer() {
    let call = Send { s: 2, data: control(&[7u8; 60]), flag: 0 };
    let mut buf: HVec<u8, 64> = HVec::from_slice(&[1, 2, 3]).unwrap();
    assert_eq!(call.args(&mut buf), Err(CallError::BufferFull));
    assert_eq!(buf.as_slice(), &[1, 2, 3]);
}

#[test]
fn select_absent_fields_are_one_flag_byte_each() {
    let mut call = Select { s: 6, readset: None, writeset: None, exceptset: None, timeval: None };
    assert_eq!(args_of(&call), vec![6, 0, 0, 0, 1, 1, 1, 1]);
    assert_eq!(call.parse(&status_frame(4, LwipRequest::Select.id(), 1)), Ok(1));
}

#[test]
fn select_present_fields_are_flag_count_and_bytes() {
    let call = Select {
        s: 6,
        readset: Some(FdSet { fd_bits: [1, 0, 0, 0, 0, 0, 0, 0x80] }),
        writeset: None,
        exceptset: None,
        timeval: Some(TimeVal { tv_sec: 1, tv_usec: 500 }),
    };
    let mut expected = vec![6, 0, 0, 0];
    expected.extend_from_slice(&[0, 8, 0, 0, 0, 1, 0, 0, 0, 0, 0, 0, 0x80]);
    expected.extend_from_slice(&[1, 1]);
    expected.extend_from_slice(&[0, 8, 0, 0, 0, 1, 0, 0, 0, 0xF4, 0x01, 0, 0]);
    assert_eq!(args_of(&call), expected);
}

#[test]
fn optional_field_reads_back() {
    let data = [1u8, 0xAA, 0xBB];
    let (field, next) = parse_optional(&data, 0).unwrap();
    assert!(field.is_none());
    assert_eq!(next, 1);

    let data = [0u8, 2, 0, 0, 0, 5, 6, 0xAA];
    let (field, next) = parse_optional(&data, 0).unwrap();
    assert_eq!(field, Some(vec![5, 6]));
    assert_eq!(next, 7);

    assert_eq!(parse_optional(&[0u8, 2, 0, 0, 0, 5], 0), Err(CallError::Incomplete));
    assert_eq!(parse_optional(&[7u8], 0), Err(CallError::Malformed));
    assert_eq!(parse_optional(&[], 0), Err(CallError::Incomplete));
}

#[test]
fn recv_copies_payload_on_completion() {
    let mut mem: HVec<u8, 512> = HVec::from_slice(&[9]).unwrap();
    let mut call = Recv { s: 1, mem: &mut mem, len: 3, flag: 0, timeout: 100 };
    assert_eq!(
        args_of(&call),
        vec![1, 0, 0, 0, 3, 0, 0, 0, 0, 0, 0, 0, 100, 0, 0, 0]
    );
    let mut frame = reply_header(5, LwipRequest::Recv.id());
    frame.extend_from_slice(&[3, 0, 0, 0, 10, 20, 30, 3, 0, 0, 0]);
    assert_eq!(call.parse(&frame), Ok(3));
    assert_eq!(mem.as_slice(), &[9, 10, 20, 30]);
}

#[test]
fn recv_over_capacity_is_buffer_full_and_leaves_storage() {
    let mut mem: HVec<u8, 512> = HVec::from_slice(&[1u8; 510]).unwrap();
    let mut call = Recv { s: 1, mem: &mut mem, len: 3, flag: 0, timeout: 0 };
    let mut frame = reply_header(5, LwipRequest::Recv.id());
    frame.extend_from_slice(&[3, 0, 0, 0]);
    // decided as soon as the count is known
    assert_eq!(call.parse(&frame), Err(CallError::BufferFull));
    frame.extend_from_slice(&[10, 20, 30, 0, 0, 0, 0]);
    assert_eq!(call.parse(&frame), Err(CallError::BufferFull));
    assert_eq!(mem.len(), 510);
}

#[test]
fn recv_fills_storage_exactly() {
    let mut mem: HVec<u8, 512> = HVec::from_slice(&[1u8; 509]).unwrap();
    let mut call = Recv { s: 1, mem: &mut mem, len: 3, flag: 0, timeout: 0 };
    let mut frame = reply_header(5, LwipRequest::Recv.id());
    frame.extend_from_slice(&[3, 0, 0, 0, 10, 20, 30, 0, 0, 0, 0]);
    assert_eq!(call.parse(&frame), Ok(0));
    assert_eq!(mem.len(), 512);
    assert_eq!(&mem[509..], &[10, 20, 30]);
}

#[test]
fn host_lookup_writes_address() {
    let mut addr = SockaddrIn { sin_len: 0, sin_family: 0, sin_port: 0, sin_addr: 0 };
    let mut call = GethostbynameAddrtype {
        hostname: control(b"ab"),
        addr: &mut addr,
        found: 0,
        callback_arg: None,
        dns_addrtype: 1,
    };
    assert_eq!(args_of(&call), vec![2, 0, 0, 0, b'a', b'b', 0, 0, 0, 0, 1, 1]);
    let mut frame = reply_header(8, LwipRequest::GethostbynameAddrtype.id());
    frame.extend_from_slice(&[8, 0, 0, 0, 16, 2, 0x50, 0, 0x7F, 0, 0, 1, 0xFE]);
    assert_eq!(call.parse(&frame), Ok(-2));
    assert_eq!(addr, SockaddrIn { sin_len: 16, sin_family: 2, sin_port: 80, sin_addr: 0x0100007F });
}

#[test]
fn host_lookup_args_with_callback() {
    let mut addr = SockaddrIn { sin_len: 0, sin_family: 0, sin_port: 0, sin_addr: 0 };
    let call = GethostbynameAddrtype {
        hostname: control(b"x"),
        addr: &mut addr,
        found: 7,
        callback_arg: Some(control(&[0xCC])),
        dns_addrtype: 0,
    };
    assert_eq!(
        args_of(&call),
        vec![1, 0, 0, 0, b'x', 7, 0, 0, 0, 0, 1, 0, 0, 0, 0xCC, 0]
    );
}

#[test]
fn foreign_frames_are_not_ours() {
    let mut call = Socket { domain: 2, t: 1, protocol: 0 };
    // another request
    assert_eq!(
        call.parse(&status_frame(1, LwipRequest::Close.id(), 3)),
        Err(CallError::NotOurs)
    );
    // another service
    let mut frame = status_frame(1, LwipRequest::Socket.id(), 3);
    frame[5] = 3;
    assert_eq!(call.parse(&frame), Err(CallError::NotOurs));
    // an invocation, not a reply
    let mut frame = status_frame(1, LwipRequest::Socket.id(), 3);
    frame[4] = 0;
    assert_eq!(call.parse(&frame), Err(CallError::NotOurs));
}

#[test]
fn foreign_frame_leaves_receive_storage() {
    let mut mem: HVec<u8, 512> = HVec::from_slice(&[4, 4]).unwrap();
    let mut call = Recv { s: 1, mem: &mut mem, len: 3, flag: 0, timeout: 0 };
    let mut frame = reply_header(5, LwipRequest::Send.id());
    frame.extend_from_slice(&[3, 0, 0, 0, 10, 20, 30, 0, 0, 0, 0]);
    assert_eq!(call.parse(&frame), Err(CallError::NotOurs));
    assert_eq!(mem.as_slice(), &[4, 4]);
}

#[test]
fn unknown_tags_are_malformed() {
    let mut call = Close { s: 1 };
    let mut frame = status_frame(1, LwipRequest::Close.id(), 0);
    frame[4] = 9;
    assert_eq!(call.parse(&frame), Err(CallError::Malformed));
    let mut frame = status_frame(1, LwipRequest::Close.id(), 0);
    frame[5] = 0;
    assert_eq!(call.parse(&frame), Err(CallError::Malformed));
}

#[test]
fn short_frames_are_incomplete() {
    let mut call = Close { s: 1 };
    let frame = status_frame(1, LwipRequest::Close.id(), 0);
    assert_eq!(call.parse(&frame[..3]), Err(CallError::Incomplete));
    assert_eq!(call.parse(&frame[..9]), Err(CallError::Incomplete));
}

fn chunks_agree<F: FnMut(&[u8]) -> Result<i32, CallError>>(frame: &[u8], mut decode: F) {
    let whole = decode(frame);
    for k in 0..=frame.len() {
        let part = decode(&frame[..k]);
        assert!(part == Err(CallError::Incomplete) || part == whole, "split at {}", k);
    }
    // feeding piece by piece ends on the same outcome
    for step in 1..=frame.len() {
        let mut got = Vec::new();
        let mut outcome = Err(CallError::Incomplete);
        for piece in frame.chunks(step) {
            got.extend_from_slice(piece);
            outcome = decode(&got);
            if outcome != Err(CallError::Incomplete) {
                break;
            }
        }
        assert_eq!(outcome, whole);
    }
}

#[test]
fn chunking_does_not_change_status_outcome() {
    let frame = status_frame(11, LwipRequest::Connect.id(), -7);
    let mut call = Connect {
        s: 3,
        name: SockaddrIn { sin_len: 16, sin_family: 2, sin_port: 80, sin_addr: 1 },
        namelen: 16,
    };
    chunks_agree(&frame, |d| call.parse(d));
    let foreign = status_frame(11, LwipRequest::Send.id(), -7);
    chunks_agree(&foreign, |d| call.parse(d));
}

#[test]
fn chunking_does_not_change_recv_outcome() {
    let mut frame = reply_header(5, LwipRequest::Recv.id());
    frame.extend_from_slice(&[3, 0, 0, 0, 10, 20, 30, 3, 0, 0, 0]);
    let mut mem: HVec<u8, 512> = HVec::new();
    {
        let mut call = Recv { s: 1, mem: &mut mem, len: 3, flag: 0, timeout: 0 };
        let mut got = Vec::new();
        for piece in frame.chunks(2) {
            got.extend_from_slice(piece);
            match call.parse(&got) {
                Err(CallError::Incomplete) => continue,
                outcome => {
                    assert_eq!(outcome, Ok(3));
                    break;
                }
            }
        }
    }
    assert_eq!(mem.as_slice(), &[10, 20, 30]);
}

#[test]
fn header_round_trip() {
    let h = Header { sequence: 0x01020304, msg_type: MsgType::Reply, service: Service::Lwip, request: 8 };
    let mut out = Vec::new();
    h.encode(&mut out);
    assert_eq!(out, vec![4, 3, 2, 1, 2, 4, 8]);
    out.push(0xAB);
    assert_eq!(Header::parse(&out), Ok(h));
    assert_eq!(Header::parse(&out[..6]), Err(CallError::Incomplete));
}

#[test]
fn header_names_the_call() {
    let call = Send { s: 1, data: HVec::new(), flag: 0 };
    let h = call.header(42);
    assert_eq!(h.sequence, 42);
    assert_eq!(h.msg_type, MsgType::Invocation);
    assert_eq!(h.service, Service::Lwip);
    assert_eq!(h.request, LwipRequest::Send.id());
}

#[test]
fn request_frame_is_header_then_args() {
    let call = Close { s: 5 };
    let mut buf: HVec<u8, 64> = HVec::new();
    assert_eq!(request_frame(&call, 0x10, &mut buf), Ok(()));
    assert_eq!(
        buf.as_slice(),
        &[0x10, 0, 0, 0, 0, 4, LwipRequest::Close.id(), 5, 0, 0, 0]
    );
    let mut full: HVec<u8, 64> = HVec::from_slice(&[0u8; 60]).unwrap();
    assert_eq!(request_frame(&call, 1, &mut full), Err(CallError::BufferFull));
    assert_eq!(full.len(), 60);
}

#[test]
fn matcher_picks_the_pending_call() {
    let pending = vec![
        Pending { sequence: 1, request: LwipRequest::Socket },
        Pending { sequence: 2, request: LwipRequest::Close },
        Pending { sequence: 3, request: LwipRequest::Close },
    ];
    let frame = status_frame(3, LwipRequest::Close.id(), 0);
    assert_eq!(match_pending(&frame, &pending), Ok(2));
    let frame = status_frame(4, LwipRequest::Close.id(), 0);
    assert_eq!(match_pending(&frame, &pending), Err(CallError::NotOurs));
    assert_eq!(match_pending(&frame[..2], &pending), Err(CallError::Incomplete));
}
