//! Fixed C-like records carried inside call arguments and replies. Each is
//! written field by field, little-endian, with padding written as zeros, so
//! the bytes never depend on how a compiler lays the record out.
use crate::wire::{i32_bytes, put_i32, put_u16, put_u32, put_u8, sized, u16_bytes, u32_bytes};
use vstd::prelude::*;

verus! {

/// Wire width of an IPv4 socket address, padding included.
pub const SOCKADDR_LEN: u32 = 16;

/// Number of bytes in a descriptor set.
pub const FDSET_BYTES: usize = 8;

/// Wire width of a time value.
pub const TIMEVAL_LEN: u32 = 8;

/// An IPv4 socket address.
#[derive(Clone, Copy, Debug, PartialEq, Eq, Structural)]
pub struct SockaddrIn {
    pub sin_len: u8,
    pub sin_family: u8,
    pub sin_port: u16,
    pub sin_addr: u32,
}

/// A readiness-watch set: one bit per descriptor.
#[derive(Clone, Copy, Debug)]
pub struct FdSet {
    pub fd_bits: [u8; 8],
}

/// A timeout for a select call.
#[derive(Clone, Copy, Debug, PartialEq, Eq, Structural)]
pub struct TimeVal {
    pub tv_sec: i32,
    pub tv_usec: i32,
}

/// Eight zero bytes that pad an address to its full width.
pub open spec fn sin_zero() -> Seq<u8> {
    seq![0u8, 0u8, 0u8, 0u8, 0u8, 0u8, 0u8, 0u8]
}

/// Wire form of an address: length, family, port, address, then zero padding.
pub open spec fn sockaddr_bytes(a: SockaddrIn) -> Seq<u8> {
    seq![a.sin_len, a.sin_family] + u16_bytes(a.sin_port) + u32_bytes(a.sin_addr) + sin_zero()
}

/// Wire form of a time value: seconds, then microseconds.
pub open spec fn timeval_bytes(t: TimeVal) -> Seq<u8> {
    i32_bytes(t.tv_sec) + i32_bytes(t.tv_usec)
}

impl SockaddrIn {
    /// Appends the record's wire form.
    pub fn encode(&self, out: &mut Vec<u8>)
        ensures
            final(out)@ == old(out)@ + sockaddr_bytes(*self),
    {
        put_u8(out, self.sin_len);
        put_u8(out, self.sin_family);
        put_u16(out, self.sin_port);
        put_u32(out, self.sin_addr);
        let mut i: usize = 0;
        while i < 8
            invariant
                i <= 8,
                out@ == old(out)@ + seq![self.sin_len, self.sin_family] + u16_bytes(self.sin_port)
                    + u32_bytes(self.sin_addr) + sin_zero().subrange(0, i as int),
            decreases 8 - i,
        {
            out.push(0u8);
            i += 1;
            assert(sin_zero().subrange(0, i as int) == sin_zero().subrange(0, i - 1) + seq![0u8]);
        }
        assert(sin_zero().subrange(0, 8) == sin_zero());
    }

    /// Appends the record as a variable-length field.
    pub fn encode_sized(&self, out: &mut Vec<u8>)
        ensures
            final(out)@ == old(out)@ + sized(sockaddr_bytes(*self)),
    {
        put_u32(out, SOCKADDR_LEN);
        self.encode(out);
    }
}

impl FdSet {
    /// Appends the set as a variable-length field.
    pub fn encode_sized(&self, out: &mut Vec<u8>)
        ensures
            final(out)@ == old(out)@ + sized(self.fd_bits@),
    {
        crate::wire::put_sized(out, self.fd_bits.as_slice());
    }
}

impl TimeVal {
    /// Appends the time value as a variable-length field.
    pub fn encode_sized(&self, out: &mut Vec<u8>)
        ensures
            final(out)@ == old(out)@ + sized(timeval_bytes(*self)),
    {
        put_u32(out, TIMEVAL_LEN);
        put_i32(out, self.tv_sec);
        put_i32(out, self.tv_usec);
    }
}

} // verus!
