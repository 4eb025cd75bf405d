//! A hand-written decoder for the fixed 20-byte TCP header.
//!
//! The engine itself delegates wire coding to an external codec; this module
//! is the library's own reading of the fixed header layout, verified against
//! the big-endian byte arithmetic stated in the contracts.

use vstd::prelude::*;

verus! {

/// One decoded TCP header.  Option bytes are not interpreted.
pub struct TcpHeader {
    pub src_port: u16,
    pub dst_port: u16,
    pub seq_num: u32,
    pub ack_num: u32,
    pub data_offset: u8,
    pub urg: bool,
    pub ack: bool,
    pub psh: bool,
    pub rst: bool,
    pub syn: bool,
    pub fin: bool,
    pub window: u16,
    pub checksum: u16,
    pub urg_ptr: u16,
    pub options: Vec<TcpOption>,
    pub data: Vec<u8>,
}

/// A decoded TCP option.
pub enum TcpOption {
    MSS(u16),
}

/// The value of two bytes read in big-endian order.
pub open spec fn spec_u16_be(hi: u8, lo: u8) -> u16 {
    (hi * 256 + lo) as u16
}

/// The value of four bytes read in big-endian order.
pub open spec fn spec_u32_be(b0: u8, b1: u8, b2: u8, b3: u8) -> u32 {
    (b0 * 0x100_0000 + b1 * 0x1_0000 + b2 * 0x100 + b3) as u32
}

/// Reads the big-endian `u16` at `idx`.
pub fn u16_from_be_bytes(buf: &[u8], idx: usize) -> (r: u16)
    requires
        idx + 2 <= buf@.len(),
    ensures
        r == spec_u16_be(buf@[idx as int], buf@[idx + 1]),
{
    let hi = buf[idx];
    let lo = buf[idx + 1];
    (hi as u16) * 256 + (lo as u16)
}

/// Reads the big-endian `u32` at `idx`.
pub fn u32_from_be_bytes(buf: &[u8], idx: usize) -> (r: u32)
    requires
        idx + 4 <= buf@.len(),
    ensures
        r == spec_u32_be(buf@[idx as int], buf@[idx + 1], buf@[idx + 2], buf@[idx + 3]),
{
    let b0 = buf[idx];
    let b1 = buf[idx + 1];
    let b2 = buf[idx + 2];
    let b3 = buf[idx + 3];
    (b0 as u32) * 0x100_0000 + (b1 as u32) * 0x1_0000 + (b2 as u32) * 0x100 + (b3 as u32)
}

impl TcpHeader {
    /// Decodes the fixed 20-byte header at the front of `buf`.  Option bytes
    /// and payload are left uninterpreted and come back empty.
    pub fn from_bytes(buf: &[u8]) -> (r: TcpHeader)
        requires
            buf@.len() >= 20,
        ensures
            r.src_port == spec_u16_be(buf@[0], buf@[1]),
            r.dst_port == spec_u16_be(buf@[2], buf@[3]),
            r.seq_num == spec_u32_be(buf@[4], buf@[5], buf@[6], buf@[7]),
            r.ack_num == spec_u32_be(buf@[8], buf@[9], buf@[10], buf@[11]),
            r.data_offset == buf@[12] >> 4u8,
            r.urg == ((buf@[13] & 0x20) != 0),
            r.ack == ((buf@[13] & 0x10) != 0),
            r.psh == ((buf@[13] & 0x08) != 0),
            r.rst == ((buf@[13] & 0x04) != 0),
            r.syn == ((buf@[13] & 0x02) != 0),
            r.fin == ((buf@[13] & 0x01) != 0),
            r.window == spec_u16_be(buf@[14], buf@[15]),
            r.checksum == spec_u16_be(buf@[16], buf@[17]),
            r.urg_ptr == spec_u16_be(buf@[18], buf@[19]),
            r.options@.len() == 0,
            r.data@.len() == 0,
    {
        let flags = buf[13];
        TcpHeader {
            src_port: u16_from_be_bytes(buf, 0),
            dst_port: u16_from_be_bytes(buf, 2),
            seq_num: u32_from_be_bytes(buf, 4),
            ack_num: u32_from_be_bytes(buf, 8),
            data_offset: buf[12] >> 4u8,
            urg: (flags & 0x20) != 0,
            ack: (flags & 0x10) != 0,
            psh: (flags & 0x08) != 0,
            rst: (flags & 0x04) != 0,
            syn: (flags & 0x02) != 0,
            fin: (flags & 0x01) != 0,
            window: u16_from_be_bytes(buf, 14),
            checksum: u16_from_be_bytes(buf, 16),
            urg_ptr: u16_from_be_bytes(buf, 18),
            options: Vec::new(),
            data: Vec::new(),
        }
    }
}

} // verus!
