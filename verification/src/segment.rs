//! The in-memory model of one TCP/IPv4 packet.
//!
//! [`TcpHdr`] and [`Ipv4Hdr`] hold exactly the header fields the engine
//! reads and writes; the external codec turns them into wire bytes and back.
//! [`Segment`] pairs the two headers with the payload bytes.  The reply
//! builders [`tcph_reply`] and [`iph_reply`] mirror an inbound header into a
//! correctly addressed outbound one.

use vstd::prelude::*;

verus! {

/// Time-to-live stamped on every emitted IPv4 header.
pub const IP_TTL: u8 = 64;

/// The IPv4 protocol number of TCP.
pub const PROTO_TCP: u8 = 6;

/// The fixed TCP and IPv4 headers are 20 bytes each; no options are emitted.
pub const FIXED_HDR_LEN: u16 = 20;

/// The TCP header fields the engine works with.  Option bytes are neither
/// read nor produced.
#[derive(Clone, Copy, PartialEq, Eq, Structural, Debug)]
pub struct TcpHdr {
    pub src_port: u16,
    pub dst_port: u16,
    pub seq_num: u32,
    pub ack_num: u32,
    pub urg: bool,
    pub ack: bool,
    pub psh: bool,
    pub rst: bool,
    pub syn: bool,
    pub fin: bool,
    pub window: u16,
    pub checksum: u16,
    pub urg_ptr: u16,
}

/// The IPv4 header fields the engine works with.  `payload_len` is the
/// length of everything behind the IPv4 header (TCP header plus data).
#[derive(Clone, Copy, PartialEq, Eq, Debug)]
pub struct Ipv4Hdr {
    pub src: [u8; 4],
    pub dst: [u8; 4],
    pub protocol: u8,
    pub ttl: u8,
    pub payload_len: u16,
}

/// One outbound packet: headers plus payload, immutable once built; a copy
/// may sit in the retransmission queue for a later resend.
pub struct Segment {
    pub ip: Ipv4Hdr,
    pub tcp: TcpHdr,
    pub payload: Vec<u8>,
}

/// Appends `data` behind the bytes already in `out`.
pub fn append_bytes(out: &mut Vec<u8>, data: &[u8])
    ensures
        final(out)@ == old(out)@ + data@,
{
    let mut i: usize = 0;
    while i < data.len()
        invariant
            i <= data@.len(),
            out@ == old(out)@ + data@.subrange(0, i as int),
        decreases data@.len() - i,
    {
        out.push(data[i]);
        proof {
            assert(out@ =~= old(out)@ + data@.subrange(0, i + 1));
        }
        i = i + 1;
    }
    proof {
        assert(out@ =~= old(out)@ + data@);
    }
}

/// Copies a byte vector.
pub fn clone_bytes(v: &Vec<u8>) -> (r: Vec<u8>)
    ensures
        r@ == v@,
{
    let mut r: Vec<u8> = Vec::new();
    let mut i: usize = 0;
    while i < v.len()
        invariant
            i <= v@.len(),
            r@ == v@.subrange(0, i as int),
        decreases v@.len() - i,
    {
        r.push(v[i]);
        proof {
            assert(r@ =~= v@.subrange(0, i + 1));
        }
        i = i + 1;
    }
    proof {
        assert(r@ =~= v@);
    }
    r
}

impl Clone for Segment {
    /// A copy that carries the same headers and payload bytes.
    fn clone(&self) -> (r: Segment)
        ensures
            r@ == self@,
    {
        Segment { ip: self.ip, tcp: self.tcp, payload: clone_bytes(&self.payload) }
    }
}

/// The mathematical value of a [`Segment`]: the payload as a sequence.
#[verifier::ext_equal]
pub struct SegView {
    pub ip: Ipv4Hdr,
    pub tcp: TcpHdr,
    pub payload: Seq<u8>,
}

impl View for Segment {
    type V = SegView;

    open spec fn view(&self) -> SegView {
        SegView { ip: self.ip, tcp: self.tcp, payload: self.payload@ }
    }
}

/// The values of a sequence of segments.
pub open spec fn segs_view(v: Seq<Segment>) -> Seq<SegView> {
    v.map_values(|s: Segment| s@)
}

/// Appending a segment and taking values commute.
pub broadcast proof fn lemma_segs_view_push(q: Seq<Segment>, s: Segment)
    ensures
        #[trigger] segs_view(q.push(s)) == segs_view(q).push(s@),
{
    assert(segs_view(q.push(s)) =~= segs_view(q).push(s@));
}

/// A byte count reduced to the 32-bit sequence space.
pub open spec fn u32_of_len(n: nat) -> u32 {
    ((n % 0x1_0000_0000) as u32)
}

/// Computes [`u32_of_len`].
pub fn u32_of_len_ex(n: usize) -> (r: u32)
    ensures
        r == u32_of_len(n as nat),
{
    (((n as u64) % 0x1_0000_0000) as u32)
}

/// A byte count reduced to the 16-bit length space of the IPv4 header.
pub open spec fn u16_of_len(n: nat) -> u16 {
    ((n % 0x1_0000) as u16)
}

/// Computes [`u16_of_len`].
pub fn u16_of_len_ex(n: usize) -> (r: u16)
    ensures
        r == u16_of_len(n as nat),
{
    (((n as u64) % 0x1_0000) as u16)
}

/// The amount of sequence space a segment occupies: its payload bytes, plus
/// one for SYN and one for FIN, reduced modulo 2^32.
pub open spec fn spec_seg_len(h: TcpHdr, payload_len: nat) -> u32 {
    let base = u32_of_len(payload_len);
    let with_syn = if h.syn {
        base.wrapping_add(1)
    } else {
        base
    };
    if h.fin {
        with_syn.wrapping_add(1)
    } else {
        with_syn
    }
}

/// Computes [`spec_seg_len`] for a header and payload length.
pub fn seg_len(h: &TcpHdr, payload_len: usize) -> (r: u32)
    ensures
        r == spec_seg_len(*h, payload_len as nat),
{
    let mut l: u32 = u32_of_len_ex(payload_len);
    if h.syn {
        l = l.wrapping_add(1);
    }
    if h.fin {
        l = l.wrapping_add(1);
    }
    l
}

/// The header [`tcph_reply`] builds: ports swapped relative to the inbound
/// header, the caller's sequence number and window, everything else clear.
pub open spec fn spec_tcph_reply(in_tcph: TcpHdr, seq_num: u32, window_size: u16) -> TcpHdr {
    TcpHdr {
        src_port: in_tcph.dst_port,
        dst_port: in_tcph.src_port,
        seq_num,
        ack_num: 0,
        urg: false,
        ack: false,
        psh: false,
        rst: false,
        syn: false,
        fin: false,
        window: window_size,
        checksum: 0,
        urg_ptr: 0,
    }
}

/// Starts a reply to `in_tcph`: the inbound destination port becomes our
/// source and vice versa; flags are all clear.
pub fn tcph_reply(in_tcph: &TcpHdr, seq_num: u32, window_size: u16) -> (r: TcpHdr)
    ensures
        r == spec_tcph_reply(*in_tcph, seq_num, window_size),
{
    TcpHdr {
        src_port: in_tcph.dst_port,
        dst_port: in_tcph.src_port,
        seq_num,
        ack_num: 0,
        urg: false,
        ack: false,
        psh: false,
        rst: false,
        syn: false,
        fin: false,
        window: window_size,
        checksum: 0,
        urg_ptr: 0,
    }
}

/// The header [`iph_reply`] builds: addresses swapped relative to the
/// inbound header, protocol TCP, the fixed TTL, and the total payload
/// length, truncated to 16 bits as the wire field is.
pub open spec fn spec_iph_reply(in_iph: Ipv4Hdr, data_len: nat) -> Ipv4Hdr {
    Ipv4Hdr {
        src: in_iph.dst,
        dst: in_iph.src,
        protocol: PROTO_TCP,
        ttl: IP_TTL,
        payload_len: FIXED_HDR_LEN.wrapping_add(u16_of_len(data_len)),
    }
}

/// Builds the IPv4 header for a reply carrying `data_len` payload bytes
/// behind the fixed TCP header.
pub fn iph_reply(in_iph: &Ipv4Hdr, data_len: usize) -> (r: Ipv4Hdr)
    ensures
        r == spec_iph_reply(*in_iph, data_len as nat),
{
    let truncated: u16 = u16_of_len_ex(data_len);
    Ipv4Hdr {
        src: in_iph.dst,
        dst: in_iph.src,
        protocol: PROTO_TCP,
        ttl: IP_TTL,
        payload_len: FIXED_HDR_LEN.wrapping_add(truncated),
    }
}

} // verus!
