//! The trusted boundary to the external wire codec.
//!
//! Parsing and serializing IPv4 and TCP headers — including the checksum
//! over the pseudo-header — is the work of the `etherparse` crate.  What
//! those calls return is a function of the bytes and header values alone,
//! so each result is given a name (`ipv4_parse`, `tcp_parse`,
//! `ipv4_encode`, `tcp_encode`) and the wrappers below promise nothing
//! beyond returning that named value.  Everything the engine proves about
//! wire traffic is relative to these four names.

use vstd::prelude::*;

use crate::segment::{Ipv4Hdr, TcpHdr};

verus! {

/// What the codec decodes from the front of a buffer holding an IPv4
/// datagram: the header fields the engine reads, and every byte behind the
/// header; `None` when no well-formed IPv4 header is present.
pub uninterp spec fn ipv4_parse(b: Seq<u8>) -> Option<(Ipv4Hdr, Seq<u8>)>;

/// What the codec decodes from the front of a buffer holding a TCP
/// segment: the header fields, and every byte behind the header; `None`
/// when no well-formed TCP header is present.
pub uninterp spec fn tcp_parse(b: Seq<u8>) -> Option<(TcpHdr, Seq<u8>)>;

/// What the codec produces for one IPv4 header: its 20 bytes with the
/// header checksum computed; `None` when the payload length exceeds what
/// the 16-bit total-length field can carry.
pub uninterp spec fn ipv4_encode(ip: Ipv4Hdr) -> Option<Seq<u8>>;

/// What the codec produces for one TCP header sent between `src` and
/// `dst` with `payload` behind it: its 20 bytes with the checksum over the
/// pseudo-header computed; `None` when the payload does not fit the
/// 16-bit TCP length.
pub uninterp spec fn tcp_encode(tcp: TcpHdr, src: [u8; 4], dst: [u8; 4], payload: Seq<u8>) -> Option<
    Seq<u8>,
>;

/// One outbound datagram: the IPv4 header bytes, the TCP header bytes and
/// the payload, in wire order; `None` when either header cannot be
/// encoded.
pub open spec fn tcp_ipv4_encode(ip: Ipv4Hdr, tcp: TcpHdr, payload: Seq<u8>) -> Option<
    Seq<u8>,
> {
    match (ipv4_encode(ip), tcp_encode(tcp, ip.src, ip.dst, payload)) {
        (Some(a), Some(b)) => Some(a + b + payload),
        _ => None,
    }
}

/// Relies on `etherparse::Ipv4Header::from_slice` to decode one IPv4
/// header, and on `Ipv4Header::payload_len` for the length of what the
/// header says follows it.  Any decode error is reported as `None`.
#[verifier::external_body]
pub(crate) fn parse_ipv4(buf: &[u8]) -> (r: Option<(Ipv4Hdr, Vec<u8>)>)
    ensures
        (match r {
            Some((h, p)) => ipv4_parse(buf@) == Some((h, p@)),
            None => ipv4_parse(buf@) is None,
        }),
{
    match etherparse::Ipv4Header::from_slice(buf) {
        Ok((h, rest)) => match h.payload_len() {
            Ok(pl) => {
                let hdr = Ipv4Hdr {
                    src: h.source, dst: h.destination, protocol: h.protocol.0,
                    ttl: h.time_to_live, payload_len: pl,
                };
                Some((hdr, rest.to_vec()))
            },
            Err(_) => None,
        },
        Err(_) => None,
    }
}

/// Relies on `etherparse::TcpHeader::from_slice` to decode one TCP header.
/// Any decode error is reported as `None`.
#[verifier::external_body]
pub(crate) fn parse_tcp(buf: &[u8]) -> (r: Option<(TcpHdr, Vec<u8>)>)
    ensures
        (match r {
            Some((h, p)) => tcp_parse(buf@) == Some((h, p@)),
            None => tcp_parse(buf@) is None,
        }),
{
    match etherparse::TcpHeader::from_slice(buf) {
        Ok((h, rest)) => {
            let hdr = TcpHdr {
                src_port: h.source_port, dst_port: h.destination_port,
                seq_num: h.sequence_number, ack_num: h.acknowledgment_number,
                urg: h.urg, ack: h.ack, psh: h.psh, rst: h.rst, syn: h.syn, fin: h.fin,
                window: h.window_size, checksum: h.checksum, urg_ptr: h.urgent_pointer,
            };
            Some((hdr, rest.to_vec()))
        },
        Err(_) => None,
    }
}

/// Relies on `etherparse::Ipv4Header::{new, write}`: `new` builds the
/// header and rejects an oversized payload length, `write` stamps the
/// header checksum; writing into a `Vec` cannot fail.
#[verifier::external_body]
pub(crate) fn encode_ipv4(ip: &Ipv4Hdr) -> (r: Option<Vec<u8>>)
    ensures
        (match r {
            Some(v) => ipv4_encode(*ip) == Some(v@),
            None => ipv4_encode(*ip) is None,
        }),
{
    let proto = etherparse::IpNumber(ip.protocol);
    let made = etherparse::Ipv4Header::new(ip.payload_len, ip.ttl, proto, ip.src, ip.dst);
    let h = match made { Ok(h) => h, Err(_) => { return None } };
    let mut bytes: Vec<u8> = Vec::new();
    h.write(&mut bytes).ok();
    Some(bytes)
}

/// Relies on `etherparse::TcpHeader::{new, calc_checksum_ipv4_raw,
/// to_bytes}`: `calc_checksum_ipv4_raw` computes the checksum over the
/// pseudo-header and rejects an oversized payload; `to_bytes` serializes
/// the header as set.  The urgent pointer is left zero, as the engine
/// keeps it.
#[verifier::external_body]
pub(crate) fn encode_tcp(tcp: &TcpHdr, src: [u8; 4], dst: [u8; 4], payload: &Vec<u8>) -> (r:
    Option<Vec<u8>>)
    ensures
        (match r {
            Some(v) => tcp_encode(*tcp, src, dst, payload@) == Some(v@),
            None => tcp_encode(*tcp, src, dst, payload@) is None,
        }),
{
    let mut t = etherparse::TcpHeader::new(tcp.src_port, tcp.dst_port, tcp.seq_num, tcp.window);
    t.acknowledgment_number = tcp.ack_num;
    t.urg = tcp.urg;
    t.ack = tcp.ack;
    t.psh = tcp.psh;
    t.rst = tcp.rst;
    t.syn = tcp.syn;
    t.fin = tcp.fin;
    t.checksum = match t.calc_checksum_ipv4_raw(src, dst, payload.as_slice()) {
        Ok(c) => c,
        Err(_) => { return None },
    };
    Some(t.to_bytes().to_vec())
}

} // verus!
