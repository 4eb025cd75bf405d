//! The byte-level face of the engine.
//!
//! The embedding program reads raw datagrams from its interface and hands
//! each one to [`handle_datagram`]; before every blocking read it calls
//! [`poll_timer`].  Both return the encoded datagrams to write back.  All
//! decisions are made by the verified state machine in [`crate::tcp`]; the
//! wire coding goes through the trusted names of [`crate::codec`].

use vstd::prelude::*;

use crate::codec::{ipv4_parse, parse_ipv4, parse_tcp, tcp_ipv4_encode, tcp_parse};
use crate::segment::{segs_view, SegView, Segment, PROTO_TCP};
use crate::tcp::{step, tick_step, RespView, Service, Tcb};

verus! {

/// The byte sequences of a list of encoded datagrams.
pub open spec fn bytes_view(v: Seq<Vec<u8>>) -> Seq<Seq<u8>> {
    v.map_values(|b: Vec<u8>| b@)
}

/// Appending a buffer and taking byte views commute.
pub broadcast proof fn lemma_bytes_view_push(v: Seq<Vec<u8>>, b: Vec<u8>)
    ensures
        #[trigger] bytes_view(v.push(b)) == bytes_view(v).push(b@),
{
    assert(bytes_view(v.push(b)) =~= bytes_view(v).push(b@));
}

/// The encodings of a list of segments, in order, skipping any segment the
/// codec cannot encode.
pub open spec fn encoded_outputs(segs: Seq<SegView>) -> Seq<Seq<u8>>
    decreases segs.len(),
{
    if segs.len() == 0 {
        Seq::empty()
    } else {
        let rest = encoded_outputs(segs.drop_last());
        match tcp_ipv4_encode(segs.last().ip, segs.last().tcp, segs.last().payload) {
            Some(b) => rest.push(b),
            None => rest,
        }
    }
}

/// Encodes one segment into wire bytes — IPv4 header, TCP header, payload
/// — or `None` when its payload does not fit the 16-bit length fields.
pub fn encode_segment(seg: &Segment) -> (r: Option<Vec<u8>>)
    ensures
        (match r {
            Some(v) => tcp_ipv4_encode(seg.ip, seg.tcp, seg.payload@) == Some(v@),
            None => tcp_ipv4_encode(seg.ip, seg.tcp, seg.payload@) is None,
        }),
{
    let mut bytes = match crate::codec::encode_ipv4(&seg.ip) {
        Some(v) => v,
        None => {
            return None;
        },
    };
    let tcp_bytes = match crate::codec::encode_tcp(
        &seg.tcp,
        seg.ip.src,
        seg.ip.dst,
        &seg.payload,
    ) {
        Some(v) => v,
        None => {
            return None;
        },
    };
    crate::segment::append_bytes(&mut bytes, tcp_bytes.as_slice());
    crate::segment::append_bytes(&mut bytes, seg.payload.as_slice());
    Some(bytes)
}

/// Encodes a list of segments, dropping any the codec rejects.
pub fn encode_all(segs: &Vec<Segment>) -> (r: Vec<Vec<u8>>)
    ensures
        bytes_view(r@) == encoded_outputs(segs_view(segs@)),
{
    let mut r: Vec<Vec<u8>> = Vec::new();
    let mut i: usize = 0;
    let n = segs.len();
    while i < n
        invariant
            i <= n,
            n == segs@.len(),
            bytes_view(r@) == encoded_outputs(segs_view(segs@.subrange(0, i as int))),
        decreases n - i,
    {
        let ghost r0 = r@;
        match encode_segment(&segs[i]) {
            Some(b) => {
                let ghost bv = b@;
                r.push(b);
                proof {
                    lemma_bytes_view_push(r0, r@.last());
                }
            },
            None => {},
        }
        proof {
            let q = segs@;
            assert(q.subrange(0, i + 1) =~= q.subrange(0, i as int).push(q[i as int]));
            crate::segment::lemma_segs_view_push(q.subrange(0, i as int), q[i as int]);
            let ext = segs_view(q.subrange(0, i as int)).push(q[i as int]@);
            assert(ext.drop_last() =~= segs_view(q.subrange(0, i as int)));
            assert(bytes_view(r@) == encoded_outputs(segs_view(q.subrange(0, i + 1))));
        }
        i = i + 1;
    }
    proof {
        assert(segs@.subrange(0, n as int) =~= segs@);
    }
    r
}

/// Checks the pending timer at `now` and encodes whatever the tick emits.
pub fn poll_timer<S: Service>(tcb: &mut Tcb, svc: &mut S, now: u64) -> (r: Vec<Vec<u8>>)
    ensures
        ({
            let s = tick_step(old(tcb)@, now);
            &&& final(tcb)@ == s.tcb
            &&& bytes_view(r@) == encoded_outputs(s.out)
            &&& final(svc).history() == old(svc).history() + s.events
        }),
{
    let segs = tcb.on_tick(svc, now);
    encode_all(&segs)
}

/// Processes one raw datagram: decodes the IPv4 and TCP headers, drops the
/// datagram silently if either fails to decode or the protocol is not TCP,
/// and otherwise runs the state machine and encodes its replies.
pub fn handle_datagram<S: Service>(tcb: &mut Tcb, svc: &mut S, buf: &[u8], now: u64) -> (r: (
    Vec<Vec<u8>>,
    Ghost<RespView>,
))
    ensures
        (match ipv4_parse(buf@) {
            None => final(tcb)@ == old(tcb)@ && r.0@.len() == 0 && final(svc).history() == old(
                svc,
            ).history(),
            Some((iph, ippld)) => if iph.protocol != PROTO_TCP {
                final(tcb)@ == old(tcb)@ && r.0@.len() == 0 && final(svc).history() == old(
                    svc,
                ).history()
            } else {
                match tcp_parse(ippld) {
                    None => final(tcb)@ == old(tcb)@ && r.0@.len() == 0 && final(svc).history()
                        == old(svc).history(),
                    Some((tcph, tcppld)) => {
                        let s = step(old(tcb)@, iph, tcph, tcppld, r.1@, now);
                        &&& final(tcb)@ == s.tcb
                        &&& bytes_view(r.0@) == encoded_outputs(s.out)
                        &&& final(svc).history() == old(svc).history() + s.events
                    },
                }
            },
        }),
{
    match parse_ipv4(buf) {
        None => (Vec::new(), Ghost(RespView::Empty)),
        Some((iph, ippld)) => {
            if iph.protocol != PROTO_TCP {
                return (Vec::new(), Ghost(RespView::Empty));
            }
            match parse_tcp(ippld.as_slice()) {
                None => (Vec::new(), Ghost(RespView::Empty)),
                Some((tcph, tcppld)) => {
                    let (segs, g) = tcb.on_segment(svc, &iph, &tcph, &tcppld, now);
                    (encode_all(&segs), g)
                },
            }
        },
    }
}

} // verus!
