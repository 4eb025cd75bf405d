//! Laws of the state machine, proved once and for all over [`step`] and
//! [`tick_step`].  Each law quantifies over every control block, segment
//! and service answer its premises allow.

use vstd::prelude::*;

use crate::segment::{spec_seg_len, u32_of_len, Ipv4Hdr, TcpHdr};
use crate::seqnum::{seq_between, seq_lt};
use crate::tcp::{
    in_ack_states, in_general_states, keeps_entry, purged, spec_ack_echo, step, tick_step,
    wnd_update_due, RespView, SvcEvent, TcbView, TcpState, Timer, TIMEOUT_2MSL_MS,
    TIMEOUT_RETR_MS,
};

verus! {

/// A valid SYN arriving in `Listen` moves the connection to `SynRecvd` and
/// draws exactly one SYN+ACK whose acknowledgment number is the peer's
/// sequence number plus one; the peer's numbers are recorded and our side
/// starts at the injected initial sequence number.
pub proof fn lemma_listen_syn_to_syn_recvd(
    pre: TcbView,
    ip: Ipv4Hdr,
    h: TcpHdr,
    payload: Seq<u8>,
    resp: RespView,
    now: u64,
)
    requires
        pre.state == TcpState::Listen,
        h.syn,
        !h.rst,
        !h.ack,
    ensures
        ({
            let s = step(pre, ip, h, payload, resp, now);
            &&& s.tcb.state == TcpState::SynRecvd
            &&& s.out.len() == 1
            &&& s.out[0].tcp.syn
            &&& s.out[0].tcp.ack
            &&& s.out[0].tcp.ack_num == h.seq_num.wrapping_add(1)
            &&& s.out[0].tcp.seq_num == pre.iss
            &&& s.tcb.rcv_nxt == h.seq_num.wrapping_add(1)
            &&& s.tcb.irs == h.seq_num
            &&& s.tcb.iss == pre.iss
            &&& s.tcb.snd_una == pre.iss
            &&& s.tcb.snd_nxt == pre.iss.wrapping_add(1)
            &&& s.events.len() == 0
        }),
{
}

/// Completing the three-way handshake reaches `Estab`: after the SYN from
/// `Listen` and an acceptable ACK of our SYN+ACK, the connection is
/// established with `rcv_nxt` one past the peer's initial sequence number
/// and `snd_una` advanced over our SYN.
pub proof fn lemma_handshake_reaches_estab(
    t0: TcbView,
    ip0: Ipv4Hdr,
    syn_h: TcpHdr,
    p0: Seq<u8>,
    r0: RespView,
    n0: u64,
    ip1: Ipv4Hdr,
    ack_h: TcpHdr,
    r1: RespView,
    n1: u64,
)
    requires
        t0.state == TcpState::Listen,
        t0.window_size > 0,
        syn_h.syn,
        !syn_h.rst,
        !syn_h.ack,
        ack_h.ack,
        !ack_h.rst,
        !ack_h.syn,
        !ack_h.fin,
        ({
            let t1 = step(t0, ip0, syn_h, p0, r0, n0).tcb;
            ack_h.seq_num == t1.rcv_nxt && ack_h.ack_num == t1.snd_nxt
        }),
    ensures
        ({
            let t1 = step(t0, ip0, syn_h, p0, r0, n0).tcb;
            let s = step(t1, ip1, ack_h, Seq::<u8>::empty(), r1, n1);
            &&& s.tcb.state == TcpState::Estab
            &&& s.tcb.iss == t0.iss
            &&& s.tcb.irs == syn_h.seq_num
            &&& s.tcb.rcv_nxt == syn_h.seq_num.wrapping_add(1)
            &&& s.tcb.snd_una == t0.iss.wrapping_add(1)
            &&& s.tcb.snd_nxt == t0.iss.wrapping_add(1)
            &&& s.events.len() == 0
        }),
{
}

/// A duplicate segment — one whose whole occupied range was already
/// acknowledged — changes nothing: the control block, including `snd_una`,
/// `rcv_nxt` and the connection state, is exactly what it was; the peer is
/// answered with one empty acknowledgment and the service hears nothing.
pub proof fn lemma_duplicate_segment_ignored(
    pre: TcbView,
    ip: Ipv4Hdr,
    h: TcpHdr,
    payload: Seq<u8>,
    resp: RespView,
    now: u64,
)
    requires
        in_general_states(pre.state),
        !h.rst,
        ({
            let slen = spec_seg_len(h, payload.len());
            let behind = pre.rcv_nxt.wrapping_sub(h.seq_num);
            slen > 0 && behind >= slen && behind < 0x8000_0000
        }),
    ensures
        ({
            let s = step(pre, ip, h, payload, resp, now);
            &&& s.tcb == pre
            &&& s.out =~= seq![spec_ack_echo(pre, ip, h)]
            &&& s.events.len() == 0
        }),
{
}

/// An acknowledgment that was already processed — one below `snd_una` —
/// regresses nothing: in `Estab`, a plain segment carrying only a stale
/// acknowledgment leaves `snd_una`, `rcv_nxt`, the state, the queue and
/// the recorded window exactly as they were.
pub proof fn lemma_stale_ack_ignored(
    pre: TcbView,
    ip: Ipv4Hdr,
    h: TcpHdr,
    resp: RespView,
    now: u64,
)
    requires
        pre.state == TcpState::Estab,
        !h.rst,
        h.ack,
        !h.syn,
        !h.fin,
        h.seq_num == pre.rcv_nxt,
        seq_lt(h.ack_num, pre.snd_una),
        pre.snd_nxt.wrapping_sub(pre.snd_una) < 0x8000_0000,
    ensures
        ({
            let s = step(pre, ip, h, Seq::<u8>::empty(), resp, now);
            &&& s.tcb == pre
            &&& s.events.len() == 0
        }),
{
}

/// An acceptable data segment in `Estab` that starts exactly at `rcv_nxt`
/// advances `rcv_nxt` by precisely the payload length, and the service
/// receives the payload exactly once, whatever it answers.
pub proof fn lemma_estab_delivery_advances(
    pre: TcbView,
    ip: Ipv4Hdr,
    h: TcpHdr,
    payload: Seq<u8>,
    resp: RespView,
    now: u64,
)
    requires
        pre.state == TcpState::Estab,
        !h.rst,
        h.ack,
        !h.syn,
        !h.fin,
        h.seq_num == pre.rcv_nxt,
        0 < payload.len() <= pre.window_size,
        seq_between(pre.snd_una, h.ack_num, pre.snd_nxt) || seq_lt(h.ack_num, pre.snd_una),
    ensures
        ({
            let s = step(pre, ip, h, payload, resp, now);
            &&& s.tcb.rcv_nxt == pre.rcv_nxt.wrapping_add(u32_of_len(payload.len()))
            &&& s.events =~= seq![SvcEvent::Receive(payload, resp)]
        }),
{
}

/// The round trip of an active close begun by the service: answering a
/// delivered segment with `Close` emits exactly one FIN-bearing segment
/// and enters `FinWait1`; the peer's acknowledgment of that FIN reaches
/// `FinWait2`; the peer's own FIN reaches `TimeWait` and arms the 2MSL
/// timer; and once the quiet period has elapsed the connection is
/// `Closed`, with the service told of the close.
pub proof fn lemma_active_close_round_trip(
    t0: TcbView,
    ip0: Ipv4Hdr,
    h0: TcpHdr,
    payload: Seq<u8>,
    d: Seq<u8>,
    n0: u64,
    ip1: Ipv4Hdr,
    h1: TcpHdr,
    r1: RespView,
    n1: u64,
    ip2: Ipv4Hdr,
    h2: TcpHdr,
    r2: RespView,
    n2: u64,
    n3: u64,
)
    requires
        t0.state == TcpState::Estab,
        t0.window_size > 0,
        !h0.rst,
        h0.ack,
        !h0.syn,
        !h0.fin,
        h0.seq_num == t0.rcv_nxt,
        0 < payload.len() <= t0.window_size,
        seq_between(t0.snd_una, h0.ack_num, t0.snd_nxt) || seq_lt(h0.ack_num, t0.snd_una),
        ack_of_fin_fits(t0, ip0, h0, payload, d, n0, h1),
        ({
            let t1 = step(t0, ip0, h0, payload, RespView::Close(d), n0).tcb;
            let t2 = step(t1, ip1, h1, Seq::<u8>::empty(), r1, n1).tcb;
            &&& h2.ack
            &&& !h2.rst
            &&& !h2.syn
            &&& h2.fin
            &&& h2.seq_num == t2.rcv_nxt
            &&& h2.ack_num == t2.snd_nxt
        }),
        n3 >= n2,
        n3 - n2 > TIMEOUT_2MSL_MS,
    ensures
        ({
            let s0 = step(t0, ip0, h0, payload, RespView::Close(d), n0);
            let t1 = s0.tcb;
            let t2 = step(t1, ip1, h1, Seq::<u8>::empty(), r1, n1).tcb;
            let t3 = step(t2, ip2, h2, Seq::<u8>::empty(), r2, n2).tcb;
            let s4 = tick_step(t3, n3);
            &&& s0.out.len() == 1
            &&& s0.out[0].tcp.fin
            &&& s0.out[0].payload == d
            &&& t1.state == TcpState::FinWait1
            &&& t2.state == TcpState::FinWait2
            &&& t3.state == TcpState::TimeWait
            &&& t3.timer == Some(Timer::TimeWait(n2))
            &&& s4.tcb.state == TcpState::Closed
            &&& s4.events =~= seq![SvcEvent::Close(Seq::<u8>::empty())]
        }),
{
}

/// The shape of the acknowledgment that closes our FIN in
/// [`lemma_active_close_round_trip`]: an otherwise plain segment whose
/// acknowledgment number covers everything we sent.
pub open spec fn ack_of_fin_fits(
    t0: TcbView,
    ip0: Ipv4Hdr,
    h0: TcpHdr,
    payload: Seq<u8>,
    d: Seq<u8>,
    n0: u64,
    h1: TcpHdr,
) -> bool {
    let t1 = step(t0, ip0, h0, payload, RespView::Close(d), n0).tcb;
    &&& h1.ack
    &&& !h1.rst
    &&& !h1.syn
    &&& !h1.fin
    &&& h1.seq_num == t1.rcv_nxt
    &&& h1.ack_num == t1.snd_nxt
}

/// A window update is applied exactly when the segment's `(seq, ack)` pair
/// is lexicographically at or after the recorded `(wl1, wl2)`; an older
/// segment leaves the advertised window untouched.
pub proof fn lemma_window_update_ordering(
    pre: TcbView,
    ip: Ipv4Hdr,
    h: TcpHdr,
    payload: Seq<u8>,
    resp: RespView,
    now: u64,
)
    requires
        in_ack_states(pre.state),
        !h.rst,
        h.ack,
        crate::tcp::seg_acceptable(
            pre.rcv_nxt,
            pre.window_size,
            h.seq_num,
            spec_seg_len(h, payload.len()),
        ),
        seq_between(pre.snd_una, h.ack_num, pre.snd_nxt),
    ensures
        ({
            let s = step(pre, ip, h, payload, resp, now);
            &&& wnd_update_due(pre.snd_wl1, pre.snd_wl2, h.seq_num, h.ack_num) ==> s.tcb.snd_wnd
                == h.window as u32 && s.tcb.snd_wl1 == h.seq_num && s.tcb.snd_wl2 == h.ack_num
            &&& !wnd_update_due(pre.snd_wl1, pre.snd_wl2, h.seq_num, h.ack_num) ==> s.tcb.snd_wnd
                == pre.snd_wnd && s.tcb.snd_wl1 == pre.snd_wl1 && s.tcb.snd_wl2 == pre.snd_wl2
        }),
{
}

/// Every reply is addressed back to the sender of the segment being
/// answered: addresses and ports are swapped relative to the inbound
/// headers, the protocol is TCP and the fixed TTL is stamped.
pub proof fn lemma_replies_are_mirrored(
    pre: TcbView,
    ip: Ipv4Hdr,
    h: TcpHdr,
    payload: Seq<u8>,
    resp: RespView,
    now: u64,
)
    ensures
        ({
            let s = step(pre, ip, h, payload, resp, now);
            forall|i: int|
                0 <= i < s.out.len() ==> {
                    let seg = #[trigger] s.out[i];
                    &&& seg.ip.src == ip.dst
                    &&& seg.ip.dst == ip.src
                    &&& seg.ip.protocol == crate::segment::PROTO_TCP
                    &&& seg.ip.ttl == crate::segment::IP_TTL
                    &&& seg.tcp.src_port == h.dst_port
                    &&& seg.tcp.dst_port == h.src_port
                }
        }),
{
}

/// Purging keeps no entry whose last occupied sequence number lies below
/// the acknowledgment point: everything left in the queue still waits to
/// be acknowledged.
pub proof fn lemma_purged_holds_only_unacked(q: Seq<crate::segment::SegView>, una: u32)
    ensures
        forall|i: int|
            0 <= i < purged(q, una).len() ==> keeps_entry(una, #[trigger] purged(q, una)[i]),
    decreases q.len(),
{
    if q.len() > 0 {
        lemma_purged_holds_only_unacked(q.drop_last(), una);
        let p = purged(q.drop_last(), una);
        if keeps_entry(una, q.last()) {
            assert forall|i: int|
                0 <= i < purged(q, una).len() implies keeps_entry(
                una,
                #[trigger] purged(q, una)[i],
            ) by {
                if i < p.len() {
                    assert(purged(q, una)[i] == p[i]);
                } else {
                    assert(purged(q, una)[i] == q.last());
                }
            }
        }
    }
}

/// Purging loses nothing that still waits: an entry of the queue whose
/// last sequence number is not yet acknowledged is still there afterwards.
pub proof fn lemma_purged_keeps_unacked(q: Seq<crate::segment::SegView>, una: u32, i: int)
    requires
        0 <= i < q.len(),
        keeps_entry(una, q[i]),
    ensures
        purged(q, una).contains(q[i]),
    decreases q.len(),
{
    if i == q.len() - 1 {
        assert(purged(q, una).last() == q[i]);
    } else {
        lemma_purged_keeps_unacked(q.drop_last(), una, i);
        let p = purged(q.drop_last(), una);
        let j = choose|j: int| 0 <= j < p.len() && p[j] == q[i];
        assert(purged(q, una)[j] == q[i]);
    }
}

/// When the retransmission timer fires with unacknowledged segments
/// queued, the oldest queued segment is resent exactly as it was first
/// sent — headers and payload — and the control block is untouched.
pub proof fn lemma_retransmission_resends_oldest(pre: TcbView, t0: u64, now: u64)
    requires
        pre.timer == Some(Timer::Retransmission(t0)),
        pre.queue.len() > 0,
        now >= t0,
        now - t0 > TIMEOUT_RETR_MS,
    ensures
        ({
            let s = tick_step(pre, now);
            &&& s.out =~= seq![pre.queue[0]]
            &&& s.tcb == pre
            &&& s.events.len() == 0
        }),
{
}

} // verus!
