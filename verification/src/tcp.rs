//! The TCP connection state machine.
//!
//! A [`Tcb`] holds the per-connection state.  One call of
//! [`Tcb::on_segment`] processes one inbound segment; one call of
//! [`Tcb::on_tick`] checks the pending timer.  Both are verified against the
//! mathematical transition functions [`step`] and [`tick_step`], which state
//! the new control block, the emitted segments and the calls made into the
//! [`Service`] for every input.

use vstd::prelude::*;

use crate::segment::{
    segs_view, spec_iph_reply, spec_seg_len, spec_tcph_reply, u32_of_len, Ipv4Hdr, SegView,
    Segment, TcpHdr,
};
use crate::seqnum::{in_window, seq_between, seq_le, seq_lt};

verus! {

/// Milliseconds before an unacknowledged segment is resent.
pub const TIMEOUT_RETR_MS: u64 = 5000;

/// Milliseconds spent in the TimeWait quiet period (twice the assumed
/// maximum segment lifetime).
pub const TIMEOUT_2MSL_MS: u64 = 5000;

/// The receive window advertised by a fresh connection.
pub const DEFAULT_WINDOW: u16 = 1000;

/// The state of one connection; exactly one holds at a time.
#[derive(Clone, Copy, PartialEq, Eq, Structural, Debug)]
pub enum TcpState {
    Closed,
    Listen,
    SynSent,
    SynRecvd,
    Estab,
    FinWait1,
    FinWait2,
    CloseWait,
    Closing,
    LastAck,
    TimeWait,
}

/// How the connection was opened; decides where a reset in `SynRecvd`
/// falls back to.
#[derive(Clone, Copy, PartialEq, Eq, Structural, Debug)]
pub enum OpenMode {
    Active,
    Passive,
}

/// The one pending timer: either a retransmission deadline or the 2MSL
/// quiet period, each remembering when it was armed.  Arming one of the two
/// replaces the other.
#[derive(Clone, Copy, PartialEq, Eq, Structural, Debug)]
pub enum Timer {
    Retransmission(u64),
    TimeWait(u64),
}

/// A host address and port.
pub type Socket = ([u8; 4], u16);

/// What a [`Service`] answers when bytes arrive: nothing beyond the
/// acknowledgment, bytes to send, or bytes to send followed by a close.
pub enum Response {
    Empty,
    Data(Vec<u8>),
    Close(Vec<u8>),
}

/// The mathematical value of a [`Response`].
#[verifier::ext_equal]
pub enum RespView {
    Empty,
    Data(Seq<u8>),
    Close(Seq<u8>),
}

impl View for Response {
    type V = RespView;

    open spec fn view(&self) -> RespView {
        match self {
            Response::Empty => RespView::Empty,
            Response::Data(d) => RespView::Data(d@),
            Response::Close(d) => RespView::Close(d@),
        }
    }
}

/// One call the engine made into its service, in order.
#[verifier::ext_equal]
pub enum SvcEvent {
    Connect(Seq<u8>, RespView),
    Receive(Seq<u8>, RespView),
    Reset,
    Close(Seq<u8>),
}

/// The pluggable application layer.  The engine reports every event through
/// exactly one of the four calls; `history` records them so the engine's
/// contracts can state which calls were made.
pub trait Service: Sized {
    /// The calls received so far, oldest first.
    spec fn history(&self) -> Seq<SvcEvent>;

    /// Called when a connection is opened.
    fn on_connect(&mut self, data: &[u8]) -> (r: Response)
        ensures
            final(self).history() == old(self).history().push(
                SvcEvent::Connect(data@, r@),
            ),
    ;

    /// Called with every non-empty run of delivered payload bytes.
    fn on_receive(&mut self, data: &[u8]) -> (r: Response)
        ensures
            final(self).history() == old(self).history().push(
                SvcEvent::Receive(data@, r@),
            ),
    ;

    /// Called when the peer resets the connection during the handshake.
    fn on_reset(&mut self)
        ensures
            final(self).history() == old(self).history().push(SvcEvent::Reset),
    ;

    /// Called when the connection is torn down.
    fn on_close(&mut self, data: &[u8])
        ensures
            final(self).history() == old(self).history().push(SvcEvent::Close(data@)),
    ;
}

/// The transmission control block: all state of one connection.
pub struct Tcb {
    pub state: TcpState,
    pub local_socket: Socket,
    pub foreign_socket: Option<Socket>,
    pub open_mode: OpenMode,
    pub window_size: u16,
    pub irs: u32,
    pub iss: u32,
    pub snd_una: u32,
    pub snd_nxt: u32,
    pub snd_wnd: u32,
    pub snd_wl1: u32,
    pub snd_wl2: u32,
    pub rcv_nxt: u32,
    pub retransmission_queue: Vec<Segment>,
    pub timer_pending: Option<Timer>,
}

/// The mathematical value of a [`Tcb`].
#[verifier::ext_equal]
pub struct TcbView {
    pub state: TcpState,
    pub local_socket: Socket,
    pub foreign_socket: Option<Socket>,
    pub open_mode: OpenMode,
    pub window_size: u16,
    pub irs: u32,
    pub iss: u32,
    pub snd_una: u32,
    pub snd_nxt: u32,
    pub snd_wnd: u32,
    pub snd_wl1: u32,
    pub snd_wl2: u32,
    pub rcv_nxt: u32,
    pub queue: Seq<SegView>,
    pub timer: Option<Timer>,
}

impl View for Tcb {
    type V = TcbView;

    open spec fn view(&self) -> TcbView {
        TcbView {
            state: self.state,
            local_socket: self.local_socket,
            foreign_socket: self.foreign_socket,
            open_mode: self.open_mode,
            window_size: self.window_size,
            irs: self.irs,
            iss: self.iss,
            snd_una: self.snd_una,
            snd_nxt: self.snd_nxt,
            snd_wnd: self.snd_wnd,
            snd_wl1: self.snd_wl1,
            snd_wl2: self.snd_wl2,
            rcv_nxt: self.rcv_nxt,
            queue: segs_view(self.retransmission_queue@),
            timer: self.timer_pending,
        }
    }
}

impl Tcb {
    /// A fresh control block listening on `local_socket`.  `iss` is the
    /// initial send sequence number the connection will use; callers inject
    /// it so that production code can randomize it while tests pin it.
    pub fn new(
        local_socket: Socket,
        foreign_socket: Option<Socket>,
        open_mode: OpenMode,
        iss: u32,
    ) -> (r: Tcb)
        ensures
            (r@ == TcbView {
                state: TcpState::Listen,
                local_socket,
                foreign_socket,
                open_mode,
                window_size: DEFAULT_WINDOW,
                irs: 0,
                iss,
                snd_una: 0,
                snd_nxt: 0,
                snd_wnd: 0,
                snd_wl1: 0,
                snd_wl2: 0,
                rcv_nxt: 0,
                queue: Seq::<SegView>::empty(),
                timer: None::<Timer>,
            }),
    {
        let r = Tcb {
            state: TcpState::Listen,
            local_socket,
            foreign_socket,
            open_mode,
            window_size: DEFAULT_WINDOW,
            irs: 0,
            iss,
            snd_una: 0,
            snd_nxt: 0,
            snd_wnd: 0,
            snd_wl1: 0,
            snd_wl2: 0,
            rcv_nxt: 0,
            retransmission_queue: Vec::new(),
            timer_pending: None,
        };
        proof {
            assert(r@.queue =~= Seq::<SegView>::empty());
        }
        r
    }
}

/// The result of one transition: the new control block, the segments to
/// emit (oldest first) and the service calls made, in order.
#[verifier::ext_equal]
pub struct StepResult {
    pub tcb: TcbView,
    pub out: Seq<SegView>,
    pub events: Seq<SvcEvent>,
}

/// Whether a segment of `slen` sequence-space bytes starting at `seq` is
/// acceptable against the receive window: an empty segment must sit inside
/// the window (or exactly at `rcv_nxt` when the window is zero); a
/// non-empty one must cover `rcv_nxt` and end inside the window.
pub open spec fn seg_acceptable(rcv_nxt: u32, wnd: u16, seq: u32, slen: u32) -> bool {
    ||| (slen == 0 && wnd == 0 && seq == rcv_nxt)
    ||| (slen == 0 && wnd > 0 && in_window(seq, rcv_nxt, wnd as u32))
    ||| (slen > 0 && wnd > 0 && in_window(rcv_nxt, seq, slen) && in_window(
        seq.wrapping_add(slen).wrapping_sub(1),
        rcv_nxt,
        wnd as u32,
    ))
}

/// Whether a window update carried by `(seq, ack)` is newer than the last
/// recorded one `(wl1, wl2)`: true exactly when `(seq, ack)` is
/// lexicographically at or after `(wl1, wl2)` in serial order.
pub open spec fn wnd_update_due(wl1: u32, wl2: u32, seq: u32, ack: u32) -> bool {
    seq_lt(wl1, seq) || (wl1 == seq && seq_le(wl2, ack))
}

/// The last sequence number a queued segment occupies.
pub open spec fn entry_last_seq(s: SegView) -> u32 {
    s.tcp.seq_num.wrapping_add(spec_seg_len(s.tcp, s.payload.len())).wrapping_sub(1)
}

/// Whether a queue entry still waits for acknowledgment at `una`.
pub open spec fn keeps_entry(una: u32, s: SegView) -> bool {
    seq_le(una, entry_last_seq(s))
}

/// The retransmission queue with every entry acknowledged below `una`
/// removed, order kept.
pub open spec fn purged(q: Seq<SegView>, una: u32) -> Seq<SegView>
    decreases q.len(),
{
    if q.len() == 0 {
        Seq::empty()
    } else {
        let rest = purged(q.drop_last(), una);
        if keeps_entry(una, q.last()) {
            rest.push(q.last())
        } else {
            rest
        }
    }
}

/// Arms the retransmission timer at `now` if no timer is pending; a pending
/// timer of either kind is left alone.
pub open spec fn arm_retransmission(t: Option<Timer>, now: u64) -> Option<Timer> {
    match t {
        None => Some(Timer::Retransmission(now)),
        Some(x) => Some(x),
    }
}

/// Disarms a pending retransmission timer once the queue is empty.
pub open spec fn drop_retransmission_if_idle(t: Option<Timer>, queue_len: nat) -> Option<
    Timer,
> {
    if queue_len == 0 {
        match t {
            Some(Timer::Retransmission(_)) => None,
            _ => t,
        }
    } else {
        t
    }
}

/// A reply segment: ports and addresses mirrored from the inbound headers,
/// with the given sequence number, acknowledgment number, flags and
/// payload.
pub open spec fn spec_reply_seg(
    in_iph: Ipv4Hdr,
    in_tcph: TcpHdr,
    seq_num: u32,
    ack_num: u32,
    ack: bool,
    rst: bool,
    syn: bool,
    fin: bool,
    wnd: u16,
    payload: Seq<u8>,
) -> SegView {
    let base = spec_tcph_reply(in_tcph, seq_num, wnd);
    SegView {
        ip: spec_iph_reply(in_iph, payload.len()),
        tcp: TcpHdr { ack_num, ack, rst, syn, fin, ..base },
        payload,
    }
}

/// A transition that changes nothing and emits nothing.
pub open spec fn unchanged_step(pre: TcbView) -> StepResult {
    StepResult { tcb: pre, out: seq![], events: seq![] }
}

/// The reply to an unsolicited ACK: a bare reset whose sequence number
/// echoes the peer's acknowledgment number.
pub open spec fn bare_rst_step(pre: TcbView, ip: Ipv4Hdr, h: TcpHdr) -> StepResult {
    StepResult {
        tcb: pre,
        out: seq![
            spec_reply_seg(
                ip,
                h,
                h.ack_num,
                0,
                false,
                true,
                false,
                false,
                pre.window_size,
                Seq::<u8>::empty(),
            )
        ],
        events: seq![],
    }
}

/// An empty acknowledgment echoing the current send and receive positions.
pub open spec fn spec_ack_echo(pre: TcbView, ip: Ipv4Hdr, h: TcpHdr) -> SegView {
    spec_reply_seg(
        ip,
        h,
        pre.snd_nxt,
        pre.rcv_nxt,
        true,
        false,
        false,
        false,
        pre.window_size,
        Seq::<u8>::empty(),
    )
}

/// States in which an arriving acknowledgment advances `snd_una`.
pub open spec fn in_ack_states(s: TcpState) -> bool {
    s == TcpState::Estab || s == TcpState::FinWait1 || s == TcpState::CloseWait || s
        == TcpState::Closing
}

/// States in which payload bytes are delivered to the service.
pub open spec fn in_delivery_states(s: TcpState) -> bool {
    s == TcpState::Estab || s == TcpState::FinWait1 || s == TcpState::FinWait2
}

/// States handled by the general segment path rather than a
/// state-specific pre-check.
pub open spec fn in_general_states(s: TcpState) -> bool {
    s != TcpState::Closed && s != TcpState::Listen && s != TcpState::SynSent
}

/// The transition out of `Closed`: resets are dropped, an ACK is answered
/// with a bare reset, and anything else with a reset acknowledging the
/// whole segment.
pub open spec fn step_closed(
    pre: TcbView,
    ip: Ipv4Hdr,
    h: TcpHdr,
    payload: Seq<u8>,
) -> StepResult {
    if h.rst {
        unchanged_step(pre)
    } else if h.ack {
        bare_rst_step(pre, ip, h)
    } else {
        let slen = spec_seg_len(h, payload.len());
        StepResult {
            tcb: pre,
            out: seq![
                spec_reply_seg(
                    ip,
                    h,
                    0,
                    h.seq_num.wrapping_add(slen),
                    true,
                    true,
                    false,
                    false,
                    pre.window_size,
                    Seq::<u8>::empty(),
                )
            ],
            events: seq![],
        }
    }
}

/// The transition out of `Listen`: a valid SYN records the peer's numbers,
/// answers SYN+ACK and moves to `SynRecvd`.
pub open spec fn step_listen(
    pre: TcbView,
    ip: Ipv4Hdr,
    h: TcpHdr,
    payload: Seq<u8>,
    now: u64,
) -> StepResult {
    if h.rst {
        unchanged_step(pre)
    } else if h.ack {
        bare_rst_step(pre, ip, h)
    } else if h.syn {
        let rcv_nxt = h.seq_num.wrapping_add(1);
        let synack = spec_reply_seg(
            ip,
            h,
            pre.iss,
            rcv_nxt,
            true,
            false,
            true,
            false,
            pre.window_size,
            Seq::<u8>::empty(),
        );
        StepResult {
            tcb: TcbView {
                state: TcpState::SynRecvd,
                foreign_socket: Some((ip.src, h.src_port)),
                irs: h.seq_num,
                snd_una: pre.iss,
                snd_nxt: pre.iss.wrapping_add(1),
                rcv_nxt,
                queue: pre.queue.push(synack),
                timer: arm_retransmission(pre.timer, now),
                ..pre
            },
            out: seq![synack],
            events: seq![],
        }
    } else {
        unchanged_step(pre)
    }
}

/// The transition out of `SynSent`: an unacceptable ACK draws a bare
/// reset; an acceptable RST closes the connection; a SYN records the
/// peer's numbers and either completes the open (our SYN acknowledged) or
/// falls back to `SynRecvd` with a fresh SYN+ACK.
pub open spec fn step_syn_sent(
    pre: TcbView,
    ip: Ipv4Hdr,
    h: TcpHdr,
    payload: Seq<u8>,
    now: u64,
) -> StepResult {
    let ack_ok = h.ack && seq_lt(pre.iss, h.ack_num) && seq_le(h.ack_num, pre.snd_nxt);
    if h.ack && !ack_ok {
        bare_rst_step(pre, ip, h)
    } else if h.rst {
        if ack_ok {
            StepResult {
                tcb: TcbView { state: TcpState::Closed, ..pre },
                out: seq![],
                events: seq![SvcEvent::Reset],
            }
        } else {
            unchanged_step(pre)
        }
    } else if h.syn {
        let rcv_nxt = h.seq_num.wrapping_add(1);
        let snd_una = if h.ack {
            h.ack_num
        } else {
            pre.snd_una
        };
        let q = purged(pre.queue, snd_una);
        let timer = drop_retransmission_if_idle(pre.timer, q.len());
        if seq_lt(pre.iss, snd_una) {
            let ackseg = spec_reply_seg(
                ip,
                h,
                pre.snd_nxt,
                rcv_nxt,
                true,
                false,
                false,
                false,
                pre.window_size,
                Seq::<u8>::empty(),
            );
            StepResult {
                tcb: TcbView {
                    state: TcpState::Estab,
                    irs: h.seq_num,
                    snd_una,
                    rcv_nxt,
                    queue: q,
                    timer,
                    ..pre
                },
                out: seq![ackseg],
                events: seq![],
            }
        } else {
            let synack = spec_reply_seg(
                ip,
                h,
                pre.iss,
                rcv_nxt,
                true,
                false,
                true,
                false,
                pre.window_size,
                Seq::<u8>::empty(),
            );
            StepResult {
                tcb: TcbView {
                    state: TcpState::SynRecvd,
                    irs: h.seq_num,
                    snd_una,
                    rcv_nxt,
                    queue: q.push(synack),
                    timer: arm_retransmission(timer, now),
                    ..pre
                },
                out: seq![synack],
                events: seq![],
            }
        }
    } else {
        unchanged_step(pre)
    }
}

/// Applies an in-range acknowledgment: `snd_una` advances, fully
/// acknowledged queue entries are purged, and the send window is updated
/// when the segment carries a newer `(seq, ack)` pair.
pub open spec fn apply_ack(t: TcbView, h: TcpHdr) -> TcbView {
    let q = purged(t.queue, h.ack_num);
    let due = wnd_update_due(t.snd_wl1, t.snd_wl2, h.seq_num, h.ack_num);
    TcbView {
        snd_una: h.ack_num,
        queue: q,
        timer: drop_retransmission_if_idle(t.timer, q.len()),
        snd_wnd: if due {
            h.window as u32
        } else {
            t.snd_wnd
        },
        snd_wl1: if due {
            h.seq_num
        } else {
            t.snd_wl1
        },
        snd_wl2: if due {
            h.ack_num
        } else {
            t.snd_wl2
        },
        ..t
    }
}

/// Payload delivery in `Estab`, `FinWait1` or `FinWait2`: `rcv_nxt`
/// advances over the whole segment, a non-empty payload goes to the
/// service, and the service's answer decides whether the acknowledgment
/// carries data, carries data and FIN (beginning the active close), or
/// nothing.
pub open spec fn step_delivery(
    t: TcbView,
    ip: Ipv4Hdr,
    h: TcpHdr,
    payload: Seq<u8>,
    slen: u32,
    resp: RespView,
    now: u64,
    acc: Seq<SegView>,
) -> StepResult {
    let rcv_nxt = h.seq_num.wrapping_add(slen);
    let t1 = TcbView { rcv_nxt, ..t };
    let delivered = payload.len() > 0;
    let events: Seq<SvcEvent> = if delivered {
        seq![SvcEvent::Receive(payload, resp)]
    } else {
        seq![]
    };
    let eff = if delivered {
        resp
    } else {
        RespView::Empty
    };
    match eff {
        RespView::Data(d) => {
            let seg = spec_reply_seg(
                ip,
                h,
                t1.snd_nxt,
                rcv_nxt,
                true,
                false,
                false,
                false,
                t1.window_size,
                d,
            );
            let t2 = TcbView {
                snd_nxt: t1.snd_nxt.wrapping_add(u32_of_len(d.len())),
                queue: if d.len() > 0 {
                    t1.queue.push(seg)
                } else {
                    t1.queue
                },
                timer: if d.len() > 0 {
                    arm_retransmission(t1.timer, now)
                } else {
                    t1.timer
                },
                ..t1
            };
            step_fin(t2, h, now, acc.push(seg), events)
        }
        RespView::Close(d) => {
            let seg = spec_reply_seg(
                ip,
                h,
                t1.snd_nxt,
                rcv_nxt,
                true,
                false,
                false,
                true,
                t1.window_size,
                d,
            );
            let t2 = TcbView {
                state: TcpState::FinWait1,
                snd_nxt: t1.snd_nxt.wrapping_add(u32_of_len(d.len())).wrapping_add(1),
                queue: t1.queue.push(seg),
                timer: arm_retransmission(t1.timer, now),
                ..t1
            };
            StepResult { tcb: t2, out: acc.push(seg), events }
        }
        RespView::Empty => {
            let seg = spec_reply_seg(
                ip,
                h,
                t1.snd_nxt,
                rcv_nxt,
                true,
                false,
                false,
                false,
                t1.window_size,
                Seq::<u8>::empty(),
            );
            step_fin(t1, h, now, acc.push(seg), events)
        }
    }
}

/// Processing of the peer's FIN flag at the end of the general path.
pub open spec fn step_fin(
    t: TcbView,
    h: TcpHdr,
    now: u64,
    acc: Seq<SegView>,
    events: Seq<SvcEvent>,
) -> StepResult {
    if !h.fin {
        StepResult { tcb: t, out: acc, events }
    } else {
        match t.state {
            TcpState::SynRecvd | TcpState::Estab => StepResult {
                tcb: TcbView { state: TcpState::CloseWait, ..t },
                out: acc,
                events,
            },
            TcpState::FinWait1 => if t.snd_una == t.snd_nxt {
                StepResult {
                    tcb: TcbView { state: TcpState::Closing, ..t },
                    out: acc,
                    events,
                }
            } else {
                StepResult { tcb: t, out: acc, events }
            },
            TcpState::FinWait2 => StepResult {
                tcb: TcbView {
                    state: TcpState::TimeWait,
                    timer: Some(Timer::TimeWait(now)),
                    ..t
                },
                out: acc,
                events,
            },
            _ => StepResult { tcb: t, out: acc, events },
        }
    }
}

/// The general path once the RST and ACK gates are passed: `SynRecvd`
/// promotion, acknowledgment processing with its state-specific FIN-ack
/// transitions, the `TimeWait` re-acknowledgment, payload delivery and the
/// peer's FIN.
pub open spec fn step_acked(
    pre: TcbView,
    ip: Ipv4Hdr,
    h: TcpHdr,
    payload: Seq<u8>,
    slen: u32,
    resp: RespView,
    now: u64,
) -> StepResult {
    let promote = pre.state == TcpState::SynRecvd && seq_between(
        pre.snd_una,
        h.ack_num,
        pre.snd_nxt,
    );
    let acc0: Seq<SegView> = if pre.state == TcpState::SynRecvd && !promote {
        seq![
            spec_reply_seg(
                ip,
                h,
                h.ack_num,
                0,
                false,
                true,
                false,
                false,
                pre.window_size,
                Seq::<u8>::empty(),
            )
        ]
    } else {
        seq![]
    };
    let ta = if promote {
        TcbView { state: TcpState::Estab, ..pre }
    } else {
        pre
    };
    if in_ack_states(ta.state) && !seq_between(ta.snd_una, h.ack_num, ta.snd_nxt) && !seq_lt(
        h.ack_num,
        ta.snd_una,
    ) {
        StepResult { tcb: ta, out: acc0.push(spec_ack_echo(ta, ip, h)), events: seq![] }
    } else {
        let tb = if in_ack_states(ta.state) && seq_between(ta.snd_una, h.ack_num, ta.snd_nxt) {
            apply_ack(ta, h)
        } else {
            ta
        };
        let tc = if in_ack_states(ta.state) && tb.state == TcpState::FinWait1 && tb.snd_una
            == tb.snd_nxt {
            TcbView { state: TcpState::FinWait2, ..tb }
        } else {
            tb
        };
        if in_ack_states(ta.state) && tc.state == TcpState::Closing {
            if tc.snd_una == tc.snd_nxt {
                StepResult {
                    tcb: TcbView {
                        state: TcpState::TimeWait,
                        timer: Some(Timer::TimeWait(now)),
                        ..tc
                    },
                    out: acc0,
                    events: seq![],
                }
            } else {
                StepResult { tcb: tc, out: acc0, events: seq![] }
            }
        } else {
            let td = if tc.state == TcpState::LastAck && h.ack_num == tc.snd_nxt {
                TcbView { state: TcpState::Closed, ..tc }
            } else {
                tc
            };
            let rearm = td.state == TcpState::TimeWait && h.fin;
            let te = if rearm {
                TcbView { timer: Some(Timer::TimeWait(now)), ..td }
            } else {
                td
            };
            let acc1 = if rearm {
                acc0.push(
                    spec_reply_seg(
                        ip,
                        h,
                        td.snd_nxt,
                        h.seq_num.wrapping_add(slen),
                        true,
                        false,
                        false,
                        false,
                        td.window_size,
                        Seq::<u8>::empty(),
                    ),
                )
            } else {
                acc0
            };
            if in_delivery_states(te.state) {
                step_delivery(te, ip, h, payload, slen, resp, now, acc1)
            } else {
                step_fin(te, h, now, acc1, seq![])
            }
        }
    }
}

/// The general path for every state past the handshake pre-checks: the
/// sequence-acceptability test, the RST and ACK gates, then
/// [`step_acked`].
pub open spec fn step_general(
    pre: TcbView,
    ip: Ipv4Hdr,
    h: TcpHdr,
    payload: Seq<u8>,
    resp: RespView,
    now: u64,
) -> StepResult {
    let slen = spec_seg_len(h, payload.len());
    let acceptable = seg_acceptable(pre.rcv_nxt, pre.window_size, h.seq_num, slen);
    if !acceptable && !h.rst {
        StepResult { tcb: pre, out: seq![spec_ack_echo(pre, ip, h)], events: seq![] }
    } else if h.rst {
        if pre.state == TcpState::SynRecvd && pre.open_mode == OpenMode::Passive {
            StepResult {
                tcb: TcbView { state: TcpState::Listen, ..pre },
                out: seq![],
                events: seq![],
            }
        } else {
            StepResult {
                tcb: TcbView { state: TcpState::Closed, ..pre },
                out: seq![],
                events: seq![SvcEvent::Close(Seq::<u8>::empty())],
            }
        }
    } else if !h.ack {
        unchanged_step(pre)
    } else {
        step_acked(pre, ip, h, payload, slen, resp, now)
    }
}

/// The transition taken when one inbound segment is processed: the new
/// control block, the replies to emit and the service calls made.  `resp`
/// is the answer the service gives if the segment's payload is delivered;
/// when no delivery happens the result does not depend on it.
pub open spec fn step(
    pre: TcbView,
    ip: Ipv4Hdr,
    h: TcpHdr,
    payload: Seq<u8>,
    resp: RespView,
    now: u64,
) -> StepResult {
    match pre.state {
        TcpState::Closed => step_closed(pre, ip, h, payload),
        TcpState::Listen => step_listen(pre, ip, h, payload, now),
        TcpState::SynSent => step_syn_sent(pre, ip, h, payload, now),
        _ => step_general(pre, ip, h, payload, resp, now),
    }
}

/// Builds a reply segment from the inbound headers with the given numbers,
/// flags and payload.
fn reply_seg(
    in_iph: &Ipv4Hdr,
    in_tcph: &TcpHdr,
    seq_num: u32,
    ack_num: u32,
    ack: bool,
    rst: bool,
    syn: bool,
    fin: bool,
    wnd: u16,
    payload: Vec<u8>,
) -> (r: Segment)
    ensures
        (r@ == spec_reply_seg(
            *in_iph,
            *in_tcph,
            seq_num,
            ack_num,
            ack,
            rst,
            syn,
            fin,
            wnd,
            payload@,
        )),
{
    let mut tcp = crate::segment::tcph_reply(in_tcph, seq_num, wnd);
    tcp.ack_num = ack_num;
    tcp.ack = ack;
    tcp.rst = rst;
    tcp.syn = syn;
    tcp.fin = fin;
    let ip = crate::segment::iph_reply(in_iph, payload.len());
    Segment { ip, tcp, payload }
}

/// Executable form of [`in_ack_states`].
fn in_ack_states_ex(s: TcpState) -> (r: bool)
    ensures
        r == in_ack_states(s),
{
    match s {
        TcpState::Estab => true,
        TcpState::FinWait1 => true,
        TcpState::CloseWait => true,
        TcpState::Closing => true,
        _ => false,
    }
}

/// Executable form of [`in_delivery_states`].
fn in_delivery_states_ex(s: TcpState) -> (r: bool)
    ensures
        r == in_delivery_states(s),
{
    match s {
        TcpState::Estab => true,
        TcpState::FinWait1 => true,
        TcpState::FinWait2 => true,
        _ => false,
    }
}

impl Tcb {
    /// Whether a segment starting at `seq` with `slen` sequence-space bytes
    /// is acceptable against the current receive window.
    pub fn is_acceptable(&self, seq: u32, slen: u32) -> (r: bool)
        ensures
            r == seg_acceptable(self.rcv_nxt, self.window_size, seq, slen),
    {
        let wnd = self.window_size as u32;
        (slen == 0 && wnd == 0 && seq == self.rcv_nxt) || (slen == 0 && wnd > 0
            && crate::seqnum::in_window_ex(seq, self.rcv_nxt, wnd)) || (slen > 0 && wnd > 0
            && crate::seqnum::in_window_ex(self.rcv_nxt, seq, slen)
            && crate::seqnum::in_window_ex(
            seq.wrapping_add(slen).wrapping_sub(1),
            self.rcv_nxt,
            wnd,
        ))
    }

    /// Removes every retransmission-queue entry whose last occupied
    /// sequence number lies below `una`.
    pub fn purge_acked(&mut self, una: u32)
        ensures
            (final(self)@ == TcbView { queue: purged(old(self)@.queue, una), ..old(self)@ }),
    {
        let mut kept: Vec<Segment> = Vec::new();
        let mut i: usize = 0;
        let n = self.retransmission_queue.len();
        while i < n
            invariant
                i <= n,
                n == self.retransmission_queue@.len(),
                self.retransmission_queue@ == old(self).retransmission_queue@,
                segs_view(kept@) == purged(
                    segs_view(self.retransmission_queue@.subrange(0, i as int)),
                    una,
                ),
            decreases n - i,
        {
            let entry = &self.retransmission_queue[i];
            let last = entry.tcp.seq_num.wrapping_add(
                crate::segment::seg_len(&entry.tcp, entry.payload.len()),
            ).wrapping_sub(1);
            let ghost prefix = segs_view(self.retransmission_queue@.subrange(0, i as int));
            let ghost kept0 = kept@;
            if crate::seqnum::seq_le_ex(una, last) {
                let dup = entry.clone();
                let ghost dupseg = dup;
                kept.push(dup);
                proof {
                    crate::segment::lemma_segs_view_push(kept0, dupseg);
                }
            }
            proof {
                let q = self.retransmission_queue@;
                assert(q.subrange(0, i + 1) =~= q.subrange(0, i as int).push(q[i as int]));
                crate::segment::lemma_segs_view_push(q.subrange(0, i as int), q[i as int]);
                let ext = prefix.push(q[i as int]@);
                assert(ext.drop_last() =~= prefix);
                assert(segs_view(kept@) == purged(segs_view(q.subrange(0, i + 1)), una));
            }
            i = i + 1;
        }
        proof {
            assert(self.retransmission_queue@.subrange(0, n as int)
                =~= self.retransmission_queue@);
        }
        self.retransmission_queue = kept;
    }

    /// Applies a window update when `(seq, ack)` is lexicographically at or
    /// after the last recorded `(wl1, wl2)` pair, and ignores it otherwise.
    pub fn update_send_window(&mut self, seq: u32, ack: u32, window: u16)
        ensures
            (final(self)@ == if wnd_update_due(old(self).snd_wl1, old(self).snd_wl2, seq, ack) {
                TcbView { snd_wnd: window as u32, snd_wl1: seq, snd_wl2: ack, ..old(self)@ }
            } else {
                old(self)@
            }),
    {
        if crate::seqnum::seq_lt_ex(self.snd_wl1, seq) || (self.snd_wl1 == seq
            && crate::seqnum::seq_le_ex(self.snd_wl2, ack)) {
            self.snd_wnd = window as u32;
            self.snd_wl1 = seq;
            self.snd_wl2 = ack;
        }
    }

    /// Arms the retransmission timer at `now` unless a timer is already
    /// pending.
    fn arm_retransmission_at(&mut self, now: u64)
        ensures
            (final(self)@ == TcbView {
                timer: arm_retransmission(old(self)@.timer, now),
                ..old(self)@
            }),
    {
        match self.timer_pending {
            None => {
                self.timer_pending = Some(Timer::Retransmission(now));
            },
            Some(_) => {},
        }
    }

    /// Disarms a pending retransmission timer once the queue is empty.
    fn drop_idle_retransmission_timer(&mut self)
        ensures
            (final(self)@ == TcbView {
                timer: drop_retransmission_if_idle(old(self)@.timer, old(self)@.queue.len()),
                ..old(self)@
            }),
    {
        if self.retransmission_queue.len() == 0 {
            match self.timer_pending {
                Some(Timer::Retransmission(_)) => {
                    self.timer_pending = None;
                },
                _ => {},
            }
        }
    }

    /// Processes one inbound segment: validates it against the current
    /// state, mutates the control block, hands delivered payload to the
    /// service and returns the segments to send in reply.  The whole effect
    /// equals [`step`] applied to the prior state, the segment and the
    /// service's answer (returned as the ghost half of the result).
    #[verifier::rlimit(100)]
    #[verifier::spinoff_prover]
    pub fn on_segment<S: Service>(
        &mut self,
        svc: &mut S,
        in_iph: &Ipv4Hdr,
        in_tcph: &TcpHdr,
        payload: &Vec<u8>,
        now: u64,
    ) -> (r: (Vec<Segment>, Ghost<RespView>))
        ensures
            ({
                let s = step(old(self)@, *in_iph, *in_tcph, payload@, r.1@, now);
                &&& final(self)@ == s.tcb
                &&& segs_view(r.0@) == s.out
                &&& final(svc).history() == old(svc).history() + s.events
            }),
    {
        let mut out: Vec<Segment> = Vec::new();
        proof {
            assert(segs_view(out@) =~= Seq::<SegView>::empty());
        }
        let ghost gresp: RespView = RespView::Empty;

        // State-specific pre-checks.
        if self.state == TcpState::Closed {
            if in_tcph.rst {
                return (out, Ghost(gresp));
            }
            if in_tcph.ack {
                out.push(self.bare_rst_reply(in_iph, in_tcph));
                return (out, Ghost(gresp));
            }
            let slen = crate::segment::seg_len(in_tcph, payload.len());
            let seg = reply_seg(
                in_iph,
                in_tcph,
                0,
                in_tcph.seq_num.wrapping_add(slen),
                true,
                true,
                false,
                false,
                self.window_size,
                Vec::new(),
            );
            out.push(seg);
            return (out, Ghost(gresp));
        }
        if self.state == TcpState::Listen {
            if in_tcph.rst {
                return (out, Ghost(gresp));
            }
            if in_tcph.ack {
                out.push(self.bare_rst_reply(in_iph, in_tcph));
                return (out, Ghost(gresp));
            }
            if in_tcph.syn {
                self.rcv_nxt = in_tcph.seq_num.wrapping_add(1);
                self.irs = in_tcph.seq_num;
                self.foreign_socket = Some((in_iph.src, in_tcph.src_port));
                let synack = reply_seg(
                    in_iph,
                    in_tcph,
                    self.iss,
                    self.rcv_nxt,
                    true,
                    false,
                    true,
                    false,
                    self.window_size,
                    Vec::new(),
                );
                out.push(synack.clone());
                self.retransmission_queue.push(synack);
                self.arm_retransmission_at(now);
                self.snd_nxt = self.iss.wrapping_add(1);
                self.snd_una = self.iss;
                self.state = TcpState::SynRecvd;
                return (out, Ghost(gresp));
            }
            return (out, Ghost(gresp));
        }
        if self.state == TcpState::SynSent {
            let mut ack_acceptable = false;
            if in_tcph.ack {
                if !(crate::seqnum::seq_lt_ex(self.iss, in_tcph.ack_num)
                    && crate::seqnum::seq_le_ex(in_tcph.ack_num, self.snd_nxt)) {
                    out.push(self.bare_rst_reply(in_iph, in_tcph));
                    return (out, Ghost(gresp));
                }
                ack_acceptable = true;
            }
            if in_tcph.rst {
                if ack_acceptable {
                    svc.on_reset();
                    self.state = TcpState::Closed;
                    return (out, Ghost(gresp));
                }
                return (out, Ghost(gresp));
            }
            if in_tcph.syn {
                self.rcv_nxt = in_tcph.seq_num.wrapping_add(1);
                self.irs = in_tcph.seq_num;
                if in_tcph.ack {
                    self.snd_una = in_tcph.ack_num;
                }
                self.purge_acked(self.snd_una);
                self.drop_idle_retransmission_timer();
                if crate::seqnum::seq_lt_ex(self.iss, self.snd_una) {
                    self.state = TcpState::Estab;
                    let seg = reply_seg(
                        in_iph,
                        in_tcph,
                        self.snd_nxt,
                        self.rcv_nxt,
                        true,
                        false,
                        false,
                        false,
                        self.window_size,
                        Vec::new(),
                    );
                    out.push(seg);
                    return (out, Ghost(gresp));
                } else {
                    self.state = TcpState::SynRecvd;
                    let synack = reply_seg(
                        in_iph,
                        in_tcph,
                        self.iss,
                        self.rcv_nxt,
                        true,
                        false,
                        true,
                        false,
                        self.window_size,
                        Vec::new(),
                    );
                    let ghost q1 = self@.queue;
                    out.push(synack.clone());
                    self.retransmission_queue.push(synack);
                    self.arm_retransmission_at(now);
                    return (out, Ghost(gresp));
                }
            }
            return (out, Ghost(gresp));
        }

        // General path.
        let ghost pre = self@;
        let slen = crate::segment::seg_len(in_tcph, payload.len());
        let acceptable = self.is_acceptable(in_tcph.seq_num, slen);
        if !acceptable && !in_tcph.rst {
            out.push(self.ack_echo_reply(in_iph, in_tcph));
            return (out, Ghost(gresp));
        }
        if in_tcph.rst {
            if self.state == TcpState::SynRecvd && self.open_mode == OpenMode::Passive {
                self.state = TcpState::Listen;
                return (out, Ghost(gresp));
            }
            self.state = TcpState::Closed;
            let empty: Vec<u8> = Vec::new();
            svc.on_close(empty.as_slice());
            return (out, Ghost(gresp));
        }
        if !in_tcph.ack {
            return (out, Ghost(gresp));
        }

        // Acknowledgment processing.
        if self.state == TcpState::SynRecvd {
            if crate::seqnum::seq_between_ex(self.snd_una, in_tcph.ack_num, self.snd_nxt) {
                self.state = TcpState::Estab;
            } else {
                out.push(self.bare_rst_reply(in_iph, in_tcph));
            }
        }
        let ghost ta = self@;
        let in_ack = in_ack_states_ex(self.state);
        if in_ack {
            if crate::seqnum::seq_between_ex(self.snd_una, in_tcph.ack_num, self.snd_nxt) {
                self.snd_una = in_tcph.ack_num;
                self.purge_acked(in_tcph.ack_num);
                self.drop_idle_retransmission_timer();
                self.update_send_window(in_tcph.seq_num, in_tcph.ack_num, in_tcph.window);
                proof {
                    assert(self@ =~= apply_ack(ta, *in_tcph));
                }
            } else if crate::seqnum::seq_lt_ex(in_tcph.ack_num, self.snd_una) {
                // A stale duplicate: ignore it.
            } else {
                out.push(self.ack_echo_reply(in_iph, in_tcph));
                return (out, Ghost(gresp));
            }
            if self.state == TcpState::FinWait1 && self.snd_una == self.snd_nxt {
                self.state = TcpState::FinWait2;
            }
            if self.state == TcpState::Closing {
                if self.snd_una == self.snd_nxt {
                    self.state = TcpState::TimeWait;
                    self.timer_pending = Some(Timer::TimeWait(now));
                }
                return (out, Ghost(gresp));
            }
        }

        // A final acknowledgment in LastAck ends the connection.
        if self.state == TcpState::LastAck {
            if in_tcph.ack_num == self.snd_nxt {
                self.state = TcpState::Closed;
            }
        }

        // A retransmitted FIN in TimeWait is re-acknowledged and restarts
        // the quiet period.
        if self.state == TcpState::TimeWait && in_tcph.fin {
            let seg = reply_seg(
                in_iph,
                in_tcph,
                self.snd_nxt,
                in_tcph.seq_num.wrapping_add(slen),
                true,
                false,
                false,
                false,
                self.window_size,
                Vec::new(),
            );
            out.push(seg);
            self.timer_pending = Some(Timer::TimeWait(now));
        }

        // Payload delivery.
        if in_delivery_states_ex(self.state) {
            let ghost te = self@;
            self.rcv_nxt = in_tcph.seq_num.wrapping_add(slen);
            let resp = if payload.len() > 0 {
                svc.on_receive(payload.as_slice())
            } else {
                Response::Empty
            };
            proof {
                gresp = resp@;
            }
            match resp {
                Response::Data(d) => {
                    let dlen = d.len();
                    let seg = reply_seg(
                        in_iph,
                        in_tcph,
                        self.snd_nxt,
                        self.rcv_nxt,
                        true,
                        false,
                        false,
                        false,
                        self.window_size,
                        d,
                    );
                    let ghost q2 = self@.queue;
                    if dlen > 0 {
                        self.retransmission_queue.push(seg.clone());
                        self.arm_retransmission_at(now);
                    }
                    out.push(seg);
                    self.snd_nxt = self.snd_nxt.wrapping_add(
                        crate::segment::u32_of_len_ex(dlen),
                    );
                },
                Response::Close(d) => {
                    let seg = reply_seg(
                        in_iph,
                        in_tcph,
                        self.snd_nxt,
                        self.rcv_nxt,
                        true,
                        false,
                        false,
                        true,
                        self.window_size,
                        d,
                    );
                    let dlen = seg.payload.len();
                    self.retransmission_queue.push(seg.clone());
                    self.arm_retransmission_at(now);
                    out.push(seg);
                    self.snd_nxt = self.snd_nxt.wrapping_add(
                        crate::segment::u32_of_len_ex(dlen),
                    ).wrapping_add(1);
                    self.state = TcpState::FinWait1;
                    return (out, Ghost(gresp));
                },
                Response::Empty => {
                    let seg = reply_seg(
                        in_iph,
                        in_tcph,
                        self.snd_nxt,
                        self.rcv_nxt,
                        true,
                        false,
                        false,
                        false,
                        self.window_size,
                        Vec::new(),
                    );
                    out.push(seg);
                },
            }
        }

        // The peer's FIN.
        if in_tcph.fin {
            match self.state {
                TcpState::SynRecvd | TcpState::Estab => {
                    self.state = TcpState::CloseWait;
                },
                TcpState::FinWait1 => {
                    if self.snd_una == self.snd_nxt {
                        self.state = TcpState::Closing;
                    }
                },
                TcpState::FinWait2 => {
                    self.state = TcpState::TimeWait;
                    self.timer_pending = Some(Timer::TimeWait(now));
                },
                _ => {},
            }
        }
        (out, Ghost(gresp))
    }

    /// The bare reset answering an unsolicited ACK.
    fn bare_rst_reply(&self, in_iph: &Ipv4Hdr, in_tcph: &TcpHdr) -> (r: Segment)
        ensures
            (r@ == spec_reply_seg(
                *in_iph,
                *in_tcph,
                in_tcph.ack_num,
                0,
                false,
                true,
                false,
                false,
                self.window_size,
                Seq::<u8>::empty(),
            )),
    {
        reply_seg(
            in_iph,
            in_tcph,
            in_tcph.ack_num,
            0,
            false,
            true,
            false,
            false,
            self.window_size,
            Vec::new(),
        )
    }

    /// An empty acknowledgment echoing the current send and receive
    /// positions.
    fn ack_echo_reply(&self, in_iph: &Ipv4Hdr, in_tcph: &TcpHdr) -> (r: Segment)
        ensures
            (r@ == spec_ack_echo(self@, *in_iph, *in_tcph)),
    {
        reply_seg(
            in_iph,
            in_tcph,
            self.snd_nxt,
            self.rcv_nxt,
            true,
            false,
            false,
            false,
            self.window_size,
            Vec::new(),
        )
    }

    /// One timer tick: fires the pending timer if its deadline has passed,
    /// resending the oldest unacknowledged segment or ending the 2MSL wait.
    pub fn on_tick<S: Service>(&mut self, svc: &mut S, now: u64) -> (out: Vec<Segment>)
        ensures
            ({
                let s = tick_step(old(self)@, now);
                final(self)@ == s.tcb && segs_view(out@) == s.out && final(svc).history()
                    == old(svc).history() + s.events
            }),
    {
        match self.timer_pending {
            Some(Timer::Retransmission(t0)) => {
                if self.retransmission_queue.len() > 0 && now >= t0 && now - t0
                    > TIMEOUT_RETR_MS {
                    let seg = self.retransmission_queue[0].clone();
                    let mut out: Vec<Segment> = Vec::new();
                    out.push(seg);
                    proof {
                        assert(segs_view(out@) =~= tick_step(self@, now).out);
                    }
                    out
                } else {
                    Vec::new()
                }
            },
            Some(Timer::TimeWait(t0)) => {
                if now >= t0 && now - t0 > TIMEOUT_2MSL_MS {
                    self.state = TcpState::Closed;
                    let empty: Vec<u8> = Vec::new();
                    svc.on_close(empty.as_slice());
                    Vec::new()
                } else {
                    Vec::new()
                }
            },
            None => Vec::new(),
        }
    }
}

/// The transition taken by one timer tick at `now`: a retransmission
/// timeout resends the oldest queued segment verbatim; a 2MSL timeout
/// closes the connection and tells the service.
pub open spec fn tick_step(pre: TcbView, now: u64) -> StepResult {
    match pre.timer {
        Some(Timer::Retransmission(t0)) => if pre.queue.len() > 0 && now >= t0 && now - t0
            > TIMEOUT_RETR_MS {
            StepResult { tcb: pre, out: seq![pre.queue[0]], events: seq![] }
        } else {
            unchanged_step(pre)
        },
        Some(Timer::TimeWait(t0)) => if now >= t0 && now - t0 > TIMEOUT_2MSL_MS {
            StepResult {
                tcb: TcbView { state: TcpState::Closed, ..pre },
                out: seq![],
                events: seq![SvcEvent::Close(Seq::<u8>::empty())],
            }
        } else {
            unchanged_step(pre)
        },
        None => unchanged_step(pre),
    }
}

} // verus!
