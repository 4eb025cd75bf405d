use tcp_engine::echo_server::EchoServer;
use tcp_engine::http_server::HTTPServer;
use tcp_engine::segment::{Ipv4Hdr, TcpHdr};
use tcp_engine::tcp::{OpenMode, Response, Service, Tcb, TcpState, Timer};

const ISS: u32 = 123445;

const PAGE_404: &str = "
HTTP/1.0 404 NOT FOUND

<html>
<body>
<h1> Requested file is not found.</h1>
</body>
</html>
            ";

fn peer_ip() -> Ipv4Hdr {
    Ipv4Hdr {
        src: [192, 168, 0, 1],
        dst: [10, 0, 0, 2],
        protocol: 6,
        ttl: 64,
        payload_len: 20,
    }
}

fn hdr(seq: u32, ack_num: u32) -> TcpHdr {
    TcpHdr {
        src_port: 4444,
        dst_port: 1000,
        seq_num: seq,
        ack_num,
        urg: false,
        ack: false,
        psh: false,
        rst: false,
        syn: false,
        fin: false,
        window: 500,
        checksum: 0,
        urg_ptr: 0,
    }
}

fn fresh_tcb() -> Tcb {
    Tcb::new(([10, 0, 0, 2], 1000), None, OpenMode::Passive, ISS)
}

#[test]
fn listen_syn_replies_syn_ack() {
    let mut tcb = fresh_tcb();
    let mut svc = EchoServer::new();
    let mut syn = hdr(1000, 0);
    syn.syn = true;
    let (out, _) = tcb.on_segment(&mut svc, &peer_ip(), &syn, &Vec::new(), 0);

    assert_eq!(tcb.state, TcpState::SynRecvd);
    assert_eq!(tcb.rcv_nxt, 1001);
    assert_eq!(tcb.irs, 1000);
    assert_eq!(tcb.snd_una, ISS);
    assert_eq!(tcb.snd_nxt, ISS + 1);
    assert_eq!(tcb.foreign_socket, Some(([192, 168, 0, 1], 4444)));

    assert_eq!(out.len(), 1);
    let seg = &out[0];
    assert!(seg.tcp.syn && seg.tcp.ack);
    assert_eq!(seg.tcp.seq_num, ISS);
    assert_eq!(seg.tcp.ack_num, 1001);
    assert_eq!(seg.tcp.src_port, 1000);
    assert_eq!(seg.tcp.dst_port, 4444);
    assert_eq!(seg.ip.src, [10, 0, 0, 2]);
    assert_eq!(seg.ip.dst, [192, 168, 0, 1]);
    assert_eq!(seg.ip.payload_len, 20);

    // The SYN+ACK occupies sequence space, so it waits in the
    // retransmission queue with the timer armed.
    assert_eq!(tcb.retransmission_queue.len(), 1);
    assert_eq!(tcb.timer_pending, Some(Timer::Retransmission(0)));
}

#[test]
fn handshake_reaches_estab() {
    let mut tcb = fresh_tcb();
    let mut svc = EchoServer::new();
    let mut syn = hdr(1000, 0);
    syn.syn = true;
    tcb.on_segment(&mut svc, &peer_ip(), &syn, &Vec::new(), 0);

    let mut ack = hdr(1001, ISS + 1);
    ack.ack = true;
    let (out, _) = tcb.on_segment(&mut svc, &peer_ip(), &ack, &Vec::new(), 10);

    assert_eq!(tcb.state, TcpState::Estab);
    assert_eq!(tcb.snd_una, ISS + 1);
    assert_eq!(tcb.rcv_nxt, 1001);
    // The fully acknowledged SYN+ACK left the queue and the timer is gone.
    assert_eq!(tcb.retransmission_queue.len(), 0);
    assert_eq!(tcb.timer_pending, None);
    // The acceptable segment in Estab is answered with a bare ACK.
    assert_eq!(out.len(), 1);
    assert!(out[0].tcp.ack && !out[0].tcp.syn);
    assert_eq!(out[0].tcp.ack_num, 1001);
    assert_eq!(out[0].payload.len(), 0);
    // The handshake segment carried the first window update.
    assert_eq!(tcb.snd_wnd, 500);
    assert_eq!(tcb.snd_wl1, 1001);
    assert_eq!(tcb.snd_wl2, ISS + 1);
}

fn established() -> (Tcb, EchoServer) {
    let mut tcb = fresh_tcb();
    let mut svc = EchoServer::new();
    let mut syn = hdr(1000, 0);
    syn.syn = true;
    tcb.on_segment(&mut svc, &peer_ip(), &syn, &Vec::new(), 0);
    let mut ack = hdr(1001, ISS + 1);
    ack.ack = true;
    tcb.on_segment(&mut svc, &peer_ip(), &ack, &Vec::new(), 10);
    assert_eq!(tcb.state, TcpState::Estab);
    (tcb, svc)
}

#[test]
fn echo_data_is_delivered_and_answered() {
    let (mut tcb, mut svc) = established();
    let mut data = hdr(1001, ISS + 1);
    data.ack = true;
    let payload: Vec<u8> = b"hello".to_vec();
    let (out, _) = tcb.on_segment(&mut svc, &peer_ip(), &data, &payload, 20);

    // rcv_nxt advances by exactly the payload length.
    assert_eq!(tcb.rcv_nxt, 1006);
    assert_eq!(out.len(), 1);
    let seg = &out[0];
    assert!(seg.tcp.ack && !seg.tcp.fin);
    assert_eq!(seg.tcp.seq_num, ISS + 1);
    assert_eq!(seg.tcp.ack_num, 1006);
    assert_eq!(seg.payload, b"Echo :hello".to_vec());
    assert_eq!(tcb.snd_nxt, ISS + 1 + 11);
    assert_eq!(tcb.state, TcpState::Estab);
    // The data reply waits for its acknowledgment.
    assert_eq!(tcb.retransmission_queue.len(), 1);
    assert_eq!(tcb.timer_pending, Some(Timer::Retransmission(20)));
}

#[test]
fn duplicate_segment_changes_nothing() {
    let (mut tcb, mut svc) = established();
    let mut data = hdr(1001, ISS + 1);
    data.ack = true;
    tcb.on_segment(&mut svc, &peer_ip(), &data, &b"hello".to_vec(), 20);
    assert_eq!(tcb.rcv_nxt, 1006);
    let snd_nxt = tcb.snd_nxt;
    let queue_len = tcb.retransmission_queue.len();

    // The same five bytes again: every byte is already acknowledged.
    let mut dup = hdr(1001, ISS + 1);
    dup.ack = true;
    let (out, _) = tcb.on_segment(&mut svc, &peer_ip(), &dup, &b"hello".to_vec(), 30);

    assert_eq!(tcb.state, TcpState::Estab);
    assert_eq!(tcb.rcv_nxt, 1006);
    assert_eq!(tcb.snd_nxt, snd_nxt);
    assert_eq!(tcb.retransmission_queue.len(), queue_len);
    // The duplicate is answered with one empty acknowledgment.
    assert_eq!(out.len(), 1);
    assert!(out[0].tcp.ack);
    assert_eq!(out[0].tcp.ack_num, 1006);
    assert_eq!(out[0].payload.len(), 0);
}

#[test]
fn stale_ack_is_ignored_and_high_ack_answered() {
    let (mut tcb, mut svc) = established();
    // An acknowledgment beyond snd_nxt is invalid: the engine answers with
    // its current positions and drops the segment.
    let mut high = hdr(1001, ISS + 500);
    high.ack = true;
    let (out, _) = tcb.on_segment(&mut svc, &peer_ip(), &high, &Vec::new(), 20);
    assert_eq!(out.len(), 1);
    assert_eq!(out[0].tcp.seq_num, ISS + 1);
    assert_eq!(out[0].tcp.ack_num, 1001);
    assert_eq!(tcb.snd_una, ISS + 1);
    assert_eq!(tcb.state, TcpState::Estab);
}

#[test]
fn stale_ack_never_regresses_snd_una() {
    let (mut tcb, mut svc) = established();
    // Send eleven bytes of echo and have the peer acknowledge them.
    let mut data = hdr(1001, ISS + 1);
    data.ack = true;
    tcb.on_segment(&mut svc, &peer_ip(), &data, &b"hello".to_vec(), 20);
    let mut ack = hdr(1006, tcb.snd_nxt);
    ack.ack = true;
    tcb.on_segment(&mut svc, &peer_ip(), &ack, &Vec::new(), 30);
    assert_eq!(tcb.snd_una, ISS + 12);

    // A late duplicate of the handshake acknowledgment changes nothing.
    let mut stale = hdr(1006, ISS + 1);
    stale.ack = true;
    tcb.on_segment(&mut svc, &peer_ip(), &stale, &Vec::new(), 40);
    assert_eq!(tcb.snd_una, ISS + 12);
    assert_eq!(tcb.rcv_nxt, 1006);
    assert_eq!(tcb.state, TcpState::Estab);
}

#[test]
fn window_update_ordering_is_lexicographic() {
    let (mut tcb, mut svc) = established();
    assert_eq!((tcb.snd_wl1, tcb.snd_wl2, tcb.snd_wnd), (1001, ISS + 1, 500));

    // First move wl2 forward by delivering one byte and acking it.
    let mut data = hdr(1001, ISS + 1);
    data.ack = true;
    tcb.on_segment(&mut svc, &peer_ip(), &data, &b"x".to_vec(), 20);
    assert_eq!(tcb.rcv_nxt, 1002);
    let mut ack2 = hdr(1002, tcb.snd_nxt);
    ack2.ack = true;
    ack2.window = 777;
    tcb.on_segment(&mut svc, &peer_ip(), &ack2, &Vec::new(), 30);
    assert_eq!((tcb.snd_wl1, tcb.snd_wl2, tcb.snd_wnd), (1002, tcb.snd_nxt, 777));

    // A late segment carrying the old (seq, ack) pair is not even
    // acceptable any more; the window must stay.
    let mut stale = hdr(1001, ISS + 1);
    stale.ack = true;
    stale.window = 9999;
    tcb.on_segment(&mut svc, &peer_ip(), &stale, &Vec::new(), 40);
    assert_eq!(tcb.snd_wnd, 777);
    assert_eq!(tcb.snd_wl1, 1002);
}

#[test]
fn update_send_window_applies_iff_pair_is_newer() {
    let mut tcb = fresh_tcb();
    tcb.snd_wl1 = 100;
    tcb.snd_wl2 = 200;
    tcb.snd_wnd = 5;
    // A newer sequence number applies.
    tcb.update_send_window(101, 150, 42);
    assert_eq!((tcb.snd_wl1, tcb.snd_wl2, tcb.snd_wnd), (101, 150, 42));
    // The same sequence number with an older acknowledgment does not.
    tcb.update_send_window(101, 149, 7);
    assert_eq!((tcb.snd_wl1, tcb.snd_wl2, tcb.snd_wnd), (101, 150, 42));
    // The exact recorded pair is at-or-after, so it applies.
    tcb.update_send_window(101, 150, 9);
    assert_eq!(tcb.snd_wnd, 9);
    // An older sequence number does not, whatever it acknowledges.
    tcb.update_send_window(100, 500, 11);
    assert_eq!(tcb.snd_wnd, 9);
}

#[test]
fn http_close_sends_one_fin_and_round_trips_to_closed() {
    let mut tcb = fresh_tcb();
    let mut svc = HTTPServer::new();
    let mut syn = hdr(1000, 0);
    syn.syn = true;
    tcb.on_segment(&mut svc, &peer_ip(), &syn, &Vec::new(), 0);
    let mut ack = hdr(1001, ISS + 1);
    ack.ack = true;
    tcb.on_segment(&mut svc, &peer_ip(), &ack, &Vec::new(), 10);
    assert_eq!(tcb.state, TcpState::Estab);

    // Five bytes that are no GET request: the server answers the
    // not-found page and closes.
    let mut data = hdr(1001, ISS + 1);
    data.ack = true;
    let (out, _) = tcb.on_segment(&mut svc, &peer_ip(), &data, &b"hello".to_vec(), 20);
    let page = PAGE_404.as_bytes().to_vec();
    let page_len = page.len() as u32;

    assert_eq!(tcb.rcv_nxt, 1006);
    assert_eq!(out.len(), 1);
    assert!(out[0].tcp.fin && out[0].tcp.ack);
    assert_eq!(out[0].tcp.seq_num, ISS + 1);
    assert_eq!(out[0].tcp.ack_num, 1006);
    assert_eq!(out[0].payload, page);
    assert_eq!(tcb.snd_nxt, ISS + 1 + page_len + 1);
    assert_eq!(tcb.state, TcpState::FinWait1);
    let fin_count = out.iter().filter(|s| s.tcp.fin).count();
    assert_eq!(fin_count, 1);

    // The peer acknowledges everything including our FIN.
    let mut fin_ack = hdr(1006, tcb.snd_nxt);
    fin_ack.ack = true;
    tcb.on_segment(&mut svc, &peer_ip(), &fin_ack, &Vec::new(), 30);
    assert_eq!(tcb.state, TcpState::FinWait2);
    assert_eq!(tcb.retransmission_queue.len(), 0);

    // The peer sends its own FIN: TimeWait, 2MSL timer armed.
    let mut fin = hdr(1006, tcb.snd_nxt);
    fin.ack = true;
    fin.fin = true;
    let (out, _) = tcb.on_segment(&mut svc, &peer_ip(), &fin, &Vec::new(), 40);
    assert_eq!(tcb.state, TcpState::TimeWait);
    assert_eq!(tcb.timer_pending, Some(Timer::TimeWait(40)));
    assert_eq!(tcb.rcv_nxt, 1007);
    assert_eq!(out.len(), 1);
    assert_eq!(out[0].tcp.ack_num, 1007);

    // Once the quiet period has elapsed, the connection closes.
    let out = tcb.on_tick(&mut svc, 40 + 5001);
    assert_eq!(tcb.state, TcpState::Closed);
    assert_eq!(out.len(), 0);
}

#[test]
fn retransmission_resends_oldest_verbatim() {
    let mut tcb = fresh_tcb();
    let mut svc = EchoServer::new();
    let mut syn = hdr(1000, 0);
    syn.syn = true;
    let (sent, _) = tcb.on_segment(&mut svc, &peer_ip(), &syn, &Vec::new(), 0);
    assert_eq!(tcb.timer_pending, Some(Timer::Retransmission(0)));

    // Before the timeout nothing is resent.
    let out = tcb.on_tick(&mut svc, 5000);
    assert_eq!(out.len(), 0);

    // After the timeout the queued SYN+ACK comes out byte-for-byte.
    let out = tcb.on_tick(&mut svc, 5001);
    assert_eq!(out.len(), 1);
    assert_eq!(out[0].tcp, sent[0].tcp);
    assert_eq!(out[0].ip, sent[0].ip);
    assert_eq!(out[0].payload, sent[0].payload);
    assert_eq!(tcb.state, TcpState::SynRecvd);
}

#[test]
fn timewait_fin_is_reacked_and_timer_restarts() {
    let (mut tcb, mut svc) = established();
    tcb.state = TcpState::TimeWait;
    tcb.timer_pending = Some(Timer::TimeWait(100));

    let mut fin = hdr(1001, ISS + 1);
    fin.ack = true;
    fin.fin = true;
    let (out, _) = tcb.on_segment(&mut svc, &peer_ip(), &fin, &Vec::new(), 200);
    assert_eq!(out.len(), 1);
    assert!(out[0].tcp.ack);
    assert_eq!(out[0].tcp.ack_num, 1002);
    assert_eq!(tcb.timer_pending, Some(Timer::TimeWait(200)));
    assert_eq!(tcb.state, TcpState::TimeWait);
}

#[test]
fn closed_answers_with_resets() {
    let mut tcb = fresh_tcb();
    tcb.state = TcpState::Closed;
    let mut svc = EchoServer::new();

    // A reset is dropped silently.
    let mut rst = hdr(7, 9);
    rst.rst = true;
    let (out, _) = tcb.on_segment(&mut svc, &peer_ip(), &rst, &Vec::new(), 0);
    assert_eq!(out.len(), 0);

    // An ACK draws a bare reset echoing its acknowledgment number.
    let mut ack = hdr(7, 9);
    ack.ack = true;
    let (out, _) = tcb.on_segment(&mut svc, &peer_ip(), &ack, &Vec::new(), 0);
    assert_eq!(out.len(), 1);
    assert!(out[0].tcp.rst && !out[0].tcp.ack);
    assert_eq!(out[0].tcp.seq_num, 9);

    // Anything else draws a reset acknowledging the whole segment.
    let other = hdr(7, 0);
    let (out, _) = tcb.on_segment(&mut svc, &peer_ip(), &other, &b"ab".to_vec(), 0);
    assert_eq!(out.len(), 1);
    assert!(out[0].tcp.rst && out[0].tcp.ack);
    assert_eq!(out[0].tcp.seq_num, 0);
    assert_eq!(out[0].tcp.ack_num, 9);
    assert_eq!(tcb.state, TcpState::Closed);
}

#[test]
fn listener_rejects_stray_ack() {
    let mut tcb = fresh_tcb();
    let mut svc = EchoServer::new();
    let mut ack = hdr(1000, 555);
    ack.ack = true;
    let (out, _) = tcb.on_segment(&mut svc, &peer_ip(), &ack, &Vec::new(), 0);
    assert_eq!(tcb.state, TcpState::Listen);
    assert_eq!(out.len(), 1);
    assert!(out[0].tcp.rst);
    assert_eq!(out[0].tcp.seq_num, 555);
}

#[test]
fn unacceptable_segment_draws_ack_echo() {
    let (mut tcb, mut svc) = established();
    // Far outside the window.
    let mut data = hdr(40_000, ISS + 1);
    data.ack = true;
    let (out, _) = tcb.on_segment(&mut svc, &peer_ip(), &data, &b"zz".to_vec(), 20);
    assert_eq!(out.len(), 1);
    assert!(out[0].tcp.ack);
    assert_eq!(out[0].tcp.seq_num, ISS + 1);
    assert_eq!(out[0].tcp.ack_num, 1001);
    assert_eq!(tcb.rcv_nxt, 1001);
    assert_eq!(tcb.state, TcpState::Estab);
}

#[test]
fn reset_in_syn_recvd_falls_back_by_open_mode() {
    // Passive open: back to Listen.
    let mut tcb = fresh_tcb();
    let mut svc = EchoServer::new();
    let mut syn = hdr(1000, 0);
    syn.syn = true;
    tcb.on_segment(&mut svc, &peer_ip(), &syn, &Vec::new(), 0);
    let mut rst = hdr(1001, 0);
    rst.rst = true;
    tcb.on_segment(&mut svc, &peer_ip(), &rst, &Vec::new(), 10);
    assert_eq!(tcb.state, TcpState::Listen);

    // Active open: the connection is given up.
    let mut tcb = Tcb::new(([10, 0, 0, 2], 1000), None, OpenMode::Active, ISS);
    let mut syn = hdr(1000, 0);
    syn.syn = true;
    tcb.on_segment(&mut svc, &peer_ip(), &syn, &Vec::new(), 0);
    let mut rst = hdr(1001, 0);
    rst.rst = true;
    tcb.on_segment(&mut svc, &peer_ip(), &rst, &Vec::new(), 10);
    assert_eq!(tcb.state, TcpState::Closed);
}

#[test]
fn reset_in_estab_closes() {
    let (mut tcb, mut svc) = established();
    let mut rst = hdr(1001, 0);
    rst.rst = true;
    let (out, _) = tcb.on_segment(&mut svc, &peer_ip(), &rst, &Vec::new(), 20);
    assert_eq!(tcb.state, TcpState::Closed);
    assert_eq!(out.len(), 0);
}

#[test]
fn segment_without_ack_is_dropped() {
    let (mut tcb, mut svc) = established();
    let data = hdr(1001, 0);
    let (out, _) = tcb.on_segment(&mut svc, &peer_ip(), &data, &b"hi".to_vec(), 20);
    assert_eq!(out.len(), 0);
    assert_eq!(tcb.rcv_nxt, 1001);
}

#[test]
fn peer_fin_in_estab_moves_to_close_wait() {
    let (mut tcb, mut svc) = established();
    let mut fin = hdr(1001, ISS + 1);
    fin.ack = true;
    fin.fin = true;
    let (out, _) = tcb.on_segment(&mut svc, &peer_ip(), &fin, &Vec::new(), 20);
    assert_eq!(tcb.state, TcpState::CloseWait);
    assert_eq!(tcb.rcv_nxt, 1002);
    assert_eq!(out.len(), 1);
    assert_eq!(out[0].tcp.ack_num, 1002);
}

#[test]
fn last_ack_of_fin_closes() {
    let (mut tcb, mut svc) = established();
    tcb.state = TcpState::LastAck;
    let mut ack = hdr(1001, tcb.snd_nxt);
    ack.ack = true;
    tcb.on_segment(&mut svc, &peer_ip(), &ack, &Vec::new(), 20);
    assert_eq!(tcb.state, TcpState::Closed);
}

#[test]
fn zero_window_accepts_only_exact_next_empty_segment() {
    let (mut tcb, mut svc) = established();
    tcb.window_size = 0;
    // An empty segment exactly at rcv_nxt is acceptable.
    let mut ok = hdr(1001, ISS + 1);
    ok.ack = true;
    let (out, _) = tcb.on_segment(&mut svc, &peer_ip(), &ok, &Vec::new(), 20);
    assert_eq!(out.len(), 1);
    // One byte further it is not, and draws the echo.
    let mut off = hdr(1002, ISS + 1);
    off.ack = true;
    let (out, _) = tcb.on_segment(&mut svc, &peer_ip(), &off, &Vec::new(), 30);
    assert_eq!(out.len(), 1);
    assert_eq!(out[0].tcp.ack_num, 1001);
    assert_eq!(tcb.rcv_nxt, 1001);
}

#[test]
fn sequence_numbers_wrap_around() {
    let mut tcb = fresh_tcb();
    let mut svc = EchoServer::new();
    // A SYN one step below the wraparound boundary.
    let mut syn = hdr(u32::MAX, 0);
    syn.syn = true;
    tcb.on_segment(&mut svc, &peer_ip(), &syn, &Vec::new(), 0);
    assert_eq!(tcb.rcv_nxt, 0);
    let mut ack = hdr(0, ISS + 1);
    ack.ack = true;
    tcb.on_segment(&mut svc, &peer_ip(), &ack, &Vec::new(), 10);
    assert_eq!(tcb.state, TcpState::Estab);
    // Data crossing the boundary.
    let mut data = hdr(0, ISS + 1);
    data.ack = true;
    let (out, _) = tcb.on_segment(&mut svc, &peer_ip(), &data, &b"abc".to_vec(), 20);
    assert_eq!(tcb.rcv_nxt, 3);
    assert_eq!(out[0].tcp.ack_num, 3);
}

#[test]
fn echo_service_answers_with_prefix() {
    let mut svc = EchoServer::new();
    match svc.on_receive(b"hi") {
        Response::Data(d) => assert_eq!(d, b"Echo :hi".to_vec()),
        _ => panic!("expected data"),
    }
    match svc.on_connect(b"") {
        Response::Data(d) => assert_eq!(d, b"Welcome to echo server!".to_vec()),
        _ => panic!("expected data"),
    }
}

#[test]
fn service_response_shapes() {
    // The echo service's answers are checked through the engine above;
    // here the HTTP server's three pages are told apart by path.
    let mut tcb = fresh_tcb();
    let mut svc = HTTPServer::new();
    let mut syn = hdr(1000, 0);
    syn.syn = true;
    tcb.on_segment(&mut svc, &peer_ip(), &syn, &Vec::new(), 0);
    let mut ack = hdr(1001, ISS + 1);
    ack.ack = true;
    tcb.on_segment(&mut svc, &peer_ip(), &ack, &Vec::new(), 10);

    let req = b"GET /hello_world HTTP/1.0\r\n".to_vec();
    let mut data = hdr(1001, ISS + 1);
    data.ack = true;
    let (out, _) = tcb.on_segment(&mut svc, &peer_ip(), &data, &req, 20);
    assert_eq!(out.len(), 1);
    let body = String::from_utf8(out[0].payload.clone()).unwrap();
    assert!(body.contains("Hello World"));
    assert!(out[0].tcp.fin);
    assert_eq!(tcb.state, TcpState::FinWait1);
}
