//! A service that echoes what it receives.

use vstd::prelude::*;
use vstd::string::StringSliceAdditionalSpecFns;
use vstd::string::StrSliceExecFns;

use crate::segment::append_bytes;
use crate::tcp::{RespView, Response, Service, SvcEvent};

verus! {

/// The greeting sent when a connection opens.
pub open spec fn welcome_text() -> Seq<u8> {
    "Welcome to echo server!".spec_bytes()
}

/// The bytes put in front of every echoed payload.
pub open spec fn echo_prefix() -> Seq<u8> {
    "Echo :".spec_bytes()
}

/// Echoes every received payload back, prefixed with a short marker.
pub struct EchoServer {
    pub history: Ghost<Seq<SvcEvent>>,
}

impl EchoServer {
    /// A fresh echo service with an empty call history.
    pub fn new() -> (r: EchoServer)
        ensures
            r.history() == Seq::<SvcEvent>::empty(),
    {
        EchoServer { history: Ghost(Seq::empty()) }
    }
}

impl Service for EchoServer {
    open spec fn history(&self) -> Seq<SvcEvent> {
        self.history@
    }

    /// Greets a new connection.
    fn on_connect(&mut self, data: &[u8]) -> (r: Response)
        ensures
            r@ == RespView::Data(welcome_text()),
    {
        let out: Vec<u8> = "Welcome to echo server!".as_bytes_vec();
        let r = Response::Data(out);
        self.history = Ghost(self.history@.push(SvcEvent::Connect(data@, r@)));
        r
    }

    /// Answers with the marker followed by the received bytes.
    fn on_receive(&mut self, data: &[u8]) -> (r: Response)
        ensures
            r@ == RespView::Data(echo_prefix() + data@),
    {
        let mut out: Vec<u8> = "Echo :".as_bytes_vec();
        append_bytes(&mut out, data);
        let r = Response::Data(out);
        self.history = Ghost(self.history@.push(SvcEvent::Receive(data@, r@)));
        r
    }

    fn on_reset(&mut self) {
        self.history = Ghost(self.history@.push(SvcEvent::Reset));
    }

    fn on_close(&mut self, data: &[u8]) {
        self.history = Ghost(self.history@.push(SvcEvent::Close(data@)));
    }
}

} // verus!
