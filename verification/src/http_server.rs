//! A service that answers HTTP GET requests for two fixed pages.

use vstd::prelude::*;
use vstd::string::StringSliceAdditionalSpecFns;
use vstd::string::StrSliceExecFns;

use crate::tcp::{RespView, Response, Service, SvcEvent};

verus! {

/// ASCII whitespace, as the request tokenizer sees it.
pub open spec fn is_space(b: u8) -> bool {
    b == 32 || b == 9 || b == 10 || b == 11 || b == 12 || b == 13
}

/// The first position at or after `i` whose byte is whitespace (when
/// `want_space` holds) or non-whitespace (otherwise); the length when no
/// such byte follows.
pub open spec fn seek(d: Seq<u8>, i: nat, want_space: bool) -> nat
    decreases d.len() - i,
    when i <= d.len()
{
    if i >= d.len() {
        d.len()
    } else if is_space(d[i as int]) == want_space {
        i
    } else {
        seek(d, i + 1, want_space)
    }
}

/// `seek` never moves backwards and never runs past the end.
pub proof fn lemma_seek_bounds(d: Seq<u8>, i: nat, want_space: bool)
    requires
        i <= d.len(),
    ensures
        i <= seek(d, i, want_space) <= d.len(),
    decreases d.len() - i,
{
    if i < d.len() && is_space(d[i as int]) != want_space {
        lemma_seek_bounds(d, i + 1, want_space);
    }
}

/// The second whitespace-separated token of the request — for a request
/// line `GET <path> <version>`, the path.  `None` when the request holds
/// fewer than two tokens.
pub open spec fn request_path(d: Seq<u8>) -> Option<Seq<u8>> {
    let s1 = seek(d, 0, false);
    let e1 = seek(d, s1, true);
    let s2 = seek(d, e1, false);
    let e2 = seek(d, s2, true);
    if s2 >= d.len() {
        None
    } else {
        Some(d.subrange(s2 as int, e2 as int))
    }
}

/// The page served for the root path.
pub open spec fn page_index() -> Seq<u8> {
    "
HTTP/1.0 200 OK

<html>
<body>
<h1> Welcome to Simple Webserver </h1>
<br>
<h2>Links:</h2>
<a href='/hello_world'>/hello_world</a>
<br>
</body>
</html>
            ".spec_bytes()
}

/// The page served for the hello path.
pub open spec fn page_hello() -> Seq<u8> {
    "
HTTP/1.0 200 OK

<html>
<body>
<h1> Hello World </h1>
TCP is awesome.
</body>
</html>
            ".spec_bytes()
}

/// The page served for every other path.
pub open spec fn page_not_found() -> Seq<u8> {
    "
HTTP/1.0 404 NOT FOUND

<html>
<body>
<h1> Requested file is not found.</h1>
</body>
</html>
            ".spec_bytes()
}

/// What the server answers for a request: one of the three pages,
/// always closing the connection afterwards.
pub open spec fn http_response(d: Seq<u8>) -> RespView {
    match request_path(d) {
        Some(p) => if p == "/".spec_bytes() {
            RespView::Close(page_index())
        } else if p == "/hello_world".spec_bytes() {
            RespView::Close(page_hello())
        } else {
            RespView::Close(page_not_found())
        },
        None => RespView::Close(page_not_found()),
    }
}

/// Advancing over one byte that does not end the scan leaves `seek`
/// unchanged.
proof fn lemma_seek_step(d: Seq<u8>, i: nat, want_space: bool)
    requires
        i < d.len(),
        is_space(d[i as int]) != want_space,
    ensures
        seek(d, i, want_space) == seek(d, i + 1, want_space),
{
}

/// Executable form of [`is_space`].
fn is_space_ex(b: u8) -> (r: bool)
    ensures
        r == is_space(b),
{
    b == 32 || b == 9 || b == 10 || b == 11 || b == 12 || b == 13
}

/// Executable form of [`seek`].
fn seek_ex(d: &[u8], i: usize, want_space: bool) -> (r: usize)
    requires
        i <= d@.len(),
    ensures
        r == seek(d@, i as nat, want_space),
        i <= r <= d@.len(),
{
    let mut j: usize = i;
    while j < d.len()
        invariant
            i <= j <= d@.len(),
            seek(d@, i as nat, want_space) == seek(d@, j as nat, want_space),
        decreases d@.len() - j,
    {
        if is_space_ex(d[j]) == want_space {
            return j;
        }
        proof {
            lemma_seek_step(d@, j as nat, want_space);
        }
        j = j + 1;
    }
    j
}

/// Whether two byte strings hold the same bytes.
pub fn bytes_eq(a: &[u8], b: &[u8]) -> (r: bool)
    ensures
        r <==> a@ == b@,
{
    if a.len() != b.len() {
        return false;
    }
    let mut i: usize = 0;
    while i < a.len()
        invariant
            i <= a@.len(),
            a@.len() == b@.len(),
            forall|k: int| 0 <= k < i ==> a@[k] == b@[k],
        decreases a@.len() - i,
    {
        if a[i] != b[i] {
            return false;
        }
        i = i + 1;
    }
    proof {
        assert(a@ =~= b@);
    }
    true
}

/// The bytes of the not-found page.
fn not_found_page() -> (r: Vec<u8>)
    ensures
        r@ == page_not_found(),
{
    "
HTTP/1.0 404 NOT FOUND

<html>
<body>
<h1> Requested file is not found.</h1>
</body>
</html>
            ".as_bytes_vec()
}

/// Serves the fixed pages, closing the connection after each answer.
pub struct HTTPServer {
    pub history: Ghost<Seq<SvcEvent>>,
}

impl HTTPServer {
    /// A fresh server with an empty call history.
    pub fn new() -> (r: HTTPServer)
        ensures
            r.history() == Seq::<SvcEvent>::empty(),
    {
        HTTPServer { history: Ghost(Seq::empty()) }
    }

    /// Picks the page for one request.
    fn respond(&self, data: &[u8]) -> (r: Response)
        ensures
            r@ == http_response(data@),
    {
        let s1 = seek_ex(data, 0, false);
        let e1 = seek_ex(data, s1, true);
        let s2 = seek_ex(data, e1, false);
        let e2 = seek_ex(data, s2, true);
        if s2 >= data.len() {
            return Response::Close(not_found_page());
        }
        let path = vstd::slice::slice_subrange(data, s2, e2);
        if bytes_eq(path, "/".as_bytes()) {
            Response::Close("
HTTP/1.0 200 OK

<html>
<body>
<h1> Welcome to Simple Webserver </h1>
<br>
<h2>Links:</h2>
<a href='/hello_world'>/hello_world</a>
<br>
</body>
</html>
            ".as_bytes_vec())
        } else if bytes_eq(path, "/hello_world".as_bytes()) {
            Response::Close("
HTTP/1.0 200 OK

<html>
<body>
<h1> Hello World </h1>
TCP is awesome.
</body>
</html>
            ".as_bytes_vec())
        } else {
            Response::Close(not_found_page())
        }
    }
}

impl Service for HTTPServer {
    open spec fn history(&self) -> Seq<SvcEvent> {
        self.history@
    }

    /// Waits for the request; nothing is sent on connect.
    fn on_connect(&mut self, data: &[u8]) -> (r: Response)
        ensures
            r@ == RespView::Empty,
    {
        let r = Response::Empty;
        self.history = Ghost(self.history@.push(SvcEvent::Connect(data@, r@)));
        r
    }

    /// Answers the request with one of the fixed pages and closes.
    fn on_receive(&mut self, data: &[u8]) -> (r: Response)
        ensures
            r@ == http_response(data@),
    {
        let r = self.respond(data);
        self.history = Ghost(self.history@.push(SvcEvent::Receive(data@, r@)));
        r
    }

    fn on_reset(&mut self) {
        self.history = Ghost(self.history@.push(SvcEvent::Reset));
    }

    fn on_close(&mut self, data: &[u8]) {
        self.history = Ghost(self.history@.push(SvcEvent::Close(data@)));
    }
}

} // verus!
