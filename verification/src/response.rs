//! The responses that the transport hands back, as plain values.

use vstd::prelude::*;

verus! {

/// One response header.
#[derive(Clone, Debug, PartialEq, Eq)]
pub struct Header {
    pub name: String,
    pub value: String,
}

impl View for Header {
    type V = (Seq<char>, Seq<char>);

    open spec fn view(&self) -> (Seq<char>, Seq<char>) {
        (self.name@, self.value@)
    }
}

/// What a response carries.
#[derive(Clone, Debug, PartialEq, Eq)]
pub enum Body {
    /// Nothing.
    Empty,
    /// A short plain message.
    Text(String),
    /// The file at this location, streamed by the server, which also answers
    /// conditional requests from the file's modification time.
    File(String),
    /// These bytes, then what the pack subprocess writes, passed on as it
    /// comes and never gathered.
    Relay(Vec<u8>),
}

/// The model of a body.
pub enum BodyView {
    Empty,
    Text(Seq<char>),
    File(Seq<char>),
    Relay(Seq<u8>),
}

impl View for Body {
    type V = BodyView;

    open spec fn view(&self) -> BodyView {
        match self {
            Body::Empty => BodyView::Empty,
            Body::Text(t) => BodyView::Text(t@),
            Body::File(f) => BodyView::File(f@),
            Body::Relay(b) => BodyView::Relay(b@),
        }
    }
}

/// A complete response: status, headers in order, body.
#[derive(Clone, Debug, PartialEq, Eq)]
pub struct Response {
    pub status: u16,
    pub headers: Vec<Header>,
    pub body: Body,
}

/// The model of a response.
pub struct ResponseView {
    pub status: int,
    pub headers: Seq<(Seq<char>, Seq<char>)>,
    pub body: BodyView,
}

/// The headers of a list, each as a pair of name and value.
pub open spec fn headers_of(hs: Seq<Header>) -> Seq<(Seq<char>, Seq<char>)> {
    Seq::new(hs.len(), |i: int| hs[i]@)
}

impl View for Response {
    type V = ResponseView;

    open spec fn view(&self) -> ResponseView {
        ResponseView {
            status: self.status as int,
            headers: headers_of(self.headers@),
            body: self.body@,
        }
    }
}

/// The challenge that answers a rejected request: 401, one header that asks
/// for basic credentials, no body.
pub open spec fn challenge() -> ResponseView {
    ResponseView {
        status: 401,
        headers: seq![("WWW-Authenticate"@, "Basic realm=\"git\""@)],
        body: BodyView::Empty,
    }
}

/// The answer for a file that is not there.
pub open spec fn not_found() -> ResponseView {
    ResponseView { status: 404, headers: Seq::empty(), body: BodyView::Text("File not found"@) }
}

/// The answer for a file that is there and cannot be opened.
pub open spec fn open_failure() -> ResponseView {
    ResponseView {
        status: 500,
        headers: Seq::empty(),
        body: BodyView::Text("Failed to open file"@),
    }
}

/// The answer when the pack subprocess cannot be started.
pub open spec fn spawn_failure() -> ResponseView {
    ResponseView { status: 500, headers: Seq::empty(), body: BodyView::Empty }
}

/// Makes a header from its name and value.
pub fn header(name: &str, value: &str) -> (h: Header)
    ensures
        h@ == (name@, value@),
{
    Header { name: name.to_owned(), value: value.to_owned() }
}

impl Response {
    /// The challenge that answers a rejected request.
    pub fn unauthorized() -> (r: Response)
        ensures
            r@ == challenge(),
    {
        let mut headers: Vec<Header> = Vec::new();
        headers.push(header("WWW-Authenticate", "Basic realm=\"git\""));
        let r = Response { status: 401, headers, body: Body::Empty };
        assert(r@.headers =~= challenge().headers);
        r
    }

    /// A plain message under the given status, without headers.
    pub fn message(status: u16, text: &str) -> (r: Response)
        ensures
            r@ == (ResponseView {
                status: status as int,
                headers: Seq::empty(),
                body: BodyView::Text(text@),
            }),
    {
        let r = Response { status, headers: Vec::new(), body: Body::Text(text.to_owned()) };
        assert(r@.headers =~= Seq::empty());
        r
    }
}

} // verus!
