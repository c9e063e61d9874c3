//! Per-request objects the pipeline works on: the request (its accept
//! preference), the context store, the response with its tri-state body
//! slot and header map, and the chain-control flag.

use vstd::prelude::*;
use crate::media::{MediaType, MediaTypeView, html_media_type};
use crate::status::{StatusError, StatusErrorView};

verus! {

/// Per-request context store, exclusively owned by one in-flight call.
/// The pipeline itself never reads it; conditional hoops may.
pub struct Depot {}

impl Depot {
    pub fn new() -> Depot {
        Depot {  }
    }
}

/// The part of a request the pipeline reads: its accept preference.
pub struct Request {
    pub accept: Option<MediaType>,
}

/// The mathematical value of a [`Request`].
pub struct RequestView {
    pub accept: Option<MediaTypeView>,
}

impl View for Request {
    type V = RequestView;

    open spec fn view(&self) -> RequestView {
        RequestView {
            accept: match self.accept {
                Some(m) => Some(m@),
                None => None,
            },
        }
    }
}

impl Request {
    /// A request carrying the given accept preference.
    pub fn new(accept: Option<MediaType>) -> (r: Request)
        ensures
            r@.accept == match accept {
                Some(m) => Some(m@),
                None => None::<MediaTypeView>,
            },
    {
        Request { accept }
    }
}

/// The accept preference a request resolves to: its own preference if it
/// carries one, else the caller's default, else `text/html`.
pub open spec fn spec_guess_accept(req: RequestView, default: Option<MediaTypeView>) -> MediaTypeView {
    match req.accept {
        Some(m) => m,
        None => match default {
            Some(d) => d,
            None => html_media_type(),
        },
    }
}

/// Resolve the request's accept preference, with `text/html` as the
/// last-resort default.
pub fn guess_accept_mime(req: &Request, default: Option<MediaType>) -> (m: MediaType)
    ensures
        m@ == spec_guess_accept(req@, match default {
            Some(d) => Some(d@),
            None => None::<MediaTypeView>,
        }),
{
    match &req.accept {
        Some(m) => m.clone(),
        None => match default {
            Some(d) => d,
            None => MediaType::html(),
        },
    }
}

/// The response body slot: unset, an error descriptor awaiting rendering,
/// or final bytes. The first two are renderable; final bytes are
/// inviolable and never overwritten by the pipeline.
pub enum ResBody {
    Unset,
    Error(StatusError),
    Bytes(Vec<u8>),
}

/// The mathematical value of a [`ResBody`].
pub enum BodyView {
    Unset,
    Error(StatusErrorView),
    Bytes(Seq<u8>),
}

impl View for ResBody {
    type V = BodyView;

    open spec fn view(&self) -> BodyView {
        match self {
            ResBody::Unset => BodyView::Unset,
            ResBody::Error(e) => BodyView::Error(e@),
            ResBody::Bytes(b) => BodyView::Bytes(b@),
        }
    }
}

impl ResBody {
    /// Whether final bytes have been written: such a body is inviolable.
    pub fn is_bytes(&self) -> (b: bool)
        ensures
            b == (self@ is Bytes),
    {
        match self {
            ResBody::Bytes(_) => true,
            _ => false,
        }
    }
}

/// Look a name up in a header list: the value of the first entry whose
/// name matches, if any.
pub open spec fn header_lookup(h: Seq<(String, String)>, name: Seq<char>) -> Option<Seq<char>>
    decreases h.len(),
{
    if h.len() == 0 {
        None
    } else if h[0].0@ == name {
        Some(h[0].1@)
    } else {
        header_lookup(h.drop_first(), name)
    }
}

proof fn lemma_lookup_update(h: Seq<(String, String)>, i: int, p: (String, String))
    requires
        0 <= i < h.len(),
        forall|j: int| 0 <= j < i ==> h[j].0@ != p.0@,
        h[i].0@ == p.0@,
    ensures
        header_lookup(h.update(i, p), p.0@) == Some(p.1@),
        forall|n: Seq<char>| n != p.0@ ==> header_lookup(h.update(i, p), n) == header_lookup(h, n),
    decreases i,
{
    let h2 = h.update(i, p);
    if i == 0 {
        assert(h2.drop_first() =~= h.drop_first());
    } else {
        assert(forall|j: int| 0 <= j < i - 1 ==> h.drop_first()[j] == h[j + 1]);
        lemma_lookup_update(h.drop_first(), i - 1, p);
        assert(h2[0] == h[0]);
        assert(h2.drop_first() =~= h.drop_first().update(i - 1, p));
        assert(header_lookup(h2, p.0@) == Some(p.1@));
        assert forall|n: Seq<char>| n != p.0@ implies header_lookup(h2, n) == header_lookup(
            h,
            n,
        ) by {
            assert(header_lookup(h2.drop_first(), n) == header_lookup(h.drop_first(), n));
        }
    }
}

proof fn lemma_lookup_push(h: Seq<(String, String)>, p: (String, String))
    requires
        forall|j: int| 0 <= j < h.len() ==> h[j].0@ != p.0@,
    ensures
        header_lookup(h.push(p), p.0@) == Some(p.1@),
        forall|n: Seq<char>| n != p.0@ ==> header_lookup(h.push(p), n) == header_lookup(h, n),
    decreases h.len(),
{
    if h.len() == 0 {
        assert(h.push(p)[0] == p);
        assert(h.push(p).drop_first() =~= Seq::<(String, String)>::empty());
        assert forall|n: Seq<char>| n != p.0@ implies header_lookup(h.push(p), n)
            == header_lookup(h, n) by {
            assert(header_lookup(h.push(p).drop_first(), n) is None);
        }
    } else {
        assert(forall|j: int| 0 <= j < h.len() - 1 ==> h.drop_first()[j] == h[j + 1]);
        lemma_lookup_push(h.drop_first(), p);
        assert(h.push(p)[0] == h[0]);
        assert(h.push(p).drop_first() =~= h.drop_first().push(p));
        assert(header_lookup(h.push(p), p.0@) == Some(p.1@));
        assert forall|n: Seq<char>| n != p.0@ implies header_lookup(h.push(p), n)
            == header_lookup(h, n) by {
            assert(header_lookup(h.push(p).drop_first(), n) == header_lookup(
                h.drop_first(),
                n,
            ));
        }
    }
}

/// The per-request response: a settable status, the tri-state body slot,
/// and the header map.
pub struct Response {
    pub status_code: Option<u16>,
    pub body: ResBody,
    pub headers: Vec<(String, String)>,
}

/// The mathematical value of a [`Response`].
pub struct ResponseView {
    pub status_code: Option<u16>,
    pub body: BodyView,
    pub headers: Seq<(String, String)>,
}

impl View for Response {
    type V = ResponseView;

    open spec fn view(&self) -> ResponseView {
        ResponseView { status_code: self.status_code, body: self.body@, headers: self.headers@ }
    }
}

impl Response {
    /// A fresh response: no status, no body, no headers.
    pub fn new() -> (r: Response)
        ensures
            r@.status_code is None,
            r@.body is Unset,
            r@.headers.len() == 0,
    {
        Response { status_code: None, body: ResBody::Unset, headers: Vec::new() }
    }

    /// Set a header: replace the value of the first entry with this name,
    /// or append a new entry if none matches.
    pub fn insert_header(&mut self, name: String, value: String)
        ensures
            header_lookup(final(self)@.headers, name@) == Some(value@),
            forall|n: Seq<char>| n != name@ ==> header_lookup(final(self)@.headers, n)
                == header_lookup(old(self)@.headers, n),
            final(self)@.status_code == old(self)@.status_code,
            final(self)@.body == old(self)@.body,
    {
        let n = self.headers.len();
        let mut i: usize = 0;
        while i < n
            invariant
                i <= n,
                n == self.headers.len(),
                *self == *old(self),
                forall|j: int| 0 <= j < i ==> self.headers@[j].0@ != name@,
            decreases n - i,
        {
            if self.headers[i].0 == name {
                let ghost h0 = self.headers@;
                let tup = (name, value);
                self.headers[i] = tup;
                proof {
                    lemma_lookup_update(h0, i as int, tup);
                }
                return;
            }
            i += 1;
        }
        let ghost h0 = self.headers@;
        let tup = (name, value);
        self.headers.push(tup);
        proof {
            lemma_lookup_push(h0, tup);
        }
    }

    /// Write final bytes into the body slot.
    pub fn write_body(&mut self, data: Vec<u8>)
        ensures
            final(self)@.body == BodyView::Bytes(data@),
            final(self)@.status_code == old(self)@.status_code,
            final(self)@.headers == old(self)@.headers,
    {
        self.body = ResBody::Bytes(data);
    }
}

/// The chain-control flag threaded through the driver: once a handler
/// signals early termination, no later chain entry runs for this request.
pub struct FlowCtrl {
    pub ceased: bool,
}

impl FlowCtrl {
    /// A fresh control flag: the chain is live.
    pub fn new() -> (c: FlowCtrl)
        ensures
            !c.ceased,
    {
        FlowCtrl { ceased: false }
    }

    /// Signal that the rest of the chain, the fallback included, is to be
    /// skipped for this request.
    pub fn skip_rest(&mut self)
        ensures
            final(self).ceased,
    {
        self.ceased = true;
    }

    /// Whether early termination has been signalled.
    pub fn is_ceased(&self) -> (b: bool)
        ensures
            b == self.ceased,
    {
        self.ceased
    }
}

} // verus!
