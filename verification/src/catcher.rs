//! The error-catching chain: an ordered list of interception handlers
//! followed by exactly one fallback handler. Any handler may resolve the
//! response and signal early termination; failing that, the fallback
//! renderer writes a negotiated default error body if none is present.

use vstd::prelude::*;
use crate::encode::{error_payload, opt_str_view, status_error_bytes};
use crate::http::{
    header_lookup, BodyView, Depot, FlowCtrl, Request, RequestView, ResBody, Response,
    ResponseView, guess_accept_mime, spec_guess_accept,
};
use crate::media::{MediaTypeView, negotiated};
use crate::status::{
    canonical_reason, is_client_error, is_server_error, is_error_code, StatusError,
    StatusErrorView,
};

verus! {

/// The view of an optional owned string.
pub open spec fn opt_string_view(o: Option<String>) -> Option<Seq<char>> {
    match o {
        Some(s) => Some(s@),
        None => None,
    }
}

/// The status a response is rendered under: its own, or Not Found when
/// none was ever set.
pub open spec fn status_of(res: ResponseView) -> u16 {
    match res.status_code {
        Some(c) => c,
        None => 404,
    }
}

/// The descriptor synthesized from a bare status code: its canonical
/// reason phrase as the name, or the generic server-error descriptor for
/// a code the status table does not recognize.
pub open spec fn synthesized_descriptor(code: u16) -> StatusErrorView {
    match canonical_reason(code) {
        Some(name) => StatusErrorView { code, name, summary: None, detail: None },
        None => StatusErrorView {
            code: 500,
            name: "Internal Server Error"@,
            summary: None,
            detail: None,
        },
    }
}

/// The descriptor the fallback renders: the response's pending descriptor
/// if the body slot carries one, else one synthesized from the status.
pub open spec fn descriptor_for(res: ResponseView) -> StatusErrorView {
    match res.body {
        BodyView::Error(e) => e,
        _ => synthesized_descriptor(status_of(res)),
    }
}

/// The media type an error render resolves to for a request.
pub open spec fn resolved_format(req: RequestView) -> MediaTypeView {
    negotiated(spec_guess_accept(req, None))
}

/// How a rendered response relates to the one it was rendered from: the
/// status is kept, the body holds the encoded payload for the response's
/// descriptor in the negotiated format, the content-type header holds the
/// resolved media type, and every other header is untouched.
pub open spec fn rendered_relation(
    req: RequestView,
    old_res: ResponseView,
    new_res: ResponseView,
    footer: Option<Seq<char>>,
) -> bool {
    &&& new_res.status_code == old_res.status_code
    &&& new_res.body == BodyView::Bytes(
        vstd::utf8::encode_utf8(
            error_payload(descriptor_for(old_res), resolved_format(req).subtype, footer),
        ),
    )
    &&& header_lookup(new_res.headers, "content-type"@) == Some(resolved_format(req).canonical())
    &&& forall|n: Seq<char>| n != "content-type"@ ==> header_lookup(new_res.headers, n)
        == header_lookup(old_res.headers, n)
}

/// Whether the fallback renderer acts on a response: its status is an
/// error status (Not Found when unset) and no final bytes were written.
pub open spec fn fallback_applies(res: ResponseView) -> bool {
    is_error_code(status_of(res)) && !(res.body is Bytes)
}

/// What one invocation of the fallback renderer does: render when it
/// applies, leave the response untouched otherwise.
pub open spec fn handle_relation(
    req: RequestView,
    old_res: ResponseView,
    new_res: ResponseView,
    footer: Option<Seq<char>>,
) -> bool {
    if fallback_applies(old_res) {
        rendered_relation(req, old_res, new_res, footer)
    } else {
        new_res == old_res
    }
}

/// Write the default error page: negotiate a format from the request's
/// accept preference, encode the response's descriptor (or one
/// synthesized from its status), set the content-type header and write
/// the body.
pub fn write_error_default(req: &Request, res: &mut Response, footer: Option<&str>)
    ensures
        rendered_relation(req@, old(res)@, final(res)@, opt_str_view(footer)),
{
    let format = guess_accept_mime(req, None);
    let (format, data) = match &res.body {
        ResBody::Error(body) => status_error_bytes(body, &format, footer),
        _ => {
            let status = match res.status_code {
                Some(c) => c,
                None => 404,
            };
            let err = match StatusError::from_code(status) {
                Some(e) => e,
                None => StatusError {
                    code: 500,
                    name: String::from_str("Internal Server Error"),
                    summary: None,
                    detail: None,
                },
            };
            proof {
                assert(err@ =~= descriptor_for(res@));
            }
            status_error_bytes(&err, &format, footer)
        },
    };
    let value = format.canonical_string();
    res.insert_header(String::from_str("content-type"), value);
    res.write_body(data);
}

/// An interception handler: may inspect or mutate the response and may
/// signal early termination. The chain driver never invokes a handler
/// once early termination has been signalled.
pub trait Handler {
    /// What one invocation of this handler does: how the request and
    /// response after the call relate to those before it, and whether it
    /// signalled early termination. The default leaves the effect
    /// unspecified; an implementor that wants callers to reason about it
    /// overrides this with its own relation.
    open spec fn handled(
        &self,
        req0: RequestView,
        res0: ResponseView,
        req1: RequestView,
        res1: ResponseView,
        ceased: bool,
    ) -> bool {
        true
    }

    fn handle(&self, req: &mut Request, depot: &mut Depot, res: &mut Response, ctrl: &mut FlowCtrl)
        requires
            !old(ctrl).ceased,
        ensures
            self.handled(old(req)@, old(res)@, final(req)@, final(res)@, final(ctrl).ceased),
    ;
}

/// The predicate gating a conditional hoop: decides at invocation time
/// whether the wrapped handler runs for this request. The context store
/// carries no data in this model, so the decision is a function of the
/// request alone.
pub trait HoopFilter {
    /// The decision the predicate takes on a request. The default admits
    /// every request; an implementor overrides it with its own rule.
    open spec fn spec_filter(&self, req: RequestView) -> bool {
        true
    }

    fn filter(&self, req: &Request, depot: &Depot) -> (b: bool)
        ensures
            b == self.spec_filter(req@),
    ;
}

/// One entry of the interception list: a handler that always runs, or one
/// gated by a predicate.
pub enum Hoop<H, P> {
    Always(H),
    When(H, P),
}

/// The constant predicate: admits every request or none. The simplest
/// gate for a conditional hoop.
pub struct ConstFilter(pub bool);

impl HoopFilter for ConstFilter {
    open spec fn spec_filter(&self, req: RequestView) -> bool {
        self.0
    }

    fn filter(&self, req: &Request, depot: &Depot) -> (b: bool) {
        self.0
    }
}

/// What one chain entry does to the request, response and termination
/// flag: an ungated handler's own relation; for a gated entry, the
/// handler's relation when the predicate accepts the request, and a
/// pass-through no-op when it declines.
pub open spec fn entry_step<H: Handler, P: HoopFilter>(
    e: Hoop<H, P>,
    req0: RequestView,
    res0: ResponseView,
    req1: RequestView,
    res1: ResponseView,
    ceased: bool,
) -> bool {
    match e {
        Hoop::Always(h) => h.handled(req0, res0, req1, res1, ceased),
        Hoop::When(h, p) => if p.spec_filter(req0) {
            h.handled(req0, res0, req1, res1, ceased)
        } else {
            req1 == req0 && res1 == res0 && ceased == false
        },
    }
}

/// What the interception list does, entry by entry in insertion order:
/// some sequence of intermediate states is related by the entries'
/// relations, and the first entry to signal termination ends the run
/// with every later entry not invoked.
pub open spec fn chain_relation<H: Handler, P: HoopFilter>(
    hoops: Seq<Hoop<H, P>>,
    req0: RequestView,
    res0: ResponseView,
    req1: RequestView,
    res1: ResponseView,
    ceased: bool,
) -> bool
    decreases hoops.len(),
{
    if hoops.len() == 0 {
        req1 == req0 && res1 == res0 && ceased == false
    } else {
        exists|mid: (RequestView, ResponseView, bool)|
            #[trigger] entry_step(hoops[0], req0, res0, mid.0, mid.1, mid.2) && (if mid.2 {
                req1 == mid.0 && res1 == mid.1 && ceased == true
            } else {
                chain_relation(hoops.drop_first(), mid.0, mid.1, req1, res1, ceased)
            })
    }
}

/// What one run of the whole chain does: the interception list runs
/// first; if an entry signalled termination the run ends there and the
/// fallback is not invoked, else the fallback's own relation connects
/// the intermediate state to the final one.
pub open spec fn catch_relation<H: Handler, P: HoopFilter, F: Handler>(
    hoops: Seq<Hoop<H, P>>,
    handler: F,
    req0: RequestView,
    res0: ResponseView,
    req1: RequestView,
    res1: ResponseView,
) -> bool {
    exists|mid: (RequestView, ResponseView, bool)|
        #[trigger] chain_relation(hoops, req0, res0, mid.0, mid.1, mid.2) && (if mid.2 {
            req1 == mid.0 && res1 == mid.1
        } else {
            exists|c: bool| handler.handled(mid.0, mid.1, req1, res1, c)
        })
}

proof fn lemma_chain_push_live<H: Handler, P: HoopFilter>(
    hoops: Seq<Hoop<H, P>>,
    e: Hoop<H, P>,
    req0: RequestView,
    res0: ResponseView,
    reqa: RequestView,
    resa: ResponseView,
    reqb: RequestView,
    resb: ResponseView,
    ceased: bool,
)
    requires
        chain_relation(hoops, req0, res0, reqa, resa, false),
        entry_step(e, reqa, resa, reqb, resb, ceased),
    ensures
        chain_relation(hoops.push(e), req0, res0, reqb, resb, ceased),
    decreases hoops.len(),
{
    if hoops.len() == 0 {
        assert(hoops.push(e)[0] == e);
        assert(hoops.push(e).drop_first() =~= Seq::<Hoop<H, P>>::empty());
        let mid = (reqb, resb, ceased);
        assert(entry_step(hoops.push(e)[0], req0, res0, mid.0, mid.1, mid.2));
        if !ceased {
            assert(chain_relation(hoops.push(e).drop_first(), reqb, resb, reqb, resb, false));
        }
        assert(chain_relation(hoops.push(e), req0, res0, reqb, resb, ceased));
    } else {
        let mid0 = choose|mid: (RequestView, ResponseView, bool)|
            #[trigger] entry_step(hoops[0], req0, res0, mid.0, mid.1, mid.2) && (if mid.2 {
                reqa == mid.0 && resa == mid.1 && false == true
            } else {
                chain_relation(hoops.drop_first(), mid.0, mid.1, reqa, resa, false)
            });
        assert(!mid0.2);
        lemma_chain_push_live(hoops.drop_first(), e, mid0.0, mid0.1, reqa, resa, reqb, resb, ceased);
        assert(hoops.push(e)[0] == hoops[0]);
        assert(hoops.push(e).drop_first() =~= hoops.drop_first().push(e));
        assert(entry_step(hoops.push(e)[0], req0, res0, mid0.0, mid0.1, mid0.2));
        assert(chain_relation(hoops.push(e), req0, res0, reqb, resb, ceased));
    }
}

proof fn lemma_chain_push_ceased<H: Handler, P: HoopFilter>(
    hoops: Seq<Hoop<H, P>>,
    e: Hoop<H, P>,
    req0: RequestView,
    res0: ResponseView,
    req1: RequestView,
    res1: ResponseView,
)
    requires
        chain_relation(hoops, req0, res0, req1, res1, true),
    ensures
        chain_relation(hoops.push(e), req0, res0, req1, res1, true),
    decreases hoops.len(),
{
    if hoops.len() == 0 {
        assert(false);
    } else {
        let mid0 = choose|mid: (RequestView, ResponseView, bool)|
            #[trigger] entry_step(hoops[0], req0, res0, mid.0, mid.1, mid.2) && (if mid.2 {
                req1 == mid.0 && res1 == mid.1 && true == true
            } else {
                chain_relation(hoops.drop_first(), mid.0, mid.1, req1, res1, true)
            });
        assert(hoops.push(e)[0] == hoops[0]);
        assert(hoops.push(e).drop_first() =~= hoops.drop_first().push(e));
        if !mid0.2 {
            lemma_chain_push_ceased(hoops.drop_first(), e, mid0.0, mid0.1, req1, res1);
        }
        assert(entry_step(hoops.push(e)[0], req0, res0, mid0.0, mid0.1, mid0.2));
        assert(chain_relation(hoops.push(e), req0, res0, req1, res1, true));
    }
}

proof fn lemma_chain_extend_ceased<H: Handler, P: HoopFilter>(
    hoops: Seq<Hoop<H, P>>,
    k: int,
    req0: RequestView,
    res0: ResponseView,
    req1: RequestView,
    res1: ResponseView,
)
    requires
        0 <= k <= hoops.len(),
        chain_relation(hoops.take(k), req0, res0, req1, res1, true),
    ensures
        chain_relation(hoops, req0, res0, req1, res1, true),
    decreases hoops.len() - k,
{
    if k == hoops.len() {
        assert(hoops.take(k) =~= hoops);
    } else {
        lemma_chain_push_ceased(hoops.take(k), hoops[k], req0, res0, req1, res1);
        assert(hoops.take(k).push(hoops[k]) =~= hoops.take(k + 1));
        lemma_chain_extend_ceased(hoops, k + 1, req0, res0, req1, res1);
    }
}

/// The fallback renderer: writes the negotiated default error body when
/// the response reaching it has an error status and no body yet, and is a
/// no-op otherwise. Holds an optional footer-markup override for the HTML
/// page.
pub struct DefaultHandler {
    pub footer: Option<String>,
}

impl DefaultHandler {
    /// A fallback renderer with the default attribution footer.
    pub fn new() -> (h: DefaultHandler)
        ensures
            h.footer is None,
    {
        DefaultHandler { footer: None }
    }

    /// A fallback renderer with the given footer markup.
    pub fn with_footer(footer: String) -> (h: DefaultHandler)
        ensures
            opt_string_view(h.footer) == Some(footer@),
    {
        DefaultHandler::new().footer(footer)
    }

    /// Set the footer markup.
    pub fn footer(self, footer: String) -> (h: DefaultHandler)
        ensures
            opt_string_view(h.footer) == Some(footer@),
    {
        DefaultHandler { footer: Some(footer) }
    }
}

impl Handler for DefaultHandler {
    /// The fallback renderer renders exactly when the response has an
    /// error status and no final bytes, leaves everything else alone,
    /// and never signals early termination.
    open spec fn handled(
        &self,
        req0: RequestView,
        res0: ResponseView,
        req1: RequestView,
        res1: ResponseView,
        ceased: bool,
    ) -> bool {
        &&& handle_relation(req0, res0, res1, opt_string_view(self.footer))
        &&& req1 == req0
        &&& ceased == false
    }

    fn handle(&self, req: &mut Request, depot: &mut Depot, res: &mut Response, ctrl: &mut FlowCtrl)
    {
        let status = match res.status_code {
            Some(c) => c,
            None => 404,
        };
        if (is_client_error(status) || is_server_error(status)) && !res.body.is_bytes() {
            let footer: Option<&str> = match &self.footer {
                Some(f) => Some(f.as_str()),
                None => None,
            };
            write_error_default(req, res, footer);
        }
    }
}

/// The chain owner: an ordered interception list (possibly empty) and
/// exactly one fallback handler. Order is insertion order and is the
/// override precedence.
pub struct Catcher<H, P, F> {
    pub hoops: Vec<Hoop<H, P>>,
    pub handler: F,
}

impl<H: Handler, P: HoopFilter, F: Handler> Catcher<H, P, F> {
    /// A catcher whose fallback is the given handler and whose
    /// interception list is empty.
    pub fn new(handler: F) -> (c: Self)
        ensures
            c.hoops@.len() == 0,
            c.handler == handler,
    {
        Catcher { hoops: Vec::new(), handler }
    }

    /// The interception list, in invocation order.
    pub fn hoops(&self) -> (v: &Vec<Hoop<H, P>>)
        ensures
            v@ == self.hoops@,
    {
        &self.hoops
    }

    /// The interception list, mutable.
    pub fn hoops_mut(&mut self) -> (v: &mut Vec<Hoop<H, P>>)
        ensures
            *v == old(self).hoops,
            final(self).hoops == *final(v),
            final(self).handler == old(self).handler,
    {
        &mut self.hoops
    }

    /// Append a handler to the end of the interception list, before the
    /// fallback.
    pub fn hoop(self, handler: H) -> (c: Self)
        ensures
            c.hoops@ == self.hoops@.push(Hoop::Always(handler)),
            c.handler == self.handler,
    {
        let mut hoops = self.hoops;
        hoops.push(Hoop::Always(handler));
        Catcher { hoops, handler: self.handler }
    }

    /// Append a conditionally-active handler: the predicate decides at
    /// invocation time whether it runs; when it declines, the chain
    /// proceeds as though the handler were absent for this request.
    pub fn hoop_when(self, handler: H, filter: P) -> (c: Self)
        ensures
            c.hoops@ == self.hoops@.push(Hoop::When(handler, filter)),
            c.handler == self.handler,
    {
        let mut hoops = self.hoops;
        hoops.push(Hoop::When(handler, filter));
        Catcher { hoops, handler: self.handler }
    }

    /// Run the chain for one request: every interception handler in
    /// insertion order, then the fallback; a handler that signals early
    /// termination stops every later entry, the fallback included. After
    /// the call the response carries what the chain relation allows: a
    /// state some handler resolved before terminating early, or the
    /// fallback's relation applied to what the whole list left behind.
    pub fn catch(&self, req: &mut Request, depot: &mut Depot, res: &mut Response)
        ensures
            catch_relation(
                self.hoops@,
                self.handler,
                old(req)@,
                old(res)@,
                final(req)@,
                final(res)@,
            ),
    {
        let mut ctrl = FlowCtrl::new();
        let n = self.hoops.len();
        let mut i: usize = 0;
        proof {
            assert(self.hoops@.take(0) =~= Seq::<Hoop<H, P>>::empty());
        }
        while i < n && !ctrl.ceased
            invariant
                i <= n,
                n == self.hoops.len(),
                !ctrl.ceased ==> chain_relation(
                    self.hoops@.take(i as int),
                    old(req)@,
                    old(res)@,
                    req@,
                    res@,
                    false,
                ),
                ctrl.ceased ==> chain_relation(
                    self.hoops@,
                    old(req)@,
                    old(res)@,
                    req@,
                    res@,
                    true,
                ),
            decreases n - i,
        {
            let ghost reqa = req@;
            let ghost resa = res@;
            match &self.hoops[i] {
                Hoop::Always(h) => h.handle(req, depot, res, &mut ctrl),
                Hoop::When(h, p) => {
                    if p.filter(req, depot) {
                        h.handle(req, depot, res, &mut ctrl);
                    }
                },
            }
            proof {
                assert(entry_step(self.hoops@[i as int], reqa, resa, req@, res@, ctrl.ceased));
                lemma_chain_push_live(
                    self.hoops@.take(i as int),
                    self.hoops@[i as int],
                    old(req)@,
                    old(res)@,
                    reqa,
                    resa,
                    req@,
                    res@,
                    ctrl.ceased,
                );
                assert(self.hoops@.take(i as int).push(self.hoops@[i as int]) =~= self.hoops@.take(
                    i + 1,
                ));
                if ctrl.ceased {
                    lemma_chain_extend_ceased(
                        self.hoops@,
                        i + 1,
                        old(req)@,
                        old(res)@,
                        req@,
                        res@,
                    );
                }
            }
            i += 1;
        }
        if !ctrl.is_ceased() {
            proof {
                assert(self.hoops@.take(n as int) =~= self.hoops@);
            }
            let ghost reqa = req@;
            let ghost resa = res@;
            self.handler.handle(req, depot, res, &mut ctrl);
            proof {
                let mid = (reqa, resa, false);
                assert(chain_relation(self.hoops@, old(req)@, old(res)@, mid.0, mid.1, mid.2));
                let c = ctrl.ceased;
                assert(self.handler.handled(mid.0, mid.1, req@, res@, c));
            }
        } else {
            proof {
                let mid = (req@, res@, true);
                assert(chain_relation(self.hoops@, old(req)@, old(res)@, mid.0, mid.1, mid.2));
            }
        }
    }
}

impl<H: Handler, P: HoopFilter> Default for Catcher<H, P, DefaultHandler> {
    /// A catcher whose fallback is the standard fallback renderer with no
    /// footer override.
    fn default() -> (c: Self)
        ensures
            c.hoops@.len() == 0,
            c.handler.footer is None,
    {
        Catcher { hoops: Vec::new(), handler: DefaultHandler::new() }
    }
}

/// A catcher with no interception handlers leaves everything to its
/// fallback: a run of the chain relates the final state to the initial
/// one exactly by the fallback renderer's relation, and the request is
/// not changed.
pub proof fn lemma_empty_chain_runs_fallback(
    handler: DefaultHandler,
    req0: RequestView,
    res0: ResponseView,
    req1: RequestView,
    res1: ResponseView,
)
    requires
        catch_relation(
            Seq::<Hoop<DefaultHandler, ConstFilter>>::empty(),
            handler,
            req0,
            res0,
            req1,
            res1,
        ),
    ensures
        handle_relation(req0, res0, res1, opt_string_view(handler.footer)),
        req1 == req0,
{
}

/// Invoking the fallback renderer twice on the same response is a no-op
/// the second time: where the first invocation rendered, the body now
/// holds final bytes and the renderer leaves them untouched; where it did
/// not, the response is unchanged and the second invocation declines for
/// the same reason.
pub proof fn lemma_fallback_idempotent(
    req: RequestView,
    res0: ResponseView,
    res1: ResponseView,
    res2: ResponseView,
    footer: Option<Seq<char>>,
)
    requires
        handle_relation(req, res0, res1, footer),
        handle_relation(req, res1, res2, footer),
    ensures
        res2 == res1,
{
}

/// A response that reaches the fallback renderer with no status set is
/// treated as Not Found: the synthesized descriptor carries code 404 and
/// the canonical phrase.
pub proof fn lemma_unset_status_treated_as_not_found(res: ResponseView)
    requires
        res.status_code is None,
        !(res.body is Error),
    ensures
        fallback_applies(res) == !(res.body is Bytes),
        descriptor_for(res).code == 404,
        descriptor_for(res).name == "Not Found"@,
{
}

} // verus!
