use catcher::catcher::{Catcher, ConstFilter, DefaultHandler, Handler};
use catcher::encode::{status_error_bytes, status_error_json, status_error_plain, status_error_xml, status_error_html};
use catcher::http::{guess_accept_mime, Depot, FlowCtrl, Request, ResBody, Response};
use catcher::media::{negotiate, MediaType};
use catcher::status::StatusError;

fn body_bytes(res: &Response) -> Vec<u8> {
    match &res.body {
        ResBody::Bytes(b) => b.clone(),
        _ => panic!("no body bytes"),
    }
}

fn body_string(res: &Response) -> String {
    String::from_utf8(body_bytes(res)).unwrap()
}

fn content_type(res: &Response) -> String {
    for (name, value) in res.headers.iter() {
        if name == "content-type" {
            return value.clone();
        }
    }
    panic!("no content-type header");
}

struct Handle404;

impl Handler for Handle404 {
    fn handle(&self, _req: &mut Request, _depot: &mut Depot, res: &mut Response, ctrl: &mut FlowCtrl) {
        if res.status_code == Some(404) {
            res.write_body("Custom 404 Error Page".as_bytes().to_vec());
            ctrl.skip_rest();
        }
    }
}

struct WriteText(&'static str);

impl Handler for WriteText {
    fn handle(&self, _req: &mut Request, _depot: &mut Depot, res: &mut Response, ctrl: &mut FlowCtrl) {
        res.write_body(self.0.as_bytes().to_vec());
        ctrl.skip_rest();
    }
}

fn error_response(status: Option<u16>) -> Response {
    let mut res = Response::new();
    res.status_code = status;
    res
}

#[test]
fn test_custom_catcher() {
    let catcher: Catcher<Handle404, ConstFilter, DefaultHandler> =
        Catcher::new(DefaultHandler::new()).hoop(Handle404);
    let mut req = Request::new(Some(MediaType::new("text", "html")));
    let mut depot = Depot::new();
    let mut res = error_response(Some(404));
    catcher.catch(&mut req, &mut depot, &mut res);
    assert_eq!(body_string(&res), "Custom 404 Error Page");
}

#[test]
fn test_handle_error() {
    // An application-level error wrote status 500 and its own body before
    // the catcher ran: the fallback must not overwrite that body.
    let catcher: Catcher<Handle404, ConstFilter, DefaultHandler> = Catcher::new(DefaultHandler::new());
    let mut req = Request::new(None);
    let mut depot = Depot::new();
    let mut res = error_response(Some(500));
    res.write_body("custom error".as_bytes().to_vec());
    catcher.catch(&mut req, &mut depot, &mut res);
    assert_eq!(body_string(&res), "custom error");
}

#[test]
fn scenario_html_not_found() {
    let catcher: Catcher<Handle404, ConstFilter, DefaultHandler> = Catcher::new(DefaultHandler::new());
    let mut req = Request::new(Some(MediaType::new("text", "html")));
    let mut depot = Depot::new();
    let mut res = error_response(Some(404));
    catcher.catch(&mut req, &mut depot, &mut res);
    assert!(body_string(&res).contains("<h1>404: Not Found</h1>"));
    assert_eq!(content_type(&res), "text/html");
}

#[test]
fn scenario_json_not_found() {
    let catcher: Catcher<Handle404, ConstFilter, DefaultHandler> = Catcher::new(DefaultHandler::new());
    let mut req = Request::new(Some(MediaType::new("application", "json")));
    let mut depot = Depot::new();
    let mut res = error_response(Some(404));
    catcher.catch(&mut req, &mut depot, &mut res);
    assert_eq!(
        body_string(&res),
        "{\"error\":{\"code\":404,\"name\":\"Not Found\",\"summary\":\"Not Found\",\"detail\":\"there is no more detailed explanation\"}}"
    );
    assert_eq!(content_type(&res), "application/json");
}

#[test]
fn unsupported_preference_falls_back_to_html() {
    let catcher: Catcher<Handle404, ConstFilter, DefaultHandler> = Catcher::new(DefaultHandler::new());
    let mut req = Request::new(Some(MediaType::new("text", "csv")));
    let mut depot = Depot::new();
    let mut res = error_response(Some(404));
    catcher.catch(&mut req, &mut depot, &mut res);
    assert_eq!(content_type(&res), "text/html");
    assert!(body_string(&res).starts_with("<!DOCTYPE html>"));
}

#[test]
fn unset_status_treated_as_not_found() {
    let catcher: Catcher<Handle404, ConstFilter, DefaultHandler> = Catcher::new(DefaultHandler::new());
    let mut req = Request::new(Some(MediaType::new("text", "plain")));
    let mut depot = Depot::new();
    let mut res = error_response(None);
    catcher.catch(&mut req, &mut depot, &mut res);
    assert!(body_string(&res).starts_with("code:404,\nname:Not Found,\n"));
}

#[test]
fn fallback_is_idempotent() {
    let catcher: Catcher<Handle404, ConstFilter, DefaultHandler> = Catcher::new(DefaultHandler::new());
    let mut req = Request::new(Some(MediaType::new("text", "html")));
    let mut depot = Depot::new();
    let mut res = error_response(Some(404));
    catcher.catch(&mut req, &mut depot, &mut res);
    let first_body = body_bytes(&res);
    let first_headers = res.headers.clone();
    catcher.catch(&mut req, &mut depot, &mut res);
    assert_eq!(body_bytes(&res), first_body);
    assert_eq!(res.headers, first_headers);
}

#[test]
fn early_termination_skips_rest_of_chain() {
    let catcher: Catcher<WriteText, ConstFilter, DefaultHandler> =
        Catcher::new(DefaultHandler::new()).hoop(WriteText("first")).hoop(WriteText("second"));
    let mut req = Request::new(Some(MediaType::new("text", "html")));
    let mut depot = Depot::new();
    let mut res = error_response(Some(404));
    catcher.catch(&mut req, &mut depot, &mut res);
    assert_eq!(body_string(&res), "first");
}

#[test]
fn declined_hoop_is_passed_over() {
    let catcher: Catcher<WriteText, ConstFilter, DefaultHandler> =
        Catcher::new(DefaultHandler::new()).hoop_when(WriteText("gated"), ConstFilter(false));
    let mut req = Request::new(Some(MediaType::new("text", "html")));
    let mut depot = Depot::new();
    let mut res = error_response(Some(404));
    catcher.catch(&mut req, &mut depot, &mut res);
    assert!(body_string(&res).contains("<h1>404: Not Found</h1>"));
}

#[test]
fn accepted_hoop_runs() {
    let catcher: Catcher<WriteText, ConstFilter, DefaultHandler> =
        Catcher::new(DefaultHandler::new()).hoop_when(WriteText("gated"), ConstFilter(true));
    let mut req = Request::new(Some(MediaType::new("text", "html")));
    let mut depot = Depot::new();
    let mut res = error_response(Some(404));
    catcher.catch(&mut req, &mut depot, &mut res);
    assert_eq!(body_string(&res), "gated");
}

#[test]
fn non_error_status_is_untouched() {
    let catcher: Catcher<Handle404, ConstFilter, DefaultHandler> = Catcher::new(DefaultHandler::new());
    let mut req = Request::new(Some(MediaType::new("text", "html")));
    let mut depot = Depot::new();
    let mut res = error_response(Some(200));
    catcher.catch(&mut req, &mut depot, &mut res);
    assert!(matches!(res.body, ResBody::Unset));
    assert!(res.headers.is_empty());
}

#[test]
fn pending_descriptor_is_rendered() {
    let catcher: Catcher<Handle404, ConstFilter, DefaultHandler> = Catcher::new(DefaultHandler::new());
    let mut req = Request::new(Some(MediaType::new("application", "json")));
    let mut depot = Depot::new();
    let mut res = error_response(Some(500));
    res.body = ResBody::Error(StatusError {
        code: 500,
        name: "Internal Server Error".to_string(),
        summary: Some("boom".to_string()),
        detail: Some("the gears jammed".to_string()),
    });
    catcher.catch(&mut req, &mut depot, &mut res);
    assert_eq!(
        body_string(&res),
        "{\"error\":{\"code\":500,\"name\":\"Internal Server Error\",\"summary\":\"boom\",\"detail\":\"the gears jammed\"}}"
    );
}

#[test]
fn custom_footer_is_used() {
    let catcher: Catcher<Handle404, ConstFilter, DefaultHandler> =
        Catcher::new(DefaultHandler::with_footer("<b>mine</b>".to_string()));
    let mut req = Request::new(Some(MediaType::new("text", "html")));
    let mut depot = Depot::new();
    let mut res = error_response(Some(404));
    catcher.catch(&mut req, &mut depot, &mut res);
    let body = body_string(&res);
    assert!(body.contains("<footer><b>mine</b></footer>"));
    assert!(!body.contains("salvo.rs"));
}

#[test]
fn default_footer_is_attribution_link() {
    let mut req = Request::new(None);
    let mut res = error_response(Some(404));
    catcher::catcher::write_error_default(&req, &mut res, None);
    assert!(body_string(&res).contains("<a href=\"https://salvo.rs\" target=\"_blank\">salvo</a>"));
    assert_eq!(content_type(&res), "text/html");
}

#[test]
fn encoder_plain_exact() {
    let s = status_error_plain(404, "Not Found", None, None);
    assert_eq!(
        s,
        "code:404,\nname:Not Found,\nsummary:Not Found,\ndetail:there is no more detailed explanation"
    );
    let s = status_error_plain(400, "Bad Request", Some("oops"), Some("bad header"));
    assert_eq!(s, "code:400,\nname:Bad Request,\nsummary:oops,\ndetail:bad header");
}

#[test]
fn encoder_json_exact() {
    let s = status_error_json(418, "I'm a teapot", Some("short"), None);
    assert_eq!(
        s,
        "{\"error\":{\"code\":418,\"name\":\"I'm a teapot\",\"summary\":\"short\",\"detail\":\"there is no more detailed explanation\"}}"
    );
}

#[test]
fn encoder_xml_exact() {
    let s = status_error_xml(503, "Service Unavailable", None, Some("try later"));
    assert_eq!(
        s,
        "<error><code>503</code><name>Service Unavailable</name><summary>Service Unavailable</summary><detail>try later</detail></error>"
    );
}

#[test]
fn encoder_html_structure() {
    let s = status_error_html(404, "Not Found", Some("missing"), None, None);
    assert!(s.starts_with("<!DOCTYPE html>"));
    assert!(s.contains("<title>404: Not Found</title>"));
    assert!(s.contains("<h1>404: Not Found</h1>"));
    assert!(s.contains("<h3>missing</h3>"));
    assert!(s.contains("<p>there is no more detailed explanation</p>"));
    assert!(s.contains("@media (prefers-color-scheme: dark)"));
    assert!(s.ends_with("</body>\n</html>"));
}

#[test]
fn status_error_bytes_keeps_supported_subtype() {
    let err = StatusError::from_code(404).unwrap();
    for (top, sub) in [("application", "json"), ("text", "html"), ("text", "xml"), ("text", "plain")] {
        let pref = MediaType::new(top, sub);
        let (mime, bytes) = status_error_bytes(&err, &pref, None);
        assert_eq!(mime.subtype, sub);
        assert_eq!(mime.top, top);
        assert!(!bytes.is_empty());
    }
}

#[test]
fn status_error_bytes_falls_back_to_html() {
    let err = StatusError::from_code(404).unwrap();
    let pref = MediaType::new("application", "octet-stream");
    let (mime, bytes) = status_error_bytes(&err, &pref, None);
    assert_eq!(mime.top, "text");
    assert_eq!(mime.subtype, "html");
    assert!(String::from_utf8(bytes).unwrap().starts_with("<!DOCTYPE html>"));
}

#[test]
fn negotiate_supported_and_unsupported() {
    let kept = negotiate(&MediaType::new("application", "xml"));
    assert_eq!(kept.top, "application");
    assert_eq!(kept.subtype, "xml");
    let fell = negotiate(&MediaType::new("image", "png"));
    assert_eq!(fell.top, "text");
    assert_eq!(fell.subtype, "html");
}

#[test]
fn from_code_known_and_unknown() {
    let e = StatusError::from_code(404).unwrap();
    assert_eq!(e.code, 404);
    assert_eq!(e.name, "Not Found");
    assert!(e.summary.is_none());
    assert!(e.detail.is_none());
    assert!(StatusError::from_code(999).is_none());
    assert!(StatusError::from_code(0).is_none());
}

#[test]
fn unknown_status_renders_generic_server_error() {
    let mut req = Request::new(Some(MediaType::new("text", "plain")));
    let mut res = error_response(Some(599));
    catcher::catcher::write_error_default(&req, &mut res, None);
    assert!(body_string(&res).starts_with("code:500,\nname:Internal Server Error,\n"));
}

#[test]
fn insert_header_replaces_in_place() {
    let mut res = Response::new();
    res.insert_header("content-type".to_string(), "text/plain".to_string());
    res.insert_header("x-extra".to_string(), "1".to_string());
    res.insert_header("content-type".to_string(), "text/html".to_string());
    assert_eq!(res.headers.len(), 2);
    assert_eq!(res.headers[0], ("content-type".to_string(), "text/html".to_string()));
    assert_eq!(res.headers[1], ("x-extra".to_string(), "1".to_string()));
}

#[test]
fn catcher_builder_keeps_order() {
    let catcher: Catcher<WriteText, ConstFilter, DefaultHandler> =
        Catcher::new(DefaultHandler::new()).hoop(WriteText("a")).hoop(WriteText("b"));
    assert_eq!(catcher.hoops().len(), 2);
}

#[test]
fn default_catcher_has_no_hoops_and_no_footer() {
    let catcher: Catcher<Handle404, ConstFilter, DefaultHandler> = Catcher::default();
    assert_eq!(catcher.hoops().len(), 0);
    assert!(catcher.handler.footer.is_none());
}

#[test]
fn hoops_mut_edits_the_interception_list() {
    let mut catcher: Catcher<WriteText, ConstFilter, DefaultHandler> =
        Catcher::new(DefaultHandler::new()).hoop(WriteText("a"));
    catcher.hoops_mut().clear();
    assert_eq!(catcher.hoops().len(), 0);
}

#[test]
fn canonical_string_joins_type_and_subtype() {
    assert_eq!(MediaType::new("application", "json").canonical_string(), "application/json");
    assert_eq!(MediaType::html().canonical_string(), "text/html");
}

#[test]
fn guess_accept_mime_defaults() {
    let req = Request::new(None);
    let m = guess_accept_mime(&req, None);
    assert_eq!(m.canonical_string(), "text/html");
    let m = guess_accept_mime(&req, Some(MediaType::new("text", "plain")));
    assert_eq!(m.canonical_string(), "text/plain");
    let req = Request::new(Some(MediaType::new("application", "xml")));
    let m = guess_accept_mime(&req, None);
    assert_eq!(m.canonical_string(), "application/xml");
}

#[test]
fn declined_hoop_chain_continues_to_next_entry() {
    let catcher: Catcher<WriteText, ConstFilter, DefaultHandler> = Catcher::new(
        DefaultHandler::new(),
    )
    .hoop_when(WriteText("gated"), ConstFilter(false))
    .hoop(WriteText("after"));
    let mut req = Request::new(Some(MediaType::new("text", "html")));
    let mut depot = Depot::new();
    let mut res = error_response(Some(404));
    catcher.catch(&mut req, &mut depot, &mut res);
    assert_eq!(body_string(&res), "after");
}
