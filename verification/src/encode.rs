//! The four format encoders and the negotiated rendering of an error
//! descriptor into a byte payload. Each encoder is a pure function whose
//! output matches its template byte for byte; no field is escaped, which
//! preserves the wire format exactly but is a known gap for untrusted
//! fields.

use vstd::prelude::*;
use vstd::utf8::encode_utf8;
use vstd::slice::slice_to_vec;
use crate::digits::{dec_seq, dec_string};
use crate::media::{MediaType, negotiated, supported_subtype};
use crate::status::StatusErrorView;

verus! {

/// The view of an optional borrowed string.
pub open spec fn opt_str_view(o: Option<&str>) -> Option<Seq<char>> {
    match o {
        Some(s) => Some(s@),
        None => None,
    }
}

/// The summary rendered for a descriptor: its summary if present, else its
/// name.
pub open spec fn summary_or_name(name: Seq<char>, summary: Option<Seq<char>>) -> Seq<char> {
    match summary {
        Some(s) => s,
        None => name,
    }
}

/// The detail rendered for a descriptor: its detail if present, else the
/// fixed placeholder line.
pub open spec fn detail_or_placeholder(detail: Option<Seq<char>>) -> Seq<char> {
    match detail {
        Some(d) => d,
        None => "there is no more detailed explanation"@,
    }
}

/// The footer rendered at the foot of the HTML page: the caller's markup
/// if present, else the default attribution link.
pub open spec fn footer_or_default(footer: Option<Seq<char>>) -> Seq<char> {
    match footer {
        Some(f) => f,
        None => "<a href=\"https://salvo.rs\" target=\"_blank\">salvo</a>"@,
    }
}

/// The plain-text payload template.
pub open spec fn plain_payload(
    code: u16,
    name: Seq<char>,
    summary: Option<Seq<char>>,
    detail: Option<Seq<char>>,
) -> Seq<char> {
    "code:"@ + dec_seq(code as nat) + ",\nname:"@ + name + ",\nsummary:"@ + summary_or_name(
        name,
        summary,
    ) + ",\ndetail:"@ + detail_or_placeholder(detail)
}

/// The JSON payload template: fields in this exact order, the numeric code
/// unquoted, the strings substituted literally.
pub open spec fn json_payload(
    code: u16,
    name: Seq<char>,
    summary: Option<Seq<char>>,
    detail: Option<Seq<char>>,
) -> Seq<char> {
    "{\"error\":{\"code\":"@ + dec_seq(code as nat) + ",\"name\":\""@ + name + "\",\"summary\":\""@
        + summary_or_name(name, summary) + "\",\"detail\":\""@ + detail_or_placeholder(detail)
        + "\"}}"@
}

/// The XML payload template.
pub open spec fn xml_payload(
    code: u16,
    name: Seq<char>,
    summary: Option<Seq<char>>,
    detail: Option<Seq<char>>,
) -> Seq<char> {
    "<error><code>"@ + dec_seq(code as nat) + "</code><name>"@ + name + "</name><summary>"@
        + summary_or_name(name, summary) + "</summary><detail>"@ + detail_or_placeholder(detail)
        + "</detail></error>"@
}

/// The opening of the HTML document, up to the title text.
pub open spec fn html_head() -> Seq<char> {
    "<!DOCTYPE html>\n<html>\n<head>\n    <meta charset=\"utf-8\">\n    <meta name=\"viewport\" content=\"width=device-width\">\n    <title>"@
}

/// The stylesheet and the opening of the body, between the title and the
/// page heading.
pub open spec fn html_style() -> Seq<char> {
    "</title>\n    <style>\n    :root {\n        --bg-color: #fff;\n        --text-color: #222;\n    }\n    body {\n        background: var(--bg-color);\n        color: var(--text-color);\n        text-align: center;\n    }\n    footer{text-align:center;}\n    @media (prefers-color-scheme: dark) {\n        :root {\n            --bg-color: #222;\n            --text-color: #ddd;\n        }\n        a:link { color: red; }\n        a:visited { color: #a8aeff; }\n        a:hover {color: #a8aeff;}\n        a:active {color: #a8aeff;}\n    }\n    </style>\n</head>\n<body>\n    <div><h1>"@
}

/// The optional summary block of the HTML page.
pub open spec fn html_summary_block(summary: Option<Seq<char>>) -> Seq<char> {
    match summary {
        Some(s) => "<h3>"@ + s + "</h3>"@,
        None => Seq::empty(),
    }
}

/// The full HTML payload template: title, heading, optional summary,
/// detail, rule, footer.
pub open spec fn html_payload(
    code: u16,
    name: Seq<char>,
    summary: Option<Seq<char>>,
    detail: Option<Seq<char>>,
    footer: Option<Seq<char>>,
) -> Seq<char> {
    html_head() + dec_seq(code as nat) + ": "@ + name + html_style() + dec_seq(code as nat)
        + ": "@ + name + "</h1>"@ + html_summary_block(summary) + "<p>"@ + detail_or_placeholder(
        detail,
    ) + "</p><hr><footer>"@ + footer_or_default(footer) + "</footer></div>\n</body>\n</html>"@
}

/// Render the plain-text error page.
pub fn status_error_plain(code: u16, name: &str, summary: Option<&str>, detail: Option<&str>) -> (r:
    String)
    ensures
        r@ == plain_payload(code, name@, opt_str_view(summary), opt_str_view(detail)),
{
    let mut s = String::from_str("code:");
    let d = dec_string(code);
    s.append(d.as_str());
    s.append(",\nname:");
    s.append(name);
    s.append(",\nsummary:");
    match summary {
        Some(x) => s.append(x),
        None => s.append(name),
    }
    s.append(",\ndetail:");
    match detail {
        Some(x) => s.append(x),
        None => s.append("there is no more detailed explanation"),
    }
    proof {
        assert(s@ =~= plain_payload(code, name@, opt_str_view(summary), opt_str_view(detail)));
    }
    s
}

/// Render the JSON error page.
pub fn status_error_json(code: u16, name: &str, summary: Option<&str>, detail: Option<&str>) -> (r:
    String)
    ensures
        r@ == json_payload(code, name@, opt_str_view(summary), opt_str_view(detail)),
{
    let mut s = String::from_str("{\"error\":{\"code\":");
    let d = dec_string(code);
    s.append(d.as_str());
    s.append(",\"name\":\"");
    s.append(name);
    s.append("\",\"summary\":\"");
    match summary {
        Some(x) => s.append(x),
        None => s.append(name),
    }
    s.append("\",\"detail\":\"");
    match detail {
        Some(x) => s.append(x),
        None => s.append("there is no more detailed explanation"),
    }
    s.append("\"}}");
    proof {
        assert(s@ =~= json_payload(code, name@, opt_str_view(summary), opt_str_view(detail)));
    }
    s
}

/// Render the XML error page.
pub fn status_error_xml(code: u16, name: &str, summary: Option<&str>, detail: Option<&str>) -> (r:
    String)
    ensures
        r@ == xml_payload(code, name@, opt_str_view(summary), opt_str_view(detail)),
{
    let mut s = String::from_str("<error><code>");
    let d = dec_string(code);
    s.append(d.as_str());
    s.append("</code><name>");
    s.append(name);
    s.append("</name><summary>");
    match summary {
        Some(x) => s.append(x),
        None => s.append(name),
    }
    s.append("</summary><detail>");
    match detail {
        Some(x) => s.append(x),
        None => s.append("there is no more detailed explanation"),
    }
    s.append("</detail></error>");
    proof {
        assert(s@ =~= xml_payload(code, name@, opt_str_view(summary), opt_str_view(detail)));
    }
    s
}

/// Render the HTML error page: a standalone document with a light/dark
/// adaptive stylesheet.
pub fn status_error_html(
    code: u16,
    name: &str,
    summary: Option<&str>,
    detail: Option<&str>,
    footer: Option<&str>,
) -> (r: String)
    ensures
        r@ == html_payload(
            code,
            name@,
            opt_str_view(summary),
            opt_str_view(detail),
            opt_str_view(footer),
        ),
{
    let mut s = String::from_str(
        "<!DOCTYPE html>\n<html>\n<head>\n    <meta charset=\"utf-8\">\n    <meta name=\"viewport\" content=\"width=device-width\">\n    <title>",
    );
    let d = dec_string(code);
    s.append(d.as_str());
    s.append(": ");
    s.append(name);
    s.append(
        "</title>\n    <style>\n    :root {\n        --bg-color: #fff;\n        --text-color: #222;\n    }\n    body {\n        background: var(--bg-color);\n        color: var(--text-color);\n        text-align: center;\n    }\n    footer{text-align:center;}\n    @media (prefers-color-scheme: dark) {\n        :root {\n            --bg-color: #222;\n            --text-color: #ddd;\n        }\n        a:link { color: red; }\n        a:visited { color: #a8aeff; }\n        a:hover {color: #a8aeff;}\n        a:active {color: #a8aeff;}\n    }\n    </style>\n</head>\n<body>\n    <div><h1>",
    );
    s.append(d.as_str());
    s.append(": ");
    s.append(name);
    s.append("</h1>");
    match summary {
        Some(x) => {
            s.append("<h3>");
            s.append(x);
            s.append("</h3>");
        },
        None => {},
    }
    s.append("<p>");
    match detail {
        Some(x) => s.append(x),
        None => s.append("there is no more detailed explanation"),
    }
    s.append("</p><hr><footer>");
    match footer {
        Some(x) => s.append(x),
        None => s.append("<a href=\"https://salvo.rs\" target=\"_blank\">salvo</a>"),
    }
    s.append("</footer></div>\n</body>\n</html>");
    proof {
        assert(s@ =~= html_payload(
            code,
            name@,
            opt_str_view(summary),
            opt_str_view(detail),
            opt_str_view(footer),
        ));
    }
    s
}

/// The payload the pipeline renders for a descriptor once a subtype has
/// been resolved: the matching encoder's template, HTML for anything that
/// is not `plain`, `json` or `xml`.
pub open spec fn error_payload(
    e: StatusErrorView,
    subtype: Seq<char>,
    footer: Option<Seq<char>>,
) -> Seq<char> {
    if subtype == "plain"@ {
        plain_payload(e.code, e.name, e.summary, e.detail)
    } else if subtype == "json"@ {
        json_payload(e.code, e.name, e.summary, e.detail)
    } else if subtype == "xml"@ {
        xml_payload(e.code, e.name, e.summary, e.detail)
    } else {
        html_payload(e.code, e.name, e.summary, e.detail, footer)
    }
}

/// Create the resolved media type and the encoded bytes for a descriptor:
/// negotiate the format from the preference, dispatch to the matching
/// encoder, and UTF-8-encode the text.
pub fn status_error_bytes(
    err: &crate::status::StatusError,
    prefer_format: &MediaType,
    footer: Option<&str>,
) -> (r: (MediaType, Vec<u8>))
    ensures
        r.0@ == negotiated(prefer_format@),
        r.1@ == encode_utf8(
            error_payload(err@, negotiated(prefer_format@).subtype, opt_str_view(footer)),
        ),
{
    let format = crate::media::negotiate(prefer_format);
    let summary: Option<&str> = match &err.summary {
        Some(s) => Some(s.as_str()),
        None => None,
    };
    let detail: Option<&str> = match &err.detail {
        Some(d) => Some(d.as_str()),
        None => None,
    };
    let content: String = if format.subtype == String::from_str("plain") {
        status_error_plain(err.code, err.name.as_str(), summary, detail)
    } else if format.subtype == String::from_str("json") {
        status_error_json(err.code, err.name.as_str(), summary, detail)
    } else if format.subtype == String::from_str("xml") {
        status_error_xml(err.code, err.name.as_str(), summary, detail)
    } else {
        status_error_html(err.code, err.name.as_str(), summary, detail, footer)
    };
    let data = slice_to_vec(content.as_str().as_bytes());
    (format, data)
}

/// For every descriptor and every preference with a supported subtype,
/// rendering keeps that subtype, and the payload is the matching
/// encoder's template with the descriptor's fields substituted.
pub proof fn lemma_render_supported_subtype(
    e: StatusErrorView,
    pref: crate::media::MediaTypeView,
    footer: Option<Seq<char>>,
)
    requires
        supported_subtype(pref.subtype),
    ensures
        negotiated(pref).subtype == pref.subtype,
        pref.subtype == "plain"@ ==> error_payload(e, negotiated(pref).subtype, footer)
            == plain_payload(e.code, e.name, e.summary, e.detail),
        pref.subtype == "json"@ ==> error_payload(e, negotiated(pref).subtype, footer)
            == json_payload(e.code, e.name, e.summary, e.detail),
        pref.subtype == "xml"@ ==> error_payload(e, negotiated(pref).subtype, footer)
            == xml_payload(e.code, e.name, e.summary, e.detail),
        pref.subtype == "html"@ ==> error_payload(e, negotiated(pref).subtype, footer)
            == html_payload(e.code, e.name, e.summary, e.detail, footer),
{
    reveal_strlit("plain");
    reveal_strlit("json");
    reveal_strlit("xml");
    reveal_strlit("html");
    assert("json"@.len() == 4);
    assert("plain"@.len() == 5);
    assert("xml"@.len() == 3);
    assert("html"@.len() == 4);
    assert("json"@ != "plain"@);
    assert("xml"@ != "plain"@);
    assert("xml"@ != "json"@);
    assert("html"@ != "plain"@);
    assert("html"@[0] == 'h' && "json"@[0] == 'j');
    assert("html"@ != "json"@);
    assert("html"@ != "xml"@);
}

/// For every descriptor and every unsupported preference, rendering
/// resolves to `text/html` and the payload is the HTML template.
pub proof fn lemma_render_unsupported_subtype(
    e: StatusErrorView,
    pref: crate::media::MediaTypeView,
    footer: Option<Seq<char>>,
)
    requires
        !supported_subtype(pref.subtype),
    ensures
        negotiated(pref) == crate::media::html_media_type(),
        error_payload(e, negotiated(pref).subtype, footer) == html_payload(
            e.code,
            e.name,
            e.summary,
            e.detail,
            footer,
        ),
{
    reveal_strlit("plain");
    reveal_strlit("json");
    reveal_strlit("xml");
    reveal_strlit("html");
    assert("json"@.len() == 4);
    assert("plain"@.len() == 5);
    assert("xml"@.len() == 3);
    assert("html"@.len() == 4);
    assert("json"@ != "plain"@);
    assert("xml"@ != "plain"@);
    assert("xml"@ != "json"@);
    assert("html"@ != "plain"@);
    assert("html"@[0] == 'h' && "json"@[0] == 'j');
    assert("html"@ != "json"@);
    assert("html"@ != "xml"@);
}

} // verus!
