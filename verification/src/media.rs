//! Media types as plain values: the top-level type name and the subtype.
//! Content negotiation works on the subtype alone; the canonical string
//! `type/subtype` is what goes into the `Content-Type` header.

use vstd::prelude::*;

verus! {

/// A media type, held as its two name parts: top-level type and subtype.
pub struct MediaType {
    pub top: String,
    pub subtype: String,
}

/// The mathematical value of a [`MediaType`].
pub struct MediaTypeView {
    pub top: Seq<char>,
    pub subtype: Seq<char>,
}

impl View for MediaType {
    type V = MediaTypeView;

    open spec fn view(&self) -> MediaTypeView {
        MediaTypeView { top: self.top@, subtype: self.subtype@ }
    }
}

impl MediaTypeView {
    /// The canonical string form, `type/subtype`.
    pub open spec fn canonical(self) -> Seq<char> {
        self.top + "/"@ + self.subtype
    }
}

/// The `text/html` media type, the negotiation fallback.
pub open spec fn html_media_type() -> MediaTypeView {
    MediaTypeView { top: "text"@, subtype: "html"@ }
}

/// The subtypes the format encoders support.
pub open spec fn supported_subtype(s: Seq<char>) -> bool {
    ||| s == "json"@
    ||| s == "html"@
    ||| s == "xml"@
    ||| s == "plain"@
}

/// The media type negotiation resolves to: the preference itself when its
/// subtype is supported, `text/html` otherwise.
pub open spec fn negotiated(pref: MediaTypeView) -> MediaTypeView {
    if supported_subtype(pref.subtype) {
        pref
    } else {
        html_media_type()
    }
}

impl MediaType {
    /// Build a media type from its two name parts.
    pub fn new(top: &str, subtype: &str) -> (m: MediaType)
        ensures
            m@ == (MediaTypeView { top: top@, subtype: subtype@ }),
    {
        MediaType { top: String::from_str(top), subtype: String::from_str(subtype) }
    }

    /// The `text/html` media type.
    pub fn html() -> (m: MediaType)
        ensures
            m@ == html_media_type(),
    {
        MediaType::new("text", "html")
    }

    /// The canonical string form, `type/subtype`.
    pub fn canonical_string(&self) -> (s: String)
        ensures
            s@ == self@.canonical(),
    {
        let mut s = self.top.clone();
        s.append("/");
        s.append(self.subtype.as_str());
        s
    }

    /// Whether the subtype is one the format encoders support.
    pub fn is_supported(&self) -> (b: bool)
        ensures
            b == supported_subtype(self@.subtype),
    {
        let s = &self.subtype;
        *s == String::from_str("json") || *s == String::from_str("html")
            || *s == String::from_str("xml") || *s == String::from_str("plain")
    }
}

impl Clone for MediaType {
    fn clone(&self) -> (m: Self)
        ensures
            m@ == self@,
    {
        MediaType { top: self.top.clone(), subtype: self.subtype.clone() }
    }
}

/// Negotiate an output format: keep the preference when its subtype is
/// supported, fall back to `text/html` otherwise. Total: an unrecognized
/// preference never errors, it degrades to HTML.
pub fn negotiate(pref: &MediaType) -> (m: MediaType)
    ensures
        m@ == negotiated(pref@),
{
    if pref.is_supported() {
        pref.clone()
    } else {
        MediaType::html()
    }
}

/// A supported preference is kept: negotiation resolves to the
/// preference itself, its subtype included.
pub proof fn lemma_negotiate_supported(pref: MediaTypeView)
    requires
        supported_subtype(pref.subtype),
    ensures
        negotiated(pref) == pref,
{
}

/// An unsupported or missing preference always resolves to `text/html`.
pub proof fn lemma_negotiate_fallback(pref: MediaTypeView)
    requires
        !supported_subtype(pref.subtype),
    ensures
        negotiated(pref) == html_media_type(),
{
}

} // verus!
