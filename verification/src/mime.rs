//! Content-type resolution for retrieval.
//!
//! The resolved type sets a response header only; it is never stored. The
//! precedence is fixed: an explicit override given by the caller wins, else
//! the type sniffed from the first bytes of the content, else the generic
//! plain-text fallback.

use vstd::prelude::*;

verus! {

/// What the sniffer guesses from the content bytes, a function of the bytes
/// alone; `None` when no magic number matches.
pub uninterp spec fn sniffed_mime_of(content: Seq<u8>) -> Option<Seq<char>>;

/// Relies on mime-sniffer's `MimeTypeSniffer::sniff_mime_type` for byte
/// slices: the guess is computed from the content's leading magic numbers
/// alone.
#[verifier::external_body]
fn sniff_mime(content: &[u8]) -> (r: Option<String>)
    ensures
        match r {
            Some(s) => sniffed_mime_of(content@) == Some(s@),
            None => sniffed_mime_of(content@) is None,
        },
{
    match mime_sniffer::MimeTypeSniffer::sniff_mime_type(&content) {
        Some(s) => Some(s.to_owned()),
        None => None,
    }
}

/// The view of an optional borrowed string.
pub open spec fn opt_str_view(o: Option<&str>) -> Option<Seq<char>> {
    match o {
        Some(s) => Some(s@),
        None => None,
    }
}

/// The content type a retrieval answers with: the explicit override if one
/// was given, else the sniffed type, else plain text.
pub open spec fn resolved_type(override_type: Option<Seq<char>>, content: Seq<u8>) -> Seq<char> {
    match override_type {
        Some(t) => t,
        None => match sniffed_mime_of(content) {
            Some(t) => t,
            None => "text/plain"@,
        },
    }
}

/// Resolves the content type for a retrieval answer, by the fixed
/// precedence: explicit override, then sniffed type, then plain text.
pub fn resolve_content_type(override_type: Option<&str>, content: &[u8]) -> (r: String)
    ensures
        r@ == resolved_type(opt_str_view(override_type), content@),
{
    match override_type {
        Some(t) => t.to_owned(),
        None => match sniff_mime(content) {
            Some(t) => t,
            None => {
                let fallback: String = "text/plain".to_owned();
                fallback
            },
        },
    }
}

} // verus!
