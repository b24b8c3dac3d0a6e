//! The page that boots the single-page front end, handing it the caller's
//! session as its start-up flags.

use vstd::prelude::*;

verus! {

/// What serde_json makes of a string: its quoted, escaped JSON form.
pub uninterp spec fn json_string_of(s: Seq<char>) -> Seq<char>;

/// The flags handed over when they cannot be serialised.
pub const NULL_FLAGS: &'static str = "null";

/// The JSON text of the start-up flags: `null` without a session, the
/// session's payload as a JSON string with one.
pub open spec fn flags_json_of(identity: Option<String>) -> Seq<char> {
    match identity {
        Some(s) => json_string_of(s@),
        None => NULL_FLAGS@,
    }
}

/// Relies on serde_json::to_string on an optional string: `None` serialises
/// as `null` (serialize_none writes the unit value), `Some(s)` as the JSON
/// string of `s`.
#[verifier::external_body]
fn serialize_identity(identity: &Option<String>) -> (r: Option<String>)
    ensures
        r matches Some(text) ==> text@ == match *identity {
            Some(s) => json_string_of(s@),
            None => NULL_FLAGS@,
        },
{
    serde_json::to_string(identity).ok()
}

pub const PAGE_HEAD: &'static str = "<!DOCTYPE html><html><head><meta charset=\"utf-8\"><meta name=\"viewport\" content=\"width=device-width, initial-scale=1.0\"><title>App</title><link href=\"https://fonts.googleapis.com/css?family=Noto+Sans+SC:100,400,900&display=swap&subset=chinese-simplified\"rel=\"stylesheet\"><link href=\"https://fonts.googleapis.com/css?family=Noto+Serif+SC:100,400,900&display=swap&subset=chinese-simplified\"rel=\"stylesheet\"><link href=\"/style.css\" rel=\"stylesheet\"><script src=\"/elm.js\"></script></head><body><script>var app=Elm.Main.init({flags:";

pub const PAGE_TAIL: &'static str = "});</script></body></html>";

/// The bootstrap page around the given JSON flags.
pub open spec fn page_of(flags: Seq<char>) -> Seq<char> {
    PAGE_HEAD@ + flags + PAGE_TAIL@
}

/// The bootstrap page for flags already serialised; flags that could not be
/// serialised are handed over as `null`.
pub fn page_with_flags(flags_json: Option<String>) -> (r: String)
    ensures
        r@ == page_of(
            match flags_json {
                Some(f) => f@,
                None => NULL_FLAGS@,
            },
        ),
{
    let mut page = String::from_str(PAGE_HEAD);
    match flags_json {
        Some(f) => page.append(f.as_str()),
        None => page.append(NULL_FLAGS),
    }
    page.append(PAGE_TAIL);
    page
}

/// The bootstrap page for a caller with the given session payload, if any.
pub fn elm_page(identity: &Option<String>) -> (r: String)
    ensures
        r@ == page_of(flags_json_of(*identity)) || r@ == page_of(NULL_FLAGS@),
{
    page_with_flags(serialize_identity(identity))
}

} // verus!
