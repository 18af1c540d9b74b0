use vstd::prelude::*;

use crate::text::{joined, texts};

verus! {

/// serde_json's error type, carried through without looking inside.
#[verifier::external_type_specification]
#[verifier::external_body]
pub struct ExJsonError(serde_json::Error);

/// The JSON string literal that serde_json writes for `s` when some
/// character of it needs an escape.
pub uninterp spec fn json_escaped_string(s: Seq<char>) -> Seq<char>;

/// No character of `s` needs an escape inside a JSON string literal.
pub open spec fn json_plain(s: Seq<char>) -> bool {
    forall|i: int| 0 <= i < s.len() ==> #[trigger] s[i] != '"' && s[i] != '\\' && s[i] >= ' '
}

/// `s` between double quotes.
pub open spec fn quoted(s: Seq<char>) -> Seq<char> {
    seq!['"'] + s + seq!['"']
}

/// The compact JSON string literal for `s`.
pub open spec fn json_string_text(s: Seq<char>) -> Seq<char> {
    if json_plain(s) {
        quoted(s)
    } else {
        json_escaped_string(s)
    }
}

/// The compact JSON array of string literals for `items`.
pub open spec fn json_array_text(items: Seq<Seq<char>>) -> Seq<char> {
    seq!['['] + joined(items.map_values(|s: Seq<char>| json_string_text(s)), seq![',']) + seq![
        ']',
    ]
}

/// The compact JSON literal for a boolean.
pub open spec fn json_bool_text(b: bool) -> Seq<char> {
    if b {
        seq!['t', 'r', 'u', 'e']
    } else {
        seq!['f', 'a', 'l', 's', 'e']
    }
}

/// Relies on serde_json::to_string on a string: a quoted literal in which
/// only `"`, `\` and control characters are escaped. Writing into the
/// in-memory buffer that serde_json uses cannot fail.
#[verifier::external_body]
pub(crate) fn json_string(s: &str) -> (r: Result<String, serde_json::Error>)
    ensures
        r is Ok && r->Ok_0@ == (if json_plain(s@) {
            quoted(s@)
        } else {
            json_escaped_string(s@)
        }),
{
    serde_json::to_string(s)
}

/// Relies on serde_json::to_string on a sequence of strings: `[`, the
/// elements as string literals separated by `,`, then `]`, with no
/// whitespace. Writing into the in-memory buffer cannot fail.
#[verifier::external_body]
pub(crate) fn json_string_array(items: &Vec<String>) -> (r: Result<String, serde_json::Error>)
    ensures
        r is Ok && r->Ok_0@ == json_array_text(texts(items@)),
{
    serde_json::to_string(items)
}

/// Relies on serde_json::to_string on a boolean: `true` or `false`.
#[verifier::external_body]
pub(crate) fn json_bool(b: bool) -> (r: Result<String, serde_json::Error>)
    ensures
        r is Ok && r->Ok_0@ == json_bool_text(b),
{
    serde_json::to_string(&b)
}

} // verus!
