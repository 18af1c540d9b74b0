use vstd::prelude::*;

use crate::query::pair_texts;
use crate::text::{joined, push_joined, texts};

verus! {

/// What the url crate makes of `endpoint` with `segments` appended to its
/// path, each percent-escaped; `None` when `endpoint` is not a base URL.
pub uninterp spec fn url_with_segments(endpoint: Seq<char>, segments: Seq<Seq<char>>) -> Option<
    Seq<char>,
>;

/// The form-urlencoded form of `s` when some character of it is escaped.
pub uninterp spec fn form_escaped(s: Seq<char>) -> Seq<char>;

/// A character that form-urlencoding leaves as it is.
pub open spec fn is_form_char(c: char) -> bool {
    ('a' <= c && c <= 'z') || ('A' <= c && c <= 'Z') || ('0' <= c && c <= '9') || c == '*'
        || c == '-' || c == '.' || c == '_'
}

/// No character of `s` is escaped by form-urlencoding.
pub open spec fn form_plain(s: Seq<char>) -> bool {
    forall|i: int| 0 <= i < s.len() ==> is_form_char(#[trigger] s[i])
}

/// The form-urlencoded form of `s`.
pub open spec fn form_text(s: Seq<char>) -> Seq<char> {
    if form_plain(s) {
        s
    } else {
        form_escaped(s)
    }
}

/// One query parameter as `name=value`, both form-urlencoded.
pub open spec fn pair_text(p: (Seq<char>, Seq<char>)) -> Seq<char> {
    form_text(p.0) + seq!['='] + form_text(p.1)
}

/// The query part of a URL for `pairs`: empty when there are none, else `?`
/// and the parameters separated by `&`.
pub open spec fn query_text(pairs: Seq<(Seq<char>, Seq<char>)>) -> Seq<char> {
    if pairs.len() == 0 {
        Seq::empty()
    } else {
        seq!['?'] + joined(pairs.map_values(|p: (Seq<char>, Seq<char>)| pair_text(p)), seq!['&'])
    }
}

/// Relies on url::Url::parse, Url::path_segments_mut, PathSegmentsMut::pop_if_empty
/// and PathSegmentsMut::extend: the endpoint with each segment appended to its path,
/// percent-escaped so that `/` and `%` inside a segment stay inside it.
#[verifier::external_body]
fn join_segments(endpoint: &str, segments: &Vec<String>) -> (r: Option<String>)
    ensures
        r is Some <==> url_with_segments(endpoint@, texts(segments@)) is Some,
        r is Some ==> r->Some_0@ == url_with_segments(endpoint@, texts(segments@))->Some_0,
{
    let mut url = url::Url::parse(endpoint).ok()?;
    url.path_segments_mut().ok()?.pop_if_empty().extend(segments);
    Some(url.into())
}

/// Relies on url::form_urlencoded::byte_serialize: ASCII letters, digits and
/// `*-._` are kept, every other byte is escaped.
#[verifier::external_body]
fn form_encode(s: &str) -> (r: String)
    ensures
        r@ == (if form_plain(s@) {
            s@
        } else {
            form_escaped(s@)
        }),
{
    url::form_urlencoded::byte_serialize(s.as_bytes()).collect()
}

/// The URL for `endpoint` with `segments` appended as path segments, in order.
/// `None` when `endpoint` is not a base URL.
pub fn build_path(endpoint: &str, segments: &Vec<String>) -> (r: Option<String>)
    ensures
        r is Some <==> url_with_segments(endpoint@, texts(segments@)) is Some,
        r is Some ==> r->Some_0@ == url_with_segments(endpoint@, texts(segments@))->Some_0,
{
    join_segments(endpoint, segments)
}

/// The query part of a URL for `pairs`, each name and value form-urlencoded.
pub fn render_query(pairs: &Vec<(String, String)>) -> (r: String)
    ensures
        r@ == query_text(pair_texts(pairs@)),
{
    let ghost all = pair_texts(pairs@).map_values(|p: (Seq<char>, Seq<char>)| pair_text(p));
    let mut body = String::new();
    let mut i: usize = 0;
    while i < pairs.len()
        invariant
            0 <= i <= pairs@.len(),
            all == pair_texts(pairs@).map_values(|p: (Seq<char>, Seq<char>)| pair_text(p)),
            body@ == joined(all.subrange(0, i as int), seq!['&']),
        decreases pairs@.len() - i,
    {
        let mut part = form_encode(pairs[i].0.as_str());
        part.append("=");
        let value = form_encode(pairs[i].1.as_str());
        part.append(value.as_str());
        proof {
            reveal_strlit("=");
            reveal_strlit("&");
            assert("&"@ =~= seq!['&']);
            assert("="@ =~= seq!['=']);
            assert(all.subrange(0, i + 1) == all.subrange(0, i as int).push(all[i as int]));
            assert(part@ == all[i as int]);
        }
        push_joined(&mut body, part.as_str(), "&", i == 0, Ghost(all.subrange(0, i as int)));
        i = i + 1;
    }
    assert(all.subrange(0, pairs@.len() as int) == all);
    if pairs.len() == 0 {
        return body;
    }
    let mut r = String::new();
    r.append("?");
    r.append(body.as_str());
    proof {
        reveal_strlit("?");
        assert("?"@ =~= seq!['?']);
    }
    r
}

} // verus!
