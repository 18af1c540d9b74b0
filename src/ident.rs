use vstd::prelude::*;

use crate::error::ClientError;
use crate::text::texts;

verus! {

broadcast use vstd::string::is_ascii_spec_bytes;

/// The longest identifier or slug that is accepted.
pub const MAX_ID_LEN: usize = 64;

/// A character that may stand in an identifier or slug.
pub open spec fn is_id_char(c: char) -> bool {
    ('a' <= c && c <= 'z') || ('A' <= c && c <= 'Z') || ('0' <= c && c <= '9') || c == '_'
        || c == '-' || c == '.'
}

/// An acceptable identifier or slug: non-empty, bounded in length, and made of
/// allowed characters only.
pub open spec fn is_valid_id(s: Seq<char>) -> bool {
    &&& 1 <= s.len() <= MAX_ID_LEN
    &&& forall|i: int| 0 <= i < s.len() ==> is_id_char(#[trigger] s[i])
}

fn is_id_byte(b: u8) -> (r: bool)
    ensures
        r == is_id_char(b as char),
{
    (97 <= b && b <= 122) || (65 <= b && b <= 90) || (48 <= b && b <= 57) || b == 95 || b == 45
        || b == 46
}

/// Checks that `id` is an acceptable identifier or slug before it is placed in
/// a request path.
pub fn check_id_slug(id: &str) -> (r: Result<(), ClientError>)
    ensures
        r is Ok <==> is_valid_id(id@),
        r is Err ==> r->Err_0.rejects_id(id@),
{
    if !id.is_ascii() {
        assert(!is_valid_id(id@)) by {
            if is_valid_id(id@) {
                assert(vstd::utf8::is_ascii_chars(id@));
            }
        }
        return Err(ClientError::InvalidIdentifier(id.to_owned()));
    }
    let bytes = id.as_bytes();
    let n = bytes.len();
    assert(bytes@ == Seq::new(id@.len(), |j: int| id@[j] as u8));
    if n == 0 || n > MAX_ID_LEN {
        return Err(ClientError::InvalidIdentifier(id.to_owned()));
    }
    let mut i: usize = 0;
    while i < n
        invariant
            n == bytes@.len() == id@.len(),
            bytes@ == Seq::new(id@.len(), |j: int| id@[j] as u8),
            vstd::utf8::is_ascii_chars(id@),
            0 <= i <= n,
            forall|j: int| 0 <= j < i ==> is_id_char(#[trigger] id@[j]),
        decreases n - i,
    {
        assert(bytes@[i as int] == id@[i as int] as u8);
        if !is_id_byte(bytes[i]) {
            assert(!is_id_char(id@[i as int])) by {
                let c = id@[i as int];
                assert('\0' <= c <= '\u{7f}');
                assert((c as u8) as char == c);
            }
            return Err(ClientError::InvalidIdentifier(id.to_owned()));
        }
        i = i + 1;
    }
    Ok(())
}

/// An identifier is refused when it is empty or when any of its characters
/// lies outside the allowed set (such as `/` or a space); one made of allowed
/// characters only, and not too long, is accepted.
pub proof fn lemma_validation_law(s: Seq<char>, i: int)
    ensures
        s.len() == 0 ==> !is_valid_id(s),
        0 <= i < s.len() && !is_id_char(s[i]) ==> !is_valid_id(s),
        1 <= s.len() <= MAX_ID_LEN && (forall|j: int| 0 <= j < s.len() ==> is_id_char(#[trigger] s[j]))
            ==> is_valid_id(s),
        !is_id_char('/') && !is_id_char(' '),
{
}

/// Every identifier of `ids` is acceptable.
pub open spec fn all_valid(ids: Seq<Seq<char>>) -> bool {
    forall|i: int| 0 <= i < ids.len() ==> is_valid_id(#[trigger] ids[i])
}

/// `k` is the position of the first unacceptable identifier of `ids`.
pub open spec fn is_first_invalid(ids: Seq<Seq<char>>, k: int) -> bool {
    &&& 0 <= k < ids.len()
    &&& !is_valid_id(ids[k])
    &&& forall|j: int| 0 <= j < k ==> is_valid_id(#[trigger] ids[j])
}

/// `r` is the outcome of checking the identifiers `ids` in order: success
/// when all are acceptable, else the error for the first one that is not.
pub open spec fn checked_all(ids: Seq<Seq<char>>, r: Result<(), ClientError>) -> bool {
    &&& r is Ok <==> all_valid(ids)
    &&& r is Err ==> exists|k: int| is_first_invalid(ids, k) && r->Err_0.rejects_id(ids[k])
}

/// Checks each identifier of `ids` in order and stops at the first that is
/// not acceptable.
pub fn check_id_slugs(ids: &Vec<String>) -> (r: Result<(), ClientError>)
    ensures
        checked_all(texts(ids@), r),
{
    let mut i: usize = 0;
    while i < ids.len()
        invariant
            0 <= i <= ids@.len(),
            forall|j: int| 0 <= j < i ==> is_valid_id(#[trigger] texts(ids@)[j]),
        decreases ids@.len() - i,
    {
        match check_id_slug(ids[i].as_str()) {
            Ok(()) => {},
            Err(e) => {
                assert(is_first_invalid(texts(ids@), i as int));
                return Err(e);
            },
        }
        i = i + 1;
    }
    Ok(())
}

} // verus!
