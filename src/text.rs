use vstd::prelude::*;

verus! {

/// `parts` joined with `sep` between each two neighbours.
pub open spec fn joined(parts: Seq<Seq<char>>, sep: Seq<char>) -> Seq<char>
    decreases parts.len(),
{
    if parts.len() == 0 {
        Seq::empty()
    } else if parts.len() == 1 {
        parts[0]
    } else {
        joined(parts.drop_last(), sep) + sep + parts.last()
    }
}

/// The character sequences held by a vector of strings.
pub open spec fn texts(v: Seq<String>) -> Seq<Seq<char>> {
    v.map_values(|s: String| s@)
}

/// The character sequence held by an optional string.
pub open spec fn opt_text(o: Option<String>) -> Option<Seq<char>> {
    match o {
        Some(s) => Some(s@),
        None => None,
    }
}

/// Appends `part` to `acc`, which so far holds `parts` joined with `sep`.
pub(crate) fn push_joined(
    acc: &mut String,
    part: &str,
    sep: &str,
    first: bool,
    Ghost(parts): Ghost<Seq<Seq<char>>>,
)
    requires
        first == (parts.len() == 0),
        old(acc)@ == joined(parts, sep@),
    ensures
        final(acc)@ == joined(parts.push(part@), sep@),
{
    if !first {
        acc.append(sep);
    }
    acc.append(part);
    assert(parts.push(part@).drop_last() == parts);
    assert(parts.len() == 0 ==> acc@ == part@);
}

} // verus!
