use vstd::prelude::*;

use crate::error::ClientError;
use crate::json::{
    json_array_text, json_bool, json_bool_text, json_plain, json_string_array, json_string_text,
    quoted,
};
use crate::text::{joined, texts};

verus! {

/// The value of one query filter.
#[derive(Debug, Clone)]
pub enum FilterValue {
    /// Sent as it is.
    Text(String),
    /// Sent as a compact JSON array of strings.
    List(Vec<String>),
    /// Sent as a JSON boolean.
    Flag(bool),
}

/// A named filter; `None` means that the filter is not applied.
#[derive(Debug, Clone)]
pub struct Filter {
    pub name: String,
    pub value: Option<FilterValue>,
}

/// The text that a filter value is sent as.
pub open spec fn value_text(v: FilterValue) -> Seq<char> {
    match v {
        FilterValue::Text(s) => s@,
        FilterValue::List(l) => json_array_text(texts(l@)),
        FilterValue::Flag(b) => json_bool_text(b),
    }
}

/// The query parameter that one filter contributes, if any.
pub open spec fn filter_pair(f: Filter) -> Option<(Seq<char>, Seq<char>)> {
    match f.value {
        Some(v) => Some((f.name@, value_text(v))),
        None => None,
    }
}

/// The query parameters for `filters`: one per present filter, in order.
pub open spec fn present_pairs(filters: Seq<Filter>) -> Seq<(Seq<char>, Seq<char>)> {
    filters.filter_map(|f: Filter| filter_pair(f))
}

/// The character sequences held by a vector of string pairs.
pub open spec fn pair_texts(p: Seq<(String, String)>) -> Seq<(Seq<char>, Seq<char>)> {
    p.map_values(|q: (String, String)| (q.0@, q.1@))
}

/// The query for a list of filters holds exactly the present filters, in
/// their order, each with its value rendered as `value_text` says; absent
/// filters leave no trace.
pub proof fn lemma_present_filters_only(filters: Seq<Filter>)
    ensures
        present_pairs(filters) == filters.filter(|f: Filter| f.value is Some).map_values(
            |f: Filter| (f.name@, value_text(f.value->Some_0)),
        ),
    decreases filters.len(),
{
    reveal(Seq::filter);
    if filters.len() > 0 {
        lemma_present_filters_only(filters.drop_last());
        let rest = filters.drop_last().filter(|f: Filter| f.value is Some);
        assert(filters.filter(|f: Filter| f.value is Some) == (if filters.last().value is Some {
            rest.push(filters.last())
        } else {
            rest
        }));
        let m = |f: Filter| (f.name@, value_text(f.value->Some_0));
        if filters.last().value is Some {
            assert(rest.push(filters.last()).map_values(m) =~= rest.map_values(m).push(
                m(filters.last()),
            ));
        }
    } else {
        assert(filters.filter(|f: Filter| f.value is Some) =~= Seq::<Filter>::empty());
    }
}

/// Encoding the same filters twice gives the same query.
pub proof fn lemma_encoding_deterministic(
    filters: Seq<Filter>,
    first: Seq<(String, String)>,
    second: Seq<(String, String)>,
)
    requires
        pair_texts(first) == present_pairs(filters),
        pair_texts(second) == present_pairs(filters),
    ensures
        pair_texts(first) == pair_texts(second),
{
}

/// A list of strings none of which needs a JSON escape is sent as the quoted
/// strings between brackets, separated by commas; a boolean as `true` or
/// `false`.
pub proof fn lemma_compact_json(items: Seq<Seq<char>>, b: bool)
    requires
        forall|i: int| 0 <= i < items.len() ==> json_plain(#[trigger] items[i]),
    ensures
        json_array_text(items) == seq!['['] + joined(
            items.map_values(|s: Seq<char>| quoted(s)),
            seq![','],
        ) + seq![']'],
        value_text(FilterValue::Flag(b)) == (if b {
            seq!['t', 'r', 'u', 'e']
        } else {
            seq!['f', 'a', 'l', 's', 'e']
        }),
{
    assert(items.map_values(|s: Seq<char>| json_string_text(s)) =~= items.map_values(
        |s: Seq<char>| quoted(s),
    ));
}

/// Serialises one filter value.
pub fn encode_value(v: &FilterValue) -> (r: Result<String, ClientError>)
    ensures
        r is Ok && r->Ok_0@ == value_text(*v),
{
    match v {
        FilterValue::Text(s) => Ok(s.clone()),
        FilterValue::List(l) => match json_string_array(l) {
            Ok(t) => Ok(t),
            Err(_) => Err(ClientError::SerializationError),
        },
        FilterValue::Flag(b) => match json_bool(*b) {
            Ok(t) => Ok(t),
            Err(_) => Err(ClientError::SerializationError),
        },
    }
}

/// Turns a list of optional filters into query parameters: absent filters are
/// left out, strings pass through, lists and booleans become compact JSON.
pub fn encode_query(filters: &Vec<Filter>) -> (r: Result<Vec<(String, String)>, ClientError>)
    ensures
        r is Ok && pair_texts(r->Ok_0@) == present_pairs(filters@),
{
    let mut out: Vec<(String, String)> = Vec::new();
    let mut i: usize = 0;
    while i < filters.len()
        invariant
            0 <= i <= filters@.len(),
            pair_texts(out@) == present_pairs(filters@.subrange(0, i as int)),
        decreases filters@.len() - i,
    {
        let ghost prefix = filters@.subrange(0, i as int);
        let ghost next = filters@.subrange(0, i + 1);
        assert(next.drop_last() == prefix);
        assert(next.last() == filters@[i as int]);
        let f = &filters[i];
        match &f.value {
            Some(v) => {
                let t = encode_value(v)?;
                let ghost before = out@;
                out.push((f.name.clone(), t));
                assert(pair_texts(out@) == pair_texts(before) + seq![(f.name@, value_text(*v))]);
            },
            None => {},
        }
        i = i + 1;
    }
    assert(filters@.subrange(0, filters@.len() as int) == filters@);
    Ok(out)
}

} // verus!
