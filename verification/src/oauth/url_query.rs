//! The `url` crate's reading of a URL's query.
use vstd::prelude::*;

verus! {

/// Whether `url::Url::parse` accepts `input`.
pub uninterp spec fn url_parses(input: Seq<char>) -> bool;

/// The query pairs, decoded, of the URL that `url::Url::parse` makes of
/// `input` (`url::Url::query_pairs`), in order.
pub uninterp spec fn url_query_pairs(input: Seq<char>) -> Seq<(Seq<char>, Seq<char>)>;

/// The views of a list of string pairs.
pub open spec fn pair_views(v: Seq<(String, String)>) -> Seq<(Seq<char>, Seq<char>)> {
    v.map_values(|p: (String, String)| (p.0@, p.1@))
}

/// The views of a list of string pairs keep its length and order.
pub proof fn law_pair_views_in_order(v: Seq<(String, String)>)
    ensures
        pair_views(v).len() == v.len(),
        forall|i: int| 0 <= i < v.len() ==> #[trigger] pair_views(v)[i] == (v[i].0@, v[i].1@),
{
}

/// Parses `input` with `url::Url::parse` and, where that succeeds, takes
/// the URL's decoded query pairs with `url::Url::query_pairs`, in order.
#[verifier::external_body]
pub(crate) fn parse_url_query_pairs(input: &str) -> (r: Option<Vec<(String, String)>>)
    ensures
        r is Some <==> url_parses(input@),
        r matches Some(v) ==> pair_views(v@) == url_query_pairs(input@),
{
    match url::Url::parse(input) {
        Ok(u) => Some(u.query_pairs().map(|(k, v)| (k.into_owned(), v.into_owned())).collect()),
        Err(_) => None,
    }
}

} // verus!
