use vstd::prelude::*;
use crate::error::ResolveError;

verus! {

/// The name/value pairs that `application/x-www-form-urlencoded` parsing makes
/// of a query string, in order, percent-decoded.
pub uninterp spec fn query_pairs_of(q: Seq<char>) -> Seq<(Seq<char>, Seq<char>)>;

/// Relies on `form_urlencoded::parse(..).into_owned()`: the pairs, in the order
/// in which they appear, are a function of the query text alone.
#[verifier::external_body]
fn parse_query(query: &str) -> (r: Vec<(String, String)>)
    ensures
        r@.len() == query_pairs_of(query@).len(),
        forall|i: int|
            0 <= i < r@.len() ==> (#[trigger] r@[i]).0@ == query_pairs_of(query@)[i].0
                && r@[i].1@ == query_pairs_of(query@)[i].1,
{
    form_urlencoded::parse(query.as_bytes()).into_owned().collect()
}

/// The value of the last pair named `name` among `pairs`, if any.
///
/// When a name repeats, the last occurrence wins, as when the pairs are
/// collected into a map one after the other.
pub open spec fn last_value(pairs: Seq<(Seq<char>, Seq<char>)>, name: Seq<char>) -> Option<
    Seq<char>,
>
    decreases pairs.len(),
{
    if pairs.len() == 0 {
        None
    } else if pairs.last().0 == name {
        Some(pairs.last().1)
    } else {
        last_value(pairs.drop_last(), name)
    }
}

/// The views of a list of owned name/value pairs.
pub open spec fn pairs_view(pairs: Seq<(String, String)>) -> Seq<(Seq<char>, Seq<char>)> {
    pairs.map_values(|p: (String, String)| (p.0@, p.1@))
}

/// The value of the parameter `name` among already parsed pairs: that of its
/// last occurrence, or `None` where it does not occur.
pub fn find_param(pairs: &Vec<(String, String)>, name: &str) -> (r: Option<String>)
    ensures
        match r {
            Some(v) => last_value(pairs_view(pairs@), name@) == Some(v@),
            None => last_value(pairs_view(pairs@), name@) is None,
        },
{
    let ghost ps = pairs_view(pairs@);
    let wanted: String = name.to_owned();
    let mut i: usize = pairs.len();
    assert(ps.subrange(0, i as int) =~= ps);
    while i > 0
        invariant
            i <= pairs.len(),
            ps == pairs_view(pairs@),
            ps.len() == pairs@.len(),
            wanted@ == name@,
            last_value(ps, name@) == last_value(ps.subrange(0, i as int), name@),
        decreases i,
    {
        i = i - 1;
        let (k, v) = &pairs[i];
        let ghost pre = ps.subrange(0, i as int + 1);
        assert(pre.drop_last() =~= ps.subrange(0, i as int));
        assert(ps[i as int] == (k@, v@));
        assert(pre.last() == (k@, v@));
        if *k == wanted {
            return Some(v.clone());
        }
    }
    assert(ps.subrange(0, 0) =~= Seq::<(Seq<char>, Seq<char>)>::empty());
    None
}

/// The cache key that a request carries: the value of its `image` parameter.
///
/// A missing or empty value is a validation error, decided before any cache,
/// fetch or transform work.
pub fn cache_key(image: Option<String>) -> (r: Result<String, ResolveError>)
    ensures
        match image {
            Some(k) => if k@.len() > 0 {
                r is Ok && r->Ok_0@ == k@
            } else {
                r == Err::<String, ResolveError>(ResolveError::Validation)
            },
            None => r == Err::<String, ResolveError>(ResolveError::Validation),
        },
{
    match image {
        Some(k) => {
            if !k.as_str().is_empty() {
                Ok(k)
            } else {
                Err(ResolveError::Validation)
            }
        },
        None => Err(ResolveError::Validation),
    }
}

/// The cache key of a raw query string (`image=<percent-encoded url>`).
pub fn key_from_query(query: &str) -> (r: Result<String, ResolveError>)
    ensures
        match last_value(query_pairs_of(query@), "image"@) {
            Some(k) => if k.len() > 0 {
                r is Ok && r->Ok_0@ == k
            } else {
                r == Err::<String, ResolveError>(ResolveError::Validation)
            },
            None => r == Err::<String, ResolveError>(ResolveError::Validation),
        },
{
    let pairs = parse_query(query);
    assert(pairs_view(pairs@) =~= query_pairs_of(query@));
    let image = find_param(&pairs, "image");
    cache_key(image)
}

} // verus!
