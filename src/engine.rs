//! Removal of tracking parameters from a URL. Parsing and serialising the
//! URL is the url crate's; which parameters stay is decided here.
use vstd::prelude::*;
use crate::cleaner::{get_cleaner_for_host_string, pick, removes_key, DomainCleaner, Registry, UrlCleaner};

verus! {

#[verifier::external_type_specification]
#[verifier::external_body]
pub struct ExParseError(url::ParseError);

/// Whether the url crate parses `s` as an absolute URL.
pub uninterp spec fn url_parses(s: Seq<char>) -> bool;

/// The host of the URL `s` as the url crate reads it, empty where it has none.
pub uninterp spec fn url_host_of(s: Seq<char>) -> Seq<char>;

/// The decoded key/value pairs of the query of the URL `s`, in order.
pub uninterp spec fn url_pairs_of(s: Seq<char>) -> Seq<(Seq<char>, Seq<char>)>;

/// The URL `s` serialised without its query.
pub uninterp spec fn url_stripped(s: Seq<char>) -> Seq<char>;

/// The URL `s` serialised with its query replaced by the form-encoded `pairs`.
pub uninterp spec fn url_with_pairs(s: Seq<char>, pairs: Seq<(Seq<char>, Seq<char>)>) -> Seq<char>;

/// Relies on url::Url::parse: its outcome depends on the text alone.
#[verifier::external_body]
fn parse_url(input: &str) -> (r: Result<(), url::ParseError>)
    ensures
        r is Ok <==> url_parses(input@),
{
    match url::Url::parse(input) {
        Ok(_) => Ok(()),
        Err(e) => Err(e),
    }
}

/// Relies on url::Url::parse and Url::host_str.
#[verifier::external_body]
fn url_host(input: &str) -> (r: String)
    ensures
        r@ == url_host_of(input@),
{
    match url::Url::parse(input) {
        Ok(u) => u.host_str().unwrap_or("").to_string(),
        Err(_) => String::new(),
    }
}

/// Relies on url::Url::parse and Url::query_pairs.
#[verifier::external_body]
fn url_query_pairs(input: &str) -> (r: Vec<(String, String)>)
    ensures
        pair_views(r@) == url_pairs_of(input@),
{
    match url::Url::parse(input) {
        Ok(u) => u.query_pairs().map(|(k, v)| (k.into_owned(), v.into_owned())).collect(),
        Err(_) => Vec::new(),
    }
}

/// Relies on url::Url::parse, Url::set_query with no query, and Url::as_str.
#[verifier::external_body]
fn url_without_query(input: &str) -> (r: String)
    ensures
        r@ == url_stripped(input@),
{
    match url::Url::parse(input) {
        Ok(mut u) => {
            u.set_query(None);
            u.as_str().to_string()
        },
        Err(_) => String::new(),
    }
}

/// Relies on url::Url::parse, Url::set_query with no query,
/// Url::query_pairs_mut with extend_pairs, and Url::as_str.
#[verifier::external_body]
fn url_with_query(input: &str, pairs: &Vec<(String, String)>) -> (r: String)
    ensures
        r@ == url_with_pairs(input@, pair_views(pairs@)),
{
    match url::Url::parse(input) {
        Ok(mut u) => {
            u.set_query(None);
            u.query_pairs_mut().extend_pairs(pairs.iter());
            u.as_str().to_string()
        },
        Err(_) => String::new(),
    }
}

/// Relies on url::ParseError's Display: a description of the error.
#[verifier::external_body]
pub(crate) fn parse_error_text(e: &url::ParseError) -> String {
    e.to_string()
}

/// The character sequences of a list of key/value pairs.
pub open spec fn pair_views(s: Seq<(String, String)>) -> Seq<(Seq<char>, Seq<char>)> {
    s.map_values(|p: (String, String)| (p.0@, p.1@))
}

/// The pairs that a cleaner with view `c` keeps, in their order.
pub open spec fn kept(s: Seq<(Seq<char>, Seq<char>)>, c: (Seq<Seq<char>>, Seq<Seq<char>>)) -> Seq<(Seq<char>, Seq<char>)> {
    s.filter(|p: (Seq<char>, Seq<char>)| !removes_key(c, p.0))
}

proof fn lemma_kept_push(s: Seq<(Seq<char>, Seq<char>)>, x: (Seq<char>, Seq<char>), c: (Seq<Seq<char>>, Seq<Seq<char>>))
    ensures
        kept(s.push(x), c) == (if removes_key(c, x.0) { kept(s, c) } else { kept(s, c).push(x) }),
{
    assert(s.push(x).drop_last() =~= s);
    reveal_with_fuel(Seq::filter, 1);
}

/// The pairs whose key `cleaner` does not remove, in their order.
pub fn retain_pairs(pairs: &Vec<(String, String)>, cleaner: &DomainCleaner) -> (r: Vec<(String, String)>)
    ensures
        pair_views(r@) == kept(pair_views(pairs@), cleaner@),
{
    let ghost pv = pair_views(pairs@);
    let mut r: Vec<(String, String)> = Vec::new();
    let mut i: usize = 0;
    while i < pairs.len()
        invariant
            i <= pairs@.len(),
            pv == pair_views(pairs@),
            pair_views(r@) == kept(pv.subrange(0, i as int), cleaner@),
        decreases pairs.len() - i,
    {
        let ghost before = r@;
        proof {
            assert(pv.subrange(0, i + 1) =~= pv.subrange(0, i as int).push(pv[i as int]));
            lemma_kept_push(pv.subrange(0, i as int), pv[i as int], cleaner@);
        }
        if !cleaner.should_remove(pairs[i].0.as_str()) {
            r.push((pairs[i].0.clone(), pairs[i].1.clone()));
            assert(pair_views(r@) =~= pair_views(before).push(pv[i as int]));
        } else {
            assert(r@ == before);
        }
        i = i + 1;
    }
    assert(pv.subrange(0, pairs@.len() as int) =~= pv);
    r
}

/// The pairs of a URL on `host` that the registry's rules for that host keep.
pub fn clean_query_pairs(host: &str, pairs: &Vec<(String, String)>, registry: &Registry) -> (r: Vec<(String, String)>)
    requires
        registry.wf(),
        registry.serves(host@),
    ensures
        pair_views(r@) == kept(pair_views(pairs@), registry@[pick(registry@, host@)].1),
{
    let cleaner = get_cleaner_for_host_string(host, registry);
    retain_pairs(pairs, cleaner)
}

/// The URL `input` once the rules of `reg` for its host have removed its
/// tracking parameters: without a query where none is left.
pub open spec fn cleaned_url_of(input: Seq<char>, reg: Seq<(Seq<char>, (Seq<Seq<char>>, Seq<Seq<char>>))>) -> Seq<char> {
    let k = kept(url_pairs_of(input), reg[pick(reg, url_host_of(input))].1);
    if k.len() == 0 {
        url_stripped(input)
    } else {
        url_with_pairs(input, k)
    }
}

/// Removes from `input` the query parameters that the registry's rules for
/// its host name as tracking parameters. Fails where `input` is no URL.
pub fn clean_url(input: &str, registry: &Registry) -> (r: Result<String, url::ParseError>)
    requires
        registry.wf(),
        registry.serves(url_host_of(input@)),
    ensures
        r is Ok <==> url_parses(input@),
        r matches Ok(out) ==> out@ == cleaned_url_of(input@, registry@),
{
    match parse_url(input) {
        Ok(()) => {},
        Err(e) => return Err(e),
    }
    let host = url_host(input);
    let pairs = url_query_pairs(input);
    let cleaned = clean_query_pairs(host.as_str(), &pairs, registry);
    if cleaned.len() == 0 {
        Ok(url_without_query(input))
    } else {
        Ok(url_with_query(input, &cleaned))
    }
}

} // verus!
