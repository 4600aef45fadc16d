//! Records of the rule store, and the checks on a submitted rule.
use vstd::prelude::*;
use crate::cleaner::{copy_strings, views};
use crate::text::str_eq;
use crate::validation::{is_domain, is_valid_domain};

verus! {

/// A stored rule: the parameters it removes for a domain, who contributed
/// it, and whether it is pending, approved or rejected.
pub struct DomainRule {
    pub id: Option<i32>,
    pub domain: String,
    pub keys: Vec<String>,
    pub starts_with: Vec<String>,
    pub contributors: Vec<String>,
    pub status: String,
}

/// A rule as a contributor submits it.
pub struct SubmissionRequest {
    pub domain: String,
    pub keys: Vec<String>,
    pub starts_with: Option<Vec<String>>,
    pub contributor: String,
}

/// The envelope of every answer of the rule store's HTTP surface.
pub struct ApiResponse<T> {
    pub success: bool,
    pub data: Option<T>,
    pub message: Option<String>,
    pub error: Option<String>,
}

/// The lower-case form of `s`.
pub uninterp spec fn lower_of(s: Seq<char>) -> Seq<char>;

/// Relies on str::to_lowercase: the result depends on the characters alone.
#[verifier::external_body]
fn lowercase(s: &str) -> (r: String)
    ensures
        r@ == lower_of(s@),
{
    s.to_lowercase()
}

/// Characters with the Unicode White_Space property.
pub open spec fn is_white_space(c: char) -> bool {
    ('\u{9}' <= c && c <= '\u{d}') || c == ' ' || c == '\u{85}' || c == '\u{a0}' || c == '\u{1680}'
        || ('\u{2000}' <= c && c <= '\u{200a}') || c == '\u{2028}' || c == '\u{2029}' || c == '\u{202f}'
        || c == '\u{205f}' || c == '\u{3000}'
}

/// `s` is empty once trimmed: it holds white space only.
pub open spec fn is_blank(s: Seq<char>) -> bool {
    forall|i: int| 0 <= i < s.len() ==> is_white_space(#[trigger] s[i])
}

/// Whether `s` holds white space only.
pub fn blank(s: &str) -> (r: bool)
    ensures
        r == is_blank(s@),
{
    let n = s.unicode_len();
    let mut i: usize = 0;
    while i < n
        invariant
            n == s@.len(),
            i <= n,
            forall|j: int| 0 <= j < i ==> is_white_space(#[trigger] s@[j]),
        decreases n - i,
    {
        let c = s.get_char(i);
        let w = ('\u{9}' <= c && c <= '\u{d}') || c == ' ' || c == '\u{85}' || c == '\u{a0}' || c == '\u{1680}'
            || ('\u{2000}' <= c && c <= '\u{200a}') || c == '\u{2028}' || c == '\u{2029}' || c
            == '\u{202f}' || c == '\u{205f}' || c == '\u{3000}';
        if !w {
            return false;
        }
        i = i + 1;
    }
    true
}

/// The prefixes a submission adds to `utm_`, which every submitted rule has.
pub open spec fn extra_prefixes(starts_with: Option<Vec<String>>) -> Seq<Seq<char>> {
    match starts_with {
        Some(v) => views(v@).filter(|p: Seq<char>| p != "utm_"@),
        None => Seq::empty(),
    }
}

proof fn lemma_filter_push(s: Seq<Seq<char>>, x: Seq<char>)
    ensures
        s.push(x).filter(|p: Seq<char>| p != "utm_"@) == (if x != "utm_"@ {
            s.filter(|p: Seq<char>| p != "utm_"@).push(x)
        } else {
            s.filter(|p: Seq<char>| p != "utm_"@)
        }),
{
    assert(s.push(x).drop_last() =~= s);
    reveal_with_fuel(Seq::filter, 1);
}

/// `utm_` followed by the extra prefixes of `additional`, in order.
fn submitted_prefixes(additional: &Option<Vec<String>>) -> (r: Vec<String>)
    ensures
        views(r@) == seq!["utm_"@] + extra_prefixes(*additional),
{
    let mut r: Vec<String> = Vec::new();
    r.push(String::from_str("utm_"));
    assert(views(r@) =~= seq!["utm_"@]);
    match additional {
        Some(v) => {
            let ghost pv = views(v@);
            let mut i: usize = 0;
            while i < v.len()
                invariant
                    i <= v@.len(),
                    pv == views(v@),
                    views(r@) == seq!["utm_"@] + pv.subrange(0, i as int).filter(|p: Seq<char>| p != "utm_"@),
                decreases v.len() - i,
            {
                let ghost before = views(r@);
                proof {
                    assert(pv.subrange(0, i + 1) =~= pv.subrange(0, i as int).push(pv[i as int]));
                    lemma_filter_push(pv.subrange(0, i as int), pv[i as int]);
                }
                if !str_eq(v[i].as_str(), "utm_") {
                    r.push(v[i].clone());
                    assert(views(r@) =~= before.push(pv[i as int]));
                }
                i = i + 1;
            }
            assert(pv.subrange(0, v@.len() as int) =~= pv);
        },
        None => {
            assert(seq!["utm_"@] + Seq::<Seq<char>>::empty() =~= seq!["utm_"@]);
        },
    }
    r
}

impl SubmissionRequest {
    /// The pending rule that this submission yields, given whether its domain
    /// has the shape of a domain name: an error for a malformed domain or a
    /// blank contributor.
    pub fn into_rule(self, domain_valid: bool) -> (r: Result<DomainRule, String>)
        ensures
            !domain_valid ==> (r matches Err(m) && m@ == "Invalid domain format"@),
            domain_valid && is_blank(self.contributor@) ==> (r matches Err(m) && m@
                == "Contributor is required"@),
            domain_valid && !is_blank(self.contributor@) ==> (r matches Ok(rule) && {
                &&& rule.id is None
                &&& rule.domain@ == lower_of(self.domain@)
                &&& views(rule.keys@) == views(self.keys@)
                &&& views(rule.starts_with@) == seq!["utm_"@] + extra_prefixes(self.starts_with)
                &&& views(rule.contributors@) == seq![self.contributor@]
                &&& rule.status@ == "pending"@
            }),
    {
        if !domain_valid {
            return Err(String::from_str("Invalid domain format"));
        }
        if blank(self.contributor.as_str()) {
            return Err(String::from_str("Contributor is required"));
        }
        let starts_with = submitted_prefixes(&self.starts_with);
        let domain = lowercase(self.domain.as_str());
        let keys = copy_strings(&self.keys);
        let mut contributors: Vec<String> = Vec::new();
        contributors.push(self.contributor);
        assert(views(contributors@) =~= seq![self.contributor@]);
        Ok(DomainRule { id: None, domain, keys, starts_with, contributors, status: String::from_str("pending") })
    }

    /// Checks this submission and turns it into a pending rule.
    pub fn validate(self) -> (r: Result<DomainRule, String>)
        ensures
            !is_domain(self.domain@) ==> (r matches Err(m) && m@ == "Invalid domain format"@),
            is_domain(self.domain@) && is_blank(self.contributor@) ==> (r matches Err(m) && m@
                == "Contributor is required"@),
            is_domain(self.domain@) && !is_blank(self.contributor@) ==> (r matches Ok(rule) && {
                &&& rule.id is None
                &&& rule.domain@ == lower_of(self.domain@)
                &&& views(rule.keys@) == views(self.keys@)
                &&& views(rule.starts_with@) == seq!["utm_"@] + extra_prefixes(self.starts_with)
                &&& views(rule.contributors@) == seq![self.contributor@]
                &&& rule.status@ == "pending"@
            }),
    {
        let valid = is_valid_domain(self.domain.as_str());
        self.into_rule(valid)
    }
}

} // verus!
