//! Rules that say which query parameters of a URL are tracking parameters,
//! and the registry that picks the rules for a host.
use vstd::prelude::*;
use crate::text::{contains, is_prefix, starts_with, str_contains, str_eq};

verus! {

/// Decides which query parameters are to be removed.
pub trait UrlCleaner {
    spec fn removes(&self, key: Seq<char>) -> bool;

    fn should_remove(&self, key: &str) -> (r: bool)
        ensures
            r == self.removes(key@),
    ;
}

/// The character sequences of a list of strings.
pub open spec fn views(v: Seq<String>) -> Seq<Seq<char>> {
    v.map_values(|s: String| s@)
}

/// Removes a parameter whose key is one of `keys`, or starts with one of
/// `starts_with`.
pub struct DomainCleaner {
    pub keys: Vec<String>,
    pub starts_with: Vec<String>,
}

impl View for DomainCleaner {
    type V = (Seq<Seq<char>>, Seq<Seq<char>>);

    open spec fn view(&self) -> (Seq<Seq<char>>, Seq<Seq<char>>) {
        (views(self.keys@), views(self.starts_with@))
    }
}

/// A cleaner with exact keys `c.0` and prefixes `c.1` removes `key`.
pub open spec fn removes_key(c: (Seq<Seq<char>>, Seq<Seq<char>>), key: Seq<char>) -> bool {
    c.0.contains(key) || exists|i: int| 0 <= i < c.1.len() && is_prefix(#[trigger] c.1[i], key)
}

/// Copies a list of strings.
pub fn to_strings(items: &[&str]) -> (r: Vec<String>)
    ensures
        views(r@) == items@.map_values(|s: &str| s@),
{
    let mut r: Vec<String> = Vec::new();
    let mut i: usize = 0;
    while i < items.len()
        invariant
            i <= items@.len(),
            r@.len() == i,
            forall|j: int| 0 <= j < i ==> r@[j]@ == items@[j]@,
        decreases items.len() - i,
    {
        r.push(items[i].to_owned());
        i = i + 1;
    }
    assert(views(r@) =~= items@.map_values(|s: &str| s@));
    r
}

/// Copies a list of strings.
pub fn copy_strings(v: &Vec<String>) -> (r: Vec<String>)
    ensures
        views(r@) == views(v@),
{
    let mut r: Vec<String> = Vec::new();
    let mut i: usize = 0;
    while i < v.len()
        invariant
            i <= v@.len(),
            r@.len() == i,
            forall|j: int| 0 <= j < i ==> r@[j]@ == v@[j]@,
        decreases v.len() - i,
    {
        r.push(v[i].clone());
        i = i + 1;
    }
    assert(views(r@) =~= views(v@));
    r
}

impl DomainCleaner {
    /// A cleaner with the given exact keys and prefixes.
    pub fn new(keys: &[&str], starts_with: &[&str]) -> (r: DomainCleaner)
        ensures
            r@.0 == keys@.map_values(|s: &str| s@),
            r@.1 == starts_with@.map_values(|s: &str| s@),
    {
        DomainCleaner { keys: to_strings(keys), starts_with: to_strings(starts_with) }
    }

    /// A cleaner that holds the given lists.
    pub fn from_lists(keys: Vec<String>, starts_with: Vec<String>) -> (r: DomainCleaner)
        ensures
            r@ == (views(keys@), views(starts_with@)),
    {
        DomainCleaner { keys, starts_with }
    }
}

impl UrlCleaner for DomainCleaner {
    open spec fn removes(&self, key: Seq<char>) -> bool {
        removes_key(self@, key)
    }

    fn should_remove(&self, key: &str) -> (r: bool) {
        let mut i: usize = 0;
        while i < self.keys.len()
            invariant
                i <= self.keys@.len(),
                forall|j: int| 0 <= j < i ==> self.keys@[j]@ != key@,
            decreases self.keys.len() - i,
        {
            if str_eq(self.keys[i].as_str(), key) {
                assert(self@.0[i as int] == key@);
                return true;
            }
            i = i + 1;
        }
        let mut j: usize = 0;
        while j < self.starts_with.len()
            invariant
                j <= self.starts_with@.len(),
                forall|m: int| 0 <= m < j ==> !is_prefix(self.starts_with@[m]@, key@),
            decreases self.starts_with.len() - j,
        {
            if starts_with(key, self.starts_with[j].as_str()) {
                assert(is_prefix(self@.1[j as int], key@));
                return true;
            }
            j = j + 1;
        }
        assert(!self@.0.contains(key@));
        false
    }
}

/// The domain of each entry, and its cleaner's view.
pub open spec fn entry_views(s: Seq<(String, DomainCleaner)>) -> Seq<(Seq<char>, (Seq<Seq<char>>, Seq<Seq<char>>))> {
    s.map_values(|e: (String, DomainCleaner)| (e.0@, e.1@))
}

/// No domain occurs twice.
pub open spec fn distinct_domains<C>(s: Seq<(Seq<char>, C)>) -> bool {
    forall|i: int, j: int| 0 <= i < s.len() && 0 <= j < s.len() && i != j ==> s[i].0 != s[j].0
}

/// `s` with the entry for `d` replaced by `(d, c)`, or with `(d, c)` added last.
pub open spec fn inserted<C>(s: Seq<(Seq<char>, C)>, d: Seq<char>, c: C) -> Seq<(Seq<char>, C)> {
    if exists|k: int| 0 <= k < s.len() && s[k].0 == d {
        let k = choose|k: int| 0 <= k < s.len() && s[k].0 == d;
        s.update(k, (d, c))
    } else {
        s.push((d, c))
    }
}

/// Cleaners by domain, in the order in which the domains were first inserted.
pub struct Registry {
    pub entries: Vec<(String, DomainCleaner)>,
}

impl View for Registry {
    type V = Seq<(Seq<char>, (Seq<Seq<char>>, Seq<Seq<char>>))>;

    open spec fn view(&self) -> Self::V {
        entry_views(self.entries@)
    }
}

/// Entry `i` is the first whose domain occurs in `host`.
pub open spec fn is_first_match<C>(s: Seq<(Seq<char>, C)>, host: Seq<char>, i: int) -> bool {
    &&& 0 <= i < s.len()
    &&& contains(host, s[i].0)
    &&& forall|j: int| 0 <= j < i ==> !contains(host, #[trigger] s[j].0)
}

/// The entry that serves `host`: the first whose domain occurs in it, or else "default".
pub open spec fn pick<C>(s: Seq<(Seq<char>, C)>, host: Seq<char>) -> int {
    if exists|i: int| is_first_match(s, host, i) {
        choose|i: int| is_first_match(s, host, i)
    } else {
        choose|i: int| 0 <= i < s.len() && s[i].0 == "default"@
    }
}

impl Registry {
    pub open spec fn wf(&self) -> bool {
        distinct_domains(self@)
    }

    pub open spec fn has_default(&self) -> bool {
        exists|i: int| 0 <= i < self@.len() && self@[i].0 == "default"@
    }

    /// The registry has rules for `host`: a domain that occurs in it, or a
    /// "default" entry.
    pub open spec fn serves(&self, host: Seq<char>) -> bool {
        self.has_default() || exists|i: int| 0 <= i < self@.len() && contains(host, #[trigger] self@[i].0)
    }

    /// An empty registry.
    pub fn new() -> (r: Registry)
        ensures
            r@ == Seq::<(Seq<char>, (Seq<Seq<char>>, Seq<Seq<char>>))>::empty(),
            r.wf(),
    {
        Registry { entries: Vec::new() }
    }

    /// Sets the cleaner of `domain`.
    pub fn insert(&mut self, domain: String, cleaner: DomainCleaner)
        requires
            old(self).wf(),
        ensures
            final(self).wf(),
            final(self)@ == inserted(old(self)@, domain@, cleaner@),
    {
        let ghost d = domain@;
        let ghost c = cleaner@;
        let mut i: usize = 0;
        while i < self.entries.len()
            invariant
                i <= self@.len(),
                self@ == old(self)@,
                self.wf(),
                d == domain@,
                c == cleaner@,
                forall|j: int| 0 <= j < i ==> self@[j].0 != d,
            decreases self.entries.len() - i,
        {
            assert(self@[i as int].0 == self.entries@[i as int].0@);
            if str_eq(self.entries[i].0.as_str(), domain.as_str()) {
                assert(0 <= i < old(self)@.len() && old(self)@[i as int].0 == d);
                let ghost k = choose|k: int| 0 <= k < old(self)@.len() && old(self)@[k].0 == d;
                assert(k == i);
                self.entries.set(i, (domain, cleaner));
                assert(self@ =~= old(self)@.update(i as int, (d, c)));
                return;
            }
            i = i + 1;
        }
        self.entries.push((domain, cleaner));
        assert(self@ =~= old(self)@.push((d, c)));
    }
}

/// The cleaner for `host`: that of the first domain, in registry order, that
/// occurs in `host`, or else that of the "default" domain.
pub fn get_cleaner_for_host_string<'a>(host: &str, registry: &'a Registry) -> (r: &'a DomainCleaner)
    requires
        registry.wf(),
        registry.serves(host@),
    ensures
        r@ == registry@[pick(registry@, host@)].1,
{
    let mut i: usize = 0;
    while i < registry.entries.len()
        invariant
            i <= registry@.len(),
            forall|j: int| 0 <= j < i ==> !contains(host@, #[trigger] registry@[j].0),
        decreases registry.entries.len() - i,
    {
        if str_contains(host, registry.entries[i].0.as_str()) {
            assert(is_first_match(registry@, host@, i as int));
            let ghost p = pick(registry@, host@);
            assert(p == i) by {
                if p < i {
                    assert(!contains(host@, registry@[p].0));
                }
                if p > i {
                    assert(contains(host@, registry@[i as int].0));
                }
            }
            return &registry.entries[i].1;
        }
        i = i + 1;
    }
    assert(!exists|m: int| is_first_match(registry@, host@, m));
    assert(registry.has_default());
    let mut k: usize = 0;
    while k < registry.entries.len()
        invariant
            k <= registry@.len(),
            registry.has_default(),
            registry.wf(),
            !exists|m: int| is_first_match(registry@, host@, m),
            forall|j: int| 0 <= j < k ==> registry@[j].0 != "default"@,
        decreases registry.entries.len() - k,
    {
        assert(registry@[k as int].0 == registry.entries@[k as int].0@);
        if str_eq(registry.entries[k].0.as_str(), "default") {
            let ghost p = pick(registry@, host@);
            assert(p == k);
            return &registry.entries[k].1;
        }
        k = k + 1;
    }
    assert(false);
    &registry.entries[0].1
}

} // verus!
