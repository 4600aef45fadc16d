//! Rule configuration: per-domain rules merged with the defaults into a registry.
use vstd::prelude::*;
use crate::cleaner::{copy_strings, inserted, views, DomainCleaner, Registry};
use crate::models::DomainRule;
use crate::text::str_eq;

verus! {

/// The rule of one domain as configured. Empty `keys` and absent
/// `starts_with` fall back to the defaults.
pub struct RuleConfig {
    pub keys: Vec<String>,
    pub starts_with: Option<Vec<String>>,
}

/// The defaults and the rule of each domain.
pub struct ConfigFile {
    pub defaults: RuleConfig,
    pub domains: Vec<(String, RuleConfig)>,
}

/// The cleaner that `rule` yields once merged with `defaults`: its own keys
/// unless there are none; its own prefixes, else the defaults', else `utm_`.
pub open spec fn merged(rule: RuleConfig, defaults: RuleConfig) -> (Seq<Seq<char>>, Seq<Seq<char>>) {
    (
        if rule.keys@.len() == 0 {
            views(defaults.keys@)
        } else {
            views(rule.keys@)
        },
        match rule.starts_with {
            Some(v) => views(v@),
            None => match defaults.starts_with {
                Some(v) => views(v@),
                None => seq!["utm_"@],
            },
        },
    )
}

/// The registry built from the first `n` domains, in order, a later entry
/// for a domain replacing an earlier one.
pub open spec fn config_entries(domains: Seq<(String, RuleConfig)>, defaults: RuleConfig, n: nat) -> Seq<
    (Seq<char>, (Seq<Seq<char>>, Seq<Seq<char>>)),
>
    decreases n,
{
    if n == 0 || n > domains.len() {
        Seq::empty()
    } else {
        inserted(
            config_entries(domains, defaults, (n - 1) as nat),
            domains[n - 1].0@,
            merged(domains[n - 1].1, defaults),
        )
    }
}

/// Merges `rule` with `defaults` into a cleaner.
pub fn merge_rule(rule: &RuleConfig, defaults: &RuleConfig) -> (r: DomainCleaner)
    ensures
        r@ == merged(*rule, *defaults),
{
    let keys = if rule.keys.len() == 0 {
        copy_strings(&defaults.keys)
    } else {
        copy_strings(&rule.keys)
    };
    let starts_with = match &rule.starts_with {
        Some(v) => copy_strings(v),
        None => match &defaults.starts_with {
            Some(v) => copy_strings(v),
            None => {
                let mut v: Vec<String> = Vec::new();
                v.push(String::from_str("utm_"));
                assert(views(v@) =~= seq!["utm_"@]);
                v
            },
        },
    };
    DomainCleaner::from_lists(keys, starts_with)
}

/// The registry of every configured domain, each rule merged with the defaults.
pub fn registry_from_config(config: &ConfigFile) -> (r: Registry)
    ensures
        r.wf(),
        r@ == config_entries(config.domains@, config.defaults, config.domains@.len()),
{
    let mut r = Registry::new();
    let mut i: usize = 0;
    while i < config.domains.len()
        invariant
            i <= config.domains@.len(),
            r.wf(),
            r@ == config_entries(config.domains@, config.defaults, i as nat),
        decreases config.domains.len() - i,
    {
        let cleaner = merge_rule(&config.domains[i].1, &config.defaults);
        r.insert(config.domains[i].0.clone(), cleaner);
        i = i + 1;
    }
    r
}

/// The rule that seeding the rule store gives a configured domain: the
/// "default" domain takes the defaults; any other its own keys and prefixes,
/// each list falling back to the defaults' where it is empty or absent.
pub open spec fn seeded(domain: Seq<char>, rule: RuleConfig, defaults: RuleConfig) -> (Seq<Seq<char>>, Seq<Seq<char>>) {
    let default_prefixes = match defaults.starts_with {
        Some(v) => views(v@),
        None => Seq::empty(),
    };
    if domain == "default"@ {
        (views(defaults.keys@), default_prefixes)
    } else {
        (
            if rule.keys@.len() == 0 {
                views(defaults.keys@)
            } else {
                views(rule.keys@)
            },
            match rule.starts_with {
                Some(v) => if v@.len() == 0 {
                    default_prefixes
                } else {
                    views(v@)
                },
                None => default_prefixes,
            },
        )
    }
}

/// The prefixes of `rule`, or the defaults' where it has none.
fn seeded_prefixes(rule: &RuleConfig, defaults: &RuleConfig, is_default: bool) -> (r: Vec<String>)
    ensures
        views(r@) == (if is_default {
            match defaults.starts_with {
                Some(v) => views(v@),
                None => Seq::empty(),
            }
        } else {
            match rule.starts_with {
                Some(v) => if v@.len() == 0 {
                    match defaults.starts_with {
                        Some(d) => views(d@),
                        None => Seq::empty(),
                    }
                } else {
                    views(v@)
                },
                None => match defaults.starts_with {
                    Some(d) => views(d@),
                    None => Seq::empty(),
                },
            }
        }),
{
    let own = if is_default {
        None
    } else {
        match &rule.starts_with {
            Some(v) => if v.len() == 0 {
                None
            } else {
                Some(v)
            },
            None => None,
        }
    };
    match own {
        Some(v) => copy_strings(v),
        None => match &defaults.starts_with {
            Some(d) => copy_strings(d),
            None => {
                let r: Vec<String> = Vec::new();
                assert(views(r@) =~= Seq::<Seq<char>>::empty());
                r
            },
        },
    }
}

/// The approved rules, one per configured domain in order, that seed an
/// empty rule store, each contributed by "system".
pub fn seed_rules(config: &ConfigFile) -> (r: Vec<DomainRule>)
    ensures
        r@.len() == config.domains@.len(),
        forall|i: int|
            0 <= i < r@.len() ==> {
                let rule = #[trigger] r@[i];
                let (d, rc) = config.domains@[i];
                &&& rule.id is None
                &&& rule.domain@ == d@
                &&& (views(rule.keys@), views(rule.starts_with@)) == seeded(d@, rc, config.defaults)
                &&& views(rule.contributors@) == seq!["system"@]
                &&& rule.status@ == "approved"@
            },
{
    let mut r: Vec<DomainRule> = Vec::new();
    let mut i: usize = 0;
    while i < config.domains.len()
        invariant
            i <= config.domains@.len(),
            r@.len() == i,
            forall|j: int|
                0 <= j < i ==> {
                    let rule = #[trigger] r@[j];
                    let (d, rc) = config.domains@[j];
                    &&& rule.id is None
                    &&& rule.domain@ == d@
                    &&& (views(rule.keys@), views(rule.starts_with@)) == seeded(d@, rc, config.defaults)
                    &&& views(rule.contributors@) == seq!["system"@]
                    &&& rule.status@ == "approved"@
                },
        decreases config.domains.len() - i,
    {
        let domain = &config.domains[i].0;
        let rule = &config.domains[i].1;
        let is_default = str_eq(domain.as_str(), "default");
        let keys = if is_default || rule.keys.len() == 0 {
            copy_strings(&config.defaults.keys)
        } else {
            copy_strings(&rule.keys)
        };
        let starts_with = seeded_prefixes(rule, &config.defaults, is_default);
        let mut contributors: Vec<String> = Vec::new();
        contributors.push(String::from_str("system"));
        assert(views(contributors@) =~= seq!["system"@]);
        r.push(
            DomainRule {
                id: None,
                domain: domain.clone(),
                keys,
                starts_with,
                contributors,
                status: String::from_str("approved"),
            },
        );
        i = i + 1;
    }
    r
}

} // verus!
