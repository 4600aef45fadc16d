use boombot::cleaner::{get_cleaner_for_host_string, DomainCleaner, Registry, UrlCleaner};
use boombot::config::{registry_from_config, seed_rules, ConfigFile, RuleConfig};

fn strings(items: &[&str]) -> Vec<String> {
    items.iter().map(|s| s.to_string()).collect()
}

fn sample_registry() -> Registry {
    let config = ConfigFile {
        defaults: RuleConfig { keys: strings(&["fbclid"]), starts_with: Some(strings(&["utm_"])) },
        domains: vec![
            ("default".to_string(), RuleConfig { keys: vec![], starts_with: None }),
            ("instagram.com".to_string(), RuleConfig { keys: strings(&["igsh"]), starts_with: None }),
            ("linkedin.com".to_string(), RuleConfig { keys: strings(&["rcm"]), starts_with: None }),
        ],
    };
    registry_from_config(&config)
}

#[test]
fn removes_exact_keys() {
    let cleaner = DomainCleaner::new(&["fbclid", "igsh"], &[]);

    assert!(cleaner.should_remove("fbclid"));
    assert!(cleaner.should_remove("igsh"));

    assert!(!cleaner.should_remove("keep"));
}

#[test]
fn removes_prefix_keys() {
    let cleaner = DomainCleaner::new(&[], &["utm_", "track_"]);

    assert!(cleaner.should_remove("utm_source"));
    assert!(cleaner.should_remove("track_user"));

    assert!(!cleaner.should_remove("keep"));
}

#[test]
fn combines_exact_and_prefix() {
    let cleaner = DomainCleaner::new(&["exact"], &["prefix_"]);

    assert!(cleaner.should_remove("exact"));
    assert!(cleaner.should_remove("prefix_anything"));

    assert!(!cleaner.should_remove("keep"));
}

#[test]
fn exact_key_is_not_a_prefix() {
    let cleaner = DomainCleaner::new(&["igsh"], &[]);
    assert!(!cleaner.should_remove("igsh_extra"));
    assert!(!cleaner.should_remove("igs"));
    assert!(!cleaner.should_remove(""));
}

#[test]
fn empty_prefix_removes_everything() {
    let cleaner = DomainCleaner::new(&[], &[""]);
    assert!(cleaner.should_remove("anything"));
    assert!(cleaner.should_remove(""));
}

#[test]
fn gets_specific_cleaner_for_domain() {
    let registry = sample_registry();

    let instagram_cleaner = get_cleaner_for_host_string("www.instagram.com", &registry);
    assert!(instagram_cleaner.should_remove("igsh"));

    let linkedin_cleaner = get_cleaner_for_host_string("https://www.linkedin.com", &registry);
    assert!(linkedin_cleaner.should_remove("rcm"));
}

#[test]
fn falls_back_to_default_cleaner() {
    let registry = sample_registry();

    let default_cleaner = get_cleaner_for_host_string("unknown.com", &registry);
    assert!(default_cleaner.should_remove("utm_source"));
}

#[test]
fn first_matching_domain_wins() {
    let mut registry = Registry::new();
    registry.insert("default".to_string(), DomainCleaner::new(&[], &[]));
    registry.insert("example.com".to_string(), DomainCleaner::new(&["a"], &[]));
    registry.insert("shop.example.com".to_string(), DomainCleaner::new(&["b"], &[]));
    let c = get_cleaner_for_host_string("shop.example.com", &registry);
    assert!(c.should_remove("a"));
    assert!(!c.should_remove("b"));
}

#[test]
fn insert_replaces_the_rule_of_a_known_domain() {
    let mut registry = Registry::new();
    registry.insert("default".to_string(), DomainCleaner::new(&["old"], &[]));
    registry.insert("default".to_string(), DomainCleaner::new(&["new"], &[]));
    assert_eq!(registry.entries.len(), 1);
    let c = get_cleaner_for_host_string("anything", &registry);
    assert!(c.should_remove("new"));
    assert!(!c.should_remove("old"));
}

#[test]
fn merge_falls_back_to_defaults() {
    let registry = sample_registry();
    assert_eq!(registry.entries.len(), 3);
    let default = get_cleaner_for_host_string("unknown.com", &registry);
    assert_eq!(default.keys, strings(&["fbclid"]));
    assert_eq!(default.starts_with, strings(&["utm_"]));
    let insta = get_cleaner_for_host_string("instagram.com", &registry);
    assert_eq!(insta.keys, strings(&["igsh"]));
    assert_eq!(insta.starts_with, strings(&["utm_"]));
}

#[test]
fn merge_without_any_prefixes_uses_utm() {
    let config = ConfigFile {
        defaults: RuleConfig { keys: vec![], starts_with: None },
        domains: vec![
            ("default".to_string(), RuleConfig { keys: vec![], starts_with: None }),
            ("a.com".to_string(), RuleConfig { keys: vec![], starts_with: Some(strings(&["x_"])) }),
        ],
    };
    let registry = registry_from_config(&config);
    let d = get_cleaner_for_host_string("z.org", &registry);
    assert_eq!(d.starts_with, strings(&["utm_"]));
    let a = get_cleaner_for_host_string("a.com", &registry);
    assert_eq!(a.starts_with, strings(&["x_"]));
}

#[test]
fn seeding_takes_defaults_for_default_and_empty_lists() {
    let config = ConfigFile {
        defaults: RuleConfig { keys: strings(&["fbclid"]), starts_with: Some(strings(&["utm_"])) },
        domains: vec![
            ("default".to_string(), RuleConfig { keys: strings(&["ignored"]), starts_with: Some(strings(&["x_"])) }),
            ("a.com".to_string(), RuleConfig { keys: vec![], starts_with: Some(vec![]) }),
            ("b.com".to_string(), RuleConfig { keys: strings(&["k"]), starts_with: Some(strings(&["p_"])) }),
        ],
    };
    let rules = seed_rules(&config);
    assert_eq!(rules.len(), 3);
    assert_eq!(rules[0].domain, "default");
    assert_eq!(rules[0].keys, strings(&["fbclid"]));
    assert_eq!(rules[0].starts_with, strings(&["utm_"]));
    assert_eq!(rules[1].keys, strings(&["fbclid"]));
    assert_eq!(rules[1].starts_with, strings(&["utm_"]));
    assert_eq!(rules[2].keys, strings(&["k"]));
    assert_eq!(rules[2].starts_with, strings(&["p_"]));
    for r in &rules {
        assert_eq!(r.id, None);
        assert_eq!(r.contributors, strings(&["system"]));
        assert_eq!(r.status, "approved");
    }
}
