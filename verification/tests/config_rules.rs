use project_sync::config::{default_debounce, default_ignore, default_sync_on_start};
use project_sync::config::{matching_destinations, Config, SyncRuleToml, NANOS_PER_SEC};
use project_sync::sync_item::{SyncItem, Target, SELF_CONFIG};
use project_sync::sync_manager::Projects;

fn rule(name: &str, source: &str, destinations: &[&str]) -> SyncRuleToml {
    SyncRuleToml {
        name: name.to_string(),
        source: source.to_string(),
        destinations: destinations.iter().map(|d| d.to_string()).collect(),
        sync_on_start: default_sync_on_start(),
        ignore: default_ignore(),
        options: String::new(),
    }
}

fn config(rules: Vec<SyncRuleToml>) -> Config {
    Config {
        debounce: default_debounce(),
        verbose: false,
        sync: rules,
        config_path: "/etc/project-sync.toml".to_string(),
    }
}

fn destinations(projects: &Projects) -> Vec<String> {
    projects.0.iter().map(|item| item.destination.clone()).collect()
}

#[test]
fn defaults_are_the_documented_ones() {
    assert!(!default_sync_on_start());
    assert_eq!(default_ignore(), ".git\n");
    assert_eq!(default_debounce(), 80_000_000);
    assert_eq!(default_debounce() * 25, 2 * NANOS_PER_SEC);
}

#[test]
fn matching_destinations_keeps_order_and_duplicates() {
    let all = vec![
        "host1:/x".to_string(),
        "host2:/y".to_string(),
        "backup@host1:/z".to_string(),
        "host1:/x".to_string(),
    ];
    assert_eq!(
        matching_destinations(&all, "host1"),
        vec!["host1:/x".to_string(), "backup@host1:/z".to_string(), "host1:/x".to_string()]
    );
    assert_eq!(matching_destinations(&all, "host3"), Vec::<String>::new());
}

#[test]
fn matching_destinations_is_a_substring_test() {
    let all = vec!["abc".to_string(), "ab".to_string(), "xabcx".to_string(), "acb".to_string()];
    assert_eq!(matching_destinations(&all, "abc"), vec!["abc".to_string(), "xabcx".to_string()]);
    assert_eq!(matching_destinations(&all, "abcd"), Vec::<String>::new());
}

#[test]
fn empty_filter_keeps_every_destination() {
    let all = vec!["a".to_string(), String::new(), "b".to_string()];
    assert_eq!(matching_destinations(&all, ""), all);
}

#[test]
fn filter_matches_whole_characters() {
    let all = vec!["büro:/data".to_string(), "buero:/data".to_string()];
    assert_eq!(matching_destinations(&all, "ü"), vec!["büro:/data".to_string()]);
    assert_eq!(matching_destinations(&all, "ro:"), all);
}

#[test]
fn rule_retain_changes_only_the_destinations() {
    let mut whole = rule("a", "/x", &["host1:/x", "host2:/y"]);
    whole.sync_on_start = true;
    whole.options = "--delete".to_string();
    let kept = whole.retain_destinations("host2");
    assert_eq!(kept.destinations, vec!["host2:/y".to_string()]);
    assert_eq!(kept.name, "a");
    assert_eq!(kept.source, "/x");
    assert!(kept.sync_on_start);
    assert_eq!(kept.ignore, ".git\n");
    assert_eq!(kept.options, "--delete");
    assert_eq!(whole.destinations.len(), 2);
}

#[test]
fn retain_keeps_the_matching_subset_of_each_rule() {
    let mut cfg = config(vec![
        rule("a", "/x", &["host1:/a", "host2:/a"]),
        rule("b", "/y", &["host2:/b", "host1:/b", "host1:/c"]),
    ]);
    cfg.retain_destinations("host1");
    assert_eq!(cfg.sync.len(), 2);
    assert_eq!(cfg.sync[0].name, "a");
    assert_eq!(cfg.sync[0].destinations, vec!["host1:/a".to_string()]);
    assert_eq!(cfg.sync[1].name, "b");
    assert_eq!(cfg.sync[1].destinations, vec!["host1:/b".to_string(), "host1:/c".to_string()]);
    assert_eq!(cfg.debounce, 80_000_000);
    assert!(!cfg.verbose);
    assert_eq!(cfg.config_path, "/etc/project-sync.toml");
}

#[test]
fn retain_drops_a_rule_without_a_match() {
    let mut cfg = config(vec![
        rule("a", "/x", &["host1:/a"]),
        rule("b", "/y", &["host2:/b"]),
        rule("c", "/z", &["host1:/c", "host2:/c"]),
    ]);
    cfg.retain_destinations("host2");
    let names: Vec<String> = cfg.sync.iter().map(|r| r.name.clone()).collect();
    assert_eq!(names, vec!["b".to_string(), "c".to_string()]);
    assert_eq!(cfg.sync[1].destinations, vec!["host2:/c".to_string()]);
}

#[test]
fn retain_drops_a_rule_that_had_no_destination() {
    let mut cfg = config(vec![rule("empty", "/x", &[]), rule("a", "/y", &["h:/a"])]);
    cfg.retain_destinations("");
    assert_eq!(cfg.sync.len(), 1);
    assert_eq!(cfg.sync[0].name, "a");
}

#[test]
fn retain_with_no_match_at_all_leaves_no_rule() {
    let mut cfg = config(vec![rule("a", "/x", &["h1:/a"]), rule("b", "/y", &["h2:/b"])]);
    cfg.retain_destinations("nowhere");
    assert!(cfg.sync.is_empty());
}

#[test]
fn fan_out_makes_one_item_per_destination() {
    let cfg = config(vec![rule("a", "/x", &["h1:/a", "h2:/b"])]);
    let projects = Projects::new(cfg);
    assert_eq!(projects.len(), 3);
    let first = &projects.0[0];
    let second = &projects.0[1];
    assert_eq!(first.name, "a");
    assert_eq!(second.name, "a");
    assert_eq!(first.source, "/x");
    assert_eq!(second.source, "/x");
    assert_eq!(first.destination, "h1:/a");
    assert_eq!(second.destination, "h2:/b");
    assert_eq!(first.target, Target::Project);
    assert_eq!(second.target, Target::Project);
    assert_eq!(first.debounce, 80_000_000);
    assert_eq!(second.debounce, 80_000_000);
    assert_eq!(first.ignore, second.ignore);
    assert_eq!(first.options, second.options);
    assert_eq!(first.sync_on_start, second.sync_on_start);
}

#[test]
fn fan_out_follows_the_order_of_rules_and_destinations() {
    let mut second = rule("b", "/y", &["h3:/c"]);
    second.sync_on_start = true;
    second.ignore = "target\n".to_string();
    second.options = "--delete".to_string();
    let mut cfg = config(vec![rule("a", "/x", &["h1:/a", "h2:/b"]), rule("none", "/n", &[]), second]);
    cfg.debounce = 5;
    cfg.verbose = true;
    let projects = Projects::new(cfg);
    assert_eq!(
        destinations(&projects),
        vec![
            "h1:/a".to_string(),
            "h2:/b".to_string(),
            "h3:/c".to_string(),
            "/etc/project-sync.toml".to_string()
        ]
    );
    let third = &projects.0[2];
    assert_eq!(
        *third,
        SyncItem {
            name: "b".to_string(),
            source: "/y".to_string(),
            destination: "h3:/c".to_string(),
            sync_on_start: true,
            ignore: "target\n".to_string(),
            options: "--delete".to_string(),
            debounce: 5,
            verbose: true,
            target: Target::Project,
        }
    );
}

#[test]
fn generation_ends_with_the_configuration_item() {
    let mut cfg = config(vec![rule("a", "/x", &["h1:/a"])]);
    cfg.debounce = 7;
    cfg.verbose = true;
    let projects = Projects::new(cfg);
    let last = projects.0.last().unwrap();
    assert_eq!(
        *last,
        SyncItem {
            name: SELF_CONFIG.to_string(),
            source: "/etc/project-sync.toml".to_string(),
            destination: "/etc/project-sync.toml".to_string(),
            sync_on_start: false,
            ignore: String::new(),
            options: String::new(),
            debounce: 7,
            verbose: true,
            target: Target::ConfigReload,
        }
    );
    let reloads = projects.0.iter().filter(|item| item.target == Target::ConfigReload).count();
    assert_eq!(reloads, 1);
}

#[test]
fn generation_of_no_rules_is_the_configuration_item_alone() {
    let projects = Projects::new(config(Vec::new()));
    assert_eq!(projects.len(), 1);
    assert_eq!(projects.0[0].target, Target::ConfigReload);
}

#[test]
fn a_project_named_like_the_configuration_item_stays_a_project() {
    let projects = Projects::new(config(vec![rule(SELF_CONFIG, "/x", &["h1:/a"])]));
    assert_eq!(projects.0[0].name, SELF_CONFIG);
    assert_eq!(projects.0[0].target, Target::Project);
    assert!(!projects.0[0].is_config_reload());
    assert!(projects.0[1].is_config_reload());
}

#[test]
fn filter_selects_the_matching_destination() {
    let mut cfg = config(vec![rule("a", "/x", &["host1:/x", "host2:/y"])]);
    cfg.retain_destinations("host1");
    let projects = Projects::new(cfg);
    assert_eq!(
        destinations(&projects),
        vec!["host1:/x".to_string(), "/etc/project-sync.toml".to_string()]
    );
    assert_eq!(projects.0[0].name, "a");
    assert_eq!(projects.0[0].target, Target::Project);
}

#[test]
fn filtering_commutes_with_fan_out() {
    let rules = vec![
        rule("a", "/x", &["host1:/a", "host2:/a"]),
        rule("b", "/y", &["host2:/b"]),
        rule("c", "/z", &["host3:/c", "host1:/c"]),
    ];
    let all = Projects::new(config(rules.clone()));
    let mut filtered = config(rules);
    filtered.retain_destinations("host1");
    let built = Projects::new(filtered);
    let expected: Vec<SyncItem> = all
        .0
        .iter()
        .filter(|item| item.target == Target::ConfigReload || item.destination.contains("host1"))
        .cloned()
        .collect();
    assert_eq!(built.0, expected);
    assert_eq!(built.len(), 3);
}

#[test]
fn rebuild_filters_and_sets_the_verbosity() {
    let cfg = config(vec![rule("a", "/x", &["host1:/x", "host2:/y"]), rule("b", "/y", &["host2:/b"])]);
    let projects = Projects::rebuild(cfg, Some("host1"), true);
    assert_eq!(
        destinations(&projects),
        vec!["host1:/x".to_string(), "/etc/project-sync.toml".to_string()]
    );
    assert!(projects.0.iter().all(|item| item.verbose));
}

#[test]
fn rebuild_without_a_filter_keeps_everything() {
    let mut cfg = config(vec![rule("a", "/x", &["host1:/x", "host2:/y"]), rule("b", "/y", &[])]);
    cfg.verbose = true;
    let projects = Projects::rebuild(cfg, None, false);
    assert_eq!(projects.len(), 3);
    assert!(projects.0.iter().all(|item| !item.verbose));
}
