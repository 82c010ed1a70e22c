use dotty::detect::{
    check_condition, detect_profile, lookup_env, rule_applies, DetectionCondition, EnvVar,
    HostSignals, ProfileDetectionConfig, ProfileDetectionRule,
};

fn signals(hostname: &str, os: &str, env: &[(&str, &str)]) -> HostSignals {
    HostSignals {
        hostname: hostname.to_string(),
        os: os.to_string(),
        env: env
            .iter()
            .map(|(n, v)| EnvVar { name: n.to_string(), value: v.to_string() })
            .collect(),
    }
}

fn rule(profile: &str, conditions: Vec<DetectionCondition>) -> ProfileDetectionRule {
    ProfileDetectionRule { profile: profile.to_string(), conditions }
}

fn os(name: &str) -> DetectionCondition {
    DetectionCondition::OS(name.to_string())
}

fn host(name: &str) -> DetectionCondition {
    DetectionCondition::Hostname(name.to_string())
}

fn env(name: &str, value: &str) -> DetectionCondition {
    DetectionCondition::EnvVar { name: name.to_string(), value: value.to_string() }
}

#[test]
fn linux_rule_selects_work_on_linux() {
    let detection = Some(ProfileDetectionConfig { rules: vec![rule("work", vec![os("linux")])] });
    assert_eq!(detect_profile(&detection, &signals("box", "linux", &[])), "work");
}

#[test]
fn linux_rule_falls_back_to_default_on_darwin() {
    let detection = Some(ProfileDetectionConfig { rules: vec![rule("work", vec![os("linux")])] });
    assert_eq!(detect_profile(&detection, &signals("box", "darwin", &[])), "default");
}

#[test]
fn no_detection_config_gives_default() {
    assert_eq!(detect_profile(&None, &signals("box", "linux", &[])), "default");
}

#[test]
fn empty_rule_list_gives_default() {
    let detection = Some(ProfileDetectionConfig { rules: vec![] });
    assert_eq!(detect_profile(&detection, &signals("box", "linux", &[])), "default");
}

#[test]
fn first_matching_rule_wins_over_later_match() {
    let detection = Some(ProfileDetectionConfig {
        rules: vec![
            rule("server", vec![os("linux"), host("rack7")]),
            rule("work", vec![os("linux")]),
            rule("personal", vec![os("linux")]),
        ],
    });
    assert_eq!(detect_profile(&detection, &signals("laptop", "linux", &[])), "work");
    assert_eq!(detect_profile(&detection, &signals("rack7", "linux", &[])), "server");
}

#[test]
fn later_rule_with_subset_of_conditions_wins_only_when_earlier_fails() {
    let detection = Some(ProfileDetectionConfig {
        rules: vec![
            rule("strict", vec![os("linux"), env("ROLE", "ci")]),
            rule("loose", vec![os("linux")]),
        ],
    });
    assert_eq!(detect_profile(&detection, &signals("h", "linux", &[("ROLE", "ci")])), "strict");
    assert_eq!(detect_profile(&detection, &signals("h", "linux", &[("ROLE", "dev")])), "loose");
    assert_eq!(detect_profile(&detection, &signals("h", "linux", &[])), "loose");
}

#[test]
fn detection_is_repeatable() {
    let detection = Some(ProfileDetectionConfig {
        rules: vec![rule("a", vec![host("x")]), rule("b", vec![env("K", "v")])],
    });
    let s = signals("y", "linux", &[("K", "v")]);
    let first = detect_profile(&detection, &s);
    let second = detect_profile(&detection, &s);
    assert_eq!(first, "b");
    assert_eq!(first, second);
}

#[test]
fn rule_without_conditions_always_matches() {
    let detection = Some(ProfileDetectionConfig { rules: vec![rule("any", vec![])] });
    assert_eq!(detect_profile(&detection, &signals("h", "plan9", &[])), "any");
}

#[test]
fn all_conditions_must_hold() {
    let r = rule("work", vec![os("linux"), host("desk"), env("TEAM", "infra")]);
    assert!(rule_applies(&r, &signals("desk", "linux", &[("TEAM", "infra")])));
    assert!(!rule_applies(&r, &signals("desk", "linux", &[("TEAM", "web")])));
    assert!(!rule_applies(&r, &signals("lap", "linux", &[("TEAM", "infra")])));
    assert!(!rule_applies(&r, &signals("desk", "darwin", &[("TEAM", "infra")])));
}

#[test]
fn conditions_compare_exactly() {
    let s = signals("Desk", "linux", &[("A", "1")]);
    assert!(check_condition(&host("Desk"), &s));
    assert!(!check_condition(&host("desk"), &s));
    assert!(!check_condition(&host("Desk "), &s));
    assert!(check_condition(&os("linux"), &s));
    assert!(!check_condition(&os("lin"), &s));
    assert!(check_condition(&env("A", "1"), &s));
    assert!(!check_condition(&env("A", "2"), &s));
}

#[test]
fn missing_variable_is_a_non_match() {
    let s = signals("h", "linux", &[("A", "1")]);
    assert!(!check_condition(&env("B", "1"), &s));
    assert!(!check_condition(&env("B", ""), &s));
    assert_eq!(lookup_env(&s.env, &"B".to_string()), None);
    assert_eq!(lookup_env(&s.env, &"A".to_string()), Some(&"1".to_string()));
}

#[test]
fn first_entry_of_a_variable_counts() {
    let s = signals("h", "linux", &[("A", "1"), ("A", "2")]);
    assert!(check_condition(&env("A", "1"), &s));
    assert!(!check_condition(&env("A", "2"), &s));
}
