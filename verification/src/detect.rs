//! Choosing the active profile from what is known of the host.

use vstd::prelude::*;

verus! {

/// One test on the host: its name, its operating system, or the value of an
/// environment variable.
#[derive(Clone, Debug, PartialEq, Eq)]
pub enum DetectionCondition {
    Hostname(String),
    OS(String),
    EnvVar { name: String, value: String },
}

/// A condition as contracts see it.
pub enum ConditionView {
    Hostname(Seq<char>),
    OS(Seq<char>),
    EnvVar { name: Seq<char>, value: Seq<char> },
}

impl View for DetectionCondition {
    type V = ConditionView;

    open spec fn view(&self) -> ConditionView {
        match self {
            DetectionCondition::Hostname(h) => ConditionView::Hostname(h@),
            DetectionCondition::OS(o) => ConditionView::OS(o@),
            DetectionCondition::EnvVar { name, value } => ConditionView::EnvVar {
                name: name@,
                value: value@,
            },
        }
    }
}

/// A profile and the conditions under which it is chosen.
#[derive(Clone, Debug, PartialEq, Eq)]
pub struct ProfileDetectionRule {
    pub profile: String,
    pub conditions: Vec<DetectionCondition>,
}

/// A rule as contracts see it.
pub struct RuleView {
    pub profile: Seq<char>,
    pub conditions: Seq<ConditionView>,
}

impl View for ProfileDetectionRule {
    type V = RuleView;

    open spec fn view(&self) -> RuleView {
        RuleView {
            profile: self.profile@,
            conditions: self.conditions@.map_values(|c: DetectionCondition| c@),
        }
    }
}

/// The detection rules, in the order in which they are tried.
#[derive(Clone, Debug, PartialEq, Eq)]
pub struct ProfileDetectionConfig {
    pub rules: Vec<ProfileDetectionRule>,
}

impl View for ProfileDetectionConfig {
    type V = Seq<RuleView>;

    open spec fn view(&self) -> Seq<RuleView> {
        self.rules@.map_values(|r: ProfileDetectionRule| r@)
    }
}

/// An environment variable that is set, with its value.
#[derive(Clone, Debug, PartialEq, Eq)]
pub struct EnvVar {
    pub name: String,
    pub value: String,
}

impl View for EnvVar {
    type V = (Seq<char>, Seq<char>);

    open spec fn view(&self) -> (Seq<char>, Seq<char>) {
        (self.name@, self.value@)
    }
}

/// What is known of the host: its name, its operating system identifier and
/// the environment variables that are set.
#[derive(Clone, Debug, PartialEq, Eq)]
pub struct HostSignals {
    pub hostname: String,
    pub os: String,
    pub env: Vec<EnvVar>,
}

/// The host signals as contracts see them.
pub struct SignalsView {
    pub hostname: Seq<char>,
    pub os: Seq<char>,
    pub env: Seq<(Seq<char>, Seq<char>)>,
}

impl View for HostSignals {
    type V = SignalsView;

    open spec fn view(&self) -> SignalsView {
        SignalsView {
            hostname: self.hostname@,
            os: self.os@,
            env: self.env@.map_values(|e: EnvVar| e@),
        }
    }
}

/// The value of the variable `name`: that of the first entry with this name.
/// A variable that is not set has none.
pub open spec fn env_value(env: Seq<(Seq<char>, Seq<char>)>, name: Seq<char>) -> Option<Seq<char>>
    decreases env.len(),
{
    if env.len() == 0 {
        None
    } else if env[0].0 == name {
        Some(env[0].1)
    } else {
        env_value(env.drop_first(), name)
    }
}

/// A condition holds when the signal it names equals the expected string
/// exactly.  A variable that is not set equals nothing.
pub open spec fn condition_holds(c: ConditionView, s: SignalsView) -> bool {
    match c {
        ConditionView::Hostname(h) => h == s.hostname,
        ConditionView::OS(o) => o == s.os,
        ConditionView::EnvVar { name, value } => env_value(s.env, name) == Some(value),
    }
}

/// A rule matches when all of its conditions hold.
pub open spec fn rule_matches(r: RuleView, s: SignalsView) -> bool {
    forall|i: int| 0 <= i < r.conditions.len() ==> condition_holds(#[trigger] r.conditions[i], s)
}

/// The name of the profile that is used when no rule matches.
pub open spec fn default_profile() -> Seq<char> {
    "default"@
}

/// The profile of the first rule that matches, or the default profile.
pub open spec fn detected_profile(rules: Seq<RuleView>, s: SignalsView) -> Seq<char>
    decreases rules.len(),
{
    if rules.len() == 0 {
        default_profile()
    } else if rule_matches(rules[0], s) {
        rules[0].profile
    } else {
        detected_profile(rules.drop_first(), s)
    }
}

/// The rules of an optional detection configuration.
pub open spec fn rules_of(detection: Option<ProfileDetectionConfig>) -> Option<Seq<RuleView>> {
    match detection {
        Some(d) => Some(d@),
        None => None,
    }
}

/// The profile that is chosen with the optional detection rules `detection`.
pub open spec fn detection_result(detection: Option<Seq<RuleView>>, s: SignalsView) -> Seq<char> {
    match detection {
        Some(rules) => detected_profile(rules, s),
        None => default_profile(),
    }
}

/// The first matching rule wins: where rule `i` matches and no rule before it
/// does, the detected profile is that of rule `i`, whatever the rules after it
/// say.
pub proof fn lemma_first_match_wins(rules: Seq<RuleView>, s: SignalsView, i: int)
    requires
        0 <= i < rules.len(),
        rule_matches(rules[i], s),
        forall|j: int| 0 <= j < i ==> !rule_matches(#[trigger] rules[j], s),
    ensures
        detected_profile(rules, s) == rules[i].profile,
    decreases i,
{
    if i > 0 {
        let rest = rules.drop_first();
        assert(!rule_matches(rules[0], s));
        assert(rest[i - 1] == rules[i]);
        assert forall|j: int| 0 <= j < i - 1 implies !rule_matches(#[trigger] rest[j], s) by {
            assert(rest[j] == rules[j + 1]);
        }
        lemma_first_match_wins(rest, s, i - 1);
    }
}

/// Where no rule matches, the default profile is detected.
pub proof fn lemma_no_match_gives_default(rules: Seq<RuleView>, s: SignalsView)
    requires
        forall|j: int| 0 <= j < rules.len() ==> !rule_matches(#[trigger] rules[j], s),
    ensures
        detected_profile(rules, s) == default_profile(),
    decreases rules.len(),
{
    if rules.len() > 0 {
        let rest = rules.drop_first();
        assert(!rule_matches(rules[0], s));
        assert forall|j: int| 0 <= j < rest.len() implies !rule_matches(#[trigger] rest[j], s) by {
            assert(rest[j] == rules[j + 1]);
        }
        lemma_no_match_gives_default(rest, s);
    }
}

/// A later rule never wins over an earlier one that matches: the detected
/// profile does not depend on the rules after the first match.
pub proof fn lemma_later_rules_are_ignored(
    rules: Seq<RuleView>,
    other: Seq<RuleView>,
    s: SignalsView,
    i: int,
)
    requires
        0 <= i < rules.len(),
        i < other.len(),
        rule_matches(rules[i], s),
        forall|j: int| 0 <= j <= i ==> rules[j] == other[j],
    ensures
        detected_profile(rules, s) == detected_profile(other, s),
    decreases i,
{
    assert(rules[0] == other[0]);
    if !rule_matches(rules[0], s) {
        let r = rules.drop_first();
        let o = other.drop_first();
        assert(r[i - 1] == rules[i]);
        assert forall|j: int| 0 <= j <= i - 1 implies r[j] == o[j] by {
            assert(r[j] == rules[j + 1]);
            assert(o[j] == other[j + 1]);
        }
        lemma_later_rules_are_ignored(r, o, s, i - 1);
    }
}

/// The value of the environment variable `name`, if it is set.
pub fn lookup_env<'a>(env: &'a Vec<EnvVar>, name: &String) -> (r: Option<&'a String>)
    ensures
        match r {
            Some(v) => env_value(env@.map_values(|e: EnvVar| e@), name@) == Some(v@),
            None => env_value(env@.map_values(|e: EnvVar| e@), name@) is None,
        },
{
    let ghost all = env@.map_values(|e: EnvVar| e@);
    let mut i: usize = 0;
    assert(all.skip(0) =~= all);
    while i < env.len()
        invariant
            i <= env@.len(),
            all == env@.map_values(|e: EnvVar| e@),
            env_value(all, name@) == env_value(all.skip(i as int), name@),
        decreases env@.len() - i,
    {
        proof {
            assert(all.skip(i as int).drop_first() =~= all.skip(i as int + 1));
            assert(all.skip(i as int)[0] == env@[i as int]@);
        }
        if env[i].name == *name {
            return Some(&env[i].value);
        }
        i += 1;
    }
    None
}

/// Whether `condition` holds of the host.
pub fn check_condition(condition: &DetectionCondition, signals: &HostSignals) -> (r: bool)
    ensures
        r == condition_holds(condition@, signals@),
{
    match condition {
        DetectionCondition::Hostname(hostname) => *hostname == signals.hostname,
        DetectionCondition::OS(os) => *os == signals.os,
        DetectionCondition::EnvVar { name, value } => {
            match lookup_env(&signals.env, name) {
                Some(v) => *v == *value,
                None => false,
            }
        },
    }
}

/// Whether all conditions of `rule` hold of the host.
pub fn rule_applies(rule: &ProfileDetectionRule, signals: &HostSignals) -> (r: bool)
    ensures
        r == rule_matches(rule@, signals@),
{
    let mut i: usize = 0;
    while i < rule.conditions.len()
        invariant
            i <= rule.conditions@.len(),
            forall|j: int| 0 <= j < i ==> condition_holds(#[trigger] rule@.conditions[j], signals@),
        decreases rule.conditions@.len() - i,
    {
        if !check_condition(&rule.conditions[i], signals) {
            assert(!condition_holds(rule@.conditions[i as int], signals@));
            return false;
        }
        i += 1;
    }
    true
}

/// The profile to use when the caller names none: that of the first rule, in
/// the configured order, whose conditions all hold; `default` where no rule
/// matches or no rules are configured.
pub fn detect_profile(detection: &Option<ProfileDetectionConfig>, signals: &HostSignals) -> (r:
    String)
    ensures
        r@ == detection_result(rules_of(*detection), signals@),
{
    if let Some(profile_detection) = detection {
        let ghost rules = profile_detection@;
        let mut i: usize = 0;
        assert(rules.skip(0) =~= rules);
        while i < profile_detection.rules.len()
            invariant
                i <= profile_detection.rules@.len(),
                rules == profile_detection@,
                rules_of(*detection) == Some(rules),
                detected_profile(rules, signals@) == detected_profile(
                    rules.skip(i as int),
                    signals@,
                ),
            decreases profile_detection.rules@.len() - i,
        {
            proof {
                assert(rules.skip(i as int).drop_first() =~= rules.skip(i as int + 1));
                assert(rules.skip(i as int)[0] == profile_detection.rules@[i as int]@);
            }
            if rule_applies(&profile_detection.rules[i], signals) {
                return profile_detection.rules[i].profile.clone();
            }
            i += 1;
        }
    }
    "default".to_string()
}

} // verus!
