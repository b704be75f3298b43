use data_contract_version_gate::contract::{evaluate, resolve_rules, Decision, Rules};

fn rules(b: &str, d: &str) -> Rules {
    Rules { blocked_below: b.into(), deprecated_below: d.into(), sunset: String::new() }
}

#[test]
fn not_governed_when_no_thresholds() {
    assert_eq!(evaluate(&rules("", ""), Some("2.4.0")), Decision::NotGoverned);
}

#[test]
fn blocks_below_blocked() {
    assert_eq!(evaluate(&rules("1.0.0", "3.0.0"), Some("0.9.0")), Decision::Blocked);
}

#[test]
fn deprecates_between_blocked_and_deprecated() {
    assert_eq!(evaluate(&rules("1.0.0", "3.0.0"), Some("2.4.0")), Decision::Deprecated);
}

#[test]
fn allows_at_or_above_deprecated() {
    assert_eq!(evaluate(&rules("1.0.0", "3.0.0"), Some("3.0.0")), Decision::Allow);
    assert_eq!(evaluate(&rules("1.0.0", "3.0.0"), Some("3.5.1")), Decision::Allow);
}

#[test]
fn invalid_when_missing_or_bad_and_governed() {
    assert_eq!(evaluate(&rules("1.0.0", ""), None), Decision::Invalid);
    assert_eq!(evaluate(&rules("1.0.0", ""), Some("not-a-version")), Decision::Invalid);
}

#[test]
fn resolve_prefers_per_contract() {
    let r = resolve_rules("1.0.0", "2.0.0", Some("1.5.0"), None, Some("Wed, 01 Jan 2027 00:00:00 GMT"));
    assert_eq!(r.blocked_below, "1.5.0"); // per-contract override
    assert_eq!(r.deprecated_below, "2.0.0"); // global fallback
    assert_eq!(r.sunset, "Wed, 01 Jan 2027 00:00:00 GMT");
}

#[test]
fn blank_override_falls_back_to_global() {
    let r = resolve_rules("1.0.0", "2.0.0", Some("  "), Some(""), None);
    assert_eq!(r.blocked_below, "1.0.0");
    assert_eq!(r.deprecated_below, "2.0.0");
    assert_eq!(r.sunset, "");
}

#[test]
fn override_kept_untrimmed() {
    let r = resolve_rules("1.0.0", "2.0.0", Some(" 1.5.0 "), Some("3.0"), Some(" "));
    assert_eq!(r.blocked_below, " 1.5.0 ");
    assert_eq!(r.deprecated_below, "3.0");
    assert_eq!(r.sunset, " ");
}

#[test]
fn is_governed_on_blank_thresholds() {
    assert!(!rules("", "").is_governed());
    assert!(!rules(" \t", "\n").is_governed());
    assert!(rules("1.0.0", "").is_governed());
    assert!(rules("", "garbage").is_governed());
    assert!(!Rules::default().is_governed());
}

#[test]
fn governed_by_unparseable_threshold_only() {
    // governed, but the unparseable threshold is disabled: a valid version is allowed
    assert_eq!(evaluate(&rules("garbage", ""), Some("0.0.1")), Decision::Allow);
    assert_eq!(evaluate(&rules("garbage", ""), Some("oops")), Decision::Invalid);
}

#[test]
fn deprecated_only_threshold() {
    assert_eq!(evaluate(&rules("", "2.0"), Some("1.9.9")), Decision::Deprecated);
    assert_eq!(evaluate(&rules("", "2.0"), Some("2.0.0-rc1")), Decision::Allow);
}

#[test]
fn newer_never_stricter_law_example() {
    let r = rules("2.0.0", "3.0.0");
    let order = ["0.1", "1.9.9", "2.0.0", "2.9", "3.0.0", "10.0.0"];
    let rank = |d: Decision| match d {
        Decision::Blocked => 2,
        Decision::Deprecated => 1,
        _ => 0,
    };
    for w in order.windows(2) {
        assert!(rank(evaluate(&r, Some(w[1]))) <= rank(evaluate(&r, Some(w[0]))));
    }
}

#[test]
fn ungoverned_passes_law_example() {
    assert_eq!(evaluate(&rules(" ", ""), None), Decision::NotGoverned);
    assert_eq!(evaluate(&rules("", ""), Some("garbage")), Decision::NotGoverned);
}
