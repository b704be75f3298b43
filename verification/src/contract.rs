//! Data-contract version-gate decisions: the thresholds that apply to a
//! contract, and the verdict on a declared version.
use vstd::prelude::*;

use crate::semver::{below, parse, Version};
use crate::text::is_blank_str;

verus! {

/// Resolved thresholds for a contract (per-contract override merged over global).
#[derive(Debug, Clone, PartialEq)]
pub struct Rules {
    pub blocked_below: String,
    pub deprecated_below: String,
    pub sunset: String,
}

impl Default for Rules {
    fn default() -> (r: Rules)
        ensures
            r.blocked_below@ == Seq::<char>::empty(),
            r.deprecated_below@ == Seq::<char>::empty(),
            r.sunset@ == Seq::<char>::empty(),
    {
        Rules { blocked_below: String::new(), deprecated_below: String::new(), sunset: String::new() }
    }
}

/// A contract is governed when at least one threshold is set (not blank).
pub open spec fn governed(blocked: Seq<char>, deprecated: Seq<char>) -> bool {
    !crate::text::is_blank(blocked) || !crate::text::is_blank(deprecated)
}

impl Rules {
    pub fn is_governed(&self) -> (r: bool)
        ensures
            r == governed(self.blocked_below@, self.deprecated_below@),
    {
        !is_blank_str(self.blocked_below.as_str()) || !is_blank_str(self.deprecated_below.as_str())
    }
}

/// Outcome of gating a declared version.
#[derive(Debug, PartialEq, Eq, Structural)]
pub enum Decision {
    /// Not governed (no thresholds configured for this contract) — allow.
    NotGoverned,
    /// Allowed and current.
    Allow,
    /// Allowed but the version is deprecated (emit Deprecation/Sunset).
    Deprecated,
    /// Blocked — below the blocked threshold (reject + upgrade hint).
    Blocked,
    /// Version missing or unparseable for a governed contract.
    Invalid,
}

/// The text of an optional string.
pub open spec fn opt_text(o: Option<&str>) -> Option<Seq<char>> {
    match o {
        Some(s) => Some(s@),
        None => None,
    }
}

/// A per-contract override wins over the global value unless it is absent
/// or blank.
pub open spec fn pick(over: Option<Seq<char>>, global: Seq<char>) -> Seq<char> {
    match over {
        Some(s) => if !crate::text::is_blank(s) { s } else { global },
        None => global,
    }
}

fn pick_str(over: Option<&str>, global: &str) -> (r: String)
    ensures
        r@ == pick(opt_text(over), global@),
{
    match over {
        Some(s) => {
            if !is_blank_str(s) {
                s.to_owned()
            } else {
                global.to_owned()
            }
        },
        None => global.to_owned(),
    }
}

/// Merge a per-contract override (opt fields) over the global fallback.
pub fn resolve_rules(
    global_blocked: &str,
    global_deprecated: &str,
    per_blocked: Option<&str>,
    per_deprecated: Option<&str>,
    per_sunset: Option<&str>,
) -> (r: Rules)
    ensures
        r.blocked_below@ == pick(opt_text(per_blocked), global_blocked@),
        r.deprecated_below@ == pick(opt_text(per_deprecated), global_deprecated@),
        r.sunset@ == match per_sunset {
            Some(s) => s@,
            None => Seq::<char>::empty(),
        },
{
    let sunset = match per_sunset {
        Some(s) => s.to_owned(),
        None => String::new(),
    };
    Rules {
        blocked_below: pick_str(per_blocked, global_blocked),
        deprecated_below: pick_str(per_deprecated, global_deprecated),
        sunset,
    }
}

/// The verdict on a declared version (its text, if one was declared) under
/// the thresholds `blocked` and `deprecated`.
pub open spec fn verdict(blocked: Seq<char>, deprecated: Seq<char>, version: Option<Seq<char>>) -> Decision {
    if !governed(blocked, deprecated) {
        Decision::NotGoverned
    } else {
        match version {
            None => Decision::Invalid,
            Some(text) => match crate::semver::parsed_version(text) {
                None => Decision::Invalid,
                Some(v) => if crate::semver::is_below(v, blocked) {
                    Decision::Blocked
                } else if crate::semver::is_below(v, deprecated) {
                    Decision::Deprecated
                } else {
                    Decision::Allow
                },
            },
        }
    }
}

/// Decide the outcome for a declared `version` under `rules`.
pub fn evaluate(rules: &Rules, version: Option<&str>) -> (r: Decision)
    ensures
        r == verdict(rules.blocked_below@, rules.deprecated_below@, opt_text(version)),
{
    if !rules.is_governed() {
        return Decision::NotGoverned;
    }
    let v: Version = match version {
        Some(text) => match parse(text) {
            Some(v) => v,
            None => return Decision::Invalid,
        },
        None => return Decision::Invalid,
    };
    if below(&v, rules.blocked_below.as_str()) {
        return Decision::Blocked;
    }
    if below(&v, rules.deprecated_below.as_str()) {
        return Decision::Deprecated;
    }
    Decision::Allow
}

/// A newer declared version is never treated more strictly: if a version is
/// blocked, every older one is too; if it is deprecated, every older one is
/// deprecated or blocked.
pub proof fn lemma_newer_never_stricter(
    blocked: Seq<char>,
    deprecated: Seq<char>,
    older: Seq<char>,
    newer: Seq<char>,
)
    requires
        crate::semver::parsed_version(older) is Some,
        crate::semver::parsed_version(newer) is Some,
        !crate::semver::version_lt(
            crate::semver::parsed_version(newer)->0,
            crate::semver::parsed_version(older)->0,
        ),
    ensures
        verdict(blocked, deprecated, Some(newer)) == Decision::Blocked ==> verdict(
            blocked,
            deprecated,
            Some(older),
        ) == Decision::Blocked,
        verdict(blocked, deprecated, Some(newer)) == Decision::Deprecated ==> (verdict(
            blocked,
            deprecated,
            Some(older),
        ) == Decision::Blocked || verdict(blocked, deprecated, Some(older)) == Decision::Deprecated),
{
    let a = crate::semver::parsed_version(older)->0;
    let b = crate::semver::parsed_version(newer)->0;
    if let Some(t) = crate::semver::parsed_version(blocked) {
        crate::semver::lemma_version_order(a, b, t);
    }
    if let Some(t) = crate::semver::parsed_version(deprecated) {
        crate::semver::lemma_version_order(a, b, t);
    }
}

/// With no threshold set, every declared version (or none) is let through
/// as not governed.
pub proof fn lemma_ungoverned_passes(blocked: Seq<char>, deprecated: Seq<char>, version: Option<Seq<char>>)
    requires
        crate::text::is_blank(blocked),
        crate::text::is_blank(deprecated),
    ensures
        verdict(blocked, deprecated, version) == Decision::NotGoverned,
{
}

/// The verdict on a declared version that parses, in terms of the thresholds
/// it parses against: below a parsing blocked threshold it is Blocked,
/// whatever the deprecated threshold; otherwise below a parsing deprecated
/// threshold it is Deprecated; otherwise, with a threshold set, it is Allow.
/// A declared version that is missing or does not parse is Invalid once a
/// threshold is set.
pub proof fn lemma_verdict_cases(blocked: Seq<char>, deprecated: Seq<char>, version: Option<Seq<char>>)
    ensures
        ({
            let d = verdict(blocked, deprecated, version);
            let parses = version is Some && crate::semver::parsed_version(version->0) is Some;
            let v = crate::semver::parsed_version(version->0)->0;
            let under_blocked = crate::semver::parsed_version(blocked) is Some && crate::semver::version_lt(
                v,
                crate::semver::parsed_version(blocked)->0,
            );
            let under_deprecated = crate::semver::parsed_version(deprecated) is Some && crate::semver::version_lt(
                v,
                crate::semver::parsed_version(deprecated)->0,
            );
            let set = !(crate::text::is_blank(blocked) && crate::text::is_blank(deprecated));
            &&& (parses && under_blocked) ==> d == Decision::Blocked
            &&& (parses && !under_blocked && under_deprecated) ==> d == Decision::Deprecated
            &&& (parses && !under_blocked && !under_deprecated && set) ==> d == Decision::Allow
            &&& (set && !parses) ==> d == Decision::Invalid
        }),
{
    if crate::semver::parsed_version(blocked) is Some {
        crate::semver::lemma_parsed_not_blank(blocked);
    }
    if crate::semver::parsed_version(deprecated) is Some {
        crate::semver::lemma_parsed_not_blank(deprecated);
    }
}

/// Merging an override over a global value: an override that is present and
/// not blank is taken unchanged, whatever the global value; an absent or
/// blank override gives the global value unchanged.
pub proof fn lemma_pick(over: Option<Seq<char>>, global: Seq<char>)
    ensures
        (over matches Some(s) && !crate::text::is_blank(s)) ==> pick(over, global) == over->0,
        !(over matches Some(s) && !crate::text::is_blank(s)) ==> pick(over, global) == global,
{
}

} // verus!
