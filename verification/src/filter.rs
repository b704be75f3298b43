//! The policy on a request: which traffic is governed, what a governed request
//! is answered, and the deprecation headers stamped on the response.
use vstd::prelude::*;
use vstd::string::StringExecFns;

use crate::config::{apply_to_mode, is_fail_closed, resolve_for, ApplyTo, Config};
use crate::contract::{evaluate, Decision};
use crate::json::{json_as_str, json_clone, json_get, json_null, parse_json};
use crate::text::{chars_of, is_blank_str, starts_with_chars};

verus! {

/// How a request is gated, and how a refusal is answered.
#[derive(Debug, PartialEq, Eq, Structural, Clone, Copy)]
pub enum Scope {
    /// Not governed: passes untouched.
    Pass,
    /// Gated as REST/HTTP traffic; a refusal is a plain JSON body.
    Rest,
    /// Gated as an MCP `tools/call`; a refusal is a JSON-RPC error.
    Mcp,
}

/// What the policy needs once the request line and headers are known.
#[derive(Debug, PartialEq, Eq, Structural, Clone, Copy)]
pub enum HeadersStep {
    /// The scope is settled without the body.
    Settled(Scope),
    /// The scope depends on the JSON body: read it, then `classify_body`.
    ReadBody,
}

/// A `POST` whose content type starts with `application/json`.
pub open spec fn is_json_post(method: Seq<char>, content_type: Option<Seq<char>>) -> bool {
    &&& method == "POST"@
    &&& content_type matches Some(ct)
    &&& "application/json"@.len() <= ct.len()
    &&& ct.take("application/json"@.len() as int) == "application/json"@
}

/// The step after the headers: `all` gates everything as REST; a JSON `POST`
/// needs its body read; other traffic passes under `mcp` and is gated as REST
/// under `auto`.
pub open spec fn headers_step(mode: ApplyTo, method: Seq<char>, content_type: Option<Seq<char>>) -> HeadersStep {
    match mode {
        ApplyTo::All => HeadersStep::Settled(Scope::Rest),
        ApplyTo::Mcp => if is_json_post(method, content_type) {
            HeadersStep::ReadBody
        } else {
            HeadersStep::Settled(Scope::Pass)
        },
        ApplyTo::Auto => if is_json_post(method, content_type) {
            HeadersStep::ReadBody
        } else {
            HeadersStep::Settled(Scope::Rest)
        },
    }
}

fn is_json_post_exec(method: &str, content_type: Option<&str>) -> (r: bool)
    ensures
        r == is_json_post(method@, crate::contract::opt_text(content_type)),
{
    let post = "POST".to_owned();
    let m = method.to_owned();
    if !(m == post) {
        return false;
    }
    match content_type {
        Some(ct) => {
            let c = chars_of(ct);
            let p = chars_of("application/json");
            starts_with_chars(&c, &p)
        },
        None => false,
    }
}

/// Decide, from the request method and content type, whether the policy applies,
/// or whether the body must be read first.
pub fn on_headers(config: &Config, method: &str, content_type: Option<&str>) -> (r: HeadersStep)
    ensures
        r == headers_step(
            crate::config::apply_to_of(*config),
            method@,
            crate::contract::opt_text(content_type),
        ),
{
    let mode = apply_to_mode(config);
    match mode {
        ApplyTo::All => HeadersStep::Settled(Scope::Rest),
        ApplyTo::Mcp => if is_json_post_exec(method, content_type) {
            HeadersStep::ReadBody
        } else {
            HeadersStep::Settled(Scope::Pass)
        },
        ApplyTo::Auto => if is_json_post_exec(method, content_type) {
            HeadersStep::ReadBody
        } else {
            HeadersStep::Settled(Scope::Rest)
        },
    }
}

/// What the policy reads from a JSON body.
#[derive(Debug, Clone)]
pub struct BodyFacts {
    /// The body is a JSON value with a `jsonrpc` member.
    pub jsonrpc: bool,
    /// The body's `method` member, where it is a JSON string.
    pub method: Option<String>,
}

pub open spec fn is_tools_call(method: Option<String>) -> bool {
    method matches Some(m) && m@ == "tools/call"@
}

/// The scope of a request whose body was read: under `mcp`, only a
/// `tools/call` is gated; under `auto`, a JSON-RPC message is gated only on
/// `tools/call` (the handshake passes) and any other body is gated as REST.
/// This follows the `applyTo` table over the older "fail-open on non-JSON"
/// note: under `auto`, a JSON `POST` whose body is not valid JSON is "anything
/// else" and is gated as REST; under `mcp` it passes.
pub open spec fn body_scope(mode: ApplyTo, facts: BodyFacts) -> Scope {
    match mode {
        ApplyTo::All => Scope::Rest,
        ApplyTo::Mcp => if is_tools_call(facts.method) {
            Scope::Mcp
        } else {
            Scope::Pass
        },
        ApplyTo::Auto => if !facts.jsonrpc {
            Scope::Rest
        } else if is_tools_call(facts.method) {
            Scope::Mcp
        } else {
            Scope::Pass
        },
    }
}

fn is_tools_call_exec(method: &Option<String>) -> (r: bool)
    ensures
        r == is_tools_call(*method),
{
    match method {
        Some(m) => {
            let t = "tools/call".to_owned();
            *m == t
        },
        None => false,
    }
}

/// The scope of a request whose body facts are known.
pub fn classify_body(config: &Config, facts: &BodyFacts) -> (r: Scope)
    ensures
        r == body_scope(crate::config::apply_to_of(*config), *facts),
{
    let mode = apply_to_mode(config);
    match mode {
        ApplyTo::All => Scope::Rest,
        ApplyTo::Mcp => if is_tools_call_exec(&facts.method) {
            Scope::Mcp
        } else {
            Scope::Pass
        },
        ApplyTo::Auto => if !facts.jsonrpc {
            Scope::Rest
        } else if is_tools_call_exec(&facts.method) {
            Scope::Mcp
        } else {
            Scope::Pass
        },
    }
}

/// The facts of a body whose JSON members are `members` (`None` when the body
/// is no JSON text): a `jsonrpc` member marks a JSON-RPC message; the method is
/// the `method` member where it is a JSON string.
pub open spec fn body_facts_match(members: Option<Map<Seq<char>, Option<Seq<char>>>>, facts: BodyFacts) -> bool {
    match members {
        None => !facts.jsonrpc && facts.method is None,
        Some(m) => {
            &&& facts.jsonrpc == m.dom().contains("jsonrpc"@)
            &&& match facts.method {
                Some(s) => m.dom().contains("method"@) && m["method"@] == Some(s@),
                None => !m.dom().contains("method"@) || m["method"@] is None,
            }
        },
    }
}

/// Read a request body as JSON: whether it is a JSON-RPC message, its method,
/// and its `id` (JSON `null` where there is none) to echo in a refusal.
pub fn inspect_body(body: &[u8]) -> (r: (BodyFacts, serde_json::Value))
    ensures
        body_facts_match(crate::json::json_text_members(body@), r.0),
        (match crate::json::json_text_members(body@) {
            Some(_) => match crate::json::json_text_member(body@, "id"@) {
                Some(x) => r.1 == x,
                None => crate::json::json_is_null(r.1),
            },
            None => crate::json::json_is_null(r.1),
        }),
{
    match parse_json(body) {
        None => (BodyFacts { jsonrpc: false, method: None }, json_null()),
        Some(v) => {
            let jsonrpc = json_get(&v, "jsonrpc").is_some();
            let method = match json_get(&v, "method") {
                Some(m) => json_as_str(m),
                None => None,
            };
            let id = match json_get(&v, "id") {
                Some(x) => json_clone(x),
                None => json_null(),
            };
            (BodyFacts { jsonrpc, method }, id)
        },
    }
}

/// Carried from the request to the response: emit deprecation headers?
#[derive(Debug, Clone)]
pub struct Deprecation {
    pub emit: bool,
    pub from_version: String,
    pub upgrade_to: String,
    pub sunset: String,
}

/// No deprecation headers.
pub open spec fn is_quiet(d: Deprecation) -> bool {
    &&& !d.emit
    &&& d.from_version@ == Seq::<char>::empty()
    &&& d.upgrade_to@ == Seq::<char>::empty()
    &&& d.sunset@ == Seq::<char>::empty()
}

impl Default for Deprecation {
    fn default() -> (r: Deprecation)
        ensures
            is_quiet(r),
    {
        Deprecation { emit: false, from_version: String::new(), upgrade_to: String::new(), sunset: String::new() }
    }
}

/// How a refusal is written.
#[derive(Debug, PartialEq, Eq, Structural, Clone, Copy)]
pub enum Envelope {
    /// A JSON-RPC error answering the request's `id`.
    JsonRpc,
    /// A plain JSON object.
    Plain,
}

/// Why a request is refused.
#[derive(Debug, PartialEq, Eq, Structural, Clone, Copy)]
pub enum Cause {
    /// The declared version is below the blocked threshold.
    BelowBlocked,
    /// The version is missing or unparseable for a governed contract, and the
    /// policy fails closed.
    MissingOrInvalid,
}

/// A refused request: HTTP 426 Upgrade Required with a machine-readable hint.
#[derive(Debug, Clone)]
pub struct Rejection {
    pub status: u16,
    /// The JSON-RPC error code of the refusal.
    pub code: i64,
    pub current: String,
    pub required: String,
    pub message: String,
    pub upgrade_hint: String,
    pub envelope: Envelope,
    pub cause: Cause,
}

pub open spec fn refusal_message(current: Seq<char>, required: Seq<char>) -> Seq<char> {
    "data-contract version '"@ + current + "' is not supported (must be >= "@ + required + ")"@
}

pub open spec fn upgrade_hint_text(required: Seq<char>) -> Seq<char> {
    "upgrade the data contract to >= "@ + required
}

/// `r` refuses the declared version `current` for being below `required`.
pub open spec fn is_refusal(
    r: Rejection,
    current: Seq<char>,
    required: Seq<char>,
    envelope: Envelope,
    cause: Cause,
) -> bool {
    &&& r.status == 426
    &&& r.code == -32010
    &&& r.current@ == current
    &&& r.required@ == required
    &&& r.message@ == refusal_message(current, required)
    &&& r.upgrade_hint@ == upgrade_hint_text(required)
    &&& r.envelope == envelope
    &&& r.cause == cause
}

/// The refusal of `current` for being below `required`.
pub fn upgrade_rejection(current: &str, required: &str, envelope: Envelope, cause: Cause) -> (r: Rejection)
    ensures
        is_refusal(r, current@, required@, envelope, cause),
{
    let mut message = "data-contract version '".to_owned();
    message.append(current);
    message.append("' is not supported (must be >= ");
    message.append(required);
    message.append(")");
    let mut hint = "upgrade the data contract to >= ".to_owned();
    hint.append(required);
    Rejection {
        status: 426,
        code: -32010,
        current: current.to_owned(),
        required: required.to_owned(),
        message,
        upgrade_hint: hint,
        envelope,
        cause,
    }
}

/// What is done with a request.
#[derive(Debug, Clone)]
pub enum RequestAction {
    /// Forward it, with the deprecation to stamp on its response.
    Continue(Deprecation),
    /// Refuse it.
    Block(Rejection),
    /// Forward it without deprecation headers, although its contract is
    /// governed and its version is missing or unparseable: the policy fails
    /// open (to be logged).
    FailOpen,
}

/// The text of the declared version, empty when none was declared.
pub open spec fn declared_text(version: Option<Seq<char>>) -> Seq<char> {
    match version {
        Some(v) => v,
        None => Seq::<char>::empty(),
    }
}

pub open spec fn envelope_of(scope: Scope) -> Envelope {
    if scope == Scope::Mcp {
        Envelope::JsonRpc
    } else {
        Envelope::Plain
    }
}

/// The verdict on a request for contract `id` declaring `version` under
/// `config`.
pub open spec fn request_verdict(config: Config, id: Seq<char>, version: Option<Seq<char>>) -> Decision {
    crate::contract::verdict(
        crate::config::resolved_blocked(config, id),
        crate::config::resolved_deprecated(config, id),
        version,
    )
}

/// `a` is what the policy does with a request in `scope` for contract `id`
/// declaring `version`: ungated traffic, ungoverned contracts and current
/// versions pass; a deprecated version passes with deprecation headers; a
/// version below the blocked threshold is refused; a missing or unparseable
/// version is refused when failing closed and let through, flagged
/// `FailOpen`, when failing open.
pub open spec fn is_request_action(
    config: Config,
    scope: Scope,
    id: Seq<char>,
    version: Option<Seq<char>>,
    a: RequestAction,
) -> bool {
    let blocked = crate::config::resolved_blocked(config, id);
    let current = declared_text(version);
    if scope == Scope::Pass {
        a matches RequestAction::Continue(d) && is_quiet(d)
    } else {
        match request_verdict(config, id, version) {
            Decision::Deprecated => a matches RequestAction::Continue(d) && {
                &&& d.emit
                &&& d.from_version@ == current
                &&& d.upgrade_to@ == crate::config::resolved_deprecated(config, id)
                &&& d.sunset@ == crate::config::resolved_sunset(config, id)
            },
            Decision::Blocked => a matches RequestAction::Block(r) && is_refusal(
                r,
                current,
                blocked,
                envelope_of(scope),
                Cause::BelowBlocked,
            ),
            Decision::Invalid => if crate::config::fails_closed(config) {
                a matches RequestAction::Block(r) && is_refusal(
                    r,
                    current,
                    blocked,
                    envelope_of(scope),
                    Cause::MissingOrInvalid,
                )
            } else {
                a is FailOpen
            },
            _ => a matches RequestAction::Continue(d) && is_quiet(d),
        }
    }
}

/// Gate a request in `scope` for contract `contract_id` declaring `version`.
pub fn decide_request(config: &Config, scope: Scope, contract_id: &str, version: Option<&str>) -> (r: RequestAction)
    ensures
        is_request_action(*config, scope, contract_id@, crate::contract::opt_text(version), r),
{
    if scope == Scope::Pass {
        return RequestAction::Continue(Deprecation::default());
    }
    let rules = resolve_for(config, contract_id);
    let current: &str = match version {
        Some(v) => v,
        None => {
            proof {
                reveal_strlit("");
            }
            ""
        },
    };
    let envelope = if scope == Scope::Mcp {
        Envelope::JsonRpc
    } else {
        Envelope::Plain
    };
    assert(current@ == declared_text(crate::contract::opt_text(version)));
    assert(envelope == envelope_of(scope));
    let d = evaluate(&rules, version);
    assert(d == request_verdict(*config, contract_id@, crate::contract::opt_text(version)));
    match d {
        Decision::NotGoverned | Decision::Allow => RequestAction::Continue(Deprecation::default()),
        Decision::Deprecated => RequestAction::Continue(
            Deprecation {
                emit: true,
                from_version: current.to_owned(),
                upgrade_to: rules.deprecated_below.clone(),
                sunset: rules.sunset.clone(),
            },
        ),
        Decision::Blocked => RequestAction::Block(
            upgrade_rejection(current, rules.blocked_below.as_str(), envelope, Cause::BelowBlocked),
        ),
        Decision::Invalid => {
            if is_fail_closed(config) {
                RequestAction::Block(
                    upgrade_rejection(current, rules.blocked_below.as_str(), envelope, Cause::MissingOrInvalid),
                )
            } else {
                RequestAction::FailOpen
            }
        },
    }
}

pub open spec fn advice_text(d: Deprecation) -> Seq<char> {
    "contract version "@ + d.from_version@ + " is deprecated; upgrade to >= "@ + d.upgrade_to@
}

/// `hs` are the response headers for `d`: none unless it emits; then
/// `deprecation: true`, the advice, and `sunset` where a date is set.
pub open spec fn is_deprecation_headers(d: Deprecation, hs: Seq<(String, String)>) -> bool {
    if !d.emit {
        hs.len() == 0
    } else {
        &&& hs.len() == if crate::text::is_blank(d.sunset@) { 2int } else { 3int }
        &&& hs[0].0@ == "deprecation"@
        &&& hs[0].1@ == "true"@
        &&& hs[1].0@ == "x-data-contract-advice"@
        &&& hs[1].1@ == advice_text(d)
        &&& !crate::text::is_blank(d.sunset@) ==> hs[2].0@ == "sunset"@ && hs[2].1@ == d.sunset@
    }
}

/// The response headers for a request carried as `d` (RFC 9745
/// `Deprecation`, an advisory upgrade hint, RFC 8594 `Sunset` if configured).
pub fn deprecation_headers(d: &Deprecation) -> (r: Vec<(String, String)>)
    ensures
        is_deprecation_headers(*d, r@),
{
    let mut hs: Vec<(String, String)> = Vec::new();
    if !d.emit {
        return hs;
    }
    hs.push(("deprecation".to_owned(), "true".to_owned()));
    let mut advice = "contract version ".to_owned();
    advice.append(d.from_version.as_str());
    advice.append(" is deprecated; upgrade to >= ");
    advice.append(d.upgrade_to.as_str());
    hs.push(("x-data-contract-advice".to_owned(), advice));
    if !is_blank_str(d.sunset.as_str()) {
        hs.push(("sunset".to_owned(), d.sunset.clone()));
    }
    hs
}

/// A request is refused exactly when it is gated and its declared version is
/// below the blocked threshold, or missing or unparseable while failing
/// closed; every refusal is HTTP 426. It is let through as `FailOpen` exactly
/// when it is gated and its version is missing or unparseable while failing
/// open.
pub proof fn lemma_refusal(config: Config, scope: Scope, id: Seq<char>, version: Option<Seq<char>>, a: RequestAction)
    requires
        is_request_action(config, scope, id, version, a),
    ensures
        (a is Block) <==> (scope != Scope::Pass && (request_verdict(config, id, version) == Decision::Blocked || (
        request_verdict(config, id, version) == Decision::Invalid && crate::config::fails_closed(config)))),
        a matches RequestAction::Block(r) ==> r.status == 426,
        (a is FailOpen) <==> (scope != Scope::Pass && request_verdict(config, id, version) == Decision::Invalid
            && !crate::config::fails_closed(config)),
{
}

/// Deprecation headers reach the response exactly when a gated request
/// declares a deprecated version, and `Sunset` only where the contract has a
/// sunset date.
pub proof fn lemma_deprecation_headers(
    config: Config,
    scope: Scope,
    id: Seq<char>,
    version: Option<Seq<char>>,
    d: Deprecation,
    hs: Seq<(String, String)>,
)
    requires
        is_request_action(config, scope, id, version, RequestAction::Continue(d)),
        is_deprecation_headers(d, hs),
    ensures
        hs.len() > 0 <==> (scope != Scope::Pass && request_verdict(config, id, version) == Decision::Deprecated),
        hs.len() == 3 <==> (scope != Scope::Pass && request_verdict(config, id, version) == Decision::Deprecated
            && !crate::text::is_blank(crate::config::resolved_sunset(config, id))),
{
}

/// Under `auto` and `mcp`, a body is gated as MCP only when its method is
/// exactly `tools/call`; a JSON-RPC body with any other method passes.
pub proof fn lemma_only_tools_call_gated(mode: ApplyTo, facts: BodyFacts)
    requires
        mode != ApplyTo::All,
    ensures
        body_scope(mode, facts) == Scope::Mcp ==> (facts.method is Some && facts.method->0@ == "tools/call"@),
        (facts.jsonrpc && facts.method is Some && facts.method->0@ != "tools/call"@) ==> body_scope(mode, facts)
            == Scope::Pass,
        (facts.jsonrpc && facts.method is Some && facts.method->0@ == "tools/call"@) ==> body_scope(mode, facts)
            == Scope::Mcp,
{
}

/// A gated request for a contract without an entry of its own is judged on
/// the global thresholds: a version below a parsing global `blockedBelow` is
/// refused with 426 and that threshold as the required version; otherwise a
/// version below a parsing global `deprecatedBelow` is let through with
/// deprecation headers naming it.
pub proof fn lemma_global_fallback(
    config: Config,
    scope: Scope,
    id: Seq<char>,
    text: Seq<char>,
    a: RequestAction,
)
    requires
        is_request_action(config, scope, id, Some(text), a),
        scope != Scope::Pass,
        crate::config::entry_for(config, id) is None,
        crate::semver::parsed_version(text) is Some,
    ensures
        ({
            let v = crate::semver::parsed_version(text)->0;
            let gb = crate::config::text_or_empty(config.blocked_below);
            let gd = crate::config::text_or_empty(config.deprecated_below);
            let under_blocked = crate::semver::parsed_version(gb) is Some && crate::semver::version_lt(
                v,
                crate::semver::parsed_version(gb)->0,
            );
            let under_deprecated = crate::semver::parsed_version(gd) is Some && crate::semver::version_lt(
                v,
                crate::semver::parsed_version(gd)->0,
            );
            &&& under_blocked ==> (a is Block && a->Block_0.status == 426 && a->Block_0.cause == Cause::BelowBlocked
                && a->Block_0.required@ == gb && a->Block_0.current@ == text)
            &&& (!under_blocked && under_deprecated) ==> (a is Continue && a->Continue_0.emit
                && a->Continue_0.from_version@ == text && a->Continue_0.upgrade_to@ == gd)
        }),
{
    crate::config::lemma_resolved_thresholds(config, id);
    crate::contract::lemma_verdict_cases(
        crate::config::resolved_blocked(config, id),
        crate::config::resolved_deprecated(config, id),
        Some(text),
    );
}

} // verus!
