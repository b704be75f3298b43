use data_contract_version_gate::config::{
    apply_to_mode, contract_header_name, is_fail_closed, resolve_for, version_header_name, ApplyTo, Config,
    Contracts0Config,
};
use data_contract_version_gate::filter::{
    classify_body, decide_request, deprecation_headers, inspect_body, on_headers, upgrade_rejection, BodyFacts,
    Cause, Deprecation, Envelope, HeadersStep, RequestAction, Scope,
};

fn entry(contract: &str, b: Option<&str>, d: Option<&str>, s: Option<&str>) -> Contracts0Config {
    Contracts0Config {
        blocked_below: b.map(String::from),
        contract: contract.to_string(),
        deprecated_below: d.map(String::from),
        sunset: s.map(String::from),
    }
}

fn config(apply_to: Option<&str>, fail_mode: Option<&str>, contracts: Vec<Contracts0Config>) -> Config {
    Config {
        apply_to: apply_to.map(String::from),
        blocked_below: None,
        contract_header: None,
        contracts: Some(contracts),
        deprecated_below: None,
        fail_mode: fail_mode.map(String::from),
        version_header: None,
    }
}

fn orders() -> Config {
    config(None, Some("closed"), vec![entry("orders", Some("2.0.0"), Some("3.0.0"), None)])
}

#[test]
fn header_names_default_and_configured() {
    let mut c = orders();
    assert_eq!(contract_header_name(&c), "x-data-contract");
    assert_eq!(version_header_name(&c), "x-data-contract-version");
    c.contract_header = Some("x-dc".to_string());
    c.version_header = Some("x-dcv".to_string());
    assert_eq!(contract_header_name(&c), "x-dc");
    assert_eq!(version_header_name(&c), "x-dcv");
}

#[test]
fn fail_mode_closed_unless_open() {
    assert!(is_fail_closed(&config(None, None, vec![])));
    assert!(is_fail_closed(&config(None, Some("closed"), vec![])));
    assert!(is_fail_closed(&config(None, Some("OPEN"), vec![])));
    assert!(!is_fail_closed(&config(None, Some("open"), vec![])));
}

#[test]
fn apply_to_modes() {
    assert_eq!(apply_to_mode(&config(None, None, vec![])), ApplyTo::Auto);
    assert_eq!(apply_to_mode(&config(Some("auto"), None, vec![])), ApplyTo::Auto);
    assert_eq!(apply_to_mode(&config(Some("mcp"), None, vec![])), ApplyTo::Mcp);
    assert_eq!(apply_to_mode(&config(Some("all"), None, vec![])), ApplyTo::All);
    assert_eq!(apply_to_mode(&config(Some("whatever"), None, vec![])), ApplyTo::Auto);
}

#[test]
fn resolve_for_first_matching_entry_wins() {
    let mut c = config(
        None,
        None,
        vec![
            entry("billing", Some("9.0.0"), None, None),
            entry("orders", Some("1.5.0"), None, Some("Wed, 01 Jan 2027 00:00:00 GMT")),
            entry("orders", Some("7.0.0"), Some("8.0.0"), None),
        ],
    );
    c.blocked_below = Some("1.0.0".to_string());
    c.deprecated_below = Some("2.0.0".to_string());
    let r = resolve_for(&c, "orders");
    assert_eq!(r.blocked_below, "1.5.0");
    assert_eq!(r.deprecated_below, "2.0.0");
    assert_eq!(r.sunset, "Wed, 01 Jan 2027 00:00:00 GMT");
    let g = resolve_for(&c, "unknown");
    assert_eq!(g.blocked_below, "1.0.0");
    assert_eq!(g.deprecated_below, "2.0.0");
    assert_eq!(g.sunset, "");
}

#[test]
fn resolve_for_without_any_threshold() {
    let c = config(None, None, vec![]);
    let r = resolve_for(&c, "orders");
    assert_eq!(r.blocked_below, "");
    assert_eq!(r.deprecated_below, "");
    assert!(!r.is_governed());
}

#[test]
fn on_headers_by_mode() {
    let auto = config(None, None, vec![]);
    let mcp = config(Some("mcp"), None, vec![]);
    let all = config(Some("all"), None, vec![]);
    let json = Some("application/json; charset=utf-8");
    assert_eq!(on_headers(&auto, "POST", json), HeadersStep::ReadBody);
    assert_eq!(on_headers(&mcp, "POST", json), HeadersStep::ReadBody);
    assert_eq!(on_headers(&all, "POST", json), HeadersStep::Settled(Scope::Rest));
    assert_eq!(on_headers(&auto, "GET", None), HeadersStep::Settled(Scope::Rest));
    assert_eq!(on_headers(&mcp, "GET", None), HeadersStep::Settled(Scope::Pass));
    assert_eq!(on_headers(&mcp, "POST", Some("text/plain")), HeadersStep::Settled(Scope::Pass));
    assert_eq!(on_headers(&mcp, "POST", None), HeadersStep::Settled(Scope::Pass));
    assert_eq!(on_headers(&mcp, "post", json), HeadersStep::Settled(Scope::Pass));
    assert_eq!(on_headers(&all, "GET", None), HeadersStep::Settled(Scope::Rest));
}

#[test]
fn inspect_body_reads_json_rpc() {
    let (facts, id) =
        inspect_body(br#"{"jsonrpc":"2.0","id":2,"method":"tools/call","params":{"name":"query_orders"}}"#);
    assert!(facts.jsonrpc);
    assert_eq!(facts.method.as_deref(), Some("tools/call"));
    assert_eq!(id, serde_json::Value::from(2));

    let (_, id) = inspect_body(br#"{"jsonrpc":"2.0","id":{"n":[1,2]},"method":"tools/call"}"#);
    assert_eq!(id, serde_json::from_str::<serde_json::Value>(r#"{"n":[1,2]}"#).unwrap());
    let (_, id) = inspect_body(br#"{"jsonrpc":"2.0","method":"tools/call"}"#);
    assert_eq!(id, serde_json::Value::Null);
}

#[test]
fn inspect_body_non_json_and_odd_shapes() {
    let (facts, id) = inspect_body(b"not json");
    assert!(!facts.jsonrpc);
    assert_eq!(facts.method, None);
    assert_eq!(id, serde_json::Value::Null);

    let (facts, id) = inspect_body(br#"{"jsonrpc":"2.0","method":7}"#);
    assert!(facts.jsonrpc);
    assert_eq!(facts.method, None);
    assert_eq!(id, serde_json::Value::Null);

    let (facts, _) = inspect_body(br#"["tools/call"]"#);
    assert!(!facts.jsonrpc);
    assert_eq!(facts.method, None);

    let (facts, id) = inspect_body(br#"{"method":"initialize","id":"abc"}"#);
    assert!(!facts.jsonrpc);
    assert_eq!(facts.method.as_deref(), Some("initialize"));
    assert_eq!(id, serde_json::Value::from("abc"));
}

#[test]
fn classify_body_by_mode() {
    let auto = config(None, None, vec![]);
    let mcp = config(Some("mcp"), None, vec![]);
    let call = BodyFacts { jsonrpc: true, method: Some("tools/call".to_string()) };
    let init = BodyFacts { jsonrpc: true, method: Some("initialize".to_string()) };
    let plain = BodyFacts { jsonrpc: false, method: None };
    let bare_call = BodyFacts { jsonrpc: false, method: Some("tools/call".to_string()) };
    assert_eq!(classify_body(&auto, &call), Scope::Mcp);
    assert_eq!(classify_body(&auto, &init), Scope::Pass);
    assert_eq!(classify_body(&auto, &plain), Scope::Rest);
    assert_eq!(classify_body(&auto, &bare_call), Scope::Rest);
    assert_eq!(classify_body(&mcp, &call), Scope::Mcp);
    assert_eq!(classify_body(&mcp, &bare_call), Scope::Mcp);
    assert_eq!(classify_body(&mcp, &init), Scope::Pass);
    assert_eq!(classify_body(&mcp, &plain), Scope::Pass);
}

fn is_quiet(d: &Deprecation) -> bool {
    !d.emit && d.from_version.is_empty() && d.upgrade_to.is_empty() && d.sunset.is_empty()
}

#[test]
fn decide_request_current_version_passes() {
    match decide_request(&orders(), Scope::Mcp, "orders", Some("3.1.0")) {
        RequestAction::Continue(d) => assert!(is_quiet(&d)),
        _ => panic!("current version must pass"),
    }
}

#[test]
fn decide_request_blocked_version_refused() {
    match decide_request(&orders(), Scope::Mcp, "orders", Some("1.5.0")) {
        RequestAction::Block(r) => {
            assert_eq!(r.status, 426);
            assert_eq!(r.code, -32010);
            assert_eq!(r.current, "1.5.0");
            assert_eq!(r.required, "2.0.0");
            assert_eq!(r.message, "data-contract version '1.5.0' is not supported (must be >= 2.0.0)");
            assert_eq!(r.upgrade_hint, "upgrade the data contract to >= 2.0.0");
            assert_eq!(r.envelope, Envelope::JsonRpc);
            assert_eq!(r.cause, Cause::BelowBlocked);
        }
        _ => panic!("blocked version must be refused"),
    }
    match decide_request(&orders(), Scope::Rest, "orders", Some("1.5.0")) {
        RequestAction::Block(r) => assert_eq!(r.envelope, Envelope::Plain),
        _ => panic!("blocked version must be refused"),
    }
}

#[test]
fn decide_request_deprecated_version_stamped() {
    let mut c = orders();
    c.contracts.as_mut().unwrap()[0].sunset = Some("Wed, 01 Jan 2027 00:00:00 GMT".to_string());
    match decide_request(&c, Scope::Rest, "orders", Some("2.4.0")) {
        RequestAction::Continue(d) => {
            assert!(d.emit);
            assert_eq!(d.from_version, "2.4.0");
            assert_eq!(d.upgrade_to, "3.0.0");
            assert_eq!(d.sunset, "Wed, 01 Jan 2027 00:00:00 GMT");
            let hs = deprecation_headers(&d);
            assert_eq!(hs.len(), 3);
            assert_eq!(hs[0], ("deprecation".to_string(), "true".to_string()));
            assert_eq!(
                hs[1],
                (
                    "x-data-contract-advice".to_string(),
                    "contract version 2.4.0 is deprecated; upgrade to >= 3.0.0".to_string()
                )
            );
            assert_eq!(hs[2], ("sunset".to_string(), "Wed, 01 Jan 2027 00:00:00 GMT".to_string()));
        }
        _ => panic!("deprecated version must pass"),
    }
}

#[test]
fn decide_request_missing_version_fail_closed_and_open() {
    match decide_request(&orders(), Scope::Mcp, "orders", None) {
        RequestAction::Block(r) => {
            assert_eq!(r.current, "");
            assert_eq!(r.message, "data-contract version '' is not supported (must be >= 2.0.0)");
            assert_eq!(r.cause, Cause::MissingOrInvalid);
        }
        _ => panic!("missing version must be refused when failing closed"),
    }
    let open = config(None, Some("open"), vec![entry("orders", Some("2.0.0"), Some("3.0.0"), None)]);
    match decide_request(&open, Scope::Mcp, "orders", Some("garbage")) {
        RequestAction::FailOpen => {}
        _ => panic!("failing open lets it through, flagged"),
    }
    match decide_request(&open, Scope::Mcp, "orders", None) {
        RequestAction::FailOpen => {}
        _ => panic!("failing open lets a missing version through, flagged"),
    }
    match decide_request(&open, Scope::Mcp, "orders", Some("3.1.0")) {
        RequestAction::Continue(d) => assert!(is_quiet(&d)),
        _ => panic!("a current version passes quietly"),
    }
    match decide_request(&orders(), Scope::Rest, "orders", Some("garbage")) {
        RequestAction::Block(r) => {
            assert_eq!(r.current, "garbage");
            assert_eq!(r.cause, Cause::MissingOrInvalid);
        }
        _ => panic!("bad version must be refused when failing closed"),
    }
}

#[test]
fn decide_request_ungoverned_and_pass_scope() {
    match decide_request(&orders(), Scope::Mcp, "billing", None) {
        RequestAction::Continue(d) => assert!(is_quiet(&d)),
        _ => panic!("ungoverned contract passes"),
    }
    match decide_request(&orders(), Scope::Pass, "orders", Some("0.1.0")) {
        RequestAction::Continue(d) => assert!(is_quiet(&d)),
        _ => panic!("ungated traffic passes"),
    }
}

#[test]
fn deprecation_headers_without_sunset_or_emit() {
    let d = Deprecation {
        emit: true,
        from_version: "1.0".to_string(),
        upgrade_to: "2.0".to_string(),
        sunset: "  ".to_string(),
    };
    let hs = deprecation_headers(&d);
    assert_eq!(hs.len(), 2);
    assert_eq!(hs[1].1, "contract version 1.0 is deprecated; upgrade to >= 2.0");
    assert!(deprecation_headers(&Deprecation::default()).is_empty());
}

#[test]
fn upgrade_rejection_text() {
    let r = upgrade_rejection("0.9", "1.0.0", Envelope::Plain, Cause::BelowBlocked);
    assert_eq!(r.status, 426);
    assert_eq!(r.message, "data-contract version '0.9' is not supported (must be >= 1.0.0)");
    assert_eq!(r.upgrade_hint, "upgrade the data contract to >= 1.0.0");
    assert_eq!(r.current, "0.9");
    assert_eq!(r.required, "1.0.0");
    assert_eq!(r.envelope, Envelope::Plain);
    assert_eq!(r.cause, Cause::BelowBlocked);
}
