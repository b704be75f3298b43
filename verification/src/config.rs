//! Policy configuration and the thresholds it gives each contract.
use vstd::prelude::*;

use crate::contract::{resolve_rules, Rules};

verus! {

/// A per-contract override of the global thresholds.
#[derive(Clone, Debug)]
pub struct Contracts0Config {
    pub blocked_below: Option<String>,
    pub contract: String,
    pub deprecated_below: Option<String>,
    pub sunset: Option<String>,
}

/// The policy configuration.
#[derive(Clone, Debug)]
pub struct Config {
    pub apply_to: Option<String>,
    pub blocked_below: Option<String>,
    pub contract_header: Option<String>,
    pub contracts: Option<Vec<Contracts0Config>>,
    pub deprecated_below: Option<String>,
    pub fail_mode: Option<String>,
    pub version_header: Option<String>,
}

/// The text of an optional `String`.
pub open spec fn opt_string_text(o: Option<String>) -> Option<Seq<char>> {
    match o {
        Some(s) => Some(s@),
        None => None,
    }
}

/// The text of an optional `String`, empty when absent.
pub open spec fn text_or_empty(o: Option<String>) -> Seq<char> {
    match o {
        Some(s) => s@,
        None => Seq::<char>::empty(),
    }
}

/// The first entry of `list` for the contract `id`, if any.
pub open spec fn find_entry(list: Seq<Contracts0Config>, id: Seq<char>) -> Option<Contracts0Config>
    decreases list.len(),
{
    if list.len() == 0 {
        None
    } else if list[0].contract@ == id {
        Some(list[0])
    } else {
        find_entry(list.drop_first(), id)
    }
}

/// The per-contract entry that applies to contract `id`, if any.
pub open spec fn entry_for(config: Config, id: Seq<char>) -> Option<Contracts0Config> {
    match config.contracts {
        Some(list) => find_entry(list@, id),
        None => None,
    }
}

/// The blocked threshold for contract `id`: its entry's, unless absent or
/// blank, over the global one.
pub open spec fn resolved_blocked(config: Config, id: Seq<char>) -> Seq<char> {
    let g = text_or_empty(config.blocked_below);
    match entry_for(config, id) {
        Some(c) => crate::contract::pick(opt_string_text(c.blocked_below), g),
        None => g,
    }
}

/// The deprecated threshold for contract `id`: its entry's, unless absent or
/// blank, over the global one.
pub open spec fn resolved_deprecated(config: Config, id: Seq<char>) -> Seq<char> {
    let g = text_or_empty(config.deprecated_below);
    match entry_for(config, id) {
        Some(c) => crate::contract::pick(opt_string_text(c.deprecated_below), g),
        None => g,
    }
}

/// The sunset date for contract `id`: its entry's, empty without one.
pub open spec fn resolved_sunset(config: Config, id: Seq<char>) -> Seq<char> {
    match entry_for(config, id) {
        Some(c) => text_or_empty(c.sunset),
        None => Seq::<char>::empty(),
    }
}

fn text_of(o: &Option<String>) -> (r: &str)
    ensures
        r@ == text_or_empty(*o),
{
    match o {
        Some(s) => s.as_str(),
        None => {
            proof {
                reveal_strlit("");
            }
            ""
        },
    }
}

fn opt_str(o: &Option<String>) -> (r: Option<&str>)
    ensures
        crate::contract::opt_text(r) == opt_string_text(*o),
{
    match o {
        Some(s) => Some(s.as_str()),
        None => None,
    }
}

/// The thresholds for `contract_id`: the first per-contract entry with that id
/// overrides the global fallback.
pub fn resolve_for(config: &Config, contract_id: &str) -> (r: Rules)
    ensures
        r.blocked_below@ == resolved_blocked(*config, contract_id@),
        r.deprecated_below@ == resolved_deprecated(*config, contract_id@),
        r.sunset@ == resolved_sunset(*config, contract_id@),
{
    let g_blocked = text_of(&config.blocked_below);
    let g_dep = text_of(&config.deprecated_below);
    let id = contract_id.to_owned();
    if let Some(list) = &config.contracts {
        let n = list.len();
        let mut i: usize = 0;
        assert(list@.skip(0) =~= list@);
        while i < n
            invariant
                n == list@.len(),
                i <= n,
                id@ == contract_id@,
                g_blocked@ == text_or_empty(config.blocked_below),
                g_dep@ == text_or_empty(config.deprecated_below),
                entry_for(*config, id@) == find_entry(list@, id@),
                find_entry(list@, id@) == find_entry(list@.skip(i as int), id@),
            decreases n - i,
        {
            assert(list@.skip(i as int).drop_first() =~= list@.skip(i + 1));
            let c = &list[i];
            if c.contract == id {
                assert(list@.skip(i as int)[0] == list@[i as int]);
                return resolve_rules(
                    g_blocked,
                    g_dep,
                    opt_str(&c.blocked_below),
                    opt_str(&c.deprecated_below),
                    opt_str(&c.sunset),
                );
            }
            i = i + 1;
        }
    }
    resolve_rules(g_blocked, g_dep, None, None, None)
}

/// The header that carries the contract id (`x-data-contract` by default).
pub fn contract_header_name(config: &Config) -> (r: &str)
    ensures
        r@ == match config.contract_header {
            Some(h) => h@,
            None => "x-data-contract"@,
        },
{
    match &config.contract_header {
        Some(h) => h.as_str(),
        None => "x-data-contract",
    }
}

/// The header that carries the declared version (`x-data-contract-version`
/// by default).
pub fn version_header_name(config: &Config) -> (r: &str)
    ensures
        r@ == match config.version_header {
            Some(h) => h@,
            None => "x-data-contract-version"@,
        },
{
    match &config.version_header {
        Some(h) => h.as_str(),
        None => "x-data-contract-version",
    }
}

/// Fail-closed (the default) unless `failMode` is exactly `open`.
pub open spec fn fails_closed(config: Config) -> bool {
    !(config.fail_mode matches Some(m) && m@ == "open"@)
}

/// Whether a missing or unparseable version of a governed contract is
/// rejected.
pub fn is_fail_closed(config: &Config) -> (r: bool)
    ensures
        r == fails_closed(*config),
{
    match &config.fail_mode {
        Some(m) => {
            let open = "open".to_owned();
            !(*m == open)
        },
        None => true,
    }
}

/// Which traffic the policy governs.
#[derive(Debug, PartialEq, Eq, Structural, Clone, Copy)]
pub enum ApplyTo {
    /// Inspect the body: MCP JSON-RPC is gated only on `tools/call`; any other
    /// request is gated on the headers as REST/HTTP.
    Auto,
    /// Gate only MCP `tools/call`.
    Mcp,
    /// Gate every request on the headers, without reading the body.
    All,
}

/// `applyTo` read from the configuration: `mcp`, `all`, otherwise `auto`.
pub open spec fn apply_to_of(config: Config) -> ApplyTo {
    match config.apply_to {
        Some(a) => if a@ == "mcp"@ {
            ApplyTo::Mcp
        } else if a@ == "all"@ {
            ApplyTo::All
        } else {
            ApplyTo::Auto
        },
        None => ApplyTo::Auto,
    }
}

pub fn apply_to_mode(config: &Config) -> (r: ApplyTo)
    ensures
        r == apply_to_of(*config),
{
    match &config.apply_to {
        Some(a) => {
            let mcp = "mcp".to_owned();
            let all = "all".to_owned();
            if *a == mcp {
                ApplyTo::Mcp
            } else if *a == all {
                ApplyTo::All
            } else {
                ApplyTo::Auto
            }
        },
        None => ApplyTo::Auto,
    }
}

/// The entry for a contract is the first one with that id, and there is none
/// when no entry has that id.
pub proof fn lemma_first_entry(list: Seq<Contracts0Config>, id: Seq<char>, i: int)
    ensures
        (0 <= i < list.len() && list[i].contract@ == id && forall|j: int| 0 <= j < i ==> #[trigger] list[j].contract@ != id)
            ==> find_entry(list, id) == Some(list[i]),
        (forall|j: int| 0 <= j < list.len() ==> #[trigger] list[j].contract@ != id) ==> find_entry(list, id) is None,
    decreases list.len(),
{
    if list.len() > 0 {
        lemma_first_entry(list.drop_first(), id, i - 1);
        if 0 < i < list.len() && list[i].contract@ == id && forall|j: int| 0 <= j < i ==> #[trigger] list[j].contract@ != id {
            assert(list[0].contract@ != id);
            assert(list.drop_first()[i - 1] == list[i]);
            assert forall|j: int| 0 <= j < i - 1 implies #[trigger] list.drop_first()[j].contract@ != id by {
                assert(list.drop_first()[j] == list[j + 1]);
            }
        }
        if forall|j: int| 0 <= j < list.len() ==> #[trigger] list[j].contract@ != id {
            assert(list[0].contract@ != id);
            assert forall|j: int| 0 <= j < list.len() - 1 implies #[trigger] list.drop_first()[j].contract@ != id by {
                assert(list.drop_first()[j] == list[j + 1]);
            }
        }
    }
}

/// The thresholds a contract gets: without an entry of its own, the global
/// ones (empty where absent) and no sunset; with one, each threshold is the
/// entry's where present and not blank, otherwise the global one, and the
/// sunset is the entry's.
pub proof fn lemma_resolved_thresholds(config: Config, id: Seq<char>)
    ensures
        entry_for(config, id) is None ==> {
            &&& resolved_blocked(config, id) == text_or_empty(config.blocked_below)
            &&& resolved_deprecated(config, id) == text_or_empty(config.deprecated_below)
            &&& resolved_sunset(config, id) == Seq::<char>::empty()
        },
        entry_for(config, id) is Some ==> ({
            let c = entry_for(config, id)->0;
            let own_blocked = c.blocked_below is Some && !crate::text::is_blank(c.blocked_below->0@);
            let own_deprecated = c.deprecated_below is Some && !crate::text::is_blank(c.deprecated_below->0@);
            &&& own_blocked ==> resolved_blocked(config, id) == c.blocked_below->0@
            &&& !own_blocked ==> resolved_blocked(config, id) == text_or_empty(config.blocked_below)
            &&& own_deprecated ==> resolved_deprecated(config, id) == c.deprecated_below->0@
            &&& !own_deprecated ==> resolved_deprecated(config, id) == text_or_empty(config.deprecated_below)
            &&& resolved_sunset(config, id) == text_or_empty(c.sunset)
        }),
{
}

} // verus!
