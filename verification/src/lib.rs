//! Data-contract version gate: reads the data-contract id and version a
//! request declares and gates the version against per-contract (or global)
//! block / deprecate thresholds. Below `blockedBelow` a request is refused
//! (HTTP 426 with an upgrade hint); below `deprecatedBelow` it is let through
//! with `Deprecation` / `Sunset` response headers; otherwise it is let through.
pub mod config;
pub mod contract;
pub mod filter;
mod json;
pub mod semver;
pub mod text;
