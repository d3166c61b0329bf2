//! Configuration for security modules.

use vstd::prelude::*;
use std::collections::HashMap;

verus! {

/// The JSON value type of `serde_json`, carried in the custom settings of
/// a module configuration.
#[verifier::external_type_specification]
#[verifier::external_body]
pub struct ExJsonValue(serde_json::Value);

/// Configuration for security modules.
#[derive(Debug)]
pub struct ModuleConfig {
    pub timeout_ms: u64,
    pub concurrent_scans: usize,
    pub retry_count: u32,
    pub custom: HashMap<String, serde_json::Value>,
}

impl Default for ModuleConfig {
    /// A 5000 ms timeout, 10 concurrent scans, 3 retries and no custom
    /// settings.
    fn default() -> (r: Self)
        ensures
            r.timeout_ms == 5000,
            r.concurrent_scans == 10,
            r.retry_count == 3,
            r.custom@ == Map::<String, serde_json::Value>::empty(),
    {
        ModuleConfig { timeout_ms: 5000, concurrent_scans: 10, retry_count: 3, custom: HashMap::new() }
    }
}

impl Clone for ModuleConfig {
    /// A configuration with the same settings.
    fn clone(&self) -> (r: Self)
        ensures
            r.timeout_ms == self.timeout_ms,
            r.concurrent_scans == self.concurrent_scans,
            r.retry_count == self.retry_count,
            r.custom@ == self.custom@,
    {
        ModuleConfig {
            timeout_ms: self.timeout_ms,
            concurrent_scans: self.concurrent_scans,
            retry_count: self.retry_count,
            custom: self.custom.clone(),
        }
    }
}

} // verus!
