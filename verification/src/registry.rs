//! The modules that the toolkit offers, looked up by name.

use vstd::prelude::*;
use crate::port_scanner::{common_ports, PortScanner};
use crate::text::str_equal;

verus! {

/// The names of the registered modules: the port scanner alone.
pub fn module_names() -> (r: Vec<&'static str>)
    ensures
        r@.len() == 1,
        r@[0]@ == "port_scanner"@,
{
    let mut names: Vec<&'static str> = Vec::new();
    names.push("port_scanner");
    names
}

/// The module registered under `name`, freshly built: the port scanner
/// for `port_scanner`, nothing for any other name.
pub fn find_module(name: &str) -> (r: Option<PortScanner>)
    ensures
        r is Some <==> name@ == "port_scanner"@,
        r matches Some(s) ==> {
            &&& s.ports() == common_ports()
            &&& s.settings().timeout_ms == 5000
            &&& s.settings().concurrent_scans == 10
            &&& s.settings().retry_count == 3
            &&& s.settings().custom@ == Map::<String, serde_json::Value>::empty()
        },
{
    if str_equal(name, "port_scanner") {
        Some(PortScanner::new())
    } else {
        None
    }
}

} // verus!
