//! The port scanner module: which ports it probes, how it checks a target,
//! and how it turns probe outcomes into findings.

use vstd::prelude::*;
use vstd::string::*;
use crate::config::ModuleConfig;
use crate::error::ModuleError;
use crate::finding::{Finding, Severity};
use crate::module::SecurityModule;
use crate::scan::{ScanResult, ScanStatus};
use crate::target::Target;
use crate::text::{decimal, host_port, push_decimal, decimal_string};

verus! {

/// What `char::is_alphanumeric` returns for `c`: whether `c` is
/// alphabetic or numeric in the Unicode sense.
pub uninterp spec fn char_is_alphanumeric(c: char) -> bool;

/// `char::is_alphanumeric`. Its result is named, not described: Unicode's
/// alphabetic and numeric classes take tables to state.
#[verifier::external_body]
fn is_alphanumeric(c: char) -> (r: bool)
    ensures
        r == char_is_alphanumeric(c),
{
    c.is_alphanumeric()
}

/// The ports probed when a target names none: FTP, SSH, Telnet, SMTP,
/// HTTP, HTTPS, MySQL, PostgreSQL and HTTP-Alt.
pub open spec fn common_ports() -> Seq<u16> {
    seq![21u16, 22, 23, 25, 80, 443, 3306, 5432, 8080]
}

/// The service that usually listens on `port`.
pub open spec fn service_name(port: u16) -> Seq<char> {
    if port == 21 { "FTP"@ }
    else if port == 22 { "SSH"@ }
    else if port == 23 { "Telnet"@ }
    else if port == 25 { "SMTP"@ }
    else if port == 80 { "HTTP"@ }
    else if port == 443 { "HTTPS"@ }
    else if port == 3306 { "MySQL"@ }
    else if port == 5432 { "PostgreSQL"@ }
    else if port == 8080 { "HTTP-Alt"@ }
    else { "Unknown"@ }
}

/// A host character is allowed when it is alphanumeric (as the caller
/// found), a dot or a hyphen.
pub open spec fn host_char_allowed(c: char, alphanumeric: bool) -> bool {
    alphanumeric || c == '.' || c == '-'
}

/// The fault of a host name, given for each of its characters whether it
/// is alphanumeric: an empty host, or a character that is not allowed.
pub open spec fn host_fault(host: Seq<char>, alphanumeric: Seq<bool>) -> Option<Seq<char>> {
    if host.len() == 0 {
        Some("Host cannot be empty"@)
    } else if exists|i: int| 0 <= i < host.len() && !host_char_allowed(host[i], alphanumeric[i]) {
        Some("Invalid hostname or IP address"@)
    } else {
        None
    }
}

/// Whether each character of `s` is alphanumeric.
pub open spec fn alphanumeric_flags(s: Seq<char>) -> Seq<bool> {
    Seq::new(s.len(), |i: int| char_is_alphanumeric(s[i]))
}

/// The verdict on a host: `Ok` when it has no fault, else the fault as an
/// invalid-target error.
pub open spec fn host_verdict_holds(r: Result<(), ModuleError>, host: Seq<char>, alphanumeric: Seq<bool>) -> bool {
    match r {
        Ok(()) => host_fault(host, alphanumeric) is None,
        Err(e) => {
            &&& e is InvalidTarget
            &&& host_fault(host, alphanumeric) is Some
            &&& e.detail() == host_fault(host, alphanumeric)->0
        },
    }
}

/// The ports of the probes that found the port open, in probe order.
pub open spec fn open_ports(probes: Seq<(u16, bool)>) -> Seq<u16>
    decreases probes.len(),
{
    if probes.len() == 0 {
        Seq::empty()
    } else if probes.last().1 {
        open_ports(probes.drop_last()).push(probes.last().0)
    } else {
        open_ports(probes.drop_last())
    }
}

/// The finding that reports `port` open on `host`.
pub open spec fn is_open_port_finding(f: Finding, host: Seq<char>, port: u16) -> bool {
    &&& f.severity == Severity::Info
    &&& f.title@ == "Open Port: "@ + decimal(port as nat)
    &&& f.description@ == "Port "@ + decimal(port as nat) + " ("@ + service_name(port)
        + ") is open and accepting connections"@
    &&& f.affected_target@ == host + ":"@ + decimal(port as nat)
    &&& f.recommendation is None
    &&& f.metadata@ == Map::<Seq<char>, Seq<char>>::empty().insert("port"@, decimal(port as nat)).insert(
        "service"@,
        service_name(port),
    )
}

/// The ports reported open are exactly the ports of the probes that found
/// their port open, in probe order: closed probes report nothing.
pub proof fn law_open_ports_are_open_probes(probes: Seq<(u16, bool)>)
    ensures
        open_ports(probes) == probes.filter(|p: (u16, bool)| p.1).map_values(|p: (u16, bool)| p.0),
    decreases probes.len(),
{
    reveal_with_fuel(Seq::filter, 1);
    if probes.len() > 0 {
        let t = probes.drop_last();
        law_open_ports_are_open_probes(t);
        let ft = t.filter(|p: (u16, bool)| p.1);
        if probes.last().1 {
            assert(ft.push(probes.last()).map_values(|p: (u16, bool)| p.0)
                =~= ft.map_values(|p: (u16, bool)| p.0).push(probes.last().0));
        }
    }
}

/// The ports probed on a target that names `port`, for a scanner whose
/// common ports are `common`: the target's own port, else the common ports.
pub open spec fn ports_for(port: Option<u16>, common: Seq<u16>) -> Seq<u16> {
    match port {
        Some(p) => seq![p],
        None => common,
    }
}

/// The most probes run at once under a setting of `concurrent_scans`; a
/// setting of zero runs them one at a time.
pub open spec fn batch_limit(concurrent_scans: usize) -> nat {
    if concurrent_scans == 0 { 1 } else { concurrent_scans as nat }
}

/// The batches laid end to end.
pub open spec fn joined<T>(batches: Seq<Seq<T>>) -> Seq<T>
    decreases batches.len(),
{
    if batches.len() == 0 {
        Seq::empty()
    } else {
        joined(batches.drop_last()) + batches.last()
    }
}

/// `batches` splits `ports` in order into batches of at most `limit` ports,
/// none empty, each but the last holding exactly `limit`.
pub open spec fn is_batching(batches: Seq<Seq<u16>>, ports: Seq<u16>, limit: nat) -> bool {
    &&& joined(batches) == ports
    &&& forall|i: int| 0 <= i < batches.len() ==> 0 < #[trigger] batches[i].len() <= limit
    &&& forall|i: int| 0 <= i < batches.len() - 1 ==> #[trigger] batches[i].len() == limit
}

/// The views of a vector of batches.
pub open spec fn batch_views(batches: Seq<Vec<u16>>) -> Seq<Seq<u16>> {
    batches.map_values(|b: Vec<u16>| b@)
}

/// Each port paired with the outcome of its probe, in order.
pub open spec fn paired(ports: Seq<u16>, open: Seq<bool>) -> Seq<(u16, bool)> {
    Seq::new(ports.len(), |i: int| (ports[i], open[i]))
}

/// The ports of the batches, laid end to end.
pub fn flatten_batches(batches: &Vec<Vec<u16>>) -> (r: Vec<u16>)
    ensures
        r@ == joined(batch_views(batches@)),
{
    let n = batches.len();
    let mut flat: Vec<u16> = Vec::new();
    let mut b: usize = 0;
    while b < n
        invariant
            n == batches@.len(),
            b <= n,
            flat@ == joined(batch_views(batches@.subrange(0, b as int))),
        decreases n - b,
    {
        let m = batches[b].len();
        let ghost start = flat@;
        let mut j: usize = 0;
        while j < m
            invariant
                n == batches@.len(),
                b < n,
                m == batches@[b as int]@.len(),
                j <= m,
                flat@ == start + batches@[b as int]@.subrange(0, j as int),
            decreases m - j,
        {
            flat.push(batches[b][j]);
            j = j + 1;
        }
        assert(batches@[b as int]@.subrange(0, m as int) =~= batches@[b as int]@);
        assert(batch_views(batches@.subrange(0, b + 1)).drop_last()
            =~= batch_views(batches@.subrange(0, b as int)));
        b = b + 1;
    }
    assert(batches@.subrange(0, n as int) =~= batches@);
    flat
}

/// Port scanner module for detecting open TCP ports.
#[derive(Debug)]
pub struct PortScanner {
    config: ModuleConfig,
    common_ports: Vec<u16>,
}

impl PortScanner {
    /// The ports probed when a target names none.
    pub closed spec fn ports(&self) -> Seq<u16> {
        self.common_ports@
    }

    /// The scanner's configuration.
    pub closed spec fn settings(&self) -> ModuleConfig {
        self.config
    }

    /// A scanner with the default configuration that probes the common
    /// ports.
    pub fn new() -> (r: PortScanner)
        ensures
            r.ports() == common_ports(),
            r.settings().timeout_ms == 5000,
            r.settings().concurrent_scans == 10,
            r.settings().retry_count == 3,
            r.settings().custom@ == Map::<String, serde_json::Value>::empty(),
    {
        PortScanner::default()
    }

    /// The scanner, probing `ports` when a target names none.
    pub fn with_ports(self, ports: Vec<u16>) -> (r: PortScanner)
        ensures
            r.ports() == ports@,
            r.settings() == self.settings(),
    {
        let mut s = self;
        s.common_ports = ports;
        s
    }

    /// The ports probed when a target names none.
    pub fn common_ports(&self) -> (r: &Vec<u16>)
        ensures
            r@ == self.ports(),
    {
        &self.common_ports
    }

    /// The scanner's configuration.
    pub fn config(&self) -> (r: &ModuleConfig)
        ensures
            *r == self.settings(),
    {
        &self.config
    }

    /// The service that usually listens on `port`, `Unknown` for others.
    pub fn port_to_service(port: u16) -> (r: &'static str)
        ensures
            r@ == service_name(port),
    {
        match port {
            21 => "FTP",
            22 => "SSH",
            23 => "Telnet",
            25 => "SMTP",
            80 => "HTTP",
            443 => "HTTPS",
            3306 => "MySQL",
            5432 => "PostgreSQL",
            8080 => "HTTP-Alt",
            _ => "Unknown",
        }
    }

    /// The ports to probe on `target`: its own port when it names one,
    /// else the scanner's common ports.
    pub fn ports_to_scan(&self, target: &Target) -> (r: Vec<u16>)
        ensures
            r@ == ports_for(target.port, self.ports()),
    {
        match target.port {
            Some(p) => {
                let mut v: Vec<u16> = Vec::new();
                v.push(p);
                v
            },
            None => {
                let n = self.common_ports.len();
                let mut v: Vec<u16> = Vec::new();
                let mut i: usize = 0;
                while i < n
                    invariant
                        n == self.common_ports@.len(),
                        i <= n,
                        v@ == self.common_ports@.subrange(0, i as int),
                    decreases n - i,
                {
                    v.push(self.common_ports[i]);
                    i = i + 1;
                }
                assert(v@ =~= self.common_ports@);
                v
            },
        }
    }

    /// Splits `ports` in order into batches of at most the configured number
    /// of concurrent scans (one at a time when that number is zero); the
    /// ports of one batch are probed together.
    pub fn scan_batches(&self, ports: &Vec<u16>) -> (r: Vec<Vec<u16>>)
        ensures
            is_batching(batch_views(r@), ports@, batch_limit(self.settings().concurrent_scans)),
    {
        let limit: usize = if self.config.concurrent_scans == 0 { 1 } else { self.config.concurrent_scans };
        let ghost lim = batch_limit(self.config.concurrent_scans);
        let n = ports.len();
        let mut batches: Vec<Vec<u16>> = Vec::new();
        let mut current: Vec<u16> = Vec::new();
        let mut i: usize = 0;
        while i < n
            invariant
                n == ports@.len(),
                i <= n,
                limit == lim,
                lim >= 1,
                current@.len() < lim,
                joined(batch_views(batches@)) + current@ == ports@.subrange(0, i as int),
                forall|k: int| 0 <= k < batches@.len() ==> #[trigger] batches@[k]@.len() == lim,
            decreases n - i,
        {
            let ghost before = batch_views(batches@);
            let ghost c0 = current@;
            current.push(ports[i]);
            assert(ports@.subrange(0, i + 1) =~= ports@.subrange(0, i as int).push(ports@[i as int]));
            assert((joined(before) + c0).push(ports@[i as int]) =~= joined(before) + current@);
            assert(joined(before) + current@ =~= ports@.subrange(0, i + 1));
            if current.len() == limit {
                let mut full: Vec<u16> = Vec::new();
                std::mem::swap(&mut full, &mut current);
                batches.push(full);
                assert(batch_views(batches@).drop_last() =~= before);
                assert(joined(batch_views(batches@)) + current@ =~= ports@.subrange(0, i + 1));
            }
            i = i + 1;
        }
        let ghost before = batch_views(batches@);
        if current.len() > 0 {
            batches.push(current);
            assert(batch_views(batches@).drop_last() =~= before);
        } else {
            assert(joined(before) =~= joined(before) + current@);
        }
        assert(ports@.subrange(0, n as int) =~= ports@);
        batches
    }

    /// Checks a host name, given for each of its characters whether it is
    /// alphanumeric: it must be non-empty and hold only alphanumeric
    /// characters, dots and hyphens.
    pub fn check_host(host: &str, alphanumeric: &Vec<bool>) -> (r: Result<(), ModuleError>)
        requires
            alphanumeric@.len() == host@.len(),
        ensures
            host_verdict_holds(r, host@, alphanumeric@),
    {
        let n = host.unicode_len();
        if n == 0 {
            return Err(ModuleError::InvalidTarget(String::from_str("Host cannot be empty")));
        }
        let mut i: usize = 0;
        while i < n
            invariant
                n == host@.len(),
                alphanumeric@.len() == n,
                i <= n,
                forall|j: int| 0 <= j < i ==> host_char_allowed(host@[j], alphanumeric@[j]),
            decreases n - i,
        {
            let c = host.get_char(i);
            if !(alphanumeric[i] || c == '.' || c == '-') {
                return Err(ModuleError::InvalidTarget(String::from_str("Invalid hostname or IP address")));
            }
            i = i + 1;
        }
        Ok(())
    }

    /// The plan of a scan of `target`: when the target is valid, the ports
    /// to probe, in batches of at most the configured number of concurrent
    /// scans; else the validation error, before anything is probed.
    pub fn plan_scan(&self, target: &Target) -> (r: Result<Vec<Vec<u16>>, ModuleError>)
        ensures
            match r {
                Ok(batches) => {
                    &&& host_verdict_holds(Ok(()), target.host@, alphanumeric_flags(target.host@))
                    &&& is_batching(
                        batch_views(batches@),
                        ports_for(target.port, self.ports()),
                        batch_limit(self.settings().concurrent_scans),
                    )
                },
                Err(e) => host_verdict_holds(Err(e), target.host@, alphanumeric_flags(target.host@)),
            },
    {
        match self.validate_target(target) {
            Ok(()) => {
                let ports = self.ports_to_scan(target);
                Ok(self.scan_batches(&ports))
            },
            Err(e) => Err(e),
        }
    }

    /// Completes a scan result from a planned scan: `open` holds, for each
    /// port of the batches laid end to end, whether its probe found it open.
    /// Each port is paired with its own outcome and the result is completed
    /// as by [`PortScanner::finish_scan`].
    pub fn finish_planned_scan(
        result: ScanResult,
        batches: &Vec<Vec<u16>>,
        open: &Vec<bool>,
        duration_ms: u64,
    ) -> (r: ScanResult)
        requires
            open@.len() == joined(batch_views(batches@)).len(),
        ensures
            r.module_name == result.module_name,
            r.target == result.target,
            r.timestamp == result.timestamp,
            r.duration_ms == duration_ms,
            r.status is Success,
            r.metadata == result.metadata,
            r.findings@.len() == result.findings@.len() + open_ports(
                paired(joined(batch_views(batches@)), open@),
            ).len(),
            forall|i: int| 0 <= i < result.findings@.len() ==> r.findings@[i] == result.findings@[i],
            forall|j: int|
                0 <= j < open_ports(paired(joined(batch_views(batches@)), open@)).len()
                    ==> is_open_port_finding(
                    #[trigger] r.findings@[result.findings@.len() + j],
                    result.target.host@,
                    open_ports(paired(joined(batch_views(batches@)), open@))[j],
                ),
    {
        let ports = flatten_batches(batches);
        let n = ports.len();
        let mut probes: Vec<(u16, bool)> = Vec::new();
        let mut i: usize = 0;
        while i < n
            invariant
                n == ports@.len(),
                n == open@.len(),
                i <= n,
                probes@ == paired(ports@, open@).subrange(0, i as int),
            decreases n - i,
        {
            probes.push((ports[i], open[i]));
            assert(probes@ =~= paired(ports@, open@).subrange(0, i + 1));
            i = i + 1;
        }
        assert(probes@ =~= paired(ports@, open@));
        PortScanner::finish_scan(result, &probes, duration_ms)
    }

    /// The finding that reports `port` open on `host`: severity Info, the
    /// port and its service in title and description, `host:port` as the
    /// affected target, and the port and service as metadata.
    pub fn open_port_finding(host: &str, port: u16) -> (r: Finding)
        ensures
            is_open_port_finding(r, host@, port),
    {
        let service = PortScanner::port_to_service(port);
        let mut title = String::from_str("Open Port: ");
        push_decimal(&mut title, port);
        let mut description = String::from_str("Port ");
        push_decimal(&mut description, port);
        description.append(" (");
        description.append(service);
        description.append(") is open and accepting connections");
        let affected = host_port(host, port);
        Finding::new(Severity::Info, title, description, affected)
            .with_metadata(String::from_str("port"), decimal_string(port))
            .with_metadata(String::from_str("service"), String::from_str(service))
    }

    /// Completes a scan result from the outcome of each probe, in probe
    /// order: a finding for each open port is appended, then the duration
    /// is set and the status becomes `Success`.
    pub fn finish_scan(result: ScanResult, probes: &Vec<(u16, bool)>, duration_ms: u64) -> (r: ScanResult)
        ensures
            r.module_name == result.module_name,
            r.target == result.target,
            r.timestamp == result.timestamp,
            r.duration_ms == duration_ms,
            r.status is Success,
            r.metadata == result.metadata,
            r.findings@.len() == result.findings@.len() + open_ports(probes@).len(),
            forall|i: int| 0 <= i < result.findings@.len() ==> r.findings@[i] == result.findings@[i],
            forall|j: int| 0 <= j < open_ports(probes@).len() ==> is_open_port_finding(
                #[trigger] r.findings@[result.findings@.len() + j],
                result.target.host@,
                open_ports(probes@)[j],
            ),
    {
        let n = probes.len();
        let ghost base = result.findings@;
        let mut res = result;
        let mut i: usize = 0;
        while i < n
            invariant
                n == probes@.len(),
                i <= n,
                res.module_name == result.module_name,
                res.target == result.target,
                res.timestamp == result.timestamp,
                res.duration_ms == result.duration_ms,
                res.status == result.status,
                res.metadata == result.metadata,
                base == result.findings@,
                res.findings@.len() == base.len() + open_ports(probes@.subrange(0, i as int)).len(),
                forall|k: int| 0 <= k < base.len() ==> res.findings@[k] == base[k],
                forall|j: int| 0 <= j < open_ports(probes@.subrange(0, i as int)).len() ==> is_open_port_finding(
                    #[trigger] res.findings@[base.len() + j],
                    result.target.host@,
                    open_ports(probes@.subrange(0, i as int))[j],
                ),
            decreases n - i,
        {
            let (port, is_open) = probes[i];
            assert(probes@.subrange(0, i + 1).drop_last() =~= probes@.subrange(0, i as int));
            if is_open {
                let finding = PortScanner::open_port_finding(res.target.host.as_str(), port);
                res = res.add_finding(finding);
            }
            i = i + 1;
        }
        assert(probes@.subrange(0, n as int) =~= probes@);
        res.with_duration(duration_ms).with_status(ScanStatus::Success)
    }
}

impl Default for PortScanner {
    /// A scanner with the default configuration that probes the common
    /// ports.
    fn default() -> (r: Self)
        ensures
            r.ports() == common_ports(),
            r.settings().timeout_ms == 5000,
            r.settings().concurrent_scans == 10,
            r.settings().retry_count == 3,
            r.settings().custom@ == Map::<String, serde_json::Value>::empty(),
    {
        let mut ports: Vec<u16> = Vec::new();
        ports.push(21);
        ports.push(22);
        ports.push(23);
        ports.push(25);
        ports.push(80);
        ports.push(443);
        ports.push(3306);
        ports.push(5432);
        ports.push(8080);
        assert(ports@ =~= common_ports());
        PortScanner { config: ModuleConfig::default(), common_ports: ports }
    }
}

impl Clone for PortScanner {
    /// A scanner with the same ports and settings.
    fn clone(&self) -> (r: Self)
        ensures
            r.ports() == self.ports(),
            r.settings().timeout_ms == self.settings().timeout_ms,
            r.settings().concurrent_scans == self.settings().concurrent_scans,
            r.settings().retry_count == self.settings().retry_count,
            r.settings().custom@ == self.settings().custom@,
    {
        let n = self.common_ports.len();
        let mut ports: Vec<u16> = Vec::new();
        let mut i: usize = 0;
        while i < n
            invariant
                n == self.common_ports@.len(),
                i <= n,
                ports@ == self.common_ports@.subrange(0, i as int),
            decreases n - i,
        {
            ports.push(self.common_ports[i]);
            i = i + 1;
        }
        assert(ports@ =~= self.common_ports@);
        PortScanner { config: self.config.clone(), common_ports: ports }
    }
}

impl SecurityModule for PortScanner {
    /// `port_scanner`.
    fn name(&self) -> (r: &str)
        ensures
            r@ == "port_scanner"@,
    {
        "port_scanner"
    }

    /// `Scans for open TCP ports on target hosts`.
    fn description(&self) -> (r: &str)
        ensures
            r@ == "Scans for open TCP ports on target hosts"@,
    {
        "Scans for open TCP ports on target hosts"
    }

    /// `0.1.0`.
    fn version(&self) -> (r: &str)
        ensures
            r@ == "0.1.0"@,
    {
        "0.1.0"
    }

    /// Replaces the configuration; always succeeds.
    fn configure(&mut self, config: ModuleConfig) -> (r: Result<(), ModuleError>)
        ensures
            r is Ok,
            final(self).settings() == config,
            final(self).ports() == old(self).ports(),
    {
        self.config = config;
        Ok(())
    }

    /// The target's host must be non-empty and hold only alphanumeric
    /// characters, dots and hyphens.
    fn validate_target(&self, target: &Target) -> (r: Result<(), ModuleError>)
        ensures
            host_verdict_holds(r, target.host@, alphanumeric_flags(target.host@)),
    {
        let host = target.host.as_str();
        let n = host.unicode_len();
        let mut flags: Vec<bool> = Vec::new();
        let mut i: usize = 0;
        while i < n
            invariant
                n == host@.len(),
                host@ == target.host@,
                i <= n,
                flags@ == alphanumeric_flags(host@).subrange(0, i as int),
            decreases n - i,
        {
            flags.push(is_alphanumeric(host.get_char(i)));
            i = i + 1;
        }
        assert(flags@ =~= alphanumeric_flags(host@));
        PortScanner::check_host(host, &flags)
    }
}

/// A host is accepted exactly when it is non-empty and each of its
/// characters is alphanumeric (as the caller found), a dot or a hyphen:
/// whatever the case of a letter, an alphanumeric character is allowed.
/// An empty host is refused as empty, any other refused host as invalid.
pub proof fn law_host_acceptance(host: Seq<char>, alphanumeric: Seq<bool>)
    requires
        alphanumeric.len() == host.len(),
    ensures
        forall|r: Result<(), ModuleError>| #[trigger] host_verdict_holds(r, host, alphanumeric) ==> (r is Ok <==> (
            host.len() > 0 && forall|i: int| 0 <= i < host.len() ==> (alphanumeric[i] || host[i] == '.' || host[i] == '-'))),
        host.len() == 0 ==> host_fault(host, alphanumeric) == Some("Host cannot be empty"@),
        (host.len() > 0 && exists|i: int| 0 <= i < host.len() && !alphanumeric[i] && host[i] != '.' && host[i] != '-')
            ==> host_fault(host, alphanumeric) == Some("Invalid hostname or IP address"@),
{
}

/// Validating a target accepts it exactly when its host is non-empty and
/// every character of the host is alphanumeric in the sense of
/// `char::is_alphanumeric`, a dot or a hyphen.
pub proof fn law_target_acceptance(host: Seq<char>)
    ensures
        forall|r: Result<(), ModuleError>| #[trigger] host_verdict_holds(r, host, alphanumeric_flags(host)) ==> (r is Ok <==> (
            host.len() > 0 && forall|i: int| 0 <= i < host.len() ==> (char_is_alphanumeric(host[i]) || host[i] == '.' || host[i] == '-'))),
{
    law_host_acceptance(host, alphanumeric_flags(host));
}

/// A target that names a port is probed on that port alone, whatever the
/// scanner's common ports; a target that names none is probed on all of
/// them.
pub proof fn law_target_port_wins(port: u16, common: Seq<u16>)
    ensures
        ports_for(Some(port), common) == seq![port],
        ports_for(Some(port), common).len() == 1,
        ports_for(None, common) == common,
{
}

/// Ports other than 21, 22, 23, 25, 80, 443, 3306, 5432 and 8080 are named
/// `Unknown`, those nine are not, and no two different ports share a name
/// other than `Unknown`: in particular `MySQL` names port 3306 alone.
pub proof fn law_service_names(port: u16, other: u16)
    ensures
        !(port == 21 || port == 22 || port == 23 || port == 25 || port == 80 || port == 443 || port == 3306
            || port == 5432 || port == 8080) ==> service_name(port) == "Unknown"@,
        (port == 21 || port == 22 || port == 23 || port == 25 || port == 80 || port == 443 || port == 3306
            || port == 5432 || port == 8080) ==> service_name(port) != "Unknown"@,
        port != other && service_name(port) == service_name(other) ==> service_name(port) == "Unknown"@,
        service_name(port) == "MySQL"@ <==> port == 3306,
{
    reveal_strlit("FTP");
    reveal_strlit("SSH");
    reveal_strlit("Telnet");
    reveal_strlit("SMTP");
    reveal_strlit("HTTP");
    reveal_strlit("HTTPS");
    reveal_strlit("MySQL");
    reveal_strlit("PostgreSQL");
    reveal_strlit("HTTP-Alt");
    reveal_strlit("Unknown");
    assert("FTP"@[0] != "SSH"@[0]);
    assert("SMTP"@[0] != "HTTP"@[0]);
    assert("HTTPS"@[0] != "MySQL"@[0]);
    assert("Unknown"@.len() == 7);
    assert("FTP"@.len() == 3 && "SSH"@.len() == 3 && "Telnet"@.len() == 6 && "SMTP"@.len() == 4);
    assert("HTTP"@.len() == 4 && "HTTPS"@.len() == 5 && "MySQL"@.len() == 5);
    assert("PostgreSQL"@.len() == 10 && "HTTP-Alt"@.len() == 8);
    assert("FTP"@ != "SSH"@);
    assert("SMTP"@ != "HTTP"@);
    assert("HTTPS"@ != "MySQL"@);
}

/// The finding of an open port carries exactly two metadata entries: `port`,
/// the port in decimal, and `service`, the service that usually listens on
/// it; it is an informational finding that names `host:port`.
pub proof fn law_open_port_finding_metadata(f: Finding, host: Seq<char>, port: u16)
    requires
        is_open_port_finding(f, host, port),
    ensures
        f.metadata@.len() == 2,
        f.metadata@.contains_key("port"@),
        f.metadata@["port"@] == decimal(port as nat),
        f.metadata@.contains_key("service"@),
        f.metadata@["service"@] == service_name(port),
        f.severity == Severity::Info,
        f.affected_target@ == host + ":"@ + decimal(port as nat),
{
    reveal_strlit("port");
    reveal_strlit("service");
    assert("port"@.len() != "service"@.len());
    assert("port"@ != "service"@);
    let m0 = Map::<Seq<char>, Seq<char>>::empty();
    assert(m0.insert("port"@, decimal(port as nat)).dom() =~= set!["port"@]);
    assert(m0.insert("port"@, decimal(port as nat)).insert("service"@, service_name(port)).dom()
        =~= set!["port"@, "service"@]);
}

} // verus!
