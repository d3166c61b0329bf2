use x_sec::{
    find_module, Finding, ModuleConfig, ModuleError, PortScanner, Protocol, ScanResult,
    ScanStatus, SecurityModule, Severity, Target,
};

#[test]
fn test_port_scanner_creation() {
    let scanner = PortScanner::new();
    assert_eq!(scanner.name(), "port_scanner");
    assert_eq!(scanner.version(), "0.1.0");
}

#[test]
fn test_validate_target() {
    let scanner = PortScanner::new();

    let valid_target = Target::new("127.0.0.1".to_string(), None, Protocol::TCP);
    assert!(scanner.validate_target(&valid_target).is_ok());

    let invalid_target = Target::new("".to_string(), None, Protocol::TCP);
    assert!(scanner.validate_target(&invalid_target).is_err());
}

#[test]
fn description_is_fixed() {
    let scanner = PortScanner::new();
    assert_eq!(scanner.description(), "Scans for open TCP ports on target hosts");
}

#[test]
fn default_ports_are_the_common_services() {
    let scanner = PortScanner::default();
    assert_eq!(scanner.common_ports(), &vec![21, 22, 23, 25, 80, 443, 3306, 5432, 8080]);
    assert_eq!(scanner.config().timeout_ms, 5000);
    assert_eq!(scanner.config().concurrent_scans, 10);
    assert_eq!(scanner.config().retry_count, 3);
    assert!(scanner.config().custom.is_empty());
}

#[test]
fn with_ports_replaces_the_port_list() {
    let scanner = PortScanner::new().with_ports(vec![8443, 9000]);
    assert_eq!(scanner.common_ports(), &vec![8443, 9000]);
    assert_eq!(scanner.config().timeout_ms, 5000);
}

#[test]
fn configure_replaces_the_configuration() {
    let mut scanner = PortScanner::new();
    let mut config = ModuleConfig::default();
    config.timeout_ms = 3000;
    config.concurrent_scans = 20;
    config.retry_count = 2;
    assert!(scanner.configure(config).is_ok());
    assert_eq!(scanner.config().timeout_ms, 3000);
    assert_eq!(scanner.config().concurrent_scans, 20);
    assert_eq!(scanner.config().retry_count, 2);
    assert_eq!(scanner.common_ports().len(), 9);
}

#[test]
fn services_of_known_and_unknown_ports() {
    assert_eq!(PortScanner::port_to_service(21), "FTP");
    assert_eq!(PortScanner::port_to_service(22), "SSH");
    assert_eq!(PortScanner::port_to_service(23), "Telnet");
    assert_eq!(PortScanner::port_to_service(25), "SMTP");
    assert_eq!(PortScanner::port_to_service(80), "HTTP");
    assert_eq!(PortScanner::port_to_service(443), "HTTPS");
    assert_eq!(PortScanner::port_to_service(3306), "MySQL");
    assert_eq!(PortScanner::port_to_service(5432), "PostgreSQL");
    assert_eq!(PortScanner::port_to_service(8080), "HTTP-Alt");
    assert_eq!(PortScanner::port_to_service(9999), "Unknown");
    assert_eq!(PortScanner::port_to_service(0), "Unknown");
}

#[test]
fn ports_to_scan_prefers_the_targets_port() {
    let scanner = PortScanner::new();
    let single = Target::new("example.com".to_string(), Some(443), Protocol::TCP);
    assert_eq!(scanner.ports_to_scan(&single), vec![443]);
    let all = Target::new("example.com".to_string(), None, Protocol::TCP);
    assert_eq!(scanner.ports_to_scan(&all), vec![21, 22, 23, 25, 80, 443, 3306, 5432, 8080]);
    let custom = PortScanner::new().with_ports(vec![7]);
    assert_eq!(custom.ports_to_scan(&all), vec![7]);
}

fn invalid_target_detail(r: Result<(), ModuleError>) -> String {
    match r {
        Err(ModuleError::InvalidTarget(s)) => s,
        other => panic!("expected an invalid target, got {:?}", other),
    }
}

#[test]
fn validate_target_errors_name_the_fault() {
    let scanner = PortScanner::new();
    let empty = Target::new(String::new(), None, Protocol::TCP);
    assert_eq!(invalid_target_detail(scanner.validate_target(&empty)), "Host cannot be empty");
    let bad = Target::new("exa mple.com".to_string(), None, Protocol::TCP);
    assert_eq!(invalid_target_detail(scanner.validate_target(&bad)), "Invalid hostname or IP address");
    let slash = Target::new("host/path".to_string(), Some(80), Protocol::HTTP);
    assert_eq!(invalid_target_detail(scanner.validate_target(&slash)), "Invalid hostname or IP address");
    let colon = Target::new("::1".to_string(), None, Protocol::TCP);
    assert!(scanner.validate_target(&colon).is_err());
}

#[test]
fn validate_target_accepts_names_dots_hyphens_and_unicode_letters() {
    let scanner = PortScanner::new();
    for host in ["example.com", "my-host.local", "localhost", "10.0.0.1", "bücher.de"] {
        let t = Target::new(host.to_string(), None, Protocol::TCP);
        assert!(scanner.validate_target(&t).is_ok(), "{}", host);
    }
}

#[test]
fn check_host_uses_the_given_flags() {
    assert!(PortScanner::check_host("a.b", &vec![true, false, true]).is_ok());
    assert!(PortScanner::check_host("a-b", &vec![true, false, true]).is_ok());
    assert!(PortScanner::check_host("a_b", &vec![true, false, true]).is_err());
    assert!(PortScanner::check_host("ab", &vec![true, false]).is_err());
    assert_eq!(invalid_target_detail(PortScanner::check_host("", &vec![])), "Host cannot be empty");
}

#[test]
fn open_port_finding_describes_the_port() {
    let f = PortScanner::open_port_finding("192.168.1.1", 22);
    assert_eq!(f.severity, Severity::Info);
    assert_eq!(f.title, "Open Port: 22");
    assert_eq!(f.description, "Port 22 (SSH) is open and accepting connections");
    assert_eq!(f.affected_target, "192.168.1.1:22");
    assert_eq!(f.recommendation, None);
    assert_eq!(f.metadata.len(), 2);
    assert_eq!(f.metadata.get("port").map(|s| s.as_str()), Some("22"));
    assert_eq!(f.metadata.get("service").map(|s| s.as_str()), Some("SSH"));

    let g = PortScanner::open_port_finding("example.com", 12345);
    assert_eq!(g.title, "Open Port: 12345");
    assert_eq!(g.description, "Port 12345 (Unknown) is open and accepting connections");
    assert_eq!(g.affected_target, "example.com:12345");
}

#[test]
fn finish_scan_reports_open_ports_in_probe_order() {
    let target = Target::new("10.0.0.5".to_string(), None, Protocol::TCP);
    let result = ScanResult::new_at("port_scanner".to_string(), target, "2024-01-01T00:00:00+00:00".to_string());
    let probes = vec![(80u16, true), (21, false), (443, true), (0, true)];
    let r = PortScanner::finish_scan(result, &probes, 1234);
    assert_eq!(r.duration_ms, 1234);
    assert!(matches!(r.status, ScanStatus::Success));
    assert_eq!(r.module_name, "port_scanner");
    assert_eq!(r.timestamp, "2024-01-01T00:00:00+00:00");
    assert_eq!(r.findings.len(), 3);
    assert_eq!(r.findings[0].title, "Open Port: 80");
    assert_eq!(r.findings[0].affected_target, "10.0.0.5:80");
    assert_eq!(r.findings[1].title, "Open Port: 443");
    assert_eq!(r.findings[1].description, "Port 443 (HTTPS) is open and accepting connections");
    assert_eq!(r.findings[2].title, "Open Port: 0");
    assert_eq!(r.findings[2].metadata.get("port").map(|s| s.as_str()), Some("0"));
}

#[test]
fn finish_scan_with_no_open_ports_has_no_findings() {
    let target = Target::new("10.0.0.5".to_string(), Some(22), Protocol::TCP);
    let result = ScanResult::new("port_scanner".to_string(), target).with_status(ScanStatus::Partial);
    let r = PortScanner::finish_scan(result, &vec![(22, false)], 7);
    assert!(r.findings.is_empty());
    assert!(matches!(r.status, ScanStatus::Success));
    assert_eq!(r.duration_ms, 7);
}

#[test]
fn finish_scan_keeps_earlier_findings() {
    let target = Target::new("h".to_string(), None, Protocol::TCP);
    let earlier = Finding::new(Severity::High, "t".to_string(), "d".to_string(), "h".to_string());
    let result = ScanResult::new_at("m".to_string(), target, "ts".to_string()).add_finding(earlier);
    let r = PortScanner::finish_scan(result, &vec![(8080, true)], 1);
    assert_eq!(r.findings.len(), 2);
    assert_eq!(r.findings[0].title, "t");
    assert_eq!(r.findings[0].severity, Severity::High);
    assert_eq!(r.findings[1].title, "Open Port: 8080");
    assert_eq!(r.findings[1].metadata.get("service").map(|s| s.as_str()), Some("HTTP-Alt"));
}

#[test]
fn find_module_knows_only_the_port_scanner() {
    let m = find_module("port_scanner").expect("port scanner is registered");
    assert_eq!(m.name(), "port_scanner");
    assert_eq!(m.common_ports().len(), 9);
    assert!(find_module("web_scanner").is_none());
    assert!(find_module("").is_none());
    assert!(find_module("port_scanner ").is_none());
}

#[test]
fn scanner_clone_keeps_ports_and_settings() {
    let mut s = PortScanner::new().with_ports(vec![1, 2]);
    let mut c = ModuleConfig::default();
    c.timeout_ms = 10;
    s.configure(c).unwrap();
    let t = s.clone();
    assert_eq!(t.common_ports(), &vec![1, 2]);
    assert_eq!(t.config().timeout_ms, 10);
}

#[test]
fn scan_batches_respect_the_concurrency_limit() {
    let mut scanner = PortScanner::new();
    let mut c = ModuleConfig::default();
    c.concurrent_scans = 4;
    scanner.configure(c).unwrap();
    let ports = vec![21, 22, 23, 25, 80, 443, 3306, 5432, 8080];
    assert_eq!(
        scanner.scan_batches(&ports),
        vec![vec![21, 22, 23, 25], vec![80, 443, 3306, 5432], vec![8080]]
    );
    assert_eq!(scanner.scan_batches(&vec![]), Vec::<Vec<u16>>::new());
    assert_eq!(scanner.scan_batches(&vec![1, 2, 3, 4]), vec![vec![1, 2, 3, 4]]);
    let default = PortScanner::new();
    assert_eq!(default.scan_batches(&ports), vec![ports.clone()]);
    let mut zero = PortScanner::new();
    let mut z = ModuleConfig::default();
    z.concurrent_scans = 0;
    zero.configure(z).unwrap();
    assert_eq!(zero.scan_batches(&vec![5, 6]), vec![vec![5], vec![6]]);
}

#[test]
fn plan_scan_validates_before_planning() {
    let scanner = PortScanner::new();
    let good = Target::new("example.com".to_string(), Some(443), Protocol::TCP);
    assert_eq!(scanner.plan_scan(&good).unwrap(), vec![vec![443]]);
    let all = Target::new("example.com".to_string(), None, Protocol::TCP);
    assert_eq!(scanner.plan_scan(&all).unwrap(), vec![vec![21, 22, 23, 25, 80, 443, 3306, 5432, 8080]]);
    let bad = Target::new("".to_string(), Some(443), Protocol::TCP);
    match scanner.plan_scan(&bad) {
        Err(ModuleError::InvalidTarget(s)) => assert_eq!(s, "Host cannot be empty"),
        other => panic!("unexpected {:?}", other),
    }
}

#[test]
fn module_names_lists_the_port_scanner() {
    let names = x_sec::module_names();
    assert_eq!(names, vec!["port_scanner"]);
    for name in names {
        assert!(find_module(name).is_some());
    }
}

#[test]
fn finish_planned_scan_pairs_each_port_with_its_outcome() {
    let target = Target::new("10.0.0.9".to_string(), None, Protocol::TCP);
    let result = ScanResult::new_at("port_scanner".to_string(), target, "t".to_string());
    let batches = vec![vec![21u16, 22], vec![80, 443], vec![8080]];
    let open = vec![false, true, true, false, true];
    let r = PortScanner::finish_planned_scan(result, &batches, &open, 3);
    assert_eq!(r.findings.len(), 3);
    assert_eq!(r.findings[0].title, "Open Port: 22");
    assert_eq!(r.findings[1].title, "Open Port: 80");
    assert_eq!(r.findings[2].title, "Open Port: 8080");
    assert_eq!(r.duration_ms, 3);
    assert_eq!(x_sec::port_scanner::flatten_batches(&batches), vec![21, 22, 80, 443, 8080]);
}
