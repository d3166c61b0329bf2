//! Scan targets and their network protocols.

use vstd::prelude::*;
use vstd::string::*;

verus! {

/// Network protocol types.
#[derive(Debug, PartialEq)]
pub enum Protocol {
    TCP,
    UDP,
    HTTP,
    HTTPS,
    SSH,
    FTP,
    SMTP,
    DNS,
    Other(String),
}

impl Protocol {
    /// The protocol's display name: the variant's name in capitals, or the
    /// text an `Other` protocol carries.
    pub open spec fn display(&self) -> Seq<char> {
        match self {
            Protocol::TCP => "TCP"@,
            Protocol::UDP => "UDP"@,
            Protocol::HTTP => "HTTP"@,
            Protocol::HTTPS => "HTTPS"@,
            Protocol::SSH => "SSH"@,
            Protocol::FTP => "FTP"@,
            Protocol::SMTP => "SMTP"@,
            Protocol::DNS => "DNS"@,
            Protocol::Other(s) => s@,
        }
    }

    /// The protocol's display name.
    pub fn to_string(&self) -> (r: String)
        ensures
            r@ == self.display(),
    {
        match self {
            Protocol::TCP => String::from_str("TCP"),
            Protocol::UDP => String::from_str("UDP"),
            Protocol::HTTP => String::from_str("HTTP"),
            Protocol::HTTPS => String::from_str("HTTPS"),
            Protocol::SSH => String::from_str("SSH"),
            Protocol::FTP => String::from_str("FTP"),
            Protocol::SMTP => String::from_str("SMTP"),
            Protocol::DNS => String::from_str("DNS"),
            Protocol::Other(s) => s.clone(),
        }
    }
}

impl Clone for Protocol {
    /// An equal protocol.
    fn clone(&self) -> (r: Self)
        ensures
            r == *self,
    {
        match self {
            Protocol::TCP => Protocol::TCP,
            Protocol::UDP => Protocol::UDP,
            Protocol::HTTP => Protocol::HTTP,
            Protocol::HTTPS => Protocol::HTTPS,
            Protocol::SSH => Protocol::SSH,
            Protocol::FTP => Protocol::FTP,
            Protocol::SMTP => Protocol::SMTP,
            Protocol::DNS => Protocol::DNS,
            Protocol::Other(s) => Protocol::Other(s.clone()),
        }
    }
}

/// Target specification for scans: a host, an optional single port and
/// a protocol.
#[derive(Debug)]
pub struct Target {
    pub host: String,
    pub port: Option<u16>,
    pub protocol: Protocol,
}

impl Target {
    /// A target with the given host, port and protocol.
    pub fn new(host: String, port: Option<u16>, protocol: Protocol) -> (r: Target)
        ensures
            r.host == host,
            r.port == port,
            r.protocol == protocol,
    {
        Target { host, port, protocol }
    }
}

impl Clone for Target {
    /// An equal target.
    fn clone(&self) -> (r: Self)
        ensures
            r == *self,
    {
        Target { host: self.host.clone(), port: self.port, protocol: self.protocol.clone() }
    }
}

} // verus!
