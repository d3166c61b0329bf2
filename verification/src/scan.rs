//! Results of security scans.

use vstd::prelude::*;
use crate::clock::utc_now_rfc3339;
use crate::finding::Finding;
use crate::metadata::Metadata;
use crate::target::Target;

verus! {

/// How a scan ended.
#[derive(Debug)]
pub enum ScanStatus {
    Success,
    Failed(String),
    Partial,
}

impl Clone for ScanStatus {
    /// An equal status.
    fn clone(&self) -> (r: Self)
        ensures
            r == *self,
    {
        match self {
            ScanStatus::Success => ScanStatus::Success,
            ScanStatus::Failed(s) => ScanStatus::Failed(s.clone()),
            ScanStatus::Partial => ScanStatus::Partial,
        }
    }
}

/// Result of a security scan.
#[derive(Debug)]
pub struct ScanResult {
    pub module_name: String,
    pub target: Target,
    pub timestamp: String,
    pub duration_ms: u64,
    pub status: ScanStatus,
    pub findings: Vec<Finding>,
    pub metadata: Metadata,
}

impl ScanResult {
    /// A fresh result of `module_name` on `target`, stamped with the current
    /// UTC time: zero duration, successful status, no findings and no
    /// metadata.
    pub fn new(module_name: String, target: Target) -> (r: ScanResult)
        ensures
            r.module_name == module_name,
            r.target == target,
            r.timestamp@.len() >= 25,
            r.timestamp@.subrange(r.timestamp@.len() - 6, r.timestamp@.len() as int) == "+00:00"@,
            r.duration_ms == 0,
            r.status is Success,
            r.findings@.len() == 0,
            r.metadata@ == Map::<Seq<char>, Seq<char>>::empty(),
    {
        let timestamp = utc_now_rfc3339();
        ScanResult::new_at(module_name, target, timestamp)
    }

    /// A fresh result of `module_name` on `target` stamped with `timestamp`:
    /// zero duration, successful status, no findings and no metadata.
    pub fn new_at(module_name: String, target: Target, timestamp: String) -> (r: ScanResult)
        ensures
            r.module_name == module_name,
            r.target == target,
            r.timestamp == timestamp,
            r.duration_ms == 0,
            r.status is Success,
            r.findings@.len() == 0,
            r.metadata@ == Map::<Seq<char>, Seq<char>>::empty(),
    {
        ScanResult {
            module_name,
            target,
            timestamp,
            duration_ms: 0,
            status: ScanStatus::Success,
            findings: Vec::new(),
            metadata: Metadata::new(),
        }
    }

    /// The result with its duration set to `duration_ms`.
    pub fn with_duration(self, duration_ms: u64) -> (r: ScanResult)
        ensures
            r.duration_ms == duration_ms,
            r.module_name == self.module_name,
            r.target == self.target,
            r.timestamp == self.timestamp,
            r.status == self.status,
            r.findings == self.findings,
            r.metadata == self.metadata,
    {
        let mut r = self;
        r.duration_ms = duration_ms;
        r
    }

    /// The result with its status set to `status`.
    pub fn with_status(self, status: ScanStatus) -> (r: ScanResult)
        ensures
            r.status == status,
            r.module_name == self.module_name,
            r.target == self.target,
            r.timestamp == self.timestamp,
            r.duration_ms == self.duration_ms,
            r.findings == self.findings,
            r.metadata == self.metadata,
    {
        let mut r = self;
        r.status = status;
        r
    }

    /// The result with `finding` appended to its findings.
    pub fn add_finding(self, finding: Finding) -> (r: ScanResult)
        ensures
            r.findings@ == self.findings@.push(finding),
            r.module_name == self.module_name,
            r.target == self.target,
            r.timestamp == self.timestamp,
            r.duration_ms == self.duration_ms,
            r.status == self.status,
            r.metadata == self.metadata,
    {
        let mut r = self;
        r.findings.push(finding);
        r
    }
}

impl Clone for ScanResult {
    /// A result with the same fields; its findings are copies of the
    /// original's, in the same order.
    fn clone(&self) -> (r: Self)
        ensures
            r.module_name == self.module_name,
            r.target == self.target,
            r.timestamp == self.timestamp,
            r.duration_ms == self.duration_ms,
            r.status == self.status,
            r.findings@.len() == self.findings@.len(),
            forall|i: int| 0 <= i < self.findings@.len() ==> #[trigger] r.findings@[i].same_as(&self.findings@[i]),
            r.metadata@ == self.metadata@,
    {
        let n = self.findings.len();
        let mut findings: Vec<Finding> = Vec::new();
        let mut i: usize = 0;
        while i < n
            invariant
                n == self.findings@.len(),
                i <= n,
                findings@.len() == i,
                forall|j: int| 0 <= j < i ==> #[trigger] findings@[j].same_as(&self.findings@[j]),
            decreases n - i,
        {
            findings.push(self.findings[i].clone());
            i = i + 1;
        }
        ScanResult {
            module_name: self.module_name.clone(),
            target: self.target.clone(),
            timestamp: self.timestamp.clone(),
            duration_ms: self.duration_ms,
            status: self.status.clone(),
            findings,
            metadata: self.metadata.clone(),
        }
    }
}

} // verus!
