//! Severity levels and individual security findings.

use vstd::prelude::*;
use vstd::string::*;
use crate::metadata::Metadata;

verus! {

/// Severity levels for findings, from least to most severe.
#[derive(Debug, Clone, Copy, PartialEq, Eq, Structural, PartialOrd, Ord)]
pub enum Severity {
    Info,
    Low,
    Medium,
    High,
    Critical,
}

impl Severity {
    /// The severity's display name.
    pub open spec fn display(&self) -> Seq<char> {
        match self {
            Severity::Info => "Info"@,
            Severity::Low => "Low"@,
            Severity::Medium => "Medium"@,
            Severity::High => "High"@,
            Severity::Critical => "Critical"@,
        }
    }

    /// The severity's display name.
    pub fn to_string(&self) -> (r: String)
        ensures
            r@ == self.display(),
    {
        match self {
            Severity::Info => String::from_str("Info"),
            Severity::Low => String::from_str("Low"),
            Severity::Medium => String::from_str("Medium"),
            Severity::High => String::from_str("High"),
            Severity::Critical => String::from_str("Critical"),
        }
    }
}

/// Individual security finding.
#[derive(Debug)]
pub struct Finding {
    pub severity: Severity,
    pub title: String,
    pub description: String,
    pub affected_target: String,
    pub recommendation: Option<String>,
    pub metadata: Metadata,
}

impl Finding {
    /// Two findings hold the same fields; their metadata have the same
    /// entries.
    pub open spec fn same_as(&self, other: &Finding) -> bool {
        &&& self.severity == other.severity
        &&& self.title == other.title
        &&& self.description == other.description
        &&& self.affected_target == other.affected_target
        &&& self.recommendation == other.recommendation
        &&& self.metadata@ == other.metadata@
    }

    /// A finding with no recommendation and no metadata.
    pub fn new(severity: Severity, title: String, description: String, affected_target: String) -> (r: Finding)
        ensures
            r.severity == severity,
            r.title == title,
            r.description == description,
            r.affected_target == affected_target,
            r.recommendation is None,
            r.metadata@ == Map::<Seq<char>, Seq<char>>::empty(),
    {
        Finding {
            severity,
            title,
            description,
            affected_target,
            recommendation: None,
            metadata: Metadata::new(),
        }
    }

    /// The finding with its recommendation set to `recommendation`.
    pub fn with_recommendation(self, recommendation: String) -> (r: Finding)
        ensures
            r.recommendation == Some(recommendation),
            r.severity == self.severity,
            r.title == self.title,
            r.description == self.description,
            r.affected_target == self.affected_target,
            r.metadata == self.metadata,
    {
        let mut f = self;
        f.recommendation = Some(recommendation);
        f
    }

    /// The finding with `value` stored under `key` in its metadata,
    /// replacing any value stored there before.
    pub fn with_metadata(self, key: String, value: String) -> (r: Finding)
        ensures
            r.metadata@ == self.metadata@.insert(key@, value@),
            r.severity == self.severity,
            r.title == self.title,
            r.description == self.description,
            r.affected_target == self.affected_target,
            r.recommendation == self.recommendation,
    {
        let mut f = self;
        f.metadata.insert(key, value);
        f
    }
}

impl Clone for Finding {
    /// A finding with the same fields and metadata entries.
    fn clone(&self) -> (r: Self)
        ensures
            r.same_as(self),
    {
        Finding {
            severity: self.severity,
            title: self.title.clone(),
            description: self.description.clone(),
            affected_target: self.affected_target.clone(),
            recommendation: match &self.recommendation {
                Some(s) => Some(s.clone()),
                None => None,
            },
            metadata: self.metadata.clone(),
        }
    }
}

} // verus!
