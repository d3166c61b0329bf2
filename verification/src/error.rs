//! Errors that can occur during module execution.

use vstd::prelude::*;
use vstd::string::*;

verus! {

/// Errors that can occur during module execution. Each variant carries
/// the detail text that follows its label in [`ModuleError::message`].
#[derive(Debug)]
pub enum ModuleError {
    ConfigError(String),
    ExecutionError(String),
    NetworkError(String),
    ParseError(String),
    InvalidTarget(String),
}

impl ModuleError {
    /// The label that introduces the error's text.
    pub open spec fn label(&self) -> Seq<char> {
        match self {
            ModuleError::ConfigError(_) => "Configuration error: "@,
            ModuleError::ExecutionError(_) => "Execution error: "@,
            ModuleError::NetworkError(_) => "Network error: "@,
            ModuleError::ParseError(_) => "Parse error: "@,
            ModuleError::InvalidTarget(_) => "Invalid target: "@,
        }
    }

    /// The detail text the error carries.
    pub open spec fn detail(&self) -> Seq<char> {
        match self {
            ModuleError::ConfigError(s) => s@,
            ModuleError::ExecutionError(s) => s@,
            ModuleError::NetworkError(s) => s@,
            ModuleError::ParseError(s) => s@,
            ModuleError::InvalidTarget(s) => s@,
        }
    }

    /// The human-readable text of the error: its label followed by its
    /// detail, e.g. `Invalid target: Host cannot be empty`.
    pub fn message(&self) -> (r: String)
        ensures
            r@ == self.label() + self.detail(),
    {
        let (label, detail) = match self {
            ModuleError::ConfigError(s) => ("Configuration error: ", s),
            ModuleError::ExecutionError(s) => ("Execution error: ", s),
            ModuleError::NetworkError(s) => ("Network error: ", s),
            ModuleError::ParseError(s) => ("Parse error: ", s),
            ModuleError::InvalidTarget(s) => ("Invalid target: ", s),
        };
        let mut out = String::from_str(label);
        out.append(detail.as_str());
        out
    }
}

} // verus!
