//! The interface that security modules offer.

use vstd::prelude::*;
use crate::config::ModuleConfig;
use crate::error::ModuleError;
use crate::target::Target;

verus! {

/// What every security module offers besides running a scan: its name,
/// description and version, its configuration, and a check of whether a
/// target suits it. Running the scan is network work and is driven by the
/// application around this library.
pub trait SecurityModule: Send + Sync {
    /// The name of the module.
    fn name(&self) -> &str;

    /// A description of what the module does.
    fn description(&self) -> &str;

    /// The version of the module.
    fn version(&self) -> &str;

    /// Configures the module with custom settings.
    fn configure(&mut self, config: ModuleConfig) -> Result<(), ModuleError>;

    /// Checks that the target is appropriate for this module.
    fn validate_target(&self, target: &Target) -> Result<(), ModuleError>;
}

} // verus!
