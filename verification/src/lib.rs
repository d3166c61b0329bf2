//! Core types and verified logic of a modular security scanning toolkit:
//! scan targets, findings, scan results, module configuration, and the
//! port scanner module's decisions (which ports to probe, which hosts to
//! accept, and how probe outcomes become findings).

pub mod clock;
pub mod config;
pub mod error;
pub mod finding;
pub mod metadata;
pub mod module;
pub mod port_scanner;
pub mod registry;
pub mod scan;
pub mod target;
pub mod text;

pub use config::ModuleConfig;
pub use error::ModuleError;
pub use finding::{Finding, Severity};
pub use metadata::Metadata;
pub use module::SecurityModule;
pub use port_scanner::PortScanner;
pub use registry::{find_module, module_names};
pub use scan::{ScanResult, ScanStatus};
pub use target::{Protocol, Target};
