//! Host-side core of a text transformation scripting tool: the per-call status
//! record that a script's payload mutates, the rule that turns it into one
//! replacement action, and the module-specifier protocol behind `require`.
pub mod loader;
pub mod slot;
pub mod status;

pub use loader::{
    bundled_script, locate, prepare_module, with_default_extension, wrap_module, LoadError,
    ScriptLocation,
};
pub use status::{ExecutionStatus, TextReplacement};
