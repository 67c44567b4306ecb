//! Build- and load-time instrumentation of JavaScript source trees.
//!
//! Given a catalog of instrumentation points, each naming a module, a semver
//! range, a file path and a syntactic function location, the engine rewrites
//! matching functions of a parsed program so that they publish lifecycle
//! events on a diagnostics channel, and inserts the channel plumbing at the
//! top of the program. Parsing and printing are the host's business: the
//! engine works on the value model of [`ast`].

use vstd::prelude::*;

pub mod ast;
pub mod config;
pub mod error;
pub mod function_query;
pub mod instrumentation;
pub mod laws;
pub mod semver;
pub mod visitor;

pub use config::{Config, InstrumentationConfig, ModuleMatcher};
pub use error::OrchestrionError;
pub use instrumentation::{get_script_start_index, Instrumentation};
pub use visitor::{InstrumentationVisitor, Instrumentor};
pub use function_query::{FunctionKind, FunctionQuery, FunctionType};

verus! {

/// Output of a transformation: the printed code and, when the host threaded a
/// source map through, the updated map.
#[derive(Debug, Clone)]
pub struct TransformOutput {
    /// The transformed JavaScript code.
    pub code: String,
    /// The source map for the transformation, if one was generated.
    pub map: Option<String>,
}

} // verus!
