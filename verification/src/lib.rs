//! Watches a directory tree for filesystem changes and recompiles C/C++
//! sources as they are written or created.
//!
//! This crate holds the decision logic of that loop: which compiler to use,
//! which events trigger a compile, how the compiler command line is built,
//! and how a compile outcome is reported. Filesystem watching, the subprocess
//! launch and console printing sit outside, handing this crate plain values.
use vstd::prelude::*;

pub mod compiler;
pub mod events;
pub mod invoke;
pub mod laws;
pub mod paths;

pub use compiler::CompilerChoice;
pub use compiler::choose_compiler;
pub use compiler::executable_name;
pub use events::ChangeEvent;
pub use events::Dispatch;
pub use events::handle;
pub use invoke::CompileCommand;
pub use invoke::compiler_flags;
pub use invoke::plan_compile;
pub use invoke::report_outcome;
pub use paths::split_path;

verus! {

} // verus!
