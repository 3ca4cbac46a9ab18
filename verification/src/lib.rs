//! Planning core of a Swift-bindings generator.
//!
//! Given a module namespace and an output directory, this library plans the
//! on-disk layout of the generated artifacts (bridging header, module map,
//! wrapper source), assembles the exact argument vectors for the external
//! Swift compiler and interpreter, and maps render / filesystem / subprocess
//! outcomes to the library's error type.  All filesystem access and process
//! spawning happens outside the library; callers hand in plain values (the
//! rendered artifact texts, directory entry names, exit statuses) and receive
//! plans and invocations whose contents are fully specified.

pub mod compile;
pub mod errors;
pub mod invoke;
pub mod paths;
pub mod script;
pub mod writer;

pub use compile::compile_bindings;
pub use errors::{Artifact, BindingsError};
pub use invoke::{process_outcome, Invocation};
pub use paths::{plan_layout, Layout};
pub use script::run_script;
pub use writer::{generate_bindings, module_map_render_input, write_bindings, Bindings, WritePlan};
