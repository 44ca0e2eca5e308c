//! Configuration and orchestration for building a native C runtime library
//! through CMake, and for packaging what was built for the linker.
//!
//! [`config`] holds the build options and writes them as CMake definitions
//! into a [`store`]; [`readback`] proves that nothing is lost on the way.
//! [`environment`] resolves the compilers and the target, [`orchestrator`]
//! decides what is done next as the build goes on, [`artifacts`] says where
//! the build leaves what it made, and [`archive`] puts the startup objects
//! together.

pub use cmake;

pub mod archive;
pub mod artifacts;
pub mod config;
pub mod environment;
pub mod error;
pub mod orchestrator;
pub mod paths;
pub mod readback;
pub mod store;
pub mod targets;
pub mod text;
