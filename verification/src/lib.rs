//! A toolchain-driven build-and-link orchestrator for dynamically loadable
//! plugin modules.
//!
//! The library resolves (host, target) compilation pairs, parses a command
//! template table, checks build artifacts for staleness, extracts exported
//! symbols from a textual dump of compiled intermediate representation,
//! assembles linker invocations by placeholder substitution, locates prebuilt
//! artifacts, and models the strict load-and-invoke order for the produced
//! modules.

pub mod exports;
pub mod loader;
pub mod locate;
pub mod orchestrator;
pub mod plan;
pub mod platform;
pub mod probe;
pub mod service;
pub mod staleness;
pub mod sysroot;
pub mod text;
pub mod toolchain;

pub use platform::Pair;
pub use platform::Profile;
pub use platform::Triple;
