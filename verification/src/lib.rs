//! A sidecar process supervisor with environment-aware executable resolution.
//!
//! The library holds the decision logic of a supervisor that launches a
//! long-lived child process, relays its output as discrete events to an
//! event sink, and discovers named executables across operating systems
//! whose default execution environment may omit common installation
//! directories.
//!
//! All process spawning, filesystem probing and event delivery is I/O and
//! lives outside this crate; the library states, as verified functions,
//! what is decided at every step: which directories augment the search
//! path, how the enriched environment is built, which probe runs next
//! during resolution and what its outcome means, how a child's raw output
//! becomes forwarded events, and how a one-shot command's outcome becomes
//! a result.

pub mod catalog;
pub mod envmap;
pub mod oneshot;
pub mod platform;
pub mod resolver;
pub mod supervisor;
pub mod text;
