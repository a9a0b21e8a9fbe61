//! A verified model of a small maintenance tool that keeps a local snapshot
//! of an upstream compiler's conformance-test suite in sync with a pinned
//! release tag.
//!
//! The tool itself only orchestrates external collaborators: a version-control
//! binary and recursive copy/delete utilities. This library captures
//! everything the tool decides — which operation a command-line token selects,
//! the ordered plan of steps each operation runs, the exact command line of
//! every step, how a step's exit status is mapped to an error and aborts the
//! rest of the plan, how the three on-disk artifacts evolve, and how the
//! captured revision hash is trimmed before it is written. A thin unverified
//! binary performs the process spawns and file writes the plans call for.

pub mod action;
pub mod command;
pub mod model;
pub mod plan;
pub mod text;
