//! Process-wide, read-only build configuration.
//!
//! The configuration is established once at process start and passed by
//! reference to every component that needs it; nothing here is mutated
//! after construction.

use vstd::prelude::*;

verus! {

/// The immutable build configuration: the base URLs templates expand, and
/// the strict-mode flag that turns silently followed redirects into hard
/// errors.
pub struct Settings {
    pub live_samples_base_url: String,
    pub interactive_examples_base_url: String,
    pub deny_warnings: bool,
}

} // verus!
