//! Output-format selection for keyboard-layout tooling built around the
//! sensing core.

use vstd::prelude::*;

verus! {

/// Target emitter of the layout compiler.
#[derive(Clone, Copy, Debug, PartialEq, Eq, Structural)]
pub enum EmitterType {
    /// Re-generate kll files.
    Kll,
    /// Old C-style code generation.
    Kiibohd,
    /// Configurator data format.
    Configurator,
    /// Simple rust code generation (for basic unit tests).
    Rust,
    /// Not set.
    Unset,
}

} // verus!
