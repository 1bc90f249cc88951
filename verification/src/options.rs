//! Rule options, supplied once and read-only.

use vstd::prelude::*;

verus! {

/// Argument-checking mode.
#[derive(Clone, Copy, PartialEq, Eq, Structural, Debug)]
pub enum ArgsOption {
    /// The `"none"` setting: never report unused parameters.
    NoCheck,
    /// Report every unused parameter.
    All,
    /// Forgive unused positional parameters that come before the last used
    /// one; report the rest, and every destructured parameter.
    AfterUsed,
}

/// Variable-checking mode.
#[derive(Clone, Copy, PartialEq, Eq, Structural, Debug)]
pub enum VarsOption {
    /// Report every unused variable.
    All,
    /// Do not report unused `var` declarations at the root scope.
    Local,
}

/// The rule's configuration, threaded through every predicate.
#[derive(Clone, Copy, PartialEq, Eq, Structural, Debug)]
pub struct NoUnusedVars {
    pub vars: VarsOption,
    pub args: ArgsOption,
}

} // verus!
