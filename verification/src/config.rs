//! What a caller asks of a new context.

use vstd::prelude::*;

verus! {

/// An OpenGL version: the major number, then the minor one.
#[derive(Debug, Clone, Copy, PartialEq, Eq, Structural)]
pub struct Version(pub u8, pub u8);

/// The subset of OpenGL that a context is created against.
#[derive(Debug, Clone, Copy, PartialEq, Eq, Structural)]
pub enum GlProfile {
    /// Includes the deprecated functionality.
    Compatibility,
    /// Leaves the deprecated functionality out.
    Core,
}

/// What a context promises about its behaviour after a reset of the
/// rasterizer.
#[derive(Debug, Clone, Copy, PartialEq, Eq, Structural)]
pub enum Robustness {
    /// No promise; the default.
    NotRobust,
    /// No promise, and errors need not even be reported.
    NoError,
    /// Robust, without a notification on reset; creation fails where that
    /// cannot be had.
    RobustNoResetNotification,
    /// As `RobustNoResetNotification`, falling back to no promise.
    TryRobustNoResetNotification,
    /// Robust, the context being lost on reset; creation fails where that
    /// cannot be had.
    RobustLoseContextOnReset,
    /// As `RobustLoseContextOnReset`, falling back to no promise.
    TryRobustLoseContextOnReset,
}

impl Default for Robustness {
    /// No promise.
    fn default() -> (robustness: Robustness)
        ensures
            robustness == Robustness::NotRobust,
    {
        Robustness::NotRobust
    }
}

impl Robustness {
    /// Whether the policy demands a guarantee: the two policies without a
    /// fallback do.
    pub open spec fn demands_guarantee(self) -> bool {
        self == Robustness::RobustNoResetNotification || self
            == Robustness::RobustLoseContextOnReset
    }
}

/// The preferences a context is negotiated from. `T` is how another context
/// is named for sharing.
#[derive(Debug, Clone)]
pub struct ContextBuilderWrapper<T> {
    /// The context to share resources with, if any.
    pub sharing: Option<T>,
    /// The profile asked for, if any.
    pub profile: Option<GlProfile>,
    /// The robustness policy asked for.
    pub robustness: Robustness,
}

} // verus!
