//! Zero-sized marker types for the two static axes of a handle: the
//! calling-convention family and the safety discipline.  A marker carries
//! no runtime payload; it only makes otherwise identical handle shapes
//! nominally distinct types, so a handle of one family can never stand
//! where another is expected.

use vstd::prelude::*;

verus! {

/// The calling-convention axis of a handle type.
///
/// Exactly two markers implement it: [`NativeConv`] and [`CConv`].  The
/// convention has no observable behaviour of its own; the marker exists so
/// that handles of the two families are distinct types.
pub trait Convention: Sized {
    /// True for the platform-C family, false for the native family.
    spec fn is_c() -> bool;
}

/// The safety axis of a handle type.
///
/// Exactly two markers implement it: [`SafeToCall`] and [`NeedsAssertion`].
/// The axis decides what an invocation demands of the call site: nothing
/// for the safe family, an explicit per-call assertion — here, a proof
/// that the callable admits the supplied arguments — for the other.
pub trait Safety: Sized {
    /// True for the assertion-required family, false for the safe family.
    spec fn requires_assertion() -> bool;

    /// Runtime mirror of [`Safety::requires_assertion`].
    fn assertion_required() -> (r: bool)
        ensures
            r == Self::requires_assertion(),
    ;
}

/// Marker for the native calling-convention family.
pub struct NativeConv;

/// Marker for the platform-C calling-convention family.
pub struct CConv;

/// Marker for the safe-to-call family: invocation demands nothing of the
/// call site, because construction already demanded a callable whose
/// precondition holds for every argument tuple.
pub struct SafeToCall;

/// Marker for the assertion-required family: every invocation carries the
/// call site's explicit assertion that the callable admits the arguments.
pub struct NeedsAssertion;

impl Convention for NativeConv {
    open spec fn is_c() -> bool {
        false
    }
}

impl Convention for CConv {
    open spec fn is_c() -> bool {
        true
    }
}

impl Safety for SafeToCall {
    open spec fn requires_assertion() -> bool {
        false
    }

    fn assertion_required() -> bool {
        false
    }
}

impl Safety for NeedsAssertion {
    open spec fn requires_assertion() -> bool {
        true
    }

    fn assertion_required() -> bool {
        true
    }
}

} // verus!
