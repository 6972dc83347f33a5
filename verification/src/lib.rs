//! Statically tagged function-pointer handles.
//!
//! A [`TaggedFp`] wraps a callable value together with compile-time markers
//! for its calling-convention family, its safety discipline, and a borrow
//! bound on how long the wrapped code may be assumed valid.  The markers
//! occupy no runtime storage: a handle holds exactly the wrapped callable.
//!
//! The safety axis is rendered as a proof obligation.  A handle of the
//! safe-to-call family can only be built from a callable whose precondition
//! holds for every argument tuple, so invoking it demands nothing of the
//! call site.  A handle of the assertion-required family accepts any
//! callable, and each invocation carries the obligation to show that the
//! callable admits the supplied arguments — the call site's explicit
//! assertion of safety.

mod markers;
mod handle;
mod arity;
mod laws;

pub use markers::Convention;
pub use markers::Safety;
pub use markers::NativeConv;
pub use markers::CConv;
pub use markers::SafeToCall;
pub use markers::NeedsAssertion;
pub use handle::TaggedFp;
pub use handle::FpBase;
pub use handle::CallFp;
pub use handle::Fp;
pub use handle::ExternFp;
pub use handle::UnsafeFp;
pub use handle::UnsafeExternFp;
pub use handle::lemma_call_pre_0;
pub use handle::lemma_call_post_0;
pub use handle::lemma_call_pre_1;
pub use handle::lemma_call_post_1;
pub use arity::lemma_call_pre_2;
pub use arity::lemma_call_post_2;
pub use arity::lemma_call_pre_3;
pub use arity::lemma_call_post_3;
pub use arity::lemma_call_pre_4;
pub use arity::lemma_call_post_4;
pub use arity::lemma_call_pre_5;
pub use arity::lemma_call_post_5;
pub use arity::lemma_call_pre_6;
pub use arity::lemma_call_post_6;
pub use arity::lemma_call_pre_7;
pub use arity::lemma_call_post_7;
pub use arity::lemma_call_pre_8;
pub use arity::lemma_call_post_8;
pub use arity::lemma_call_pre_9;
pub use arity::lemma_call_post_9;
pub use arity::lemma_call_pre_10;
pub use arity::lemma_call_post_10;
pub use arity::lemma_call_pre_11;
pub use arity::lemma_call_post_11;
pub use arity::lemma_call_pre_12;
pub use arity::lemma_call_post_12;
pub use laws::round_trip;
pub use laws::independent_calls;
pub use laws::lemma_safety_families_distinct;
