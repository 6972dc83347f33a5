//! The tagged handle itself: one generic shape, four nominal variants.
//!
//! [`TaggedFp`] stores exactly the wrapped callable; the convention marker,
//! the safety marker, the borrow bound and the argument/return parameters
//! are zero-sized compile-time tags.  The four public aliases [`Fp`],
//! [`ExternFp`], [`UnsafeFp`] and [`UnsafeExternFp`] name the four
//! (convention, safety) combinations.
//!
//! Construction and invocation are instantiated uniformly for every arity
//! from zero to twelve, the documented ceiling of the expansion; each
//! instantiation differs only in how many positional argument types the
//! tuple holds and in the order — the original positional order — in which
//! the tuple is applied to the callable.

use vstd::prelude::*;
use core::marker::PhantomData;
use crate::markers::Convention;
use crate::markers::Safety;
use crate::markers::NativeConv;
use crate::markers::CConv;
use crate::markers::SafeToCall;
use crate::markers::NeedsAssertion;

verus! {

/// A function-pointer handle tagged with a calling-convention marker `C`,
/// a safety marker `S`, a borrow bound `'f` on the wrapped code, the
/// argument tuple shape `Args`, and the return type `Ret`.
///
/// The only stored value is the wrapped callable `F`; everything else is a
/// compile-time tag of zero size, so a handle is exactly as large as the
/// callable it wraps.
pub struct TaggedFp<'f, C, S, Args, Ret, F> {
    pub(crate) f: F,
    pub(crate) _marker: PhantomData<(&'f (), C, S, Args, Ret)>,
}

/// Native convention, safe to call.
pub type Fp<'f, Args, Ret, F> = TaggedFp<'f, NativeConv, SafeToCall, Args, Ret, F>;

/// Platform-C convention, safe to call.
pub type ExternFp<'f, Args, Ret, F> = TaggedFp<'f, CConv, SafeToCall, Args, Ret, F>;

/// Native convention, invocation requires a per-call assertion.
pub type UnsafeFp<'f, Args, Ret, F> = TaggedFp<'f, NativeConv, NeedsAssertion, Args, Ret, F>;

/// Platform-C convention, invocation requires a per-call assertion.
pub type UnsafeExternFp<'f, Args, Ret, F> = TaggedFp<'f, CConv, NeedsAssertion, Args, Ret, F>;

/// What every handle variant offers regardless of arity: the static
/// safety-family predicate.
pub trait FpBase: Sized {
    /// The safety family of this handle type, as a spec-level constant:
    /// true exactly for the assertion-required variants.
    spec fn is_unsafe_spec() -> bool;

    /// Reports whether this concrete handle type belongs to the
    /// assertion-required family.  The answer depends on the type alone,
    /// never on the wrapped value.
    fn is_unsafe(&self) -> (r: bool)
        ensures
            r == Self::is_unsafe_spec(),
    ;
}

/// Construction-independent view of a handle of a given arity: recover the
/// wrapped callable, or invoke it with a matching argument tuple.
pub trait CallFp<'f, Args, Ret>: FpBase {
    /// The concrete callable type the handle wraps.
    type Raw;

    /// The wrapped callable, as a spec-level value.
    spec fn fp_spec(&self) -> Self::Raw;

    /// Well-formedness carried from construction: for the safe family,
    /// the wrapped callable admits every argument tuple; for the
    /// assertion-required family, nothing.
    spec fn wf(&self) -> bool;

    /// What an invocation demands of the call site: for the safe family,
    /// nothing; for the assertion-required family, that the wrapped
    /// callable admits `args` — the caller's explicit safety assertion.
    spec fn call_pre(&self, args: Args) -> bool;

    /// What an invocation guarantees: the result is one the wrapped
    /// callable itself could have produced for `args`.
    spec fn call_post(&self, args: Args, ret: Ret) -> bool;

    /// Recovers the wrapped callable from the handle.
    fn as_fp(&self) -> (r: Self::Raw)
        ensures
            r == self.fp_spec(),
    ;

    /// Invokes the wrapped callable on `args`, applying the tuple in
    /// positional order.  Whatever the callable returns — and nothing
    /// else — is returned; the handle adds no checking of its own.
    fn call(&self, args: Args) -> (r: Ret)
        requires
            self.wf(),
            self.call_pre(args),
        ensures
            self.call_post(args, r),
    ;

    /// Recovers the wrapped callable, consuming the handle.
    fn into_fp(self) -> (r: Self::Raw)
        ensures
            r == self.fp_spec(),
    {
        self.as_fp()
    }
}

impl<'f, C, S: Safety, Args, Ret, F> FpBase for TaggedFp<'f, C, S, Args, Ret, F> {
    open spec fn is_unsafe_spec() -> bool {
        S::requires_assertion()
    }

    fn is_unsafe(&self) -> bool {
        S::assertion_required()
    }
}

impl<'f, C: Convention, S: Safety, Ret, F: Fn() -> Ret + Copy> TaggedFp<'f, C, S, (), Ret, F> {
    /// Wraps a zero-argument callable.  For the safe family the callable
    /// must admit the empty argument tuple unconditionally; the
    /// assertion-required family accepts any callable.
    pub fn from_callable(f: F) -> (r: Self)
        requires
            !S::requires_assertion() ==> forall|a: ()| #[trigger] call_requires(f, a),
        ensures
            r.fp_spec() == f,
            r.wf(),
    {
        TaggedFp { f, _marker: PhantomData }
    }
}

impl<'f, C: Convention, S: Safety, Ret, F: Fn() -> Ret + Copy> CallFp<'f, (), Ret> for TaggedFp<'f, C, S, (), Ret, F> {
    type Raw = F;

    closed spec fn fp_spec(&self) -> F {
        self.f
    }

    open spec fn wf(&self) -> bool {
        S::requires_assertion() || forall|a: ()| #[trigger] call_requires(self.fp_spec(), a)
    }

    open spec fn call_pre(&self, args: ()) -> bool {
        S::requires_assertion() ==> call_requires(self.fp_spec(), args)
    }

    open spec fn call_post(&self, args: (), ret: Ret) -> bool {
        call_ensures(self.fp_spec(), args, ret)
    }

    fn as_fp(&self) -> F {
        self.f
    }

    fn call(&self, args: ()) -> Ret {
        proof {
            assert(args == ());
            if !S::requires_assertion() {
                assert(call_requires(self.fp_spec(), args));
            }
            assert(call_requires(self.f, ()));
        }
        (self.f)()
    }
}

impl<'f, C: Convention, S: Safety, A0, Ret, F: Fn(A0) -> Ret + Copy> TaggedFp<'f, C, S, (A0,), Ret, F> {
    /// Wraps a one-argument callable.  For the safe family the callable
    /// must admit every argument tuple; the assertion-required family
    /// accepts any callable.
    pub fn from_callable(f: F) -> (r: Self)
        requires
            !S::requires_assertion() ==> forall|a: (A0,)| #[trigger] call_requires(f, a),
        ensures
            r.fp_spec() == f,
            r.wf(),
    {
        TaggedFp { f, _marker: PhantomData }
    }
}

impl<'f, C: Convention, S: Safety, A0, Ret, F: Fn(A0) -> Ret + Copy> CallFp<'f, (A0,), Ret> for TaggedFp<'f, C, S, (A0,), Ret, F> {
    type Raw = F;

    closed spec fn fp_spec(&self) -> F {
        self.f
    }

    open spec fn wf(&self) -> bool {
        S::requires_assertion() || forall|a: (A0,)| #[trigger] call_requires(self.fp_spec(), a)
    }

    open spec fn call_pre(&self, args: (A0,)) -> bool {
        S::requires_assertion() ==> call_requires(self.fp_spec(), args)
    }

    open spec fn call_post(&self, args: (A0,), ret: Ret) -> bool {
        call_ensures(self.fp_spec(), args, ret)
    }

    fn as_fp(&self) -> F {
        self.f
    }

    fn call(&self, args: (A0,)) -> Ret {
        let (a0,) = args;
        proof {
            assert(args == (a0,));
            if !S::requires_assertion() {
                assert(call_requires(self.fp_spec(), args));
            }
            assert(call_requires(self.f, (a0,)));
        }
        (self.f)(a0)
    }
}

/// Restates the body of `call_pre` at arity zero, for callers at a
/// concrete handle type.
pub proof fn lemma_call_pre_0<'f, C: Convention, S: Safety, Ret, F: Fn() -> Ret + Copy>(h: TaggedFp<'f, C, S, (), Ret, F>, args: ())
    ensures
        h.call_pre(args) == (S::requires_assertion() ==> call_requires(h.fp_spec(), args)),
{
}

/// Restates the body of `call_post` at arity zero, for callers at a
/// concrete handle type.
pub proof fn lemma_call_post_0<'f, C: Convention, S: Safety, Ret, F: Fn() -> Ret + Copy>(h: TaggedFp<'f, C, S, (), Ret, F>, args: (), ret: Ret)
    ensures
        h.call_post(args, ret) == call_ensures(h.fp_spec(), args, ret),
{
}

/// Restates the body of `call_pre` at arity one, for callers at a
/// concrete handle type.
pub proof fn lemma_call_pre_1<'f, C: Convention, S: Safety, A0, Ret, F: Fn(A0) -> Ret + Copy>(h: TaggedFp<'f, C, S, (A0,), Ret, F>, args: (A0,))
    ensures
        h.call_pre(args) == (S::requires_assertion() ==> call_requires(h.fp_spec(), args)),
{
}

/// Restates the body of `call_post` at arity one, for callers at a
/// concrete handle type.
pub proof fn lemma_call_post_1<'f, C: Convention, S: Safety, A0, Ret, F: Fn(A0) -> Ret + Copy>(h: TaggedFp<'f, C, S, (A0,), Ret, F>, args: (A0,), ret: Ret)
    ensures
        h.call_post(args, ret) == call_ensures(h.fp_spec(), args, ret),
{
}

} // verus!
