//! Uniform expansion of construction and invocation for arities two
//! through twelve.  Arities zero and one live beside the handle type
//! itself; every instantiation here repeats the same shape, differing only
//! in how many positional argument types the tuple holds and in the
//! positional order in which the tuple is applied to the callable.
//!
//! Each arity also carries two lemmas that restate the bodies of its
//! `call_pre` and `call_post` predicates; a caller that works at a fully
//! concrete handle type instantiates them to move between the predicates
//! and the wrapped callable's own contract.

use vstd::prelude::*;
use core::marker::PhantomData;
use crate::markers::Convention;
use crate::markers::Safety;
use crate::handle::TaggedFp;
use crate::handle::CallFp;

verus! {

impl<'f, C: Convention, S: Safety, A0, A1, Ret, F: Fn(A0, A1) -> Ret + Copy> TaggedFp<'f, C, S, (A0, A1), Ret, F> {
    /// Wraps a two-argument callable.  For the safe family the callable
    /// must admit every argument tuple; the assertion-required family
    /// accepts any callable.
    pub fn from_callable(f: F) -> (r: Self)
        requires
            !S::requires_assertion() ==> forall|a: (A0, A1)| #[trigger] call_requires(f, a),
        ensures
            r.fp_spec() == f,
            r.wf(),
    {
        TaggedFp { f, _marker: PhantomData }
    }
}

impl<'f, C: Convention, S: Safety, A0, A1, Ret, F: Fn(A0, A1) -> Ret + Copy> CallFp<'f, (A0, A1), Ret> for TaggedFp<'f, C, S, (A0, A1), Ret, F> {
    type Raw = F;

    closed spec fn fp_spec(&self) -> F {
        self.f
    }

    open spec fn wf(&self) -> bool {
        S::requires_assertion() || forall|a: (A0, A1)| #[trigger] call_requires(self.fp_spec(), a)
    }

    open spec fn call_pre(&self, args: (A0, A1)) -> bool {
        S::requires_assertion() ==> call_requires(self.fp_spec(), args)
    }

    open spec fn call_post(&self, args: (A0, A1), ret: Ret) -> bool {
        call_ensures(self.fp_spec(), args, ret)
    }

    fn as_fp(&self) -> F {
        self.f
    }

    fn call(&self, args: (A0, A1)) -> Ret {
        let (a0, a1) = args;
        proof {
            assert(args == (a0, a1));
            if !S::requires_assertion() {
                assert(call_requires(self.fp_spec(), args));
            }
            assert(call_requires(self.f, (a0, a1)));
        }
        (self.f)(a0, a1)
    }
}

/// Restates the body of `call_pre` at arity two, for callers at a
/// concrete handle type.
pub proof fn lemma_call_pre_2<'f, C: Convention, S: Safety, A0, A1, Ret, F: Fn(A0, A1) -> Ret + Copy>(h: TaggedFp<'f, C, S, (A0, A1), Ret, F>, args: (A0, A1))
    ensures
        h.call_pre(args) == (S::requires_assertion() ==> call_requires(h.fp_spec(), args)),
{
}

/// Restates the body of `call_post` at arity two, for callers at a
/// concrete handle type.
pub proof fn lemma_call_post_2<'f, C: Convention, S: Safety, A0, A1, Ret, F: Fn(A0, A1) -> Ret + Copy>(h: TaggedFp<'f, C, S, (A0, A1), Ret, F>, args: (A0, A1), ret: Ret)
    ensures
        h.call_post(args, ret) == call_ensures(h.fp_spec(), args, ret),
{
}

impl<'f, C: Convention, S: Safety, A0, A1, A2, Ret, F: Fn(A0, A1, A2) -> Ret + Copy> TaggedFp<'f, C, S, (A0, A1, A2), Ret, F> {
    /// Wraps a three-argument callable.  For the safe family the callable
    /// must admit every argument tuple; the assertion-required family
    /// accepts any callable.
    pub fn from_callable(f: F) -> (r: Self)
        requires
            !S::requires_assertion() ==> forall|a: (A0, A1, A2)| #[trigger] call_requires(f, a),
        ensures
            r.fp_spec() == f,
            r.wf(),
    {
        TaggedFp { f, _marker: PhantomData }
    }
}

impl<'f, C: Convention, S: Safety, A0, A1, A2, Ret, F: Fn(A0, A1, A2) -> Ret + Copy> CallFp<'f, (A0, A1, A2), Ret> for TaggedFp<'f, C, S, (A0, A1, A2), Ret, F> {
    type Raw = F;

    closed spec fn fp_spec(&self) -> F {
        self.f
    }

    open spec fn wf(&self) -> bool {
        S::requires_assertion() || forall|a: (A0, A1, A2)| #[trigger] call_requires(self.fp_spec(), a)
    }

    open spec fn call_pre(&self, args: (A0, A1, A2)) -> bool {
        S::requires_assertion() ==> call_requires(self.fp_spec(), args)
    }

    open spec fn call_post(&self, args: (A0, A1, A2), ret: Ret) -> bool {
        call_ensures(self.fp_spec(), args, ret)
    }

    fn as_fp(&self) -> F {
        self.f
    }

    fn call(&self, args: (A0, A1, A2)) -> Ret {
        let (a0, a1, a2) = args;
        proof {
            assert(args == (a0, a1, a2));
            if !S::requires_assertion() {
                assert(call_requires(self.fp_spec(), args));
            }
            assert(call_requires(self.f, (a0, a1, a2)));
        }
        (self.f)(a0, a1, a2)
    }
}

/// Restates the body of `call_pre` at arity three, for callers at a
/// concrete handle type.
pub proof fn lemma_call_pre_3<'f, C: Convention, S: Safety, A0, A1, A2, Ret, F: Fn(A0, A1, A2) -> Ret + Copy>(h: TaggedFp<'f, C, S, (A0, A1, A2), Ret, F>, args: (A0, A1, A2))
    ensures
        h.call_pre(args) == (S::requires_assertion() ==> call_requires(h.fp_spec(), args)),
{
}

/// Restates the body of `call_post` at arity three, for callers at a
/// concrete handle type.
pub proof fn lemma_call_post_3<'f, C: Convention, S: Safety, A0, A1, A2, Ret, F: Fn(A0, A1, A2) -> Ret + Copy>(h: TaggedFp<'f, C, S, (A0, A1, A2), Ret, F>, args: (A0, A1, A2), ret: Ret)
    ensures
        h.call_post(args, ret) == call_ensures(h.fp_spec(), args, ret),
{
}

impl<'f, C: Convention, S: Safety, A0, A1, A2, A3, Ret, F: Fn(A0, A1, A2, A3) -> Ret + Copy> TaggedFp<'f, C, S, (A0, A1, A2, A3), Ret, F> {
    /// Wraps a four-argument callable.  For the safe family the callable
    /// must admit every argument tuple; the assertion-required family
    /// accepts any callable.
    pub fn from_callable(f: F) -> (r: Self)
        requires
            !S::requires_assertion() ==> forall|a: (A0, A1, A2, A3)| #[trigger] call_requires(f, a),
        ensures
            r.fp_spec() == f,
            r.wf(),
    {
        TaggedFp { f, _marker: PhantomData }
    }
}

impl<'f, C: Convention, S: Safety, A0, A1, A2, A3, Ret, F: Fn(A0, A1, A2, A3) -> Ret + Copy> CallFp<'f, (A0, A1, A2, A3), Ret> for TaggedFp<'f, C, S, (A0, A1, A2, A3), Ret, F> {
    type Raw = F;

    closed spec fn fp_spec(&self) -> F {
        self.f
    }

    open spec fn wf(&self) -> bool {
        S::requires_assertion() || forall|a: (A0, A1, A2, A3)| #[trigger] call_requires(self.fp_spec(), a)
    }

    open spec fn call_pre(&self, args: (A0, A1, A2, A3)) -> bool {
        S::requires_assertion() ==> call_requires(self.fp_spec(), args)
    }

    open spec fn call_post(&self, args: (A0, A1, A2, A3), ret: Ret) -> bool {
        call_ensures(self.fp_spec(), args, ret)
    }

    fn as_fp(&self) -> F {
        self.f
    }

    fn call(&self, args: (A0, A1, A2, A3)) -> Ret {
        let (a0, a1, a2, a3) = args;
        proof {
            assert(args == (a0, a1, a2, a3));
            if !S::requires_assertion() {
                assert(call_requires(self.fp_spec(), args));
            }
            assert(call_requires(self.f, (a0, a1, a2, a3)));
        }
        (self.f)(a0, a1, a2, a3)
    }
}

/// Restates the body of `call_pre` at arity four, for callers at a
/// concrete handle type.
pub proof fn lemma_call_pre_4<'f, C: Convention, S: Safety, A0, A1, A2, A3, Ret, F: Fn(A0, A1, A2, A3) -> Ret + Copy>(h: TaggedFp<'f, C, S, (A0, A1, A2, A3), Ret, F>, args: (A0, A1, A2, A3))
    ensures
        h.call_pre(args) == (S::requires_assertion() ==> call_requires(h.fp_spec(), args)),
{
}

/// Restates the body of `call_post` at arity four, for callers at a
/// concrete handle type.
pub proof fn lemma_call_post_4<'f, C: Convention, S: Safety, A0, A1, A2, A3, Ret, F: Fn(A0, A1, A2, A3) -> Ret + Copy>(h: TaggedFp<'f, C, S, (A0, A1, A2, A3), Ret, F>, args: (A0, A1, A2, A3), ret: Ret)
    ensures
        h.call_post(args, ret) == call_ensures(h.fp_spec(), args, ret),
{
}

impl<'f, C: Convention, S: Safety, A0, A1, A2, A3, A4, Ret, F: Fn(A0, A1, A2, A3, A4) -> Ret + Copy> TaggedFp<'f, C, S, (A0, A1, A2, A3, A4), Ret, F> {
    /// Wraps a five-argument callable.  For the safe family the callable
    /// must admit every argument tuple; the assertion-required family
    /// accepts any callable.
    pub fn from_callable(f: F) -> (r: Self)
        requires
            !S::requires_assertion() ==> forall|a: (A0, A1, A2, A3, A4)| #[trigger] call_requires(f, a),
        ensures
            r.fp_spec() == f,
            r.wf(),
    {
        TaggedFp { f, _marker: PhantomData }
    }
}

impl<'f, C: Convention, S: Safety, A0, A1, A2, A3, A4, Ret, F: Fn(A0, A1, A2, A3, A4) -> Ret + Copy> CallFp<'f, (A0, A1, A2, A3, A4), Ret> for TaggedFp<'f, C, S, (A0, A1, A2, A3, A4), Ret, F> {
    type Raw = F;

    closed spec fn fp_spec(&self) -> F {
        self.f
    }

    open spec fn wf(&self) -> bool {
        S::requires_assertion() || forall|a: (A0, A1, A2, A3, A4)| #[trigger] call_requires(self.fp_spec(), a)
    }

    open spec fn call_pre(&self, args: (A0, A1, A2, A3, A4)) -> bool {
        S::requires_assertion() ==> call_requires(self.fp_spec(), args)
    }

    open spec fn call_post(&self, args: (A0, A1, A2, A3, A4), ret: Ret) -> bool {
        call_ensures(self.fp_spec(), args, ret)
    }

    fn as_fp(&self) -> F {
        self.f
    }

    fn call(&self, args: (A0, A1, A2, A3, A4)) -> Ret {
        let (a0, a1, a2, a3, a4) = args;
        proof {
            assert(args == (a0, a1, a2, a3, a4));
            if !S::requires_assertion() {
                assert(call_requires(self.fp_spec(), args));
            }
            assert(call_requires(self.f, (a0, a1, a2, a3, a4)));
        }
        (self.f)(a0, a1, a2, a3, a4)
    }
}

/// Restates the body of `call_pre` at arity five, for callers at a
/// concrete handle type.
pub proof fn lemma_call_pre_5<'f, C: Convention, S: Safety, A0, A1, A2, A3, A4, Ret, F: Fn(A0, A1, A2, A3, A4) -> Ret + Copy>(h: TaggedFp<'f, C, S, (A0, A1, A2, A3, A4), Ret, F>, args: (A0, A1, A2, A3, A4))
    ensures
        h.call_pre(args) == (S::requires_assertion() ==> call_requires(h.fp_spec(), args)),
{
}

/// Restates the body of `call_post` at arity five, for callers at a
/// concrete handle type.
pub proof fn lemma_call_post_5<'f, C: Convention, S: Safety, A0, A1, A2, A3, A4, Ret, F: Fn(A0, A1, A2, A3, A4) -> Ret + Copy>(h: TaggedFp<'f, C, S, (A0, A1, A2, A3, A4), Ret, F>, args: (A0, A1, A2, A3, A4), ret: Ret)
    ensures
        h.call_post(args, ret) == call_ensures(h.fp_spec(), args, ret),
{
}

impl<'f, C: Convention, S: Safety, A0, A1, A2, A3, A4, A5, Ret, F: Fn(A0, A1, A2, A3, A4, A5) -> Ret + Copy> TaggedFp<'f, C, S, (A0, A1, A2, A3, A4, A5), Ret, F> {
    /// Wraps a six-argument callable.  For the safe family the callable
    /// must admit every argument tuple; the assertion-required family
    /// accepts any callable.
    pub fn from_callable(f: F) -> (r: Self)
        requires
            !S::requires_assertion() ==> forall|a: (A0, A1, A2, A3, A4, A5)| #[trigger] call_requires(f, a),
        ensures
            r.fp_spec() == f,
            r.wf(),
    {
        TaggedFp { f, _marker: PhantomData }
    }
}

impl<'f, C: Convention, S: Safety, A0, A1, A2, A3, A4, A5, Ret, F: Fn(A0, A1, A2, A3, A4, A5) -> Ret + Copy> CallFp<'f, (A0, A1, A2, A3, A4, A5), Ret> for TaggedFp<'f, C, S, (A0, A1, A2, A3, A4, A5), Ret, F> {
    type Raw = F;

    closed spec fn fp_spec(&self) -> F {
        self.f
    }

    open spec fn wf(&self) -> bool {
        S::requires_assertion() || forall|a: (A0, A1, A2, A3, A4, A5)| #[trigger] call_requires(self.fp_spec(), a)
    }

    open spec fn call_pre(&self, args: (A0, A1, A2, A3, A4, A5)) -> bool {
        S::requires_assertion() ==> call_requires(self.fp_spec(), args)
    }

    open spec fn call_post(&self, args: (A0, A1, A2, A3, A4, A5), ret: Ret) -> bool {
        call_ensures(self.fp_spec(), args, ret)
    }

    fn as_fp(&self) -> F {
        self.f
    }

    fn call(&self, args: (A0, A1, A2, A3, A4, A5)) -> Ret {
        let (a0, a1, a2, a3, a4, a5) = args;
        proof {
            assert(args == (a0, a1, a2, a3, a4, a5));
            if !S::requires_assertion() {
                assert(call_requires(self.fp_spec(), args));
            }
            assert(call_requires(self.f, (a0, a1, a2, a3, a4, a5)));
        }
        (self.f)(a0, a1, a2, a3, a4, a5)
    }
}

/// Restates the body of `call_pre` at arity six, for callers at a
/// concrete handle type.
pub proof fn lemma_call_pre_6<'f, C: Convention, S: Safety, A0, A1, A2, A3, A4, A5, Ret, F: Fn(A0, A1, A2, A3, A4, A5) -> Ret + Copy>(h: TaggedFp<'f, C, S, (A0, A1, A2, A3, A4, A5), Ret, F>, args: (A0, A1, A2, A3, A4, A5))
    ensures
        h.call_pre(args) == (S::requires_assertion() ==> call_requires(h.fp_spec(), args)),
{
}

/// Restates the body of `call_post` at arity six, for callers at a
/// concrete handle type.
pub proof fn lemma_call_post_6<'f, C: Convention, S: Safety, A0, A1, A2, A3, A4, A5, Ret, F: Fn(A0, A1, A2, A3, A4, A5) -> Ret + Copy>(h: TaggedFp<'f, C, S, (A0, A1, A2, A3, A4, A5), Ret, F>, args: (A0, A1, A2, A3, A4, A5), ret: Ret)
    ensures
        h.call_post(args, ret) == call_ensures(h.fp_spec(), args, ret),
{
}

impl<'f, C: Convention, S: Safety, A0, A1, A2, A3, A4, A5, A6, Ret, F: Fn(A0, A1, A2, A3, A4, A5, A6) -> Ret + Copy> TaggedFp<'f, C, S, (A0, A1, A2, A3, A4, A5, A6), Ret, F> {
    /// Wraps a seven-argument callable.  For the safe family the callable
    /// must admit every argument tuple; the assertion-required family
    /// accepts any callable.
    pub fn from_callable(f: F) -> (r: Self)
        requires
            !S::requires_assertion() ==> forall|a: (A0, A1, A2, A3, A4, A5, A6)| #[trigger] call_requires(f, a),
        ensures
            r.fp_spec() == f,
            r.wf(),
    {
        TaggedFp { f, _marker: PhantomData }
    }
}

impl<'f, C: Convention, S: Safety, A0, A1, A2, A3, A4, A5, A6, Ret, F: Fn(A0, A1, A2, A3, A4, A5, A6) -> Ret + Copy> CallFp<'f, (A0, A1, A2, A3, A4, A5, A6), Ret> for TaggedFp<'f, C, S, (A0, A1, A2, A3, A4, A5, A6), Ret, F> {
    type Raw = F;

    closed spec fn fp_spec(&self) -> F {
        self.f
    }

    open spec fn wf(&self) -> bool {
        S::requires_assertion() || forall|a: (A0, A1, A2, A3, A4, A5, A6)| #[trigger] call_requires(self.fp_spec(), a)
    }

    open spec fn call_pre(&self, args: (A0, A1, A2, A3, A4, A5, A6)) -> bool {
        S::requires_assertion() ==> call_requires(self.fp_spec(), args)
    }

    open spec fn call_post(&self, args: (A0, A1, A2, A3, A4, A5, A6), ret: Ret) -> bool {
        call_ensures(self.fp_spec(), args, ret)
    }

    fn as_fp(&self) -> F {
        self.f
    }

    fn call(&self, args: (A0, A1, A2, A3, A4, A5, A6)) -> Ret {
        let (a0, a1, a2, a3, a4, a5, a6) = args;
        proof {
            assert(args == (a0, a1, a2, a3, a4, a5, a6));
            if !S::requires_assertion() {
                assert(call_requires(self.fp_spec(), args));
            }
            assert(call_requires(self.f, (a0, a1, a2, a3, a4, a5, a6)));
        }
        (self.f)(a0, a1, a2, a3, a4, a5, a6)
    }
}

/// Restates the body of `call_pre` at arity seven, for callers at a
/// concrete handle type.
pub proof fn lemma_call_pre_7<'f, C: Convention, S: Safety, A0, A1, A2, A3, A4, A5, A6, Ret, F: Fn(A0, A1, A2, A3, A4, A5, A6) -> Ret + Copy>(h: TaggedFp<'f, C, S, (A0, A1, A2, A3, A4, A5, A6), Ret, F>, args: (A0, A1, A2, A3, A4, A5, A6))
    ensures
        h.call_pre(args) == (S::requires_assertion() ==> call_requires(h.fp_spec(), args)),
{
}

/// Restates the body of `call_post` at arity seven, for callers at a
/// concrete handle type.
pub proof fn lemma_call_post_7<'f, C: Convention, S: Safety, A0, A1, A2, A3, A4, A5, A6, Ret, F: Fn(A0, A1, A2, A3, A4, A5, A6) -> Ret + Copy>(h: TaggedFp<'f, C, S, (A0, A1, A2, A3, A4, A5, A6), Ret, F>, args: (A0, A1, A2, A3, A4, A5, A6), ret: Ret)
    ensures
        h.call_post(args, ret) == call_ensures(h.fp_spec(), args, ret),
{
}

impl<'f, C: Convention, S: Safety, A0, A1, A2, A3, A4, A5, A6, A7, Ret, F: Fn(A0, A1, A2, A3, A4, A5, A6, A7) -> Ret + Copy> TaggedFp<'f, C, S, (A0, A1, A2, A3, A4, A5, A6, A7), Ret, F> {
    /// Wraps a eight-argument callable.  For the safe family the callable
    /// must admit every argument tuple; the assertion-required family
    /// accepts any callable.
    pub fn from_callable(f: F) -> (r: Self)
        requires
            !S::requires_assertion() ==> forall|a: (A0, A1, A2, A3, A4, A5, A6, A7)| #[trigger] call_requires(f, a),
        ensures
            r.fp_spec() == f,
            r.wf(),
    {
        TaggedFp { f, _marker: PhantomData }
    }
}

impl<'f, C: Convention, S: Safety, A0, A1, A2, A3, A4, A5, A6, A7, Ret, F: Fn(A0, A1, A2, A3, A4, A5, A6, A7) -> Ret + Copy> CallFp<'f, (A0, A1, A2, A3, A4, A5, A6, A7), Ret> for TaggedFp<'f, C, S, (A0, A1, A2, A3, A4, A5, A6, A7), Ret, F> {
    type Raw = F;

    closed spec fn fp_spec(&self) -> F {
        self.f
    }

    open spec fn wf(&self) -> bool {
        S::requires_assertion() || forall|a: (A0, A1, A2, A3, A4, A5, A6, A7)| #[trigger] call_requires(self.fp_spec(), a)
    }

    open spec fn call_pre(&self, args: (A0, A1, A2, A3, A4, A5, A6, A7)) -> bool {
        S::requires_assertion() ==> call_requires(self.fp_spec(), args)
    }

    open spec fn call_post(&self, args: (A0, A1, A2, A3, A4, A5, A6, A7), ret: Ret) -> bool {
        call_ensures(self.fp_spec(), args, ret)
    }

    fn as_fp(&self) -> F {
        self.f
    }

    fn call(&self, args: (A0, A1, A2, A3, A4, A5, A6, A7)) -> Ret {
        let (a0, a1, a2, a3, a4, a5, a6, a7) = args;
        proof {
            assert(args == (a0, a1, a2, a3, a4, a5, a6, a7));
            if !S::requires_assertion() {
                assert(call_requires(self.fp_spec(), args));
            }
            assert(call_requires(self.f, (a0, a1, a2, a3, a4, a5, a6, a7)));
        }
        (self.f)(a0, a1, a2, a3, a4, a5, a6, a7)
    }
}

/// Restates the body of `call_pre` at arity eight, for callers at a
/// concrete handle type.
pub proof fn lemma_call_pre_8<'f, C: Convention, S: Safety, A0, A1, A2, A3, A4, A5, A6, A7, Ret, F: Fn(A0, A1, A2, A3, A4, A5, A6, A7) -> Ret + Copy>(h: TaggedFp<'f, C, S, (A0, A1, A2, A3, A4, A5, A6, A7), Ret, F>, args: (A0, A1, A2, A3, A4, A5, A6, A7))
    ensures
        h.call_pre(args) == (S::requires_assertion() ==> call_requires(h.fp_spec(), args)),
{
}

/// Restates the body of `call_post` at arity eight, for callers at a
/// concrete handle type.
pub proof fn lemma_call_post_8<'f, C: Convention, S: Safety, A0, A1, A2, A3, A4, A5, A6, A7, Ret, F: Fn(A0, A1, A2, A3, A4, A5, A6, A7) -> Ret + Copy>(h: TaggedFp<'f, C, S, (A0, A1, A2, A3, A4, A5, A6, A7), Ret, F>, args: (A0, A1, A2, A3, A4, A5, A6, A7), ret: Ret)
    ensures
        h.call_post(args, ret) == call_ensures(h.fp_spec(), args, ret),
{
}

impl<'f, C: Convention, S: Safety, A0, A1, A2, A3, A4, A5, A6, A7, A8, Ret, F: Fn(A0, A1, A2, A3, A4, A5, A6, A7, A8) -> Ret + Copy> TaggedFp<'f, C, S, (A0, A1, A2, A3, A4, A5, A6, A7, A8), Ret, F> {
    /// Wraps a nine-argument callable.  For the safe family the callable
    /// must admit every argument tuple; the assertion-required family
    /// accepts any callable.
    pub fn from_callable(f: F) -> (r: Self)
        requires
            !S::requires_assertion() ==> forall|a: (A0, A1, A2, A3, A4, A5, A6, A7, A8)| #[trigger] call_requires(f, a),
        ensures
            r.fp_spec() == f,
            r.wf(),
    {
        TaggedFp { f, _marker: PhantomData }
    }
}

impl<'f, C: Convention, S: Safety, A0, A1, A2, A3, A4, A5, A6, A7, A8, Ret, F: Fn(A0, A1, A2, A3, A4, A5, A6, A7, A8) -> Ret + Copy> CallFp<'f, (A0, A1, A2, A3, A4, A5, A6, A7, A8), Ret> for TaggedFp<'f, C, S, (A0, A1, A2, A3, A4, A5, A6, A7, A8), Ret, F> {
    type Raw = F;

    closed spec fn fp_spec(&self) -> F {
        self.f
    }

    open spec fn wf(&self) -> bool {
        S::requires_assertion() || forall|a: (A0, A1, A2, A3, A4, A5, A6, A7, A8)| #[trigger] call_requires(self.fp_spec(), a)
    }

    open spec fn call_pre(&self, args: (A0, A1, A2, A3, A4, A5, A6, A7, A8)) -> bool {
        S::requires_assertion() ==> call_requires(self.fp_spec(), args)
    }

    open spec fn call_post(&self, args: (A0, A1, A2, A3, A4, A5, A6, A7, A8), ret: Ret) -> bool {
        call_ensures(self.fp_spec(), args, ret)
    }

    fn as_fp(&self) -> F {
        self.f
    }

    fn call(&self, args: (A0, A1, A2, A3, A4, A5, A6, A7, A8)) -> Ret {
        let (a0, a1, a2, a3, a4, a5, a6, a7, a8) = args;
        proof {
            assert(args == (a0, a1, a2, a3, a4, a5, a6, a7, a8));
            if !S::requires_assertion() {
                assert(call_requires(self.fp_spec(), args));
            }
            assert(call_requires(self.f, (a0, a1, a2, a3, a4, a5, a6, a7, a8)));
        }
        (self.f)(a0, a1, a2, a3, a4, a5, a6, a7, a8)
    }
}

/// Restates the body of `call_pre` at arity nine, for callers at a
/// concrete handle type.
pub proof fn lemma_call_pre_9<'f, C: Convention, S: Safety, A0, A1, A2, A3, A4, A5, A6, A7, A8, Ret, F: Fn(A0, A1, A2, A3, A4, A5, A6, A7, A8) -> Ret + Copy>(h: TaggedFp<'f, C, S, (A0, A1, A2, A3, A4, A5, A6, A7, A8), Ret, F>, args: (A0, A1, A2, A3, A4, A5, A6, A7, A8))
    ensures
        h.call_pre(args) == (S::requires_assertion() ==> call_requires(h.fp_spec(), args)),
{
}

/// Restates the body of `call_post` at arity nine, for callers at a
/// concrete handle type.
pub proof fn lemma_call_post_9<'f, C: Convention, S: Safety, A0, A1, A2, A3, A4, A5, A6, A7, A8, Ret, F: Fn(A0, A1, A2, A3, A4, A5, A6, A7, A8) -> Ret + Copy>(h: TaggedFp<'f, C, S, (A0, A1, A2, A3, A4, A5, A6, A7, A8), Ret, F>, args: (A0, A1, A2, A3, A4, A5, A6, A7, A8), ret: Ret)
    ensures
        h.call_post(args, ret) == call_ensures(h.fp_spec(), args, ret),
{
}

impl<'f, C: Convention, S: Safety, A0, A1, A2, A3, A4, A5, A6, A7, A8, A9, Ret, F: Fn(A0, A1, A2, A3, A4, A5, A6, A7, A8, A9) -> Ret + Copy> TaggedFp<'f, C, S, (A0, A1, A2, A3, A4, A5, A6, A7, A8, A9), Ret, F> {
    /// Wraps a ten-argument callable.  For the safe family the callable
    /// must admit every argument tuple; the assertion-required family
    /// accepts any callable.
    pub fn from_callable(f: F) -> (r: Self)
        requires
            !S::requires_assertion() ==> forall|a: (A0, A1, A2, A3, A4, A5, A6, A7, A8, A9)| #[trigger] call_requires(f, a),
        ensures
            r.fp_spec() == f,
            r.wf(),
    {
        TaggedFp { f, _marker: PhantomData }
    }
}

impl<'f, C: Convention, S: Safety, A0, A1, A2, A3, A4, A5, A6, A7, A8, A9, Ret, F: Fn(A0, A1, A2, A3, A4, A5, A6, A7, A8, A9) -> Ret + Copy> CallFp<'f, (A0, A1, A2, A3, A4, A5, A6, A7, A8, A9), Ret> for TaggedFp<'f, C, S, (A0, A1, A2, A3, A4, A5, A6, A7, A8, A9), Ret, F> {
    type Raw = F;

    closed spec fn fp_spec(&self) -> F {
        self.f
    }

    open spec fn wf(&self) -> bool {
        S::requires_assertion() || forall|a: (A0, A1, A2, A3, A4, A5, A6, A7, A8, A9)| #[trigger] call_requires(self.fp_spec(), a)
    }

    open spec fn call_pre(&self, args: (A0, A1, A2, A3, A4, A5, A6, A7, A8, A9)) -> bool {
        S::requires_assertion() ==> call_requires(self.fp_spec(), args)
    }

    open spec fn call_post(&self, args: (A0, A1, A2, A3, A4, A5, A6, A7, A8, A9), ret: Ret) -> bool {
        call_ensures(self.fp_spec(), args, ret)
    }

    fn as_fp(&self) -> F {
        self.f
    }

    fn call(&self, args: (A0, A1, A2, A3, A4, A5, A6, A7, A8, A9)) -> Ret {
        let (a0, a1, a2, a3, a4, a5, a6, a7, a8, a9) = args;
        proof {
            assert(args == (a0, a1, a2, a3, a4, a5, a6, a7, a8, a9));
            if !S::requires_assertion() {
                assert(call_requires(self.fp_spec(), args));
            }
            assert(call_requires(self.f, (a0, a1, a2, a3, a4, a5, a6, a7, a8, a9)));
        }
        (self.f)(a0, a1, a2, a3, a4, a5, a6, a7, a8, a9)
    }
}

/// Restates the body of `call_pre` at arity ten, for callers at a
/// concrete handle type.
pub proof fn lemma_call_pre_10<'f, C: Convention, S: Safety, A0, A1, A2, A3, A4, A5, A6, A7, A8, A9, Ret, F: Fn(A0, A1, A2, A3, A4, A5, A6, A7, A8, A9) -> Ret + Copy>(h: TaggedFp<'f, C, S, (A0, A1, A2, A3, A4, A5, A6, A7, A8, A9), Ret, F>, args: (A0, A1, A2, A3, A4, A5, A6, A7, A8, A9))
    ensures
        h.call_pre(args) == (S::requires_assertion() ==> call_requires(h.fp_spec(), args)),
{
}

/// Restates the body of `call_post` at arity ten, for callers at a
/// concrete handle type.
pub proof fn lemma_call_post_10<'f, C: Convention, S: Safety, A0, A1, A2, A3, A4, A5, A6, A7, A8, A9, Ret, F: Fn(A0, A1, A2, A3, A4, A5, A6, A7, A8, A9) -> Ret + Copy>(h: TaggedFp<'f, C, S, (A0, A1, A2, A3, A4, A5, A6, A7, A8, A9), Ret, F>, args: (A0, A1, A2, A3, A4, A5, A6, A7, A8, A9), ret: Ret)
    ensures
        h.call_post(args, ret) == call_ensures(h.fp_spec(), args, ret),
{
}

impl<'f, C: Convention, S: Safety, A0, A1, A2, A3, A4, A5, A6, A7, A8, A9, A10, Ret, F: Fn(A0, A1, A2, A3, A4, A5, A6, A7, A8, A9, A10) -> Ret + Copy> TaggedFp<'f, C, S, (A0, A1, A2, A3, A4, A5, A6, A7, A8, A9, A10), Ret, F> {
    /// Wraps a eleven-argument callable.  For the safe family the callable
    /// must admit every argument tuple; the assertion-required family
    /// accepts any callable.
    pub fn from_callable(f: F) -> (r: Self)
        requires
            !S::requires_assertion() ==> forall|a: (A0, A1, A2, A3, A4, A5, A6, A7, A8, A9, A10)| #[trigger] call_requires(f, a),
        ensures
            r.fp_spec() == f,
            r.wf(),
    {
        TaggedFp { f, _marker: PhantomData }
    }
}

impl<'f, C: Convention, S: Safety, A0, A1, A2, A3, A4, A5, A6, A7, A8, A9, A10, Ret, F: Fn(A0, A1, A2, A3, A4, A5, A6, A7, A8, A9, A10) -> Ret + Copy> CallFp<'f, (A0, A1, A2, A3, A4, A5, A6, A7, A8, A9, A10), Ret> for TaggedFp<'f, C, S, (A0, A1, A2, A3, A4, A5, A6, A7, A8, A9, A10), Ret, F> {
    type Raw = F;

    closed spec fn fp_spec(&self) -> F {
        self.f
    }

    open spec fn wf(&self) -> bool {
        S::requires_assertion() || forall|a: (A0, A1, A2, A3, A4, A5, A6, A7, A8, A9, A10)| #[trigger] call_requires(self.fp_spec(), a)
    }

    open spec fn call_pre(&self, args: (A0, A1, A2, A3, A4, A5, A6, A7, A8, A9, A10)) -> bool {
        S::requires_assertion() ==> call_requires(self.fp_spec(), args)
    }

    open spec fn call_post(&self, args: (A0, A1, A2, A3, A4, A5, A6, A7, A8, A9, A10), ret: Ret) -> bool {
        call_ensures(self.fp_spec(), args, ret)
    }

    fn as_fp(&self) -> F {
        self.f
    }

    fn call(&self, args: (A0, A1, A2, A3, A4, A5, A6, A7, A8, A9, A10)) -> Ret {
        let (a0, a1, a2, a3, a4, a5, a6, a7, a8, a9, a10) = args;
        proof {
            assert(args == (a0, a1, a2, a3, a4, a5, a6, a7, a8, a9, a10));
            if !S::requires_assertion() {
                assert(call_requires(self.fp_spec(), args));
            }
            assert(call_requires(self.f, (a0, a1, a2, a3, a4, a5, a6, a7, a8, a9, a10)));
        }
        (self.f)(a0, a1, a2, a3, a4, a5, a6, a7, a8, a9, a10)
    }
}

/// Restates the body of `call_pre` at arity eleven, for callers at a
/// concrete handle type.
pub proof fn lemma_call_pre_11<'f, C: Convention, S: Safety, A0, A1, A2, A3, A4, A5, A6, A7, A8, A9, A10, Ret, F: Fn(A0, A1, A2, A3, A4, A5, A6, A7, A8, A9, A10) -> Ret + Copy>(h: TaggedFp<'f, C, S, (A0, A1, A2, A3, A4, A5, A6, A7, A8, A9, A10), Ret, F>, args: (A0, A1, A2, A3, A4, A5, A6, A7, A8, A9, A10))
    ensures
        h.call_pre(args) == (S::requires_assertion() ==> call_requires(h.fp_spec(), args)),
{
}

/// Restates the body of `call_post` at arity eleven, for callers at a
/// concrete handle type.
pub proof fn lemma_call_post_11<'f, C: Convention, S: Safety, A0, A1, A2, A3, A4, A5, A6, A7, A8, A9, A10, Ret, F: Fn(A0, A1, A2, A3, A4, A5, A6, A7, A8, A9, A10) -> Ret + Copy>(h: TaggedFp<'f, C, S, (A0, A1, A2, A3, A4, A5, A6, A7, A8, A9, A10), Ret, F>, args: (A0, A1, A2, A3, A4, A5, A6, A7, A8, A9, A10), ret: Ret)
    ensures
        h.call_post(args, ret) == call_ensures(h.fp_spec(), args, ret),
{
}

impl<'f, C: Convention, S: Safety, A0, A1, A2, A3, A4, A5, A6, A7, A8, A9, A10, A11, Ret, F: Fn(A0, A1, A2, A3, A4, A5, A6, A7, A8, A9, A10, A11) -> Ret + Copy> TaggedFp<'f, C, S, (A0, A1, A2, A3, A4, A5, A6, A7, A8, A9, A10, A11), Ret, F> {
    /// Wraps a twelve-argument callable.  For the safe family the callable
    /// must admit every argument tuple; the assertion-required family
    /// accepts any callable.
    pub fn from_callable(f: F) -> (r: Self)
        requires
            !S::requires_assertion() ==> forall|a: (A0, A1, A2, A3, A4, A5, A6, A7, A8, A9, A10, A11)| #[trigger] call_requires(f, a),
        ensures
            r.fp_spec() == f,
            r.wf(),
    {
        TaggedFp { f, _marker: PhantomData }
    }
}

impl<'f, C: Convention, S: Safety, A0, A1, A2, A3, A4, A5, A6, A7, A8, A9, A10, A11, Ret, F: Fn(A0, A1, A2, A3, A4, A5, A6, A7, A8, A9, A10, A11) -> Ret + Copy> CallFp<'f, (A0, A1, A2, A3, A4, A5, A6, A7, A8, A9, A10, A11), Ret> for TaggedFp<'f, C, S, (A0, A1, A2, A3, A4, A5, A6, A7, A8, A9, A10, A11), Ret, F> {
    type Raw = F;

    closed spec fn fp_spec(&self) -> F {
        self.f
    }

    open spec fn wf(&self) -> bool {
        S::requires_assertion() || forall|a: (A0, A1, A2, A3, A4, A5, A6, A7, A8, A9, A10, A11)| #[trigger] call_requires(self.fp_spec(), a)
    }

    open spec fn call_pre(&self, args: (A0, A1, A2, A3, A4, A5, A6, A7, A8, A9, A10, A11)) -> bool {
        S::requires_assertion() ==> call_requires(self.fp_spec(), args)
    }

    open spec fn call_post(&self, args: (A0, A1, A2, A3, A4, A5, A6, A7, A8, A9, A10, A11), ret: Ret) -> bool {
        call_ensures(self.fp_spec(), args, ret)
    }

    fn as_fp(&self) -> F {
        self.f
    }

    fn call(&self, args: (A0, A1, A2, A3, A4, A5, A6, A7, A8, A9, A10, A11)) -> Ret {
        let (a0, a1, a2, a3, a4, a5, a6, a7, a8, a9, a10, a11) = args;
        proof {
            assert(args == (a0, a1, a2, a3, a4, a5, a6, a7, a8, a9, a10, a11));
            if !S::requires_assertion() {
                assert(call_requires(self.fp_spec(), args));
            }
            assert(call_requires(self.f, (a0, a1, a2, a3, a4, a5, a6, a7, a8, a9, a10, a11)));
        }
        (self.f)(a0, a1, a2, a3, a4, a5, a6, a7, a8, a9, a10, a11)
    }
}

/// Restates the body of `call_pre` at arity twelve, for callers at a
/// concrete handle type.
pub proof fn lemma_call_pre_12<'f, C: Convention, S: Safety, A0, A1, A2, A3, A4, A5, A6, A7, A8, A9, A10, A11, Ret, F: Fn(A0, A1, A2, A3, A4, A5, A6, A7, A8, A9, A10, A11) -> Ret + Copy>(h: TaggedFp<'f, C, S, (A0, A1, A2, A3, A4, A5, A6, A7, A8, A9, A10, A11), Ret, F>, args: (A0, A1, A2, A3, A4, A5, A6, A7, A8, A9, A10, A11))
    ensures
        h.call_pre(args) == (S::requires_assertion() ==> call_requires(h.fp_spec(), args)),
{
}

/// Restates the body of `call_post` at arity twelve, for callers at a
/// concrete handle type.
pub proof fn lemma_call_post_12<'f, C: Convention, S: Safety, A0, A1, A2, A3, A4, A5, A6, A7, A8, A9, A10, A11, Ret, F: Fn(A0, A1, A2, A3, A4, A5, A6, A7, A8, A9, A10, A11) -> Ret + Copy>(h: TaggedFp<'f, C, S, (A0, A1, A2, A3, A4, A5, A6, A7, A8, A9, A10, A11), Ret, F>, args: (A0, A1, A2, A3, A4, A5, A6, A7, A8, A9, A10, A11), ret: Ret)
    ensures
        h.call_post(args, ret) == call_ensures(h.fp_spec(), args, ret),
{
}

} // verus!
