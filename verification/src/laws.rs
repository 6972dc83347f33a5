//! Laws relating construction, recovery and invocation across the handle
//! family, stated over the spec functions the individual contracts use.

use vstd::prelude::*;
use crate::markers::Convention;
use crate::markers::Safety;
use crate::markers::SafeToCall;
use crate::markers::NeedsAssertion;
use crate::handle::TaggedFp;
use crate::handle::FpBase;
use crate::handle::CallFp;

verus! {

/// Law: wrapping a callable and recovering it yields the callable itself,
/// unchanged, for every convention and safety family.  Invocation through
/// the handle therefore behaves exactly as invocation of the original:
/// `call` guarantees precisely the callable's own postcondition.
pub fn round_trip<'f, C: Convention, S: Safety, A0, Ret, F: Fn(A0) -> Ret + Copy>(f: F) -> (r: F)
    requires
        !S::requires_assertion() ==> forall|a: (A0,)| #[trigger] call_requires(f, a),
    ensures
        r == f,
{
    TaggedFp::<'f, C, S, (A0,), Ret, F>::from_callable(f).as_fp()
}

/// Law: handles are independent.  Two handles built from two callables of
/// different arities each invoke only their own callable: the first result
/// is one the first callable could produce for its arguments, the second
/// one the second callable could produce for its own, with no influence of
/// either handle on the other.
pub fn independent_calls<'f, C: Convention, A0, A1, B0, RetA, RetB, F: Fn(A0, A1) -> RetA + Copy, G: Fn(B0) -> RetB + Copy>(
    f: F,
    g: G,
    f_args: (A0, A1),
    g_args: (B0,),
) -> (r: (RetA, RetB))
    requires
        call_requires(f, f_args),
        call_requires(g, g_args),
    ensures
        call_ensures(f, f_args, r.0),
        call_ensures(g, g_args, r.1),
{
    let hf = TaggedFp::<'f, C, NeedsAssertion, (A0, A1), RetA, F>::from_callable(f);
    let hg = TaggedFp::<'f, C, NeedsAssertion, (B0,), RetB, G>::from_callable(g);
    let ra = hf.call(f_args);
    let rb = hg.call(g_args);
    (ra, rb)
}

/// Law: the two safety families are statically told apart.  For any
/// convention and any wrapped shape, the safe-to-call variant reports
/// false and the assertion-required variant reports true, so no handle
/// type belongs to both families.
pub proof fn lemma_safety_families_distinct<'f, C: Convention, Args, Ret, F>()
    ensures
        !<TaggedFp<'f, C, SafeToCall, Args, Ret, F> as FpBase>::is_unsafe_spec(),
        <TaggedFp<'f, C, NeedsAssertion, Args, Ret, F> as FpBase>::is_unsafe_spec(),
{
}

} // verus!
