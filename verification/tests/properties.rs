use tagged_fp::CallFp;
use tagged_fp::Fp;
use tagged_fp::ExternFp;
use tagged_fp::UnsafeFp;
use tagged_fp::UnsafeExternFp;
use tagged_fp::NativeConv;
use tagged_fp::NeedsAssertion;
use tagged_fp::SafeToCall;

fn answer() -> u32 {
    42
}

fn inc(val: u32) -> u32 {
    val + 1
}

fn add_pair(a: u32, b: u32) -> u32 {
    a + b
}

#[allow(clippy::too_many_arguments)]
fn sum_12(
    a0: u32,
    a1: u32,
    a2: u32,
    a3: u32,
    a4: u32,
    a5: u32,
    a6: u32,
    a7: u32,
    a8: u32,
    a9: u32,
    a10: u32,
    a11: u32,
) -> u32 {
    a0 + a1 + a2 + a3 + a4 + a5 + a6 + a7 + a8 + a9 + a10 + a11
}

type Raw0 = fn() -> u32;
type Raw1 = fn(u32) -> u32;
type Raw2 = fn(u32, u32) -> u32;
type Raw12 = fn(u32, u32, u32, u32, u32, u32, u32, u32, u32, u32, u32, u32) -> u32;
type Args12 = (u32, u32, u32, u32, u32, u32, u32, u32, u32, u32, u32, u32);

#[test]
fn handle_size_equals_raw_callable_size() {
    assert_eq!(
        core::mem::size_of::<Fp<'static, (), u32, Raw0>>(),
        core::mem::size_of::<Raw0>(),
    );
    assert_eq!(
        core::mem::size_of::<ExternFp<'static, (), u32, Raw0>>(),
        core::mem::size_of::<Raw0>(),
    );
    assert_eq!(
        core::mem::size_of::<UnsafeFp<'static, (), u32, Raw0>>(),
        core::mem::size_of::<Raw0>(),
    );
    assert_eq!(
        core::mem::size_of::<UnsafeExternFp<'static, (), u32, Raw0>>(),
        core::mem::size_of::<Raw0>(),
    );
    assert_eq!(
        core::mem::size_of::<Fp<'static, (u32,), u32, Raw1>>(),
        core::mem::size_of::<Raw1>(),
    );
    assert_eq!(
        core::mem::size_of::<ExternFp<'static, (u32,), u32, Raw1>>(),
        core::mem::size_of::<Raw1>(),
    );
    assert_eq!(
        core::mem::size_of::<UnsafeFp<'static, (u32,), u32, Raw1>>(),
        core::mem::size_of::<Raw1>(),
    );
    assert_eq!(
        core::mem::size_of::<UnsafeExternFp<'static, (u32,), u32, Raw1>>(),
        core::mem::size_of::<Raw1>(),
    );
    assert_eq!(
        core::mem::size_of::<Fp<'static, (u32, u32), u32, Raw2>>(),
        core::mem::size_of::<Raw2>(),
    );
    assert_eq!(
        core::mem::size_of::<ExternFp<'static, (u32, u32), u32, Raw2>>(),
        core::mem::size_of::<Raw2>(),
    );
    assert_eq!(
        core::mem::size_of::<UnsafeFp<'static, (u32, u32), u32, Raw2>>(),
        core::mem::size_of::<Raw2>(),
    );
    assert_eq!(
        core::mem::size_of::<UnsafeExternFp<'static, (u32, u32), u32, Raw2>>(),
        core::mem::size_of::<Raw2>(),
    );
    assert_eq!(
        core::mem::size_of::<Fp<'static, Args12, u32, Raw12>>(),
        core::mem::size_of::<Raw12>(),
    );
    assert_eq!(
        core::mem::size_of::<ExternFp<'static, Args12, u32, Raw12>>(),
        core::mem::size_of::<Raw12>(),
    );
    assert_eq!(
        core::mem::size_of::<UnsafeFp<'static, Args12, u32, Raw12>>(),
        core::mem::size_of::<Raw12>(),
    );
    assert_eq!(
        core::mem::size_of::<UnsafeExternFp<'static, Args12, u32, Raw12>>(),
        core::mem::size_of::<Raw12>(),
    );
}

#[test]
fn round_trip_is_bit_identical_and_agrees() {
    let f = inc as Raw1;
    let fp = UnsafeFp::<'_, (u32,), u32, Raw1>::from_callable(f);
    let back = fp.as_fp();
    assert_eq!(back as usize, f as usize);
    assert_eq!(back(7), f(7));
    let fp2 = UnsafeFp::<'_, (u32,), u32, Raw1>::from_callable(f);
    let consumed = fp2.into_fp();
    assert_eq!(consumed as usize, f as usize);
    assert_eq!(fp.call((7,)), f(7));
}

#[test]
fn round_trip_law_applies_to_every_family() {
    let f = inc as Raw1;
    let r1 = tagged_fp::round_trip::<NativeConv, SafeToCall, u32, u32, Raw1>(f);
    let r2 = tagged_fp::round_trip::<NativeConv, NeedsAssertion, u32, u32, Raw1>(f);
    assert_eq!(r1 as usize, f as usize);
    assert_eq!(r2 as usize, f as usize);
}

#[test]
fn independent_calls_law_keeps_handles_apart() {
    let (a, b) = tagged_fp::independent_calls::<NativeConv, u32, u32, u32, u32, u32, Raw2, Raw1>(
        add_pair,
        inc,
        (2, 3),
        (43,),
    );
    assert_eq!(a, 5);
    assert_eq!(b, 44);
}

#[test]
fn arity_zero_invokes_like_the_callable() {
    let fp = UnsafeFp::<'_, (), u32, Raw0>::from_callable(answer);
    assert_eq!(fp.call(()), answer());
    assert_eq!(fp.call(()), 42);
}

#[test]
fn arity_one_invokes_like_the_callable() {
    let fp = Fp::<'_, (u32,), u32, Raw1>::from_callable(inc);
    assert_eq!(fp.call((7,)), inc(7));
    assert_eq!(fp.call((7,)), 8);
}

#[test]
fn arity_two_invokes_like_the_callable() {
    let fp = ExternFp::<'_, (u32, u32), u32, Raw2>::from_callable(add_pair);
    assert_eq!(fp.call((2, 3)), add_pair(2, 3));
    assert_eq!(fp.call((2, 3)), 5);
}

#[test]
fn arity_twelve_invokes_like_the_callable() {
    let args: Args12 = (1, 2, 3, 4, 5, 6, 7, 8, 9, 10, 11, 12);
    let fp = UnsafeExternFp::<'_, Args12, u32, Raw12>::from_callable(sum_12);
    assert_eq!(fp.call(args), sum_12(1, 2, 3, 4, 5, 6, 7, 8, 9, 10, 11, 12));
    assert_eq!(fp.call(args), 78);
}
