use tagged_fp::CallFp;
use tagged_fp::FpBase;
use tagged_fp::Fp;
use tagged_fp::ExternFp;
use tagged_fp::UnsafeFp;
use tagged_fp::UnsafeExternFp;

fn nil_fn(_val: u32) {}

fn test_fn(val: u32) -> u32 {
    val + 42
}

fn test_fn_2(val_1: u32, val_2: u32) -> u32 {
    val_1 + val_2
}

fn unsafe_fn(val: u32) -> u32 {
    val - 42
}

#[test]
fn simple() {
    let fp: UnsafeExternFp<'_, (u32,), u32, fn(u32) -> u32> =
        UnsafeExternFp::<'_, (u32,), u32, fn(u32) -> u32>::from_callable(test_fn);
    assert_eq!(fp.call((2,)), 44);
}

#[test]
fn raw_pointer() {
    let ptr = test_fn as fn(u32) -> u32;
    let fp = UnsafeExternFp::<'_, (u32,), u32, fn(u32) -> u32>::from_callable(ptr);
    assert_eq!(fp.call((2,)), 44);
}

#[test]
fn two() {
    let fp1 = UnsafeExternFp::<'_, (u32,), u32, fn(u32) -> u32>::from_callable(test_fn);
    let fp2 = UnsafeExternFp::<'_, (u32, u32), u32, fn(u32, u32) -> u32>::from_callable(test_fn_2);
    assert_eq!(fp1.call((2,)), 44);
    assert_eq!(fp2.call((2, 3)), 5);
}

#[test]
fn nil() {
    let fp: UnsafeFp<'_, (u32,), (), fn(u32)> =
        UnsafeFp::<'_, (u32,), (), fn(u32)>::from_callable(nil_fn);
    fp.call((42,))
}

#[test]
fn struct_2() {
    let fp: UnsafeFp<'static, (u32,), u32, fn(u32) -> u32> =
        UnsafeFp::<'_, (u32,), u32, fn(u32) -> u32>::from_callable(unsafe_fn as fn(u32) -> u32);
    assert_eq!(fp.call((44,)), 2);
}

#[test]
fn no_macro() {
    let fp: UnsafeExternFp<'static, (u32,), u32, fn(u32) -> u32> =
        UnsafeExternFp::<'static, (u32,), u32, fn(u32) -> u32>::from_callable(
            test_fn as fn(u32) -> u32,
        );
    assert_eq!(fp.call((2,)), 44);
}

struct FpHolder<'a> {
    fp: Option<UnsafeFp<'a, (u32,), u32, fn(u32) -> u32>>,
}

struct Loader;

fn load_fn<'l, L: 'l>(_loader: &'l L) -> UnsafeFp<'l, (u32,), u32, fn(u32) -> u32> {
    UnsafeFp::<'l, (u32,), u32, fn(u32) -> u32>::from_callable(unsafe_fn as fn(u32) -> u32)
}

#[test]
fn lifetime_2() {
    let mut fp_holder = FpHolder { fp: None };

    {
        let loader = Loader;
        let fp = load_fn(&loader);
        fp_holder.fp = Some(fp);
    }

    assert_eq!(
        core::mem::size_of::<UnsafeFp<'static, (u32,), u32, fn(u32) -> u32>>(),
        core::mem::size_of::<
            <UnsafeFp<'static, (u32,), u32, fn(u32) -> u32> as CallFp<(u32,), u32>>::Raw,
        >(),
    );
}

#[test]
fn is_unsafe_reports_the_family() {
    let safe_native = Fp::<'_, (u32,), u32, fn(u32) -> u32>::from_callable(test_fn);
    let safe_c = ExternFp::<'_, (u32,), u32, fn(u32) -> u32>::from_callable(test_fn);
    let asserted_native = UnsafeFp::<'_, (u32,), u32, fn(u32) -> u32>::from_callable(test_fn);
    let asserted_c = UnsafeExternFp::<'_, (u32,), u32, fn(u32) -> u32>::from_callable(test_fn);
    assert!(!safe_native.is_unsafe());
    assert!(!safe_c.is_unsafe());
    assert!(asserted_native.is_unsafe());
    assert!(asserted_c.is_unsafe());
}
