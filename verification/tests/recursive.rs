//! Recursive generators: producers that drive sub-generators of their own.

use yeet::GenFn;
use yeet::Generator;

#[test]
fn simple() {
    let inner: GenFn<u32, ()> = yeet::yeet(1u32, GenFn::Done);
    let prog: GenFn<u32, ()> = yeet::yeet(0u32, yeet::yeet_all(inner, GenFn::Done));

    let mut tree = Generator::<u32, ()>::from_fn_ptr(prog);
    let vals = tree.collect_remaining();

    assert_eq!(&vals, &[0, 1])
}

#[test]
fn nested_fault_propagation() {
    let inner: GenFn<u32, &'static str> = GenFn::Fail("This should panic!");
    let prog: GenFn<u32, &'static str> = yeet::yeet(0u32, yeet::yeet_all(inner, GenFn::Done));

    let mut tree = Generator::<u32, &'static str>::from_fn_ptr(prog);
    assert_eq!(tree.try_next(), Ok(Some(0)));
    assert_eq!(tree.try_next(), Err("This should panic!"));
    assert_eq!(tree.try_next(), Ok(None));
}

#[test]
fn dfs() {
    let leaf = || yeet::yeet(3u32, GenFn::<u32, ()>::Done);
    let mid = || yeet::yeet(2u32, yeet::yeet_all(leaf(), yeet::yeet_all(leaf(), GenFn::Done)));
    let high = || yeet::yeet(1u32, yeet::yeet_all(mid(), yeet::yeet_all(mid(), GenFn::Done)));
    let prog = yeet::yeet(0u32, yeet::yeet_all(high(), yeet::yeet_all(high(), GenFn::Done)));

    let mut tree = Generator::<u32, ()>::from_fn_ptr(prog);
    let vals = tree.collect_remaining();

    assert_eq!(&vals, &[0, 1, 2, 3, 3, 2, 3, 3, 1, 2, 3, 3, 2, 3, 3])
}

#[test]
fn values_after_sub_fault_are_cut() {
    // a fault inside the sub-generator cuts the caller's later values short
    let inner: GenFn<u32, u8> = yeet::yeet(5u32, GenFn::Fail(9u8));
    let prog: GenFn<u32, u8> = yeet::yeet(
        0u32,
        yeet::yeet_all(inner, yeet::yeet(6u32, GenFn::Done)),
    );

    let mut tree = Generator::<u32, u8>::from_fn_ptr(prog);
    assert_eq!(tree.try_next(), Ok(Some(0)));
    assert_eq!(tree.try_next(), Ok(Some(5)));
    assert_eq!(tree.try_next(), Err(9));
    assert_eq!(tree.try_next(), Ok(None));
}
