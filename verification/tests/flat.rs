//! Generators at a depth of one.

use yeet::GenFn;
use yeet::Generator;
use yeet::State;

#[test]
pub fn many_values() {
    let mut vals: Vec<u16> = Vec::new();
    let mut val: u16 = 0;
    loop {
        vals.push(val);
        val = match val.checked_add(1) {
            Some(next) => next,
            None => break,
        };
    }
    let prog: GenFn<u16, ()> = yeet::yeet_each(vals, GenFn::Done);

    let mut gen = Generator::<u16, ()>::from_fn_ptr(prog);
    for i in 0u16..=u16::MAX {
        assert_eq!(gen.next(), Some(i));
    }
    assert_eq!(gen.next(), None);
}

#[test]
pub fn single_value() {
    let prog: GenFn<u8, ()> = yeet::yeet(1u8, GenFn::Done);

    let mut gen = Generator::<u8, ()>::from_fn_ptr(prog);

    assert_eq!(gen.next(), Some(1));
    assert_eq!(gen.next(), None);
    assert_eq!(gen.next(), None);
}

#[test]
fn fault_propagation() {
    let prog: GenFn<u8, &'static str> = GenFn::Fail("This should panic!");

    let mut gen = Generator::<u8, &'static str>::from_fn_ptr(prog);
    assert_eq!(gen.try_next(), Err("This should panic!"));
    assert_eq!(gen.status(), State::Faulted);
    assert_eq!(gen.try_next(), Ok(None));
    assert_eq!(gen.next(), None);
}

#[test]
fn move_generator() {
    let prog: GenFn<u8, ()> = yeet::yeet(1u8, yeet::yeet(2u8, GenFn::Done));

    let mut gen = Generator::<u8, ()>::from_fn_ptr(prog);
    assert_eq!(gen.next(), Some(1));

    let mut moved = Box::new(gen);

    assert_eq!(moved.next(), Some(2));
    assert_eq!(moved.next(), None);
}

#[test]
fn fault_after_values() {
    let prog: GenFn<u16, i32> = yeet::yeet(3u16, yeet::yeet(4u16, GenFn::Fail(-7i32)));

    let mut gen = Generator::<u16, i32>::from_fn_ptr(prog);
    assert_eq!(gen.try_next(), Ok(Some(3)));
    assert_eq!(gen.try_next(), Ok(Some(4)));
    assert_eq!(gen.try_next(), Err(-7));
    assert_eq!(gen.try_next(), Ok(None));
    assert_eq!(gen.status(), State::Faulted);
}

#[test]
fn empty_producer() {
    let mut gen = Generator::<u8, ()>::from_fn_ptr(GenFn::Done);
    assert_eq!(gen.status(), State::Fresh);
    assert_eq!(gen.next(), None);
    assert_eq!(gen.status(), State::Exhausted);
    assert_eq!(gen.next(), None);
}

#[test]
fn states_over_a_run() {
    let prog: GenFn<u8, ()> = yeet::yeet(1u8, GenFn::Done);
    let mut gen = Generator::<u8, ()>::from_fn_ptr(prog);
    assert_eq!(gen.status(), State::Fresh);
    assert_eq!(gen.next(), Some(1));
    assert_eq!(gen.status(), State::Yielded);
    assert_eq!(gen.next(), None);
    assert_eq!(gen.status(), State::Exhausted);
}

#[test]
fn empty_yeet_each() {
    let vals: Vec<u16> = Vec::new();
    let prog: GenFn<u16, ()> = yeet::yeet_each(vals, yeet::yeet(8u16, GenFn::Done));
    let mut gen = Generator::<u16, ()>::from_fn_ptr(prog);
    assert_eq!(gen.collect_remaining(), vec![8u16]);
    assert_eq!(gen.next(), None);
}
