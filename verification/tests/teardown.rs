//! Cancellation and the retirement accounting around it.

use yeet::GenFn;
use yeet::Generator;
use yeet::State;

#[test]
fn cancel_runs_destructors_once() {
    // a guard activation wrapped around a long run of yields: pulling once
    // and tearing down must retire every live activation exactly once
    let mut vals: Vec<u8> = Vec::new();
    for i in 0u8..100u8 {
        vals.push(i);
    }
    let body: GenFn<u8, ()> = yeet::yeet_each(vals, GenFn::Done);
    let prog: GenFn<u8, ()> = yeet::yeet_all(body, GenFn::Done);

    let mut gen = Generator::<u8, ()>::from_fn_ptr(prog);
    assert_eq!(gen.next(), Some(0));

    let before = gen.frames_retired();
    let live = gen.live_frames();
    assert!(live > 0);
    gen.cancel();

    assert_eq!(gen.frames_retired(), before + live as u64);
    assert_eq!(gen.live_frames(), 0);
    assert_eq!(gen.status(), State::Cancelled);
    assert_eq!(gen.next(), None);
}

#[test]
fn cancel_fresh_generator() {
    let prog: GenFn<u8, ()> = yeet::yeet(1u8, GenFn::Done);
    let mut gen = Generator::<u8, ()>::from_fn_ptr(prog);
    gen.cancel();
    assert_eq!(gen.frames_retired(), 0);
    assert_eq!(gen.status(), State::Cancelled);
    assert_eq!(gen.next(), None);
}

#[test]
fn cancel_exhausted_generator() {
    let prog: GenFn<u8, ()> = yeet::yeet(1u8, GenFn::Done);
    let mut gen = Generator::<u8, ()>::from_fn_ptr(prog);
    assert_eq!(gen.next(), Some(1));
    assert_eq!(gen.next(), None);
    let before = gen.frames_retired();
    gen.cancel();
    assert_eq!(gen.frames_retired(), before);
    assert_eq!(gen.status(), State::Exhausted);
    assert_eq!(gen.next(), None);
}

#[test]
fn cancel_deeply_nested() {
    // pull into the innermost of three nested activations, then tear down
    let leaf: GenFn<u16, ()> = yeet::yeet(2u16, yeet::yeet(3u16, GenFn::Done));
    let mid: GenFn<u16, ()> = yeet::yeet(1u16, yeet::yeet_all(leaf, GenFn::Done));
    let prog: GenFn<u16, ()> = yeet::yeet(0u16, yeet::yeet_all(mid, GenFn::Done));

    let mut gen = Generator::<u16, ()>::from_fn_ptr(prog);
    assert_eq!(gen.next(), Some(0));
    assert_eq!(gen.next(), Some(1));
    assert_eq!(gen.next(), Some(2));

    let before = gen.frames_retired();
    let live = gen.live_frames();
    assert_eq!(live, 3);
    gen.cancel();
    assert_eq!(gen.frames_retired(), before + 3);
    assert_eq!(gen.status(), State::Cancelled);
}

#[test]
fn exhaustion_retires_every_activation() {
    // one root activation and two sub-generators: three retirements in all
    let inner_a: GenFn<u8, ()> = yeet::yeet(1u8, GenFn::Done);
    let inner_b: GenFn<u8, ()> = yeet::yeet(2u8, GenFn::Done);
    let prog: GenFn<u8, ()> = yeet::yeet(
        0u8,
        yeet::yeet_all(inner_a, yeet::yeet_all(inner_b, GenFn::Done)),
    );

    let mut gen = Generator::<u8, ()>::from_fn_ptr(prog);
    assert_eq!(gen.next(), Some(0));
    assert_eq!(gen.next(), Some(1));
    assert_eq!(gen.next(), Some(2));
    assert_eq!(gen.next(), None);
    assert_eq!(gen.frames_retired(), 3);
    assert_eq!(gen.live_frames(), 0);
}
