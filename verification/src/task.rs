//! The task core: one record per generator, and the switch between its two
//! sides.
//!
//! A [`Task`] pairs a consumer with a producer. The producer's suspended
//! continuation lives in a [`Snapshot`]: a stack of program frames, one per
//! activation that is still live, the innermost on top. Two single-slot
//! mailboxes carry data across the switch, one per direction, each written by
//! one side and consumed by the other in strict alternation. [`enter`] is the
//! consumer's side of the switch: it sends a [`Signal`], resumes the producer
//! until its next suspension, and returns the [`Yield`] the producer left
//! behind.

use vstd::prelude::*;
use vstd::pervasive::unreached;

use crate::program::GenFn;

verus! {

/// The signal a consumer sends into a task when resuming it.
pub enum Signal {
    /// Run until the next yield point.
    Continue,
    /// Unwind the producer's stack and tear the task down.
    Cancel,
}

/// A fault payload travelling producer-to-consumer.
pub enum Fault<P> {
    /// The private cancellation sentinel: the producer's stack was unwound in
    /// answer to [`Signal::Cancel`], and the consumer must not re-raise.
    Sentinel,
    /// A genuine producer fault with its payload.
    User(P),
}

/// What comes out of a task when the producer suspends.
pub enum Yield<T, P> {
    /// The producer's function has returned; every later request is answered
    /// the same way.
    StopIteration,
    /// The producer faulted; the payload is to be re-raised on the consumer,
    /// unless it is the cancellation sentinel.
    Panic(Fault<P>),
    /// The producer yielded another value.
    Value(T),
}

/// The producer's captured state between two of its suspensions: everything
/// needed to resume it.
///
/// Each frame is the rest of one activation, the innermost last. The frame
/// stack stands in for the producer's private call stack: a frame is pushed
/// when an activation starts a sub-generator, and retired exactly once, when
/// the activation returns or is unwound and its locals are dropped.
pub struct Snapshot<T, P> {
    frames: Vec<GenFn<T, P>>,
}

/// The record for one suspended-or-running generator.
pub struct Task<T, P> {
    /// The producer's continuation; initialized lazily, on the first `enter`.
    tx_snap: Snapshot<T, P>,
    /// Mailbox producer-to-consumer: written by the producer as it suspends,
    /// consumed by `enter` before it returns.
    data_out: Option<Yield<T, P>>,
    /// Mailbox consumer-to-producer: written by `enter` before the switch,
    /// consumed by the producer as it resumes.
    data_in: Option<Signal>,
    /// The producer's entry function; moved into the root frame exactly once,
    /// on the first `enter`.
    func: Option<GenFn<T, P>>,
    /// False until the first `enter`.
    started: bool,
    /// How many frames have been retired, by returning or by being unwound.
    retired: u64,
}

/// The values a frame stack still emits, innermost activation first; a fault
/// anywhere cuts the outer activations short.
pub open spec fn emits_stack<T, P>(fs: Seq<GenFn<T, P>>) -> Seq<T>
    decreases fs.len(),
{
    if fs.len() == 0 {
        Seq::empty()
    } else if fs.last().fault() is Some {
        fs.last().emits()
    } else {
        fs.last().emits() + emits_stack(fs.drop_last())
    }
}

/// The fault a frame stack ends in, if any; the innermost one wins.
pub open spec fn fate_stack<T, P>(fs: Seq<GenFn<T, P>>) -> Option<P>
    decreases fs.len(),
{
    if fs.len() == 0 {
        None
    } else if fs.last().fault() is Some {
        fs.last().fault()
    } else {
        fate_stack(fs.drop_last())
    }
}

/// Sub-generator activations still to be started anywhere in the stack.
pub open spec fn calls_stack<T, P>(fs: Seq<GenFn<T, P>>) -> nat
    decreases fs.len(),
{
    if fs.len() == 0 {
        0
    } else {
        fs.last().calls() + calls_stack(fs.drop_last())
    }
}

/// Total structural size of the stack; the interpreter's termination measure.
pub open spec fn size_stack<T, P>(fs: Seq<GenFn<T, P>>) -> nat
    decreases fs.len(),
{
    if fs.len() == 0 {
        0
    } else {
        fs.last().size() + size_stack(fs.drop_last())
    }
}

/// One unfolding of the four stack measures at a non-empty stack.
proof fn lemma_stack_last<T, P>(fs: Seq<GenFn<T, P>>)
    requires
        fs.len() > 0,
    ensures
        emits_stack(fs) == if fs.last().fault() is Some {
            fs.last().emits()
        } else {
            fs.last().emits() + emits_stack(fs.drop_last())
        },
        fate_stack(fs) == if fs.last().fault() is Some {
            fs.last().fault()
        } else {
            fate_stack(fs.drop_last())
        },
        calls_stack(fs) == fs.last().calls() + calls_stack(fs.drop_last()),
        size_stack(fs) == fs.last().size() + size_stack(fs.drop_last()),
{
}

/// How the four stack measures change when a frame is pushed.
proof fn lemma_stack_push<T, P>(fs: Seq<GenFn<T, P>>, f: GenFn<T, P>)
    ensures
        emits_stack(fs.push(f)) == if f.fault() is Some {
            f.emits()
        } else {
            f.emits() + emits_stack(fs)
        },
        fate_stack(fs.push(f)) == if f.fault() is Some {
            f.fault()
        } else {
            fate_stack(fs)
        },
        calls_stack(fs.push(f)) == f.calls() + calls_stack(fs),
        size_stack(fs.push(f)) == f.size() + size_stack(fs),
{
    assert(fs.push(f).last() == f);
    assert(fs.push(f).drop_last() =~= fs);
}

impl<T, P> Task<T, P> {
    /// Whether the producer has been entered at least once.
    pub closed spec fn is_started(self) -> bool {
        self.started
    }

    /// The producer's live frames: activations whose locals have not yet been
    /// dropped.
    pub closed spec fn live(self) -> nat {
        self.tx_snap.frames@.len()
    }

    /// Frames retired so far: each activation's locals are dropped exactly
    /// once, when its frame is retired by a return or an unwind.
    pub closed spec fn retired(self) -> u64 {
        self.retired
    }

    /// Activations that are live now or will still be started: what remains
    /// to be retired if the producer runs to exhaustion.
    pub closed spec fn pending_activations(self) -> nat {
        if self.started {
            self.tx_snap.frames@.len() + calls_stack(self.tx_snap.frames@)
        } else {
            1 + self.func->0.calls()
        }
    }

    /// The values the producer will still yield, in order.
    pub closed spec fn pending(self) -> Seq<T> {
        if !self.started {
            self.func->0.emits()
        } else {
            emits_stack(self.tx_snap.frames@)
        }
    }

    /// The fault the producer will raise once `pending` is exhausted, if any.
    pub closed spec fn fate(self) -> Option<P> {
        if !self.started {
            self.func->0.fault()
        } else {
            fate_stack(self.tx_snap.frames@)
        }
    }

    /// Everything the retirement counter can still grow to.
    spec fn budget(self) -> nat {
        self.retired as nat + self.pending_activations()
    }

    /// Well-formedness: the entry function is consumed exactly once, the
    /// mailboxes rest empty between switches, and the retirement counter has
    /// room for every frame still to come.
    pub closed spec fn inv(self) -> bool {
        &&& self.started ==> self.func is None
        &&& !self.started ==> self.func is Some && self.tx_snap.frames@.len() == 0
        &&& self.data_in is None
        &&& self.data_out is None
        &&& self.budget() <= u64::MAX
    }
}

/// A task that was never entered has no live activation: its entry function
/// has not run, so nothing is on its stack yet.
pub proof fn lemma_fresh_task<T, P>(t: Task<T, P>)
    requires
        t.inv(),
        !t.is_started(),
    ensures
        t.live() == 0,
{
}

/// Every live activation is still to be retired, so at least that many
/// retirements remain.
pub proof fn lemma_task_accounting<T, P>(t: Task<T, P>)
    requires
        t.inv(),
    ensures
        t.pending_activations() >= t.live(),
{
}

impl<T, P> Task<T, P> {
    /// How many of the producer's activations are live right now.
    pub fn live_frames(&self) -> (n: usize)
        ensures
            n == self.live(),
    {
        self.tx_snap.frames.len()
    }

    /// How many frames have been retired so far.
    pub fn frames_retired(&self) -> (n: u64)
        ensures
            n == self.retired(),
    {
        self.retired
    }
}

/// Sets up a task that will run `func` as its producer, without running it.
pub fn new_task<T, P>(func: GenFn<T, P>) -> (t: Task<T, P>)
    requires
        func.calls() < u64::MAX,
    ensures
        t.inv(),
        !t.is_started(),
        t.live() == 0,
        t.retired() == 0,
        t.pending() == func.emits(),
        t.fate() == func.fault(),
        t.pending_activations() == 1 + func.calls(),
{
    Task {
        tx_snap: Snapshot { frames: Vec::new() },
        data_out: None,
        data_in: None,
        func: Some(func),
        started: false,
        retired: 0,
    }
}

/// Installs the producer's entry function as the root frame of a fresh
/// snapshot, so that the next resume starts it from the top.
fn prepare<T, P>(snap: &mut Snapshot<T, P>, entry: GenFn<T, P>)
    requires
        old(snap).frames@.len() == 0,
    ensures
        final(snap).frames@ == seq![entry],
{
    snap.frames.push(entry);
}

/// Enters the task: sends `data` in, resumes the producer until its next
/// suspension, and returns what the producer left in the outbound mailbox.
///
/// Never faults on the consumer: a producer fault comes back as
/// [`Yield::Panic`]. On the first entry the producer starts from the top of
/// its function and the signal goes unread, exactly as a signal written into
/// a fresh task's inbound mailbox is overwritten before the producer first
/// reads it.
pub fn enter<T, P>(task: &mut Task<T, P>, data: Signal) -> (y: Yield<T, P>)
    requires
        old(task).inv(),
    ensures
        final(task).inv(),
        final(task).is_started(),
        final(task).retired() >= old(task).retired(),
        final(task).retired() as nat + final(task).pending_activations() <= old(task).retired()
            as nat + old(task).pending_activations(),
        (data is Continue || !old(task).is_started()) ==> {
            &&& old(task).pending().len() > 0 ==> {
                &&& y == Yield::<T, P>::Value(old(task).pending()[0])
                &&& final(task).pending() == old(task).pending().skip(1)
                &&& final(task).fate() == old(task).fate()
                &&& final(task).live() > 0
                &&& final(task).retired() as nat + final(task).pending_activations() == old(
                    task,
                ).retired() as nat + old(task).pending_activations()
            }
            &&& (old(task).pending().len() == 0 && old(task).fate() is Some) ==> {
                &&& y == Yield::<T, P>::Panic(Fault::User(old(task).fate()->0))
                &&& final(task).pending().len() == 0
                &&& final(task).fate() is None
                &&& final(task).live() == 0
                &&& final(task).pending_activations() == 0
            }
            &&& (old(task).pending().len() == 0 && old(task).fate() is None) ==> {
                &&& y == Yield::<T, P>::StopIteration
                &&& final(task).pending().len() == 0
                &&& final(task).fate() is None
                &&& final(task).live() == 0
                &&& final(task).pending_activations() == 0
                &&& final(task).retired() == old(task).retired() + old(task).pending_activations()
            }
        },
        (data is Cancel && old(task).is_started()) ==> {
            &&& old(task).live() > 0 ==> {
                &&& y == Yield::<T, P>::Panic(Fault::<P>::Sentinel)
                &&& final(task).retired() == old(task).retired() + old(task).live()
            }
            &&& old(task).live() == 0 ==> {
                &&& y == Yield::<T, P>::StopIteration
                &&& final(task).retired() == old(task).retired()
            }
            &&& final(task).pending().len() == 0
            &&& final(task).fate() is None
            &&& final(task).live() == 0
            &&& final(task).pending_activations() == 0
        },
{
    task.data_in = Some(data);
    let fresh = !task.started;
    if fresh {
        let entry = match task.func.take() {
            Some(entry) => entry,
            None => unreached(),
        };
        let ghost g_entry = entry;
        prepare(&mut task.tx_snap, entry);
        task.started = true;
        proof {
            lemma_stack_push(Seq::<GenFn<T, P>>::empty(), g_entry);
            assert(seq![g_entry] =~= Seq::<GenFn<T, P>>::empty().push(g_entry));
            if g_entry.fault() is None {
                assert(g_entry.emits() + emits_stack(Seq::<GenFn<T, P>>::empty())
                    =~= g_entry.emits());
            }
        }
    }
    run_producer(task, fresh);
    match task.data_out.take() {
        Some(y) => y,
        None => unreached(),
    }
}

/// Resumes the producer: consumes the inbound signal and interprets frames
/// until the producer suspends, leaving a value in the outbound mailbox. The
/// producer's exit, the mirror image of [`enter`], is the suspension itself:
/// the write of the outbound mailbox followed, on the next resume, by the
/// read of the inbound one. The trampoline at the root of every producer
/// stack lives here too: a fault is caught and emitted as [`Yield::Panic`],
/// and once the stack is empty the termination sink answers every resume with
/// [`Yield::StopIteration`].
#[verifier::loop_isolation(false)]
fn run_producer<T, P>(task: &mut Task<T, P>, fresh: bool)
    requires
        old(task).started,
        old(task).func is None,
        old(task).data_in is Some,
        old(task).data_out is None,
        old(task).budget() <= u64::MAX,
    ensures
        final(task).started,
        final(task).func is None,
        final(task).data_in is None,
        final(task).data_out is Some,
        final(task).budget() <= old(task).budget(),
        final(task).retired() >= old(task).retired(),
        (old(task).data_in->0 is Continue || fresh) ==> {
            &&& old(task).pending().len() > 0 ==> {
                &&& final(task).data_out->0 == Yield::<T, P>::Value(old(task).pending()[0])
                &&& final(task).pending() == old(task).pending().skip(1)
                &&& final(task).fate() == old(task).fate()
                &&& final(task).live() > 0
                &&& final(task).budget() == old(task).budget()
            }
            &&& (old(task).pending().len() == 0 && old(task).fate() is Some) ==> {
                &&& final(task).data_out->0 == Yield::<T, P>::Panic(
                    Fault::User(old(task).fate()->0),
                )
                &&& final(task).pending().len() == 0
                &&& final(task).fate() is None
                &&& final(task).live() == 0
                &&& final(task).pending_activations() == 0
            }
            &&& (old(task).pending().len() == 0 && old(task).fate() is None) ==> {
                &&& final(task).data_out->0 == Yield::<T, P>::StopIteration
                &&& final(task).pending().len() == 0
                &&& final(task).fate() is None
                &&& final(task).live() == 0
                &&& final(task).pending_activations() == 0
                &&& final(task).retired() == old(task).retired() + old(task).pending_activations()
            }
        },
        (old(task).data_in->0 is Cancel && !fresh) ==> {
            &&& old(task).live() > 0 ==> {
                &&& final(task).data_out->0 == Yield::<T, P>::Panic(Fault::<P>::Sentinel)
                &&& final(task).retired() == old(task).retired() + old(task).live()
            }
            &&& old(task).live() == 0 ==> {
                &&& final(task).data_out->0 == Yield::<T, P>::StopIteration
                &&& final(task).retired() == old(task).retired()
            }
            &&& final(task).pending().len() == 0
            &&& final(task).fate() is None
            &&& final(task).live() == 0
            &&& final(task).pending_activations() == 0
        },
{
    let sig = match task.data_in.take() {
        Some(sig) => sig,
        None => unreached(),
    };
    let cancelling = match sig {
        Signal::Cancel => !fresh,
        Signal::Continue => false,
    };
    if cancelling {
        // yield_value answers a Cancel reply by raising a fault carrying the
        // private sentinel; the unwind retires every live activation, and the
        // trampoline converts the sentinel back into an acknowledgement.
        if task.tx_snap.frames.len() > 0 {
            let n = task.tx_snap.frames.len();
            task.retired = task.retired + (n as u64);
            task.tx_snap.frames.clear();
            task.data_out = Some(Yield::Panic(Fault::Sentinel));
        } else {
            task.data_out = Some(Yield::StopIteration);
        }
        return ;
    }
    let ghost pending0 = emits_stack(task.tx_snap.frames@);
    let ghost fate0 = fate_stack(task.tx_snap.frames@);
    let ghost budget0 = task.budget();
    let ghost retired0 = task.retired;
    loop
        invariant
            task.started,
            task.func is None,
            task.data_in is None,
            task.data_out is None,
            emits_stack(task.tx_snap.frames@) == pending0,
            fate_stack(task.tx_snap.frames@) == fate0,
            task.budget() == budget0,
            task.retired >= retired0,
        decreases size_stack(task.tx_snap.frames@),
    {
        let ghost fs_before = task.tx_snap.frames@;
        let frame = match task.tx_snap.frames.pop() {
            None => {
                // the termination sink: the entry function has long returned,
                // so answer this and every later resume the same way
                task.data_out = Some(Yield::StopIteration);
                return ;
            },
            Some(frame) => frame,
        };
        proof {
            assert(task.tx_snap.frames@ =~= fs_before.drop_last());
            lemma_stack_last(fs_before);
        }
        match frame {
            GenFn::Done => {
                // the innermost activation returned; drop its locals
                task.retired = task.retired + 1;
                proof {
                    assert(emits_stack(task.tx_snap.frames@) =~= pending0);
                }
            },
            GenFn::Fail(p) => {
                // the inner fault boundary: unwind everything that is live,
                // package the payload for the consumer to re-raise
                let n = task.tx_snap.frames.len();
                task.retired = task.retired + 1 + (n as u64);
                task.tx_snap.frames.clear();
                task.data_out = Some(Yield::Panic(Fault::User(p)));
                return ;
            },
            GenFn::Put(v, rest) => {
                let rest_f = *rest;
                let ghost g_rest = rest_f;
                task.tx_snap.frames.push(rest_f);
                proof {
                    let fs = fs_before.drop_last();
                    lemma_stack_push(fs, g_rest);
                    if g_rest.fault() is Some {
                        assert(emits_stack(task.tx_snap.frames@) =~= pending0.skip(1));
                    } else {
                        assert(pending0 =~= seq![v] + (g_rest.emits() + emits_stack(fs)));
                        assert(emits_stack(task.tx_snap.frames@) =~= pending0.skip(1));
                    }
                    assert(pending0[0] == v);
                }
                task.data_out = Some(Yield::Value(v));
                return ;
            },
            GenFn::Call(sub, rest) => {
                // start the sub-generator: its activation becomes the
                // innermost frame, the caller's rest waits below it
                let sub_f = *sub;
                let rest_f = *rest;
                let ghost g_sub = sub_f;
                let ghost g_rest = rest_f;
                task.tx_snap.frames.push(rest_f);
                task.tx_snap.frames.push(sub_f);
                proof {
                    let fs = fs_before.drop_last();
                    lemma_stack_push(fs, g_rest);
                    lemma_stack_push(fs.push(g_rest), g_sub);
                    assert(task.tx_snap.frames@ =~= fs.push(g_rest).push(g_sub));
                    if g_sub.fault() is None && g_rest.fault() is None {
                        assert((g_sub.emits() + g_rest.emits()) + emits_stack(fs) =~= g_sub.emits()
                            + (g_rest.emits() + emits_stack(fs)));
                    }
                }
            },
        }
    }
}

} // verus!
