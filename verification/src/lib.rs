//! A stackful generator runtime, modelled and verified.
//!
//! A consumer holds a [`Generator`] and repeatedly asks it for the next
//! value; the producer runs until it yields one, at which point control
//! returns to the consumer. Producers may drive sub-generators of their own,
//! forming a tree of suspended activations in which exactly one is live at
//! any instant.
//!
//! Here the producer side is a program value, [`GenFn`], and the runtime is
//! an interpreter over it: a [`Task`] owns the producer's suspended
//! continuation (a [`Snapshot`]: a stack of frames standing in for the
//! producer's call stack), the two single-slot mailboxes between the sides,
//! and the entry function, and resumes the producer one suspension at a time.
//! A sub-generator driven to exhaustion by its parent is a frame of the same
//! task, so the routing discipline of a tree of tasks, where the innermost
//! activation is the one running and the depth equals the nesting depth,
//! appears here as the frame stack's own discipline. Every contract is stated
//! against the program's meaning: the sequence of values it emits and the
//! fault, if any, it ends in.

use vstd::prelude::*;

pub mod program;
pub mod task;

pub use program::GenFn;
pub use program::lemma_yield_from_flattens;
pub use program::yeet;
pub use program::yeet_all;
pub use program::yeet_each;
pub use task::Fault;
pub use task::Signal;
pub use task::Snapshot;
pub use task::Task;
pub use task::Yield;
pub use task::enter;
pub use task::new_task;

verus! {

/// The condition of a generator, as its consumer sees it.
#[derive(Clone, Copy, PartialEq, Eq, Structural, Debug)]
pub enum State {
    /// Constructed, never entered.
    Fresh,
    /// The producer is parked between two yields.
    Yielded,
    /// Terminal: the producer's function has returned; every later pull is
    /// end-of-sequence.
    Exhausted,
    /// Terminal: a producer fault was delivered; every later pull is
    /// end-of-sequence.
    Faulted,
    /// Terminal: teardown unwound the producer.
    Cancelled,
}

/// How a generator reached its terminal condition, if it has.
enum End {
    No,
    ByFault,
    ByCancel,
}

/// A generator task: the consumer-facing handle that owns a producer.
///
/// Pulling with [`Generator::next`] or [`Generator::try_next`] resumes the
/// producer until it yields, returns or faults; [`Generator::cancel`] tears
/// the producer down, unwinding whatever is still live on its stack.
pub struct Generator<T, P> {
    task: Task<T, P>,
    first: bool,
    ended: End,
}

impl<T, P> Generator<T, P> {
    /// Well-formedness, established by the constructor and kept by every
    /// operation.
    pub closed spec fn inv(self) -> bool {
        &&& self.task.inv()
        &&& (self.first <==> !self.task.is_started())
        &&& !(self.ended is No) ==> self.task.live() == 0
    }

    /// The values this generator will still hand its consumer, in order.
    pub closed spec fn remaining(self) -> Seq<T> {
        if self.ended is No {
            self.task.pending()
        } else {
            Seq::empty()
        }
    }

    /// The producer fault still to be delivered after `remaining`, if any.
    pub closed spec fn failure(self) -> Option<P> {
        if self.ended is No {
            self.task.fate()
        } else {
            None
        }
    }

    /// The producer's live activations: frames whose locals have not yet
    /// been dropped.
    pub closed spec fn live(self) -> nat {
        self.task.live()
    }

    /// Activations retired so far; each one's locals are dropped exactly
    /// once, when it returns or is unwound.
    pub closed spec fn retired(self) -> u64 {
        self.task.retired()
    }

    /// Activations still to be retired if the producer is left to run to
    /// exhaustion: the live ones, and the ones it would still start. Zero
    /// once the generator is terminal.
    pub closed spec fn outstanding(self) -> nat {
        if self.ended is No {
            self.task.pending_activations()
        } else {
            0
        }
    }

    /// The state of the lifecycle this generator is in.
    pub closed spec fn state(self) -> State {
        if self.ended is ByFault {
            State::Faulted
        } else if self.ended is ByCancel {
            State::Cancelled
        } else if !self.task.is_started() {
            State::Fresh
        } else if self.task.live() > 0 {
            State::Yielded
        } else {
            State::Exhausted
        }
    }

    /// Creates a generator that will run `func` as its producer; the
    /// producer is not yet run.
    pub fn from_fn_ptr(func: GenFn<T, P>) -> (g: Self)
        requires
            func.calls() < u64::MAX,
        ensures
            g.inv(),
            g.state() == State::Fresh,
            g.remaining() == func.emits(),
            g.failure() == func.fault(),
            g.live() == 0,
            g.retired() == 0,
            g.outstanding() == 1 + func.calls(),
    {
        Generator { task: task::new_task(func), first: true, ended: End::No }
    }

    /// Pulls the next value.
    ///
    /// Observes, over the pulls of a run: `Some` of each value the producer
    /// yields, in order, and after the last one `None`, forever. Must not be
    /// called where the pull would deliver a producer fault, which this
    /// runtime hands back as a value: use [`Generator::try_next`] there.
    pub fn next(&mut self) -> (r: Option<T>)
        requires
            old(self).inv(),
            old(self).remaining().len() == 0 ==> old(self).failure() is None,
        ensures
            final(self).inv(),
            final(self).state() != State::Fresh,
            old(self).remaining().len() > 0 ==> {
                &&& r == Some(old(self).remaining()[0])
                &&& final(self).remaining() == old(self).remaining().skip(1)
                &&& final(self).failure() == old(self).failure()
                &&& final(self).state() == State::Yielded
                &&& final(self).live() > 0
                &&& final(self).retired() as nat + final(self).outstanding() == old(self).retired()
                    as nat + old(self).outstanding()
            },
            old(self).remaining().len() == 0 ==> {
                &&& r is None
                &&& final(self).remaining() == Seq::<T>::empty()
                &&& final(self).failure() is None
                &&& final(self).outstanding() == 0
                &&& final(self).retired() == old(self).retired() + old(self).outstanding()
                &&& (old(self).state() != State::Faulted && old(self).state() != State::Cancelled)
                    ==> final(self).state() == State::Exhausted
            },
            old(self).state() == State::Faulted ==> final(self).state() == State::Faulted,
            old(self).state() == State::Cancelled ==> final(self).state() == State::Cancelled,
    {
        match self.ended {
            End::No => {},
            _ => {
                return None;
            },
        }
        self.first = false;
        match task::enter(&mut self.task, Signal::Continue) {
            Yield::Value(v) => Some(v),
            Yield::StopIteration => None,
            Yield::Panic(_) => {
                proof {
                    assert(false);
                }
                None
            },
        }
    }

    /// Pulls the next value, delivering a producer fault as `Err`.
    ///
    /// Observes `Ok(Some(v))` for each value the producer yields, in order;
    /// then, if the producer faulted, `Err` of exactly its payload, once;
    /// and after either end `Ok(None)`, forever.
    pub fn try_next(&mut self) -> (r: Result<Option<T>, P>)
        requires
            old(self).inv(),
        ensures
            final(self).inv(),
            final(self).state() != State::Fresh,
            old(self).remaining().len() > 0 ==> {
                &&& r == Ok::<Option<T>, P>(Some(old(self).remaining()[0]))
                &&& final(self).remaining() == old(self).remaining().skip(1)
                &&& final(self).failure() == old(self).failure()
                &&& final(self).state() == State::Yielded
                &&& final(self).live() > 0
                &&& final(self).retired() as nat + final(self).outstanding() == old(self).retired()
                    as nat + old(self).outstanding()
            },
            (old(self).remaining().len() == 0 && old(self).failure() is Some) ==> {
                &&& r == Err::<Option<T>, P>(old(self).failure()->0)
                &&& final(self).state() == State::Faulted
                &&& final(self).remaining() == Seq::<T>::empty()
                &&& final(self).failure() is None
                &&& final(self).outstanding() == 0
            },
            (old(self).remaining().len() == 0 && old(self).failure() is None) ==> {
                &&& r == Ok::<Option<T>, P>(None)
                &&& final(self).remaining() == Seq::<T>::empty()
                &&& final(self).failure() is None
                &&& final(self).outstanding() == 0
                &&& final(self).retired() == old(self).retired() + old(self).outstanding()
                &&& (old(self).state() != State::Faulted && old(self).state() != State::Cancelled)
                    ==> final(self).state() == State::Exhausted
            },
            old(self).state() == State::Faulted ==> final(self).state() == State::Faulted,
            old(self).state() == State::Cancelled ==> final(self).state() == State::Cancelled,
    {
        match self.ended {
            End::No => {},
            _ => {
                return Ok(None);
            },
        }
        self.first = false;
        match task::enter(&mut self.task, Signal::Continue) {
            Yield::Value(v) => Ok(Some(v)),
            Yield::StopIteration => Ok(None),
            Yield::Panic(Fault::User(p)) => {
                self.ended = End::ByFault;
                Err(p)
            },
            Yield::Panic(Fault::Sentinel) => {
                proof {
                    assert(false);
                }
                Ok(None)
            },
        }
    }

    /// Tears the producer down before releasing it.
    ///
    /// Completes in one switch: live activations are unwound, each frame
    /// retired, and so its locals dropped, exactly once; a producer that had
    /// already finished is left as it was. Nothing is re-raised: the unwind
    /// is acknowledged with the private sentinel, which is absorbed here.
    pub fn cancel(&mut self)
        requires
            old(self).inv(),
        ensures
            final(self).inv(),
            final(self).remaining() == Seq::<T>::empty(),
            final(self).failure() is None,
            final(self).live() == 0,
            final(self).outstanding() == 0,
            old(self).state() == State::Fresh ==> final(self).state() == State::Cancelled
                && final(self).retired() == old(self).retired(),
            old(self).state() == State::Yielded ==> final(self).state() == State::Cancelled
                && final(self).retired() == old(self).retired() + old(self).live(),
            old(self).state() == State::Exhausted ==> final(self).state() == State::Exhausted
                && final(self).retired() == old(self).retired(),
            old(self).state() == State::Faulted ==> final(self).state() == State::Faulted
                && final(self).retired() == old(self).retired(),
            old(self).state() == State::Cancelled ==> final(self).state() == State::Cancelled
                && final(self).retired() == old(self).retired(),
    {
        match self.ended {
            End::No => {},
            _ => {
                return ;
            },
        }
        if self.first {
            // never entered: nothing is live, nothing ran, so there is
            // nothing to unwind
            proof {
                task::lemma_fresh_task(self.task);
            }
            self.ended = End::ByCancel;
            return ;
        }
        match task::enter(&mut self.task, Signal::Cancel) {
            Yield::StopIteration => {
                // the producer had already finished before the cancellation
            },
            Yield::Panic(Fault::Sentinel) => {
                // the unwind ran to the trampoline: cancellation acknowledged
                self.ended = End::ByCancel;
            },
            Yield::Panic(Fault::User(_)) => {
                proof {
                    assert(false);
                }
            },
            Yield::Value(_) => {
                proof {
                    assert(false);
                }
            },
        }
    }

    /// Pulls until end-of-sequence and returns everything pulled: exactly
    /// the values the producer still had to yield, in order.
    ///
    /// Must not be called on a producer that will fault, which this runtime
    /// hands back as a value: use [`Generator::try_next`] there.
    #[verifier::loop_isolation(false)]
    pub fn collect_remaining(&mut self) -> (vals: Vec<T>)
        requires
            old(self).inv(),
            old(self).failure() is None,
        ensures
            final(self).inv(),
            vals@ == old(self).remaining(),
            final(self).remaining() == Seq::<T>::empty(),
            final(self).failure() is None,
    {
        let mut vals: Vec<T> = Vec::new();
        loop
            invariant
                self.inv(),
                self.failure() is None,
                vals@ + self.remaining() == old(self).remaining(),
            decreases self.remaining().len(),
        {
            let ghost sofar = vals@;
            let ghost left = self.remaining();
            match self.next() {
                Some(v) => {
                    vals.push(v);
                    proof {
                        assert(vals@ + self.remaining() =~= sofar + left);
                    }
                },
                None => {
                    proof {
                        assert(vals@ =~= vals@ + self.remaining());
                    }
                    return vals;
                },
            }
        }
    }

    /// Law: teardown is bounded. The producer's live activations never
    /// outnumber the activations still to be retired, so cancelling retires
    /// each live one exactly once and nothing further.
    pub proof fn lemma_accounting(self)
        requires
            self.inv(),
        ensures
            self.outstanding() >= self.live(),
    {
        if self.ended is No {
            task::lemma_task_accounting(self.task);
        }
    }

    /// The state of the lifecycle this generator is in.
    pub fn status(&self) -> (s: State)
        requires
            self.inv(),
        ensures
            s == self.state(),
    {
        match self.ended {
            End::ByFault => State::Faulted,
            End::ByCancel => State::Cancelled,
            End::No => {
                if self.first {
                    State::Fresh
                } else if self.task.live_frames() > 0 {
                    State::Yielded
                } else {
                    State::Exhausted
                }
            },
        }
    }

    /// How many of the producer's activations are live right now.
    pub fn live_frames(&self) -> (n: usize)
        ensures
            n == self.live(),
    {
        self.task.live_frames()
    }

    /// How many activations have been retired so far.
    pub fn frames_retired(&self) -> (n: u64)
        ensures
            n == self.retired(),
    {
        self.task.frames_retired()
    }
}

} // verus!
