//! Producer programs.
//!
//! A generator function is modelled as the tree of yield operations it will
//! perform: yield one value, drive a sub-generator to exhaustion, return, or
//! panic. The runtime in `task` interprets such a program one suspension at a
//! time; the spec functions here give each program its meaning up front, as
//! the sequence of values it emits and the fault, if any, it ends in.

use vstd::prelude::*;

verus! {

/// A generator function over values of type `T`, written as a value.
///
/// `P` is the type of fault payloads the function may panic with.
pub enum GenFn<T, P> {
    /// The function returns without yielding anything further.
    Done,
    /// The function panics with the given payload.
    Fail(P),
    /// The function yields one value and then continues as the rest.
    Put(T, Box<GenFn<T, P>>),
    /// The function drives a sub-generator to exhaustion, re-yielding each of
    /// its values on the outer consumer, and then continues as the rest.
    Call(Box<GenFn<T, P>>, Box<GenFn<T, P>>),
}

impl<T, P> GenFn<T, P> {
    /// The values this function yields, in order, up to its return or its
    /// first fault.
    pub open spec fn emits(self) -> Seq<T>
        decreases self,
    {
        match self {
            GenFn::Done => Seq::empty(),
            GenFn::Fail(_) => Seq::empty(),
            GenFn::Put(v, rest) => seq![v] + (*rest).emits(),
            GenFn::Call(sub, rest) => if (*sub).fault() is Some {
                (*sub).emits()
            } else {
                (*sub).emits() + (*rest).emits()
            },
        }
    }

    /// The fault this function raises after its last yield, or `None` if it
    /// returns normally.
    pub open spec fn fault(self) -> Option<P>
        decreases self,
    {
        match self {
            GenFn::Done => None,
            GenFn::Fail(p) => Some(p),
            GenFn::Put(_, rest) => (*rest).fault(),
            GenFn::Call(sub, rest) => if (*sub).fault() is Some {
                (*sub).fault()
            } else {
                (*rest).fault()
            },
        }
    }

    /// How many sub-generator activations this function performs, not
    /// counting its own.
    pub open spec fn calls(self) -> nat
        decreases self,
    {
        match self {
            GenFn::Done => 0,
            GenFn::Fail(_) => 0,
            GenFn::Put(_, rest) => (*rest).calls(),
            GenFn::Call(sub, rest) => 1 + (*sub).calls() + (*rest).calls(),
        }
    }

    /// Structural size of the program; the measure that bounds how much work
    /// the interpreter does between two suspensions.
    pub open spec fn size(self) -> nat
        decreases self,
    {
        match self {
            GenFn::Done => 1,
            GenFn::Fail(_) => 1,
            GenFn::Put(_, rest) => 1 + (*rest).size(),
            GenFn::Call(sub, rest) => 1 + (*sub).size() + (*rest).size(),
        }
    }
}

/// Yield one value, then continue as `rest`.
pub fn yeet<T, P>(val: T, rest: GenFn<T, P>) -> (r: GenFn<T, P>)
    ensures
        r.emits() == seq![val] + rest.emits(),
        r.fault() == rest.fault(),
        r.calls() == rest.calls(),
        r.size() == 1 + rest.size(),
{
    GenFn::Put(val, Box::new(rest))
}

/// Drive `sub` to exhaustion, re-yielding each of its values, then continue
/// as `rest`.
///
/// The outer consumer sees exactly the sequence `sub` itself emits, followed
/// by whatever `rest` emits; a fault in `sub` becomes a fault of the whole.
pub fn yeet_all<T, P>(sub: GenFn<T, P>, rest: GenFn<T, P>) -> (r: GenFn<T, P>)
    ensures
        sub.fault() is None ==> r.emits() == sub.emits() + rest.emits(),
        sub.fault() is None ==> r.fault() == rest.fault(),
        sub.fault() is Some ==> r.emits() == sub.emits(),
        sub.fault() is Some ==> r.fault() == sub.fault(),
        r.calls() == 1 + sub.calls() + rest.calls(),
        r.size() == 1 + sub.size() + rest.size(),
{
    GenFn::Call(Box::new(sub), Box::new(rest))
}

/// Yield every element of `vals`, in order, then continue as `rest`.
pub fn yeet_each<T, P>(vals: Vec<T>, rest: GenFn<T, P>) -> (r: GenFn<T, P>)
    ensures
        r.emits() == vals@ + rest.emits(),
        r.fault() == rest.fault(),
        r.calls() == rest.calls(),
{
    let ghost target: Seq<T> = vals@ + rest.emits();
    let ghost fault0 = rest.fault();
    let ghost calls0 = rest.calls();
    let mut vals = vals;
    let mut r = rest;
    while vals.len() > 0
        invariant
            vals@ + r.emits() == target,
            r.fault() == fault0,
            r.calls() == calls0,
        decreases vals.len(),
    {
        let ghost before: Seq<T> = vals@;
        let ghost tail: Seq<T> = r.emits();
        let v = match vals.pop() {
            Some(v) => v,
            None => {
                proof {
                    assert(false);
                }
                return r;
            },
        };
        r = yeet(v, r);
        proof {
            assert(vals@ + r.emits() =~= before + tail);
        }
    }
    proof {
        assert(vals@ + r.emits() =~= r.emits());
    }
    r
}

/// Law: yielding from a sub-generator is the same as inlining it.
///
/// A `Call` node emits exactly what its sub-generator emits, followed, when
/// the sub-generator returns normally, by what the rest of the caller emits;
/// and it faults exactly when either of the two does.
pub proof fn lemma_yield_from_flattens<T, P>(f: GenFn<T, P>)
    ensures
        f matches GenFn::Call(sub, rest) ==> {
            &&& (*sub).fault() is None ==> f.emits() == (*sub).emits() + (*rest).emits()
                && f.fault() == (*rest).fault()
            &&& (*sub).fault() is Some ==> f.emits() == (*sub).emits()
                && f.fault() == (*sub).fault()
        },
{
}

} // verus!
