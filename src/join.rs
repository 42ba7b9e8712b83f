//! The binary join combinator: completes once both children have completed,
//! with their results in argument order.

use vstd::prelude::*;

verus! {

/// The result slots of a join: one for each child, filled when it completes.
pub type Slots<T1, T2> = (Option<T1>, Option<T2>);

/// One advance of a join. Each outcome is what a child produced on this
/// advance (`None`: it stayed pending, or was not advanced). A filled slot is
/// kept; once both are filled the join completes with both results and its
/// slots are drained.
pub open spec fn join_step<T1, T2>(s: Slots<T1, T2>, o1: Option<T1>, o2: Option<T2>) -> (
    Slots<T1, T2>,
    Option<(T1, T2)>,
) {
    let r1 = if s.0 is Some { s.0 } else { o1 };
    let r2 = if s.1 is Some { s.1 } else { o2 };
    if r1 is Some && r2 is Some {
        ((None, None), Some((r1.unwrap(), r2.unwrap())))
    } else {
        ((r1, r2), None)
    }
}

/// A join of two children, as the state of its result slots. The children
/// themselves are advanced by the driver, as `wants_first` and `wants_second`
/// say.
pub struct Join<T1, T2> {
    result1: Option<T1>,
    result2: Option<T2>,
}

impl<T1, T2> Join<T1, T2> {
    pub closed spec fn view(&self) -> Slots<T1, T2> {
        (self.result1, self.result2)
    }

    /// A join with neither child complete.
    pub fn new() -> (r: Self)
        ensures
            r@ == (None::<T1>, None::<T2>),
    {
        Join { result1: None, result2: None }
    }

    /// Whether the first child is still to be advanced.
    pub fn wants_first(&self) -> (r: bool)
        ensures
            r == (self@.0 is None),
    {
        self.result1.is_none()
    }

    /// Whether the second child is still to be advanced.
    pub fn wants_second(&self) -> (r: bool)
        ensures
            r == (self@.1 is None),
    {
        self.result2.is_none()
    }

    /// Records what the children produced on this advance, and completes
    /// when both have. A child that has completed is not advanced again.
    pub fn advance(&mut self, o1: Option<T1>, o2: Option<T2>) -> (r: Option<(T1, T2)>)
        requires
            o1 is Some ==> old(self)@.0 is None,
            o2 is Some ==> old(self)@.1 is None,
        ensures
            (final(self)@, r) == join_step(old(self)@, o1, o2),
    {
        if self.result1.is_none() {
            self.result1 = o1;
        }
        if self.result2.is_none() {
            self.result2 = o2;
        }
        if self.result1.is_some() && self.result2.is_some() {
            let a = self.result1.take();
            let b = self.result2.take();
            match (a, b) {
                (Some(x), Some(y)) => Some((x, y)),
                _ => None,
            }
        } else {
            None
        }
    }
}

/// A join completes only once both children have completed, and then holds
/// their results in argument order: whichever child completes first, and
/// whether both complete on the same advance.
pub proof fn lemma_join_keeps_argument_order<T1, T2>(a: T1, b: T2)
    ensures
        join_step((None::<T1>, None::<T2>), Some(a), Some(b)).1 == Some((a, b)),
        join_step((None::<T1>, None::<T2>), Some(a), None::<T2>).1 is None,
        join_step(join_step((None::<T1>, None::<T2>), Some(a), None::<T2>).0, None, Some(b)).1
            == Some((a, b)),
        join_step((None::<T1>, None::<T2>), None::<T1>, Some(b)).1 is None,
        join_step(join_step((None::<T1>, None::<T2>), None::<T1>, Some(b)).0, Some(a), None).1
            == Some((a, b)),
{
}

/// A join completes exactly once: on completion its slots are drained, so
/// an advance with no new outcome cannot complete it again.
pub proof fn lemma_join_completes_once<T1, T2>(s: Slots<T1, T2>, o1: Option<T1>, o2: Option<T2>)
    requires
        join_step(s, o1, o2).1 is Some,
    ensures
        join_step(s, o1, o2).0 == (None::<T1>, None::<T2>),
        join_step(join_step(s, o1, o2).0, None, None).1 is None,
{
}

} // verus!
