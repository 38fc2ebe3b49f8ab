//! Control-flow combinators over abstract steps, as data: a pair raced in
//! parallel and a step repeated forever. Their drivers live outside the
//! library; the repeat decision itself is the same as the repeat guard's.
use vstd::prelude::*;

verus! {

/// Two steps meant to run concurrently; whichever finishes first decides the
/// outcome. Racing futures cannot be verified here, so the driver outside the
/// library owns the select loop.
#[derive(Debug, Clone, PartialEq, Eq)]
pub struct Parallel<CA, CB> {
    pub a: CA,
    pub b: CB,
}

impl<CA, CB> Parallel<CA, CB> {
    pub fn new(a: CA, b: CB) -> (p: Self)
        ensures
            p.a == a,
            p.b == b,
    {
        Parallel { a, b }
    }
}

/// A step that runs forever until an error occurs, with a fixed delay between
/// successful rounds.
#[derive(Debug, Clone, PartialEq, Eq)]
pub struct Infinite<C> {
    pub component: C,
    /// Seconds to sleep between successful rounds.
    pub delay: u64,
}

impl<C> Infinite<C> {
    pub fn new(component: C, delay: u64) -> (i: Self)
        ensures
            i.component == component,
            i.delay == delay,
    {
        Infinite { component, delay }
    }

    /// Decides what to do after one round of the wrapped step: sleep and
    /// repeat on success, stop and propagate on failure.
    pub fn after_round(&self, succeeded: bool) -> (d: crate::common::components::RepeatDecision)
        ensures
            d == if succeeded {
                crate::common::components::RepeatDecision::SleepThenRepeat(self.delay)
            } else {
                crate::common::components::RepeatDecision::Stop
            },
    {
        if succeeded {
            crate::common::components::RepeatDecision::SleepThenRepeat(self.delay)
        } else {
            crate::common::components::RepeatDecision::Stop
        }
    }
}

} // verus!
