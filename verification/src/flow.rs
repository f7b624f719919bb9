//! A route as a chain of stages. Each stage does its outside work (a query, a call) and reports
//! an outcome; the first error ends the route with that error unchanged, and success moves on to
//! the stage that follows, until the last one is done.

use vstd::prelude::*;

verus! {

/// Where a chain of stages goes after one of them: on to the next, stopped by an error, or done.
#[derive(Debug)]
pub enum Next<S, E> {
    Run(S),
    Stop(E),
    Done,
}

/// A kind of stage with a fixed order.
pub trait Stage: Sized {
    /// The stage that follows this one; `None` after the last.
    spec fn successor(self) -> Option<Self>;

    /// The stage that follows this one.
    fn following(&self) -> (r: Option<Self>)
        ensures
            r == self.successor(),
    ;
}

/// After a stage: its error stops the route unchanged; success runs the stage that follows.
pub fn after_stage<S: Stage, E>(stage: &S, outcome: Result<(), E>) -> (n: Next<S, E>)
    ensures
        match outcome {
            Err(e) => n == Next::<S, E>::Stop(e),
            Ok(_) => match stage.successor() {
                Some(t) => n == Next::<S, E>::Run(t),
                None => n is Done,
            },
        },
{
    match outcome {
        Err(e) => Next::Stop(e),
        Ok(_) => match stage.following() {
            Some(t) => Next::Run(t),
            None => Next::Done,
        },
    }
}

} // verus!
