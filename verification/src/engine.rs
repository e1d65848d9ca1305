//! The boundary to the engine: the requests a binding sends and how it reads
//! the answers.
//!
//! The numbers here are the engine's protocol and are kept bit for bit: status
//! 10 means satisfiable, 20 unsatisfiable, a literal 0 closes a clause, and a
//! termination callback answers nonzero to stop.

use vstd::prelude::*;

verus! {

/// The status with which the engine reports that it found a model.
pub const SATISFIABLE: i32 = 10;

/// The status with which the engine reports that no model exists.
pub const UNSATISFIABLE: i32 = 20;

/// The literal that closes the clause under construction.
pub const END_OF_CLAUSE: i32 = 0;

/// One call to make on the engine.
#[derive(Clone, Copy, Debug, PartialEq, Eq, Structural)]
pub enum Request {
    /// Append a literal to the clause under construction; zero closes it.
    Add(i32),
    /// Hold a literal true during the next solve only.
    Assume(i32),
    /// Run the search; the engine answers with a status.
    Solve,
    /// Register the termination callback together with its context.
    Register,
    /// Register no callback and no context.
    Unregister,
}

/// What a status says about the formula: `Some(true)` for a model,
/// `Some(false)` for a refutation, `None` when the search ended without either.
pub open spec fn status_of(code: int) -> Option<bool> {
    if code == SATISFIABLE {
        Some(true)
    } else if code == UNSATISFIABLE {
        Some(false)
    } else {
        None
    }
}

/// What the engine's answer to a value query says about `lit`: the literal
/// itself means true, its negation false, anything else that the model holds
/// with either polarity.
pub open spec fn value_of(lit: int, answer: int) -> Option<bool> {
    if answer == lit {
        Some(true)
    } else if answer == -lit {
        Some(false)
    } else {
        None
    }
}

/// What the engine's answer to a failed-assumption query says: only 1 means
/// that the assumption took part in the refutation.
pub open spec fn failed_of(answer: int) -> bool {
    answer == 1
}

/// The flag that a termination callback hands to the engine.
pub open spec fn stop_flag(stop: bool) -> int {
    if stop {
        1
    } else {
        0
    }
}

/// The requests that add one clause: its literals in order, then the
/// terminator.
pub open spec fn clause_requests(clause: Seq<i32>) -> Seq<Request> {
    clause.map_values(|lit: i32| Request::Add(lit)).push(Request::Add(END_OF_CLAUSE))
}

/// The requests of one solve: the assumptions in order, then the search.
pub open spec fn solve_requests(assumptions: Seq<i32>) -> Seq<Request> {
    assumptions.map_values(|lit: i32| Request::Assume(lit)).push(Request::Solve)
}

/// The requests that keep the engine's callback in step with the strategy:
/// the callback is registered when the first strategy is installed, left
/// alone when a strategy replaces another, and taken away whenever the
/// strategy is cleared.
pub open spec fn registration_requests(installed: bool, wanted: bool) -> Seq<Request> {
    if !wanted {
        seq![Request::Unregister]
    } else if installed {
        Seq::empty()
    } else {
        seq![Request::Register]
    }
}

/// Builds the requests that add `clause`.
pub(crate) fn clause_script(clause: &[i32]) -> (script: Vec<Request>)
    ensures
        script@ == clause_requests(clause@),
{
    let mut script: Vec<Request> = Vec::new();
    let mut i: usize = 0;
    while i < clause.len()
        invariant
            i <= clause.len(),
            script@ == clause@.take(i as int).map_values(|lit: i32| Request::Add(lit)),
        decreases clause.len() - i,
    {
        script.push(Request::Add(clause[i]));
        i += 1;
    }
    assert(clause@.take(i as int) =~= clause@);
    script.push(Request::Add(END_OF_CLAUSE));
    script
}

/// Builds the requests of one solve under `assumptions`.
pub(crate) fn solve_script(assumptions: &[i32]) -> (script: Vec<Request>)
    ensures
        script@ == solve_requests(assumptions@),
{
    let mut script: Vec<Request> = Vec::new();
    let mut i: usize = 0;
    while i < assumptions.len()
        invariant
            i <= assumptions.len(),
            script@ == assumptions@.take(i as int).map_values(|lit: i32| Request::Assume(lit)),
        decreases assumptions.len() - i,
    {
        script.push(Request::Assume(assumptions[i]));
        i += 1;
    }
    assert(assumptions@.take(i as int) =~= assumptions@);
    script.push(Request::Solve);
    script
}

/// Every status concludes exactly one way: a model for 10, a refutation for
/// 20, and neither for anything else.
pub proof fn lemma_status_is_read_exactly(code: int)
    ensures
        status_of(code) == Some(true) <==> code == 10,
        status_of(code) == Some(false) <==> code == 20,
        status_of(code) is None <==> code != 10 && code != 20,
{
}

} // verus!
