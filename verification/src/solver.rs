//! The solver session: the result state that gates the queries, the
//! strategy that the engine polls, and the requests each operation sends.

use crate::callbacks::Callbacks;
use crate::engine::{
    clause_requests, clause_script, failed_of, registration_requests, solve_requests,
    solve_script, status_of, stop_flag, value_of, Request, SATISFIABLE, UNSATISFIABLE,
};
use crate::literal::{valid_literal, valid_literals};
use crate::model::{
    lemma_assumptions_last_one_solve, lemma_callback_follows_the_strategy,
    lemma_clause_reaches_the_formula, EngineModel,
};
use crate::timeout::Timeout;
use vstd::prelude::*;
use vstd::string::StringSliceAdditionalSpecFns;
use vstd::utf8::{decode_utf8, valid_utf8};

verus! {

/// `core::str::from_utf8` accepts exactly the byte strings that are valid
/// UTF-8, and the text it returns is made of the very bytes it was given.
#[verifier::external_body]
fn utf8_text<'a>(bytes: &'a [u8]) -> (text: Option<&'a str>)
    ensures
        text is Some <==> valid_utf8(bytes@),
        text matches Some(s) ==> s.spec_bytes() == bytes@,
{
    core::str::from_utf8(bytes).ok()
}

/// Where a session stands between solves.
enum Phase {
    /// No solve is running; the last one, if any, left this outcome.
    Idle(Option<bool>),
    /// A solve has begun and its status is awaited.
    Solving,
}

/// One solving session with an engine.
///
/// The session does not hold the engine. Each operation returns the requests
/// to perform on it, in order, and the operations that read an answer take it
/// as an argument.
pub struct Solver<C: Callbacks = Timeout> {
    phase: Phase,
    cb: Option<C>,
    formula: Ghost<Seq<Seq<i32>>>,
}

/// What a session is made of.
pub struct SolverView<C> {
    /// The outcome of the last solve: `Some(true)` for satisfiable,
    /// `Some(false)` for unsatisfiable, `None` where the search ended
    /// without either, and while there is no outcome to speak of.
    pub state: Option<bool>,
    /// Whether a solve has begun whose status is still awaited.
    pub solving: bool,
    /// The installed strategy, if any.
    pub callbacks: Option<C>,
    /// What the engine holds once it has performed every request that the
    /// session returned.
    pub engine: EngineModel,
}

impl<C: Callbacks> SolverView<C> {
    /// A value query is legal: the last solve found a model and the formula
    /// has not changed since.
    pub open spec fn value_legal(self) -> bool {
        self.state == Some(true)
    }

    /// A failed-assumption query is legal: the last solve refuted the formula
    /// and the formula has not changed since.
    pub open spec fn failed_legal(self) -> bool {
        self.state == Some(false)
    }

    /// What holds of every session between two operations: there is no
    /// outcome while a status is awaited, the engine holds no unfinished
    /// clause and no assumption, and it holds a callback exactly when a
    /// strategy is installed.
    pub open spec fn wf(self) -> bool {
        &&& self.solving ==> self.state is None
        &&& self.engine.clause.len() == 0
        &&& self.engine.assumptions.len() == 0
        &&& self.engine.registered == (self.callbacks is Some)
    }

    /// A new session, with a new engine.
    pub open spec fn init() -> Self {
        SolverView { state: None, solving: false, callbacks: None, engine: EngineModel::init() }
    }

    /// The session after `clause` was added: the engine's formula has grown
    /// by it, the outcome is forgotten, and a status still awaited is not
    /// awaited any more, since it would speak of the formula as it was.
    pub open spec fn with_clause(self, clause: Seq<i32>) -> Self {
        SolverView {
            state: None,
            solving: false,
            callbacks: self.callbacks,
            engine: EngineModel { formula: self.engine.formula.push(clause), ..self.engine },
        }
    }

    /// `next` is a session that the beginning of a solve may leave: the
    /// outcome is forgotten, a status is awaited, and the strategy, if there
    /// is one, was told.
    pub open spec fn begins(self, next: Self) -> bool {
        &&& next.state == None::<bool>
        &&& next.solving
        &&& next.engine == self.engine
        &&& match self.callbacks {
            Some(strategy) => next.callbacks matches Some(told) && strategy.after_started(&told),
            None => next.callbacks is None,
        }
    }

    /// The session after a status arrived: where one was awaited it is
    /// read as the outcome; where none was, it belongs to no solve and
    /// changes nothing.
    pub open spec fn concluded(self, code: i32) -> Self {
        if self.solving {
            SolverView { state: status_of(code as int), solving: false, ..self }
        } else {
            self
        }
    }

    /// The session after `strategy` took the place of the installed one, or
    /// after the installed one was cleared.
    pub open spec fn with_callbacks(self, strategy: Option<C>) -> Self {
        SolverView {
            callbacks: strategy,
            engine: EngineModel { registered: strategy is Some, ..self.engine },
            ..self
        }
    }

    /// `next` is a session that one poll may leave, and `flag` the answer
    /// handed to the engine: the strategy's own answer, or "go on" where
    /// none is installed.
    pub open spec fn polls(self, next: Self, flag: i32) -> bool {
        &&& next.state == self.state
        &&& next.solving == self.solving
        &&& next.engine == self.engine
        &&& match self.callbacks {
            Some(strategy) => {
                &&& next.callbacks matches Some(asked)
                &&& strategy.after_terminate(&asked, flag != 0)
                &&& flag == stop_flag(flag != 0)
            },
            None => next.callbacks is None && flag == stop_flag(false),
        }
    }
}

impl<C: Callbacks> View for Solver<C> {
    type V = SolverView<C>;

    closed spec fn view(&self) -> SolverView<C> {
        SolverView {
            state: match self.phase {
                Phase::Idle(outcome) => outcome,
                Phase::Solving => None,
            },
            solving: self.phase is Solving,
            callbacks: self.cb,
            engine: EngineModel {
                formula: self.formula@,
                clause: Seq::empty(),
                assumptions: Seq::empty(),
                registered: self.cb is Some,
            },
        }
    }
}

impl<C: Callbacks> Solver<C> {
    /// Every session is well formed.
    pub proof fn lemma_wf(self)
        ensures
            self@.wf(),
    {
    }

    /// A session with no outcome and no strategy, for a new engine.
    pub fn new() -> (solver: Self)
        ensures
            solver@ == SolverView::<C>::init(),
    {
        Solver { phase: Phase::Idle(None), cb: None, formula: Ghost(Seq::empty()) }
    }

    /// Reads the engine's name and version from the bytes it reports, or
    /// gives `"invalid"` where they are not UTF-8.
    pub fn signature<'a>(&self, reported: &'a [u8]) -> (text: &'a str)
        ensures
            valid_utf8(reported@) ==> text@ == decode_utf8(reported@),
            !valid_utf8(reported@) ==> text@ == "invalid"@,
    {
        match utf8_text(reported) {
            Some(name) => {
                proof {
                    vstd::utf8::encode_utf8_decode_utf8(name@);
                }
                name
            },
            None => "invalid",
        }
    }

    /// Adds a clause: returns the requests that hand its literals and the
    /// terminator to the engine, and forgets the outcome of the last solve.
    /// Once they are performed the engine's formula has gained the clause.
    pub fn add_clause(&mut self, clause: &[i32]) -> (script: Vec<Request>)
        requires
            valid_literals(clause@),
        ensures
            script@ == clause_requests(clause@),
            final(self)@ == old(self)@.with_clause(clause@),
            final(self)@.engine == old(self)@.engine.perform_all(script@),
    {
        proof {
            lemma_clause_reaches_the_formula(self@.engine, clause@);
        }
        self.phase = Phase::Idle(None);
        self.formula = Ghost(self.formula@.push(clause@));
        clause_script(clause)
    }

    /// Begins a solve of the formula as it stands: tells the strategy, if
    /// one is installed, and returns the one request to perform. The search
    /// runs under no assumption. The engine's status is then handed to
    /// [`Solver::conclude`].
    pub fn solve(&mut self) -> (script: Vec<Request>)
        ensures
            script@ == seq![Request::Solve],
            script@ == solve_requests(Seq::empty()),
            old(self)@.begins(final(self)@),
            old(self)@.engine.perform_all(script@.drop_last()).assumptions == Seq::<i32>::empty(),
            final(self)@.engine == old(self)@.engine.perform_all(script@),
    {
        proof {
            lemma_assumptions_last_one_solve(self@.engine, Seq::empty());
        }
        self.begin();
        let mut script: Vec<Request> = Vec::new();
        script.push(Request::Solve);
        script
    }

    /// Begins a solve under assumptions, which hold for this solve only:
    /// tells the strategy, if one is installed, and returns the requests
    /// that assume each literal in order and then run the search. The
    /// search runs under exactly these assumptions, and none is left in
    /// force behind it. The engine's status is then handed to
    /// [`Solver::conclude`].
    pub fn solve_with(&mut self, assumptions: &[i32]) -> (script: Vec<Request>)
        requires
            valid_literals(assumptions@),
        ensures
            script@ == solve_requests(assumptions@),
            old(self)@.begins(final(self)@),
            old(self)@.engine.perform_all(script@.drop_last()).assumptions == assumptions@,
            final(self)@.engine == old(self)@.engine.perform_all(script@),
    {
        proof {
            lemma_assumptions_last_one_solve(self@.engine, assumptions@);
            assert(self@.engine.assumptions + assumptions@ =~= assumptions@);
        }
        self.begin();
        solve_script(assumptions)
    }

    /// Forgets the outcome of the last solve and tells the strategy that a
    /// solve begins.
    fn begin(&mut self)
        ensures
            old(self)@.begins(final(self)@),
    {
        self.phase = Phase::Solving;
        match &mut self.cb {
            Some(strategy) => {
                strategy.started();
            },
            None => {},
        }
    }

    /// Ends the solve that was begun: reads the status that the engine
    /// returned, keeps the outcome and returns it. A status that no solve
    /// awaits is ignored, and the outcome stays as it was.
    pub fn conclude(&mut self, code: i32) -> (outcome: Option<bool>)
        ensures
            final(self)@ == old(self)@.concluded(code),
            outcome == final(self)@.state,
            old(self)@.solving ==> outcome == status_of(code as int),
            !old(self)@.solving ==> outcome == old(self)@.state,
    {
        match self.phase {
            Phase::Solving => {
                let outcome = if code == SATISFIABLE {
                    Some(true)
                } else if code == UNSATISFIABLE {
                    Some(false)
                } else {
                    None
                };
                self.phase = Phase::Idle(outcome);
                outcome
            },
            Phase::Idle(outcome) => outcome,
        }
    }

    /// The outcome of the last solve; `None` while a solve runs and once a
    /// clause was added.
    pub fn state(&self) -> (state: Option<bool>)
        ensures
            state == self@.state,
    {
        match self.phase {
            Phase::Idle(outcome) => outcome,
            Phase::Solving => None,
        }
    }

    /// Reads the engine's answer to a value query for `lit` in the model
    /// of the last solve.
    pub fn value(&self, lit: i32, answer: i32) -> (value: Option<bool>)
        requires
            self@.value_legal(),
            valid_literal(lit as int),
        ensures
            value == value_of(lit as int, answer as int),
    {
        if answer == lit {
            Some(true)
        } else if answer == -lit {
            Some(false)
        } else {
            None
        }
    }

    /// Reads the engine's answer to the question whether the assumption
    /// `lit` took part in the refutation found by the last solve.
    pub fn failed(&self, lit: i32, answer: i32) -> (failed: bool)
        requires
            self@.failed_legal(),
            valid_literal(lit as int),
        ensures
            failed == failed_of(answer as int),
    {
        answer == 1
    }

    /// Installs `cb` in place of the installed strategy, or clears it.
    /// Returns the requests that keep the engine's callback in step, and
    /// the strategy that was installed before. Once the requests are
    /// performed the engine holds a callback exactly when a strategy is
    /// installed; the strategy handed back is to be released only then, so
    /// that the engine never holds a callback whose strategy is gone.
    pub fn set_callbacks(&mut self, cb: Option<C>) -> (change: (Vec<Request>, Option<C>))
        ensures
            change.0@ == registration_requests(old(self)@.callbacks is Some, cb is Some),
            change.1 == old(self)@.callbacks,
            final(self)@ == old(self)@.with_callbacks(cb),
            final(self)@.engine == old(self)@.engine.perform_all(change.0@),
    {
        proof {
            lemma_callback_follows_the_strategy(self@.engine, self.cb is Some, cb is Some);
        }
        let mut script: Vec<Request> = Vec::new();
        if cb.is_none() {
            script.push(Request::Unregister);
        } else if self.cb.is_none() {
            script.push(Request::Register);
        }
        let retired = self.cb.take();
        self.cb = cb;
        (script, retired)
    }

    /// Answers one poll of the engine: asks the installed strategy and turns
    /// its answer into the engine's flag, nonzero to stop.
    pub fn terminate_cb(&mut self) -> (flag: i32)
        ensures
            old(self)@.polls(final(self)@, flag),
    {
        match &mut self.cb {
            Some(strategy) => {
                if strategy.terminate() {
                    1
                } else {
                    0
                }
            },
            None => 0,
        }
    }
}

impl<C: Callbacks> Default for Solver<C> {
    fn default() -> (solver: Self)
        ensures
            solver@ == SolverView::<C>::init(),
    {
        Solver::new()
    }
}

/// Adding a clause closes the queries: whatever the last solve concluded,
/// neither a value nor a failed assumption may be asked for afterwards.
pub proof fn lemma_clause_closes_queries<C: Callbacks>(before: SolverView<C>, clause: Seq<i32>)
    ensures
        !before.with_clause(clause).value_legal(),
        !before.with_clause(clause).failed_legal(),
{
}

/// Only the end of a solve opens a query, and it opens the one that fits
/// the outcome: values after status 10, failed assumptions after status 20,
/// neither after any other status. While a solve runs, neither is open.
pub proof fn lemma_solve_opens_queries<C: Callbacks>(
    before: SolverView<C>,
    running: SolverView<C>,
    code: i32,
)
    requires
        before.begins(running),
    ensures
        !running.value_legal(),
        !running.failed_legal(),
        running.concluded(code).value_legal() <==> code == 10,
        running.concluded(code).failed_legal() <==> code == 20,
{
}

/// A status cannot reopen what a clause closed. Once a clause is added,
/// also while a solve runs, a status that arrives opens no query: only a
/// solve begun afterwards can.
pub proof fn lemma_late_status_opens_nothing<C: Callbacks>(
    before: SolverView<C>,
    clause: Seq<i32>,
    code: i32,
)
    ensures
        before.with_clause(clause).concluded(code) == before.with_clause(clause),
        !before.with_clause(clause).concluded(code).value_legal(),
        !before.with_clause(clause).concluded(code).failed_legal(),
{
}

/// Installing, replacing or clearing a strategy leaves the outcome, and
/// with it the legal queries, as they were.
pub proof fn lemma_callbacks_keep_queries<C: Callbacks>(before: SolverView<C>, strategy: Option<C>)
    ensures
        before.with_callbacks(strategy).value_legal() == before.value_legal(),
        before.with_callbacks(strategy).failed_legal() == before.failed_legal(),
{
}

/// A timeout without budget stops the search at the very first poll of a
/// solve, and at every later one.
pub proof fn lemma_empty_budget_stops_at_once(
    before: SolverView<Timeout>,
    running: SolverView<Timeout>,
    polled: SolverView<Timeout>,
    flag: i32,
)
    requires
        before.callbacks matches Some(strategy) && strategy.timeout == 0,
        before.begins(running),
        running.polls(polled, flag),
    ensures
        flag == 1,
        polled == running,
{
}

/// A session without strategy never asks the engine to stop.
pub proof fn lemma_no_strategy_never_stops<C: Callbacks>(
    before: SolverView<C>,
    polled: SolverView<C>,
    flag: i32,
)
    requires
        before.with_callbacks(None).polls(polled, flag),
    ensures
        flag == 0,
        polled == before.with_callbacks(None),
{
}

} // verus!
