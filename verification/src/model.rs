//! What the engine holds once it has performed a sequence of requests, and
//! what each operation of a session therefore does to it.
//!
//! The model follows the engine's own rules: literals gather in a clause
//! until a zero closes it, an assumption is in force for the next search
//! only, and one callback at most is registered. It says nothing of what a
//! search finds.

use crate::engine::{
    clause_requests, registration_requests, solve_requests, value_of, Request, END_OF_CLAUSE,
};
use crate::literal::{valid_literal, valid_literals};
use vstd::prelude::*;

verus! {

/// The state of an engine as far as requests shape it.
pub struct EngineModel {
    /// The clauses added so far, in order.
    pub formula: Seq<Seq<i32>>,
    /// The literals of the clause under construction.
    pub clause: Seq<i32>,
    /// The assumptions in force for the next search.
    pub assumptions: Seq<i32>,
    /// Whether a termination callback is registered.
    pub registered: bool,
}

impl EngineModel {
    /// A new engine: no clause, no assumption, no callback.
    pub open spec fn init() -> EngineModel {
        EngineModel {
            formula: Seq::empty(),
            clause: Seq::empty(),
            assumptions: Seq::empty(),
            registered: false,
        }
    }

    /// The engine after one request.
    pub open spec fn perform(self, request: Request) -> EngineModel {
        match request {
            Request::Add(lit) => if lit == END_OF_CLAUSE {
                EngineModel { formula: self.formula.push(self.clause), clause: Seq::empty(), ..self }
            } else {
                EngineModel { clause: self.clause.push(lit), ..self }
            },
            Request::Assume(lit) => EngineModel {
                assumptions: self.assumptions.push(lit),
                ..self
            },
            Request::Solve => EngineModel { assumptions: Seq::empty(), ..self },
            Request::Register => EngineModel { registered: true, ..self },
            Request::Unregister => EngineModel { registered: false, ..self },
        }
    }

    /// The engine after a sequence of requests, performed in order.
    pub open spec fn perform_all(self, requests: Seq<Request>) -> EngineModel
        decreases requests.len(),
    {
        if requests.len() == 0 {
            self
        } else {
            self.perform_all(requests.drop_last()).perform(requests.last())
        }
    }
}

/// A request that the engine accepts: every literal handed over is a
/// literal, and zero appears only to close a clause.
pub open spec fn well_formed(request: Request) -> bool {
    match request {
        Request::Add(lit) => lit == END_OF_CLAUSE || valid_literal(lit as int),
        Request::Assume(lit) => valid_literal(lit as int),
        _ => true,
    }
}

/// Performing two sequences in a row is performing the first and then the
/// second.
pub proof fn lemma_perform_in_turn(engine: EngineModel, first: Seq<Request>, then: Seq<Request>)
    ensures
        engine.perform_all(first + then) == engine.perform_all(first).perform_all(then),
    decreases then.len(),
{
    if then.len() == 0 {
        assert(first + then =~= first);
    } else {
        lemma_perform_in_turn(engine, first, then.drop_last());
        assert((first + then).drop_last() =~= first + then.drop_last());
        assert((first + then).last() == then.last());
    }
}

/// The literals of a clause gather, in order, behind those already under
/// construction.
proof fn lemma_literals_gather(engine: EngineModel, clause: Seq<i32>)
    requires
        valid_literals(clause),
    ensures
        engine.perform_all(clause.map_values(|lit: i32| Request::Add(lit))) == (EngineModel {
            clause: engine.clause + clause,
            ..engine
        }),
    decreases clause.len(),
{
    let added = clause.map_values(|lit: i32| Request::Add(lit));
    if clause.len() == 0 {
        assert(engine.clause + clause =~= engine.clause);
    } else {
        lemma_literals_gather(engine, clause.drop_last());
        assert(added.drop_last() =~= clause.drop_last().map_values(|lit: i32| Request::Add(lit)));
        assert(added.last() == Request::Add(clause.last()));
        assert(valid_literal(clause[clause.len() - 1] as int));
        assert((engine.clause + clause.drop_last()).push(clause.last()) =~= engine.clause
            + clause);
    }
}

/// Assumptions come into force, in order, behind those already pending.
proof fn lemma_assumptions_gather(engine: EngineModel, assumptions: Seq<i32>)
    ensures
        engine.perform_all(assumptions.map_values(|lit: i32| Request::Assume(lit)))
            == (EngineModel { assumptions: engine.assumptions + assumptions, ..engine }),
    decreases assumptions.len(),
{
    let made = assumptions.map_values(|lit: i32| Request::Assume(lit));
    if assumptions.len() == 0 {
        assert(engine.assumptions + assumptions =~= engine.assumptions);
    } else {
        lemma_assumptions_gather(engine, assumptions.drop_last());
        assert(made.drop_last() =~= assumptions.drop_last().map_values(
            |lit: i32| Request::Assume(lit),
        ));
        assert(made.last() == Request::Assume(assumptions.last()));
        assert((engine.assumptions + assumptions.drop_last()).push(assumptions.last())
            =~= engine.assumptions + assumptions);
    }
}

/// Adding a clause adds exactly that clause. Where no clause is under
/// construction and every member of `clause` is a literal, the requests of
/// `add_clause` put `clause` behind the formula and change nothing else. A
/// zero among the members would close the clause early, which is why it is
/// no literal.
pub proof fn lemma_clause_reaches_the_formula(engine: EngineModel, clause: Seq<i32>)
    requires
        engine.clause.len() == 0,
        valid_literals(clause),
    ensures
        engine.perform_all(clause_requests(clause)) == (EngineModel {
            formula: engine.formula.push(clause),
            ..engine
        }),
{
    let added = clause.map_values(|lit: i32| Request::Add(lit));
    lemma_literals_gather(engine, clause);
    assert(clause_requests(clause).drop_last() =~= added);
    assert(engine.clause + clause =~= clause);
    assert(engine.clause =~= Seq::<i32>::empty());
}

/// Assumptions last one solve. The search of a solve under assumptions runs
/// under those assumptions, behind any that were pending; once its requests
/// are performed none is in force and nothing else has changed; and so the
/// search of a plain solve that follows runs under none.
pub proof fn lemma_assumptions_last_one_solve(engine: EngineModel, assumptions: Seq<i32>)
    ensures
        engine.perform_all(solve_requests(assumptions).drop_last()) == (EngineModel {
            assumptions: engine.assumptions + assumptions,
            ..engine
        }),
        engine.perform_all(solve_requests(assumptions)) == (EngineModel {
            assumptions: Seq::empty(),
            ..engine
        }),
        engine.perform_all(
            solve_requests(assumptions) + solve_requests(Seq::empty()).drop_last(),
        ).assumptions == Seq::<i32>::empty(),
{
    let made = assumptions.map_values(|lit: i32| Request::Assume(lit));
    lemma_assumptions_gather(engine, assumptions);
    assert(solve_requests(assumptions).drop_last() =~= made);
    assert(solve_requests(Seq::<i32>::empty()).drop_last() =~= Seq::<Request>::empty());
    assert(solve_requests(assumptions) + Seq::<Request>::empty() =~= solve_requests(
        assumptions,
    ));
}

/// The engine's callback follows the strategy. Where a callback is
/// registered exactly when a strategy is installed, that is still so once
/// the requests of `set_callbacks` are performed, and nothing else has
/// changed.
pub proof fn lemma_callback_follows_the_strategy(
    engine: EngineModel,
    installed: bool,
    wanted: bool,
)
    requires
        engine.registered == installed,
    ensures
        engine.perform_all(registration_requests(installed, wanted)) == (EngineModel {
            registered: wanted,
            ..engine
        }),
{
    let requests = registration_requests(installed, wanted);
    if requests.len() == 1 {
        assert(requests.drop_last() =~= Seq::<Request>::empty());
        assert(engine.perform_all(requests.drop_last()) == engine);
        assert(engine.perform_all(requests) == engine.perform(requests.last()));
    }
}

/// The engine is handed nothing but literals: where the members of a clause
/// and the assumptions are literals, every request of `add_clause`, `solve`,
/// `solve_with` and `set_callbacks` is well formed, and zero is sent once
/// for each clause, as its last request.
pub proof fn lemma_requests_are_well_formed(
    clause: Seq<i32>,
    assumptions: Seq<i32>,
    installed: bool,
    wanted: bool,
)
    requires
        valid_literals(clause),
        valid_literals(assumptions),
    ensures
        forall|i: int|
            0 <= i < clause_requests(clause).len() ==> well_formed(
                #[trigger] clause_requests(clause)[i],
            ),
        forall|i: int|
            0 <= i < clause_requests(clause).len() ==> (#[trigger] clause_requests(clause)[i]
                == Request::Add(END_OF_CLAUSE) <==> i == clause.len()),
        forall|i: int|
            0 <= i < solve_requests(assumptions).len() ==> well_formed(
                #[trigger] solve_requests(assumptions)[i],
            ),
        forall|i: int|
            0 <= i < registration_requests(installed, wanted).len() ==> well_formed(
                #[trigger] registration_requests(installed, wanted)[i],
            ),
{
    assert forall|i: int| 0 <= i < clause_requests(clause).len() implies well_formed(
        #[trigger] clause_requests(clause)[i],
    ) && (clause_requests(clause)[i] == Request::Add(END_OF_CLAUSE) <==> i == clause.len()) by {
        if i < clause.len() {
            assert(valid_literal(clause[i] as int));
        }
    }
    assert forall|i: int| 0 <= i < solve_requests(assumptions).len() implies well_formed(
        #[trigger] solve_requests(assumptions)[i],
    ) by {
        if i < assumptions.len() {
            assert(valid_literal(assumptions[i] as int));
        }
    }
}

/// Whether an assignment of truth values to variables makes a literal true.
pub open spec fn holds(model: spec_fn(int) -> bool, lit: int) -> bool {
    if lit > 0 {
        model(lit)
    } else {
        !model(-lit)
    }
}

/// The engine's answer to a value query under a model that fixes the
/// literal's variable: the literal where the model makes it true, its
/// negation where the model makes it false.
pub open spec fn answer_under(model: spec_fn(int) -> bool, lit: int) -> int {
    if holds(model, lit) {
        lit
    } else {
        -lit
    }
}

/// Whether an assignment makes some member of a clause true.
pub open spec fn satisfies(model: spec_fn(int) -> bool, clause: Seq<i32>) -> bool {
    exists|k: int| 0 <= k < clause.len() && holds(model, #[trigger] clause[k] as int)
}

/// Values follow the model. Where the engine answers value queries from a
/// model, a literal reads as the truth value that the model gives it and
/// its negation reads as the opposite, so that every clause the model
/// satisfies has a member that reads as true.
pub proof fn lemma_values_follow_the_model(model: spec_fn(int) -> bool, clause: Seq<i32>)
    requires
        valid_literals(clause),
    ensures
        forall|lit: int|
            valid_literal(lit) ==> #[trigger] value_of(lit, answer_under(model, lit)) == Some(
                holds(model, lit),
            ),
        forall|lit: int|
            valid_literal(lit) ==> #[trigger] value_of(-lit, answer_under(model, -lit)) == Some(
                !holds(model, lit),
            ),
        satisfies(model, clause) ==> exists|k: int|
            0 <= k < clause.len() && value_of(
                #[trigger] clause[k] as int,
                answer_under(model, clause[k] as int),
            ) == Some(true),
{
    if satisfies(model, clause) {
        let k = choose|k: int| 0 <= k < clause.len() && holds(model, #[trigger] clause[k] as int);
        assert(valid_literal(clause[k] as int));
        assert(value_of(clause[k] as int, answer_under(model, clause[k] as int)) == Some(true));
    }
}

} // verus!
