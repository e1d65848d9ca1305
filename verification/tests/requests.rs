//! What each operation of a session asks of the engine and how it reads the
//! answers, with the answers written out by hand.

use cadical::engine::{END_OF_CLAUSE, SATISFIABLE, UNSATISFIABLE};
use cadical::{are_literals, is_literal, Callbacks, Request, Solver, Timeout};

/// A strategy that answers every poll the same way.
struct Fixed {
    answer: bool,
}

impl Callbacks for Fixed {
    fn started(&mut self) {}

    fn terminate(&mut self) -> bool {
        self.answer
    }
}

#[test]
fn a_new_session_has_no_outcome() {
    let sat: Solver = Solver::new();
    assert_eq!(sat.state(), None);
    let sat: Solver<Fixed> = Default::default();
    assert_eq!(sat.state(), None);
}

#[test]
fn the_protocol_numbers_are_fixed() {
    assert_eq!(SATISFIABLE, 10);
    assert_eq!(UNSATISFIABLE, 20);
    assert_eq!(END_OF_CLAUSE, 0);
}

#[test]
fn zero_and_the_least_integer_are_no_literals() {
    assert!(!is_literal(0));
    assert!(!is_literal(i32::MIN));
    assert!(is_literal(1));
    assert!(is_literal(-1));
    assert!(is_literal(i32::MAX));
    assert!(is_literal(i32::MIN + 1));
    assert!(are_literals(&[]));
    assert!(are_literals(&[1, -2, i32::MAX]));
    assert!(!are_literals(&[1, 0, 3]));
    assert!(!are_literals(&[1, 2, i32::MIN]));
    assert!(!are_literals(&[0]));
}

#[test]
fn a_clause_is_added_literal_by_literal_and_closed() {
    let mut sat: Solver = Solver::new();
    assert_eq!(
        sat.add_clause(&[1, -2, 3]),
        vec![Request::Add(1), Request::Add(-2), Request::Add(3), Request::Add(0)]
    );
    assert_eq!(sat.add_clause(&[]), vec![Request::Add(0)]);
    assert_eq!(sat.add_clause(&[-7]), vec![Request::Add(-7), Request::Add(0)]);
}

#[test]
fn a_plain_solve_is_one_request() {
    let mut sat: Solver = Solver::new();
    assert_eq!(sat.solve(), vec![Request::Solve]);
    assert_eq!(sat.solve_with(&[5, -6]), vec![Request::Assume(5), Request::Assume(-6), Request::Solve]);
    sat.conclude(10);
    assert_eq!(sat.state(), Some(true));
    assert_eq!(sat.solve(), vec![Request::Solve]);
    assert_eq!(sat.solve_with(&[]), vec![Request::Solve]);
}

#[test]
fn a_status_is_read_as_an_outcome() {
    let mut sat: Solver = Solver::new();
    sat.solve();
    assert_eq!(sat.conclude(10), Some(true));
    assert_eq!(sat.state(), Some(true));
    sat.solve();
    assert_eq!(sat.conclude(20), Some(false));
    assert_eq!(sat.state(), Some(false));
    sat.solve();
    assert_eq!(sat.conclude(0), None);
    assert_eq!(sat.state(), None);
    for code in [-20, -10, -1, 1, 9, 11, 19, 21, 30, i32::MIN, i32::MAX] {
        sat.solve_with(&[1]);
        assert_eq!(sat.conclude(code), None);
        assert_eq!(sat.state(), None);
    }
}

#[test]
fn a_status_that_no_solve_awaits_is_ignored() {
    let mut sat: Solver = Solver::new();
    assert_eq!(sat.conclude(10), None);
    assert_eq!(sat.state(), None);
    sat.solve();
    assert_eq!(sat.conclude(20), Some(false));
    assert_eq!(sat.conclude(10), Some(false));
    assert_eq!(sat.state(), Some(false));
    sat.solve();
    sat.add_clause(&[1]);
    assert_eq!(sat.conclude(10), None);
    assert_eq!(sat.state(), None);
}

#[test]
fn the_outcome_is_forgotten_when_a_solve_begins() {
    let mut sat: Solver = Solver::new();
    sat.solve();
    sat.conclude(10);
    assert_eq!(sat.state(), Some(true));
    sat.solve();
    assert_eq!(sat.state(), None);
    sat.conclude(20);
    assert_eq!(sat.state(), Some(false));
    sat.solve_with(&[1]);
    assert_eq!(sat.state(), None);
}

#[test]
fn the_outcome_is_forgotten_when_a_clause_is_added() {
    let mut sat: Solver = Solver::new();
    sat.solve();
    sat.conclude(10);
    assert_eq!(sat.state(), Some(true));
    sat.add_clause(&[1]);
    assert_eq!(sat.state(), None);
    sat.solve();
    sat.conclude(20);
    assert_eq!(sat.state(), Some(false));
    sat.add_clause(&[]);
    assert_eq!(sat.state(), None);
}

#[test]
fn a_value_is_read_from_the_sign_of_the_answer() {
    let mut sat: Solver = Solver::new();
    sat.solve();
    assert_eq!(sat.conclude(10), Some(true));
    assert_eq!(sat.value(3, 3), Some(true));
    assert_eq!(sat.value(3, -3), Some(false));
    assert_eq!(sat.value(-3, -3), Some(true));
    assert_eq!(sat.value(-3, 3), Some(false));
    assert_eq!(sat.value(3, 0), None);
    assert_eq!(sat.value(3, 4), None);
    assert_eq!(sat.value(3, -4), None);
    assert_eq!(sat.value(i32::MAX, i32::MAX), Some(true));
    assert_eq!(sat.value(i32::MAX, -i32::MAX), Some(false));
    assert_eq!(sat.value(-i32::MAX, i32::MAX), Some(false));
    assert_eq!(sat.value(i32::MAX, i32::MIN), None);
}

#[test]
fn only_the_answer_one_names_a_failed_assumption() {
    let mut sat: Solver = Solver::new();
    sat.solve_with(&[-1, 1]);
    assert_eq!(sat.conclude(20), Some(false));
    assert_eq!(sat.failed(-1, 1), true);
    assert_eq!(sat.failed(-1, 0), false);
    assert_eq!(sat.failed(-1, -1), false);
    assert_eq!(sat.failed(-1, 2), false);
    assert_eq!(sat.failed(1, 1), true);
}

#[test]
fn the_callback_follows_the_strategy() {
    let mut sat: Solver = Solver::new();
    assert_eq!(sat.set_callbacks(None).0, vec![Request::Unregister]);
    assert_eq!(sat.set_callbacks(Some(Timeout::new(1))).0, vec![Request::Register]);
    assert_eq!(sat.set_callbacks(Some(Timeout::new(2))).0, Vec::<Request>::new());
    assert_eq!(sat.set_callbacks(Some(Timeout::new(3))).0, Vec::<Request>::new());
    assert_eq!(sat.set_callbacks(None).0, vec![Request::Unregister]);
    assert_eq!(sat.set_callbacks(Some(Timeout::new(4))).0, vec![Request::Register]);
}

#[test]
fn the_strategy_that_was_installed_is_handed_back() {
    let mut sat: Solver = Solver::new();
    assert!(sat.set_callbacks(None).1.is_none());
    assert!(sat.set_callbacks(Some(Timeout::new(1))).1.is_none());
    assert_eq!(sat.set_callbacks(Some(Timeout::new(2))).1.map(|old| old.timeout), Some(1));
    assert_eq!(sat.set_callbacks(None).1.map(|old| old.timeout), Some(2));
    assert!(sat.set_callbacks(None).1.is_none());
}

#[test]
fn setting_a_strategy_keeps_the_outcome() {
    let mut sat: Solver = Solver::new();
    sat.solve();
    sat.conclude(10);
    sat.set_callbacks(Some(Timeout::new(1)));
    assert_eq!(sat.state(), Some(true));
    sat.set_callbacks(None);
    assert_eq!(sat.state(), Some(true));
    assert_eq!(sat.value(1, 1), Some(true));
}

#[test]
fn a_poll_hands_the_strategy_s_answer_to_the_engine() {
    let mut sat: Solver<Fixed> = Solver::new();
    assert_eq!(sat.terminate_cb(), 0);
    sat.set_callbacks(Some(Fixed { answer: true }));
    assert_eq!(sat.terminate_cb(), 1);
    assert_eq!(sat.terminate_cb(), 1);
    sat.set_callbacks(Some(Fixed { answer: false }));
    assert_eq!(sat.terminate_cb(), 0);
    sat.set_callbacks(None);
    assert_eq!(sat.terminate_cb(), 0);
}

#[test]
fn a_poll_keeps_the_outcome() {
    let mut sat: Solver<Fixed> = Solver::new();
    sat.set_callbacks(Some(Fixed { answer: true }));
    sat.solve();
    assert_eq!(sat.terminate_cb(), 1);
    assert_eq!(sat.state(), None);
    assert_eq!(sat.conclude(20), Some(false));
    assert_eq!(sat.terminate_cb(), 1);
    assert_eq!(sat.state(), Some(false));
}

#[test]
fn a_timeout_without_budget_stops_at_once() {
    let mut strategy: Timeout = Timeout::new(0);
    assert_eq!(strategy.timeout, 0);
    assert!(strategy.terminate());
    strategy.started();
    assert!(strategy.terminate());
    assert_eq!(strategy.timeout, 0);
    let mut sat: Solver = Solver::new();
    sat.set_callbacks(Some(strategy));
    sat.solve();
    assert_eq!(sat.terminate_cb(), 1);
}

#[test]
fn a_timeout_with_budget_left_lets_the_search_go_on() {
    let mut strategy: Timeout = Timeout::new(u64::MAX);
    assert_eq!(strategy.timeout, u64::MAX);
    assert!(!strategy.terminate());
    strategy.started();
    assert!(!strategy.terminate());
    let mut sat: Solver = Solver::new();
    sat.set_callbacks(Some(strategy));
    sat.solve();
    assert_eq!(sat.terminate_cb(), 0);
}

#[test]
fn a_budget_is_spent_when_the_elapsed_time_reaches_it() {
    let strategy: Timeout = Timeout::new(500_000_000);
    assert!(!strategy.expired(0));
    assert!(!strategy.expired(499_999_999));
    assert!(strategy.expired(500_000_000));
    assert!(strategy.expired(500_000_001));
    assert!(strategy.expired(u128::MAX));
    assert!(Timeout::new(0).expired(0));
    assert!(!Timeout::new(u64::MAX).expired(u64::MAX as u128 - 1));
    assert!(Timeout::new(u64::MAX).expired(u64::MAX as u128));
}

#[test]
fn a_restart_takes_the_reading_it_is_given() {
    let mut strategy: Timeout = Timeout::new(7);
    let reading: std::time::Instant = std::time::Instant::now();
    strategy.restart(reading);
    assert_eq!(strategy.started, reading);
    assert_eq!(strategy.timeout, 7);
}

#[test]
fn started_restarts_the_clock() {
    let mut strategy: Timeout = Timeout::new(1_000_000);
    let taken: std::time::Instant = strategy.started;
    while taken.elapsed().as_nanos() < 2_000_000 {}
    assert!(strategy.terminate());
    strategy.started();
    assert!(strategy.started > taken);
    assert_eq!(strategy.timeout, 1_000_000);
}

#[test]
fn the_signature_is_the_reported_text() {
    let sat: Solver = Solver::new();
    assert_eq!(sat.signature(b"cadical-1.9.5"), "cadical-1.9.5");
    assert_eq!(sat.signature(b""), "");
    assert_eq!(sat.signature("sat \u{2713}".as_bytes()), "sat \u{2713}");
}

#[test]
fn a_signature_that_is_not_text_reads_invalid() {
    let sat: Solver = Solver::new();
    assert_eq!(sat.signature(&[0xff, 0xfe]), "invalid");
    assert_eq!(sat.signature(&[b'c', b'a', 0xc3]), "invalid");
    assert_eq!(sat.signature(&[0xed, 0xa0, 0x80]), "invalid");
}
