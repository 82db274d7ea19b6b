use step_history::{clone_state, HistorySession, HistoryState, StepOutcome, MAX_HISTORY_LENGTH};

const SHORT_PROGRAM: &str = "let x = 1;";
const LONG_PROGRAM: &str =
    "var x = 0; x := x + 1; x := x + 1; x := x + 1; x := x + 1; x := x + 1; \
     x := x + 1; x := x + 1; x := x + 1; x := x + 1; x := x + 1;";
const BAD_PROGRAM: &str = "let = := (";

fn is_core(s: &HistoryState) -> bool {
    matches!(s, HistoryState::Core(_))
}

fn is_halted(s: &HistoryState) -> bool {
    matches!(s, HistoryState::Interruption(_))
}

/// Step forward until the engine halts; returns the number of forward calls
/// that appended an entry.  Panics if the engine does not halt within `max`.
fn run_to_halt(h: &mut HistorySession, detailed: bool, max: usize) -> usize {
    let mut n: usize = 0;
    loop {
        match h.forward(detailed) {
            StepOutcome::Progressed => {
                n += 1;
            }
            StepOutcome::Interrupted(_) => {
                n += 1;
                return n;
            }
            StepOutcome::AlreadyHalted => panic!("frontier halted before the engine reported it"),
            StepOutcome::NoProgram => panic!("no program loaded"),
        }
        if n > max {
            panic!("engine did not halt within {} steps", max);
        }
    }
}

#[test]
fn new_session_is_empty() {
    let mut h = HistorySession::new(MAX_HISTORY_LENGTH);
    assert_eq!(h.history().len(), 0);
    assert!(matches!(h.forward(true), StepOutcome::NoProgram));
    assert!(matches!(h.forward(false), StepOutcome::NoProgram));
    assert!(!h.backward());
    assert_eq!(h.history().len(), 0);
}

#[test]
fn load_resets_timeline_to_anchor() {
    let mut h = HistorySession::new(MAX_HISTORY_LENGTH);
    assert!(h.set_input(SHORT_PROGRAM).is_ok());
    let t = h.history();
    assert_eq!(t.len(), 1);
    assert!(is_core(&t[0]));

    // A reload after some progress resets back to a single anchor.
    assert!(matches!(h.forward(true), StepOutcome::Progressed));
    assert!(h.set_input(LONG_PROGRAM).is_ok());
    let t = h.history();
    assert_eq!(t.len(), 1);
    assert!(is_core(&t[0]));
}

#[test]
fn parse_error_is_reported_and_keeps_timeline() {
    let mut h = HistorySession::new(MAX_HISTORY_LENGTH);
    assert!(h.set_input(SHORT_PROGRAM).is_ok());
    assert!(matches!(h.forward(true), StepOutcome::Progressed));
    let len_before = h.history().len();

    let err = h.set_input(BAD_PROGRAM);
    assert!(err.is_err());
    let msg = err.err().unwrap().message();
    assert!(!msg.is_empty());

    // The failed reload left the prior session untouched.
    assert_eq!(h.history().len(), len_before);
}

#[test]
fn parse_error_before_any_load_leaves_empty_timeline() {
    let mut h = HistorySession::new(MAX_HISTORY_LENGTH);
    assert!(h.set_input(BAD_PROGRAM).is_err());
    assert_eq!(h.history().len(), 0);
    assert!(matches!(h.forward(false), StepOutcome::NoProgram));
}

#[test]
fn scenario_run_to_completion_then_halt_is_terminal() {
    let mut h = HistorySession::new(MAX_HISTORY_LENGTH);
    assert!(h.set_input(SHORT_PROGRAM).is_ok());
    let steps = run_to_halt(&mut h, false, 1000);
    assert!(steps >= 1);

    let t = h.history();
    assert_eq!(t.len(), 1 + steps);
    assert!(is_halted(&t[t.len() - 1]));
    for e in &t[..t.len() - 1] {
        assert!(is_core(e));
    }

    // Once the frontier is halted, forward is a no-op in either mode.
    let len = t.len();
    assert!(matches!(h.forward(false), StepOutcome::AlreadyHalted));
    assert!(matches!(h.forward(true), StepOutcome::AlreadyHalted));
    assert_eq!(h.history().len(), len);
}

#[test]
fn scenario_capacity_two_evicts_oldest() {
    let mut h = HistorySession::new(2);
    assert!(h.set_input(LONG_PROGRAM).is_ok());
    assert_eq!(h.history().len(), 1);

    assert!(matches!(h.forward(true), StepOutcome::Progressed));
    assert_eq!(h.history().len(), 2);

    // At capacity: a further step keeps the length and evicts the anchor;
    // what remains are the former index 1 and the new frontier.
    assert!(matches!(h.forward(true), StepOutcome::Progressed));
    let t = h.history();
    assert_eq!(t.len(), 2);
    assert!(is_core(&t[0]));
    assert!(is_core(&t[1]));
}

#[test]
fn capacity_is_never_exceeded() {
    let mut h = HistorySession::new(3);
    assert!(h.set_input(LONG_PROGRAM).is_ok());
    for _ in 0..40 {
        match h.forward(true) {
            StepOutcome::Progressed | StepOutcome::Interrupted(_) => {}
            StepOutcome::AlreadyHalted => break,
            StepOutcome::NoProgram => panic!("program was loaded"),
        }
        assert!(h.history().len() <= 3);
    }
    assert!(h.history().len() <= 3);
}

#[test]
fn scenario_backward_stops_at_anchor() {
    let mut h = HistorySession::new(MAX_HISTORY_LENGTH);
    assert!(h.set_input(SHORT_PROGRAM).is_ok());
    assert!(matches!(h.forward(true), StepOutcome::Progressed));
    assert_eq!(h.history().len(), 2);

    assert!(h.backward());
    assert_eq!(h.history().len(), 1);
    assert!(!h.backward());
    assert_eq!(h.history().len(), 1);
}

#[test]
fn backward_then_forward_replays_deterministically() {
    // Two sessions over the same program, in one process: one steps
    // straight to the halt, the other rewinds once in the middle; both
    // visit the same number of states and end halted.
    let mut a = HistorySession::new(MAX_HISTORY_LENGTH);
    assert!(a.set_input(LONG_PROGRAM).is_ok());
    let straight = run_to_halt(&mut a, false, 1000);

    let mut b = HistorySession::new(MAX_HISTORY_LENGTH);
    assert!(b.set_input(LONG_PROGRAM).is_ok());
    assert!(matches!(b.forward(false), StepOutcome::Progressed));
    assert!(b.backward());
    assert_eq!(b.history().len(), 1);
    let replayed = run_to_halt(&mut b, false, 1000);

    assert_eq!(straight, replayed);
    assert_eq!(a.history().len(), b.history().len());
    let ta = a.history();
    let tb = b.history();
    assert!(is_halted(&ta[ta.len() - 1]));
    assert!(is_halted(&tb[tb.len() - 1]));
}

#[test]
fn detailed_mode_records_more_states_than_folded_mode() {
    // The folded mode collapses administrative micro-steps, so it reaches
    // the halt in no more appends than the detailed mode; if the engine
    // wrapper handed its snapshot back unchanged, neither run would halt.
    let mut d = HistorySession::new(MAX_HISTORY_LENGTH);
    assert!(d.set_input(SHORT_PROGRAM).is_ok());
    let detailed = run_to_halt(&mut d, true, 1000);

    let mut f = HistorySession::new(MAX_HISTORY_LENGTH);
    assert!(f.set_input(SHORT_PROGRAM).is_ok());
    let folded = run_to_halt(&mut f, false, 1000);

    assert!(folded <= detailed);
    assert!(folded >= 1);
}

#[test]
fn history_returns_copies_in_order() {
    let mut h = HistorySession::new(MAX_HISTORY_LENGTH);
    assert!(h.set_input(SHORT_PROGRAM).is_ok());
    assert!(matches!(h.forward(true), StepOutcome::Progressed));

    let t1 = h.history();
    let t2 = h.history();
    assert_eq!(t1.len(), t2.len());
    for (x, y) in t1.iter().zip(t2.iter()) {
        assert_eq!(is_core(x), is_core(y));
    }

    let copy = clone_state(&t1[0]);
    assert!(is_core(&copy));
}

#[test]
fn oversized_projection_index_is_rejected_not_aborted() {
    // The engine's parser reads a projection index into a machine word and
    // would abort on this text; the library rejects it with a structured
    // error instead, and the prior session survives.
    let mut h = HistorySession::new(MAX_HISTORY_LENGTH);
    assert!(h.set_input(SHORT_PROGRAM).is_ok());
    let len_before = h.history().len();

    let err = h.set_input("let y = x.18446744073709551616;");
    assert!(err.is_err());
    assert!(!err.err().unwrap().message().is_empty());
    assert_eq!(h.history().len(), len_before);
}

#[test]
fn small_numerals_and_separators_are_accepted() {
    let mut h = HistorySession::new(MAX_HISTORY_LENGTH);
    assert!(h.set_input("let t = (10, 20); let a = t.0; let b = 1_000;").is_ok());
    assert_eq!(h.history().len(), 1);
    assert!(matches!(h.forward(true), StepOutcome::Progressed));
}

#[test]
fn default_capacity_is_fifty() {
    assert_eq!(MAX_HISTORY_LENGTH, 50);
}
