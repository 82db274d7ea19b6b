//! The history manager: an ordered, capacity-bounded timeline of observed
//! engine states, with load, forward, rewind and inspect operations.

use vstd::prelude::*;

use crate::engine;
use crate::numerals;
use std::collections::VecDeque;

verus! {

/// Bound on the number of engine micro-steps folded into one visible-change
/// forward step, so that a single call can never run unboundedly.
pub const MICRO_STEP_BOUND: usize = 1000000;

/// One observed engine state: either a snapshot from which execution can
/// still proceed, or a terminal marker carrying the reason it stopped.
pub enum HistoryState {
    /// A snapshot of the running engine.
    Core(motoko::vm_types::Core),
    /// Execution stopped here (completion, fault, limit or breakpoint).
    Interruption(motoko::vm_types::Interruption),
}

/// What one forward step did.
pub enum StepOutcome {
    /// A new running state was appended to the timeline.
    Progressed,
    /// The step terminated execution: the interruption was appended to the
    /// timeline and a copy of it is carried here.
    Interrupted(motoko::vm_types::Interruption),
    /// The frontier is already a terminal state; nothing changed.
    AlreadyHalted,
    /// No program has been loaded; nothing changed.
    NoProgram,
}

/// A structured parse failure: the source text was not loaded.
pub enum ParseError {
    /// The engine's parser rejected the text; the payload is its own
    /// syntax error value.
    Syntax(motoko::parser_types::SyntaxError),
    /// The text was rejected before reaching the engine: it holds a
    /// decimal numeral too large for a machine word, on which the engine's
    /// parser would abort instead of reporting an error (its
    /// projection-index rule reads a numeral into a machine word).  The
    /// bound is conservative: an arbitrary-precision literal of that size
    /// is rejected too.
    NumeralTooLarge,
}

impl ParseError {
    /// A human-readable rendering of the failure.
    pub fn message(&self) -> String {
        match self {
            ParseError::Syntax(detail) => engine::syntax_error_text(detail),
            ParseError::NumeralTooLarge => "decimal numeral too large for a machine word".to_owned(),
        }
    }
}

/// The timeline after appending one entry under capacity `cap`: below
/// capacity the entry is appended; at capacity the oldest entry (index 0)
/// is evicted first, keeping the relative order of the rest.
pub open spec fn push_capped(s: Seq<HistoryState>, cap: nat, x: HistoryState) -> Seq<HistoryState> {
    if s.len() < cap {
        s.push(x)
    } else {
        s.subrange(1, s.len() as int).push(x)
    }
}

/// The timeline after one rewind: the frontier is removed, unless the
/// anchor (index 0) is all that is left.
pub open spec fn rewind(s: Seq<HistoryState>) -> Seq<HistoryState> {
    if s.len() > 1 {
        s.drop_last()
    } else {
        s
    }
}

/// Every entry but possibly the last one can still proceed: the timeline
/// holds at most one terminal entry, and only at the frontier.
pub open spec fn running_prefix(s: Seq<HistoryState>) -> bool {
    forall|i: int| 0 <= i < s.len() - 1 ==> s[i] is Core
}

/// A capacity-bounded execution history for one interpreter session.
///
/// Index 0 (the anchor) is the state immediately after program load; the
/// highest index (the frontier) is the current point of execution.  This
/// session is single-threaded; concurrent callers must synchronize access
/// externally.
pub struct HistorySession {
    states: VecDeque<HistoryState>,
    capacity: usize,
}

impl View for HistorySession {
    type V = Seq<HistoryState>;

    closed spec fn view(&self) -> Seq<HistoryState> {
        self.states@
    }
}

impl HistorySession {
    /// The fixed capacity this session was created with.
    pub closed spec fn cap(&self) -> nat {
        self.capacity as nat
    }

    /// Well-formedness: the capacity admits at least the anchor, the
    /// timeline never exceeds it, and only the frontier can be terminal.
    pub open spec fn inv(&self) -> bool {
        &&& 1 <= self.cap()
        &&& self@.len() <= self.cap()
        &&& running_prefix(self@)
    }

    /// A fresh session with an empty timeline.
    pub fn new(capacity: usize) -> (r: Self)
        requires
            1 <= capacity,
        ensures
            r.inv(),
            r@ == Seq::<HistoryState>::empty(),
            r.cap() == capacity,
    {
        HistorySession { states: VecDeque::new(), capacity }
    }

    /// Append one entry, evicting the oldest first when at capacity.
    fn push_entry(&mut self, x: HistoryState)
        requires
            old(self).inv(),
            old(self)@.len() == 0 || old(self)@.last() is Core,
        ensures
            final(self).inv(),
            final(self).cap() == old(self).cap(),
            final(self)@ == push_capped(old(self)@, old(self).cap(), x),
    {
        if self.states.len() >= self.capacity {
            let _evicted = self.states.pop_front();
        }
        self.states.push_back(x);
        proof {
            if old(self)@.len() >= old(self).cap() {
                assert(self@ =~= old(self)@.subrange(1, old(self)@.len() as int).push(x));
            }
            assert(running_prefix(self@));
        }
    }

    /// Parse source text and, on success, reset the timeline to the single
    /// initial state of a fresh engine for that program; on failure report
    /// the parse error and leave the timeline untouched.  Text whose
    /// numerals do not all fit in a machine word is rejected before it
    /// reaches the engine, whose parser would abort on it.
    pub fn set_input(&mut self, input: &str) -> (r: Result<(), ParseError>)
        requires
            old(self).inv(),
        ensures
            final(self).inv(),
            final(self).cap() == old(self).cap(),
            r is Ok <==> numerals::numerals_fit(input@) && engine::parse_accepts(input@),
            r is Ok ==> final(self)@.len() == 1 && final(self)@[0] is Core,
            r is Err ==> final(self)@ == old(self)@,
    {
        if !numerals::numerals_fit_check(input) {
            return Err(ParseError::NumeralTooLarge);
        }
        match engine::parse_program(input) {
            Ok(prog) => {
                let core = engine::core_new(prog);
                self.states.clear();
                self.states.push_back(HistoryState::Core(core));
                Ok(())
            },
            Err(detail) => Err(ParseError::Syntax(detail)),
        }
    }

    /// Advance execution by one step and append the observed state.
    ///
    /// With `detailed` set, one engine micro-step is recorded.  Otherwise
    /// micro-steps are folded together until the engine halts or the
    /// externally observable redex counter changes, bounded by
    /// [`MICRO_STEP_BOUND`] so the call cannot run unboundedly.
    ///
    /// An already-terminal frontier or an empty timeline makes this a
    /// no-op that reports why no progress is possible.
    ///
    /// Stepping runs inside the external engine; an engine defect that
    /// aborts instead of returning an interruption is outside this
    /// contract (see the trusted step wrapper's note).
    pub fn forward(&mut self, detailed: bool) -> (r: StepOutcome)
        requires
            old(self).inv(),
        ensures
            final(self).inv(),
            final(self).cap() == old(self).cap(),
            old(self)@.len() == 0 ==> r is NoProgram && final(self)@ == old(self)@,
            old(self)@.len() > 0 && old(self)@.last() is Interruption ==> r is AlreadyHalted
                && final(self)@ == old(self)@,
            old(self)@.len() > 0 && old(self)@.last() is Core ==> ({
                &&& final(self)@ == push_capped(old(self)@, old(self).cap(), final(self)@.last())
                &&& (r is Progressed <==> final(self)@.last() is Core)
                &&& (r matches StepOutcome::Interrupted(i) ==> final(self)@.last()
                    == HistoryState::Interruption(i))
                &&& (r is Progressed || r is Interrupted)
            }),
    {
        let n = self.states.len();
        if n == 0 {
            return StepOutcome::NoProgram;
        }
        let core = match &self.states[n - 1] {
            HistoryState::Core(c) => engine::clone_core(c),
            HistoryState::Interruption(_) => {
                return StepOutcome::AlreadyHalted;
            },
        };
        match run_engine(core, detailed) {
            Ok(next) => {
                self.push_entry(HistoryState::Core(next));
                StepOutcome::Progressed
            },
            Err(interruption) => {
                let reason = engine::clone_interruption(&interruption);
                self.push_entry(HistoryState::Interruption(interruption));
                StepOutcome::Interrupted(reason)
            },
        }
    }

    /// Discard the frontier entry; the anchor is never discarded.
    pub fn backward(&mut self) -> (r: bool)
        requires
            old(self).inv(),
        ensures
            final(self).inv(),
            final(self).cap() == old(self).cap(),
            final(self)@ == rewind(old(self)@),
            r <==> old(self)@.len() > 1,
    {
        if self.states.len() > 1 {
            let _dropped = self.states.pop_back();
            true
        } else {
            false
        }
    }

    /// An ordered copy of every retained entry, oldest first.  A pure read:
    /// it may be called at any time, including before any load.
    pub fn history(&self) -> (r: Vec<HistoryState>)
        ensures
            r@ == self@,
    {
        let mut out: Vec<HistoryState> = Vec::new();
        let mut i: usize = 0;
        while i < self.states.len()
            invariant
                i <= self@.len(),
                out@ == self@.subrange(0, i as int),
            decreases self@.len() - i,
        {
            out.push(clone_state(&self.states[i]));
            proof {
                assert(out@ =~= self@.subrange(0, (i + 1) as int));
            }
            i = i + 1;
        }
        proof {
            assert(self@.subrange(0, i as int) =~= self@);
        }
        out
    }
}

/// Advance a running snapshot to the next recorded state: one micro-step
/// when `detailed`, otherwise micro-steps are folded until the engine halts,
/// the redex counter changes, or the micro-step budget runs out.
fn run_engine(start: motoko::vm_types::Core, detailed: bool) -> Result<
    motoko::vm_types::Core,
    motoko::vm_types::Interruption,
> {
    let mut core = start;
    let limits = engine::limits_none();
    let base_redex = engine::core_redex_count(&core);
    let mut budget: usize = MICRO_STEP_BOUND;
    loop
        invariant
            1 <= budget,
        decreases budget,
    {
        match engine::core_step(&mut core, &limits) {
            Ok(_step) => {
                if detailed || budget <= 1 || engine::core_redex_count(&core) != base_redex {
                    return Ok(core);
                }
            },
            Err(interruption) => {
                return Err(interruption);
            },
        }
        budget = budget - 1;
    }
}

/// A copy of one timeline entry, equal to the original.
pub fn clone_state(s: &HistoryState) -> (r: HistoryState)
    ensures
        r == *s,
{
    match s {
        HistoryState::Core(c) => HistoryState::Core(engine::clone_core(c)),
        HistoryState::Interruption(i) => HistoryState::Interruption(engine::clone_interruption(i)),
    }
}

/// Anchor invariance: one rewind never drops a loaded timeline below one
/// entry, so the anchor survives every sequence of rewinds.
pub proof fn lemma_anchor_invariance(s: Seq<HistoryState>)
    requires
        1 <= s.len(),
    ensures
        1 <= rewind(s).len(),
{
}

/// Capacity bound: a capped append never grows the timeline beyond the
/// capacity, and at capacity it evicts exactly the oldest entry, keeping
/// the relative order of the remainder.
pub proof fn lemma_capacity_bound(s: Seq<HistoryState>, cap: nat, x: HistoryState)
    requires
        1 <= cap,
        s.len() <= cap,
    ensures
        push_capped(s, cap, x).len() <= cap,
        s.len() < cap ==> push_capped(s, cap, x) == s.push(x),
        s.len() == cap ==> push_capped(s, cap, x) == s.subrange(1, s.len() as int).push(x),
{
}

/// Backward/forward inverse within the window: while no eviction occurs,
/// a rewind exactly undoes a capped append, and re-appending the same
/// engine outcome reproduces the timeline that the rewind discarded.
pub proof fn lemma_backward_forward_inverse(s: Seq<HistoryState>, cap: nat, x: HistoryState)
    requires
        1 <= s.len(),
        s.len() < cap,
    ensures
        rewind(push_capped(s, cap, x)) == s,
        push_capped(rewind(push_capped(s, cap, x)), cap, x) == push_capped(s, cap, x),
{
    assert(s.push(x).drop_last() =~= s);
}

} // verus!
