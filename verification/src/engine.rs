//! Trusted boundary to the external Motoko interpreter engine.
//!
//! The engine (crate `motoko`) parses source text into a program, builds the
//! initial snapshot of a virtual machine for it, and advances a snapshot by
//! one atomic unit of work at a time.  Its values are opaque here: each item
//! below states only what the engine's own source shows, and the history
//! logic is verified against these contracts alone.

use vstd::prelude::*;

verus! {

#[verifier::external_type_specification]
#[verifier::external_body]
pub struct ExCore(motoko::vm_types::Core);

#[verifier::external_type_specification]
#[verifier::external_body]
pub struct ExInterruption(motoko::vm_types::Interruption);

#[verifier::external_type_specification]
#[verifier::external_body]
pub struct ExLimits(motoko::vm_types::Limits);

#[verifier::external_type_specification]
#[verifier::external_body]
pub struct ExStep(motoko::vm_types::Step);

#[verifier::external_type_specification]
#[verifier::external_body]
pub struct ExSyntaxError(motoko::parser_types::SyntaxError);

#[verifier::external_type_specification]
#[verifier::external_body]
#[verifier::reject_recursive_types(X)]
pub struct ExDelim<X: Clone>(motoko::ast::Delim<X>);

#[verifier::external_type_specification]
#[verifier::external_body]
#[verifier::reject_recursive_types(T)]
pub struct ExShared<T: ?Sized>(motoko::shared::Shared<T>);

#[verifier::external_type_specification]
#[verifier::external_body]
#[verifier::reject_recursive_types(X)]
pub struct ExNodeData<X>(motoko::ast::NodeData<X>);

#[verifier::external_type_specification]
#[verifier::external_body]
pub struct ExDec(motoko::ast::Dec);

/// Whether the engine's parser accepts this source text.  The parse result
/// is a function of the text alone.
pub uninterp spec fn parse_accepts(s: Seq<char>) -> bool;

/// Relies on motoko::check::parse: turns source text into a program,
/// deterministically in the text; rejected text yields a syntax error.
/// The parser reads a projection index into a machine word and aborts on
/// overflow instead of reporting an error, so text whose numerals do not
/// all fit in a machine word is excluded here; the caller rejects such
/// text first.
#[verifier::external_body]
pub(crate) fn parse_program(input: &str) -> (r: Result<
    motoko::ast::Prog,
    motoko::parser_types::SyntaxError,
>)
    requires
        crate::numerals::numerals_fit(input@),
    ensures
        r is Ok <==> parse_accepts(input@),
{
    motoko::check::parse(input)
}

/// Relies on motoko::vm_types::Core::new: builds the engine's initial
/// snapshot for a parsed program.
#[verifier::external_body]
pub(crate) fn core_new(prog: motoko::ast::Prog) -> motoko::vm_types::Core {
    motoko::vm_types::Core::new(prog)
}

/// Relies on motoko::vm_types::Limits::none: the resource-limit
/// configuration with every cap absent, so no dimension is bounded.
#[verifier::external_body]
pub(crate) fn limits_none() -> motoko::vm_types::Limits {
    motoko::vm_types::Limits::none()
}

/// Relies on motoko::vm_types::Core::step: advances the snapshot by one
/// atomic unit of work, or reports the interruption that stops it.
///
/// Residual trust: the engine has unfinished execution paths (stepping an
/// anonymous actor declaration, for one, reaches an unimplemented branch)
/// on which this call aborts the process instead of returning an
/// interruption.  Which snapshots reach them is a property of the opaque
/// snapshot value that no precondition here can state, so that abort risk
/// remains with the engine.
#[verifier::external_body]
pub(crate) fn core_step(
    core: &mut motoko::vm_types::Core,
    limits: &motoko::vm_types::Limits,
) -> Result<motoko::vm_types::Step, motoko::vm_types::Interruption> {
    core.step(limits)
}

/// Relies on the public counter fields of motoko::vm_types::Core: reads the
/// agent's redex count, the externally observable progress counter.  This
/// is the agent's counter only: when the engine schedules an actor, its
/// redexes are counted on that actor, so the folded stepping mode may fold
/// actor-side progress into one recorded state.
#[verifier::external_body]
pub(crate) fn core_redex_count(core: &motoko::vm_types::Core) -> usize {
    core.agent.counts.redex
}

/// Relies on the derived Clone of motoko::vm_types::Core: a deep copy,
/// equal to the snapshot it was taken from.
#[verifier::external_body]
pub(crate) fn clone_core(core: &motoko::vm_types::Core) -> (r: motoko::vm_types::Core)
    ensures
        r == *core,
{
    core.clone()
}

/// Relies on the derived Clone of motoko::vm_types::Interruption: a copy,
/// equal to the value it was taken from.
#[verifier::external_body]
pub(crate) fn clone_interruption(
    i: &motoko::vm_types::Interruption,
) -> (r: motoko::vm_types::Interruption)
    ensures
        r == *i,
{
    i.clone()
}

/// Relies on the derived Debug of motoko::parser_types::SyntaxError to
/// render the error for diagnostics.
#[verifier::external_body]
pub(crate) fn syntax_error_text(e: &motoko::parser_types::SyntaxError) -> String {
    format!("{:?}", e)
}

} // verus!
