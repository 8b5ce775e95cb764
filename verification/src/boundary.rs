//! The failure boundary: what a host gets back once a handler has run,
//! whether it returned, failed or faulted.

use vstd::prelude::*;
use crate::error::{spec_message, ErrorKind, ServiceError, ServiceErrorView};

verus! {

/// How faults of the engine are treated during one call.
#[derive(Clone, Copy, Debug, PartialEq, Eq, Structural)]
pub enum Mode {
    /// A fault is caught and reported as an error string.
    Recovering,
    /// A fault surfaces as it was raised, so that tooling can check its
    /// exact text.
    Diagnostic,
}

/// A call runs in diagnostic mode exactly when its request asks for
/// compilation only.
pub open spec fn spec_mode_for(compile_only: bool) -> Mode {
    if compile_only {
        Mode::Diagnostic
    } else {
        Mode::Recovering
    }
}

/// The mode in which a request is served.
pub fn mode_for(compile_only: bool) -> (mode: Mode)
    ensures
        mode == spec_mode_for(compile_only),
{
    if compile_only {
        Mode::Diagnostic
    } else {
        Mode::Recovering
    }
}

/// How the run of a handler ended.
#[derive(Clone, Debug, PartialEq, Eq)]
pub enum Outcome {
    /// It returned an encoded result.
    Completed(Vec<u8>),
    /// It returned a failure.
    Failed(ServiceError),
    /// It faulted; the text is what the fault carried.
    Faulted(String),
}

/// What a call hands back: a complete payload or an error string, never
/// both and never part of either.
#[derive(Clone, Debug, PartialEq, Eq)]
pub enum CallResponse {
    Payload(Vec<u8>),
    Error(String),
}

/// What the boundary decides once a handler has run.
#[derive(Clone, Debug, PartialEq, Eq)]
pub enum Settlement {
    /// Answer the host.
    Reply(CallResponse),
    /// Let the fault go on with its text untouched. No response is made.
    Resurface(String),
}

/// An outcome as contracts see it.
pub enum OutcomeView {
    Completed(Seq<u8>),
    Failed(ServiceErrorView),
    Faulted(Seq<char>),
}

/// A response as contracts see it.
pub enum CallResponseView {
    Payload(Seq<u8>),
    Error(Seq<char>),
}

/// A settlement as contracts see it.
pub enum SettlementView {
    Reply(CallResponseView),
    Resurface(Seq<char>),
}

impl View for Outcome {
    type V = OutcomeView;

    open spec fn view(&self) -> OutcomeView {
        match self {
            Outcome::Completed(bytes) => OutcomeView::Completed(bytes@),
            Outcome::Failed(e) => OutcomeView::Failed(e@),
            Outcome::Faulted(text) => OutcomeView::Faulted(text@),
        }
    }
}

impl View for CallResponse {
    type V = CallResponseView;

    open spec fn view(&self) -> CallResponseView {
        match self {
            CallResponse::Payload(bytes) => CallResponseView::Payload(bytes@),
            CallResponse::Error(text) => CallResponseView::Error(text@),
        }
    }
}

impl View for Settlement {
    type V = SettlementView;

    open spec fn view(&self) -> SettlementView {
        match self {
            Settlement::Reply(response) => SettlementView::Reply(response@),
            Settlement::Resurface(text) => SettlementView::Resurface(text@),
        }
    }
}

/// The response that reports a failure.
pub open spec fn spec_error_response(e: ServiceErrorView) -> CallResponseView {
    CallResponseView::Error(spec_message(e))
}

/// What the boundary decides for each way a handler can end.
///
/// A result passes through untouched. A failure becomes its message. A
/// fault becomes the message of an internal fault about its text, unless
/// the call is diagnostic: then the text surfaces as it is and nothing
/// is answered.
pub open spec fn spec_settle(mode: Mode, outcome: OutcomeView) -> SettlementView {
    match outcome {
        OutcomeView::Completed(bytes) => SettlementView::Reply(CallResponseView::Payload(bytes)),
        OutcomeView::Failed(e) => SettlementView::Reply(spec_error_response(e)),
        OutcomeView::Faulted(text) => match mode {
            Mode::Recovering => SettlementView::Reply(
                spec_error_response(
                    ServiceErrorView { kind: ErrorKind::InternalFault, detail: text },
                ),
            ),
            Mode::Diagnostic => SettlementView::Resurface(text),
        },
    }
}

/// The response that reports `e`.
pub fn error_response(e: &ServiceError) -> (response: CallResponse)
    ensures
        response@ == spec_error_response(e@),
{
    CallResponse::Error(e.message())
}

/// Decides what a host gets back for `outcome`.
pub fn settle(mode: Mode, outcome: Outcome) -> (settlement: Settlement)
    ensures
        settlement@ == spec_settle(mode, outcome@),
{
    match outcome {
        Outcome::Completed(bytes) => Settlement::Reply(CallResponse::Payload(bytes)),
        Outcome::Failed(e) => Settlement::Reply(error_response(&e)),
        Outcome::Faulted(text) => match mode {
            Mode::Recovering => {
                let e = ServiceError { kind: ErrorKind::InternalFault, detail: text };
                Settlement::Reply(error_response(&e))
            },
            Mode::Diagnostic => Settlement::Resurface(text),
        },
    }
}

/// One thing the host process does around a call to keep the way faults
/// are handled intact.
#[derive(Clone, Copy, Debug, PartialEq, Eq, Structural)]
pub enum GuardStep {
    /// Take the one lock that diagnostic calls share.
    AcquireLock,
    /// Save the fault hook in force and put the silent one in its place.
    SilenceHook,
    /// Put the saved fault hook back.
    RestoreHook,
    /// Give the lock back.
    ReleaseLock,
}

/// The fault handling of the host process, as far as the boundary
/// touches it. Hooks are told apart by a number; `silent` is the hook
/// that diagnostic calls install.
pub struct FaultHandling {
    pub locked: bool,
    pub hook: nat,
    pub saved: Option<nat>,
    pub silent: nat,
}

/// What one step does to the fault handling of the process.
pub open spec fn spec_step(state: FaultHandling, step: GuardStep) -> FaultHandling {
    match step {
        GuardStep::AcquireLock => FaultHandling { locked: true, ..state },
        GuardStep::SilenceHook => FaultHandling {
            hook: state.silent,
            saved: Some(state.hook),
            ..state
        },
        GuardStep::RestoreHook => match state.saved {
            Some(hook) => FaultHandling { hook, saved: None, ..state },
            None => state,
        },
        GuardStep::ReleaseLock => FaultHandling { locked: false, ..state },
    }
}

/// What a run of steps does, first step first.
pub open spec fn spec_steps(state: FaultHandling, steps: Seq<GuardStep>) -> FaultHandling
    decreases steps.len(),
{
    if steps.len() == 0 {
        state
    } else {
        spec_steps(spec_step(state, steps[0]), steps.drop_first())
    }
}

/// The steps before the handler runs.
pub open spec fn spec_entry_steps(mode: Mode) -> Seq<GuardStep> {
    match mode {
        Mode::Recovering => seq![],
        Mode::Diagnostic => seq![GuardStep::AcquireLock, GuardStep::SilenceHook],
    }
}

/// The steps after the handler has run, however it ended.
pub open spec fn spec_exit_steps(mode: Mode) -> Seq<GuardStep> {
    match mode {
        Mode::Recovering => seq![],
        Mode::Diagnostic => seq![GuardStep::RestoreHook, GuardStep::ReleaseLock],
    }
}

/// The steps to take before the handler runs.
pub fn entry_steps(mode: Mode) -> (steps: Vec<GuardStep>)
    ensures
        steps@ == spec_entry_steps(mode),
{
    match mode {
        Mode::Recovering => Vec::new(),
        Mode::Diagnostic => {
            let mut steps = Vec::new();
            steps.push(GuardStep::AcquireLock);
            steps.push(GuardStep::SilenceHook);
            assert(steps@ =~= spec_entry_steps(mode));
            steps
        },
    }
}

/// The steps to take after the handler has run. They do not depend on
/// how it ended: the same steps leave through every exit.
pub fn exit_steps(mode: Mode) -> (steps: Vec<GuardStep>)
    ensures
        steps@ == spec_exit_steps(mode),
{
    match mode {
        Mode::Recovering => Vec::new(),
        Mode::Diagnostic => {
            let mut steps = Vec::new();
            steps.push(GuardStep::RestoreHook);
            steps.push(GuardStep::ReleaseLock);
            assert(steps@ =~= spec_exit_steps(mode));
            steps
        },
    }
}

/// A call leaves the fault handling of the process as it found it: the
/// hook that was in force is in force again, nothing stays saved and the
/// lock is free. A call that is not diagnostic touches none of it.
pub proof fn lemma_guard_restores(mode: Mode, before: FaultHandling)
    requires
        !before.locked,
        before.saved is None,
    ensures
        spec_steps(spec_steps(before, spec_entry_steps(mode)), spec_exit_steps(mode)) == before,
        mode == Mode::Recovering ==> spec_steps(before, spec_entry_steps(mode)) == before,
        mode == Mode::Diagnostic ==> spec_steps(before, spec_entry_steps(mode)).locked,
{
    reveal_with_fuel(spec_steps, 3);
    match mode {
        Mode::Recovering => {},
        Mode::Diagnostic => {
            let entry = spec_entry_steps(mode);
            let exit = spec_exit_steps(mode);
            assert(entry.drop_first() =~= seq![GuardStep::SilenceHook]);
            assert(entry.drop_first().drop_first() =~= Seq::<GuardStep>::empty());
            assert(exit.drop_first() =~= seq![GuardStep::ReleaseLock]);
            assert(exit.drop_first().drop_first() =~= Seq::<GuardStep>::empty());
        },
    }
}

/// A fault of a diagnostic call surfaces with its text, character for
/// character, and no reply is made. The same fault of any other call is
/// answered with an error string that ends in that text.
pub proof fn lemma_fault_text_is_kept(mode: Mode, text: Seq<char>)
    ensures
        mode == Mode::Diagnostic ==> spec_settle(mode, OutcomeView::Faulted(text))
            == SettlementView::Resurface(text),
        mode == Mode::Recovering ==> spec_settle(mode, OutcomeView::Faulted(text))
            == SettlementView::Reply(CallResponseView::Error("internal fault: "@ + text)),
{
    reveal_strlit("internal fault");
    reveal_strlit(": ");
    reveal_strlit("internal fault: ");
    assert("internal fault"@ + ": "@ =~= "internal fault: "@);
    assert("internal fault"@ + ": "@ + text =~= "internal fault: "@ + text);
}

} // verus!
