use vstd::prelude::*;

verus! {

/// Where the process stands with respect to faults. `Halted` is terminal.
#[derive(Clone, Copy, Debug, PartialEq, Eq, Structural)]
pub enum FaultState {
    Running,
    Halted,
}

/// One step the runtime takes in response to a fault.
#[derive(Clone, Copy, Debug, PartialEq, Eq, Structural)]
pub enum FaultAction {
    /// Write `fault_message()` to the log sink, best effort.
    WriteLog,
    /// Call the abort primitive, which never returns.
    Abort,
}

/// What the runtime does on a fault. Its size is fixed, so deciding it needs no
/// memory even when the fault is that memory ran out.
#[derive(Clone, Copy, Debug, PartialEq, Eq, Structural)]
pub enum FaultPlan {
    /// Write the diagnostic once, then abort.
    LogThenAbort,
    /// Abort without writing anything.
    AbortOnly,
}

impl FaultPlan {
    /// The steps of the plan, in the order they are taken.
    pub open spec fn steps(self) -> Seq<FaultAction> {
        match self {
            FaultPlan::LogThenAbort => seq![FaultAction::WriteLog, FaultAction::Abort],
            FaultPlan::AbortOnly => seq![FaultAction::Abort],
        }
    }
}

/// The plan for a fault in state `s`: the first fault logs once and then
/// aborts; a process already halted only aborts.
pub open spec fn fault_plan(s: FaultState) -> FaultPlan {
    match s {
        FaultState::Running => FaultPlan::LogThenAbort,
        FaultState::Halted => FaultPlan::AbortOnly,
    }
}

/// The fixed diagnostic written on a fault.
pub fn fault_message() -> (r: &'static str)
    ensures
        r@ == "PANIC\n"@,
{
    "PANIC\n"
}

/// The single handler for every unrecoverable condition. It decides what to do;
/// the caller performs the returned steps in order.
pub struct FaultHandler {
    state: FaultState,
}

impl FaultHandler {
    pub closed spec fn view(&self) -> FaultState {
        self.state
    }

    /// A handler for a process that is running.
    pub fn new() -> (r: FaultHandler)
        ensures
            r.view() == FaultState::Running,
    {
        FaultHandler { state: FaultState::Running }
    }

    pub fn state(&self) -> (r: FaultState)
        ensures
            r == self.view(),
    {
        self.state
    }

    /// Handles a fault: moves to `Halted` and returns what to do, which ends in
    /// `Abort`. Nothing is unwound and nothing is cleaned up.
    pub fn panic(&mut self) -> (plan: FaultPlan)
        ensures
            final(self).view() == FaultState::Halted,
            plan == fault_plan(old(self).view()),
            old(self).view() == FaultState::Running ==> plan.steps() == seq![
                FaultAction::WriteLog,
                FaultAction::Abort,
            ],
    {
        let plan = match self.state {
            FaultState::Running => FaultPlan::LogThenAbort,
            FaultState::Halted => FaultPlan::AbortOnly,
        };
        self.state = FaultState::Halted;
        plan
    }
}

/// A fault writes the log exactly once over the life of the process and then
/// aborts: the steps of any fault end in `Abort` and hold no other `Abort`; the
/// first fault logs once, and after it the process is halted, whose faults log
/// nothing.
pub proof fn lemma_fault_logs_once_then_aborts(s: FaultState)
    ensures
        fault_plan(s).steps().len() > 0,
        fault_plan(s).steps().last() == FaultAction::Abort,
        forall|i: int| 0 <= i < fault_plan(s).steps().len() - 1 ==> fault_plan(s).steps()[i] != FaultAction::Abort,
        s == FaultState::Running ==> {
            &&& fault_plan(s).steps()[0] == FaultAction::WriteLog
            &&& forall|i: int| 1 <= i < fault_plan(s).steps().len() ==> fault_plan(s).steps()[i] != FaultAction::WriteLog
        },
        s == FaultState::Halted ==> forall|i: int|
            0 <= i < fault_plan(s).steps().len() ==> fault_plan(s).steps()[i] != FaultAction::WriteLog,
{
}

} // verus!
