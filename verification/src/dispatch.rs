//! The stages of one `--action` run and the step each action asks for.

use vstd::prelude::*;

use crate::acpi::AcpiEventAction;

verus! {

/// How far an `--action` run has come: the state is loaded from the
/// device, adjusted by one step, persisted back — and then the run is
/// done.  A failure at any stage ends the run.
#[derive(Debug, Clone, Copy, PartialEq, Eq, Structural)]
pub enum DispatchPhase {
    Idle,
    Loaded,
    Adjusted,
    Persisted,
    Done,
    Failed,
}

/// The transition rule of a run: each successful stage leads to the next,
/// any unsuccessful one to `Failed`, and the two final phases never move
/// again — a failed run retries nothing.
pub open spec fn next_phase(phase: DispatchPhase, ok: bool) -> DispatchPhase {
    match phase {
        DispatchPhase::Idle => if ok {
            DispatchPhase::Loaded
        } else {
            DispatchPhase::Failed
        },
        DispatchPhase::Loaded => if ok {
            DispatchPhase::Adjusted
        } else {
            DispatchPhase::Failed
        },
        DispatchPhase::Adjusted => if ok {
            DispatchPhase::Persisted
        } else {
            DispatchPhase::Failed
        },
        DispatchPhase::Persisted => if ok {
            DispatchPhase::Done
        } else {
            DispatchPhase::Failed
        },
        DispatchPhase::Done => DispatchPhase::Done,
        DispatchPhase::Failed => DispatchPhase::Failed,
    }
}

impl DispatchPhase {
    /// Moves the run one stage forward: `ok` says whether the stage's
    /// work succeeded.
    pub fn advance(self, ok: bool) -> (next: DispatchPhase)
        ensures
            next == next_phase(self, ok),
    {
        match self {
            DispatchPhase::Idle => if ok {
                DispatchPhase::Loaded
            } else {
                DispatchPhase::Failed
            },
            DispatchPhase::Loaded => if ok {
                DispatchPhase::Adjusted
            } else {
                DispatchPhase::Failed
            },
            DispatchPhase::Adjusted => if ok {
                DispatchPhase::Persisted
            } else {
                DispatchPhase::Failed
            },
            DispatchPhase::Persisted => if ok {
                DispatchPhase::Done
            } else {
                DispatchPhase::Failed
            },
            DispatchPhase::Done => DispatchPhase::Done,
            DispatchPhase::Failed => DispatchPhase::Failed,
        }
    }
}

/// The two final phases absorb every further event: a finished run stays
/// finished and a failed one stays failed.
pub proof fn lemma_run_outcome_is_final(ok: bool)
    ensures
        next_phase(DispatchPhase::Done, ok) == DispatchPhase::Done,
        next_phase(DispatchPhase::Failed, ok) == DispatchPhase::Failed,
{
}

/// The signed step that an action applies: one increment up or one
/// increment down.
pub fn action_delta(action: AcpiEventAction, brightness_increment: i16) -> (delta: i16)
    requires
        brightness_increment > i16::MIN,
    ensures
        action == AcpiEventAction::BrightnessUp ==> delta == brightness_increment,
        action == AcpiEventAction::BrightnessDown ==> delta as int == -(
        brightness_increment as int),
{
    match action {
        AcpiEventAction::BrightnessUp => brightness_increment,
        AcpiEventAction::BrightnessDown => -brightness_increment,
    }
}

} // verus!
