//! Progress snapshots of a running transfer and how they are shown.

use vstd::prelude::*;

verus! {

/// Stage of a transfer; a well-formed run goes through them in this order.
#[derive(Clone, Copy, Debug, PartialEq, Eq, Structural)]
pub enum PushProgressState {
    PackingAddingObject,
    PackingDeltafiction,
    Pushing,
}

/// Latest progress reported by the transfer engine.
#[derive(Clone, Copy, Debug, PartialEq, Eq, Structural)]
pub struct PushProgress {
    pub state: PushProgressState,
    /// Percentage of the current stage, at most 100.
    pub progress: u8,
}

impl PushProgress {
    pub open spec fn wf(self) -> bool {
        self.progress <= 100
    }
}

/// A snapshot that is absent or well formed.
pub open spec fn snapshot_wf(p: Option<PushProgress>) -> bool {
    match p {
        Some(s) => s.wf(),
        None => true,
    }
}

pub const PROGRESS_NONE: &'static str = "preparing...";

pub const STATE_ADDING: &'static str = "adding objects (1/3)";

pub const STATE_DELTAS: &'static str = "deltas (2/3)";

pub const STATE_PUSHING: &'static str = "pushing (3/3)";

/// The label shown for a stage.
pub open spec fn state_label(state: PushProgressState) -> Seq<char> {
    match state {
        PushProgressState::PackingAddingObject => STATE_ADDING@,
        PushProgressState::PackingDeltafiction => STATE_DELTAS@,
        PushProgressState::Pushing => STATE_PUSHING@,
    }
}

/// What is displayed for an optional snapshot: a label and a percentage.
pub open spec fn projection(p: Option<PushProgress>) -> (Seq<char>, u8) {
    match p {
        Some(s) => (state_label(s.state), s.progress),
        None => (PROGRESS_NONE@, 0u8),
    }
}

/// Label of a stage.
pub fn progress_state_name(state: &PushProgressState) -> (r: String)
    ensures
        r@ == state_label(*state),
{
    match state {
        PushProgressState::PackingAddingObject => String::from_str(STATE_ADDING),
        PushProgressState::PackingDeltafiction => String::from_str(STATE_DELTAS),
        PushProgressState::Pushing => String::from_str(STATE_PUSHING),
    }
}

/// Label and percentage to display for the latest snapshot; a missing
/// snapshot shows as "preparing" at zero.
pub fn get_progress(progress: &Option<PushProgress>) -> (r: (String, u8))
    requires
        snapshot_wf(*progress),
    ensures
        (r.0@, r.1) == projection(*progress),
        r.1 <= 100,
{
    match progress {
        Some(p) => (progress_state_name(&p.state), p.progress),
        None => (String::from_str(PROGRESS_NONE), 0),
    }
}

} // verus!
