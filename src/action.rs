//! The untrack command: ends the tracking of a volume that stays visible.
use vstd::prelude::*;
use crate::fingerprint::{FingerprintView, VolumeFingerprint};
use crate::manager::{events_view, has_fp, set_tracking, untrack_events, VolumeEvent, VolumeManager};

verus! {

/// Which volume to untrack.
#[derive(Debug)]
pub struct VolumeUntrackInput {
    pub volume_id: VolumeFingerprint,
}

/// The report of a completed untrack.
#[derive(Debug)]
pub struct VolumeUntrackOutput {
    pub volume_id: VolumeFingerprint,
    pub success: bool,
}

/// Why a command failed.
#[derive(Debug)]
pub enum ActionError {
    Internal(String),
}

/// The untrack command, as the command layer hands it over.
#[derive(Debug)]
pub struct VolumeUntrackAction {
    input: VolumeUntrackInput,
}

impl VolumeUntrackAction {
    pub closed spec fn volume(&self) -> FingerprintView {
        self.input.volume_id@
    }

    pub fn new(input: VolumeUntrackInput) -> (r: Self)
        ensures
            r.volume() == input.volume_id@,
    {
        VolumeUntrackAction { input }
    }

    pub fn from_input(input: VolumeUntrackInput) -> (r: Result<Self, String>)
        ensures
            r matches Ok(a) && a.volume() == input.volume_id@,
    {
        Ok(VolumeUntrackAction::new(input))
    }

    /// The volume the command untracks.
    pub fn volume_id(&self) -> (r: &VolumeFingerprint)
        ensures
            r@ == self.volume(),
    {
        &self.input.volume_id
    }

    /// The command's registered name.
    pub fn action_kind(&self) -> (r: &'static str)
        ensures
            r@ == "volumes.untrack"@,
    {
        "volumes.untrack"
    }

    /// Untracks the volume through the manager, once the store has deleted
    /// its record (`deleted`). On success reports the volume with
    /// `success: true`, together with the events to publish; a failure of the
    /// manager is reported as an internal error carrying its text.
    pub fn execute(self, manager: &mut VolumeManager, deleted: Result<(), String>) -> (r: Result<
        (VolumeUntrackOutput, Vec<VolumeEvent>),
        ActionError,
    >)
        requires
            old(manager).wf(),
        ensures
            final(manager).wf(),
            r is Ok <==> has_fp(old(manager).view_volumes(), self.volume()) && deleted is Ok,
            r matches Ok((out, ev)) ==> out.volume_id@ == self.volume() && out.success && events_view(ev@)
                == untrack_events(self.volume()) && final(manager).view_volumes() == set_tracking(
                old(manager).view_volumes(),
                self.volume(),
                false,
                None,
            ),
            r is Err ==> final(manager).view_volumes() == old(manager).view_volumes(),
            (has_fp(old(manager).view_volumes(), self.volume()) && deleted is Err) ==> (r matches Err(
                ActionError::Internal(m),
            ) && m@ == "Database error: "@ + deleted->Err_0@),
    {
        match manager.untrack_volume_by_id(&self.input.volume_id, deleted) {
            Ok(ev) => Ok((VolumeUntrackOutput { volume_id: self.input.volume_id, success: true }, ev)),
            Err(e) => Err(ActionError::Internal(e.message())),
        }
    }
}

} // verus!
