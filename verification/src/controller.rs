//! The power-transition controller: reacts to power-source change
//! notifications, snapshots the outgoing condition's brightness into
//! the settings, and submits a delayed brightness write for the
//! incoming condition to the debounce scheduler's channel.
//!
//! The caller that delivers notifications drives one event through
//! three steps, stopping at the first failure:
//! 1. if [`TransitionController::snapshot_due`], read the hardware
//!    brightness and hand it to [`TransitionController::handle`],
//!    which updates the settings slot of the outgoing condition;
//! 2. persist the settings copy that `handle` returns, if any;
//! 3. call [`TransitionController::submit_and_commit`], which sends
//!    the delayed apply command over the channel and only then records
//!    the new condition as the previous one.

use vstd::prelude::*;
use crate::errors::ControllerError;
use crate::power::PowerCondition;
use crate::scheduler::Command;
use crate::scheduler::DEBOUNCE_DELAY_MS;
use crate::settings::Settings;

verus! {

#[verifier::external_type_specification]
#[verifier::external_body]
#[verifier::reject_recursive_types(T)]
pub struct ExUnboundedSender<T>(tokio::sync::mpsc::UnboundedSender<T>);

/// Relies on `tokio::sync::mpsc::UnboundedSender::send`: queues exactly
/// the given message on the unbounded channel without blocking, and
/// fails exactly when the receive half was closed or dropped. Nothing
/// is promised of the outcome, which depends on the receiver's state.
#[verifier::external_body]
fn send_submission(
    tx: &tokio::sync::mpsc::UnboundedSender<(Command, u64)>,
    command: Command,
    delay_ms: u64,
) -> (ok: bool) {
    tx.send((command, delay_ms)).is_ok()
}

/// The submission a power-condition change gives rise to: for an
/// actionable condition, apply that condition's preferred brightness
/// after the debounce delay; for any other condition, nothing.
pub fn submission_for(new_condition: PowerCondition) -> (r: Option<(Command, u64)>)
    ensures
        new_condition.spec_actionable() ==> r == Some((
            Command::ApplyBrightness { for_condition: new_condition },
            DEBOUNCE_DELAY_MS,
        )),
        !new_condition.spec_actionable() ==> r is None,
{
    if new_condition.is_actionable() {
        Some((Command::ApplyBrightness { for_condition: new_condition }, DEBOUNCE_DELAY_MS))
    } else {
        None
    }
}

/// Holds the current settings and the last-known power condition, and
/// the send half of the scheduler's submission channel.
pub struct TransitionController {
    pub tx: tokio::sync::mpsc::UnboundedSender<(Command, u64)>,
    pub settings: Settings,
    pub previous_condition: PowerCondition,
}

impl TransitionController {
    pub open spec fn wf(self) -> bool {
        self.settings.wf()
    }

    /// Whether handling `new_condition` must first snapshot the
    /// brightness currently in effect: exactly on an AC/DC crossing,
    /// in either direction.
    pub open spec fn spec_snapshot_due(self, new_condition: PowerCondition) -> bool {
        ||| (new_condition == PowerCondition::Ac && self.previous_condition == PowerCondition::Dc)
        ||| (new_condition == PowerCondition::Dc && self.previous_condition == PowerCondition::Ac)
    }

    /// A fresh controller: the given settings, and a sentinel previous
    /// condition so the first real notification never looks like an
    /// AC/DC crossing.
    pub fn new(
        tx: tokio::sync::mpsc::UnboundedSender<(Command, u64)>,
        settings: Settings,
    ) -> (c: Self)
        requires
            settings.wf(),
        ensures
            c.settings == settings,
            c.previous_condition == PowerCondition::Unknown,
            c.wf(),
    {
        TransitionController { tx, settings, previous_condition: PowerCondition::Unknown }
    }

    /// Whether the caller must read the hardware brightness before
    /// calling [`Self::handle`] for `new_condition`.
    pub fn snapshot_due(&self, new_condition: PowerCondition) -> (r: bool)
        ensures
            r == self.spec_snapshot_due(new_condition),
    {
        (matches!(new_condition, PowerCondition::Ac)
            && matches!(self.previous_condition, PowerCondition::Dc))
        || (matches!(new_condition, PowerCondition::Dc)
            && matches!(self.previous_condition, PowerCondition::Ac))
    }

    /// The snapshot phase of one power-condition change. `observed` is
    /// the hardware brightness read by the caller when a snapshot is
    /// due (`None` means the read failed or was not performed). On an
    /// AC/DC crossing the observed value — the brightness the user
    /// left in effect under the outgoing condition — is stored into
    /// the outgoing condition's settings slot, and the updated
    /// settings are returned so the caller can persist them. On any
    /// other event nothing changes and there is nothing to persist.
    /// The previous condition is not touched here; it moves only in
    /// [`Self::submit_and_commit`], after the remaining steps succeed.
    pub fn handle(&mut self, new_condition: PowerCondition, observed: Option<u8>) -> (r: Result<
        Option<Settings>,
        ControllerError,
    >)
        requires
            old(self).wf(),
            observed matches Some(b) ==> b <= 100,
        ensures
            final(self).wf(),
            final(self).previous_condition == old(self).previous_condition,
            !old(self).spec_snapshot_due(new_condition) ==> r == Ok::<Option<Settings>, ControllerError>(None)
                && final(self).settings == old(self).settings,
            old(self).spec_snapshot_due(new_condition) && observed is None ==> r == Err::<
                Option<Settings>,
                ControllerError,
            >(ControllerError::Hardware) && final(self).settings == old(self).settings,
            observed matches Some(b) ==> (old(self).spec_snapshot_due(new_condition) ==> {
                &&& final(self).settings.spec_brightness_for(old(self).previous_condition) == b
                &&& (old(self).previous_condition == PowerCondition::Dc ==> final(self).settings
                    == (Settings { dc_brightness: b, ..old(self).settings }))
                &&& (old(self).previous_condition == PowerCondition::Ac ==> final(self).settings
                    == (Settings { ac_brightness: b, ..old(self).settings }))
                &&& r == Ok::<Option<Settings>, ControllerError>(Some(final(self).settings))
            }),
    {
        if self.snapshot_due(new_condition) {
            match observed {
                Some(b) => {
                    let outgoing = self.previous_condition;
                    self.settings.set_brightness_for(outgoing, b);
                    Ok(Some(self.settings))
                }
                None => Err(ControllerError::Hardware),
            }
        } else {
            Ok(None)
        }
    }

    /// The submission phase of one power-condition change: for an
    /// actionable condition, send the delayed apply command to the
    /// scheduler; then — only if nothing failed — record
    /// `new_condition` as the previous condition, so a failed event
    /// leaves the controller's history untouched. A non-actionable
    /// condition submits nothing but still moves the history, exactly
    /// once per handled event.
    pub fn submit_and_commit(&mut self, new_condition: PowerCondition) -> (r: Result<
        (),
        ControllerError,
    >)
        ensures
            final(self).settings == old(self).settings,
            r == Ok::<(), ControllerError>(()) ==> final(self).previous_condition == new_condition,
            r matches Err(e) ==> e == ControllerError::SchedulerUnavailable
                && new_condition.spec_actionable()
                && final(self).previous_condition == old(self).previous_condition,
            !new_condition.spec_actionable() ==> r == Ok::<(), ControllerError>(()),
    {
        match submission_for(new_condition) {
            Some((command, delay_ms)) => {
                if !send_submission(&self.tx, command, delay_ms) {
                    return Err(ControllerError::SchedulerUnavailable);
                }
            }
            None => {}
        }
        self.previous_condition = new_condition;
        Ok(())
    }
}

/// The step [`TransitionController::submit_and_commit`] takes on the
/// previous condition when it succeeds: the handled event overwrites
/// it, whatever it was.
pub open spec fn spec_commit_previous(prev: PowerCondition, event: PowerCondition) -> PowerCondition {
    event
}

/// The previous-condition history folded over a sequence of fully
/// handled events, one commit step per event.
pub open spec fn previous_after(init: PowerCondition, events: Seq<PowerCondition>) -> PowerCondition
    decreases events.len(),
{
    if events.len() == 0 {
        init
    } else {
        spec_commit_previous(previous_after(init, events.drop_last()), events.last())
    }
}

/// After any non-empty sequence of fully handled events, the previous
/// condition equals the condition argument of the last one — handling
/// never loses or reorders the history.
pub proof fn lemma_previous_is_last_event(init: PowerCondition, events: Seq<PowerCondition>)
    requires
        events.len() > 0,
    ensures
        previous_after(init, events) == events.last(),
{
}

} // verus!
