use battery_brightness::controller::submission_for;
use battery_brightness::controller::TransitionController;
use battery_brightness::errors::ControllerError;
use battery_brightness::power::PowerCondition;
use battery_brightness::scheduler::Command;
use battery_brightness::scheduler::DEBOUNCE_DELAY_MS;
use battery_brightness::settings::Settings;
use tokio::sync::mpsc;

fn fresh_controller() -> (
    TransitionController,
    mpsc::UnboundedReceiver<(Command, u64)>,
) {
    let (tx, rx) = mpsc::unbounded_channel();
    (TransitionController::new(tx, Settings::default()), rx)
}

fn drive(ctl: &mut TransitionController, cond: PowerCondition, observed: Option<u8>) {
    ctl.handle(cond, observed).expect("handle");
    ctl.submit_and_commit(cond).expect("submit_and_commit");
}

#[test]
fn fresh_ac_event_submits_without_snapshot() {
    // Fresh settings {ac:100, dc:0}, previous unknown: handling AC
    // takes no snapshot, submits an apply of brightness 100, and
    // records AC as the previous condition.
    let (mut ctl, mut rx) = fresh_controller();
    assert!(!ctl.snapshot_due(PowerCondition::Ac));
    assert_eq!(ctl.handle(PowerCondition::Ac, None), Ok(None));
    assert_eq!(ctl.submit_and_commit(PowerCondition::Ac), Ok(()));
    assert_eq!(ctl.previous_condition, PowerCondition::Ac);
    assert_eq!(ctl.settings, Settings { ac_brightness: 100, dc_brightness: 0 });
    let (command, delay) = rx.try_recv().expect("a submission was sent");
    assert_eq!(command, Command::ApplyBrightness { for_condition: PowerCondition::Ac });
    assert_eq!(delay, DEBOUNCE_DELAY_MS);
    assert_eq!(ctl.settings.brightness_for(PowerCondition::Ac), 100);
}

#[test]
fn ac_to_dc_snapshots_observed_brightness() {
    // Previous AC, settings {ac:100, dc:0}, hardware currently at 80:
    // handling DC stores 80 into ac_brightness, submits an apply of
    // dc_brightness (0), and records DC.
    let (mut ctl, mut rx) = fresh_controller();
    drive(&mut ctl, PowerCondition::Ac, None);
    rx.try_recv().expect("submission for the AC event");

    assert!(ctl.snapshot_due(PowerCondition::Dc));
    let persisted = ctl.handle(PowerCondition::Dc, Some(80)).expect("handle");
    assert_eq!(persisted, Some(Settings { ac_brightness: 80, dc_brightness: 0 }));
    assert_eq!(ctl.submit_and_commit(PowerCondition::Dc), Ok(()));
    assert_eq!(ctl.previous_condition, PowerCondition::Dc);
    assert_eq!(ctl.settings, Settings { ac_brightness: 80, dc_brightness: 0 });
    let (command, delay) = rx.try_recv().expect("a submission was sent");
    assert_eq!(command, Command::ApplyBrightness { for_condition: PowerCondition::Dc });
    assert_eq!(delay, DEBOUNCE_DELAY_MS);
    assert_eq!(ctl.settings.brightness_for(PowerCondition::Dc), 0);
}

#[test]
fn dc_to_ac_snapshot_records_the_value_observed_before_the_call() {
    // Previous DC: handling AC with an observed brightness of 42
    // leaves dc_brightness == 42 after the call.
    let (mut ctl, _rx) = fresh_controller();
    drive(&mut ctl, PowerCondition::Dc, None);
    assert_eq!(ctl.previous_condition, PowerCondition::Dc);

    assert!(ctl.snapshot_due(PowerCondition::Ac));
    let persisted = ctl.handle(PowerCondition::Ac, Some(42)).expect("handle");
    assert_eq!(persisted, Some(Settings { ac_brightness: 100, dc_brightness: 42 }));
    assert_eq!(ctl.settings.dc_brightness, 42);
}

#[test]
fn snapshot_without_reading_is_a_hardware_error() {
    let (mut ctl, _rx) = fresh_controller();
    drive(&mut ctl, PowerCondition::Dc, None);
    let before = ctl.settings;
    assert_eq!(ctl.handle(PowerCondition::Ac, None), Err(ControllerError::Hardware));
    assert_eq!(ctl.settings, before);
    // The failed event leaves the history untouched.
    assert_eq!(ctl.previous_condition, PowerCondition::Dc);
}

#[test]
fn closed_scheduler_channel_is_reported_and_leaves_history_untouched() {
    let (tx, rx) = mpsc::unbounded_channel();
    let mut ctl = TransitionController::new(tx, Settings::default());
    drop(rx);
    assert_eq!(ctl.handle(PowerCondition::Ac, None), Ok(None));
    assert_eq!(
        ctl.submit_and_commit(PowerCondition::Ac),
        Err(ControllerError::SchedulerUnavailable)
    );
    assert_eq!(ctl.previous_condition, PowerCondition::Unknown);
}

#[test]
fn other_condition_submits_nothing_but_moves_history() {
    let (mut ctl, mut rx) = fresh_controller();
    assert_eq!(ctl.handle(PowerCondition::Other, None), Ok(None));
    assert_eq!(ctl.submit_and_commit(PowerCondition::Other), Ok(()));
    assert_eq!(ctl.previous_condition, PowerCondition::Other);
    assert!(rx.try_recv().is_err());

    // An AC/DC pair separated by Other is no crossing: no snapshot.
    drive(&mut ctl, PowerCondition::Dc, None);
    drive(&mut ctl, PowerCondition::Other, None);
    assert!(!ctl.snapshot_due(PowerCondition::Ac));
}

#[test]
fn previous_condition_tracks_each_handled_event() {
    let (mut ctl, _rx) = fresh_controller();
    let events = [
        PowerCondition::Ac,
        PowerCondition::Other,
        PowerCondition::Dc,
        PowerCondition::Dc,
        PowerCondition::Ac,
    ];
    for &e in events.iter() {
        let due = ctl.snapshot_due(e);
        ctl.handle(e, if due { Some(55) } else { None }).expect("handle");
        ctl.submit_and_commit(e).expect("submit_and_commit");
        assert_eq!(ctl.previous_condition, e);
    }
}

#[test]
fn submission_for_actionable_conditions_only() {
    assert_eq!(
        submission_for(PowerCondition::Ac),
        Some((
            Command::ApplyBrightness { for_condition: PowerCondition::Ac },
            DEBOUNCE_DELAY_MS
        ))
    );
    assert_eq!(
        submission_for(PowerCondition::Dc),
        Some((
            Command::ApplyBrightness { for_condition: PowerCondition::Dc },
            DEBOUNCE_DELAY_MS
        ))
    );
    assert_eq!(submission_for(PowerCondition::Other), None);
    assert_eq!(submission_for(PowerCondition::Unknown), None);
}

#[test]
fn error_descriptions_name_each_failure() {
    assert_eq!(ControllerError::Hardware.describe(), "hardware access failed");
    assert_eq!(ControllerError::Persistence.describe(), "settings persistence failed");
    assert_eq!(ControllerError::SchedulerUnavailable.describe(), "scheduler unavailable");
    assert_eq!(ControllerError::ActionFailure.describe(), "scheduled action failed");
}
