use telemetry::{
    Admission, BuildProfile, ClickhouseEvent, ClickhouseEventWrapper, Telemetry, TelemetrySettings,
};

const ON: TelemetrySettings = TelemetrySettings { metrics: true };
const OFF: TelemetrySettings = TelemetrySettings { metrics: false };

fn editor(operation: &'static str) -> ClickhouseEvent {
    ClickhouseEvent::Editor {
        operation,
        file_extension: Some("rs".to_string()),
        vim_mode: false,
        copilot_enabled: true,
        copilot_enabled_for_language: false,
    }
}

fn copilot(id: &str, accepted: bool) -> ClickhouseEvent {
    ClickhouseEvent::Copilot {
        suggestion_id: Some(id.to_string()),
        suggestion_accepted: accepted,
        file_extension: None,
    }
}

fn queued(signed_in: bool, event: ClickhouseEvent) -> ClickhouseEventWrapper {
    ClickhouseEventWrapper { signed_in, event }
}

fn production() -> Telemetry {
    Telemetry::new(
        "macos",
        Some("13.4".to_string()),
        "aarch64",
        Some("0.92.1".to_string()),
        Some("Stable"),
        BuildProfile::Production,
    )
}

fn development() -> Telemetry {
    Telemetry::new("linux", None, "x86_64", None, None, BuildProfile::Development)
}

#[test]
fn new_container_is_empty_and_anonymous() {
    let telemetry = production();
    assert!(telemetry.queued_events().is_empty());
    assert_eq!(telemetry.flush_armed_at(), None);
    assert_eq!(telemetry.metrics_id(), None);
    assert_eq!(telemetry.installation_id(), None);
    assert_eq!(telemetry.is_staff(), None);
    assert_eq!(telemetry.log_file_path(), None);
    assert_eq!(telemetry.profile(), BuildProfile::Production);
}

#[test]
fn profiles_fix_both_knobs() {
    assert_eq!(BuildProfile::Development.max_queue_len(), 1);
    assert_eq!(BuildProfile::Development.debounce_secs(), 1);
    assert_eq!(BuildProfile::Production.max_queue_len(), 10);
    assert_eq!(BuildProfile::Production.debounce_secs(), 30);
}

#[test]
fn events_wait_in_order_while_no_installation_id_is_known() {
    let mut telemetry = production();
    for n in 0..25u64 {
        let admission = telemetry.report_clickhouse_event(copilot(&n.to_string(), true), ON, n);
        assert_eq!(admission, Admission::Held);
    }
    assert_eq!(telemetry.queued_events().len(), 25);
    assert_eq!(telemetry.flush_armed_at(), None);
    for n in 0..25u64 {
        assert_eq!(
            telemetry.queued_events()[n as usize],
            queued(false, copilot(&n.to_string(), true))
        );
    }
}

#[test]
fn signed_in_flag_is_taken_at_admission() {
    let mut telemetry = production();
    telemetry.report_clickhouse_event(editor("open"), ON, 0);
    telemetry.set_authenticated_user_info(Some("user-1".to_string()), true, ON);
    telemetry.report_clickhouse_event(editor("save"), ON, 1);
    telemetry.set_authenticated_user_info(None, false, ON);
    telemetry.report_clickhouse_event(editor("close"), ON, 2);
    // Signing in afterwards does not touch what already waits.
    telemetry.set_authenticated_user_info(Some("user-2".to_string()), false, ON);
    assert_eq!(
        telemetry.queued_events(),
        &vec![
            queued(false, editor("open")),
            queued(true, editor("save")),
            queued(false, editor("close")),
        ]
    );
}

#[test]
fn disabled_admission_changes_nothing() {
    let mut telemetry = production();
    assert_eq!(telemetry.report_clickhouse_event(editor("open"), OFF, 0), Admission::Discarded);
    assert_eq!(telemetry.queued_events().len(), 0);

    telemetry.start(Some("install-1".to_string()));
    telemetry.report_clickhouse_event(editor("open"), ON, 5);
    assert_eq!(telemetry.queued_events().len(), 1);
    assert_eq!(telemetry.flush_armed_at(), Some(5));

    assert_eq!(telemetry.report_clickhouse_event(editor("save"), OFF, 9), Admission::Discarded);
    assert_eq!(telemetry.queued_events(), &vec![queued(false, editor("open"))]);
    assert_eq!(telemetry.flush_armed_at(), Some(5));
}

#[test]
fn reaching_the_limit_flushes_at_once() {
    let mut telemetry = production();
    assert_eq!(telemetry.start(Some("install-1".to_string())), None);
    for n in 0..9u64 {
        let admission = telemetry.report_clickhouse_event(copilot(&n.to_string(), false), ON, n);
        assert_eq!(admission, Admission::Debounced { delay_secs: 30 });
        assert_eq!(telemetry.queued_events().len(), n as usize + 1);
    }
    let admission = telemetry.report_clickhouse_event(copilot("9", false), ON, 9);
    let expected: Vec<ClickhouseEventWrapper> =
        (0..10u64).map(|n| queued(false, copilot(&n.to_string(), false))).collect();
    assert_eq!(admission, Admission::Flushed { batch: expected });
    assert_eq!(telemetry.queued_events().len(), 0);
    assert_eq!(telemetry.flush_armed_at(), None);
    // The timer armed by the ninth admission finds nothing to do.
    assert_eq!(telemetry.debounce_elapsed(38), None);
}

#[test]
fn development_profile_flushes_every_event() {
    let mut telemetry = development();
    telemetry.start(Some("install-1".to_string()));
    assert_eq!(
        telemetry.report_clickhouse_event(editor("open"), ON, 0),
        Admission::Flushed { batch: vec![queued(false, editor("open"))] }
    );
    assert_eq!(
        telemetry.report_clickhouse_event(editor("save"), ON, 0),
        Admission::Flushed { batch: vec![queued(false, editor("save"))] }
    );
    assert!(telemetry.queued_events().is_empty());
    assert_eq!(telemetry.flush_armed_at(), None);
}

#[test]
fn a_queue_past_the_limit_is_flushed_whole_by_the_start_signal() {
    let mut telemetry = production();
    for n in 0..12u64 {
        telemetry.report_clickhouse_event(copilot(&n.to_string(), true), ON, n);
    }
    // The queue grew past the limit while no id was known; the start signal
    // takes all of it.
    let flushed = telemetry.start(Some("install-1".to_string()));
    assert_eq!(flushed.map(|batch| batch.len()), Some(12));
    assert!(telemetry.queued_events().is_empty());
}

#[test]
fn user_info_is_ignored_while_metrics_are_off() {
    let mut telemetry = production();
    telemetry.set_authenticated_user_info(Some("user-1".to_string()), true, OFF);
    assert_eq!(telemetry.metrics_id(), None);
    assert_eq!(telemetry.is_staff(), None);
    telemetry.set_authenticated_user_info(Some("user-1".to_string()), true, ON);
    assert_eq!(telemetry.metrics_id(), Some("user-1".to_string()));
    assert_eq!(telemetry.is_staff(), Some(true));
    telemetry.set_authenticated_user_info(None, false, OFF);
    assert_eq!(telemetry.metrics_id(), Some("user-1".to_string()));
    assert_eq!(telemetry.is_staff(), Some(true));
    telemetry.set_authenticated_user_info(None, false, ON);
    assert_eq!(telemetry.metrics_id(), None);
    assert_eq!(telemetry.is_staff(), Some(false));
}

fn assert_well_formed(telemetry: &Telemetry) {
    let id_known = telemetry.installation_id().is_some();
    let waiting = telemetry.queued_events().len();
    assert_eq!(telemetry.flush_armed_at().is_some(), id_known && waiting > 0);
    if id_known {
        assert!(waiting < telemetry.profile().max_queue_len());
    }
}

#[test]
fn timer_is_pending_exactly_while_events_can_be_sent() {
    for profile in [BuildProfile::Development, BuildProfile::Production] {
        let mut telemetry = Telemetry::new("linux", None, "x86_64", None, None, profile);
        assert_well_formed(&telemetry);
        let mut now = 0u64;
        for round in 0..200u64 {
            now += round % 7;
            match round % 11 {
                0 => {
                    telemetry.start(if round % 3 == 0 { None } else { Some("install-1".to_string()) });
                }
                1 => {
                    telemetry.debounce_elapsed(now);
                }
                2 => {
                    telemetry.set_authenticated_user_info(Some("user-1".to_string()), false, ON);
                }
                3 => {
                    telemetry.report_clickhouse_event(editor("skipped"), OFF, now);
                }
                4 => {
                    telemetry.flush_clickhouse_events();
                }
                _ => {
                    telemetry.report_clickhouse_event(editor("typed"), ON, now);
                }
            }
            assert_well_formed(&telemetry);
        }
    }
}
