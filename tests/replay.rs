use wf_machines::error::{ErrorKind, WFMachinesError};
use wf_machines::event::{EventAttributes, EventType, HistoryEvent};
use wf_machines::history::HistoryUpdate;
use wf_machines::protocol::{
    CommandType, ExternalTarget, Job, NamespacedWorkflowExecution, Outcome, WFCommand,
};
use wf_machines::workflow_machines::{str_to_randomness_seed, WorkflowMachines};

fn ev(id: i64, t: EventType, related: i64, time: Option<u64>) -> HistoryEvent {
    HistoryEvent {
        event_id: id,
        event_type: t,
        event_time: time,
        related_event_id: related,
        attributes: EventAttributes::NoAttributes,
    }
}

fn started(id: i64, run_id: &str) -> HistoryEvent {
    HistoryEvent {
        event_id: id,
        event_type: EventType::WorkflowExecutionStarted,
        event_time: Some(1_000),
        related_event_id: 0,
        attributes: EventAttributes::WorkflowExecutionStarted {
            workflow_type: "greet".to_string(),
            original_execution_run_id: run_id.to_string(),
            input: vec![vec![1, 2, 3]],
            header: vec![("trace".to_string(), vec![9])],
        },
    }
}

fn marker(id: i64, patch_id: &str, deprecated: bool) -> HistoryEvent {
    HistoryEvent {
        event_id: id,
        event_type: EventType::MarkerRecorded,
        event_time: None,
        related_event_id: 0,
        attributes: EventAttributes::PatchMarker { patch_id: patch_id.to_string(), deprecated },
    }
}

/// WFStarted, WFTScheduled, WFTStarted, WFTCompleted, TimerStarted, TimerFired,
/// WFTScheduled, WFTStarted.
fn timer_history() -> Vec<HistoryEvent> {
    vec![
        started(1, "R1"),
        ev(2, EventType::WorkflowTaskScheduled, 0, None),
        ev(3, EventType::WorkflowTaskStarted, 2, Some(2_000)),
        ev(4, EventType::WorkflowTaskCompleted, 2, None),
        ev(5, EventType::TimerStarted, 0, None),
        ev(6, EventType::TimerFired, 5, None),
        ev(7, EventType::WorkflowTaskScheduled, 0, None),
        ev(8, EventType::WorkflowTaskStarted, 7, Some(3_000)),
    ]
}

fn machines(events: Vec<HistoryEvent>, previous_started: i64) -> WorkflowMachines {
    WorkflowMachines::new(
        "ns".to_string(),
        "wf-1".to_string(),
        "R1".to_string(),
        HistoryUpdate::new(events, previous_started),
    )
}

fn kind_of(r: Result<(), WFMachinesError>) -> Option<ErrorKind> {
    match r {
        Ok(()) => None,
        Err(e) => Some(e.kind()),
    }
}

#[test]
fn happy_path_timer() {
    let mut wm = machines(timer_history(), 0);
    wm.apply_next_wft_from_history().unwrap();
    assert_eq!(wm.current_started_event_id, 3);
    let act = wm.get_wf_activation();
    assert_eq!(act.jobs.len(), 1);
    match &act.jobs[0] {
        Job::StartWorkflow { workflow_type, workflow_id, arguments, randomness_seed, headers } => {
            assert_eq!(workflow_type, "greet");
            assert_eq!(workflow_id, "wf-1");
            assert_eq!(arguments, &vec![vec![1u8, 2, 3]]);
            assert_eq!(*randomness_seed, str_to_randomness_seed("R1"));
            assert_eq!(headers, &vec![("trace".to_string(), vec![9u8])]);
        }
        other => panic!("unexpected job {:?}", other),
    }
    let has_new = wm.iterate_machines(vec![WFCommand::AddTimer { seq: 1 }], 10).unwrap();
    assert!(!has_new);
    let cmds = wm.get_commands();
    assert_eq!(cmds.len(), 1);
    assert_eq!(cmds[0].command_type, CommandType::StartTimer);
    assert_eq!(cmds[0].seq, 1);
    wm.apply_next_wft_from_history().unwrap();
    let act = wm.get_wf_activation();
    assert_eq!(act.jobs, vec![Job::FireTimer { seq: 1 }]);
    assert!(wm.get_commands().is_empty());
    assert_eq!(wm.current_started_event_id, 8);
    assert_eq!(act.timestamp, Some(3_000));
}

#[test]
fn missing_timer_command_is_nondeterminism() {
    let mut wm = machines(timer_history(), 0);
    wm.apply_next_wft_from_history().unwrap();
    wm.iterate_machines(vec![WFCommand::NoCommandsFromLang], 10).unwrap();
    let r = wm.apply_next_wft_from_history();
    assert_eq!(kind_of(r), Some(ErrorKind::Nondeterminism));
}

#[test]
fn partial_history_without_state_is_cache_miss() {
    let events = vec![
        ev(7, EventType::WorkflowTaskScheduled, 0, None),
        ev(8, EventType::WorkflowTaskStarted, 7, Some(3_000)),
    ];
    let mut wm = machines(events, 0);
    let r = wm.apply_next_wft_from_history();
    assert_eq!(kind_of(r), Some(ErrorKind::CacheMiss));
}

fn deprecated_marker_history() -> Vec<HistoryEvent> {
    vec![
        started(1, "R1"),
        ev(2, EventType::WorkflowTaskScheduled, 0, None),
        ev(3, EventType::WorkflowTaskStarted, 2, Some(2_000)),
        ev(4, EventType::WorkflowTaskCompleted, 2, None),
        marker(5, "P", true),
        ev(6, EventType::TimerStarted, 0, None),
        ev(7, EventType::TimerFired, 6, None),
        ev(8, EventType::WorkflowTaskScheduled, 0, None),
        ev(9, EventType::WorkflowTaskStarted, 8, Some(3_000)),
    ]
}

#[test]
fn deprecated_patch_marker_is_skipped() {
    let mut wm = machines(deprecated_marker_history(), 0);
    wm.apply_next_wft_from_history().unwrap();
    wm.get_wf_activation();
    wm.iterate_machines(vec![WFCommand::AddTimer { seq: 1 }], 10).unwrap();
    let cmds = wm.get_commands();
    assert!(cmds.iter().all(|c| c.command_type != CommandType::RecordMarker));
    wm.apply_next_wft_from_history().unwrap();
    assert_eq!(wm.get_wf_activation().jobs, vec![Job::FireTimer { seq: 1 }]);
    assert_eq!(wm.current_started_event_id, 9);
    assert!(wm.get_commands().is_empty());
}

#[test]
fn pre_resolved_patch_is_announced_once() {
    let events = vec![
        started(1, "R1"),
        ev(2, EventType::WorkflowTaskScheduled, 0, None),
        ev(3, EventType::WorkflowTaskStarted, 2, Some(2_000)),
        ev(4, EventType::WorkflowTaskCompleted, 2, None),
        marker(5, "P", false),
        ev(6, EventType::WorkflowTaskScheduled, 0, None),
        ev(7, EventType::WorkflowTaskStarted, 6, Some(3_000)),
    ];
    let mut wm = machines(events, 0);
    wm.apply_next_wft_from_history().unwrap();
    let act = wm.get_wf_activation();
    assert_eq!(act.jobs.len(), 2);
    assert_eq!(act.jobs[1], Job::NotifyHasPatch { patch_id: "P".to_string() });
    let info = wm.find_change_info(&"P".to_string()).unwrap();
    assert!(!info.deprecated);
    assert!(!info.created_command);
    let set = WFCommand::SetPatchMarker { patch_id: "P".to_string(), deprecated: false };
    wm.iterate_machines(vec![set.clone(), set.clone()], 10).unwrap();
    wm.iterate_machines(vec![set], 11).unwrap();
    let markers: Vec<_> = wm
        .get_commands()
        .into_iter()
        .filter(|c| c.command_type == CommandType::RecordMarker)
        .collect();
    assert_eq!(markers.len(), 1);
    assert_eq!(markers[0].name, "P");
    assert!(wm.find_change_info(&"P".to_string()).unwrap().created_command);
    wm.apply_next_wft_from_history().unwrap();
    assert_eq!(wm.current_started_event_id, 7);
}

#[test]
fn cancel_before_send_yields_one_job_and_no_command() {
    let mut wm = machines(timer_history(), 0);
    wm.apply_next_wft_from_history().unwrap();
    wm.get_wf_activation();
    let has_new = wm
        .iterate_machines(
            vec![WFCommand::AddTimer { seq: 1 }, WFCommand::CancelTimer { seq: 1 }],
            10,
        )
        .unwrap();
    assert!(has_new);
    assert!(wm.get_commands().is_empty());
    assert_eq!(wm.get_wf_activation().jobs, vec![Job::TimerCancelled { seq: 1 }]);
}

#[test]
fn started_id_follows_last_task_started_event() {
    let mut wm = machines(timer_history(), 0);
    wm.apply_next_wft_from_history().unwrap();
    assert_eq!(wm.current_started_event_id, 3);
    assert_eq!(wm.next_started_event_id, 3);
}

#[test]
fn workflow_time_never_goes_back() {
    let events = vec![
        started(1, "R1"),
        ev(2, EventType::WorkflowTaskScheduled, 0, None),
        ev(3, EventType::WorkflowTaskStarted, 2, Some(5_000)),
        ev(4, EventType::WorkflowTaskCompleted, 2, None),
        ev(5, EventType::WorkflowTaskScheduled, 0, None),
        ev(6, EventType::WorkflowTaskStarted, 5, Some(4_000)),
    ];
    let mut wm = machines(events, 0);
    wm.apply_next_wft_from_history().unwrap();
    assert_eq!(wm.current_wf_time, Some(5_000));
    wm.iterate_machines(vec![], 10).unwrap();
    wm.apply_next_wft_from_history().unwrap();
    assert_eq!(wm.current_wf_time, Some(5_000));
    assert_eq!(wm.set_current_time(7_000), 7_000);
    assert_eq!(wm.set_current_time(6_000), 7_000);
}

#[test]
fn replay_ends_after_previous_started_task() {
    let mut wm = machines(timer_history(), 3);
    assert!(wm.replaying);
    wm.apply_next_wft_from_history().unwrap();
    assert!(wm.replaying);
    assert!(wm.get_wf_activation().is_replaying);
    wm.iterate_machines(vec![WFCommand::AddTimer { seq: 1 }], 10).unwrap();
    wm.apply_next_wft_from_history().unwrap();
    assert!(!wm.replaying);
    wm.apply_next_wft_from_history().unwrap();
    assert!(!wm.replaying);
}

#[test]
fn empty_history_ends_replay() {
    let mut wm = machines(vec![], 5);
    assert!(wm.replaying);
    wm.apply_next_wft_from_history().unwrap();
    assert!(!wm.replaying);
}

#[test]
fn finished_workflow_lists_only_live_commands() {
    let mut wm = machines(timer_history(), 0);
    wm.apply_next_wft_from_history().unwrap();
    wm.iterate_machines(
        vec![
            WFCommand::AddTimer { seq: 1 },
            WFCommand::CancelTimer { seq: 1 },
            WFCommand::CompleteWorkflow,
        ],
        5_000,
    )
    .unwrap();
    assert!(wm.workflow_is_finished());
    let cmds = wm.get_commands();
    assert_eq!(cmds.len(), 1);
    assert_eq!(cmds[0].command_type, CommandType::CompleteWorkflowExecution);
    assert_eq!(wm.total_runtime(), Some(4_000));
}

#[test]
fn total_runtime_needs_both_times() {
    let wm = machines(timer_history(), 0);
    assert_eq!(wm.total_runtime(), None);
    assert!(!wm.workflow_is_finished());
}

#[test]
fn query_response_is_fatal() {
    let mut wm = machines(timer_history(), 0);
    wm.apply_next_wft_from_history().unwrap();
    let r = wm.iterate_machines(vec![WFCommand::QueryResponse], 10);
    assert_eq!(r.map_err(|e| e.kind()), Err(ErrorKind::Fatal));
}

#[test]
fn cancelling_unknown_operation_is_fatal() {
    let mut wm = machines(timer_history(), 0);
    wm.apply_next_wft_from_history().unwrap();
    let r = wm.iterate_machines(vec![WFCommand::RequestCancelActivity { seq: 9 }], 10);
    assert_eq!(r.map_err(|e| e.kind()), Err(ErrorKind::Fatal));
}

#[test]
fn external_command_without_target_is_fatal() {
    let mut wm = machines(timer_history(), 0);
    wm.apply_next_wft_from_history().unwrap();
    let r = wm.iterate_machines(
        vec![WFCommand::RequestCancelExternalWorkflow { seq: 1, target: None }],
        10,
    );
    assert_eq!(r.map_err(|e| e.kind()), Err(ErrorKind::Fatal));
}

#[test]
fn child_target_takes_this_namespace() {
    let mut wm = machines(timer_history(), 0);
    wm.apply_next_wft_from_history().unwrap();
    wm.iterate_machines(
        vec![
            WFCommand::SignalExternalWorkflow {
                seq: 1,
                signal_name: "go".to_string(),
                target: Some(ExternalTarget::ChildWorkflowId("kid".to_string())),
            },
            WFCommand::RequestCancelExternalWorkflow {
                seq: 2,
                target: Some(ExternalTarget::WorkflowExecution(NamespacedWorkflowExecution {
                    namespace: "other".to_string(),
                    workflow_id: "w2".to_string(),
                    run_id: "r2".to_string(),
                })),
            },
        ],
        10,
    )
    .unwrap();
    let cmds = wm.get_commands();
    assert_eq!(cmds.len(), 2);
    assert_eq!(cmds[0].command_type, CommandType::SignalExternalWorkflowExecution);
    assert_eq!(cmds[0].name, "go");
    assert!(cmds[0].only_child);
    let t = cmds[0].target.clone().unwrap();
    assert_eq!(t.namespace, "ns");
    assert_eq!(t.workflow_id, "kid");
    assert_eq!(t.run_id, "");
    assert!(!cmds[1].only_child);
    assert_eq!(cmds[1].target.clone().unwrap().namespace, "other");
}

#[test]
fn non_deprecated_marker_without_command_is_nondeterminism() {
    let events = vec![
        started(1, "R1"),
        ev(2, EventType::WorkflowTaskScheduled, 0, None),
        ev(3, EventType::WorkflowTaskStarted, 2, Some(2_000)),
        ev(4, EventType::WorkflowTaskCompleted, 2, None),
        marker(5, "P", false),
        ev(6, EventType::TimerStarted, 0, None),
    ];
    let mut wm = machines(events, 0);
    wm.apply_next_wft_from_history().unwrap();
    wm.iterate_machines(vec![WFCommand::AddTimer { seq: 1 }], 10).unwrap();
    let r = wm.apply_next_wft_from_history();
    assert_eq!(kind_of(r), Some(ErrorKind::Nondeterminism));
}

#[test]
fn unknown_stateless_event_is_fatal() {
    let events = vec![ev(1, EventType::Unspecified, 0, None)];
    let mut wm = machines(events, 0);
    let r = wm.apply_next_wft_from_history();
    assert_eq!(kind_of(r), Some(ErrorKind::Fatal));
}

#[test]
fn event_for_unknown_machine_is_nondeterminism() {
    let events = vec![started(1, "R1"), ev(2, EventType::TimerFired, 42, None)];
    let mut wm = machines(events, 0);
    let r = wm.apply_next_wft_from_history();
    assert_eq!(kind_of(r), Some(ErrorKind::Nondeterminism));
}

#[test]
fn signals_and_cancel_requests_reach_lang() {
    let events = vec![
        started(1, "R1"),
        HistoryEvent {
            event_id: 2,
            event_type: EventType::WorkflowExecutionSignaled,
            event_time: None,
            related_event_id: 0,
            attributes: EventAttributes::WorkflowExecutionSignaled { signal_name: "s".to_string() },
        },
        HistoryEvent {
            event_id: 3,
            event_type: EventType::WorkflowExecutionCancelRequested,
            event_time: None,
            related_event_id: 0,
            attributes: EventAttributes::WorkflowExecutionCancelRequested {
                cause: "c".to_string(),
            },
        },
        ev(4, EventType::WorkflowTaskScheduled, 0, None),
        ev(5, EventType::WorkflowTaskStarted, 4, Some(2_000)),
    ];
    let mut wm = machines(events, 0);
    wm.apply_next_wft_from_history().unwrap();
    let jobs = wm.get_wf_activation().jobs;
    assert_eq!(jobs.len(), 3);
    assert_eq!(jobs[1], Job::SignalWorkflow { signal_name: "s".to_string() });
    assert_eq!(jobs[2], Job::CancelWorkflow { cause: "c".to_string() });
    assert_eq!(wm.run_id, "R1");
    assert_eq!(wm.workflow_start_time, Some(1_000));
}

#[test]
fn terminal_event_stops_further_tasks() {
    let events = vec![
        started(1, "R1"),
        ev(2, EventType::WorkflowTaskScheduled, 0, None),
        ev(3, EventType::WorkflowTaskStarted, 2, Some(2_000)),
        ev(4, EventType::WorkflowTaskCompleted, 2, None),
        ev(5, EventType::WorkflowExecutionCompleted, 0, None),
    ];
    let mut wm = machines(events, 0);
    wm.apply_next_wft_from_history().unwrap();
    wm.iterate_machines(vec![WFCommand::CompleteWorkflow], 9_000).unwrap();
    wm.apply_next_wft_from_history().unwrap();
    assert!(wm.have_seen_terminal_event);
    assert!(wm.get_commands().is_empty());
    wm.apply_next_wft_from_history().unwrap();
    assert_eq!(wm.current_started_event_id, 3);
}

#[test]
fn activity_resolves_through_its_events() {
    let events = vec![
        started(1, "R1"),
        ev(2, EventType::WorkflowTaskScheduled, 0, None),
        ev(3, EventType::WorkflowTaskStarted, 2, Some(2_000)),
        ev(4, EventType::WorkflowTaskCompleted, 2, None),
        ev(5, EventType::ActivityTaskScheduled, 0, None),
        ev(6, EventType::ActivityTaskStarted, 5, None),
        ev(7, EventType::ActivityTaskCompleted, 5, None),
        ev(8, EventType::WorkflowTaskScheduled, 0, None),
        ev(9, EventType::WorkflowTaskStarted, 8, Some(3_000)),
    ];
    let mut wm = machines(events, 0);
    wm.apply_next_wft_from_history().unwrap();
    wm.get_wf_activation();
    wm.iterate_machines(
        vec![WFCommand::AddActivity { seq: 4, activity_id: "a".to_string() }],
        10,
    )
    .unwrap();
    assert_eq!(wm.get_commands()[0].name, "a");
    wm.apply_next_wft_from_history().unwrap();
    assert_eq!(
        wm.get_wf_activation().jobs,
        vec![Job::ResolveActivity { seq: 4, outcome: Outcome::Completed }]
    );
}

#[test]
fn cancelling_sent_timer_issues_cancel_command() {
    let mut wm = machines(timer_history(), 0);
    wm.apply_next_wft_from_history().unwrap();
    wm.iterate_machines(vec![WFCommand::AddTimer { seq: 1 }], 10).unwrap();
    let has_new = wm.iterate_machines(vec![WFCommand::CancelTimer { seq: 1 }], 11).unwrap();
    assert!(!has_new);
    let cmds = wm.get_commands();
    assert_eq!(cmds.len(), 2);
    assert_eq!(cmds[1].command_type, CommandType::CancelTimer);
    assert_eq!(cmds[1].seq, 1);
}

#[test]
fn seed_depends_on_run_id_only() {
    assert_eq!(str_to_randomness_seed("R1"), str_to_randomness_seed("R1"));
    assert_ne!(str_to_randomness_seed("R1"), str_to_randomness_seed("R2"));
}

#[test]
fn error_message_names_cache_miss() {
    assert!(WFMachinesError::CacheMiss.message().contains("no longer cached"));
}

#[test]
fn replay_in_two_pages_matches_one_pass() {
    let mut whole = machines(timer_history(), 0);
    whole.apply_next_wft_from_history().unwrap();
    let first_whole = whole.get_wf_activation().jobs;
    whole.iterate_machines(vec![WFCommand::AddTimer { seq: 1 }], 10).unwrap();
    whole.apply_next_wft_from_history().unwrap();

    let events = timer_history();
    let mut paged = machines(events[..3].to_vec(), 0);
    paged.apply_next_wft_from_history().unwrap();
    let first_paged = paged.get_wf_activation().jobs;
    paged.iterate_machines(vec![WFCommand::AddTimer { seq: 1 }], 10).unwrap();
    paged.new_history_from_server(HistoryUpdate::new(events[3..].to_vec(), 0)).unwrap();

    assert_eq!(first_whole, first_paged);
    assert_eq!(whole.current_started_event_id, paged.current_started_event_id);
    assert_eq!(whole.next_started_event_id, paged.next_started_event_id);
    assert_eq!(whole.current_wf_time, paged.current_wf_time);
    assert_eq!(whole.replaying, paged.replaying);
    assert_eq!(whole.get_commands(), paged.get_commands());
    assert_eq!(whole.get_wf_activation().jobs, paged.get_wf_activation().jobs);
}

#[test]
fn command_events_consume_commands_in_issue_order() {
    let events = vec![
        started(1, "R1"),
        ev(2, EventType::WorkflowTaskScheduled, 0, None),
        ev(3, EventType::WorkflowTaskStarted, 2, Some(2_000)),
        ev(4, EventType::WorkflowTaskCompleted, 2, None),
        ev(5, EventType::TimerStarted, 0, None),
        ev(6, EventType::TimerStarted, 0, None),
        ev(7, EventType::TimerFired, 6, None),
        ev(8, EventType::WorkflowTaskScheduled, 0, None),
        ev(9, EventType::WorkflowTaskStarted, 8, Some(3_000)),
    ];
    let mut wm = machines(events, 0);
    wm.apply_next_wft_from_history().unwrap();
    wm.get_wf_activation();
    wm.iterate_machines(vec![WFCommand::AddTimer { seq: 1 }, WFCommand::AddTimer { seq: 2 }], 10)
        .unwrap();
    wm.apply_next_wft_from_history().unwrap();
    assert_eq!(wm.get_wf_activation().jobs, vec![Job::FireTimer { seq: 2 }]);
    assert!(wm.get_commands().is_empty());
}

#[test]
fn removing_deprecated_marker_keeps_success() {
    let without: Vec<HistoryEvent> = deprecated_marker_history()
        .into_iter()
        .filter(|e| e.event_type != EventType::MarkerRecorded)
        .collect();
    for events in [deprecated_marker_history(), without] {
        let mut wm = machines(events, 0);
        wm.apply_next_wft_from_history().unwrap();
        wm.iterate_machines(vec![WFCommand::AddTimer { seq: 1 }], 10).unwrap();
        wm.apply_next_wft_from_history().unwrap();
        assert_eq!(wm.current_started_event_id, 9);
    }
}

#[test]
fn version_command_without_marker_is_passed_over() {
    let mut wm = machines(timer_history(), 0);
    wm.apply_next_wft_from_history().unwrap();
    wm.get_wf_activation();
    wm.iterate_machines(
        vec![
            WFCommand::SetPatchMarker { patch_id: "Q".to_string(), deprecated: true },
            WFCommand::AddTimer { seq: 1 },
        ],
        10,
    )
    .unwrap();
    assert_eq!(wm.get_commands().len(), 2);
    wm.apply_next_wft_from_history().unwrap();
    assert_eq!(wm.get_wf_activation().jobs, vec![Job::FireTimer { seq: 1 }]);
    assert!(wm.get_commands().is_empty());
}
