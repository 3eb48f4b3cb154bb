use dapr::durabletask::history::{
    action_list_summary, from_runtime_string, get_action_type_name, get_event_history_name,
    get_task_id, history_list_summary, to_runtime_status_string,
};
use dapr::durabletask::proto::{
    EventType, ExecutionStartedEvent, HistoryEvent, OrchestrationStatus, OrchestratorAction,
    OrchestratorActionType, ParentInstanceInfo, ScheduleTaskAction, SubOrchestrationInstanceCompletedEvent,
    TaskFailureDetails, TimerFiredEvent,
};
use dapr::durabletask::time::Timestamp;

#[test]
fn task_events_read_back_their_payload() {
    let done = HistoryEvent::new_task_completed_event(7, Some("\"ok\"".to_string()));
    assert_eq!(done.event_id, -1);
    assert_eq!(done.timestamp.unwrap().nanos, 0);
    let payload = done.clone().get_task_completed().expect("completed payload");
    assert_eq!(payload.task_scheduled_id, 7);
    assert_eq!(payload.result.as_deref(), Some("\"ok\""));
    assert!(done.clone().get_task_failed().is_none());
    assert_eq!(get_task_id(done), 7);

    let details = TaskFailureDetails::new("Error".to_string(), "boom".to_string(), true);
    assert_eq!(details.stack_trace, None);
    assert!(details.inner_failure.is_none());
    assert!(details.is_non_retriable);
    let failed = HistoryEvent::new_task_failed_event(3, Some(details.clone()));
    let payload = failed.clone().get_task_failed().expect("failed payload");
    assert_eq!(payload.failure_details, Some(details));
    assert_eq!(get_task_id(failed), 3);
}

#[test]
fn timer_events_carry_their_firing_time() {
    let at = Timestamp { seconds: 60, nanos: 5 };
    let created = HistoryEvent::new_timer_created_event(4, Some(at));
    assert_eq!(created.event_id, 4);
    assert_eq!(get_event_history_name(&created), "TimerCreated");
    let fired = HistoryEvent::new_timer_fired_event(4, Some(at));
    assert_eq!(fired.clone().get_timer_fired(), Some(TimerFiredEvent { fire_at: Some(at), timer_id: 4 }));
    assert_eq!(get_task_id(fired), 4);
}

#[test]
fn execution_started_event_has_a_fresh_execution_id() {
    let parent = ParentInstanceInfo::new_parent_info(2, "parent".to_string(), "p-1".to_string());
    assert_eq!(parent.version, None);
    let e = HistoryEvent::new_execution_started_event(
        "orch".to_string(),
        "inst-1".to_string(),
        Some("42".to_string()),
        Some(parent.clone()),
        None,
        None,
    );
    let started: ExecutionStartedEvent = e.clone().get_execution_started().expect("started");
    assert_eq!(started.name, "orch");
    assert_eq!(started.input.as_deref(), Some("42"));
    assert_eq!(started.parent_instance, Some(parent));
    let instance = started.orchestration_instance.expect("instance");
    assert_eq!(instance.instance_id, "inst-1");
    let exec = instance.execution_id.expect("execution id");
    assert_eq!(exec.len(), 36);
    assert_eq!(exec.chars().filter(|c| *c == '-').count(), 4);
    // Its own id is -1, so the task it belongs to is its parent's.
    assert_eq!(get_task_id(e), 2);
}

#[test]
fn suspend_and_resume_record_empty_reasons_as_none() {
    let e = HistoryEvent::new_suspend_orchestration_event(String::new());
    match e.event_type {
        Some(EventType::ExecutionSuspended(s)) => assert_eq!(s.input, None),
        other => panic!("unexpected {other:?}"),
    }
    let e = HistoryEvent::new_resume_orchestration_event("maintenance".to_string());
    match e.event_type {
        Some(EventType::ExecutionResumed(s)) => assert_eq!(s.input.as_deref(), Some("maintenance")),
        other => panic!("unexpected {other:?}"),
    }
}

#[test]
fn event_and_action_names() {
    let e = HistoryEvent::new_orchestrator_started_event();
    assert_eq!(get_event_history_name(&e), "OrchestratorStarted");
    assert_eq!(get_event_history_name(&HistoryEvent::default()), "");
    let a = OrchestratorAction::new_schedule_task_action(1, "act".to_string(), None);
    assert_eq!(get_action_type_name(&a), "ScheduleTask");
    assert_eq!(get_action_type_name(&OrchestratorAction::default()), "");
    let t = OrchestratorAction::new_create_timer_action(2, Timestamp { seconds: 1, nanos: 0 });
    assert_eq!(get_action_type_name(&t), "CreateTimer");
    let s = OrchestratorAction::new_send_event_action("i".to_string(), "n".to_string(), None);
    assert_eq!(s.id, -1);
    assert_eq!(get_action_type_name(&s), "SendEvent");
}

#[test]
fn schedule_task_action_fields() {
    let a = OrchestratorAction::new_schedule_task_action(5, "act".to_string(), Some("in".to_string()));
    assert_eq!(
        a,
        OrchestratorAction {
            id: 5,
            orchestrator_action_type: Some(OrchestratorActionType::ScheduleTask(ScheduleTaskAction {
                name: "act".to_string(),
                version: None,
                input: Some("in".to_string()),
            })),
        }
    );
}

#[test]
fn task_id_falls_back_to_minus_one() {
    let e = HistoryEvent::new_event_raised_event("ev".to_string(), None);
    assert_eq!(get_task_id(e), -1);
    let e = HistoryEvent {
        event_id: -1,
        timestamp: None,
        event_type: Some(EventType::SubOrchestrationInstanceCompleted(
            SubOrchestrationInstanceCompletedEvent { task_scheduled_id: 9, result: None },
        )),
    };
    assert_eq!(get_task_id(e), 9);
    let e = HistoryEvent::new_task_scheduled_event(12, "a".to_string(), None, None, None);
    assert_eq!(get_task_id(e), 12);
}

#[test]
fn history_summary_lists_names_and_positive_task_ids() {
    let list = vec![
        HistoryEvent::new_orchestrator_started_event(),
        HistoryEvent::new_task_scheduled_event(1, "a".to_string(), None, None, None),
        HistoryEvent::new_task_completed_event(1, None),
        HistoryEvent::new_task_scheduled_event(0, "b".to_string(), None, None, None),
    ];
    assert_eq!(
        history_list_summary(list),
        "[OrchestratorStarted, TaskScheduled#1, TaskCompleted#1, TaskScheduled]"
    );
    assert_eq!(history_list_summary(Vec::new()), "[]");
}

#[test]
fn history_summary_shows_only_the_first_ten() {
    let list: Vec<HistoryEvent> = (1..=12)
        .map(|i| HistoryEvent::new_task_scheduled_event(i, "a".to_string(), None, None, None))
        .collect();
    let expected = format!(
        "[{}]",
        (1..=10).map(|i| format!("TaskScheduled#{i}")).collect::<Vec<_>>().join(", ")
    );
    assert_eq!(history_list_summary(list.clone()), expected);
    assert_eq!(history_list_summary(list[..10].to_vec()), expected);
}

#[test]
fn action_summary_lists_names_and_ids() {
    let actions = vec![
        OrchestratorAction::new_schedule_task_action(0, "a".to_string(), None),
        OrchestratorAction::new_send_event_action("i".to_string(), "n".to_string(), None),
        OrchestratorAction::new_terminate_orchestration_action(3, "i".to_string(), true, None),
    ];
    assert_eq!(
        action_list_summary(actions),
        "[ScheduleTask#0, SendEvent#-1, TerminateOrchestration#3]"
    );
    let many: Vec<OrchestratorAction> = (0..11)
        .map(|i| OrchestratorAction::new_create_timer_action(i, Timestamp::default()))
        .collect();
    let s = action_list_summary(many);
    assert!(s.ends_with("CreateTimer#9]"));
    assert!(!s.contains("#10"));
}

#[test]
fn runtime_status_strings() {
    assert_eq!(to_runtime_status_string(&OrchestrationStatus::Running), "RUNNING");
    assert_eq!(
        to_runtime_status_string(&OrchestrationStatus::ContinuedAsNew),
        "CONTINUED_AS_NEW"
    );
    assert_eq!(
        from_runtime_string("ORCHESTRATION_STATUS_FAILED"),
        Some(OrchestrationStatus::Failed)
    );
    assert_eq!(from_runtime_string("FAILED"), None);
    for s in [OrchestrationStatus::Pending, OrchestrationStatus::Suspended] {
        assert_eq!(from_runtime_string(s.as_str_name()), Some(s));
        assert_eq!(from_runtime_string(&to_runtime_status_string(&s)), None);
    }
}

#[test]
fn complete_action_carries_its_parts() {
    let carry = vec![HistoryEvent::new_event_raised_event("x".to_string(), None)];
    let a = OrchestratorAction::new_complete_orchestration_action(
        8,
        1,
        Some("r".to_string()),
        carry.clone(),
        None,
    );
    match a.orchestrator_action_type {
        Some(OrchestratorActionType::CompleteOrchestration(c)) => {
            assert_eq!(c.orchestration_status, 1);
            assert_eq!(c.result.as_deref(), Some("r"));
            assert_eq!(c.carryover_events, carry);
            assert_eq!(c.details, None);
            assert_eq!(c.new_version, None);
        }
        other => panic!("unexpected {other:?}"),
    }
}
