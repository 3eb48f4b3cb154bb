//! Building, naming and summarizing history events and orchestrator actions.

use vstd::prelude::*;

use crate::durabletask::proto::{
    CompleteOrchestrationAction, CreateSubOrchestrationAction, CreateTimerAction, EventRaisedEvent,
    EventSentEvent, EventType, ExecutionCompletedEvent, ExecutionResumedEvent,
    ExecutionStartedEvent, ExecutionSuspendedEvent, ExecutionTerminatedEvent, HistoryEvent,
    OrchestrationInstance, OrchestrationStatus, OrchestratorAction, OrchestratorActionType,
    OrchestratorStartedEvent, ParentInstanceInfo, ScheduleTaskAction, SendEventAction,
    SubOrchestrationInstanceCompletedEvent, SubOrchestrationInstanceCreatedEvent,
    SubOrchestrationInstanceFailedEvent, TaskCompletedEvent, TaskFailedEvent, TaskFailureDetails,
    TaskScheduledEvent, TerminateOrchestrationAction, TimerCreatedEvent, TimerFiredEvent,
    TraceContext, orchestration_status_name, orchestration_status_from_name,
    lemma_orchestration_status_name_round_trip,
};
use crate::durabletask::time::{now, Timestamp};
use crate::text::{append_i64, int_text};

verus! {

/// A fresh random (version 4) UUID in its hyphenated text form, from
/// `uuid::Uuid::new_v4`. The text is 36 characters long with hyphens at
/// positions 8, 13, 18 and 23; which UUID comes back is left to chance.
#[verifier::external_body]
pub(crate) fn new_uuid_v4() -> (r: String)
    ensures
        is_uuid_text(r@),
{
    uuid::Uuid::new_v4().to_string()
}

/// Whether `s` has the shape of a hyphenated UUID: 36 characters with
/// hyphens at positions 8, 13, 18 and 23.
pub open spec fn is_uuid_text(s: Seq<char>) -> bool {
    &&& s.len() == 36
    &&& s[8] == '-' && s[13] == '-' && s[18] == '-' && s[23] == '-'
}

/// An event stamped with the current time: its id and kind are as given
/// and its timestamp holds whole seconds.
pub open spec fn stamped(r: HistoryEvent, event_id: int, event_type: EventType) -> bool {
    &&& r.event_id == event_id
    &&& r.event_type == Some(event_type)
    &&& r.timestamp matches Some(t) && t.nanos == 0
}

fn stamp(event_id: i32, event_type: EventType) -> (r: HistoryEvent)
    ensures
        stamped(r, event_id as int, event_type),
{
    HistoryEvent { event_id, timestamp: Some(now()), event_type: Some(event_type) }
}

/// Text of an optional reason: `None` for the empty string.
pub open spec fn reason_input(reason: String) -> Option<String> {
    if reason@.len() == 0 {
        None
    } else {
        Some(reason)
    }
}

impl HistoryEvent {
    /// The payload of a task-completed event.
    pub open spec fn spec_task_completed(self) -> Option<TaskCompletedEvent> {
        match self.event_type {
            Some(EventType::TaskCompleted(t)) => Some(t),
            _ => None,
        }
    }

    /// The payload of a task-failed event.
    pub open spec fn spec_task_failed(self) -> Option<TaskFailedEvent> {
        match self.event_type {
            Some(EventType::TaskFailed(t)) => Some(t),
            _ => None,
        }
    }

    /// The payload of a sub-orchestration-completed event.
    pub open spec fn spec_sub_orchestration_instance_completed(self) -> Option<
        SubOrchestrationInstanceCompletedEvent,
    > {
        match self.event_type {
            Some(EventType::SubOrchestrationInstanceCompleted(t)) => Some(t),
            _ => None,
        }
    }

    /// The payload of a sub-orchestration-failed event.
    pub open spec fn spec_sub_orchestration_instance_failed(self) -> Option<
        SubOrchestrationInstanceFailedEvent,
    > {
        match self.event_type {
            Some(EventType::SubOrchestrationInstanceFailed(t)) => Some(t),
            _ => None,
        }
    }

    /// The payload of a timer-fired event.
    pub open spec fn spec_timer_fired(self) -> Option<TimerFiredEvent> {
        match self.event_type {
            Some(EventType::TimerFired(t)) => Some(t),
            _ => None,
        }
    }

    /// The payload of an execution-started event.
    pub open spec fn spec_execution_started(self) -> Option<ExecutionStartedEvent> {
        match self.event_type {
            Some(EventType::ExecutionStarted(t)) => Some(t),
            _ => None,
        }
    }

    /// The payload, when this is a task-completed event.
    pub fn get_task_completed(self) -> (r: Option<TaskCompletedEvent>)
        ensures
            r == self.spec_task_completed(),
    {
        match self.event_type {
            Some(EventType::TaskCompleted(t)) => Some(t),
            _ => None,
        }
    }

    /// The payload, when this is a task-failed event.
    pub fn get_task_failed(self) -> (r: Option<TaskFailedEvent>)
        ensures
            r == self.spec_task_failed(),
    {
        match self.event_type {
            Some(EventType::TaskFailed(t)) => Some(t),
            _ => None,
        }
    }

    /// The payload, when this is a sub-orchestration-completed event.
    pub fn get_sub_orchestration_instance_completed(self) -> (r: Option<
        SubOrchestrationInstanceCompletedEvent,
    >)
        ensures
            r == self.spec_sub_orchestration_instance_completed(),
    {
        match self.event_type {
            Some(EventType::SubOrchestrationInstanceCompleted(t)) => Some(t),
            _ => None,
        }
    }

    /// The payload, when this is a sub-orchestration-failed event.
    pub fn get_sub_orchestration_instance_failed(self) -> (r: Option<
        SubOrchestrationInstanceFailedEvent,
    >)
        ensures
            r == self.spec_sub_orchestration_instance_failed(),
    {
        match self.event_type {
            Some(EventType::SubOrchestrationInstanceFailed(t)) => Some(t),
            _ => None,
        }
    }

    /// The payload, when this is a timer-fired event.
    pub fn get_timer_fired(self) -> (r: Option<TimerFiredEvent>)
        ensures
            r == self.spec_timer_fired(),
    {
        match self.event_type {
            Some(EventType::TimerFired(t)) => Some(t),
            _ => None,
        }
    }

    /// The payload, when this is an execution-started event.
    pub fn get_execution_started(self) -> (r: Option<ExecutionStartedEvent>)
        ensures
            r == self.spec_execution_started(),
    {
        match self.event_type {
            Some(EventType::ExecutionStarted(t)) => Some(t),
            _ => None,
        }
    }

    /// The event that starts an execution of `name` as instance
    /// `instance_id`, with a fresh random execution id.
    pub fn new_execution_started_event(
        name: String,
        instance_id: String,
        input: Option<String>,
        parent: Option<ParentInstanceInfo>,
        parent_trace_context: Option<TraceContext>,
        scheduled_start_time: Option<Timestamp>,
    ) -> (r: HistoryEvent)
        ensures
            r.event_id == -1,
            r.timestamp matches Some(t) && t.nanos == 0,
            r.event_type matches Some(EventType::ExecutionStarted(e)) && {
                &&& e.name == name
                &&& e.parent_instance == parent
                &&& e.input == input
                &&& e.parent_trace_context == parent_trace_context
                &&& e.scheduled_start_timestamp == scheduled_start_time
                &&& e.version is None
                &&& e.orchestration_span_id is None
                &&& (e.orchestration_instance matches Some(oi) && {
                    &&& oi.instance_id == instance_id
                    &&& (oi.execution_id matches Some(x) && is_uuid_text(x@))
                })
            },
    {
        let orchestration_instance = Some(
            OrchestrationInstance { instance_id, execution_id: Some(new_uuid_v4()) },
        );
        let execution_started = ExecutionStartedEvent {
            name,
            parent_instance: parent,
            input,
            orchestration_instance,
            parent_trace_context,
            scheduled_start_timestamp: scheduled_start_time,
            version: None,
            orchestration_span_id: None,
        };
        stamp(-1, EventType::ExecutionStarted(execution_started))
    }

    /// The event that completes an execution with `status`.
    pub fn new_execution_completed_event(
        event_id: i32,
        status: i32,
        result: Option<String>,
        failure_details: Option<TaskFailureDetails>,
    ) -> (r: HistoryEvent)
        ensures
            stamped(
                r,
                event_id as int,
                EventType::ExecutionCompleted(
                    ExecutionCompletedEvent { orchestration_status: status, result, failure_details },
                ),
            ),
    {
        stamp(
            event_id,
            EventType::ExecutionCompleted(
                ExecutionCompletedEvent { orchestration_status: status, result, failure_details },
            ),
        )
    }

    /// The event that terminates an execution.
    pub fn new_execution_terminated_event(raw_reason: Option<String>, recurse: bool) -> (r:
        HistoryEvent)
        ensures
            stamped(
                r,
                -1,
                EventType::ExecutionTerminated(
                    ExecutionTerminatedEvent { input: raw_reason, recurse },
                ),
            ),
    {
        stamp(
            -1,
            EventType::ExecutionTerminated(ExecutionTerminatedEvent { input: raw_reason, recurse }),
        )
    }

    /// The event that marks the start of an orchestrator run.
    pub fn new_orchestrator_started_event() -> (r: HistoryEvent)
        ensures
            stamped(r, -1, EventType::OrchestratorStarted(OrchestratorStartedEvent {})),
    {
        stamp(-1, EventType::OrchestratorStarted(OrchestratorStartedEvent {}))
    }

    /// The event that delivers the external event `name`.
    pub fn new_event_raised_event(name: String, raw_input: Option<String>) -> (r: HistoryEvent)
        ensures
            stamped(r, -1, EventType::EventRaised(EventRaisedEvent { name, input: raw_input })),
    {
        stamp(-1, EventType::EventRaised(EventRaisedEvent { name, input: raw_input }))
    }

    /// The event that schedules task `task_id`, an activity called `name`.
    pub fn new_task_scheduled_event(
        task_id: i32,
        name: String,
        version: Option<String>,
        raw_input: Option<String>,
        trace_context: Option<TraceContext>,
    ) -> (r: HistoryEvent)
        ensures
            stamped(
                r,
                task_id as int,
                EventType::TaskScheduled(
                    TaskScheduledEvent {
                        name,
                        version,
                        input: raw_input,
                        parent_trace_context: trace_context,
                    },
                ),
            ),
    {
        stamp(
            task_id,
            EventType::TaskScheduled(
                TaskScheduledEvent {
                    name,
                    version,
                    input: raw_input,
                    parent_trace_context: trace_context,
                },
            ),
        )
    }

    /// The event that completes task `task_id` with `result`.
    pub fn new_task_completed_event(task_id: i32, result: Option<String>) -> (r: HistoryEvent)
        ensures
            stamped(
                r,
                -1,
                EventType::TaskCompleted(TaskCompletedEvent { task_scheduled_id: task_id, result }),
            ),
    {
        stamp(
            -1,
            EventType::TaskCompleted(TaskCompletedEvent { task_scheduled_id: task_id, result }),
        )
    }

    /// The event that fails task `task_id`.
    pub fn new_task_failed_event(task_id: i32, failure_details: Option<TaskFailureDetails>) -> (r:
        HistoryEvent)
        ensures
            stamped(
                r,
                -1,
                EventType::TaskFailed(
                    TaskFailedEvent { task_scheduled_id: task_id, failure_details },
                ),
            ),
    {
        stamp(
            -1,
            EventType::TaskFailed(TaskFailedEvent { task_scheduled_id: task_id, failure_details }),
        )
    }

    /// The event that creates a durable timer firing at `fire_at`.
    pub fn new_timer_created_event(event_id: i32, fire_at: Option<Timestamp>) -> (r:
        HistoryEvent)
        ensures
            stamped(r, event_id as int, EventType::TimerCreated(TimerCreatedEvent { fire_at })),
    {
        stamp(event_id, EventType::TimerCreated(TimerCreatedEvent { fire_at }))
    }

    /// The event that fires timer `timer_id`.
    pub fn new_timer_fired_event(timer_id: i32, fire_at: Option<Timestamp>) -> (r: HistoryEvent)
        ensures
            stamped(r, -1, EventType::TimerFired(TimerFiredEvent { timer_id, fire_at })),
    {
        stamp(-1, EventType::TimerFired(TimerFiredEvent { timer_id, fire_at }))
    }

    /// The event that creates sub-orchestration `instance_id` of `name`.
    pub fn new_sub_orchestration_created_event(
        event_id: i32,
        name: String,
        version: Option<String>,
        raw_input: Option<String>,
        instance_id: String,
        parent_trace_context: Option<TraceContext>,
    ) -> (r: HistoryEvent)
        ensures
            stamped(
                r,
                event_id as int,
                EventType::SubOrchestrationInstanceCreated(
                    SubOrchestrationInstanceCreatedEvent {
                        name,
                        version,
                        input: raw_input,
                        instance_id,
                        parent_trace_context,
                    },
                ),
            ),
    {
        stamp(
            event_id,
            EventType::SubOrchestrationInstanceCreated(
                SubOrchestrationInstanceCreatedEvent {
                    name,
                    version,
                    input: raw_input,
                    instance_id,
                    parent_trace_context,
                },
            ),
        )
    }

    /// The event that sends the event `name` to instance `instance_id`.
    pub fn new_send_event_event(
        event_id: i32,
        instance_id: String,
        name: String,
        raw_input: Option<String>,
    ) -> (r: HistoryEvent)
        ensures
            stamped(
                r,
                event_id as int,
                EventType::EventSent(EventSentEvent { instance_id, input: raw_input, name }),
            ),
    {
        stamp(event_id, EventType::EventSent(EventSentEvent { instance_id, input: raw_input, name }))
    }

    /// The event that suspends an orchestration; an empty reason is recorded
    /// as none.
    pub fn new_suspend_orchestration_event(reason: String) -> (r: HistoryEvent)
        ensures
            stamped(
                r,
                -1,
                EventType::ExecutionSuspended(ExecutionSuspendedEvent { input: reason_input(reason) }),
            ),
    {
        let input = if reason.as_str().unicode_len() != 0 {
            Some(reason)
        } else {
            None
        };
        stamp(-1, EventType::ExecutionSuspended(ExecutionSuspendedEvent { input }))
    }

    /// The event that resumes an orchestration; an empty reason is recorded
    /// as none.
    pub fn new_resume_orchestration_event(reason: String) -> (r: HistoryEvent)
        ensures
            stamped(
                r,
                -1,
                EventType::ExecutionResumed(ExecutionResumedEvent { input: reason_input(reason) }),
            ),
    {
        let input = if reason.as_str().unicode_len() != 0 {
            Some(reason)
        } else {
            None
        };
        stamp(-1, EventType::ExecutionResumed(ExecutionResumedEvent { input }))
    }
}

impl ParentInstanceInfo {
    /// The parent of a sub-orchestration: task `task_id` of instance
    /// `instance_id`, an orchestration called `name`.
    pub fn new_parent_info(task_id: i32, name: String, instance_id: String) -> (r:
        ParentInstanceInfo)
        ensures
            r == (ParentInstanceInfo {
                task_scheduled_id: task_id,
                name: Some(name),
                version: None,
                orchestration_instance: Some(
                    OrchestrationInstance { instance_id, execution_id: None },
                ),
            }),
    {
        ParentInstanceInfo {
            task_scheduled_id: task_id,
            name: Some(name),
            version: None,
            orchestration_instance: Some(OrchestrationInstance { instance_id, execution_id: None }),
        }
    }
}

impl OrchestratorAction {
    /// The action that schedules task `task_id`, the activity `name`.
    pub fn new_schedule_task_action(task_id: i32, name: String, input: Option<String>) -> (r:
        OrchestratorAction)
        ensures
            r == (OrchestratorAction {
                id: task_id,
                orchestrator_action_type: Some(
                    OrchestratorActionType::ScheduleTask(
                        ScheduleTaskAction { name, version: None, input },
                    ),
                ),
            }),
    {
        OrchestratorAction {
            id: task_id,
            orchestrator_action_type: Some(
                OrchestratorActionType::ScheduleTask(ScheduleTaskAction { name, version: None, input }),
            ),
        }
    }

    /// The action that creates a durable timer firing at `fire_at`.
    pub fn new_create_timer_action(task_id: i32, fire_at: Timestamp) -> (r: OrchestratorAction)
        ensures
            r == (OrchestratorAction {
                id: task_id,
                orchestrator_action_type: Some(
                    OrchestratorActionType::CreateTimer(CreateTimerAction { fire_at: Some(fire_at) }),
                ),
            }),
    {
        OrchestratorAction {
            id: task_id,
            orchestrator_action_type: Some(
                OrchestratorActionType::CreateTimer(CreateTimerAction { fire_at: Some(fire_at) }),
            ),
        }
    }

    /// The action that sends the event `name` to instance `instance_id`.
    pub fn new_send_event_action(instance_id: String, name: String, data: Option<String>) -> (r:
        OrchestratorAction)
        ensures
            r == (OrchestratorAction {
                id: -1i32,
                orchestrator_action_type: Some(
                    OrchestratorActionType::SendEvent(
                        SendEventAction {
                            instance: Some(
                                OrchestrationInstance { instance_id, execution_id: None },
                            ),
                            name,
                            data,
                        },
                    ),
                ),
            }),
    {
        OrchestratorAction {
            id: -1,
            orchestrator_action_type: Some(
                OrchestratorActionType::SendEvent(
                    SendEventAction {
                        instance: Some(OrchestrationInstance { instance_id, execution_id: None }),
                        name,
                        data,
                    },
                ),
            ),
        }
    }

    /// The action that creates sub-orchestration `instance_id` of `name`.
    pub fn new_create_sub_orchestration_action(
        task_id: i32,
        name: String,
        instance_id: String,
        input: Option<String>,
    ) -> (r: OrchestratorAction)
        ensures
            r == (OrchestratorAction {
                id: task_id,
                orchestrator_action_type: Some(
                    OrchestratorActionType::CreateSubOrchestration(
                        CreateSubOrchestrationAction { name, version: None, input, instance_id },
                    ),
                ),
            }),
    {
        OrchestratorAction {
            id: task_id,
            orchestrator_action_type: Some(
                OrchestratorActionType::CreateSubOrchestration(
                    CreateSubOrchestrationAction { name, version: None, input, instance_id },
                ),
            ),
        }
    }

    /// The action that completes the orchestration with `status`.
    pub fn new_complete_orchestration_action(
        task_id: i32,
        status: i32,
        result: Option<String>,
        carryover_events: Vec<HistoryEvent>,
        failure_details: Option<TaskFailureDetails>,
    ) -> (r: OrchestratorAction)
        ensures
            r == (OrchestratorAction {
                id: task_id,
                orchestrator_action_type: Some(
                    OrchestratorActionType::CompleteOrchestration(
                        CompleteOrchestrationAction {
                            orchestration_status: status,
                            result,
                            details: None,
                            new_version: None,
                            carryover_events,
                            failure_details,
                        },
                    ),
                ),
            }),
    {
        OrchestratorAction {
            id: task_id,
            orchestrator_action_type: Some(
                OrchestratorActionType::CompleteOrchestration(
                    CompleteOrchestrationAction {
                        orchestration_status: status,
                        result,
                        details: None,
                        new_version: None,
                        carryover_events,
                        failure_details,
                    },
                ),
            ),
        }
    }

    /// The action that terminates instance `instance_id`.
    pub fn new_terminate_orchestration_action(
        task_id: i32,
        instance_id: String,
        recurse: bool,
        reason: Option<String>,
    ) -> (r: OrchestratorAction)
        ensures
            r == (OrchestratorAction {
                id: task_id,
                orchestrator_action_type: Some(
                    OrchestratorActionType::TerminateOrchestration(
                        TerminateOrchestrationAction { instance_id, reason, recurse },
                    ),
                ),
            }),
    {
        OrchestratorAction {
            id: task_id,
            orchestrator_action_type: Some(
                OrchestratorActionType::TerminateOrchestration(
                    TerminateOrchestrationAction { instance_id, reason, recurse },
                ),
            ),
        }
    }
}

impl TaskFailureDetails {
    /// Failure details of an error whose type is named `error_type` and whose
    /// message is `error_message`, with no stack trace or inner failure.
    pub fn new(error_type: String, error_message: String, non_retriable: bool) -> (r:
        TaskFailureDetails)
        ensures
            r == (TaskFailureDetails {
                error_type,
                error_message,
                stack_trace: None,
                inner_failure: None,
                is_non_retriable: non_retriable,
            }),
    {
        TaskFailureDetails {
            error_type,
            error_message,
            stack_trace: None,
            inner_failure: None,
            is_non_retriable: non_retriable,
        }
    }
}


/// The name of an event's kind; empty when the event has no kind.
pub open spec fn event_type_name(t: Option<EventType>) -> Seq<char> {
    match t {
        None => Seq::empty(),
        Some(EventType::ExecutionStarted(_)) => "ExecutionStarted"@,
        Some(EventType::ExecutionCompleted(_)) => "ExecutionCompleted"@,
        Some(EventType::ExecutionTerminated(_)) => "ExecutionTerminated"@,
        Some(EventType::TaskScheduled(_)) => "TaskScheduled"@,
        Some(EventType::TaskCompleted(_)) => "TaskCompleted"@,
        Some(EventType::TaskFailed(_)) => "TaskFailed"@,
        Some(EventType::SubOrchestrationInstanceCreated(_)) => "SubOrchestrationInstanceCreated"@,
        Some(EventType::SubOrchestrationInstanceCompleted(_)) => "SubOrchestrationInstanceCompleted"@,
        Some(EventType::SubOrchestrationInstanceFailed(_)) => "SubOrchestrationInstanceFailed"@,
        Some(EventType::TimerCreated(_)) => "TimerCreated"@,
        Some(EventType::TimerFired(_)) => "TimerFired"@,
        Some(EventType::OrchestratorStarted(_)) => "OrchestratorStarted"@,
        Some(EventType::OrchestratorCompleted(_)) => "OrchestratorCompleted"@,
        Some(EventType::EventSent(_)) => "EventSent"@,
        Some(EventType::EventRaised(_)) => "EventRaised"@,
        Some(EventType::GenericEvent(_)) => "GenericEvent"@,
        Some(EventType::HistoryState(_)) => "HistoryState"@,
        Some(EventType::ContinueAsNew(_)) => "ContinueAsNew"@,
        Some(EventType::ExecutionSuspended(_)) => "ExecutionSuspended"@,
        Some(EventType::ExecutionResumed(_)) => "ExecutionResumed"@,
    }
}

/// The name of an action's kind; empty when the action has no kind.
pub open spec fn action_type_name(t: Option<OrchestratorActionType>) -> Seq<char> {
    match t {
        None => Seq::empty(),
        Some(OrchestratorActionType::ScheduleTask(_)) => "ScheduleTask"@,
        Some(OrchestratorActionType::CreateSubOrchestration(_)) => "CreateSubOrchestration"@,
        Some(OrchestratorActionType::CreateTimer(_)) => "CreateTimer"@,
        Some(OrchestratorActionType::SendEvent(_)) => "SendEvent"@,
        Some(OrchestratorActionType::CompleteOrchestration(_)) => "CompleteOrchestration"@,
        Some(OrchestratorActionType::TerminateOrchestration(_)) => "TerminateOrchestration"@,
    }
}

/// The name of the kind of `event`; empty when it has none.
pub fn get_event_history_name(event: &HistoryEvent) -> (r: String)
    ensures
        r@ == event_type_name(event.event_type),
{
    match &event.event_type {
        None => String::new(),
        Some(EventType::ExecutionStarted(_)) => String::from_str("ExecutionStarted"),
        Some(EventType::ExecutionCompleted(_)) => String::from_str("ExecutionCompleted"),
        Some(EventType::ExecutionTerminated(_)) => String::from_str("ExecutionTerminated"),
        Some(EventType::TaskScheduled(_)) => String::from_str("TaskScheduled"),
        Some(EventType::TaskCompleted(_)) => String::from_str("TaskCompleted"),
        Some(EventType::TaskFailed(_)) => String::from_str("TaskFailed"),
        Some(EventType::SubOrchestrationInstanceCreated(_)) => String::from_str("SubOrchestrationInstanceCreated"),
        Some(EventType::SubOrchestrationInstanceCompleted(_)) => String::from_str("SubOrchestrationInstanceCompleted"),
        Some(EventType::SubOrchestrationInstanceFailed(_)) => String::from_str("SubOrchestrationInstanceFailed"),
        Some(EventType::TimerCreated(_)) => String::from_str("TimerCreated"),
        Some(EventType::TimerFired(_)) => String::from_str("TimerFired"),
        Some(EventType::OrchestratorStarted(_)) => String::from_str("OrchestratorStarted"),
        Some(EventType::OrchestratorCompleted(_)) => String::from_str("OrchestratorCompleted"),
        Some(EventType::EventSent(_)) => String::from_str("EventSent"),
        Some(EventType::EventRaised(_)) => String::from_str("EventRaised"),
        Some(EventType::GenericEvent(_)) => String::from_str("GenericEvent"),
        Some(EventType::HistoryState(_)) => String::from_str("HistoryState"),
        Some(EventType::ContinueAsNew(_)) => String::from_str("ContinueAsNew"),
        Some(EventType::ExecutionSuspended(_)) => String::from_str("ExecutionSuspended"),
        Some(EventType::ExecutionResumed(_)) => String::from_str("ExecutionResumed"),
    }
}

/// The name of the kind of `action`; empty when it has none.
pub fn get_action_type_name(action: &OrchestratorAction) -> (r: String)
    ensures
        r@ == action_type_name(action.orchestrator_action_type),
{
    match &action.orchestrator_action_type {
        None => String::new(),
        Some(OrchestratorActionType::ScheduleTask(_)) => String::from_str("ScheduleTask"),
        Some(OrchestratorActionType::CreateSubOrchestration(_)) => String::from_str("CreateSubOrchestration"),
        Some(OrchestratorActionType::CreateTimer(_)) => String::from_str("CreateTimer"),
        Some(OrchestratorActionType::SendEvent(_)) => String::from_str("SendEvent"),
        Some(OrchestratorActionType::CompleteOrchestration(_)) => String::from_str("CompleteOrchestration"),
        Some(OrchestratorActionType::TerminateOrchestration(_)) => String::from_str("TerminateOrchestration"),
    }
}

/// The task an event belongs to: its own id when that is not negative, else
/// the scheduled task it completes or fails, the timer it fires, or the
/// parent task of a sub-orchestration's start; -1 otherwise.
pub open spec fn task_id_of(event: HistoryEvent) -> i32 {
    if event.event_id >= 0 {
        event.event_id
    } else {
        match event.event_type {
            Some(EventType::TaskCompleted(t)) => t.task_scheduled_id,
            Some(EventType::TaskFailed(t)) => t.task_scheduled_id,
            Some(EventType::SubOrchestrationInstanceCompleted(t)) => t.task_scheduled_id,
            Some(EventType::SubOrchestrationInstanceFailed(t)) => t.task_scheduled_id,
            Some(EventType::TimerFired(t)) => t.timer_id,
            Some(EventType::ExecutionStarted(e)) => match e.parent_instance {
                Some(p) => p.task_scheduled_id,
                None => -1i32,
            },
            _ => -1i32,
        }
    }
}

/// The task `event` belongs to (see [`task_id_of`]).
pub fn get_task_id(event: HistoryEvent) -> (r: i32)
    ensures
        r == task_id_of(event),
{
    task_id_ref(&event)
}

fn task_id_ref(event: &HistoryEvent) -> (r: i32)
    ensures
        r == task_id_of(*event),
{
    if event.event_id >= 0 {
        return event.event_id;
    }
    match &event.event_type {
        Some(EventType::TaskCompleted(t)) => t.task_scheduled_id,
        Some(EventType::TaskFailed(t)) => t.task_scheduled_id,
        Some(EventType::SubOrchestrationInstanceCompleted(t)) => t.task_scheduled_id,
        Some(EventType::SubOrchestrationInstanceFailed(t)) => t.task_scheduled_id,
        Some(EventType::TimerFired(t)) => t.timer_id,
        Some(EventType::ExecutionStarted(e)) => match &e.parent_instance {
            Some(p) => p.task_scheduled_id,
            None => -1,
        },
        _ => -1,
    }
}

/// The most items that a summary lists.
pub const SUMMARY_LIMIT: usize = 10;

/// Parts joined with `, `.
pub open spec fn join_parts(parts: Seq<Seq<char>>) -> Seq<char>
    decreases parts.len(),
{
    if parts.len() == 0 {
        Seq::empty()
    } else if parts.len() == 1 {
        parts[0]
    } else {
        join_parts(parts.drop_last()) + ", "@ + parts.last()
    }
}

/// How a summary shows one event: its kind's name, followed by `#` and its
/// task id when that is positive.
pub open spec fn event_summary(event: HistoryEvent) -> Seq<char> {
    let id = task_id_of(event);
    if id > 0 {
        event_type_name(event.event_type) + "#"@ + int_text(id as int)
    } else {
        event_type_name(event.event_type)
    }
}

/// How a summary shows one action: its kind's name, `#`, and its id.
pub open spec fn action_summary(action: OrchestratorAction) -> Seq<char> {
    action_type_name(action.orchestrator_action_type) + "#"@ + int_text(action.id as int)
}

/// The first `SUMMARY_LIMIT` items of `s`.
pub open spec fn summary_window<T>(s: Seq<T>) -> Seq<T> {
    if s.len() > SUMMARY_LIMIT {
        s.take(SUMMARY_LIMIT as int)
    } else {
        s
    }
}

/// `[` and `]` around the first ten events, shown as [`event_summary`] and
/// joined with `, `.
pub open spec fn history_summary(list: Seq<HistoryEvent>) -> Seq<char> {
    "["@ + join_parts(summary_window(list).map_values(|e: HistoryEvent| event_summary(e))) + "]"@
}

/// `[` and `]` around the first ten actions, shown as [`action_summary`]
/// and joined with `, `.
pub open spec fn actions_summary(list: Seq<OrchestratorAction>) -> Seq<char> {
    "["@ + join_parts(summary_window(list).map_values(|a: OrchestratorAction| action_summary(a)))
        + "]"@
}

proof fn lemma_join_step(parts: Seq<Seq<char>>, i: int)
    requires
        0 <= i < parts.len(),
    ensures
        join_parts(parts.take(i + 1)) == if i == 0 {
            parts[0]
        } else {
            join_parts(parts.take(i)) + ", "@ + parts[i]
        },
{
    assert(parts.take(i + 1).drop_last() =~= parts.take(i));
}

/// A short text listing the first ten events of `list` (see
/// [`history_summary`]), for logs.
pub fn history_list_summary(list: Vec<HistoryEvent>) -> (r: String)
    ensures
        r@ == history_summary(list@),
{
    let n = if list.len() > SUMMARY_LIMIT {
        SUMMARY_LIMIT
    } else {
        list.len()
    };
    let ghost parts = summary_window(list@).map_values(|e: HistoryEvent| event_summary(e));
    let mut s = String::from_str("[");
    let mut i: usize = 0;
    while i < n
        invariant
            i <= n,
            n == summary_window(list@).len(),
            n <= list@.len(),
            parts == summary_window(list@).map_values(|e: HistoryEvent| event_summary(e)),
            s@ == "["@ + join_parts(parts.take(i as int)),
        decreases n - i,
    {
        proof {
            lemma_join_step(parts, i as int);
        }
        let ghost before = s@;
        if i > 0 {
            s.append(", ");
        }
        let event = &list[i];
        let name = get_event_history_name(event);
        s.append(name.as_str());
        let task_id = task_id_ref(event);
        if task_id > 0 {
            s.append("#");
            append_i64(&mut s, task_id as i64);
        }
        i = i + 1;
    }
    assert(parts.take(n as int) =~= parts);
    s.append("]");
    s
}

/// A short text listing the first ten actions of `actions` (see
/// [`actions_summary`]), for logs.
pub fn action_list_summary(actions: Vec<OrchestratorAction>) -> (r: String)
    ensures
        r@ == actions_summary(actions@),
{
    let n = if actions.len() > SUMMARY_LIMIT {
        SUMMARY_LIMIT
    } else {
        actions.len()
    };
    let ghost parts = summary_window(actions@).map_values(
        |a: OrchestratorAction| action_summary(a),
    );
    let mut s = String::from_str("[");
    let mut i: usize = 0;
    while i < n
        invariant
            i <= n,
            n == summary_window(actions@).len(),
            n <= actions@.len(),
            parts == summary_window(actions@).map_values(
                |a: OrchestratorAction| action_summary(a),
            ),
            s@ == "["@ + join_parts(parts.take(i as int)),
        decreases n - i,
    {
        proof {
            lemma_join_step(parts, i as int);
        }
        if i > 0 {
            s.append(", ");
        }
        let action = &actions[i];
        let name = get_action_type_name(action);
        s.append(name.as_str());
        s.append("#");
        append_i64(&mut s, action.id as i64);
        i = i + 1;
    }
    assert(parts.take(n as int) =~= parts);
    s.append("]");
    s
}

/// The prefix that every runtime status name starts with.
pub open spec fn status_prefix() -> Seq<char> {
    "ORCHESTRATION_STATUS_"@
}

/// The status name without its `ORCHESTRATION_STATUS_` prefix, e.g. `RUNNING`.
pub open spec fn runtime_status_text(status: OrchestrationStatus) -> Seq<char> {
    orchestration_status_name(status).skip(21)
}

proof fn lemma_status_names_have_prefix(status: OrchestrationStatus)
    ensures
        status_prefix().len() == 21,
        orchestration_status_name(status).len() > 21,
        orchestration_status_name(status) == status_prefix() + runtime_status_text(status),
{
    reveal_strlit("ORCHESTRATION_STATUS_");
    reveal_strlit("ORCHESTRATION_STATUS_RUNNING");
    reveal_strlit("ORCHESTRATION_STATUS_COMPLETED");
    reveal_strlit("ORCHESTRATION_STATUS_CONTINUED_AS_NEW");
    reveal_strlit("ORCHESTRATION_STATUS_FAILED");
    reveal_strlit("ORCHESTRATION_STATUS_CANCELED");
    reveal_strlit("ORCHESTRATION_STATUS_TERMINATED");
    reveal_strlit("ORCHESTRATION_STATUS_PENDING");
    reveal_strlit("ORCHESTRATION_STATUS_SUSPENDED");
    reveal_strlit("ORCHESTRATION_STATUS_STALLED");
    assert(orchestration_status_name(status) =~= status_prefix() + runtime_status_text(status));
}

/// The runtime status as users see it: its name without the
/// `ORCHESTRATION_STATUS_` prefix, e.g. `RUNNING`.
pub fn to_runtime_status_string(status: &OrchestrationStatus) -> (r: String)
    ensures
        r@ == runtime_status_text(*status),
        status_prefix() + r@ == orchestration_status_name(*status),
{
    proof {
        lemma_status_names_have_prefix(*status);
    }
    let name = status.as_str_name();
    let n = name.unicode_len();
    String::from_str(name.substring_char(21, n))
}

/// The runtime status whose full ProtoBuf name is `status`, e.g.
/// `ORCHESTRATION_STATUS_RUNNING`.
pub fn from_runtime_string(status: &str) -> (r: Option<OrchestrationStatus>)
    ensures
        r == orchestration_status_from_name(status@),
{
    OrchestrationStatus::from_str_name(status)
}

/// The full name of a status reads back as that status.
pub proof fn lemma_runtime_string_round_trip(status: OrchestrationStatus)
    ensures
        orchestration_status_from_name(orchestration_status_name(status)) == Some(status),
{
    lemma_orchestration_status_name_round_trip(status, Seq::empty());
}

/// The short text that `to_runtime_status_string` gives is not a name that
/// `from_runtime_string` accepts: the two are not inverse to each other.
pub proof fn lemma_runtime_text_not_accepted(status: OrchestrationStatus)
    ensures
        orchestration_status_from_name(runtime_status_text(status)) is None,
{
    lemma_status_names_have_prefix(status);
    reveal_strlit("ORCHESTRATION_STATUS_RUNNING");
    reveal_strlit("ORCHESTRATION_STATUS_COMPLETED");
    reveal_strlit("ORCHESTRATION_STATUS_CONTINUED_AS_NEW");
    reveal_strlit("ORCHESTRATION_STATUS_FAILED");
    reveal_strlit("ORCHESTRATION_STATUS_CANCELED");
    reveal_strlit("ORCHESTRATION_STATUS_TERMINATED");
    reveal_strlit("ORCHESTRATION_STATUS_PENDING");
    reveal_strlit("ORCHESTRATION_STATUS_SUSPENDED");
    reveal_strlit("ORCHESTRATION_STATUS_STALLED");
}

/// A summary shows at most the first ten items: events past the tenth
/// change nothing.
pub proof fn lemma_summary_shows_first_ten(list: Seq<HistoryEvent>, more: Seq<HistoryEvent>)
    requires
        list.len() >= SUMMARY_LIMIT,
    ensures
        history_summary(list + more) == history_summary(list),
{
    assert(summary_window(list + more) =~= summary_window(list));
}

/// The same holds of action summaries.
pub proof fn lemma_action_summary_shows_first_ten(
    list: Seq<OrchestratorAction>,
    more: Seq<OrchestratorAction>,
)
    requires
        list.len() >= SUMMARY_LIMIT,
    ensures
        actions_summary(list + more) == actions_summary(list),
{
    assert(summary_window(list + more) =~= summary_window(list));
}

/// An event built to complete or fail task `t` reads back its payload, and
/// belongs to task `t`, whatever `t` is.
pub proof fn lemma_task_result_events(e: HistoryEvent, t: i32, result: Option<String>, f: Option<TaskFailureDetails>)
    ensures
        stamped(e, -1, EventType::TaskCompleted(TaskCompletedEvent { task_scheduled_id: t, result }))
            ==> e.spec_task_completed() == Some(TaskCompletedEvent { task_scheduled_id: t, result })
            && e.spec_task_failed() is None && task_id_of(e) == t,
        stamped(e, -1, EventType::TaskFailed(TaskFailedEvent { task_scheduled_id: t, failure_details: f }))
            ==> e.spec_task_failed() == Some(TaskFailedEvent { task_scheduled_id: t, failure_details: f })
            && e.spec_task_completed() is None && task_id_of(e) == t,
{
}

/// A timer-fired event built for timer `t` reads back its payload and
/// belongs to task `t`.
pub proof fn lemma_timer_fired_event(e: HistoryEvent, t: i32, fire_at: Option<Timestamp>)
    ensures
        stamped(e, -1, EventType::TimerFired(TimerFiredEvent { timer_id: t, fire_at }))
            ==> e.spec_timer_fired() == Some(TimerFiredEvent { timer_id: t, fire_at })
            && task_id_of(e) == t,
{
}

/// An event scheduling task `t` belongs to task `t` when `t` is not
/// negative; a negative `t` gives -1.
pub proof fn lemma_task_scheduled_event(e: HistoryEvent, t: i32, payload: TaskScheduledEvent)
    ensures
        stamped(e, t as int, EventType::TaskScheduled(payload)) ==> task_id_of(e) as int == if t >= 0 {
            t as int
        } else {
            -1
        },
{
}

/// Whether two event kinds are of the same kind (both absent counts as the same).
pub open spec fn same_event_kind(a: Option<EventType>, b: Option<EventType>) -> bool {
    match (a, b) {
        (None, None) => true,
        (Some(EventType::ExecutionStarted(_)), Some(EventType::ExecutionStarted(_))) => true,
        (Some(EventType::ExecutionCompleted(_)), Some(EventType::ExecutionCompleted(_))) => true,
        (Some(EventType::ExecutionTerminated(_)), Some(EventType::ExecutionTerminated(_))) => true,
        (Some(EventType::TaskScheduled(_)), Some(EventType::TaskScheduled(_))) => true,
        (Some(EventType::TaskCompleted(_)), Some(EventType::TaskCompleted(_))) => true,
        (Some(EventType::TaskFailed(_)), Some(EventType::TaskFailed(_))) => true,
        (Some(EventType::SubOrchestrationInstanceCreated(_)), Some(EventType::SubOrchestrationInstanceCreated(_))) => true,
        (Some(EventType::SubOrchestrationInstanceCompleted(_)), Some(EventType::SubOrchestrationInstanceCompleted(_))) => true,
        (Some(EventType::SubOrchestrationInstanceFailed(_)), Some(EventType::SubOrchestrationInstanceFailed(_))) => true,
        (Some(EventType::TimerCreated(_)), Some(EventType::TimerCreated(_))) => true,
        (Some(EventType::TimerFired(_)), Some(EventType::TimerFired(_))) => true,
        (Some(EventType::OrchestratorStarted(_)), Some(EventType::OrchestratorStarted(_))) => true,
        (Some(EventType::OrchestratorCompleted(_)), Some(EventType::OrchestratorCompleted(_))) => true,
        (Some(EventType::EventSent(_)), Some(EventType::EventSent(_))) => true,
        (Some(EventType::EventRaised(_)), Some(EventType::EventRaised(_))) => true,
        (Some(EventType::GenericEvent(_)), Some(EventType::GenericEvent(_))) => true,
        (Some(EventType::HistoryState(_)), Some(EventType::HistoryState(_))) => true,
        (Some(EventType::ContinueAsNew(_)), Some(EventType::ContinueAsNew(_))) => true,
        (Some(EventType::ExecutionSuspended(_)), Some(EventType::ExecutionSuspended(_))) => true,
        (Some(EventType::ExecutionResumed(_)), Some(EventType::ExecutionResumed(_))) => true,
        _ => false,
    }
}

/// Each kind of event is named by its own name: a failed task is never
/// named as a completed one, and two events share a name exactly when they
/// are of the same kind. An event with no kind has the empty name.
#[verifier::rlimit(50)]
pub proof fn lemma_event_type_names(t: Option<EventType>, u: Option<EventType>)
    ensures
        t is None ==> event_type_name(t) == Seq::<char>::empty(),
        t matches Some(EventType::ExecutionStarted(_)) ==> event_type_name(t) == "ExecutionStarted"@,
        t matches Some(EventType::ExecutionCompleted(_)) ==> event_type_name(t) == "ExecutionCompleted"@,
        t matches Some(EventType::ExecutionTerminated(_)) ==> event_type_name(t) == "ExecutionTerminated"@,
        t matches Some(EventType::TaskScheduled(_)) ==> event_type_name(t) == "TaskScheduled"@,
        t matches Some(EventType::TaskCompleted(_)) ==> event_type_name(t) == "TaskCompleted"@,
        t matches Some(EventType::TaskFailed(_)) ==> event_type_name(t) == "TaskFailed"@,
        t matches Some(EventType::SubOrchestrationInstanceCreated(_)) ==> event_type_name(t) == "SubOrchestrationInstanceCreated"@,
        t matches Some(EventType::SubOrchestrationInstanceCompleted(_)) ==> event_type_name(t) == "SubOrchestrationInstanceCompleted"@,
        t matches Some(EventType::SubOrchestrationInstanceFailed(_)) ==> event_type_name(t) == "SubOrchestrationInstanceFailed"@,
        t matches Some(EventType::TimerCreated(_)) ==> event_type_name(t) == "TimerCreated"@,
        t matches Some(EventType::TimerFired(_)) ==> event_type_name(t) == "TimerFired"@,
        t matches Some(EventType::OrchestratorStarted(_)) ==> event_type_name(t) == "OrchestratorStarted"@,
        t matches Some(EventType::OrchestratorCompleted(_)) ==> event_type_name(t) == "OrchestratorCompleted"@,
        t matches Some(EventType::EventSent(_)) ==> event_type_name(t) == "EventSent"@,
        t matches Some(EventType::EventRaised(_)) ==> event_type_name(t) == "EventRaised"@,
        t matches Some(EventType::GenericEvent(_)) ==> event_type_name(t) == "GenericEvent"@,
        t matches Some(EventType::HistoryState(_)) ==> event_type_name(t) == "HistoryState"@,
        t matches Some(EventType::ContinueAsNew(_)) ==> event_type_name(t) == "ContinueAsNew"@,
        t matches Some(EventType::ExecutionSuspended(_)) ==> event_type_name(t) == "ExecutionSuspended"@,
        t matches Some(EventType::ExecutionResumed(_)) ==> event_type_name(t) == "ExecutionResumed"@,
        event_type_name(t) == event_type_name(u) <==> same_event_kind(t, u),
{
    reveal_strlit("ExecutionStarted");
    reveal_strlit("ExecutionCompleted");
    reveal_strlit("ExecutionTerminated");
    reveal_strlit("TaskScheduled");
    reveal_strlit("TaskCompleted");
    reveal_strlit("TaskFailed");
    reveal_strlit("SubOrchestrationInstanceCreated");
    reveal_strlit("SubOrchestrationInstanceCompleted");
    reveal_strlit("SubOrchestrationInstanceFailed");
    reveal_strlit("TimerCreated");
    reveal_strlit("TimerFired");
    reveal_strlit("OrchestratorStarted");
    reveal_strlit("OrchestratorCompleted");
    reveal_strlit("EventSent");
    reveal_strlit("EventRaised");
    reveal_strlit("GenericEvent");
    reveal_strlit("HistoryState");
    reveal_strlit("ContinueAsNew");
    reveal_strlit("ExecutionSuspended");
    reveal_strlit("ExecutionResumed");
    assert("ExecutionStarted"@.len() != "ExecutionCompleted"@.len());
    assert("ExecutionStarted"@.len() != "ExecutionTerminated"@.len());
    assert("ExecutionStarted"@.len() != "TaskScheduled"@.len());
    assert("ExecutionStarted"@.len() != "TaskCompleted"@.len());
    assert("ExecutionStarted"@.len() != "TaskFailed"@.len());
    assert("ExecutionStarted"@.len() != "SubOrchestrationInstanceCreated"@.len());
    assert("ExecutionStarted"@.len() != "SubOrchestrationInstanceCompleted"@.len());
    assert("ExecutionStarted"@.len() != "SubOrchestrationInstanceFailed"@.len());
    assert("ExecutionStarted"@.len() != "TimerCreated"@.len());
    assert("ExecutionStarted"@.len() != "TimerFired"@.len());
    assert("ExecutionStarted"@.len() != "OrchestratorStarted"@.len());
    assert("ExecutionStarted"@.len() != "OrchestratorCompleted"@.len());
    assert("ExecutionStarted"@.len() != "EventSent"@.len());
    assert("ExecutionStarted"@.len() != "EventRaised"@.len());
    assert("ExecutionStarted"@.len() != "GenericEvent"@.len());
    assert("ExecutionStarted"@.len() != "HistoryState"@.len());
    assert("ExecutionStarted"@.len() != "ContinueAsNew"@.len());
    assert("ExecutionStarted"@.len() != "ExecutionSuspended"@.len());
    assert("ExecutionStarted"@[9] != "ExecutionResumed"@[9]);
    assert("ExecutionCompleted"@.len() != "ExecutionTerminated"@.len());
    assert("ExecutionCompleted"@.len() != "TaskScheduled"@.len());
    assert("ExecutionCompleted"@.len() != "TaskCompleted"@.len());
    assert("ExecutionCompleted"@.len() != "TaskFailed"@.len());
    assert("ExecutionCompleted"@.len() != "SubOrchestrationInstanceCreated"@.len());
    assert("ExecutionCompleted"@.len() != "SubOrchestrationInstanceCompleted"@.len());
    assert("ExecutionCompleted"@.len() != "SubOrchestrationInstanceFailed"@.len());
    assert("ExecutionCompleted"@.len() != "TimerCreated"@.len());
    assert("ExecutionCompleted"@.len() != "TimerFired"@.len());
    assert("ExecutionCompleted"@.len() != "OrchestratorStarted"@.len());
    assert("ExecutionCompleted"@.len() != "OrchestratorCompleted"@.len());
    assert("ExecutionCompleted"@.len() != "EventSent"@.len());
    assert("ExecutionCompleted"@.len() != "EventRaised"@.len());
    assert("ExecutionCompleted"@.len() != "GenericEvent"@.len());
    assert("ExecutionCompleted"@.len() != "HistoryState"@.len());
    assert("ExecutionCompleted"@.len() != "ContinueAsNew"@.len());
    assert("ExecutionCompleted"@[9] != "ExecutionSuspended"@[9]);
    assert("ExecutionCompleted"@.len() != "ExecutionResumed"@.len());
    assert("ExecutionTerminated"@.len() != "TaskScheduled"@.len());
    assert("ExecutionTerminated"@.len() != "TaskCompleted"@.len());
    assert("ExecutionTerminated"@.len() != "TaskFailed"@.len());
    assert("ExecutionTerminated"@.len() != "SubOrchestrationInstanceCreated"@.len());
    assert("ExecutionTerminated"@.len() != "SubOrchestrationInstanceCompleted"@.len());
    assert("ExecutionTerminated"@.len() != "SubOrchestrationInstanceFailed"@.len());
    assert("ExecutionTerminated"@.len() != "TimerCreated"@.len());
    assert("ExecutionTerminated"@.len() != "TimerFired"@.len());
    assert("ExecutionTerminated"@[0] != "OrchestratorStarted"@[0]);
    assert("ExecutionTerminated"@.len() != "OrchestratorCompleted"@.len());
    assert("ExecutionTerminated"@.len() != "EventSent"@.len());
    assert("ExecutionTerminated"@.len() != "EventRaised"@.len());
    assert("ExecutionTerminated"@.len() != "GenericEvent"@.len());
    assert("ExecutionTerminated"@.len() != "HistoryState"@.len());
    assert("ExecutionTerminated"@.len() != "ContinueAsNew"@.len());
    assert("ExecutionTerminated"@.len() != "ExecutionSuspended"@.len());
    assert("ExecutionTerminated"@.len() != "ExecutionResumed"@.len());
    assert("TaskScheduled"@[4] != "TaskCompleted"@[4]);
    assert("TaskScheduled"@.len() != "TaskFailed"@.len());
    assert("TaskScheduled"@.len() != "SubOrchestrationInstanceCreated"@.len());
    assert("TaskScheduled"@.len() != "SubOrchestrationInstanceCompleted"@.len());
    assert("TaskScheduled"@.len() != "SubOrchestrationInstanceFailed"@.len());
    assert("TaskScheduled"@.len() != "TimerCreated"@.len());
    assert("TaskScheduled"@.len() != "TimerFired"@.len());
    assert("TaskScheduled"@.len() != "OrchestratorStarted"@.len());
    assert("TaskScheduled"@.len() != "OrchestratorCompleted"@.len());
    assert("TaskScheduled"@.len() != "EventSent"@.len());
    assert("TaskScheduled"@.len() != "EventRaised"@.len());
    assert("TaskScheduled"@.len() != "GenericEvent"@.len());
    assert("TaskScheduled"@.len() != "HistoryState"@.len());
    assert("TaskScheduled"@[0] != "ContinueAsNew"@[0]);
    assert("TaskScheduled"@.len() != "ExecutionSuspended"@.len());
    assert("TaskScheduled"@.len() != "ExecutionResumed"@.len());
    assert("TaskCompleted"@.len() != "TaskFailed"@.len());
    assert("TaskCompleted"@.len() != "SubOrchestrationInstanceCreated"@.len());
    assert("TaskCompleted"@.len() != "SubOrchestrationInstanceCompleted"@.len());
    assert("TaskCompleted"@.len() != "SubOrchestrationInstanceFailed"@.len());
    assert("TaskCompleted"@.len() != "TimerCreated"@.len());
    assert("TaskCompleted"@.len() != "TimerFired"@.len());
    assert("TaskCompleted"@.len() != "OrchestratorStarted"@.len());
    assert("TaskCompleted"@.len() != "OrchestratorCompleted"@.len());
    assert("TaskCompleted"@.len() != "EventSent"@.len());
    assert("TaskCompleted"@.len() != "EventRaised"@.len());
    assert("TaskCompleted"@.len() != "GenericEvent"@.len());
    assert("TaskCompleted"@.len() != "HistoryState"@.len());
    assert("TaskCompleted"@[0] != "ContinueAsNew"@[0]);
    assert("TaskCompleted"@.len() != "ExecutionSuspended"@.len());
    assert("TaskCompleted"@.len() != "ExecutionResumed"@.len());
    assert("TaskFailed"@.len() != "SubOrchestrationInstanceCreated"@.len());
    assert("TaskFailed"@.len() != "SubOrchestrationInstanceCompleted"@.len());
    assert("TaskFailed"@.len() != "SubOrchestrationInstanceFailed"@.len());
    assert("TaskFailed"@.len() != "TimerCreated"@.len());
    assert("TaskFailed"@[1] != "TimerFired"@[1]);
    assert("TaskFailed"@.len() != "OrchestratorStarted"@.len());
    assert("TaskFailed"@.len() != "OrchestratorCompleted"@.len());
    assert("TaskFailed"@.len() != "EventSent"@.len());
    assert("TaskFailed"@.len() != "EventRaised"@.len());
    assert("TaskFailed"@.len() != "GenericEvent"@.len());
    assert("TaskFailed"@.len() != "HistoryState"@.len());
    assert("TaskFailed"@.len() != "ContinueAsNew"@.len());
    assert("TaskFailed"@.len() != "ExecutionSuspended"@.len());
    assert("TaskFailed"@.len() != "ExecutionResumed"@.len());
    assert("SubOrchestrationInstanceCreated"@.len() != "SubOrchestrationInstanceCompleted"@.len());
    assert("SubOrchestrationInstanceCreated"@.len() != "SubOrchestrationInstanceFailed"@.len());
    assert("SubOrchestrationInstanceCreated"@.len() != "TimerCreated"@.len());
    assert("SubOrchestrationInstanceCreated"@.len() != "TimerFired"@.len());
    assert("SubOrchestrationInstanceCreated"@.len() != "OrchestratorStarted"@.len());
    assert("SubOrchestrationInstanceCreated"@.len() != "OrchestratorCompleted"@.len());
    assert("SubOrchestrationInstanceCreated"@.len() != "EventSent"@.len());
    assert("SubOrchestrationInstanceCreated"@.len() != "EventRaised"@.len());
    assert("SubOrchestrationInstanceCreated"@.len() != "GenericEvent"@.len());
    assert("SubOrchestrationInstanceCreated"@.len() != "HistoryState"@.len());
    assert("SubOrchestrationInstanceCreated"@.len() != "ContinueAsNew"@.len());
    assert("SubOrchestrationInstanceCreated"@.len() != "ExecutionSuspended"@.len());
    assert("SubOrchestrationInstanceCreated"@.len() != "ExecutionResumed"@.len());
    assert("SubOrchestrationInstanceCompleted"@.len() != "SubOrchestrationInstanceFailed"@.len());
    assert("SubOrchestrationInstanceCompleted"@.len() != "TimerCreated"@.len());
    assert("SubOrchestrationInstanceCompleted"@.len() != "TimerFired"@.len());
    assert("SubOrchestrationInstanceCompleted"@.len() != "OrchestratorStarted"@.len());
    assert("SubOrchestrationInstanceCompleted"@.len() != "OrchestratorCompleted"@.len());
    assert("SubOrchestrationInstanceCompleted"@.len() != "EventSent"@.len());
    assert("SubOrchestrationInstanceCompleted"@.len() != "EventRaised"@.len());
    assert("SubOrchestrationInstanceCompleted"@.len() != "GenericEvent"@.len());
    assert("SubOrchestrationInstanceCompleted"@.len() != "HistoryState"@.len());
    assert("SubOrchestrationInstanceCompleted"@.len() != "ContinueAsNew"@.len());
    assert("SubOrchestrationInstanceCompleted"@.len() != "ExecutionSuspended"@.len());
    assert("SubOrchestrationInstanceCompleted"@.len() != "ExecutionResumed"@.len());
    assert("SubOrchestrationInstanceFailed"@.len() != "TimerCreated"@.len());
    assert("SubOrchestrationInstanceFailed"@.len() != "TimerFired"@.len());
    assert("SubOrchestrationInstanceFailed"@.len() != "OrchestratorStarted"@.len());
    assert("SubOrchestrationInstanceFailed"@.len() != "OrchestratorCompleted"@.len());
    assert("SubOrchestrationInstanceFailed"@.len() != "EventSent"@.len());
    assert("SubOrchestrationInstanceFailed"@.len() != "EventRaised"@.len());
    assert("SubOrchestrationInstanceFailed"@.len() != "GenericEvent"@.len());
    assert("SubOrchestrationInstanceFailed"@.len() != "HistoryState"@.len());
    assert("SubOrchestrationInstanceFailed"@.len() != "ContinueAsNew"@.len());
    assert("SubOrchestrationInstanceFailed"@.len() != "ExecutionSuspended"@.len());
    assert("SubOrchestrationInstanceFailed"@.len() != "ExecutionResumed"@.len());
    assert("TimerCreated"@.len() != "TimerFired"@.len());
    assert("TimerCreated"@.len() != "OrchestratorStarted"@.len());
    assert("TimerCreated"@.len() != "OrchestratorCompleted"@.len());
    assert("TimerCreated"@.len() != "EventSent"@.len());
    assert("TimerCreated"@.len() != "EventRaised"@.len());
    assert("TimerCreated"@[0] != "GenericEvent"@[0]);
    assert("TimerCreated"@[0] != "HistoryState"@[0]);
    assert("TimerCreated"@.len() != "ContinueAsNew"@.len());
    assert("TimerCreated"@.len() != "ExecutionSuspended"@.len());
    assert("TimerCreated"@.len() != "ExecutionResumed"@.len());
    assert("TimerFired"@.len() != "OrchestratorStarted"@.len());
    assert("TimerFired"@.len() != "OrchestratorCompleted"@.len());
    assert("TimerFired"@.len() != "EventSent"@.len());
    assert("TimerFired"@.len() != "EventRaised"@.len());
    assert("TimerFired"@.len() != "GenericEvent"@.len());
    assert("TimerFired"@.len() != "HistoryState"@.len());
    assert("TimerFired"@.len() != "ContinueAsNew"@.len());
    assert("TimerFired"@.len() != "ExecutionSuspended"@.len());
    assert("TimerFired"@.len() != "ExecutionResumed"@.len());
    assert("OrchestratorStarted"@.len() != "OrchestratorCompleted"@.len());
    assert("OrchestratorStarted"@.len() != "EventSent"@.len());
    assert("OrchestratorStarted"@.len() != "EventRaised"@.len());
    assert("OrchestratorStarted"@.len() != "GenericEvent"@.len());
    assert("OrchestratorStarted"@.len() != "HistoryState"@.len());
    assert("OrchestratorStarted"@.len() != "ContinueAsNew"@.len());
    assert("OrchestratorStarted"@.len() != "ExecutionSuspended"@.len());
    assert("OrchestratorStarted"@.len() != "ExecutionResumed"@.len());
    assert("OrchestratorCompleted"@.len() != "EventSent"@.len());
    assert("OrchestratorCompleted"@.len() != "EventRaised"@.len());
    assert("OrchestratorCompleted"@.len() != "GenericEvent"@.len());
    assert("OrchestratorCompleted"@.len() != "HistoryState"@.len());
    assert("OrchestratorCompleted"@.len() != "ContinueAsNew"@.len());
    assert("OrchestratorCompleted"@.len() != "ExecutionSuspended"@.len());
    assert("OrchestratorCompleted"@.len() != "ExecutionResumed"@.len());
    assert("EventSent"@.len() != "EventRaised"@.len());
    assert("EventSent"@.len() != "GenericEvent"@.len());
    assert("EventSent"@.len() != "HistoryState"@.len());
    assert("EventSent"@.len() != "ContinueAsNew"@.len());
    assert("EventSent"@.len() != "ExecutionSuspended"@.len());
    assert("EventSent"@.len() != "ExecutionResumed"@.len());
    assert("EventRaised"@.len() != "GenericEvent"@.len());
    assert("EventRaised"@.len() != "HistoryState"@.len());
    assert("EventRaised"@.len() != "ContinueAsNew"@.len());
    assert("EventRaised"@.len() != "ExecutionSuspended"@.len());
    assert("EventRaised"@.len() != "ExecutionResumed"@.len());
    assert("GenericEvent"@[0] != "HistoryState"@[0]);
    assert("GenericEvent"@.len() != "ContinueAsNew"@.len());
    assert("GenericEvent"@.len() != "ExecutionSuspended"@.len());
    assert("GenericEvent"@.len() != "ExecutionResumed"@.len());
    assert("HistoryState"@.len() != "ContinueAsNew"@.len());
    assert("HistoryState"@.len() != "ExecutionSuspended"@.len());
    assert("HistoryState"@.len() != "ExecutionResumed"@.len());
    assert("ContinueAsNew"@.len() != "ExecutionSuspended"@.len());
    assert("ContinueAsNew"@.len() != "ExecutionResumed"@.len());
    assert("ExecutionSuspended"@.len() != "ExecutionResumed"@.len());
}

/// Whether two action kinds are of the same kind (both absent counts as the same).
pub open spec fn same_action_kind(a: Option<OrchestratorActionType>, b: Option<OrchestratorActionType>) -> bool {
    match (a, b) {
        (None, None) => true,
        (Some(OrchestratorActionType::ScheduleTask(_)), Some(OrchestratorActionType::ScheduleTask(_))) => true,
        (Some(OrchestratorActionType::CreateSubOrchestration(_)), Some(OrchestratorActionType::CreateSubOrchestration(_))) => true,
        (Some(OrchestratorActionType::CreateTimer(_)), Some(OrchestratorActionType::CreateTimer(_))) => true,
        (Some(OrchestratorActionType::SendEvent(_)), Some(OrchestratorActionType::SendEvent(_))) => true,
        (Some(OrchestratorActionType::CompleteOrchestration(_)), Some(OrchestratorActionType::CompleteOrchestration(_))) => true,
        (Some(OrchestratorActionType::TerminateOrchestration(_)), Some(OrchestratorActionType::TerminateOrchestration(_))) => true,
        _ => false,
    }
}

/// Each kind of action is named by its own name: completing an
/// orchestration is never named as terminating it, and two actions share a
/// name exactly when they are of the same kind. An action with no kind has
/// the empty name.
pub proof fn lemma_action_type_names(t: Option<OrchestratorActionType>, u: Option<OrchestratorActionType>)
    ensures
        t is None ==> action_type_name(t) == Seq::<char>::empty(),
        t matches Some(OrchestratorActionType::ScheduleTask(_)) ==> action_type_name(t) == "ScheduleTask"@,
        t matches Some(OrchestratorActionType::CreateSubOrchestration(_)) ==> action_type_name(t) == "CreateSubOrchestration"@,
        t matches Some(OrchestratorActionType::CreateTimer(_)) ==> action_type_name(t) == "CreateTimer"@,
        t matches Some(OrchestratorActionType::SendEvent(_)) ==> action_type_name(t) == "SendEvent"@,
        t matches Some(OrchestratorActionType::CompleteOrchestration(_)) ==> action_type_name(t) == "CompleteOrchestration"@,
        t matches Some(OrchestratorActionType::TerminateOrchestration(_)) ==> action_type_name(t) == "TerminateOrchestration"@,
        action_type_name(t) == action_type_name(u) <==> same_action_kind(t, u),
{
    reveal_strlit("ScheduleTask");
    reveal_strlit("CreateSubOrchestration");
    reveal_strlit("CreateTimer");
    reveal_strlit("SendEvent");
    reveal_strlit("CompleteOrchestration");
    reveal_strlit("TerminateOrchestration");
    assert("ScheduleTask"@.len() != "CreateSubOrchestration"@.len());
    assert("ScheduleTask"@.len() != "CreateTimer"@.len());
    assert("ScheduleTask"@.len() != "SendEvent"@.len());
    assert("ScheduleTask"@.len() != "CompleteOrchestration"@.len());
    assert("ScheduleTask"@.len() != "TerminateOrchestration"@.len());
    assert("CreateSubOrchestration"@.len() != "CreateTimer"@.len());
    assert("CreateSubOrchestration"@.len() != "SendEvent"@.len());
    assert("CreateSubOrchestration"@.len() != "CompleteOrchestration"@.len());
    assert("CreateSubOrchestration"@[0] != "TerminateOrchestration"@[0]);
    assert("CreateTimer"@.len() != "SendEvent"@.len());
    assert("CreateTimer"@.len() != "CompleteOrchestration"@.len());
    assert("CreateTimer"@.len() != "TerminateOrchestration"@.len());
    assert("SendEvent"@.len() != "CompleteOrchestration"@.len());
    assert("SendEvent"@.len() != "TerminateOrchestration"@.len());
    assert("CompleteOrchestration"@.len() != "TerminateOrchestration"@.len());
}

/// An event with its own id belongs to that id. An event without one (a
/// negative id) that reports on earlier work belongs to the task, timer or
/// parent task it names: the scheduled task of a task's or a
/// sub-orchestration's completion or failure, the timer that fired, the
/// parent's task of a sub-orchestration's start. Any other event belongs to
/// no task (-1).
pub proof fn lemma_task_id_of_events(e: HistoryEvent)
    ensures
        e.event_id >= 0 ==> task_id_of(e) == e.event_id,
        e.event_id < 0 ==> (e.event_type matches Some(EventType::TaskCompleted(c))
            ==> task_id_of(e) == c.task_scheduled_id),
        e.event_id < 0 ==> (e.event_type matches Some(EventType::TaskFailed(f))
            ==> task_id_of(e) == f.task_scheduled_id),
        e.event_id < 0 ==> (e.event_type matches Some(EventType::SubOrchestrationInstanceCompleted(c))
            ==> task_id_of(e) == c.task_scheduled_id),
        e.event_id < 0 ==> (e.event_type matches Some(EventType::SubOrchestrationInstanceFailed(f))
            ==> task_id_of(e) == f.task_scheduled_id),
        e.event_id < 0 ==> (e.event_type matches Some(EventType::TimerFired(f))
            ==> task_id_of(e) == f.timer_id),
        e.event_id < 0 ==> (e.event_type matches Some(EventType::ExecutionStarted(s))
            ==> task_id_of(e) == match s.parent_instance {
                Some(p) => p.task_scheduled_id,
                None => -1i32,
            }),
        e.event_id < 0 && !(e.event_type matches Some(EventType::TaskCompleted(_)))
            && !(e.event_type matches Some(EventType::TaskFailed(_)))
            && !(e.event_type matches Some(EventType::SubOrchestrationInstanceCompleted(_)))
            && !(e.event_type matches Some(EventType::SubOrchestrationInstanceFailed(_)))
            && !(e.event_type matches Some(EventType::TimerFired(_)))
            && !(e.event_type matches Some(EventType::ExecutionStarted(_))) ==> task_id_of(e) == -1,
{
}

/// A reply and the request it answers belong to the same task: a task's
/// completion or failure and the scheduling of that task, a
/// sub-orchestration's completion or failure and its creation, a fired timer
/// and the timer's creation.
pub proof fn lemma_reply_shares_request_task(request: HistoryEvent, reply: HistoryEvent)
    requires
        request.event_id >= 0,
        reply.event_id < 0,
    ensures
        (request.event_type matches Some(EventType::TaskScheduled(_))) ==> (
            reply.event_type matches Some(EventType::TaskCompleted(c)) ==> (
                c.task_scheduled_id == request.event_id ==> task_id_of(reply) == task_id_of(request))),
        (request.event_type matches Some(EventType::TaskScheduled(_))) ==> (
            reply.event_type matches Some(EventType::TaskFailed(f)) ==> (
                f.task_scheduled_id == request.event_id ==> task_id_of(reply) == task_id_of(request))),
        (request.event_type matches Some(EventType::SubOrchestrationInstanceCreated(_))) ==> (
            reply.event_type matches Some(EventType::SubOrchestrationInstanceCompleted(c)) ==> (
                c.task_scheduled_id == request.event_id ==> task_id_of(reply) == task_id_of(request))),
        (request.event_type matches Some(EventType::SubOrchestrationInstanceCreated(_))) ==> (
            reply.event_type matches Some(EventType::SubOrchestrationInstanceFailed(f)) ==> (
                f.task_scheduled_id == request.event_id ==> task_id_of(reply) == task_id_of(request))),
        (request.event_type matches Some(EventType::TimerCreated(_))) ==> (
            reply.event_type matches Some(EventType::TimerFired(f)) ==> (
                f.timer_id == request.event_id ==> task_id_of(reply) == task_id_of(request))),
{
}

/// A summary lists its items in order, each shown by itself, separated by
/// `, ` and framed by `[` and `]`: one item shows as `[item]`, two as
/// `[first, second]`, and an empty list as `[]`.
pub proof fn lemma_summary_lists_items_in_order(
    e1: HistoryEvent,
    e2: HistoryEvent,
    a1: OrchestratorAction,
    a2: OrchestratorAction,
)
    ensures
        history_summary(Seq::empty()) == "[]"@,
        history_summary(seq![e1]) == "["@ + event_summary(e1) + "]"@,
        history_summary(seq![e1, e2]) == "["@ + event_summary(e1) + ", "@ + event_summary(e2)
            + "]"@,
        actions_summary(Seq::empty()) == "[]"@,
        actions_summary(seq![a1]) == "["@ + action_summary(a1) + "]"@,
        actions_summary(seq![a1, a2]) == "["@ + action_summary(a1) + ", "@ + action_summary(a2)
            + "]"@,
{
    reveal_strlit("[]");
    reveal_strlit("[");
    reveal_strlit("]");
    let ev = |e: HistoryEvent| event_summary(e);
    let ac = |a: OrchestratorAction| action_summary(a);
    assert(Seq::<HistoryEvent>::empty().map_values(ev) =~= Seq::empty());
    assert(seq![e1].map_values(ev) =~= seq![event_summary(e1)]);
    assert(seq![e1, e2].map_values(ev) =~= seq![event_summary(e1), event_summary(e2)]);
    let p2 = seq![event_summary(e1), event_summary(e2)];
    assert(p2.drop_last() =~= seq![event_summary(e1)]);
    assert(join_parts(p2.drop_last()) == event_summary(e1));
    assert(join_parts(p2) == event_summary(e1) + ", "@ + event_summary(e2));
    assert(Seq::<OrchestratorAction>::empty().map_values(ac) =~= Seq::empty());
    assert(seq![a1].map_values(ac) =~= seq![action_summary(a1)]);
    assert(seq![a1, a2].map_values(ac) =~= seq![action_summary(a1), action_summary(a2)]);
    let q2 = seq![action_summary(a1), action_summary(a2)];
    assert(q2.drop_last() =~= seq![action_summary(a1)]);
    assert(join_parts(q2.drop_last()) == action_summary(a1));
    assert(join_parts(q2) == action_summary(a1) + ", "@ + action_summary(a2));
    assert(history_summary(Seq::empty()) =~= "[]"@);
    assert(actions_summary(Seq::empty()) =~= "[]"@);
    assert(history_summary(seq![e1, e2]) =~= "["@ + event_summary(e1) + ", "@ + event_summary(e2)
        + "]"@);
    assert(actions_summary(seq![a1, a2]) =~= "["@ + action_summary(a1) + ", "@ + action_summary(a2)
        + "]"@);
}

} // verus!
