//! Durable Task protocol messages (package `durabletask`): orchestration
//! history events, orchestrator actions, and the runtime status names.

use vstd::prelude::*;

use crate::durabletask::time::Timestamp;
use crate::text::str_eq;

verus! {

/// An orchestration instance and one of its executions.
#[derive(Clone, Debug, PartialEq, Eq, Default)]
pub struct OrchestrationInstance {
    pub instance_id: String,
    pub execution_id: Option<String>,
}

/// Details of a task or orchestration failure.
#[derive(Debug, PartialEq, Eq)]
pub struct TaskFailureDetails {
    pub error_type: String,
    pub error_message: String,
    pub stack_trace: Option<String>,
    pub inner_failure: Option<Box<TaskFailureDetails>>,
    pub is_non_retriable: bool,
}

impl TaskFailureDetails {
    /// A copy of `self`, field by field, down the chain of inner failures.
    pub fn duplicate(&self) -> (r: TaskFailureDetails)
        ensures
            r == *self,
        decreases self,
    {
        let inner = match &self.inner_failure {
            Some(b) => Some(Box::new((&**b).duplicate())),
            None => None,
        };
        TaskFailureDetails {
            error_type: self.error_type.clone(),
            error_message: self.error_message.clone(),
            stack_trace: match &self.stack_trace {
                Some(t) => Some(t.clone()),
                None => None,
            },
            inner_failure: inner,
            is_non_retriable: self.is_non_retriable,
        }
    }
}

impl Clone for TaskFailureDetails {
    fn clone(&self) -> (r: Self)
        ensures
            r == *self,
    {
        self.duplicate()
    }
}

/// The parent of a sub-orchestration.
#[derive(Clone, Debug, PartialEq, Eq, Default)]
pub struct ParentInstanceInfo {
    pub task_scheduled_id: i32,
    pub name: Option<String>,
    pub version: Option<String>,
    pub orchestration_instance: Option<OrchestrationInstance>,
}

/// W3C trace context carried across orchestration boundaries.
#[derive(Clone, Debug, PartialEq, Eq, Default)]
pub struct TraceContext {
    pub trace_parent: String,
    pub span_id: String,
    pub trace_state: Option<String>,
}

/// The state of an orchestration instance.
#[derive(Clone, Debug, PartialEq, Eq, Default)]
pub struct OrchestrationState {
    pub instance_id: String,
    pub name: String,
    pub version: Option<String>,
    pub orchestration_status: i32,
    pub scheduled_start_timestamp: Option<Timestamp>,
    pub created_timestamp: Option<Timestamp>,
    pub last_updated_timestamp: Option<Timestamp>,
    pub input: Option<String>,
    pub output: Option<String>,
    pub custom_status: Option<String>,
    pub failure_details: Option<TaskFailureDetails>,
    pub execution_id: Option<String>,
    pub completed_timestamp: Option<Timestamp>,
    pub parent_instance_id: Option<String>,
}

#[derive(Clone, Debug, PartialEq, Eq, Default)]
pub struct ExecutionStartedEvent {
    pub name: String,
    pub version: Option<String>,
    pub input: Option<String>,
    pub orchestration_instance: Option<OrchestrationInstance>,
    pub parent_instance: Option<ParentInstanceInfo>,
    pub scheduled_start_timestamp: Option<Timestamp>,
    pub parent_trace_context: Option<TraceContext>,
    pub orchestration_span_id: Option<String>,
}

#[derive(Clone, Debug, PartialEq, Eq, Default)]
pub struct ExecutionCompletedEvent {
    pub orchestration_status: i32,
    pub result: Option<String>,
    pub failure_details: Option<TaskFailureDetails>,
}

#[derive(Clone, Debug, PartialEq, Eq, Default)]
pub struct ExecutionTerminatedEvent {
    pub input: Option<String>,
    pub recurse: bool,
}

#[derive(Clone, Debug, PartialEq, Eq, Default)]
pub struct TaskScheduledEvent {
    pub name: String,
    pub version: Option<String>,
    pub input: Option<String>,
    pub parent_trace_context: Option<TraceContext>,
}

#[derive(Clone, Debug, PartialEq, Eq, Default)]
pub struct TaskCompletedEvent {
    pub task_scheduled_id: i32,
    pub result: Option<String>,
}

#[derive(Clone, Debug, PartialEq, Eq, Default)]
pub struct TaskFailedEvent {
    pub task_scheduled_id: i32,
    pub failure_details: Option<TaskFailureDetails>,
}

#[derive(Clone, Debug, PartialEq, Eq, Default)]
pub struct SubOrchestrationInstanceCreatedEvent {
    pub instance_id: String,
    pub name: String,
    pub version: Option<String>,
    pub input: Option<String>,
    pub parent_trace_context: Option<TraceContext>,
}

#[derive(Clone, Debug, PartialEq, Eq, Default)]
pub struct SubOrchestrationInstanceCompletedEvent {
    pub task_scheduled_id: i32,
    pub result: Option<String>,
}

#[derive(Clone, Debug, PartialEq, Eq, Default)]
pub struct SubOrchestrationInstanceFailedEvent {
    pub task_scheduled_id: i32,
    pub failure_details: Option<TaskFailureDetails>,
}

#[derive(Clone, Debug, PartialEq, Eq, Default)]
pub struct TimerCreatedEvent {
    pub fire_at: Option<Timestamp>,
}

#[derive(Clone, Debug, PartialEq, Eq, Default)]
pub struct TimerFiredEvent {
    pub fire_at: Option<Timestamp>,
    pub timer_id: i32,
}

#[derive(Clone, Debug, PartialEq, Eq, Default)]
pub struct OrchestratorStartedEvent {}

#[derive(Clone, Debug, PartialEq, Eq, Default)]
pub struct OrchestratorCompletedEvent {}

#[derive(Clone, Debug, PartialEq, Eq, Default)]
pub struct EventSentEvent {
    pub instance_id: String,
    pub name: String,
    pub input: Option<String>,
}

#[derive(Clone, Debug, PartialEq, Eq, Default)]
pub struct EventRaisedEvent {
    pub name: String,
    pub input: Option<String>,
}

#[derive(Clone, Debug, PartialEq, Eq, Default)]
pub struct GenericEvent {
    pub data: Option<String>,
}

#[derive(Clone, Debug, PartialEq, Eq, Default)]
pub struct HistoryStateEvent {
    pub orchestration_state: Option<OrchestrationState>,
}

#[derive(Clone, Debug, PartialEq, Eq, Default)]
pub struct ContinueAsNewEvent {
    pub input: Option<String>,
}

#[derive(Clone, Debug, PartialEq, Eq, Default)]
pub struct ExecutionSuspendedEvent {
    pub input: Option<String>,
}

#[derive(Clone, Debug, PartialEq, Eq, Default)]
pub struct ExecutionResumedEvent {
    pub input: Option<String>,
}

/// The kind of a history event, with its payload.
#[derive(Clone, Debug, PartialEq, Eq)]
pub enum EventType {
    ExecutionStarted(ExecutionStartedEvent),
    ExecutionCompleted(ExecutionCompletedEvent),
    ExecutionTerminated(ExecutionTerminatedEvent),
    TaskScheduled(TaskScheduledEvent),
    TaskCompleted(TaskCompletedEvent),
    TaskFailed(TaskFailedEvent),
    SubOrchestrationInstanceCreated(SubOrchestrationInstanceCreatedEvent),
    SubOrchestrationInstanceCompleted(SubOrchestrationInstanceCompletedEvent),
    SubOrchestrationInstanceFailed(SubOrchestrationInstanceFailedEvent),
    TimerCreated(TimerCreatedEvent),
    TimerFired(TimerFiredEvent),
    OrchestratorStarted(OrchestratorStartedEvent),
    OrchestratorCompleted(OrchestratorCompletedEvent),
    EventSent(EventSentEvent),
    EventRaised(EventRaisedEvent),
    GenericEvent(GenericEvent),
    HistoryState(HistoryStateEvent),
    ContinueAsNew(ContinueAsNewEvent),
    ExecutionSuspended(ExecutionSuspendedEvent),
    ExecutionResumed(ExecutionResumedEvent),
}

/// One event of an orchestration's history.
#[derive(Clone, Debug, PartialEq, Eq, Default)]
pub struct HistoryEvent {
    pub event_id: i32,
    pub timestamp: Option<Timestamp>,
    pub event_type: Option<EventType>,
}

#[derive(Clone, Debug, PartialEq, Eq, Default)]
pub struct ScheduleTaskAction {
    pub name: String,
    pub version: Option<String>,
    pub input: Option<String>,
}

#[derive(Clone, Debug, PartialEq, Eq, Default)]
pub struct CreateSubOrchestrationAction {
    pub instance_id: String,
    pub name: String,
    pub version: Option<String>,
    pub input: Option<String>,
}

#[derive(Clone, Debug, PartialEq, Eq, Default)]
pub struct CreateTimerAction {
    pub fire_at: Option<Timestamp>,
}

#[derive(Clone, Debug, PartialEq, Eq, Default)]
pub struct SendEventAction {
    pub instance: Option<OrchestrationInstance>,
    pub name: String,
    pub data: Option<String>,
}

#[derive(Clone, Debug, PartialEq, Eq, Default)]
pub struct CompleteOrchestrationAction {
    pub orchestration_status: i32,
    pub result: Option<String>,
    pub details: Option<String>,
    pub new_version: Option<String>,
    pub carryover_events: Vec<HistoryEvent>,
    pub failure_details: Option<TaskFailureDetails>,
}

#[derive(Clone, Debug, PartialEq, Eq, Default)]
pub struct TerminateOrchestrationAction {
    pub instance_id: String,
    pub reason: Option<String>,
    pub recurse: bool,
}

/// The kind of an orchestrator action, with its payload.
#[derive(Clone, Debug, PartialEq, Eq)]
pub enum OrchestratorActionType {
    ScheduleTask(ScheduleTaskAction),
    CreateSubOrchestration(CreateSubOrchestrationAction),
    CreateTimer(CreateTimerAction),
    SendEvent(SendEventAction),
    CompleteOrchestration(CompleteOrchestrationAction),
    TerminateOrchestration(TerminateOrchestrationAction),
}

/// An action that an orchestrator asks the backend to carry out.
#[derive(Clone, Debug, PartialEq, Eq, Default)]
pub struct OrchestratorAction {
    pub id: i32,
    pub orchestrator_action_type: Option<OrchestratorActionType>,
}

/// The runtime status of an orchestration.
#[derive(Clone, Copy, Debug, PartialEq, Eq, Hash, PartialOrd, Ord, Structural)]
pub enum OrchestrationStatus {
    Running,
    Completed,
    ContinuedAsNew,
    Failed,
    Canceled,
    Terminated,
    Pending,
    Suspended,
    Stalled,
}

/// The ProtoBuf name of each `OrchestrationStatus` value.
pub open spec fn orchestration_status_name(v: OrchestrationStatus) -> Seq<char> {
    match v {
        OrchestrationStatus::Running => "ORCHESTRATION_STATUS_RUNNING"@,
        OrchestrationStatus::Completed => "ORCHESTRATION_STATUS_COMPLETED"@,
        OrchestrationStatus::ContinuedAsNew => "ORCHESTRATION_STATUS_CONTINUED_AS_NEW"@,
        OrchestrationStatus::Failed => "ORCHESTRATION_STATUS_FAILED"@,
        OrchestrationStatus::Canceled => "ORCHESTRATION_STATUS_CANCELED"@,
        OrchestrationStatus::Terminated => "ORCHESTRATION_STATUS_TERMINATED"@,
        OrchestrationStatus::Pending => "ORCHESTRATION_STATUS_PENDING"@,
        OrchestrationStatus::Suspended => "ORCHESTRATION_STATUS_SUSPENDED"@,
        OrchestrationStatus::Stalled => "ORCHESTRATION_STATUS_STALLED"@,
    }
}

/// The `OrchestrationStatus` value whose ProtoBuf name is `s`, if any.
pub open spec fn orchestration_status_from_name(s: Seq<char>) -> Option<OrchestrationStatus> {
    if s == "ORCHESTRATION_STATUS_RUNNING"@ {
        Some(OrchestrationStatus::Running)
    } else if s == "ORCHESTRATION_STATUS_COMPLETED"@ {
        Some(OrchestrationStatus::Completed)
    } else if s == "ORCHESTRATION_STATUS_CONTINUED_AS_NEW"@ {
        Some(OrchestrationStatus::ContinuedAsNew)
    } else if s == "ORCHESTRATION_STATUS_FAILED"@ {
        Some(OrchestrationStatus::Failed)
    } else if s == "ORCHESTRATION_STATUS_CANCELED"@ {
        Some(OrchestrationStatus::Canceled)
    } else if s == "ORCHESTRATION_STATUS_TERMINATED"@ {
        Some(OrchestrationStatus::Terminated)
    } else if s == "ORCHESTRATION_STATUS_PENDING"@ {
        Some(OrchestrationStatus::Pending)
    } else if s == "ORCHESTRATION_STATUS_SUSPENDED"@ {
        Some(OrchestrationStatus::Suspended)
    } else if s == "ORCHESTRATION_STATUS_STALLED"@ {
        Some(OrchestrationStatus::Stalled)
    } else {
        None
    }
}

/// Each status's name reads back as that status, and a name reads as a status only if it is that status's name.
pub proof fn lemma_orchestration_status_name_round_trip(v: OrchestrationStatus, s: Seq<char>)
    ensures
        orchestration_status_from_name(orchestration_status_name(v)) == Some(v),
        orchestration_status_from_name(s) == Some(v) ==> orchestration_status_name(v) == s,
{
    reveal_strlit("ORCHESTRATION_STATUS_RUNNING");
    reveal_strlit("ORCHESTRATION_STATUS_COMPLETED");
    reveal_strlit("ORCHESTRATION_STATUS_CONTINUED_AS_NEW");
    reveal_strlit("ORCHESTRATION_STATUS_FAILED");
    reveal_strlit("ORCHESTRATION_STATUS_CANCELED");
    reveal_strlit("ORCHESTRATION_STATUS_TERMINATED");
    reveal_strlit("ORCHESTRATION_STATUS_PENDING");
    reveal_strlit("ORCHESTRATION_STATUS_SUSPENDED");
    reveal_strlit("ORCHESTRATION_STATUS_STALLED");
    assert("ORCHESTRATION_STATUS_RUNNING"@.len() != "ORCHESTRATION_STATUS_COMPLETED"@.len());
    assert("ORCHESTRATION_STATUS_RUNNING"@.len() != "ORCHESTRATION_STATUS_CONTINUED_AS_NEW"@.len());
    assert("ORCHESTRATION_STATUS_RUNNING"@.len() != "ORCHESTRATION_STATUS_FAILED"@.len());
    assert("ORCHESTRATION_STATUS_RUNNING"@.len() != "ORCHESTRATION_STATUS_CANCELED"@.len());
    assert("ORCHESTRATION_STATUS_RUNNING"@.len() != "ORCHESTRATION_STATUS_TERMINATED"@.len());
    assert("ORCHESTRATION_STATUS_RUNNING"@[21] != "ORCHESTRATION_STATUS_PENDING"@[21]);
    assert("ORCHESTRATION_STATUS_RUNNING"@.len() != "ORCHESTRATION_STATUS_SUSPENDED"@.len());
    assert("ORCHESTRATION_STATUS_RUNNING"@[21] != "ORCHESTRATION_STATUS_STALLED"@[21]);
    assert("ORCHESTRATION_STATUS_COMPLETED"@.len() != "ORCHESTRATION_STATUS_CONTINUED_AS_NEW"@.len());
    assert("ORCHESTRATION_STATUS_COMPLETED"@.len() != "ORCHESTRATION_STATUS_FAILED"@.len());
    assert("ORCHESTRATION_STATUS_COMPLETED"@.len() != "ORCHESTRATION_STATUS_CANCELED"@.len());
    assert("ORCHESTRATION_STATUS_COMPLETED"@.len() != "ORCHESTRATION_STATUS_TERMINATED"@.len());
    assert("ORCHESTRATION_STATUS_COMPLETED"@.len() != "ORCHESTRATION_STATUS_PENDING"@.len());
    assert("ORCHESTRATION_STATUS_COMPLETED"@[21] != "ORCHESTRATION_STATUS_SUSPENDED"@[21]);
    assert("ORCHESTRATION_STATUS_COMPLETED"@.len() != "ORCHESTRATION_STATUS_STALLED"@.len());
    assert("ORCHESTRATION_STATUS_CONTINUED_AS_NEW"@.len() != "ORCHESTRATION_STATUS_FAILED"@.len());
    assert("ORCHESTRATION_STATUS_CONTINUED_AS_NEW"@.len() != "ORCHESTRATION_STATUS_CANCELED"@.len());
    assert("ORCHESTRATION_STATUS_CONTINUED_AS_NEW"@.len() != "ORCHESTRATION_STATUS_TERMINATED"@.len());
    assert("ORCHESTRATION_STATUS_CONTINUED_AS_NEW"@.len() != "ORCHESTRATION_STATUS_PENDING"@.len());
    assert("ORCHESTRATION_STATUS_CONTINUED_AS_NEW"@.len() != "ORCHESTRATION_STATUS_SUSPENDED"@.len());
    assert("ORCHESTRATION_STATUS_CONTINUED_AS_NEW"@.len() != "ORCHESTRATION_STATUS_STALLED"@.len());
    assert("ORCHESTRATION_STATUS_FAILED"@.len() != "ORCHESTRATION_STATUS_CANCELED"@.len());
    assert("ORCHESTRATION_STATUS_FAILED"@.len() != "ORCHESTRATION_STATUS_TERMINATED"@.len());
    assert("ORCHESTRATION_STATUS_FAILED"@.len() != "ORCHESTRATION_STATUS_PENDING"@.len());
    assert("ORCHESTRATION_STATUS_FAILED"@.len() != "ORCHESTRATION_STATUS_SUSPENDED"@.len());
    assert("ORCHESTRATION_STATUS_FAILED"@.len() != "ORCHESTRATION_STATUS_STALLED"@.len());
    assert("ORCHESTRATION_STATUS_CANCELED"@.len() != "ORCHESTRATION_STATUS_TERMINATED"@.len());
    assert("ORCHESTRATION_STATUS_CANCELED"@.len() != "ORCHESTRATION_STATUS_PENDING"@.len());
    assert("ORCHESTRATION_STATUS_CANCELED"@.len() != "ORCHESTRATION_STATUS_SUSPENDED"@.len());
    assert("ORCHESTRATION_STATUS_CANCELED"@.len() != "ORCHESTRATION_STATUS_STALLED"@.len());
    assert("ORCHESTRATION_STATUS_TERMINATED"@.len() != "ORCHESTRATION_STATUS_PENDING"@.len());
    assert("ORCHESTRATION_STATUS_TERMINATED"@.len() != "ORCHESTRATION_STATUS_SUSPENDED"@.len());
    assert("ORCHESTRATION_STATUS_TERMINATED"@.len() != "ORCHESTRATION_STATUS_STALLED"@.len());
    assert("ORCHESTRATION_STATUS_PENDING"@.len() != "ORCHESTRATION_STATUS_SUSPENDED"@.len());
    assert("ORCHESTRATION_STATUS_PENDING"@[21] != "ORCHESTRATION_STATUS_STALLED"@[21]);
    assert("ORCHESTRATION_STATUS_SUSPENDED"@.len() != "ORCHESTRATION_STATUS_STALLED"@.len());
}

impl OrchestrationStatus {
    /// String value of the enum field name used in the ProtoBuf definition.
    pub fn as_str_name(&self) -> (r: &'static str)
        ensures
            r@ == orchestration_status_name(*self),
    {
        match self {
            OrchestrationStatus::Running => "ORCHESTRATION_STATUS_RUNNING",
            OrchestrationStatus::Completed => "ORCHESTRATION_STATUS_COMPLETED",
            OrchestrationStatus::ContinuedAsNew => "ORCHESTRATION_STATUS_CONTINUED_AS_NEW",
            OrchestrationStatus::Failed => "ORCHESTRATION_STATUS_FAILED",
            OrchestrationStatus::Canceled => "ORCHESTRATION_STATUS_CANCELED",
            OrchestrationStatus::Terminated => "ORCHESTRATION_STATUS_TERMINATED",
            OrchestrationStatus::Pending => "ORCHESTRATION_STATUS_PENDING",
            OrchestrationStatus::Suspended => "ORCHESTRATION_STATUS_SUSPENDED",
            OrchestrationStatus::Stalled => "ORCHESTRATION_STATUS_STALLED",
        }
    }

    /// The value whose ProtoBuf field name is `value`, if any.
    pub fn from_str_name(value: &str) -> (r: Option<Self>)
        ensures
            r == orchestration_status_from_name(value@),
    {
        if str_eq(value, "ORCHESTRATION_STATUS_RUNNING") {
            Some(OrchestrationStatus::Running)
        } else if str_eq(value, "ORCHESTRATION_STATUS_COMPLETED") {
            Some(OrchestrationStatus::Completed)
        } else if str_eq(value, "ORCHESTRATION_STATUS_CONTINUED_AS_NEW") {
            Some(OrchestrationStatus::ContinuedAsNew)
        } else if str_eq(value, "ORCHESTRATION_STATUS_FAILED") {
            Some(OrchestrationStatus::Failed)
        } else if str_eq(value, "ORCHESTRATION_STATUS_CANCELED") {
            Some(OrchestrationStatus::Canceled)
        } else if str_eq(value, "ORCHESTRATION_STATUS_TERMINATED") {
            Some(OrchestrationStatus::Terminated)
        } else if str_eq(value, "ORCHESTRATION_STATUS_PENDING") {
            Some(OrchestrationStatus::Pending)
        } else if str_eq(value, "ORCHESTRATION_STATUS_SUSPENDED") {
            Some(OrchestrationStatus::Suspended)
        } else if str_eq(value, "ORCHESTRATION_STATUS_STALLED") {
            Some(OrchestrationStatus::Stalled)
        } else {
            None
        }
    }
}

} // verus!
