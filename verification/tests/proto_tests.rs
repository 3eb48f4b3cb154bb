use dapr::durabletask::proto::OrchestrationStatus;
use dapr::proto_common::{StateConcurrency, StateConsistency, Verb};

#[test]
fn verb_names_round_trip() {
    let all = [
        (Verb::Unset, "NONE"),
        (Verb::Get, "GET"),
        (Verb::Head, "HEAD"),
        (Verb::Post, "POST"),
        (Verb::Put, "PUT"),
        (Verb::Delete, "DELETE"),
        (Verb::Connect, "CONNECT"),
        (Verb::Options, "OPTIONS"),
        (Verb::Trace, "TRACE"),
        (Verb::Patch, "PATCH"),
    ];
    for (v, name) in all {
        assert_eq!(v.as_str_name(), name);
        assert_eq!(Verb::from_str_name(name), Some(v));
    }
    assert_eq!(Verb::from_str_name("get"), None);
    assert_eq!(Verb::from_str_name(""), None);
}

#[test]
fn state_option_names_round_trip() {
    for (v, name) in [
        (StateConcurrency::ConcurrencyUnspecified, "CONCURRENCY_UNSPECIFIED"),
        (StateConcurrency::ConcurrencyFirstWrite, "CONCURRENCY_FIRST_WRITE"),
        (StateConcurrency::ConcurrencyLastWrite, "CONCURRENCY_LAST_WRITE"),
    ] {
        assert_eq!(v.as_str_name(), name);
        assert_eq!(StateConcurrency::from_str_name(name), Some(v));
    }
    for (v, name) in [
        (StateConsistency::ConsistencyUnspecified, "CONSISTENCY_UNSPECIFIED"),
        (StateConsistency::ConsistencyEventual, "CONSISTENCY_EVENTUAL"),
        (StateConsistency::ConsistencyStrong, "CONSISTENCY_STRONG"),
    ] {
        assert_eq!(v.as_str_name(), name);
        assert_eq!(StateConsistency::from_str_name(name), Some(v));
    }
    assert_eq!(StateConcurrency::from_str_name("CONSISTENCY_STRONG"), None);
    assert_eq!(StateConsistency::from_str_name("CONCURRENCY_LAST_WRITE"), None);
}

#[test]
fn orchestration_status_names_round_trip() {
    for (v, name) in [
        (OrchestrationStatus::Running, "ORCHESTRATION_STATUS_RUNNING"),
        (OrchestrationStatus::Completed, "ORCHESTRATION_STATUS_COMPLETED"),
        (OrchestrationStatus::ContinuedAsNew, "ORCHESTRATION_STATUS_CONTINUED_AS_NEW"),
        (OrchestrationStatus::Failed, "ORCHESTRATION_STATUS_FAILED"),
        (OrchestrationStatus::Canceled, "ORCHESTRATION_STATUS_CANCELED"),
        (OrchestrationStatus::Terminated, "ORCHESTRATION_STATUS_TERMINATED"),
        (OrchestrationStatus::Pending, "ORCHESTRATION_STATUS_PENDING"),
        (OrchestrationStatus::Suspended, "ORCHESTRATION_STATUS_SUSPENDED"),
        (OrchestrationStatus::Stalled, "ORCHESTRATION_STATUS_STALLED"),
    ] {
        assert_eq!(v.as_str_name(), name);
        assert_eq!(OrchestrationStatus::from_str_name(name), Some(v));
    }
}
