use std::collections::HashMap;

use dapr::appcallback::{
    AppCallbackService, Handler, ListInputBindingsResponse, ListTopicSubscriptionsResponse,
    TopicSubscription,
};

fn handler(pubsub: &str, topic: &str, tag: u32) -> Handler<u32> {
    Handler { pub_sub_name: pubsub.to_string(), topic: topic.to_string(), handler: tag }
}

#[test]
fn topic_subscription_with_and_without_metadata() {
    let s = TopicSubscription::new("pubsub".to_string(), "orders".to_string(), None);
    assert_eq!(s.pubsub_name, "pubsub");
    assert_eq!(s.topic, "orders");
    assert!(s.metadata.is_empty());
    assert!(s.routes.is_none());
    assert!(s.dead_letter_topic.is_empty());
    assert!(s.bulk_subscribe.is_none());

    let mut md = HashMap::new();
    md.insert("rawPayload".to_string(), "true".to_string());
    let s = TopicSubscription::new("pubsub".to_string(), "orders".to_string(), Some(md.clone()));
    assert_eq!(s.metadata, md);
}

#[test]
fn single_topic_and_binding_responses() {
    let r = ListTopicSubscriptionsResponse::topic("ps".to_string(), "t".to_string());
    assert_eq!(r.subscriptions.len(), 1);
    assert_eq!(r.subscriptions[0].pubsub_name, "ps");
    assert_eq!(r.subscriptions[0].topic, "t");
    let b = ListInputBindingsResponse::binding("cron".to_string());
    assert_eq!(b.bindings, vec!["cron".to_string()]);
}

#[test]
fn subscriptions_follow_the_handlers() {
    let mut service: AppCallbackService<u32> = AppCallbackService::new();
    assert!(service.list_topic_subscriptions().subscriptions.is_empty());
    service.add_handler(handler("ps", "a", 1));
    service.add_handler(handler("ps", "b", 2));
    let subs = service.list_topic_subscriptions().subscriptions;
    assert_eq!(subs.len(), 2);
    assert_eq!((subs[0].pubsub_name.as_str(), subs[0].topic.as_str()), ("ps", "a"));
    assert_eq!((subs[1].pubsub_name.as_str(), subs[1].topic.as_str()), ("ps", "b"));
}

#[test]
fn events_go_to_the_first_matching_handler() {
    let mut service: AppCallbackService<u32> = AppCallbackService::new();
    service.add_handler(handler("ps", "a", 1));
    service.add_handler(handler("other", "a", 2));
    service.add_handler(handler("ps", "a", 3));
    assert_eq!(service.find_handler("ps", "a"), Some(0));
    assert_eq!(service.handler_for("ps", "a"), Some(&1));
    assert_eq!(service.handler_for("other", "a"), Some(&2));
    assert_eq!(service.find_handler("ps", "missing"), None);
    assert_eq!(service.handler_for("PS", "a"), None);
}

#[test]
fn a_later_handler_never_takes_over_a_served_topic() {
    let mut service: AppCallbackService<u32> = AppCallbackService::new();
    service.add_handler(handler("ps", "a", 1));
    assert_eq!(service.handler_for("ps", "b"), None);
    service.add_handler(handler("ps", "a", 2));
    service.add_handler(handler("ps", "b", 3));
    assert_eq!(service.handler_for("ps", "a"), Some(&1));
    assert_eq!(service.handler_for("ps", "b"), Some(&3));
}
