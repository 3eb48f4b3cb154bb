//! The app-callback side: topic subscriptions, input bindings, and the
//! registry of topic handlers that incoming events are routed to.

use std::collections::HashMap;

use vstd::prelude::*;

use crate::text::str_eq;

verus! {

/// Routing rules of a topic subscription.
#[derive(Clone, Debug, Default)]
pub struct TopicRoutes {
    /// Rules tried in order.
    pub rules: Vec<TopicRule>,
    /// Path used when no rule matches.
    pub default: String,
}

/// A routing rule: events matching the expression go to the path.
#[derive(Clone, Debug, Default)]
pub struct TopicRule {
    /// Common Expression Language expression over the event.
    pub match_: String,
    /// Path the matching events are delivered to.
    pub path: String,
}

/// Bulk delivery settings of a subscription.
#[derive(Clone, Copy, Debug, Default)]
pub struct BulkSubscribeConfig {
    /// Whether bulk delivery is on.
    pub enabled: bool,
    /// Largest number of messages in one delivery.
    pub max_messages_count: i32,
    /// Longest wait, in milliseconds, before a delivery.
    pub max_await_duration_ms: i32,
}

/// A topic and its metadata.
#[derive(Clone, Debug, Default)]
pub struct TopicSubscription {
    /// Name of the pubsub component.
    pub pubsub_name: String,
    /// Name of the topic.
    pub topic: String,
    /// Metadata of the subscription.
    pub metadata: HashMap<String, String>,
    /// Routing rules, if any.
    pub routes: Option<TopicRoutes>,
    /// Topic that undeliverable events go to.
    pub dead_letter_topic: String,
    /// Bulk delivery settings, if any.
    pub bulk_subscribe: Option<BulkSubscribeConfig>,
}

/// The list of topics the app subscribes to.
#[derive(Clone, Debug, Default)]
pub struct ListTopicSubscriptionsResponse {
    /// The subscriptions.
    pub subscriptions: Vec<TopicSubscription>,
}

/// The list of input bindings the app listens on.
#[derive(Clone, Debug, Default)]
pub struct ListInputBindingsResponse {
    /// Names of the bindings.
    pub bindings: Vec<String>,
}

impl TopicSubscription {
    /// Whether this is a plain subscription to `topic` of `pubsub_name`:
    /// no routes, no dead-letter topic, no bulk delivery.
    pub open spec fn is_plain(&self, pubsub_name: Seq<char>, topic: Seq<char>) -> bool {
        &&& self.pubsub_name@ == pubsub_name
        &&& self.topic@ == topic
        &&& self.routes is None
        &&& self.dead_letter_topic@.len() == 0
        &&& self.bulk_subscribe is None
    }

    /// A subscription to `topic` of `pubsub_name`, with `metadata` when given
    /// and no metadata otherwise.
    pub fn new(
        pubsub_name: String,
        topic: String,
        metadata: Option<HashMap<String, String>>,
    ) -> (r: TopicSubscription)
        ensures
            r.is_plain(pubsub_name@, topic@),
            match metadata {
                Some(m) => r.metadata@ == m@,
                None => r.metadata@ == Map::<String, String>::empty(),
            },
    {
        let md = match metadata {
            Some(m) => m,
            None => HashMap::new(),
        };
        TopicSubscription {
            pubsub_name,
            topic,
            metadata: md,
            routes: None,
            dead_letter_topic: String::new(),
            bulk_subscribe: None,
        }
    }
}

impl ListTopicSubscriptionsResponse {
    /// A response holding one plain subscription to `topic` of `pubsub_name`.
    pub fn topic(pubsub_name: String, topic: String) -> (r: ListTopicSubscriptionsResponse)
        ensures
            r.subscriptions@.len() == 1,
            r.subscriptions@[0].is_plain(pubsub_name@, topic@),
            r.subscriptions@[0].metadata@ == Map::<String, String>::empty(),
    {
        let s = TopicSubscription::new(pubsub_name, topic, None);
        let mut subscriptions = Vec::new();
        subscriptions.push(s);
        ListTopicSubscriptionsResponse { subscriptions }
    }
}

impl ListInputBindingsResponse {
    /// A response holding the one binding `binding_name`.
    pub fn binding(binding_name: String) -> (r: ListInputBindingsResponse)
        ensures
            r.bindings@ == seq![binding_name],
    {
        let mut bindings = Vec::new();
        bindings.push(binding_name);
        ListInputBindingsResponse { bindings }
    }
}

/// A topic handler: the pubsub and topic it serves, and what handles events.
pub struct Handler<H> {
    /// Name of the pubsub component.
    pub pub_sub_name: String,
    /// Name of the topic.
    pub topic: String,
    /// What handles the topic's events.
    pub handler: H,
}

/// The handlers that incoming topic events are routed to, in the order they
/// were added.
pub struct AppCallbackService<H> {
    handlers: Vec<Handler<H>>,
}

/// Whether `h` serves `topic` of `pubsub_name`.
pub open spec fn serves<H>(h: Handler<H>, pubsub_name: Seq<char>, topic: Seq<char>) -> bool {
    h.pub_sub_name@ == pubsub_name && h.topic@ == topic
}

impl<H> AppCallbackService<H> {
    /// The handlers, in the order they were added.
    pub closed spec fn handlers(&self) -> Seq<Handler<H>> {
        self.handlers@
    }

    /// A service without handlers.
    pub fn new() -> (r: AppCallbackService<H>)
        ensures
            r.handlers() == Seq::<Handler<H>>::empty(),
    {
        AppCallbackService { handlers: Vec::new() }
    }

    /// Adds a handler after those already present.
    pub fn add_handler(&mut self, handler: Handler<H>)
        ensures
            final(self).handlers() == old(self).handlers().push(handler),
    {
        self.handlers.push(handler);
    }

    /// One plain subscription per handler, in the handlers' order.
    pub fn list_topic_subscriptions(&self) -> (r: ListTopicSubscriptionsResponse)
        ensures
            r.subscriptions@.len() == self.handlers().len(),
            forall|i: int|
                0 <= i < self.handlers().len() ==> {
                    &&& (#[trigger] r.subscriptions@[i]).is_plain(
                        self.handlers()[i].pub_sub_name@,
                        self.handlers()[i].topic@,
                    )
                    &&& r.subscriptions@[i].metadata@ == Map::<String, String>::empty()
                },
    {
        let mut subscriptions: Vec<TopicSubscription> = Vec::new();
        let n = self.handlers.len();
        let mut i: usize = 0;
        while i < n
            invariant
                i <= n,
                n == self.handlers@.len(),
                subscriptions@.len() == i,
                forall|k: int|
                    0 <= k < i ==> {
                        &&& (#[trigger] subscriptions@[k]).is_plain(
                            self.handlers@[k].pub_sub_name@,
                            self.handlers@[k].topic@,
                        )
                        &&& subscriptions@[k].metadata@ == Map::<String, String>::empty()
                    },
            decreases n - i,
        {
            let h = &self.handlers[i];
            subscriptions.push(
                TopicSubscription::new(h.pub_sub_name.clone(), h.topic.clone(), None),
            );
            i = i + 1;
        }
        ListTopicSubscriptionsResponse { subscriptions }
    }

    /// The position of the first handler serving `topic` of `pubsub_name`.
    pub fn find_handler(&self, pubsub_name: &str, topic: &str) -> (r: Option<usize>)
        ensures
            match r {
                Some(i) => i < self.handlers().len() && serves(
                    self.handlers()[i as int],
                    pubsub_name@,
                    topic@,
                ) && forall|j: int|
                    0 <= j < i ==> !serves(#[trigger] self.handlers()[j], pubsub_name@, topic@),
                None => forall|j: int|
                    0 <= j < self.handlers().len() ==> !serves(
                        #[trigger] self.handlers()[j],
                        pubsub_name@,
                        topic@,
                    ),
            },
    {
        let n = self.handlers.len();
        let mut i: usize = 0;
        while i < n
            invariant
                i <= n,
                n == self.handlers@.len(),
                forall|j: int|
                    0 <= j < i ==> !serves(#[trigger] self.handlers@[j], pubsub_name@, topic@),
            decreases n - i,
        {
            let h = &self.handlers[i];
            if str_eq(h.pub_sub_name.as_str(), pubsub_name) && str_eq(h.topic.as_str(), topic) {
                return Some(i);
            }
            i = i + 1;
        }
        None
    }

    /// The handler that an event for `topic` of `pubsub_name` goes to: the
    /// first one added that serves it.
    pub fn handler_for(&self, pubsub_name: &str, topic: &str) -> (r: Option<&H>)
        ensures
            match r {
                Some(h) => exists|i: int|
                    0 <= i < self.handlers().len() && serves(
                        self.handlers()[i],
                        pubsub_name@,
                        topic@,
                    ) && self.handlers()[i].handler == *h && forall|j: int|
                        0 <= j < i ==> !serves(
                            #[trigger] self.handlers()[j],
                            pubsub_name@,
                            topic@,
                        ),
                None => forall|j: int|
                    0 <= j < self.handlers().len() ==> !serves(
                        #[trigger] self.handlers()[j],
                        pubsub_name@,
                        topic@,
                    ),
            },
    {
        match self.find_handler(pubsub_name, topic) {
            Some(i) => Some(&self.handlers[i].handler),
            None => None,
        }
    }
}


/// Adding a handler never changes where an event that some handler already
/// serves goes; an event that none served goes to the new handler exactly
/// when it serves it.
pub proof fn lemma_added_handler_comes_last<H>(
    handlers: Seq<Handler<H>>,
    added: Handler<H>,
    pubsub_name: Seq<char>,
    topic: Seq<char>,
)
    ensures
        forall|i: int|
            0 <= i < handlers.len() && serves(handlers[i], pubsub_name, topic) && (forall|j: int|
                0 <= j < i ==> !serves(#[trigger] handlers[j], pubsub_name, topic)) ==> {
                &&& handlers.push(added)[i] == handlers[i]
                &&& forall|j: int|
                    0 <= j < i ==> !serves(#[trigger] handlers.push(added)[j], pubsub_name, topic)
            },
        (forall|j: int| 0 <= j < handlers.len() ==> !serves(#[trigger] handlers[j], pubsub_name, topic))
            ==> (forall|j: int|
            0 <= j < handlers.push(added).len() ==> (serves(
                #[trigger] handlers.push(added)[j],
                pubsub_name,
                topic,
            ) <==> j == handlers.len() && serves(added, pubsub_name, topic))),
{
    assert forall|i: int|
        0 <= i < handlers.len() && serves(handlers[i], pubsub_name, topic) && (forall|j: int|
            0 <= j < i ==> !serves(#[trigger] handlers[j], pubsub_name, topic)) implies {
        &&& handlers.push(added)[i] == handlers[i]
        &&& forall|j: int|
            0 <= j < i ==> !serves(#[trigger] handlers.push(added)[j], pubsub_name, topic)
    } by {
        assert forall|j: int| 0 <= j < i implies !serves(
            #[trigger] handlers.push(added)[j],
            pubsub_name,
            topic,
        ) by {
            assert(handlers.push(added)[j] == handlers[j]);
        }
    }
}

} // verus!
