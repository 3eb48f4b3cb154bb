use std::collections::HashMap;

use dapr::client::{
    parse_connect_port,
    chunk_requests, connect_address, decrypt_requests, encrypt_requests, join_address_port,
    parse_port, ConversationInputBuilder, JobBuilder,
};
use dapr::error::Error;
use dapr::proto_common::{Any, StateItem, StreamPayload};

#[test]
fn port_parsing() {
    assert_eq!(parse_port("50001"), Some(50001));
    assert_eq!(parse_port("+3500"), Some(3500));
    assert_eq!(parse_port("65536"), None);
    assert_eq!(parse_port("port"), None);
    assert_eq!(parse_port(""), None);
}

#[test]
fn address_and_port_are_joined_with_a_colon() {
    assert_eq!(join_address_port("https://127.0.0.1", 50001), "https://127.0.0.1:50001");
    assert_eq!(join_address_port("", 0), ":0");
}

#[test]
fn connect_address_needs_a_port_variable() {
    assert!(matches!(connect_address("https://127.0.0.1", None), Err(Error::VarError)));
}

#[test]
fn connect_address_rejects_a_bad_port() {
    assert!(matches!(
        connect_address("https://127.0.0.1", Some("70000")),
        Err(Error::ParseIntError)
    ));
    assert!(matches!(
        connect_address("https://127.0.0.1", Some("abc")),
        Err(Error::ParseIntError)
    ));
}

#[test]
fn connect_address_joins_the_port() {
    match connect_address("https://127.0.0.1", Some("3500")) {
        Ok(a) => assert_eq!(a, "https://127.0.0.1:3500"),
        Err(e) => panic!("unexpected error {e:?}"),
    }
}

#[test]
fn job_builder_sets_each_field() {
    let job = JobBuilder::new("nightly").build();
    assert_eq!(job.name, "nightly");
    assert_eq!(job.schedule, None);
    assert_eq!(job.data, None);
    assert_eq!(job.ttl, None);
    assert_eq!(job.repeats, None);
    assert_eq!(job.due_time, None);

    let data = Any { type_url: "type".to_string(), value: vec![1, 2] };
    let job = JobBuilder::new("nightly")
        .with_schedule("@every 1m")
        .with_data(data.clone())
        .with_ttl("1h")
        .with_repeats(5)
        .with_due_time("10s")
        .build();
    assert_eq!(job.name, "nightly");
    assert_eq!(job.schedule.as_deref(), Some("@every 1m"));
    assert_eq!(job.data, Some(data));
    assert_eq!(job.ttl.as_deref(), Some("1h"));
    assert_eq!(job.repeats, Some(5));
    assert_eq!(job.due_time.as_deref(), Some("10s"));
}

#[test]
fn job_builder_later_setting_wins() {
    let job = JobBuilder::new("j").with_ttl("1h").with_ttl("2h").build();
    assert_eq!(job.ttl.as_deref(), Some("2h"));
}

#[test]
fn conversation_input_builder_keeps_the_message() {
    let input = ConversationInputBuilder::new("hello").build();
    assert_eq!(input.content, "hello");
    assert_eq!(input.role, None);
    assert_eq!(input.scrub_pii, None);
}

#[test]
fn state_item_from_key_and_value() {
    let item = StateItem::from_pair("key".to_string(), vec![9]);
    assert_eq!(item.key, "key");
    assert_eq!(item.value, vec![9]);
    assert!(item.etag.is_none());
    assert_eq!(item.metadata, HashMap::new());
    assert!(item.options.is_none());
}

#[test]
fn options_ride_on_the_first_chunk_only() {
    let payloads = vec![
        StreamPayload { data: vec![1], seq: 0 },
        StreamPayload { data: vec![2], seq: 1 },
        StreamPayload { data: vec![3], seq: 2 },
    ];
    let reqs = chunk_requests(payloads.clone(), "opts");
    assert_eq!(reqs.len(), 3);
    assert_eq!(reqs[0].options, Some("opts"));
    assert_eq!(reqs[1].options, None);
    assert_eq!(reqs[2].options, None);
    for (r, p) in reqs.iter().zip(payloads.iter()) {
        assert_eq!(r.payload.as_ref(), Some(p));
    }
    assert!(chunk_requests(Vec::new(), "opts").is_empty());
}

#[test]
fn encrypt_requests_number_the_chunks_in_order() {
    let reqs = encrypt_requests(vec![b"ab".to_vec(), b"cd".to_vec()], 7u8);
    assert_eq!(reqs.len(), 2);
    assert_eq!(reqs[0].options, Some(7));
    assert_eq!(reqs[1].options, None);
    assert_eq!(reqs[0].payload, Some(StreamPayload { data: b"ab".to_vec(), seq: 0 }));
    assert_eq!(reqs[1].payload, Some(StreamPayload { data: b"cd".to_vec(), seq: 1 }));
}

#[test]
fn decrypt_requests_keep_the_encrypted_chunks() {
    let encrypted = vec![
        StreamPayload { data: vec![5], seq: 0 },
        StreamPayload { data: vec![6], seq: 1 },
    ];
    let reqs = decrypt_requests(encrypted.clone(), "key");
    assert_eq!(reqs.len(), 2);
    assert_eq!(reqs[0].options, Some("key"));
    assert_eq!(reqs[1].options, None);
    assert_eq!(reqs[1].payload, Some(encrypted[1].clone()));
}

#[test]
fn actor_requests_carry_json_content_type() {
    let r = dapr::client::invoke_actor_request(
        "Counter".to_string(),
        "c-1".to_string(),
        "incr".to_string(),
        b"{}".to_vec(),
        None,
    );
    assert_eq!(r.actor_type, "Counter");
    assert_eq!(r.actor_id, "c-1");
    assert_eq!(r.method, "incr");
    assert_eq!(r.data, b"{}".to_vec());
    assert_eq!(
        r.metadata,
        vec![("Content-Type".to_string(), "application/json".to_string())]
    );

    let md = vec![
        ("trace".to_string(), "1".to_string()),
        ("Content-Type".to_string(), "text/plain".to_string()),
        ("user".to_string(), "u".to_string()),
    ];
    let r = dapr::client::invoke_actor_request(
        "Counter".to_string(),
        "c-1".to_string(),
        "incr".to_string(),
        Vec::new(),
        Some(md),
    );
    assert_eq!(
        r.metadata,
        vec![
            ("trace".to_string(), "1".to_string()),
            ("user".to_string(), "u".to_string()),
            ("Content-Type".to_string(), "application/json".to_string()),
        ]
    );
    let as_map: HashMap<String, String> = r.metadata.into_iter().collect();
    assert_eq!(as_map.len(), 3);
    assert_eq!(as_map.get("Content-Type").map(String::as_str), Some("application/json"));
}

#[test]
fn connect_port_must_be_between_one_and_65535() {
    assert_eq!(parse_connect_port("1"), Some(1));
    assert_eq!(parse_connect_port("65535"), Some(65535));
    assert_eq!(parse_connect_port("0"), None);
    assert_eq!(parse_connect_port("65536"), None);
    assert_eq!(parse_connect_port("x"), None);
}
