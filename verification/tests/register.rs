use intear_oracle::consumer::OracleEvent;
use intear_oracle::Oracle;

#[test]
fn register_consumer() {
    let mut oracle = Oracle::default();
    let alice = "alice.near".to_string();
    assert!(!oracle.is_registered_as_consumer(&alice));
    oracle.register_consumer(alice.clone());
    assert!(oracle.is_registered_as_consumer(&alice));
    assert!(!oracle.is_registered_as_consumer(&"bob.near".to_string()));
}

#[test]
fn register_producer() {
    let mut oracle = Oracle::default();
    let producer = "producer.near".to_string();
    assert!(!oracle.is_producer(&producer));
    let event = oracle.add_producer(producer.clone());
    assert!(oracle.is_producer(&producer));
    match event {
        OracleEvent::ProducerCreated(p) => {
            assert_eq!(p.account_id, producer);
            assert_eq!(p.name, "Unnamed");
            assert_eq!(p.description, "No description");
            assert_eq!(p.requests_succeeded, 0);
            assert_eq!(p.requests_timed_out, 0);
            assert!(!p.send_callback);
        }
        _ => panic!("expected a producer-created event"),
    }
}

#[test]
fn edit_producer_details_updates_metadata() {
    let mut oracle = Oracle::default();
    let producer = "producer.near".to_string();
    oracle.add_producer(producer.clone());
    let event = oracle
        .edit_producer_details(
            &producer,
            "GPT".to_string(),
            "Answers questions".to_string(),
            Some("Is slime solid?".to_string()),
        )
        .unwrap();
    match event {
        OracleEvent::ProducerUpdated(p) => {
            assert_eq!(p.name, "GPT");
            assert_eq!(p.description, "Answers questions");
            assert_eq!(p.example_input, Some("Is slime solid?".to_string()));
        }
        _ => panic!("expected a producer-updated event"),
    }
    let details = oracle.get_producer_details(&producer).unwrap();
    assert_eq!(details.name, "GPT");
}

#[test]
fn set_send_callback_flips_flag() {
    let mut oracle = Oracle::default();
    let producer = "producer.near".to_string();
    oracle.add_producer(producer.clone());
    assert!(!oracle.get_producer_details(&producer).unwrap().send_callback);
    oracle.set_send_callback(&producer, true).unwrap();
    assert!(oracle.get_producer_details(&producer).unwrap().send_callback);
}

#[test]
fn reregistration_keeps_consumer_escrow() {
    let mut oracle = Oracle::default();
    let alice = "alice.near".to_string();
    oracle.register_consumer(alice.clone());
    oracle
        .deposit_near(alice.clone(), 700, None, None)
        .unwrap();

    // Anyone may call register_consumer for any account; doing it
    // again must not touch the existing record.
    oracle.register_consumer(alice.clone());
    assert!(oracle.is_registered_as_consumer(&alice));
    assert_eq!(oracle.get_deposit_near(&alice, None), Ok(700));
}

#[test]
fn readding_a_producer_keeps_pending_requests() {
    let mut oracle = Oracle::default();
    let producer = "producer.near".to_string();
    let consumer = "consumer.near".to_string();
    oracle.add_producer(producer.clone());
    oracle.set_send_callback(&producer, true).unwrap();
    oracle.register_consumer(consumer.clone());
    oracle
        .request(
            consumer.clone(),
            0,
            producer.clone(),
            "still here?".to_string(),
            b"token-0".to_vec(),
        )
        .unwrap();

    // Re-registration resets the fee, flag, metadata and counters,
    // but the request in flight stays pending and can be answered.
    oracle.add_producer(producer.clone());
    let details = oracle.get_producer_details(&producer).unwrap();
    assert!(!details.send_callback);
    assert_eq!(details.requests_succeeded, 0);

    let respond = oracle
        .respond(
            &producer,
            0,
            intear_oracle::producer::Response {
                response_data: "yes".to_string(),
                refund_amount: None,
            },
        )
        .unwrap();
    assert_eq!(respond.resumption_token, b"token-0".to_vec());
}
