use intear_oracle::producer::Response;
use intear_oracle::Oracle;

#[test]
fn contract_is_operational() {
    let mut oracle = Oracle::default();
    let producer = "producer.near".to_string();
    let consumer = "consumer.near".to_string();
    oracle.add_producer(producer.clone());
    oracle.register_consumer(consumer.clone());

    let outcome = oracle
        .request(
            consumer.clone(),
            0,
            producer.clone(),
            "Hello World!".to_string(),
            b"token-0".to_vec(),
        )
        .unwrap();
    assert_eq!(outcome.request_id, 0);

    let respond = oracle
        .respond(
            &producer,
            0,
            Response {
                response_data: "Hello Yielded Execution!".to_string(),
                refund_amount: None,
            },
        )
        .unwrap();
    let settlement = oracle
        .on_response(
            producer.clone(),
            0,
            consumer.clone(),
            outcome.prepaid_fee,
            Some(respond.response),
        )
        .unwrap();
    assert_eq!(
        settlement.response.map(|r| r.response_data),
        Some("Hello Yielded Execution!".to_string())
    );
}

#[test]
fn request_ids_are_allocated_in_order() {
    let mut oracle = Oracle::default();
    let producer = "producer.near".to_string();
    let consumer = "consumer.near".to_string();
    oracle.add_producer(producer.clone());
    oracle.register_consumer(consumer.clone());

    let first = oracle
        .request(
            consumer.clone(),
            0,
            producer.clone(),
            "a".to_string(),
            b"token-0".to_vec(),
        )
        .unwrap();
    let second = oracle
        .request(
            consumer.clone(),
            0,
            producer.clone(),
            "b".to_string(),
            b"token-1".to_vec(),
        )
        .unwrap();
    assert_eq!(first.request_id, 0);
    assert_eq!(second.request_id, 1);
    assert!(first.request_id < second.request_id);
}

#[test]
fn responses_target_one_request() {
    let mut oracle = Oracle::default();
    let producer = "producer.near".to_string();
    let consumer = "consumer.near".to_string();
    oracle.add_producer(producer.clone());
    oracle.register_consumer(consumer.clone());

    oracle
        .request(
            consumer.clone(),
            0,
            producer.clone(),
            "a".to_string(),
            b"token-0".to_vec(),
        )
        .unwrap();
    oracle
        .request(
            consumer.clone(),
            0,
            producer.clone(),
            "b".to_string(),
            b"token-1".to_vec(),
        )
        .unwrap();

    // Responses may arrive in any order; each targets exactly one ID.
    let second = oracle
        .respond(
            &producer,
            1,
            Response {
                response_data: "for b".to_string(),
                refund_amount: None,
            },
        )
        .unwrap();
    assert_eq!(second.resumption_token, b"token-1".to_vec());
    let first = oracle
        .respond(
            &producer,
            0,
            Response {
                response_data: "for a".to_string(),
                refund_amount: None,
            },
        )
        .unwrap();
    assert_eq!(first.resumption_token, b"token-0".to_vec());
}
