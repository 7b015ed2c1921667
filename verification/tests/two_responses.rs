use intear_oracle::errors::OracleError;
use intear_oracle::producer::Response;
use intear_oracle::Oracle;

#[test]
fn cannot_send_two_responses() {
    let mut oracle = Oracle::default();
    let producer = "producer.near".to_string();
    let consumer = "consumer.near".to_string();
    oracle.add_producer(producer.clone());
    oracle.register_consumer(consumer.clone());

    oracle
        .request(
            consumer.clone(),
            0,
            producer.clone(),
            "Hello World!".to_string(),
            b"token-0".to_vec(),
        )
        .unwrap();

    let response = Response {
        response_data: "Hello Yielded Execution!".to_string(),
        refund_amount: None,
    };
    let first = oracle.respond(&producer, 0, response.duplicate());
    assert!(first.is_ok());
    assert_eq!(
        first.unwrap().response.response_data,
        "Hello Yielded Execution!"
    );

    let second = oracle.respond(
        &producer,
        0,
        Response {
            response_data: "Hello Yielded Execution 2!".to_string(),
            refund_amount: None,
        },
    );
    match second {
        Err(e) => {
            assert_eq!(e, OracleError::RequestNotFound);
            assert_eq!(e.message(), "Request not found or already responded to");
        }
        Ok(_) => panic!("the second response must fail"),
    }
}
