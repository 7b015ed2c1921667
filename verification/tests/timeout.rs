use intear_oracle::fees::ProducerFee;
use intear_oracle::Oracle;

const NEAR: u128 = 1_000_000_000_000_000_000_000_000;
const FEE: u128 = 100_000_000_000_000_000_000_000;

#[test]
fn timeout_refunds_the_fee_fully() {
    let mut oracle = Oracle::default();
    let producer = "producer.near".to_string();
    let consumer = "consumer.near".to_string();
    oracle.add_producer(producer.clone());
    oracle
        .set_fee(&producer, ProducerFee::Near { prepaid_amount: FEE })
        .unwrap();
    oracle.register_consumer(consumer.clone());
    oracle
        .deposit_near(consumer.clone(), NEAR, None, None)
        .unwrap();

    let outcome = oracle
        .request(
            consumer.clone(),
            0,
            producer.clone(),
            "Hello World!".to_string(),
            b"token-0".to_vec(),
        )
        .unwrap();
    assert_eq!(oracle.get_deposit_near(&consumer, None), Ok(NEAR - FEE));

    // The producer never responds; the host resumes the suspended
    // call with no response once its deadline passes.
    let settlement = oracle
        .on_response(
            producer.clone(),
            0,
            consumer.clone(),
            outcome.prepaid_fee,
            None,
        )
        .unwrap();
    assert!(settlement.response.is_none());
    assert!(settlement.payout.is_none());
    assert!(settlement.refund_transfer.is_none());
    assert_eq!(oracle.get_deposit_near(&consumer, None), Ok(NEAR));

    let details = oracle.get_producer_details(&producer).unwrap();
    assert_eq!(details.requests_succeeded, 0);
    assert_eq!(details.requests_timed_out, 1);
}
