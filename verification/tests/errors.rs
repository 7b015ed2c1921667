use intear_oracle::errors::OracleError;
use intear_oracle::fees::{PrepaidFee, ProducerFee};
use intear_oracle::producer::Response;
use intear_oracle::Oracle;

const NEAR: u128 = 1_000_000_000_000_000_000_000_000;
const FEE: u128 = 100_000_000_000_000_000_000_000;

#[test]
fn deposit_requires_registration() {
    let mut oracle = Oracle::default();
    let err = oracle
        .deposit_near("alice.near".to_string(), NEAR, None, None)
        .unwrap_err();
    assert_eq!(err, OracleError::ConsumerNotRegistered);
    assert_eq!(err.message(), "Consumer is not registered");
}

#[test]
fn deposit_for_unknown_producer_fails() {
    let mut oracle = Oracle::default();
    let alice = "alice.near".to_string();
    oracle.register_consumer(alice.clone());
    let err = oracle
        .deposit_near(alice.clone(), NEAR, None, Some("ghost.near".to_string()))
        .unwrap_err();
    assert_eq!(err, OracleError::ProducerDoesNotExist);
    assert_eq!(err.message(), "Producer doesn't exist");
    // The failed call left the balance alone.
    assert_eq!(oracle.get_deposit_near(&alice, None), Ok(0));
}

#[test]
fn overdraw_fails_and_draining_zeroes_the_pool() {
    let mut oracle = Oracle::default();
    let alice = "alice.near".to_string();
    oracle.register_consumer(alice.clone());
    oracle.deposit_near(alice.clone(), NEAR, None, None).unwrap();

    let err = oracle
        .withdraw_near(alice.clone(), NEAR + 1, None)
        .unwrap_err();
    assert_eq!(err, OracleError::NotEnoughBalance);
    assert_eq!(err.message(), "Not enough balance");
    assert_eq!(oracle.get_deposit_near(&alice, None), Ok(NEAR));

    oracle.withdraw_near(alice.clone(), NEAR, None).unwrap();
    assert_eq!(oracle.get_deposit_near(&alice, None), Ok(0));
}

#[test]
fn overdraw_from_earmarked_pool_fails() {
    let mut oracle = Oracle::default();
    let alice = "alice.near".to_string();
    let producer = "producer.near".to_string();
    oracle.register_consumer(alice.clone());
    oracle.add_producer(producer.clone());

    let err = oracle
        .withdraw_near(alice.clone(), 1, Some(producer.clone()))
        .unwrap_err();
    assert_eq!(err, OracleError::NoBalanceForProducer);
    assert_eq!(err.message(), "No balance for producer");

    oracle
        .deposit_near(alice.clone(), FEE, None, Some(producer.clone()))
        .unwrap();
    let err = oracle
        .withdraw_near(alice.clone(), FEE + 1, Some(producer.clone()))
        .unwrap_err();
    assert_eq!(err, OracleError::NotEnoughBalanceForProducer);
    assert_eq!(err.message(), "Not enough balance for producer");

    // Draining the pool exactly removes its entry.
    oracle
        .withdraw_near(alice.clone(), FEE, Some(producer.clone()))
        .unwrap();
    assert_eq!(oracle.get_deposit_near(&alice, Some(producer.clone())), Ok(0));
}

#[test]
fn ft_withdraw_without_balance_fails() {
    let mut oracle = Oracle::default();
    let alice = "alice.near".to_string();
    oracle.register_consumer(alice.clone());
    let err = oracle
        .withdraw_ft(alice.clone(), 1, None, "ft.near".to_string())
        .unwrap_err();
    assert_eq!(err, OracleError::NoBalance);
    assert_eq!(err.message(), "No balance");
}

#[test]
fn attached_value_on_no_fee_producer_fails() {
    let mut oracle = Oracle::default();
    let producer = "producer.near".to_string();
    let consumer = "consumer.near".to_string();
    oracle.add_producer(producer.clone());
    oracle.register_consumer(consumer.clone());

    let err = oracle
        .request(
            consumer.clone(),
            1,
            producer.clone(),
            "x".to_string(),
            b"token-0".to_vec(),
        )
        .unwrap_err();
    assert_eq!(err, OracleError::FeeNotExpected);
    assert_eq!(err.message(), "No fee is required, but NEAR attached");
    // No request was created: the next request still gets ID zero.
    let outcome = oracle
        .request(
            consumer.clone(),
            0,
            producer.clone(),
            "x".to_string(),
            b"token-0".to_vec(),
        )
        .unwrap();
    assert_eq!(outcome.request_id, 0);
}

#[test]
fn insufficient_escrow_rejects_the_request() {
    let mut oracle = Oracle::default();
    let producer = "producer.near".to_string();
    let consumer = "consumer.near".to_string();
    oracle.add_producer(producer.clone());
    oracle
        .set_fee(&producer, ProducerFee::Near { prepaid_amount: FEE })
        .unwrap();
    oracle.register_consumer(consumer.clone());
    oracle
        .deposit_near(consumer.clone(), FEE - 1, None, None)
        .unwrap();

    let err = oracle
        .request(
            consumer.clone(),
            0,
            producer.clone(),
            "x".to_string(),
            b"token-0".to_vec(),
        )
        .unwrap_err();
    assert_eq!(err, OracleError::NotEnoughBalance);
    assert_eq!(oracle.get_deposit_near(&consumer, None), Ok(FEE - 1));
}

#[test]
fn request_to_unknown_producer_fails() {
    let mut oracle = Oracle::default();
    let err = oracle
        .request(
            "consumer.near".to_string(),
            0,
            "ghost.near".to_string(),
            "x".to_string(),
            b"token-0".to_vec(),
        )
        .unwrap_err();
    assert_eq!(err, OracleError::ProducerDoesNotExist);
}

#[test]
fn set_fee_requires_a_producer_record() {
    let mut oracle = Oracle::default();
    let err = oracle
        .set_fee(
            &"nobody.near".to_string(),
            ProducerFee::Near { prepaid_amount: FEE },
        )
        .unwrap_err();
    assert_eq!(err, OracleError::ProducerNotRegistered);
    assert_eq!(err.message(), "Producer is not registered");
}

#[test]
fn respond_by_non_producer_fails() {
    let mut oracle = Oracle::default();
    let err = oracle
        .respond(
            &"nobody.near".to_string(),
            0,
            Response {
                response_data: "x".to_string(),
                refund_amount: None,
            },
        )
        .unwrap_err();
    assert_eq!(err, OracleError::ProducerNotRegistered);
}

#[test]
fn refund_above_prepaid_fails_at_payout() {
    let mut oracle = Oracle::default();
    let producer = "producer.near".to_string();
    let consumer = "consumer.near".to_string();
    oracle.add_producer(producer.clone());
    oracle
        .set_fee(&producer, ProducerFee::Near { prepaid_amount: FEE })
        .unwrap();
    oracle.register_consumer(consumer.clone());
    oracle
        .deposit_near(consumer.clone(), NEAR, None, None)
        .unwrap();
    let outcome = oracle
        .request(
            consumer.clone(),
            0,
            producer.clone(),
            "x".to_string(),
            b"token-0".to_vec(),
        )
        .unwrap();
    let respond = oracle
        .respond(
            &producer,
            0,
            Response {
                response_data: "y".to_string(),
                refund_amount: Some(FEE + 1),
            },
        )
        .unwrap();
    let err = oracle
        .on_response(
            producer.clone(),
            0,
            consumer.clone(),
            outcome.prepaid_fee,
            Some(respond.response),
        )
        .unwrap_err();
    assert_eq!(err, OracleError::RefundExceedsPrepaid);
    assert_eq!(err.message(), "Refund amount is greater than prepaid amount");
    // The failed settlement moved nothing.
    assert_eq!(oracle.get_deposit_near(&consumer, None), Ok(NEAR - FEE));
    let details = oracle.get_producer_details(&producer).unwrap();
    assert_eq!(details.requests_succeeded, 0);
}

#[test]
fn overflowing_deposit_fails() {
    let mut oracle = Oracle::default();
    let alice = "alice.near".to_string();
    oracle.register_consumer(alice.clone());
    oracle
        .deposit_near(alice.clone(), u128::MAX, None, None)
        .unwrap();
    let err = oracle
        .deposit_near(alice.clone(), 1, None, None)
        .unwrap_err();
    assert_eq!(err, OracleError::Overflow);
    assert_eq!(err.message(), "Overflow");
}

#[test]
fn invalid_transfer_messages_are_rejected() {
    let mut oracle = Oracle::default();
    let alice = "alice.near".to_string();
    oracle.register_consumer(alice.clone());

    for msg in ["", "not json", "[1,2]", "\"text\"", "{\"producer_id\":5}"] {
        let err = oracle
            .ft_on_transfer(alice.clone(), 10, msg.to_string(), "ft.near".to_string())
            .unwrap_err();
        assert_eq!(err, OracleError::InvalidMsg);
        assert_eq!(err.message(), "Invalid msg");
    }
    assert_eq!(oracle.get_deposit_ft(&alice, None, "ft.near".to_string()), Ok(0));
}

#[test]
fn settlement_for_unknown_producer_fails() {
    let mut oracle = Oracle::default();
    let err = oracle
        .on_response(
            "ghost.near".to_string(),
            0,
            "consumer.near".to_string(),
            PrepaidFee::NoFee,
            None,
        )
        .unwrap_err();
    assert_eq!(err, OracleError::ProducerDoesNotExist);
}
