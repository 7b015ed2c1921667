use intear_oracle::consumer::OracleEvent;
use intear_oracle::fees::{NearPaymentType, PrepaidFee, ProducerFee, TransferAction};
use intear_oracle::producer::Response;
use intear_oracle::Oracle;

const NEAR: u128 = 1_000_000_000_000_000_000_000_000;
const FEE: u128 = 100_000_000_000_000_000_000_000;
const HALF_FEE: u128 = 50_000_000_000_000_000_000_000;

#[test]
fn no_fee() {
    let mut oracle = Oracle::default();
    let producer = "producer.near".to_string();
    let consumer = "consumer.near".to_string();
    oracle.add_producer(producer.clone());
    assert!(matches!(
        oracle.get_fee(&producer),
        Some(ProducerFee::NoFee)
    ));
    oracle.register_consumer(consumer.clone());

    let outcome = oracle
        .request(
            consumer.clone(),
            0,
            producer.clone(),
            "Hello World!".to_string(),
            b"token-0".to_vec(),
        )
        .unwrap();
    assert_eq!(outcome.request_id, 0);
    assert!(matches!(outcome.prepaid_fee, PrepaidFee::NoFee));
    match &outcome.event {
        OracleEvent::Request(e) => {
            assert_eq!(e.request_id, 0);
            assert_eq!(e.producer_id, producer);
            assert_eq!(e.consumer_id, consumer);
            assert_eq!(e.request_data, "Hello World!");
        }
        _ => panic!("expected a request event"),
    }

    let respond = oracle
        .respond(
            &producer,
            0,
            Response {
                response_data: "Hello World!".to_string(),
                refund_amount: None,
            },
        )
        .unwrap();
    assert_eq!(respond.resumption_token, b"token-0".to_vec());

    let settlement = oracle
        .on_response(
            producer.clone(),
            0,
            consumer.clone(),
            outcome.prepaid_fee,
            Some(respond.response),
        )
        .unwrap();
    let response = settlement.response.unwrap();
    assert_eq!(response.response_data, "Hello World!");
    assert_eq!(response.refund_amount, None);
    assert!(settlement.refund_transfer.is_none());
    assert!(settlement.payout.is_none());

    let details = oracle.get_producer_details(&producer).unwrap();
    assert_eq!(details.requests_succeeded, 1);
    assert_eq!(details.requests_timed_out, 0);
}

#[test]
fn near_fee() {
    let mut oracle = Oracle::default();
    let producer = "producer.near".to_string();
    let consumer = "consumer.near".to_string();
    oracle.add_producer(producer.clone());
    oracle
        .set_fee(&producer, ProducerFee::Near { prepaid_amount: FEE })
        .unwrap();
    assert!(matches!(
        oracle.get_fee(&producer),
        Some(ProducerFee::Near { prepaid_amount }) if prepaid_amount == FEE
    ));
    oracle.register_consumer(consumer.clone());
    oracle
        .deposit_near(consumer.clone(), NEAR, None, None)
        .unwrap();

    let outcome = oracle
        .request(
            consumer.clone(),
            0,
            producer.clone(),
            "Hello World!".to_string(),
            b"token-0".to_vec(),
        )
        .unwrap();
    assert!(matches!(
        outcome.prepaid_fee,
        PrepaidFee::Near { amount, payment_type: NearPaymentType::ForAllProducers } if amount == FEE
    ));
    assert_eq!(oracle.get_deposit_near(&consumer, None), Ok(NEAR - FEE));

    let respond = oracle
        .respond(
            &producer,
            0,
            Response {
                response_data: "Hello Yielded Execution!".to_string(),
                refund_amount: None,
            },
        )
        .unwrap();
    let settlement = oracle
        .on_response(
            producer.clone(),
            0,
            consumer.clone(),
            outcome.prepaid_fee,
            Some(respond.response),
        )
        .unwrap();
    let response = settlement.response.unwrap();
    assert_eq!(response.response_data, "Hello Yielded Execution!");
    assert_eq!(response.refund_amount, None);
    match settlement.payout {
        Some(TransferAction::Near(t)) => {
            assert_eq!(t.receiver_id, producer);
            assert_eq!(t.amount, FEE);
        }
        _ => panic!("expected a native payout to the producer"),
    }
    assert_eq!(oracle.get_deposit_near(&consumer, None), Ok(NEAR - FEE));
}

#[test]
fn near_fee_refund() {
    let mut oracle = Oracle::default();
    let producer = "producer.near".to_string();
    let consumer = "consumer.near".to_string();
    oracle.add_producer(producer.clone());
    oracle
        .set_fee(&producer, ProducerFee::Near { prepaid_amount: FEE })
        .unwrap();
    oracle.register_consumer(consumer.clone());
    oracle
        .deposit_near(consumer.clone(), NEAR, None, None)
        .unwrap();

    let outcome = oracle
        .request(
            consumer.clone(),
            0,
            producer.clone(),
            "Hello World!".to_string(),
            b"token-0".to_vec(),
        )
        .unwrap();
    assert_eq!(oracle.get_deposit_near(&consumer, None), Ok(NEAR - FEE));

    let respond = oracle
        .respond(
            &producer,
            0,
            Response {
                response_data: "Hello Yielded Execution!".to_string(),
                refund_amount: Some(HALF_FEE),
            },
        )
        .unwrap();
    let settlement = oracle
        .on_response(
            producer.clone(),
            0,
            consumer.clone(),
            outcome.prepaid_fee,
            Some(respond.response),
        )
        .unwrap();
    let response = settlement.response.unwrap();
    assert_eq!(response.refund_amount, Some(50000000000000000000000));
    match settlement.payout {
        Some(TransferAction::Near(t)) => {
            assert_eq!(t.receiver_id, producer);
            assert_eq!(t.amount, HALF_FEE);
        }
        _ => panic!("expected a native payout to the producer"),
    }
    assert!(settlement.refund_transfer.is_none());
    assert_eq!(
        oracle.get_deposit_near(&consumer, None),
        Ok(NEAR - FEE + HALF_FEE)
    );
}

#[test]
fn direct_near_fee() {
    let mut oracle = Oracle::default();
    let producer = "producer.near".to_string();
    let consumer = "consumer.near".to_string();
    oracle.add_producer(producer.clone());
    oracle
        .set_fee(&producer, ProducerFee::Near { prepaid_amount: FEE })
        .unwrap();
    // No deposit and no consumer registration: the fee is attached to
    // the call itself.
    let outcome = oracle
        .request(
            consumer.clone(),
            FEE,
            producer.clone(),
            "Hello World!".to_string(),
            b"token-0".to_vec(),
        )
        .unwrap();
    assert!(matches!(
        outcome.prepaid_fee,
        PrepaidFee::Near { amount, payment_type: NearPaymentType::AttachedToCall } if amount == FEE
    ));

    let respond = oracle
        .respond(
            &producer,
            0,
            Response {
                response_data: "Hello World".to_string(),
                refund_amount: Some(HALF_FEE),
            },
        )
        .unwrap();
    let settlement = oracle
        .on_response(
            producer.clone(),
            0,
            consumer.clone(),
            outcome.prepaid_fee,
            Some(respond.response),
        )
        .unwrap();
    // The refund goes straight back to the consumer, not into escrow.
    let refund = settlement.refund_transfer.unwrap();
    assert_eq!(refund.receiver_id, consumer);
    assert_eq!(refund.amount, 50000000000000000000000);
    match settlement.payout {
        Some(TransferAction::Near(t)) => {
            assert_eq!(t.receiver_id, producer);
            assert_eq!(t.amount, HALF_FEE);
        }
        _ => panic!("expected a native payout to the producer"),
    }
    assert!(!oracle.is_registered_as_consumer(&consumer));
}

#[test]
fn ft_fee() {
    let mut oracle = Oracle::default();
    let producer = "producer.near".to_string();
    let consumer = "consumer.near".to_string();
    let ft = "ft.near".to_string();
    oracle.add_producer(producer.clone());
    oracle
        .set_fee(
            &producer,
            ProducerFee::FungibleToken {
                token: ft.clone(),
                prepaid_amount: FEE,
            },
        )
        .unwrap();
    oracle.register_consumer(consumer.clone());
    oracle
        .ft_on_transfer(consumer.clone(), NEAR, "{}".to_string(), ft.clone())
        .unwrap();

    let outcome = oracle
        .request(
            consumer.clone(),
            0,
            producer.clone(),
            "Hello World!".to_string(),
            b"token-0".to_vec(),
        )
        .unwrap();
    assert_eq!(
        oracle.get_deposit_ft(&consumer, None, ft.clone()),
        Ok(NEAR - FEE)
    );

    let respond = oracle
        .respond(
            &producer,
            0,
            Response {
                response_data: "Hello World".to_string(),
                refund_amount: None,
            },
        )
        .unwrap();
    let settlement = oracle
        .on_response(
            producer.clone(),
            0,
            consumer.clone(),
            outcome.prepaid_fee,
            Some(respond.response),
        )
        .unwrap();
    match settlement.payout {
        Some(TransferAction::Ft(t)) => {
            assert_eq!(t.token, ft);
            assert_eq!(t.receiver_id, producer);
            assert_eq!(t.amount, FEE);
        }
        _ => panic!("expected a token payout to the producer"),
    }
}

#[test]
fn ft_fee_refund() {
    let mut oracle = Oracle::default();
    let producer = "producer.near".to_string();
    let consumer = "consumer.near".to_string();
    let ft = "ft.near".to_string();
    oracle.add_producer(producer.clone());
    oracle
        .set_fee(
            &producer,
            ProducerFee::FungibleToken {
                token: ft.clone(),
                prepaid_amount: FEE,
            },
        )
        .unwrap();
    oracle.register_consumer(consumer.clone());
    oracle
        .ft_on_transfer(consumer.clone(), NEAR, "{}".to_string(), ft.clone())
        .unwrap();

    let outcome = oracle
        .request(
            consumer.clone(),
            0,
            producer.clone(),
            "Hello World".to_string(),
            b"token-0".to_vec(),
        )
        .unwrap();
    let respond = oracle
        .respond(
            &producer,
            0,
            Response {
                response_data: "y".to_string(),
                refund_amount: Some(HALF_FEE),
            },
        )
        .unwrap();
    let settlement = oracle
        .on_response(
            producer.clone(),
            0,
            consumer.clone(),
            outcome.prepaid_fee,
            Some(respond.response),
        )
        .unwrap();
    match settlement.payout {
        Some(TransferAction::Ft(t)) => {
            assert_eq!(t.amount, HALF_FEE);
        }
        _ => panic!("expected a token payout to the producer"),
    }
    // The token refund goes back into the general token pool.
    assert!(settlement.refund_transfer.is_none());
    assert_eq!(
        oracle.get_deposit_ft(&consumer, None, ft.clone()),
        Ok(NEAR - FEE + HALF_FEE)
    );
}

#[test]
fn earmarked_pool_is_charged_first() {
    let mut oracle = Oracle::default();
    let producer = "producer.near".to_string();
    let consumer = "consumer.near".to_string();
    oracle.add_producer(producer.clone());
    oracle
        .set_fee(&producer, ProducerFee::Near { prepaid_amount: FEE })
        .unwrap();
    oracle.register_consumer(consumer.clone());
    oracle
        .deposit_near(consumer.clone(), NEAR, None, None)
        .unwrap();
    oracle
        .deposit_near(consumer.clone(), FEE, None, Some(producer.clone()))
        .unwrap();

    let outcome = oracle
        .request(
            consumer.clone(),
            0,
            producer.clone(),
            "x".to_string(),
            b"token-0".to_vec(),
        )
        .unwrap();
    assert!(matches!(
        outcome.prepaid_fee,
        PrepaidFee::Near { amount, payment_type: NearPaymentType::ForSpecificProducer } if amount == FEE
    ));
    // The earmarked pool was drained (and its entry removed); the
    // general pool is untouched.
    assert_eq!(
        oracle.get_deposit_near(&consumer, Some(producer.clone())),
        Ok(0)
    );
    assert_eq!(oracle.get_deposit_near(&consumer, None), Ok(NEAR));
}
