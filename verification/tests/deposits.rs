use intear_oracle::Oracle;

const NEAR: u128 = 1_000_000_000_000_000_000_000_000;

#[test]
fn near_deposits() {
    let mut oracle = Oracle::default();
    let consumer = "consumer.near".to_string();
    oracle.register_consumer(consumer.clone());
    assert_eq!(oracle.get_deposit_near(&consumer, None), Ok(0));

    oracle
        .deposit_near(consumer.clone(), NEAR, None, None)
        .unwrap();
    assert_eq!(oracle.get_deposit_near(&consumer, None), Ok(NEAR));

    let transfer = oracle.withdraw_near(consumer.clone(), NEAR, None).unwrap();
    assert_eq!(transfer.receiver_id, consumer);
    assert_eq!(transfer.amount, NEAR);
    assert_eq!(oracle.get_deposit_near(&consumer, None), Ok(0));
}

#[test]
fn near_deposit_for_producer() {
    let mut oracle = Oracle::default();
    let consumer = "consumer.near".to_string();
    let producer = "producer.near".to_string();
    oracle.register_consumer(consumer.clone());
    oracle.add_producer(producer.clone());

    oracle
        .deposit_near(consumer.clone(), NEAR, None, Some(producer.clone()))
        .unwrap();
    assert_eq!(
        oracle.get_deposit_near(&consumer, Some(producer.clone())),
        Ok(NEAR)
    );
    assert_eq!(oracle.get_deposit_near(&consumer, None), Ok(0));
}

#[test]
fn ft_deposits() {
    let mut oracle = Oracle::default();
    let consumer = "consumer.near".to_string();
    let ft = "ft.near".to_string();
    oracle.register_consumer(consumer.clone());

    let remaining = oracle
        .ft_on_transfer(
            consumer.clone(),
            1_000_000_000_000_000_000_000_000,
            "{}".to_string(),
            ft.clone(),
        )
        .unwrap();
    assert_eq!(remaining, 0);
    assert_eq!(
        oracle.get_deposit_ft(&consumer, None, ft.clone()),
        Ok(1_000_000_000_000_000_000_000_000)
    );

    let transfer = oracle
        .withdraw_ft(consumer.clone(), 500_000_000_000_000_000_000_000, None, ft.clone())
        .unwrap();
    assert_eq!(transfer.token, ft);
    assert_eq!(transfer.receiver_id, consumer);
    assert_eq!(transfer.amount, 500_000_000_000_000_000_000_000);
    assert_eq!(
        oracle.get_deposit_ft(&consumer, None, ft.clone()),
        Ok(500_000_000_000_000_000_000_000)
    );
}

#[test]
fn ft_deposit_for_producer() {
    let mut oracle = Oracle::default();
    let consumer = "consumer.near".to_string();
    let producer = "producer.near".to_string();
    let ft = "ft.near".to_string();
    oracle.register_consumer(consumer.clone());
    oracle.add_producer(producer.clone());

    let msg = format!("{{\"producer_id\":\"{}\"}}", producer);
    let remaining = oracle
        .ft_on_transfer(consumer.clone(), 1_000_000_000_000_000_000_000_000, msg, ft.clone())
        .unwrap();
    assert_eq!(remaining, 0);
    assert_eq!(
        oracle.get_deposit_ft(&consumer, Some(producer.clone()), ft.clone()),
        Ok(1_000_000_000_000_000_000_000_000)
    );
    assert_eq!(oracle.get_deposit_ft(&consumer, None, ft.clone()), Ok(0));
}

#[test]
fn ft_deposit_message_names_the_beneficiary() {
    let mut oracle = Oracle::default();
    let sender = "sender.near".to_string();
    let beneficiary = "beneficiary.near".to_string();
    let ft = "ft.near".to_string();
    oracle.register_consumer(beneficiary.clone());

    let msg = format!("{{\"account_id\":\"{}\"}}", beneficiary);
    oracle
        .ft_on_transfer(sender.clone(), 700, msg, ft.clone())
        .unwrap();
    assert_eq!(oracle.get_deposit_ft(&beneficiary, None, ft.clone()), Ok(700));
}
