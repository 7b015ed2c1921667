//! Fee schedules, prepaid-fee records and outbound transfer actions.
//!
//! A producer advertises a [`ProducerFee`]; charging it yields a
//! [`PrepaidFee`] that remembers both the amount and the pool it was
//! drawn from, so a refund can credit exactly that pool again.

use vstd::pervasive::unreached;
use vstd::prelude::*;

use crate::balance::pool_or_zero;
use crate::consumer::{ConsumerView, FtKey, OracleEvent, OracleEventView};
use crate::errors::OracleError;
use crate::producer::{spec_snapshot, ProducerView};
use crate::{Oracle, OracleView};

verus! {

/// Where a native prepaid fee came from.
#[derive(Clone, Copy, Debug, PartialEq, Eq, Structural)]
pub enum NearPaymentType {
    /// Drawn from the consumer's pool earmarked for this producer.
    ForSpecificProducer,
    /// Drawn from the consumer's general pool.
    ForAllProducers,
    /// Attached directly to the `request` call; it never entered escrow.
    AttachedToCall,
}

/// Where a fungible-token prepaid fee came from. Token deposits flow
/// through the receiver callback, so there is no attached variant.
#[derive(Clone, Copy, Debug, PartialEq, Eq, Structural)]
pub enum FtPaymentType {
    ForSpecificProducer,
    ForAllProducers,
}

/// The fee a producer charges per request. If the consumer cannot
/// cover it, the request is rejected. The producer may refund part of
/// it in its response; on timeout the fee is refunded fully.
#[derive(Debug)]
pub enum ProducerFee {
    NoFee,
    Near { prepaid_amount: u128 },
    FungibleToken { token: String, prepaid_amount: u128 },
}

pub enum ProducerFeeView {
    NoFee,
    Near { prepaid_amount: u128 },
    FungibleToken { token: Seq<char>, prepaid_amount: u128 },
}

impl View for ProducerFee {
    type V = ProducerFeeView;

    open spec fn view(&self) -> ProducerFeeView {
        match self {
            ProducerFee::NoFee => ProducerFeeView::NoFee,
            ProducerFee::Near { prepaid_amount } => ProducerFeeView::Near {
                prepaid_amount: *prepaid_amount,
            },
            ProducerFee::FungibleToken { token, prepaid_amount } => ProducerFeeView::FungibleToken {
                token: token@,
                prepaid_amount: *prepaid_amount,
            },
        }
    }
}

impl ProducerFee {
    /// An owned copy, equal to this value.
    pub fn duplicate(&self) -> (r: Self)
        ensures
            r == *self,
    {
        match self {
            ProducerFee::NoFee => ProducerFee::NoFee,
            ProducerFee::Near { prepaid_amount } => ProducerFee::Near {
                prepaid_amount: *prepaid_amount,
            },
            ProducerFee::FungibleToken { token, prepaid_amount } => ProducerFee::FungibleToken {
                token: token.clone(),
                prepaid_amount: *prepaid_amount,
            },
        }
    }
}

/// A fee that was charged for one request, together with the source
/// it was drawn from. The source decides where a refund goes.
#[derive(Debug)]
pub enum PrepaidFee {
    NoFee,
    Near { amount: u128, payment_type: NearPaymentType },
    FungibleToken { token: String, amount: u128, payment_type: FtPaymentType },
}

pub enum PrepaidFeeView {
    NoFee,
    Near { amount: u128, payment_type: NearPaymentType },
    FungibleToken { token: Seq<char>, amount: u128, payment_type: FtPaymentType },
}

impl View for PrepaidFee {
    type V = PrepaidFeeView;

    open spec fn view(&self) -> PrepaidFeeView {
        match self {
            PrepaidFee::NoFee => PrepaidFeeView::NoFee,
            PrepaidFee::Near { amount, payment_type } => PrepaidFeeView::Near {
                amount: *amount,
                payment_type: *payment_type,
            },
            PrepaidFee::FungibleToken { token, amount, payment_type } => PrepaidFeeView::FungibleToken {
                token: token@,
                amount: *amount,
                payment_type: *payment_type,
            },
        }
    }
}

impl PrepaidFee {
    /// An owned copy, equal to this value.
    pub fn duplicate(&self) -> (r: Self)
        ensures
            r == *self,
    {
        match self {
            PrepaidFee::NoFee => PrepaidFee::NoFee,
            PrepaidFee::Near { amount, payment_type } => PrepaidFee::Near {
                amount: *amount,
                payment_type: *payment_type,
            },
            PrepaidFee::FungibleToken { token, amount, payment_type } => PrepaidFee::FungibleToken {
                token: token.clone(),
                amount: *amount,
                payment_type: *payment_type,
            },
        }
    }
}

/// A native transfer the host must perform after the call returns.
#[derive(Debug)]
pub struct NearTransfer {
    pub receiver_id: String,
    pub amount: u128,
}

pub struct NearTransferView {
    pub receiver_id: Seq<char>,
    pub amount: u128,
}

impl View for NearTransfer {
    type V = NearTransferView;

    open spec fn view(&self) -> NearTransferView {
        NearTransferView { receiver_id: self.receiver_id@, amount: self.amount }
    }
}

/// A fungible-token transfer the host must perform through the token
/// contract after the call returns.
#[derive(Debug)]
pub struct FtTransfer {
    pub token: String,
    pub receiver_id: String,
    pub amount: u128,
}

pub struct FtTransferView {
    pub token: Seq<char>,
    pub receiver_id: Seq<char>,
    pub amount: u128,
}

impl View for FtTransfer {
    type V = FtTransferView;

    open spec fn view(&self) -> FtTransferView {
        FtTransferView {
            token: self.token@,
            receiver_id: self.receiver_id@,
            amount: self.amount,
        }
    }
}

/// Either kind of outbound transfer.
#[derive(Debug)]
pub enum TransferAction {
    Near(NearTransfer),
    Ft(FtTransfer),
}

pub enum TransferActionView {
    Near(NearTransferView),
    Ft(FtTransferView),
}

impl View for TransferAction {
    type V = TransferActionView;

    open spec fn view(&self) -> TransferActionView {
        match self {
            TransferAction::Near(t) => TransferActionView::Near(t@),
            TransferAction::Ft(t) => TransferActionView::Ft(t@),
        }
    }
}

impl Oracle {
    /// The fee schedule of `producer_id`, or `None` if the account
    /// never registered as a producer.
    pub fn get_fee(&self, producer_id: &String) -> (r: Option<ProducerFee>)
        requires
            self.wf(),
        ensures
            match r {
                Some(fee) => self@.producers.dom().contains(producer_id@) && fee@
                    == self@.producers[producer_id@].fee,
                None => !self@.producers.dom().contains(producer_id@),
            },
    {
        match self.producers.get(producer_id) {
            Some(p) => Some(p.fee.duplicate()),
            None => None,
        }
    }

    /// Sets the calling producer's fee schedule. Fees already charged
    /// keep their `PrepaidFee` snapshot, so a later change has no
    /// retroactive effect on requests in flight. Returns the
    /// `ProducerUpdated` event for the host to log.
    pub fn set_fee(&mut self, caller: &String, fee: ProducerFee) -> (r: Result<
        OracleEvent,
        OracleError,
    >)
        requires
            old(self).wf(),
        ensures
            final(self).wf(),
            match r {
                Ok(event) => {
                    &&& old(self)@.producers.dom().contains(caller@)
                    &&& final(self)@ == (OracleView {
                        producers: old(self)@.producers.insert(
                            caller@,
                            (ProducerView { fee: fee@, ..old(self)@.producers[caller@] }),
                        ),
                        ..old(self)@
                    })
                    &&& event@ == OracleEventView::ProducerUpdated(
                        spec_snapshot(final(self)@.producers[caller@]),
                    )
                },
                Err(e) => {
                    &&& e == OracleError::ProducerNotRegistered
                    &&& !old(self)@.producers.dom().contains(caller@)
                    &&& final(self)@ == old(self)@
                },
            },
    {
        if !self.producers.contains_key(caller) {
            return Err(OracleError::ProducerNotRegistered);
        }
        let mut producer = match self.producers.remove(caller) {
            Some(p) => p,
            None => unreached(),
        };
        producer.fee = fee;
        let event = OracleEvent::ProducerUpdated(producer.snapshot());
        self.producers.insert(caller.clone(), producer);
        proof {
            assert(self.producers@ =~= old(self)@.producers.insert(
                caller@,
                self.producers@[caller@],
            ));
        }
        Ok(event)
    }
}

/// What `try_charge_fee` does. For a native fee: value attached to
/// the call is accepted as the fee outright, whatever the amount;
/// otherwise the pool earmarked for the producer is tried first, then
/// the general pool. A fungible-token fee tries the two token pools
/// the same way (nothing can be attached). A producer that charges no
/// fee accepts no attached value. A per-producer pool that reaches
/// zero is removed.
pub open spec fn spec_try_charge_fee(
    o: OracleView,
    consumer_id: Seq<char>,
    producer_id: Seq<char>,
    fee: ProducerFeeView,
    attached: u128,
) -> (OracleView, Result<PrepaidFeeView, OracleError>) {
    match fee {
        ProducerFeeView::NoFee => {
            if attached != 0 {
                (o, Err(OracleError::FeeNotExpected))
            } else {
                (o, Ok(PrepaidFeeView::NoFee))
            }
        },
        ProducerFeeView::Near { prepaid_amount } => {
            if attached != 0 {
                (
                    o,
                    Ok(
                        PrepaidFeeView::Near {
                            amount: attached,
                            payment_type: NearPaymentType::AttachedToCall,
                        },
                    ),
                )
            } else if !o.consumers.dom().contains(consumer_id) {
                (o, Err(OracleError::ConsumerNotRegistered))
            } else {
                let c = o.consumers[consumer_id];
                if c.near_balance_producer.dom().contains(producer_id)
                    && c.near_balance_producer[producer_id] >= prepaid_amount {
                    let left = (c.near_balance_producer[producer_id] - prepaid_amount) as u128;
                    let m2 = if left == 0 {
                        c.near_balance_producer.remove(producer_id)
                    } else {
                        c.near_balance_producer.insert(producer_id, left)
                    };
                    let c2 = ConsumerView { near_balance_producer: m2, ..c };
                    (
                        (OracleView { consumers: o.consumers.insert(consumer_id, c2), ..o }),
                        Ok(
                            PrepaidFeeView::Near {
                                amount: prepaid_amount,
                                payment_type: NearPaymentType::ForSpecificProducer,
                            },
                        ),
                    )
                } else if c.near_balance >= prepaid_amount {
                    let c2 = ConsumerView {
                        near_balance: (c.near_balance - prepaid_amount) as u128,
                        ..c
                    };
                    (
                        (OracleView { consumers: o.consumers.insert(consumer_id, c2), ..o }),
                        Ok(
                            PrepaidFeeView::Near {
                                amount: prepaid_amount,
                                payment_type: NearPaymentType::ForAllProducers,
                            },
                        ),
                    )
                } else {
                    (o, Err(OracleError::NotEnoughBalance))
                }
            }
        },
        ProducerFeeView::FungibleToken { token, prepaid_amount } => {
            if !o.consumers.dom().contains(consumer_id) {
                (o, Err(OracleError::ConsumerNotRegistered))
            } else {
                let c = o.consumers[consumer_id];
                if c.ft_balances_producer.dom().contains((producer_id, token))
                    && c.ft_balances_producer[(producer_id, token)] >= prepaid_amount {
                    let left = (c.ft_balances_producer[(producer_id, token)]
                        - prepaid_amount) as u128;
                    let m2 = if left == 0 {
                        c.ft_balances_producer.remove((producer_id, token))
                    } else {
                        c.ft_balances_producer.insert((producer_id, token), left)
                    };
                    let c2 = ConsumerView { ft_balances_producer: m2, ..c };
                    (
                        (OracleView { consumers: o.consumers.insert(consumer_id, c2), ..o }),
                        Ok(
                            PrepaidFeeView::FungibleToken {
                                token: token,
                                amount: prepaid_amount,
                                payment_type: FtPaymentType::ForSpecificProducer,
                            },
                        ),
                    )
                } else if c.ft_balances.dom().contains(token) && c.ft_balances[token]
                    >= prepaid_amount {
                    let left = (c.ft_balances[token] - prepaid_amount) as u128;
                    let m2 = if left == 0 {
                        c.ft_balances.remove(token)
                    } else {
                        c.ft_balances.insert(token, left)
                    };
                    let c2 = ConsumerView { ft_balances: m2, ..c };
                    (
                        (OracleView { consumers: o.consumers.insert(consumer_id, c2), ..o }),
                        Ok(
                            PrepaidFeeView::FungibleToken {
                                token: token,
                                amount: prepaid_amount,
                                payment_type: FtPaymentType::ForAllProducers,
                            },
                        ),
                    )
                } else {
                    (o, Err(OracleError::NotEnoughBalance))
                }
            }
        },
    }
}

/// What `refund_partially` does: credits `refund_amount` back to the
/// pool the prepaid fee was drawn from, creating the entry if it is
/// gone. An attached fee never entered escrow, so its refund is a
/// direct transfer back to the consumer. No fee means nothing to do.
pub open spec fn spec_refund_partially(
    o: OracleView,
    consumer_id: Seq<char>,
    producer_id: Seq<char>,
    fee: PrepaidFeeView,
    refund_amount: u128,
) -> (OracleView, Result<Option<NearTransferView>, OracleError>) {
    match fee {
        PrepaidFeeView::NoFee => (o, Ok(None)),
        PrepaidFeeView::Near { amount, payment_type } => match payment_type {
            NearPaymentType::AttachedToCall => (
                o,
                Ok(Some(NearTransferView { receiver_id: consumer_id, amount: refund_amount })),
            ),
            NearPaymentType::ForSpecificProducer => {
                if !o.consumers.dom().contains(consumer_id) {
                    (o, Err(OracleError::ConsumerNotRegistered))
                } else {
                    let c = o.consumers[consumer_id];
                    let cur = pool_or_zero(c.near_balance_producer, producer_id);
                    if cur + refund_amount > u128::MAX {
                        (o, Err(OracleError::Overflow))
                    } else {
                        let c2 = ConsumerView {
                            near_balance_producer: c.near_balance_producer.insert(
                                producer_id,
                                (cur + refund_amount) as u128,
                            ),
                            ..c
                        };
                        (
                            (OracleView { consumers: o.consumers.insert(consumer_id, c2), ..o }),
                            Ok(None),
                        )
                    }
                }
            },
            NearPaymentType::ForAllProducers => {
                if !o.consumers.dom().contains(consumer_id) {
                    (o, Err(OracleError::ConsumerNotRegistered))
                } else {
                    let c = o.consumers[consumer_id];
                    if c.near_balance + refund_amount > u128::MAX {
                        (o, Err(OracleError::Overflow))
                    } else {
                        let c2 = ConsumerView {
                            near_balance: (c.near_balance + refund_amount) as u128,
                            ..c
                        };
                        (
                            (OracleView { consumers: o.consumers.insert(consumer_id, c2), ..o }),
                            Ok(None),
                        )
                    }
                }
            },
        },
        PrepaidFeeView::FungibleToken { token, amount, payment_type } => {
            if !o.consumers.dom().contains(consumer_id) {
                (o, Err(OracleError::ConsumerNotRegistered))
            } else {
                let c = o.consumers[consumer_id];
                match payment_type {
                    FtPaymentType::ForSpecificProducer => {
                        let cur = pool_or_zero(c.ft_balances_producer, (producer_id, token));
                        if cur + refund_amount > u128::MAX {
                            (o, Err(OracleError::Overflow))
                        } else {
                            let c2 = ConsumerView {
                                ft_balances_producer: c.ft_balances_producer.insert(
                                    (producer_id, token),
                                    (cur + refund_amount) as u128,
                                ),
                                ..c
                            };
                            (
                                (OracleView {
                                    consumers: o.consumers.insert(consumer_id, c2),
                                    ..o
                                }),
                                Ok(None),
                            )
                        }
                    },
                    FtPaymentType::ForAllProducers => {
                        let cur = pool_or_zero(c.ft_balances, token);
                        if cur + refund_amount > u128::MAX {
                            (o, Err(OracleError::Overflow))
                        } else {
                            let c2 = ConsumerView {
                                ft_balances: c.ft_balances.insert(
                                    token,
                                    (cur + refund_amount) as u128,
                                ),
                                ..c
                            };
                            (
                                (OracleView {
                                    consumers: o.consumers.insert(consumer_id, c2),
                                    ..o
                                }),
                                Ok(None),
                            )
                        }
                    },
                }
            }
        },
    }
}

/// What `refund_fully` does: a partial refund of the whole prepaid
/// amount.
pub open spec fn spec_refund_fully(
    o: OracleView,
    consumer_id: Seq<char>,
    producer_id: Seq<char>,
    fee: PrepaidFeeView,
) -> (OracleView, Result<Option<NearTransferView>, OracleError>) {
    match fee {
        PrepaidFeeView::NoFee => (o, Ok(None)),
        PrepaidFeeView::Near { amount, .. } => spec_refund_partially(
            o,
            consumer_id,
            producer_id,
            fee,
            amount,
        ),
        PrepaidFeeView::FungibleToken { amount, .. } => spec_refund_partially(
            o,
            consumer_id,
            producer_id,
            fee,
            amount,
        ),
    }
}

/// What `deposit_to_producer` does: orders the transfer of the
/// prepaid amount minus the refund to the producer, native or through
/// the token contract; fails if the refund exceeds what was prepaid.
pub open spec fn spec_deposit_to_producer(
    producer_id: Seq<char>,
    fee: PrepaidFeeView,
    refund_amount: Option<u128>,
) -> Result<Option<TransferActionView>, OracleError> {
    let refund = match refund_amount {
        Some(x) => x,
        None => 0,
    };
    match fee {
        PrepaidFeeView::NoFee => Ok(None),
        PrepaidFeeView::Near { amount, .. } => {
            if refund > amount {
                Err(OracleError::RefundExceedsPrepaid)
            } else {
                Ok(
                    Some(
                        TransferActionView::Near(
                            NearTransferView {
                                receiver_id: producer_id,
                                amount: (amount - refund) as u128,
                            },
                        ),
                    ),
                )
            }
        },
        PrepaidFeeView::FungibleToken { token, amount, .. } => {
            if refund > amount {
                Err(OracleError::RefundExceedsPrepaid)
            } else {
                Ok(
                    Some(
                        TransferActionView::Ft(
                            FtTransferView {
                                token: token,
                                receiver_id: producer_id,
                                amount: (amount - refund) as u128,
                            },
                        ),
                    ),
                )
            }
        },
    }
}

impl Oracle {
    /// Charges `fee` to the consumer for one request to the producer,
    /// following the policy of [`spec_try_charge_fee`], and returns
    /// the record of what was paid and where it came from.
    pub fn try_charge_fee(
        &mut self,
        consumer_id: &String,
        producer_id: &String,
        fee: &ProducerFee,
        attached: u128,
    ) -> (r: Result<PrepaidFee, OracleError>)
        requires
            old(self).wf(),
        ensures
            final(self).wf(),
            ({
                let (s2, res) = spec_try_charge_fee(
                    old(self)@,
                    consumer_id@,
                    producer_id@,
                    fee@,
                    attached,
                );
                &&& final(self)@ == s2
                &&& match (r, res) {
                    (Ok(p), Ok(pv)) => p@ == pv,
                    (Err(e), Err(ev)) => e == ev,
                    _ => false,
                }
            }),
    {
        let ghost o0 = self@;
        match fee {
            ProducerFee::NoFee => {
                if attached != 0 {
                    Err(OracleError::FeeNotExpected)
                } else {
                    Ok(PrepaidFee::NoFee)
                }
            },
            ProducerFee::Near { prepaid_amount } => {
                let prepaid_amount = *prepaid_amount;
                if attached != 0 {
                    return Ok(
                        PrepaidFee::Near {
                            amount: attached,
                            payment_type: NearPaymentType::AttachedToCall,
                        },
                    );
                }
                if !self.consumers.contains_key(consumer_id) {
                    return Err(OracleError::ConsumerNotRegistered);
                }
                let specific_balance: Option<u128> = match self.consumers.get(consumer_id) {
                    Some(c) => match c.near_balance_producer.get(producer_id) {
                        Some(b) => Some(*b),
                        None => None,
                    },
                    None => unreached(),
                };
                let covers_specific = match specific_balance {
                    Some(b) => b >= prepaid_amount,
                    None => false,
                };
                if covers_specific {
                    let b = match specific_balance {
                        Some(b) => b,
                        None => unreached(),
                    };
                    let mut c = match self.consumers.remove(consumer_id) {
                        Some(c) => c,
                        None => unreached(),
                    };
                    let left = b - prepaid_amount;
                    if left == 0 {
                        let _ = c.near_balance_producer.remove(producer_id);
                    } else {
                        c.near_balance_producer.insert(producer_id.clone(), left);
                    }
                    self.consumers.insert(consumer_id.clone(), c);
                    proof {
                        assert(self@ =~= spec_try_charge_fee(
                            o0,
                            consumer_id@,
                            producer_id@,
                            fee@,
                            attached,
                        ).0);
                    }
                    Ok(
                        PrepaidFee::Near {
                            amount: prepaid_amount,
                            payment_type: NearPaymentType::ForSpecificProducer,
                        },
                    )
                } else {
                    let general: u128 = match self.consumers.get(consumer_id) {
                        Some(c) => c.near_balance,
                        None => unreached(),
                    };
                    if general < prepaid_amount {
                        return Err(OracleError::NotEnoughBalance);
                    }
                    let mut c = match self.consumers.remove(consumer_id) {
                        Some(c) => c,
                        None => unreached(),
                    };
                    c.near_balance = general - prepaid_amount;
                    self.consumers.insert(consumer_id.clone(), c);
                    proof {
                        assert(self@ =~= spec_try_charge_fee(
                            o0,
                            consumer_id@,
                            producer_id@,
                            fee@,
                            attached,
                        ).0);
                    }
                    Ok(
                        PrepaidFee::Near {
                            amount: prepaid_amount,
                            payment_type: NearPaymentType::ForAllProducers,
                        },
                    )
                }
            },
            ProducerFee::FungibleToken { token, prepaid_amount } => {
                let prepaid_amount = *prepaid_amount;
                if !self.consumers.contains_key(consumer_id) {
                    return Err(OracleError::ConsumerNotRegistered);
                }
                let key = FtKey { producer_id: producer_id.clone(), ft_id: token.clone() };
                let specific_balance: Option<u128> = match self.consumers.get(consumer_id) {
                    Some(c) => match c.ft_balances_producer.get(&key) {
                        Some(b) => Some(*b),
                        None => None,
                    },
                    None => unreached(),
                };
                let covers_specific = match specific_balance {
                    Some(b) => b >= prepaid_amount,
                    None => false,
                };
                if covers_specific {
                    let b = match specific_balance {
                        Some(b) => b,
                        None => unreached(),
                    };
                    let mut c = match self.consumers.remove(consumer_id) {
                        Some(c) => c,
                        None => unreached(),
                    };
                    let left = b - prepaid_amount;
                    if left == 0 {
                        let _ = c.ft_balances_producer.remove(&key);
                    } else {
                        c.ft_balances_producer.insert(key, left);
                    }
                    self.consumers.insert(consumer_id.clone(), c);
                    proof {
                        assert(self@ =~= spec_try_charge_fee(
                            o0,
                            consumer_id@,
                            producer_id@,
                            fee@,
                            attached,
                        ).0);
                    }
                    Ok(
                        PrepaidFee::FungibleToken {
                            token: token.clone(),
                            amount: prepaid_amount,
                            payment_type: FtPaymentType::ForSpecificProducer,
                        },
                    )
                } else {
                    let general_balance: Option<u128> = match self.consumers.get(consumer_id) {
                        Some(c) => match c.ft_balances.get(token) {
                            Some(b) => Some(*b),
                            None => None,
                        },
                        None => unreached(),
                    };
                    let covers_general = match general_balance {
                        Some(b) => b >= prepaid_amount,
                        None => false,
                    };
                    if !covers_general {
                        return Err(OracleError::NotEnoughBalance);
                    }
                    let b = match general_balance {
                        Some(b) => b,
                        None => unreached(),
                    };
                    let mut c = match self.consumers.remove(consumer_id) {
                        Some(c) => c,
                        None => unreached(),
                    };
                    let left = b - prepaid_amount;
                    if left == 0 {
                        let _ = c.ft_balances.remove(token);
                    } else {
                        c.ft_balances.insert(token.clone(), left);
                    }
                    self.consumers.insert(consumer_id.clone(), c);
                    proof {
                        assert(self@ =~= spec_try_charge_fee(
                            o0,
                            consumer_id@,
                            producer_id@,
                            fee@,
                            attached,
                        ).0);
                    }
                    Ok(
                        PrepaidFee::FungibleToken {
                            token: token.clone(),
                            amount: prepaid_amount,
                            payment_type: FtPaymentType::ForAllProducers,
                        },
                    )
                }
            },
        }
    }

    /// Credits `refund_amount` back to the pool that `fee` was drawn
    /// from. For an attached fee nothing is credited: the returned
    /// transfer sends the refund straight back to the consumer.
    pub fn refund_partially(
        &mut self,
        consumer_id: &String,
        producer_id: &String,
        fee: &PrepaidFee,
        refund_amount: u128,
    ) -> (r: Result<Option<NearTransfer>, OracleError>)
        requires
            old(self).wf(),
        ensures
            final(self).wf(),
            ({
                let (s2, res) = spec_refund_partially(
                    old(self)@,
                    consumer_id@,
                    producer_id@,
                    fee@,
                    refund_amount,
                );
                &&& final(self)@ == s2
                &&& match (r, res) {
                    (Ok(None), Ok(None)) => true,
                    (Ok(Some(t)), Ok(Some(tv))) => t@ == tv,
                    (Err(e), Err(ev)) => e == ev,
                    _ => false,
                }
            }),
    {
        let ghost o0 = self@;
        match fee {
            PrepaidFee::NoFee => Ok(None),
            PrepaidFee::Near { amount: _, payment_type } => match payment_type {
                NearPaymentType::AttachedToCall => Ok(
                    Some(NearTransfer { receiver_id: consumer_id.clone(), amount: refund_amount }),
                ),
                NearPaymentType::ForSpecificProducer => {
                    let cur: u128 = match self.consumers.get(consumer_id) {
                        Some(c) => match c.near_balance_producer.get(producer_id) {
                            Some(b) => *b,
                            None => 0,
                        },
                        None => {
                            return Err(OracleError::ConsumerNotRegistered);
                        },
                    };
                    if cur > u128::MAX - refund_amount {
                        return Err(OracleError::Overflow);
                    }
                    let mut c = match self.consumers.remove(consumer_id) {
                        Some(c) => c,
                        None => unreached(),
                    };
                    c.near_balance_producer.insert(producer_id.clone(), cur + refund_amount);
                    self.consumers.insert(consumer_id.clone(), c);
                    proof {
                        assert(self@ =~= spec_refund_partially(
                            o0,
                            consumer_id@,
                            producer_id@,
                            fee@,
                            refund_amount,
                        ).0);
                    }
                    Ok(None)
                },
                NearPaymentType::ForAllProducers => {
                    let cur: u128 = match self.consumers.get(consumer_id) {
                        Some(c) => c.near_balance,
                        None => {
                            return Err(OracleError::ConsumerNotRegistered);
                        },
                    };
                    if cur > u128::MAX - refund_amount {
                        return Err(OracleError::Overflow);
                    }
                    let mut c = match self.consumers.remove(consumer_id) {
                        Some(c) => c,
                        None => unreached(),
                    };
                    c.near_balance = cur + refund_amount;
                    self.consumers.insert(consumer_id.clone(), c);
                    proof {
                        assert(self@ =~= spec_refund_partially(
                            o0,
                            consumer_id@,
                            producer_id@,
                            fee@,
                            refund_amount,
                        ).0);
                    }
                    Ok(None)
                },
            },
            PrepaidFee::FungibleToken { token, amount: _, payment_type } => match payment_type {
                FtPaymentType::ForSpecificProducer => {
                    let key = FtKey { producer_id: producer_id.clone(), ft_id: token.clone() };
                    let cur: u128 = match self.consumers.get(consumer_id) {
                        Some(c) => match c.ft_balances_producer.get(&key) {
                            Some(b) => *b,
                            None => 0,
                        },
                        None => {
                            return Err(OracleError::ConsumerNotRegistered);
                        },
                    };
                    if cur > u128::MAX - refund_amount {
                        return Err(OracleError::Overflow);
                    }
                    let mut c = match self.consumers.remove(consumer_id) {
                        Some(c) => c,
                        None => unreached(),
                    };
                    c.ft_balances_producer.insert(key, cur + refund_amount);
                    self.consumers.insert(consumer_id.clone(), c);
                    proof {
                        assert(self@ =~= spec_refund_partially(
                            o0,
                            consumer_id@,
                            producer_id@,
                            fee@,
                            refund_amount,
                        ).0);
                    }
                    Ok(None)
                },
                FtPaymentType::ForAllProducers => {
                    let cur: u128 = match self.consumers.get(consumer_id) {
                        Some(c) => match c.ft_balances.get(token) {
                            Some(b) => *b,
                            None => 0,
                        },
                        None => {
                            return Err(OracleError::ConsumerNotRegistered);
                        },
                    };
                    if cur > u128::MAX - refund_amount {
                        return Err(OracleError::Overflow);
                    }
                    let mut c = match self.consumers.remove(consumer_id) {
                        Some(c) => c,
                        None => unreached(),
                    };
                    c.ft_balances.insert(token.clone(), cur + refund_amount);
                    self.consumers.insert(consumer_id.clone(), c);
                    proof {
                        assert(self@ =~= spec_refund_partially(
                            o0,
                            consumer_id@,
                            producer_id@,
                            fee@,
                            refund_amount,
                        ).0);
                    }
                    Ok(None)
                },
            },
        }
    }

    /// Credits the whole prepaid amount back to the pool it came
    /// from; the timeout path of settlement.
    pub fn refund_fully(
        &mut self,
        consumer_id: &String,
        producer_id: &String,
        fee: &PrepaidFee,
    ) -> (r: Result<Option<NearTransfer>, OracleError>)
        requires
            old(self).wf(),
        ensures
            final(self).wf(),
            ({
                let (s2, res) = spec_refund_fully(old(self)@, consumer_id@, producer_id@, fee@);
                &&& final(self)@ == s2
                &&& match (r, res) {
                    (Ok(None), Ok(None)) => true,
                    (Ok(Some(t)), Ok(Some(tv))) => t@ == tv,
                    (Err(e), Err(ev)) => e == ev,
                    _ => false,
                }
            }),
    {
        let amount: u128 = match fee {
            PrepaidFee::NoFee => {
                return Ok(None);
            },
            PrepaidFee::Near { amount, .. } => *amount,
            PrepaidFee::FungibleToken { amount, .. } => *amount,
        };
        self.refund_partially(consumer_id, producer_id, fee, amount)
    }

    /// Orders the transfer of the prepaid amount minus the refund to
    /// the producer. Fails if the refund exceeds what was prepaid; no
    /// state changes either way.
    pub fn deposit_to_producer(
        &self,
        producer_id: String,
        fee: &PrepaidFee,
        refund_amount: Option<u128>,
    ) -> (r: Result<Option<TransferAction>, OracleError>)
        ensures
            ({
                let res = spec_deposit_to_producer(producer_id@, fee@, refund_amount);
                match (r, res) {
                    (Ok(None), Ok(None)) => true,
                    (Ok(Some(t)), Ok(Some(tv))) => t@ == tv,
                    (Err(e), Err(ev)) => e == ev,
                    _ => false,
                }
            }),
    {
        let refund: u128 = match refund_amount {
            Some(x) => x,
            None => 0,
        };
        match fee {
            PrepaidFee::NoFee => Ok(None),
            PrepaidFee::Near { amount, .. } => {
                if refund > *amount {
                    Err(OracleError::RefundExceedsPrepaid)
                } else {
                    Ok(
                        Some(
                            TransferAction::Near(
                                NearTransfer {
                                    receiver_id: producer_id,
                                    amount: *amount - refund,
                                },
                            ),
                        ),
                    )
                }
            },
            PrepaidFee::FungibleToken { token, amount, .. } => {
                if refund > *amount {
                    Err(OracleError::RefundExceedsPrepaid)
                } else {
                    Ok(
                        Some(
                            TransferAction::Ft(
                                FtTransfer {
                                    token: token.clone(),
                                    receiver_id: producer_id,
                                    amount: *amount - refund,
                                },
                            ),
                        ),
                    )
                }
            },
        }
    }
}

} // verus!
