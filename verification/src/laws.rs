//! Laws of the broker, proved once and for all over the transition
//! functions that the executable methods are verified against.
//!
//! Balances are `u128` throughout, so non-negativity holds by type;
//! the conservation lemmas here account for every unit a fee moves.
//! That settlement runs exactly once per request — by a response or
//! by the deadline, never both — is the host's side of the contract:
//! the broker's side, that at most one `respond` succeeds, is proved
//! here.

use vstd::prelude::*;

use crate::balance::{pool_or_zero, spec_deposit_near, spec_withdraw_near};
use crate::consumer::{spec_register_consumer, spec_request};
use crate::errors::OracleError;
use crate::fees::{
    spec_refund_partially, spec_try_charge_fee, FtPaymentType, NearPaymentType, PrepaidFeeView,
    ProducerFeeView, TransferActionView,
};
use crate::producer::{spec_on_response, spec_respond, ProducerView};
use crate::OracleView;

verus! {

/// The native units a consumer can spend on one producer: its general
/// pool plus the pool earmarked for that producer.
pub open spec fn avail_near(o: OracleView, consumer_id: Seq<char>, producer_id: Seq<char>) -> int {
    let c = o.consumers[consumer_id];
    c.near_balance + pool_or_zero(c.near_balance_producer, producer_id)
}

/// The units of one token a consumer can spend on one producer.
pub open spec fn avail_ft(
    o: OracleView,
    consumer_id: Seq<char>,
    producer_id: Seq<char>,
    token: Seq<char>,
) -> int {
    let c = o.consumers[consumer_id];
    pool_or_zero(c.ft_balances, token) + pool_or_zero(c.ft_balances_producer, (producer_id, token))
}

/// Conservation at charge time, native fees: an accepted charge
/// either takes the attached value as the fee and leaves every
/// balance alone, or debits exactly the prepaid amount from the
/// consumer's pools — and records which happened. No other consumer
/// and no producer record is touched.
pub proof fn lemma_charge_conserves_near(
    o: OracleView,
    consumer_id: Seq<char>,
    producer_id: Seq<char>,
    prepaid_amount: u128,
    attached: u128,
)
    requires
        spec_try_charge_fee(
            o,
            consumer_id,
            producer_id,
            ProducerFeeView::Near { prepaid_amount },
            attached,
        ).1 is Ok,
    ensures
        ({
            let (o2, res) = spec_try_charge_fee(
                o,
                consumer_id,
                producer_id,
                ProducerFeeView::Near { prepaid_amount },
                attached,
            );
            match res {
                Ok(prepaid) => {
                    &&& o2.producers == o.producers
                    &&& o2.next_request_id == o.next_request_id
                    &&& prepaid matches PrepaidFeeView::Near { amount, payment_type } && (if (
                        payment_type == NearPaymentType::AttachedToCall
                    ) {
                        amount == attached && o2 == o
                    } else {
                        &&& amount == prepaid_amount
                        &&& avail_near(o, consumer_id, producer_id) - avail_near(
                            o2,
                            consumer_id,
                            producer_id,
                        ) == prepaid_amount
                        &&& forall|other: Seq<char>|
                            #![auto]
                            other != consumer_id && o.consumers.dom().contains(other)
                                ==> o2.consumers.dom().contains(other) && o2.consumers[other]
                                == o.consumers[other]
                    })
                },
                Err(_) => true,
            }
        }),
{
}

/// Conservation at charge time, fungible-token fees: an accepted
/// charge debits exactly the prepaid amount of the fee's token from
/// the consumer's token pools.
pub proof fn lemma_charge_conserves_ft(
    o: OracleView,
    consumer_id: Seq<char>,
    producer_id: Seq<char>,
    token: Seq<char>,
    prepaid_amount: u128,
    attached: u128,
)
    requires
        spec_try_charge_fee(
            o,
            consumer_id,
            producer_id,
            ProducerFeeView::FungibleToken { token, prepaid_amount },
            attached,
        ).1 is Ok,
    ensures
        ({
            let (o2, res) = spec_try_charge_fee(
                o,
                consumer_id,
                producer_id,
                ProducerFeeView::FungibleToken { token, prepaid_amount },
                attached,
            );
            match res {
                Ok(prepaid) => {
                    &&& o2.producers == o.producers
                    &&& o2.next_request_id == o.next_request_id
                    &&& prepaid matches PrepaidFeeView::FungibleToken {
                        token: t,
                        amount,
                        payment_type: _,
                    } && t == token && amount == prepaid_amount
                    &&& avail_ft(o, consumer_id, producer_id, token) - avail_ft(
                        o2,
                        consumer_id,
                        producer_id,
                        token,
                    ) == prepaid_amount
                    &&& forall|other: Seq<char>|
                        #![auto]
                        other != consumer_id && o.consumers.dom().contains(other)
                            ==> o2.consumers.dom().contains(other) && o2.consumers[other]
                            == o.consumers[other]
                },
                Err(_) => true,
            }
        }),
{
}

/// Conservation at settlement, native fees: however a request ends —
/// response with or without a partial refund, or timeout — the units
/// credited back to the consumer's pools, the units transferred
/// straight back to the consumer, and the units paid to the producer
/// add up exactly to the prepaid amount. The transfers go to the
/// right parties.
pub proof fn lemma_settlement_conserves_near(
    o: OracleView,
    producer_id: Seq<char>,
    request_id: u64,
    consumer_id: Seq<char>,
    amount: u128,
    payment_type: NearPaymentType,
    response: Option<crate::producer::ResponseView>,
)
    requires
        spec_on_response(
            o,
            producer_id,
            request_id,
            consumer_id,
            PrepaidFeeView::Near { amount, payment_type },
            response,
        ).1 is Ok,
    ensures
        ({
            let fee = PrepaidFeeView::Near { amount, payment_type };
            let (o2, res) = spec_on_response(
                o,
                producer_id,
                request_id,
                consumer_id,
                fee,
                response,
            );
            match res {
                Ok(st) => {
                    let refunded_direct: int = match st.refund_transfer {
                        Some(t) => t.amount as int,
                        None => 0,
                    };
                    let paid: int = match st.payout {
                        Some(TransferActionView::Near(t)) => t.amount as int,
                        _ => 0,
                    };
                    let credited: int = avail_near(o2, consumer_id, producer_id) - avail_near(
                        o,
                        consumer_id,
                        producer_id,
                    );
                    &&& credited + refunded_direct + paid == amount
                    &&& (st.refund_transfer matches Some(t) ==> t.receiver_id == consumer_id)
                    &&& (st.payout matches Some(TransferActionView::Near(t)) ==> t.receiver_id
                        == producer_id)
                    &&& (st.payout matches Some(TransferActionView::Ft(_)) ==> false)
                    &&& (response is None ==> st.payout is None)
                },
                Err(_) => true,
            }
        }),
{
}

/// Conservation at settlement, fungible-token fees: the token units
/// credited back to the consumer's pools and the units paid to the
/// producer add up to the prepaid amount, in the fee's own token; a
/// token fee is never refunded by direct transfer.
pub proof fn lemma_settlement_conserves_ft(
    o: OracleView,
    producer_id: Seq<char>,
    request_id: u64,
    consumer_id: Seq<char>,
    token: Seq<char>,
    amount: u128,
    payment_type: FtPaymentType,
    response: Option<crate::producer::ResponseView>,
)
    requires
        spec_on_response(
            o,
            producer_id,
            request_id,
            consumer_id,
            PrepaidFeeView::FungibleToken { token, amount, payment_type },
            response,
        ).1 is Ok,
    ensures
        ({
            let fee = PrepaidFeeView::FungibleToken { token, amount, payment_type };
            let (o2, res) = spec_on_response(
                o,
                producer_id,
                request_id,
                consumer_id,
                fee,
                response,
            );
            match res {
                Ok(st) => {
                    let paid: int = match st.payout {
                        Some(TransferActionView::Ft(t)) => t.amount as int,
                        _ => 0,
                    };
                    let credited: int = avail_ft(o2, consumer_id, producer_id, token) - avail_ft(
                        o,
                        consumer_id,
                        producer_id,
                        token,
                    );
                    &&& credited + paid == amount
                    &&& st.refund_transfer is None
                    &&& (st.payout matches Some(TransferActionView::Ft(t)) ==> t.receiver_id
                        == producer_id && t.token == token)
                    &&& (st.payout matches Some(TransferActionView::Near(_)) ==> false)
                    &&& (response is None ==> st.payout is None)
                },
                Err(_) => true,
            }
        }),
{
}

/// At most one `respond` succeeds for a request: success removes the
/// pending entry, and a second `respond` for the same ID fails with
/// the request-not-found error. (That settlement itself then runs
/// exactly once — response or timeout — is enforced by the host's
/// single-use resumption token.)
pub proof fn lemma_respond_at_most_once(o: OracleView, producer_id: Seq<char>, request_id: u64)
    requires
        spec_respond(o, producer_id, request_id).1 is Ok,
    ensures
        ({
            let o2 = spec_respond(o, producer_id, request_id).0;
            &&& !o2.producers[producer_id].requests_pending.dom().contains(request_id)
            &&& spec_respond(o2, producer_id, request_id).1 == Err::<Seq<u8>, OracleError>(
                OracleError::RequestNotFound,
            )
        }),
{
}

/// Request IDs strictly increase: of two requests accepted one after
/// the other, whatever their producers and consumers, the second gets
/// the greater ID.
pub proof fn lemma_request_ids_increase(
    o: OracleView,
    c1: Seq<char>,
    a1: u128,
    p1: Seq<char>,
    d1: Seq<char>,
    t1: Seq<u8>,
    c2: Seq<char>,
    a2: u128,
    p2: Seq<char>,
    d2: Seq<char>,
    t2: Seq<u8>,
)
    requires
        spec_request(o, c1, a1, p1, d1, t1).1 is Ok,
        ({
            let (o1, _) = spec_request(o, c1, a1, p1, d1, t1);
            spec_request(o1, c2, a2, p2, d2, t2).1 is Ok
        }),
    ensures
        ({
            let (o1, r1) = spec_request(o, c1, a1, p1, d1, t1);
            let (_, r2) = spec_request(o1, c2, a2, p2, d2, t2);
            match (r1, r2) {
                (Ok(out1), Ok(out2)) => out1.request_id < out2.request_id,
                _ => true,
            }
        }),
{
}

/// A refund from a native prepaid fee goes back where the fee came
/// from: the earmarked pool, the general pool, or — for a fee that
/// was attached to the call and never entered escrow — a direct
/// transfer to the consumer. The other pools stay as they were.
pub proof fn lemma_refund_follows_source_near(
    o: OracleView,
    consumer_id: Seq<char>,
    producer_id: Seq<char>,
    amount: u128,
    payment_type: NearPaymentType,
    refund_amount: u128,
)
    requires
        spec_refund_partially(
            o,
            consumer_id,
            producer_id,
            PrepaidFeeView::Near { amount, payment_type },
            refund_amount,
        ).1 is Ok,
    ensures
        ({
            let fee = PrepaidFeeView::Near { amount, payment_type };
            let (o2, res) = spec_refund_partially(
                o,
                consumer_id,
                producer_id,
                fee,
                refund_amount,
            );
            match res {
                Ok(transfer) => {
                    let c = o.consumers[consumer_id];
                    let c2 = o2.consumers[consumer_id];
                    match payment_type {
                        NearPaymentType::ForSpecificProducer => {
                            &&& transfer is None
                            &&& pool_or_zero(c2.near_balance_producer, producer_id) == pool_or_zero(
                                c.near_balance_producer,
                                producer_id,
                            ) + refund_amount
                            &&& c2.near_balance == c.near_balance
                            &&& c2.ft_balances == c.ft_balances
                            &&& c2.ft_balances_producer == c.ft_balances_producer
                        },
                        NearPaymentType::ForAllProducers => {
                            &&& transfer is None
                            &&& c2.near_balance == c.near_balance + refund_amount
                            &&& c2.near_balance_producer == c.near_balance_producer
                        },
                        NearPaymentType::AttachedToCall => {
                            &&& o2 == o
                            &&& transfer matches Some(t) && t.receiver_id == consumer_id
                                && t.amount == refund_amount
                        },
                    }
                },
                Err(_) => true,
            }
        }),
{
}

/// A refund from a fungible-token prepaid fee credits the token pool
/// named by its source, in the fee's own token, and nothing else.
pub proof fn lemma_refund_follows_source_ft(
    o: OracleView,
    consumer_id: Seq<char>,
    producer_id: Seq<char>,
    token: Seq<char>,
    amount: u128,
    payment_type: FtPaymentType,
    refund_amount: u128,
)
    requires
        spec_refund_partially(
            o,
            consumer_id,
            producer_id,
            PrepaidFeeView::FungibleToken { token, amount, payment_type },
            refund_amount,
        ).1 is Ok,
    ensures
        ({
            let fee = PrepaidFeeView::FungibleToken { token, amount, payment_type };
            let (o2, res) = spec_refund_partially(
                o,
                consumer_id,
                producer_id,
                fee,
                refund_amount,
            );
            match res {
                Ok(transfer) => {
                    let c = o.consumers[consumer_id];
                    let c2 = o2.consumers[consumer_id];
                    &&& transfer is None
                    &&& c2.near_balance == c.near_balance
                    &&& c2.near_balance_producer == c.near_balance_producer
                    &&& match payment_type {
                        FtPaymentType::ForSpecificProducer => {
                            &&& pool_or_zero(c2.ft_balances_producer, (producer_id, token))
                                == pool_or_zero(c.ft_balances_producer, (producer_id, token))
                                + refund_amount
                            &&& c2.ft_balances == c.ft_balances
                        },
                        FtPaymentType::ForAllProducers => {
                            &&& pool_or_zero(c2.ft_balances, token) == pool_or_zero(
                                c.ft_balances,
                                token,
                            ) + refund_amount
                            &&& c2.ft_balances_producer == c.ft_balances_producer
                        },
                    }
                },
                Err(_) => true,
            }
        }),
{
}

/// Depositing native value to the general pool and withdrawing the
/// same amount returns the broker to exactly its prior state.
pub proof fn lemma_deposit_withdraw_roundtrip_general(o: OracleView, caller: Seq<char>, a: u128)
    requires
        o.consumers.dom().contains(caller),
        o.consumers[caller].near_balance + a <= u128::MAX,
    ensures
        ({
            let (o1, r1) = spec_deposit_near(o, caller, a, None, None);
            let (o2, r2) = spec_withdraw_near(o1, caller, a, None);
            &&& r1 is Ok
            &&& r2 is Ok
            &&& o2 == o
        }),
{
    let (o1, r1) = spec_deposit_near(o, caller, a, None, None);
    let (o2, r2) = spec_withdraw_near(o1, caller, a, None);
    assert(o2.consumers =~= o.consumers);
    assert(o2 =~= o);
}

/// The same round trip on a pool earmarked for one producer, which
/// removes the entry when it reaches zero: the state comes back
/// exactly whenever the prior entry was absent or positive. (An entry
/// that already held zero is the one exception: the round trip
/// removes it, leaving the pool's value — zero — unchanged.)
pub proof fn lemma_deposit_withdraw_roundtrip_producer(
    o: OracleView,
    caller: Seq<char>,
    producer_id: Seq<char>,
    a: u128,
)
    requires
        o.consumers.dom().contains(caller),
        o.producers.dom().contains(producer_id),
        pool_or_zero(o.consumers[caller].near_balance_producer, producer_id) + a <= u128::MAX,
        o.consumers[caller].near_balance_producer.dom().contains(producer_id)
            ==> o.consumers[caller].near_balance_producer[producer_id] > 0,
    ensures
        ({
            let (o1, r1) = spec_deposit_near(o, caller, a, None, Some(producer_id));
            let (o2, r2) = spec_withdraw_near(o1, caller, a, Some(producer_id));
            &&& r1 is Ok
            &&& r2 is Ok
            &&& o2 == o
        }),
{
    let (o1, r1) = spec_deposit_near(o, caller, a, None, Some(producer_id));
    let (o2, r2) = spec_withdraw_near(o1, caller, a, Some(producer_id));
    let m0 = o.consumers[caller].near_balance_producer;
    let m2 = o2.consumers[caller].near_balance_producer;
    assert(m2 =~= m0);
    assert(o2.consumers =~= o.consumers);
    assert(o2 =~= o);
}

/// Setting a fee and reading it back gives exactly the fee that was
/// set: `set_fee` stores `fee` in the caller's record, which is what
/// `get_fee` returns.
pub proof fn lemma_set_fee_then_get(o: OracleView, caller: Seq<char>, fee: ProducerFeeView)
    requires
        o.producers.dom().contains(caller),
    ensures
        ({
            let o2 = OracleView {
                producers: o.producers.insert(
                    caller,
                    (ProducerView { fee: fee, ..o.producers[caller] }),
                ),
                ..o
            };
            o2.producers.dom().contains(caller) && o2.producers[caller].fee == fee
        }),
{
}

/// Registering a consumer makes `is_registered_as_consumer` true —
/// and never changes a record that already exists, so a proxy
/// registration cannot reset another account's escrow, and no record
/// is ever deleted.
pub proof fn lemma_register_then_is_registered(o: OracleView, account_id: Seq<char>)
    ensures
        spec_register_consumer(o, account_id).consumers.dom().contains(account_id),
        forall|c: Seq<char>|
            #![auto]
            o.consumers.dom().contains(c) ==> spec_register_consumer(
                o,
                account_id,
            ).consumers.dom().contains(c) && spec_register_consumer(o, account_id).consumers[c]
                == o.consumers[c],
        spec_register_consumer(o, account_id).producers == o.producers,
{
}

/// Attaching native value to a request whose producer charges no fee
/// fails and changes nothing — in particular, a rejected request
/// carries no `Request` event. When nothing else is wrong, the error
/// is the fee-not-expected one.
pub proof fn lemma_no_fee_rejects_attached_value(
    o: OracleView,
    consumer_id: Seq<char>,
    attached: u128,
    producer_id: Seq<char>,
    request_data: Seq<char>,
    resumption_token: Seq<u8>,
)
    requires
        o.producers.dom().contains(producer_id),
        o.producers[producer_id].fee == ProducerFeeView::NoFee,
        attached > 0,
    ensures
        ({
            let (o2, res) = spec_request(
                o,
                consumer_id,
                attached,
                producer_id,
                request_data,
                resumption_token,
            );
            &&& res is Err
            &&& o2 == o
            &&& o.next_request_id != u64::MAX ==> res == Err::<
                crate::consumer::RequestOutcomeView,
                OracleError,
            >(OracleError::FeeNotExpected)
        }),
{
}

/// Every pending request ID of every producer sits below the request
/// counter. This holds of the empty broker (no producers at all) and
/// is kept by every transition; the lemmas below prove it for the
/// three that touch pending maps or the counter.
pub open spec fn pending_ids_below_counter(o: OracleView) -> bool {
    forall|p: Seq<char>, rid: u64|
        #![trigger o.producers[p].requests_pending.dom().contains(rid)]
        o.producers.dom().contains(p) && o.producers[p].requests_pending.dom().contains(rid)
            ==> rid < o.next_request_id
}

/// No request ID is pending with two producers at once.
pub open spec fn pending_ids_unique(o: OracleView) -> bool {
    forall|p1: Seq<char>, p2: Seq<char>, rid: u64|
        #![trigger o.producers[p1].requests_pending.dom().contains(rid), o.producers[p2].requests_pending.dom().contains(rid)]
        o.producers.dom().contains(p1) && o.producers.dom().contains(p2)
            && o.producers[p1].requests_pending.dom().contains(rid)
            && o.producers[p2].requests_pending.dom().contains(rid) ==> p1 == p2
}

/// An accepted request takes an ID that is pending nowhere — IDs are
/// never reused — records exactly that one new entry under its
/// producer, and keeps both ID invariants.
pub proof fn lemma_request_id_fresh_and_unique(
    o: OracleView,
    consumer_id: Seq<char>,
    attached: u128,
    producer_id: Seq<char>,
    request_data: Seq<char>,
    resumption_token: Seq<u8>,
)
    requires
        pending_ids_below_counter(o),
        pending_ids_unique(o),
        spec_request(o, consumer_id, attached, producer_id, request_data, resumption_token).1 is Ok,
    ensures
        ({
            let (o2, res) = spec_request(
                o,
                consumer_id,
                attached,
                producer_id,
                request_data,
                resumption_token,
            );
            match res {
                Ok(out) => {
                    &&& forall|p: Seq<char>|
                        #![auto]
                        o.producers.dom().contains(p) ==> !o.producers[p].requests_pending.dom()
                            .contains(out.request_id)
                    &&& o2.producers[producer_id].requests_pending
                        == o.producers[producer_id].requests_pending.insert(
                        out.request_id,
                        resumption_token,
                    )
                    &&& pending_ids_below_counter(o2)
                    &&& pending_ids_unique(o2)
                },
                Err(_) => true,
            }
        }),
{
    let (o2, res) = spec_request(
        o,
        consumer_id,
        attached,
        producer_id,
        request_data,
        resumption_token,
    );
    if res is Ok {
        let rid = o.next_request_id;
        assert forall|p: Seq<char>, r: u64|
            o2.producers.dom().contains(p) && #[trigger] o2.producers[p].requests_pending.dom()
                .contains(r) implies r < o2.next_request_id by {
            if p != producer_id {
                assert(o.producers[p].requests_pending.dom().contains(r));
            } else {
                if r != rid {
                    assert(o.producers[p].requests_pending.dom().contains(r));
                }
            }
        }
        assert forall|p1: Seq<char>, p2: Seq<char>, r: u64|
            o2.producers.dom().contains(p1) && o2.producers.dom().contains(p2)
                && #[trigger] o2.producers[p1].requests_pending.dom().contains(r)
                && #[trigger] o2.producers[p2].requests_pending.dom().contains(r) implies p1
            == p2 by {
            if p1 != producer_id && p2 != producer_id {
                assert(o.producers[p1].requests_pending.dom().contains(r));
                assert(o.producers[p2].requests_pending.dom().contains(r));
            } else if p1 == producer_id && p2 != producer_id {
                assert(o.producers[p2].requests_pending.dom().contains(r));
                if r != rid {
                    assert(o.producers[p1].requests_pending.dom().contains(r));
                }
            } else if p1 != producer_id && p2 == producer_id {
                assert(o.producers[p1].requests_pending.dom().contains(r));
                if r != rid {
                    assert(o.producers[p2].requests_pending.dom().contains(r));
                }
            }
        }
    }
}

/// A successful `respond` only removes one pending entry, so both ID
/// invariants survive it.
pub proof fn lemma_respond_preserves_id_invariants(
    o: OracleView,
    producer_id: Seq<char>,
    request_id: u64,
)
    requires
        pending_ids_below_counter(o),
        pending_ids_unique(o),
    ensures
        ({
            let (o2, _) = spec_respond(o, producer_id, request_id);
            pending_ids_below_counter(o2) && pending_ids_unique(o2)
        }),
{
    let (o2, res) = spec_respond(o, producer_id, request_id);
    assert forall|p: Seq<char>, r: u64|
        o2.producers.dom().contains(p) && #[trigger] o2.producers[p].requests_pending.dom()
            .contains(r) implies r < o2.next_request_id by {
        assert(o.producers[p].requests_pending.dom().contains(r));
    }
    assert forall|p1: Seq<char>, p2: Seq<char>, r: u64|
        o2.producers.dom().contains(p1) && o2.producers.dom().contains(p2)
            && #[trigger] o2.producers[p1].requests_pending.dom().contains(r)
            && #[trigger] o2.producers[p2].requests_pending.dom().contains(r) implies p1 == p2 by {
        assert(o.producers[p1].requests_pending.dom().contains(r));
        assert(o.producers[p2].requests_pending.dom().contains(r));
    }
}

/// Settlement never touches a pending map or the counter, so both ID
/// invariants survive it too: once `respond` has removed an entry,
/// nothing puts it back.
pub proof fn lemma_settlement_preserves_id_invariants(
    o: OracleView,
    producer_id: Seq<char>,
    request_id: u64,
    consumer_id: Seq<char>,
    fee: PrepaidFeeView,
    response: Option<crate::producer::ResponseView>,
)
    requires
        pending_ids_below_counter(o),
        pending_ids_unique(o),
    ensures
        ({
            let (o2, _) = spec_on_response(o, producer_id, request_id, consumer_id, fee, response);
            pending_ids_below_counter(o2) && pending_ids_unique(o2)
        }),
{
    let (o2, res) = spec_on_response(o, producer_id, request_id, consumer_id, fee, response);
    assert forall|p: Seq<char>, r: u64|
        o2.producers.dom().contains(p) && #[trigger] o2.producers[p].requests_pending.dom()
            .contains(r) implies r < o2.next_request_id by {
        assert(o.producers[p].requests_pending.dom().contains(r));
    }
    assert forall|p1: Seq<char>, p2: Seq<char>, r: u64|
        o2.producers.dom().contains(p1) && o2.producers.dom().contains(p2)
            && #[trigger] o2.producers[p1].requests_pending.dom().contains(r)
            && #[trigger] o2.producers[p2].requests_pending.dom().contains(r) implies p1 == p2 by {
        assert(o.producers[p1].requests_pending.dom().contains(r));
        assert(o.producers[p2].requests_pending.dom().contains(r));
    }
}

/// Withdrawing more than the general pool holds fails and changes
/// nothing; withdrawing exactly the balance empties the pool.
pub proof fn lemma_withdraw_boundary_general(o: OracleView, caller: Seq<char>, amount: u128)
    requires
        o.consumers.dom().contains(caller),
    ensures
        amount > o.consumers[caller].near_balance ==> spec_withdraw_near(o, caller, amount, None)
            == (o, Err::<crate::fees::NearTransferView, OracleError>(
            OracleError::NotEnoughBalance,
        )),
        amount == o.consumers[caller].near_balance ==> {
            let (o2, res) = spec_withdraw_near(o, caller, amount, None);
            res is Ok && o2.consumers[caller].near_balance == 0
        },
{
}

/// The same boundary on a pool earmarked for one producer: draining
/// it also removes its entry.
pub proof fn lemma_withdraw_boundary_producer(
    o: OracleView,
    caller: Seq<char>,
    producer_id: Seq<char>,
    amount: u128,
)
    requires
        o.consumers.dom().contains(caller),
        o.producers.dom().contains(producer_id),
        o.consumers[caller].near_balance_producer.dom().contains(producer_id),
    ensures
        amount > o.consumers[caller].near_balance_producer[producer_id] ==> spec_withdraw_near(
            o,
            caller,
            amount,
            Some(producer_id),
        ) == (o, Err::<crate::fees::NearTransferView, OracleError>(
            OracleError::NotEnoughBalanceForProducer,
        )),
        amount == o.consumers[caller].near_balance_producer[producer_id] && amount > 0 ==> {
            let (o2, res) = spec_withdraw_near(o, caller, amount, Some(producer_id));
            res is Ok && !o2.consumers[caller].near_balance_producer.dom().contains(producer_id)
        },
{
}

} // verus!
