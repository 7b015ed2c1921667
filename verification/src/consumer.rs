//! Consumer records: escrow pools and counters, plus the events the
//! broker writes to its log channel.

use vstd::pervasive::unreached;
use vstd::prelude::*;

use crate::errors::OracleError;
use crate::fees::{spec_try_charge_fee, PrepaidFee, PrepaidFeeView};
use crate::kvmap::{KvMap, VKey, VValue};
use crate::producer::{PendingRequest, Producer, ProducerView};
use crate::{Oracle, OracleView};

verus! {

/// The record `register_consumer` creates: empty pools, zero counters.
pub open spec fn spec_new_consumer(account_id: Seq<char>) -> ConsumerView {
    ConsumerView {
        account_id: account_id,
        near_balance: 0,
        near_balance_producer: Map::empty(),
        ft_balances: Map::empty(),
        ft_balances_producer: Map::empty(),
        requests_succeeded: 0,
        requests_timed_out: 0,
    }
}

/// Key of a per-producer fungible-token pool.
#[derive(Debug)]
pub struct FtKey {
    pub producer_id: String,
    pub ft_id: String,
}

impl View for FtKey {
    type V = (Seq<char>, Seq<char>);

    open spec fn view(&self) -> (Seq<char>, Seq<char>) {
        (self.producer_id@, self.ft_id@)
    }
}

impl VKey for FtKey {
    fn key_eq(&self, other: &Self) -> (r: bool) {
        self.producer_id == other.producer_id && self.ft_id == other.ft_id
    }
}

/// An account that requests data from producers, with its escrow:
/// native and fungible-token balances, each split into a general pool
/// and pools earmarked for one producer.
#[derive(Debug)]
pub struct Consumer {
    /// Account ID of the consumer.
    pub account_id: String,
    /// Native balance usable for requests to any producer.
    pub near_balance: u128,
    /// Native balances earmarked for single producers; tried before
    /// the general pool when a fee is charged.
    pub near_balance_producer: KvMap<String, u128>,
    /// Fungible-token balances usable for requests to any producer.
    pub ft_balances: KvMap<String, u128>,
    /// Fungible-token balances earmarked for single producers; tried
    /// before the general pools.
    pub ft_balances_producer: KvMap<FtKey, u128>,
    /// Number of requests answered by a producer.
    pub requests_succeeded: u64,
    /// Number of requests that timed out.
    pub requests_timed_out: u64,
}

#[verifier::ext_equal]
pub struct ConsumerView {
    pub account_id: Seq<char>,
    pub near_balance: u128,
    pub near_balance_producer: Map<Seq<char>, u128>,
    pub ft_balances: Map<Seq<char>, u128>,
    pub ft_balances_producer: Map<(Seq<char>, Seq<char>), u128>,
    pub requests_succeeded: u64,
    pub requests_timed_out: u64,
}

impl View for Consumer {
    type V = ConsumerView;

    open spec fn view(&self) -> ConsumerView {
        ConsumerView {
            account_id: self.account_id@,
            near_balance: self.near_balance,
            near_balance_producer: self.near_balance_producer@,
            ft_balances: self.ft_balances@,
            ft_balances_producer: self.ft_balances_producer@,
            requests_succeeded: self.requests_succeeded,
            requests_timed_out: self.requests_timed_out,
        }
    }
}

impl VValue for Consumer {
    open spec fn vwf(&self) -> bool {
        self.near_balance_producer.wf() && self.ft_balances.wf() && self.ft_balances_producer.wf()
    }
}

/// Payload of the `request` event: everything an off-chain producer
/// needs in order to answer.
#[derive(Debug)]
pub struct RequestEventV1 {
    pub producer_id: String,
    pub consumer_id: String,
    pub request_id: u64,
    pub request_data: String,
}

pub struct RequestEventV1View {
    pub producer_id: Seq<char>,
    pub consumer_id: Seq<char>,
    pub request_id: u64,
    pub request_data: Seq<char>,
}

impl View for RequestEventV1 {
    type V = RequestEventV1View;

    open spec fn view(&self) -> RequestEventV1View {
        RequestEventV1View {
            producer_id: self.producer_id@,
            consumer_id: self.consumer_id@,
            request_id: self.request_id,
            request_data: self.request_data@,
        }
    }
}

/// A structured record for the host's log channel. Producer events
/// carry a snapshot of the record with an empty pending map: the
/// pending requests are not observable through the log.
#[derive(Debug)]
pub enum OracleEvent {
    Request(RequestEventV1),
    ProducerCreated(Producer),
    ProducerUpdated(Producer),
}

pub enum OracleEventView {
    Request(RequestEventV1View),
    ProducerCreated(ProducerView),
    ProducerUpdated(ProducerView),
}

impl View for OracleEvent {
    type V = OracleEventView;

    open spec fn view(&self) -> OracleEventView {
        match self {
            OracleEvent::Request(e) => OracleEventView::Request(e@),
            OracleEvent::ProducerCreated(p) => OracleEventView::ProducerCreated(p@),
            OracleEvent::ProducerUpdated(p) => OracleEventView::ProducerUpdated(p@),
        }
    }
}

/// What `register_consumer` does: an account without a record gets a
/// fresh one with empty pools; an account that is already registered
/// keeps its record exactly as it is, so registration can never
/// destroy escrow. Records are never deleted.
pub open spec fn spec_register_consumer(o: OracleView, account_id: Seq<char>) -> OracleView {
    if o.consumers.dom().contains(account_id) {
        o
    } else {
        OracleView {
            consumers: o.consumers.insert(account_id, spec_new_consumer(account_id)),
            ..o
        }
    }
}

impl Oracle {
    /// Registers `account_id` as a consumer with empty pools. Anyone
    /// may register any account (proxy registration is allowed), so
    /// an account that already has a record keeps it untouched: a
    /// stranger cannot reset someone else's escrow.
    pub fn register_consumer(&mut self, account_id: String)
        requires
            old(self).wf(),
        ensures
            final(self).wf(),
            final(self)@ == spec_register_consumer(old(self)@, account_id@),
            final(self)@.consumers.dom().contains(account_id@),
    {
        if self.consumers.contains_key(&account_id) {
            return;
        }
        let consumer = Consumer {
            account_id: account_id.clone(),
            near_balance: 0,
            near_balance_producer: KvMap::new(),
            ft_balances: KvMap::new(),
            ft_balances_producer: KvMap::new(),
            requests_succeeded: 0,
            requests_timed_out: 0,
        };
        self.consumers.insert(account_id, consumer);
    }

    /// Whether `account_id` has a consumer record.
    pub fn is_registered_as_consumer(&self, account_id: &String) -> (r: bool)
        requires
            self.wf(),
        ensures
            r == self@.consumers.dom().contains(account_id@),
    {
        self.consumers.contains_key(account_id)
    }
}

/// Everything `request` decides: the allocated ID, the charged fee,
/// whether the producer wants the `on_request` call, and the event to
/// log. The host binds the caller's frame to the resumption token and
/// later settles through `on_response`.
#[derive(Debug)]
pub struct RequestOutcome {
    pub request_id: u64,
    pub prepaid_fee: PrepaidFee,
    pub send_callback: bool,
    pub event: OracleEvent,
}

pub struct RequestOutcomeView {
    pub request_id: u64,
    pub prepaid_fee: PrepaidFeeView,
    pub send_callback: bool,
    pub event: OracleEventView,
}

impl View for RequestOutcome {
    type V = RequestOutcomeView;

    open spec fn view(&self) -> RequestOutcomeView {
        RequestOutcomeView {
            request_id: self.request_id,
            prepaid_fee: self.prepaid_fee@,
            send_callback: self.send_callback,
            event: self.event@,
        }
    }
}

/// What `request` does: the producer must exist, its fee is charged
/// as [`spec_try_charge_fee`] says, the next request ID is allocated,
/// and the resumption token is stored under the producer. Nothing
/// changes when any step fails.
pub open spec fn spec_request(
    o: OracleView,
    consumer_id: Seq<char>,
    attached: u128,
    producer_id: Seq<char>,
    request_data: Seq<char>,
    resumption_token: Seq<u8>,
) -> (OracleView, Result<RequestOutcomeView, OracleError>) {
    if !o.producers.dom().contains(producer_id) {
        (o, Err(OracleError::ProducerDoesNotExist))
    } else if o.next_request_id == u64::MAX {
        (o, Err(OracleError::Overflow))
    } else {
        let fee = o.producers[producer_id].fee;
        let (o1, charge) = spec_try_charge_fee(o, consumer_id, producer_id, fee, attached);
        match charge {
            Err(e) => (o, Err(e)),
            Ok(prepaid) => {
                let rid = o.next_request_id;
                let p = o1.producers[producer_id];
                let p2 = ProducerView {
                    requests_pending: p.requests_pending.insert(rid, resumption_token),
                    ..p
                };
                let o2 = OracleView {
                    producers: o1.producers.insert(producer_id, p2),
                    next_request_id: (rid + 1) as u64,
                    ..o1
                };
                (
                    o2,
                    Ok(
                        RequestOutcomeView {
                            request_id: rid,
                            prepaid_fee: prepaid,
                            send_callback: p.send_callback,
                            event: OracleEventView::Request(
                                RequestEventV1View {
                                    producer_id: producer_id,
                                    consumer_id: consumer_id,
                                    request_id: rid,
                                    request_data: request_data,
                                },
                            ),
                        },
                    ),
                )
            },
        }
    }
}

impl Oracle {
    /// A consumer's request to `producer_id`. Charges the producer's
    /// fee (from the attached value or from escrow), allocates the
    /// next request ID, and stores the host-issued resumption token
    /// under the producer. The host must afterwards log the event,
    /// make the `on_request` call if asked for, and keep the caller's
    /// frame suspended until settlement.
    pub fn request(
        &mut self,
        consumer_id: String,
        attached: u128,
        producer_id: String,
        request_data: String,
        resumption_token: Vec<u8>,
    ) -> (r: Result<RequestOutcome, OracleError>)
        requires
            old(self).wf(),
        ensures
            final(self).wf(),
            ({
                let (s2, res) = spec_request(
                    old(self)@,
                    consumer_id@,
                    attached,
                    producer_id@,
                    request_data@,
                    resumption_token@,
                );
                &&& final(self)@ == s2
                &&& match (r, res) {
                    (Ok(out), Ok(v)) => out@ == v,
                    (Err(e), Err(ev)) => e == ev,
                    _ => false,
                }
            }),
    {
        let ghost o0 = self@;
        let ghost cidv = consumer_id@;
        let ghost pidv = producer_id@;
        let ghost rdv = request_data@;
        let ghost tokv = resumption_token@;
        let fee = match self.producers.get(&producer_id) {
            Some(p) => p.fee.duplicate(),
            None => {
                return Err(OracleError::ProducerDoesNotExist);
            },
        };
        if self.next_request_id == u64::MAX {
            return Err(OracleError::Overflow);
        }
        let prepaid = match self.try_charge_fee(&consumer_id, &producer_id, &fee, attached) {
            Ok(p) => p,
            Err(e) => {
                return Err(e);
            },
        };
        let request_id = self.next_request_id;
        self.next_request_id = request_id + 1;
        let mut producer = match self.producers.remove(&producer_id) {
            Some(p) => p,
            None => unreached(),
        };
        let send_callback = producer.send_callback;
        producer.requests_pending.insert(request_id, PendingRequest { resumption_token });
        self.producers.insert(producer_id.clone(), producer);
        let event = OracleEvent::Request(
            RequestEventV1 { producer_id, consumer_id, request_id, request_data },
        );
        proof {
            assert(self@ =~= spec_request(o0, cidv, attached, pidv, rdv, tokv).0);
        }
        Ok(RequestOutcome { request_id, prepaid_fee: prepaid, send_callback, event })
    }
}

} // verus!
