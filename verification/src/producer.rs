//! Producer records and the responses they send back.

use vstd::pervasive::unreached;
use vstd::prelude::*;

use crate::consumer::{OracleEvent, OracleEventView};
use crate::errors::OracleError;
use crate::fees::{
    spec_deposit_to_producer, spec_refund_fully, spec_refund_partially, NearTransfer,
    NearTransferView, PrepaidFee, PrepaidFeeView, ProducerFee, ProducerFeeView, TransferAction,
    TransferActionView,
};
use crate::kvmap::{KvMap, VValue};
use crate::{opt_str_view, Oracle, OracleView};

verus! {

/// One suspended request: the host-issued, single-use resumption
/// token that will resume the consumer's call.
#[derive(Debug)]
pub struct PendingRequest {
    pub resumption_token: Vec<u8>,
}

impl View for PendingRequest {
    type V = Seq<u8>;

    open spec fn view(&self) -> Seq<u8> {
        self.resumption_token@
    }
}

impl VValue for PendingRequest {
    open spec fn vwf(&self) -> bool {
        true
    }
}

/// A producer's answer to one request. The optional refund is taken
/// out of the prepaid fee and returned to the consumer.
#[derive(Debug)]
pub struct Response {
    pub response_data: String,
    pub refund_amount: Option<u128>,
}

pub struct ResponseView {
    pub response_data: Seq<char>,
    pub refund_amount: Option<u128>,
}

impl View for Response {
    type V = ResponseView;

    open spec fn view(&self) -> ResponseView {
        ResponseView { response_data: self.response_data@, refund_amount: self.refund_amount }
    }
}

impl Response {
    /// An owned copy, equal to this value.
    pub fn duplicate(&self) -> (r: Self)
        ensures
            r == *self,
    {
        Response {
            response_data: self.response_data.clone(),
            refund_amount: match self.refund_amount {
                Some(a) => Some(a),
                None => None,
            },
        }
    }
}

/// An account that answers requests, with its fee schedule, counters
/// and the requests still waiting for its response.
#[derive(Debug)]
pub struct Producer {
    /// Account ID of the producer.
    pub account_id: String,
    /// Number of responses sent back to consumers.
    pub requests_succeeded: u64,
    /// Number of requests that timed out before a response arrived.
    pub requests_timed_out: u64,
    /// Requests that are currently being processed, by request ID.
    pub requests_pending: KvMap<u64, PendingRequest>,
    /// The fee charged for each request.
    pub fee: ProducerFee,
    /// If true, the broker also calls `on_request` on the producer's
    /// account when a request is created.
    pub send_callback: bool,
    /// Display name of the producer.
    pub name: String,
    /// Description of the producer.
    pub description: String,
    /// Example input for usage examples.
    pub example_input: Option<String>,
}

#[verifier::ext_equal]
pub struct ProducerView {
    pub account_id: Seq<char>,
    pub requests_succeeded: u64,
    pub requests_timed_out: u64,
    pub requests_pending: Map<u64, Seq<u8>>,
    pub fee: ProducerFeeView,
    pub send_callback: bool,
    pub name: Seq<char>,
    pub description: Seq<char>,
    pub example_input: Option<Seq<char>>,
}

impl View for Producer {
    type V = ProducerView;

    open spec fn view(&self) -> ProducerView {
        ProducerView {
            account_id: self.account_id@,
            requests_succeeded: self.requests_succeeded,
            requests_timed_out: self.requests_timed_out,
            requests_pending: self.requests_pending@,
            fee: self.fee@,
            send_callback: self.send_callback,
            name: self.name@,
            description: self.description@,
            example_input: crate::opt_str_view(self.example_input),
        }
    }
}

impl VValue for Producer {
    open spec fn vwf(&self) -> bool {
        self.requests_pending.wf()
    }
}

/// The record `add_producer` creates: no fee, no callback, zero
/// counters, placeholder metadata.
pub open spec fn spec_new_producer(account_id: Seq<char>) -> ProducerView {
    ProducerView {
        account_id: account_id,
        requests_succeeded: 0,
        requests_timed_out: 0,
        requests_pending: Map::empty(),
        fee: ProducerFeeView::NoFee,
        send_callback: false,
        name: "Unnamed"@,
        description: "No description"@,
        example_input: None,
    }
}

/// A producer as the event log shows it: the pending map is not
/// observable and is left empty.
pub open spec fn spec_snapshot(p: ProducerView) -> ProducerView {
    ProducerView { requests_pending: Map::empty(), ..p }
}

/// The record a producer (re-)registration installs: a fresh fee
/// schedule, callback flag, metadata and counters — but requests
/// already pending stay pending, so responses and timeouts for them
/// still settle.
pub open spec fn spec_registered_producer(o: OracleView, caller: Seq<char>) -> ProducerView {
    ProducerView {
        requests_pending: if o.producers.dom().contains(caller) {
            o.producers[caller].requests_pending
        } else {
            Map::empty()
        },
        ..spec_new_producer(caller)
    }
}

fn opt_clone(o: &Option<String>) -> (r: Option<String>)
    ensures
        r == *o,
{
    match o {
        Some(s) => Some(s.clone()),
        None => None,
    }
}

impl Producer {
    /// A copy for the event log, with the pending map left out.
    pub fn snapshot(&self) -> (r: Producer)
        ensures
            r@ == spec_snapshot(self@),
            r.vwf(),
    {
        Producer {
            account_id: self.account_id.clone(),
            requests_succeeded: self.requests_succeeded,
            requests_timed_out: self.requests_timed_out,
            requests_pending: KvMap::new(),
            fee: self.fee.duplicate(),
            send_callback: self.send_callback,
            name: self.name.clone(),
            description: self.description.clone(),
            example_input: opt_clone(&self.example_input),
        }
    }
}

impl Oracle {
    /// Self-registration of the caller as a producer. Registering
    /// again resets the fee, flag, metadata and counters, but keeps
    /// the requests still pending: they can still be answered or time
    /// out. Returns the `ProducerCreated` event for the host to log.
    pub fn add_producer(&mut self, caller: String) -> (r: OracleEvent)
        requires
            old(self).wf(),
        ensures
            final(self).wf(),
            final(self)@ == (OracleView {
                producers: old(self)@.producers.insert(
                    caller@,
                    spec_registered_producer(old(self)@, caller@),
                ),
                ..old(self)@
            }),
            r@ == OracleEventView::ProducerCreated(spec_snapshot(spec_new_producer(caller@))),
    {
        let ghost o0 = self@;
        let ghost cv = caller@;
        let requests_pending = match self.producers.remove(&caller) {
            Some(p) => p.requests_pending,
            None => KvMap::new(),
        };
        let producer = Producer {
            account_id: caller.clone(),
            requests_succeeded: 0,
            requests_timed_out: 0,
            requests_pending,
            fee: ProducerFee::NoFee,
            send_callback: false,
            name: "Unnamed".to_owned(),
            description: "No description".to_owned(),
            example_input: None,
        };
        let event = OracleEvent::ProducerCreated(producer.snapshot());
        self.producers.insert(caller, producer);
        proof {
            assert(self.producers@ =~= o0.producers.insert(cv, spec_registered_producer(o0, cv)));
            assert(event@ == OracleEventView::ProducerCreated(spec_snapshot(spec_new_producer(cv))))
                by {
                assert(spec_snapshot(spec_registered_producer(o0, cv)) =~= spec_snapshot(
                    spec_new_producer(cv),
                ));
            }
        }
        event
    }

    /// The producer's record, or `None` if the account never
    /// registered as a producer.
    pub fn get_producer_details(&self, account_id: &String) -> (r: Option<&Producer>)
        requires
            self.wf(),
        ensures
            match r {
                Some(p) => self@.producers.dom().contains(account_id@) && p@
                    == self@.producers[account_id@],
                None => !self@.producers.dom().contains(account_id@),
            },
    {
        self.producers.get(account_id)
    }

    /// Whether `account_id` has a producer record.
    pub fn is_producer(&self, account_id: &String) -> (r: bool)
        requires
            self.wf(),
        ensures
            r == self@.producers.dom().contains(account_id@),
    {
        self.producers.contains_key(account_id)
    }

    /// Updates the caller's display metadata. Returns the
    /// `ProducerUpdated` event for the host to log.
    pub fn edit_producer_details(
        &mut self,
        caller: &String,
        name: String,
        description: String,
        example_input: Option<String>,
    ) -> (r: Result<OracleEvent, OracleError>)
        requires
            old(self).wf(),
        ensures
            final(self).wf(),
            match r {
                Ok(event) => {
                    &&& old(self)@.producers.dom().contains(caller@)
                    &&& final(self)@ == (OracleView {
                        producers: old(self)@.producers.insert(
                            caller@,
                            (ProducerView {
                                name: name@,
                                description: description@,
                                example_input: opt_str_view(example_input),
                                ..old(self)@.producers[caller@]
                            }),
                        ),
                        ..old(self)@
                    })
                    &&& event@ == OracleEventView::ProducerUpdated(
                        spec_snapshot(final(self)@.producers[caller@]),
                    )
                },
                Err(e) => {
                    &&& e == OracleError::ProducerDoesNotExist
                    &&& !old(self)@.producers.dom().contains(caller@)
                    &&& final(self)@ == old(self)@
                },
            },
    {
        if !self.producers.contains_key(caller) {
            return Err(OracleError::ProducerDoesNotExist);
        }
        let mut producer = match self.producers.remove(caller) {
            Some(p) => p,
            None => unreached(),
        };
        producer.name = name;
        producer.description = description;
        producer.example_input = example_input;
        let event = OracleEvent::ProducerUpdated(producer.snapshot());
        self.producers.insert(caller.clone(), producer);
        proof {
            assert(self.producers@ =~= old(self)@.producers.insert(
                caller@,
                self.producers@[caller@],
            ));
        }
        Ok(event)
    }

    /// Turns the `on_request` callback for the calling producer on or
    /// off. Returns the `ProducerUpdated` event for the host to log.
    pub fn set_send_callback(&mut self, caller: &String, send_callback: bool) -> (r: Result<
        OracleEvent,
        OracleError,
    >)
        requires
            old(self).wf(),
        ensures
            final(self).wf(),
            match r {
                Ok(event) => {
                    &&& old(self)@.producers.dom().contains(caller@)
                    &&& final(self)@ == (OracleView {
                        producers: old(self)@.producers.insert(
                            caller@,
                            (ProducerView {
                                send_callback: send_callback,
                                ..old(self)@.producers[caller@]
                            }),
                        ),
                        ..old(self)@
                    })
                    &&& event@ == OracleEventView::ProducerUpdated(
                        spec_snapshot(final(self)@.producers[caller@]),
                    )
                },
                Err(e) => {
                    &&& e == OracleError::ProducerDoesNotExist
                    &&& !old(self)@.producers.dom().contains(caller@)
                    &&& final(self)@ == old(self)@
                },
            },
    {
        if !self.producers.contains_key(caller) {
            return Err(OracleError::ProducerDoesNotExist);
        }
        let mut producer = match self.producers.remove(caller) {
            Some(p) => p,
            None => unreached(),
        };
        producer.send_callback = send_callback;
        let event = OracleEvent::ProducerUpdated(producer.snapshot());
        self.producers.insert(caller.clone(), producer);
        proof {
            assert(self.producers@ =~= old(self)@.producers.insert(
                caller@,
                self.producers@[caller@],
            ));
        }
        Ok(event)
    }
}

/// What `respond` returns: the single-use token with which the host
/// resumes the suspended `request` call, and the response payload to
/// hand it.
#[derive(Debug)]
pub struct RespondOutcome {
    pub resumption_token: Vec<u8>,
    pub response: Response,
}

/// What `respond` does: the caller must be a registered producer and
/// `request_id` must still be pending for it; the entry is removed —
/// so a second `respond` for the same ID fails — and its resumption
/// token is handed out.
pub open spec fn spec_respond(o: OracleView, producer_id: Seq<char>, request_id: u64) -> (
    OracleView,
    Result<Seq<u8>, OracleError>,
) {
    if !o.producers.dom().contains(producer_id) {
        (o, Err(OracleError::ProducerNotRegistered))
    } else {
        let p = o.producers[producer_id];
        if !p.requests_pending.dom().contains(request_id) {
            (o, Err(OracleError::RequestNotFound))
        } else {
            let p2 = ProducerView { requests_pending: p.requests_pending.remove(request_id), ..p };
            (
                (OracleView { producers: o.producers.insert(producer_id, p2), ..o }),
                Ok(p.requests_pending[request_id]),
            )
        }
    }
}

/// The view of an `Option<Response>`.
pub open spec fn opt_resp_view(o: Option<Response>) -> Option<ResponseView> {
    match o {
        Some(r) => Some(r@),
        None => None,
    }
}

/// Everything settlement decides: the value the suspended call
/// returns to the consumer, up to two outbound transfers, and the
/// event to log.
#[derive(Debug)]
pub struct Settlement {
    /// Handed to the resumed `request` call; `None` on timeout.
    pub response: Option<Response>,
    /// A direct refund transfer, only for an attached-to-call fee.
    pub refund_transfer: Option<NearTransfer>,
    /// The producer's net payment.
    pub payout: Option<TransferAction>,
    /// The `ProducerUpdated` event for the host to log.
    pub event: OracleEvent,
}

pub struct SettlementView {
    pub response: Option<ResponseView>,
    pub refund_transfer: Option<NearTransferView>,
    pub payout: Option<TransferActionView>,
    pub event: OracleEventView,
}

impl View for Settlement {
    type V = SettlementView;

    open spec fn view(&self) -> SettlementView {
        SettlementView {
            response: opt_resp_view(self.response),
            refund_transfer: match self.refund_transfer {
                Some(t) => Some(t@),
                None => None,
            },
            payout: match self.payout {
                Some(t) => Some(t@),
                None => None,
            },
            event: self.event@,
        }
    }
}

/// What `on_response` does. With a response: the producer's success
/// counter goes up, an optional partial refund goes back to the pool
/// the fee came from, and the producer is paid the rest. Without one
/// (timeout): the timeout counter goes up and the fee is refunded
/// fully. Nothing changes when any step fails.
pub open spec fn spec_on_response(
    o: OracleView,
    producer_id: Seq<char>,
    request_id: u64,
    consumer_id: Seq<char>,
    fee: PrepaidFeeView,
    response: Option<ResponseView>,
) -> (OracleView, Result<SettlementView, OracleError>) {
    if !o.producers.dom().contains(producer_id) {
        (o, Err(OracleError::ProducerDoesNotExist))
    } else {
        let p = o.producers[producer_id];
        match response {
            Some(resp) => match spec_deposit_to_producer(producer_id, fee, resp.refund_amount) {
                Err(e) => (o, Err(e)),
                Ok(payout) => {
                    if p.requests_succeeded == u64::MAX {
                        (o, Err(OracleError::Overflow))
                    } else {
                        let p2 = ProducerView {
                            requests_succeeded: (p.requests_succeeded + 1) as u64,
                            ..p
                        };
                        let o1 = OracleView { producers: o.producers.insert(producer_id, p2), ..o };
                        match resp.refund_amount {
                            Some(ra) => {
                                let (o2, refres) = spec_refund_partially(
                                    o1,
                                    consumer_id,
                                    producer_id,
                                    fee,
                                    ra,
                                );
                                match refres {
                                    Err(e) => (o, Err(e)),
                                    Ok(refund_transfer) => (
                                        o2,
                                        Ok(
                                            SettlementView {
                                                response: Some(resp),
                                                refund_transfer: refund_transfer,
                                                payout: payout,
                                                event: OracleEventView::ProducerUpdated(
                                                    spec_snapshot(p2),
                                                ),
                                            },
                                        ),
                                    ),
                                }
                            },
                            None => (
                                o1,
                                Ok(
                                    SettlementView {
                                        response: Some(resp),
                                        refund_transfer: None,
                                        payout: payout,
                                        event: OracleEventView::ProducerUpdated(spec_snapshot(p2)),
                                    },
                                ),
                            ),
                        }
                    }
                },
            },
            None => {
                if p.requests_timed_out == u64::MAX {
                    (o, Err(OracleError::Overflow))
                } else {
                    let p2 = ProducerView {
                        requests_timed_out: (p.requests_timed_out + 1) as u64,
                        ..p
                    };
                    let o1 = OracleView { producers: o.producers.insert(producer_id, p2), ..o };
                    let (o2, refres) = spec_refund_fully(o1, consumer_id, producer_id, fee);
                    match refres {
                        Err(e) => (o, Err(e)),
                        Ok(refund_transfer) => (
                            o2,
                            Ok(
                                SettlementView {
                                    response: None,
                                    refund_transfer: refund_transfer,
                                    payout: None,
                                    event: OracleEventView::ProducerUpdated(spec_snapshot(p2)),
                                },
                            ),
                        ),
                    }
                }
            },
        }
    }
}

impl Oracle {
    /// A producer's answer to the pending request `request_id`.
    /// Removes the pending entry — a second `respond` for the same ID
    /// fails — and returns its resumption token together with the
    /// response, with which the host resumes the suspended call; that
    /// resumption runs `on_response`. If the host then reports the
    /// token unknown, it must abort the call and roll this removal
    /// back.
    pub fn respond(&mut self, caller: &String, request_id: u64, response: Response) -> (r: Result<
        RespondOutcome,
        OracleError,
    >)
        requires
            old(self).wf(),
        ensures
            final(self).wf(),
            ({
                let (s2, res) = spec_respond(old(self)@, caller@, request_id);
                &&& final(self)@ == s2
                &&& match (r, res) {
                    (Ok(out), Ok(tok)) => out.resumption_token@ == tok && out.response == response,
                    (Err(e), Err(ev)) => e == ev,
                    _ => false,
                }
            }),
    {
        let ghost o0 = self@;
        let is_pending = match self.producers.get(caller) {
            Some(p) => p.requests_pending.contains_key(&request_id),
            None => {
                return Err(OracleError::ProducerNotRegistered);
            },
        };
        if !is_pending {
            return Err(OracleError::RequestNotFound);
        }
        let mut producer = match self.producers.remove(caller) {
            Some(p) => p,
            None => unreached(),
        };
        let pending = match producer.requests_pending.remove(&request_id) {
            Some(p) => p,
            None => unreached(),
        };
        self.producers.insert(caller.clone(), producer);
        proof {
            assert(self@ =~= spec_respond(o0, caller@, request_id).0);
        }
        Ok(RespondOutcome { resumption_token: pending.resumption_token, response })
    }

    /// Settlement of one request, run when the host resumes the
    /// suspended call: with the producer's response, or with `None`
    /// when the deadline passed. `request_id` only names the request
    /// for the host's log; the pending entry was already removed by
    /// `respond`, and a timed-out entry stays behind. Only the host
    /// may invoke this.
    pub fn on_response(
        &mut self,
        producer_id: String,
        request_id: u64,
        consumer_id: String,
        fee: PrepaidFee,
        response: Option<Response>,
    ) -> (r: Result<Settlement, OracleError>)
        requires
            old(self).wf(),
        ensures
            final(self).wf(),
            ({
                let (s2, res) = spec_on_response(
                    old(self)@,
                    producer_id@,
                    request_id,
                    consumer_id@,
                    fee@,
                    opt_resp_view(response),
                );
                &&& final(self)@ == s2
                &&& match (r, res) {
                    (Ok(out), Ok(v)) => out@ == v,
                    (Err(e), Err(ev)) => e == ev,
                    _ => false,
                }
            }),
    {
        let ghost o0 = self@;
        let ghost pidv = producer_id@;
        let ghost cidv = consumer_id@;
        let ghost feev = fee@;
        if !self.producers.contains_key(&producer_id) {
            return Err(OracleError::ProducerDoesNotExist);
        }
        match response {
            Some(resp) => {
                let ghost respv = resp@;
                let payout = match self.deposit_to_producer(
                    producer_id.clone(),
                    &fee,
                    resp.refund_amount,
                ) {
                    Ok(p) => p,
                    Err(e) => {
                        return Err(e);
                    },
                };
                let succeeded: u64 = match self.producers.get(&producer_id) {
                    Some(p) => p.requests_succeeded,
                    None => unreached(),
                };
                if succeeded == u64::MAX {
                    return Err(OracleError::Overflow);
                }
                let refund_transfer = match resp.refund_amount {
                    Some(ra) => match self.refund_partially(&consumer_id, &producer_id, &fee, ra) {
                        Ok(t) => t,
                        Err(e) => {
                            return Err(e);
                        },
                    },
                    None => None,
                };
                let mut producer = match self.producers.remove(&producer_id) {
                    Some(p) => p,
                    None => unreached(),
                };
                producer.requests_succeeded = producer.requests_succeeded + 1;
                let event = OracleEvent::ProducerUpdated(producer.snapshot());
                self.producers.insert(producer_id, producer);
                proof {
                    assert(self@ =~= spec_on_response(
                        o0,
                        pidv,
                        request_id,
                        cidv,
                        feev,
                        Some(respv),
                    ).0);
                }
                Ok(Settlement { response: Some(resp), refund_transfer, payout, event })
            },
            None => {
                let timed_out: u64 = match self.producers.get(&producer_id) {
                    Some(p) => p.requests_timed_out,
                    None => unreached(),
                };
                if timed_out == u64::MAX {
                    return Err(OracleError::Overflow);
                }
                let refund_transfer = match self.refund_fully(&consumer_id, &producer_id, &fee) {
                    Ok(t) => t,
                    Err(e) => {
                        return Err(e);
                    },
                };
                let mut producer = match self.producers.remove(&producer_id) {
                    Some(p) => p,
                    None => unreached(),
                };
                producer.requests_timed_out = producer.requests_timed_out + 1;
                let event = OracleEvent::ProducerUpdated(producer.snapshot());
                self.producers.insert(producer_id, producer);
                proof {
                    assert(self@ =~= spec_on_response(o0, pidv, request_id, cidv, feev, None).0);
                }
                Ok(Settlement { response: None, refund_transfer, payout: None, event })
            },
        }
    }
}

} // verus!
