//! A verified model of a pull-style oracle broker.
//!
//! The broker mediates requests between on-chain consumers and
//! registered off-chain producers: it escrows fees, allocates
//! monotonically increasing request identifiers, remembers one
//! resumption token per pending request, and settles fees when a
//! response arrives or the host reports a timeout. Every state
//! transition is an ordinary Rust function with a contract; the host
//! (account identities, attached deposits, transfers, yield/resume)
//! stays outside and hands plain values in and out.

use vstd::prelude::*;

pub mod balance;
pub mod bitcoin_proof;
pub mod consumer;
pub mod errors;
pub mod fees;
pub mod kvmap;
pub mod laws;
pub mod producer;
pub mod reclaim;

use consumer::{Consumer, ConsumerView};
use kvmap::KvMap;
use producer::{Producer, ProducerView};

verus! {

/// The view of an `Option<String>`.
pub open spec fn opt_str_view(o: Option<String>) -> Option<Seq<char>> {
    match o {
        Some(s) => Some(s@),
        None => None,
    }
}

/// The broker's whole state: both registries and the next request ID.
#[derive(Debug)]
pub struct Oracle {
    pub producers: KvMap<String, Producer>,
    pub consumers: KvMap<String, Consumer>,
    pub next_request_id: u64,
}

#[verifier::ext_equal]
pub struct OracleView {
    pub producers: Map<Seq<char>, ProducerView>,
    pub consumers: Map<Seq<char>, ConsumerView>,
    pub next_request_id: u64,
}

impl View for Oracle {
    type V = OracleView;

    open spec fn view(&self) -> OracleView {
        OracleView {
            producers: self.producers@,
            consumers: self.consumers@,
            next_request_id: self.next_request_id,
        }
    }
}

impl Oracle {
    /// Both registries have unique keys and well-formed records.
    pub open spec fn wf(&self) -> bool {
        self.producers.wf() && self.consumers.wf()
    }
}

impl Default for Oracle {
    /// An empty broker: no producers, no consumers, IDs start at zero.
    fn default() -> (r: Self)
        ensures
            r.wf(),
            r@.producers == Map::<Seq<char>, ProducerView>::empty(),
            r@.consumers == Map::<Seq<char>, ConsumerView>::empty(),
            r@.next_request_id == 0,
    {
        Oracle { producers: KvMap::new(), consumers: KvMap::new(), next_request_id: 0 }
    }
}

} // verus!
