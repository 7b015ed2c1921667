//! The broker's failure taxonomy.
//!
//! Every entry point is total: instead of aborting the call it
//! returns one of these values, and the host decides how to surface
//! the message. No verified function of this crate panics.

use vstd::prelude::*;

verus! {

/// Why a broker call was rejected. Each variant carries a fixed,
/// human-readable message, reachable through [`OracleError::message`].
#[derive(Clone, Copy, Debug, PartialEq, Eq, Structural)]
pub enum OracleError {
    /// A consumer record was required but the account never registered.
    ConsumerNotRegistered,
    /// The caller had to be a registered producer and is not.
    ProducerNotRegistered,
    /// A referenced producer account has no producer record.
    ProducerDoesNotExist,
    /// The addressed general pool does not cover the amount.
    NotEnoughBalance,
    /// The addressed per-producer pool does not cover the amount.
    NotEnoughBalanceForProducer,
    /// A withdrawal addressed a per-producer pool that has no entry.
    NoBalanceForProducer,
    /// A fungible-token withdrawal addressed a general pool with no entry.
    NoBalance,
    /// Native value was attached to a request whose producer charges no fee.
    FeeNotExpected,
    /// A balance update or the request counter would overflow.
    Overflow,
    /// `respond` targeted an unknown or already-settled request.
    RequestNotFound,
    /// A response asked to refund more than was prepaid.
    RefundExceedsPrepaid,
    /// The fungible-token transfer message could not be parsed.
    InvalidMsg,
}

impl OracleError {
    pub open spec fn spec_message(&self) -> Seq<char> {
        match self {
            OracleError::ConsumerNotRegistered => "Consumer is not registered"@,
            OracleError::ProducerNotRegistered => "Producer is not registered"@,
            OracleError::ProducerDoesNotExist => "Producer doesn't exist"@,
            OracleError::NotEnoughBalance => "Not enough balance"@,
            OracleError::NotEnoughBalanceForProducer => "Not enough balance for producer"@,
            OracleError::NoBalanceForProducer => "No balance for producer"@,
            OracleError::NoBalance => "No balance"@,
            OracleError::FeeNotExpected => "No fee is required, but NEAR attached"@,
            OracleError::Overflow => "Overflow"@,
            OracleError::RequestNotFound => "Request not found or already responded to"@,
            OracleError::RefundExceedsPrepaid => "Refund amount is greater than prepaid amount"@,
            OracleError::InvalidMsg => "Invalid msg"@,
        }
    }

    /// The message the host logs when it aborts a call with this error.
    pub fn message(&self) -> (r: &'static str)
        ensures
            r@ == self.spec_message(),
    {
        match self {
            OracleError::ConsumerNotRegistered => "Consumer is not registered",
            OracleError::ProducerNotRegistered => "Producer is not registered",
            OracleError::ProducerDoesNotExist => "Producer doesn't exist",
            OracleError::NotEnoughBalance => "Not enough balance",
            OracleError::NotEnoughBalanceForProducer => "Not enough balance for producer",
            OracleError::NoBalanceForProducer => "No balance for producer",
            OracleError::NoBalance => "No balance",
            OracleError::FeeNotExpected => "No fee is required, but NEAR attached",
            OracleError::Overflow => "Overflow",
            OracleError::RequestNotFound => "Request not found or already responded to",
            OracleError::RefundExceedsPrepaid => "Refund amount is greater than prepaid amount",
            OracleError::InvalidMsg => "Invalid msg",
        }
    }
}

} // verus!
