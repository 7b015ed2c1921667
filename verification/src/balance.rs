//! The balance ledger: deposits into and withdrawals out of a
//! consumer's escrow pools, and the fungible-token receiver callback.
//!
//! Each operation is specified by a pure transition function on
//! [`OracleView`]; the executable method returns exactly the state
//! and result that function describes. Withdrawals hand back the
//! outbound transfer for the host to perform.

use vstd::pervasive::unreached;
use vstd::prelude::*;

use crate::consumer::{ConsumerView, FtKey};
use crate::errors::OracleError;
use crate::fees::{FtTransfer, FtTransferView, NearTransfer, NearTransferView};
use crate::{opt_str_view, Oracle, OracleView};

verus! {

/// The value of a pool entry, with absence read as zero.
pub open spec fn pool_or_zero<K>(m: Map<K, u128>, k: K) -> u128 {
    if m.dom().contains(k) {
        m[k]
    } else {
        0
    }
}

/// What `deposit_near` does: credits the attached amount to the
/// addressed pool of the addressed consumer (the caller, unless
/// `account_id` says otherwise), or rejects the call and leaves the
/// state unchanged.
pub open spec fn spec_deposit_near(
    o: OracleView,
    caller: Seq<char>,
    attached: u128,
    account_id: Option<Seq<char>>,
    producer_id: Option<Seq<char>>,
) -> (OracleView, Result<(), OracleError>) {
    let target = match account_id {
        Some(a) => a,
        None => caller,
    };
    if !o.consumers.dom().contains(target) {
        (o, Err(OracleError::ConsumerNotRegistered))
    } else {
        let c = o.consumers[target];
        match producer_id {
            Some(pid) => {
                if !o.producers.dom().contains(pid) {
                    (o, Err(OracleError::ProducerDoesNotExist))
                } else {
                    let cur = pool_or_zero(c.near_balance_producer, pid);
                    if cur + attached > u128::MAX {
                        (o, Err(OracleError::Overflow))
                    } else {
                        let c2 = ConsumerView {
                            near_balance_producer: c.near_balance_producer.insert(
                                pid,
                                (cur + attached) as u128,
                            ),
                            ..c
                        };
                        ((OracleView { consumers: o.consumers.insert(target, c2), ..o }), Ok(()))
                    }
                }
            },
            None => {
                if c.near_balance + attached > u128::MAX {
                    (o, Err(OracleError::Overflow))
                } else {
                    let c2 = ConsumerView { near_balance: (c.near_balance + attached) as u128, ..c };
                    ((OracleView { consumers: o.consumers.insert(target, c2), ..o }), Ok(()))
                }
            },
        }
    }
}

/// What `withdraw_near` does: debits the addressed pool of the
/// caller, removing a per-producer entry that reaches zero, and
/// orders a native transfer of the amount back to the caller.
pub open spec fn spec_withdraw_near(
    o: OracleView,
    caller: Seq<char>,
    amount: u128,
    producer_id: Option<Seq<char>>,
) -> (OracleView, Result<NearTransferView, OracleError>) {
    if !o.consumers.dom().contains(caller) {
        (o, Err(OracleError::ConsumerNotRegistered))
    } else {
        let c = o.consumers[caller];
        match producer_id {
            Some(pid) => {
                if !o.producers.dom().contains(pid) {
                    (o, Err(OracleError::ProducerDoesNotExist))
                } else if !c.near_balance_producer.dom().contains(pid) {
                    (o, Err(OracleError::NoBalanceForProducer))
                } else if c.near_balance_producer[pid] < amount {
                    (o, Err(OracleError::NotEnoughBalanceForProducer))
                } else {
                    let left = (c.near_balance_producer[pid] - amount) as u128;
                    let m2 = if left == 0 {
                        c.near_balance_producer.remove(pid)
                    } else {
                        c.near_balance_producer.insert(pid, left)
                    };
                    let c2 = ConsumerView { near_balance_producer: m2, ..c };
                    (
                        (OracleView { consumers: o.consumers.insert(caller, c2), ..o }),
                        Ok(NearTransferView { receiver_id: caller, amount: amount }),
                    )
                }
            },
            None => {
                if c.near_balance < amount {
                    (o, Err(OracleError::NotEnoughBalance))
                } else {
                    let c2 = ConsumerView { near_balance: (c.near_balance - amount) as u128, ..c };
                    (
                        (OracleView { consumers: o.consumers.insert(caller, c2), ..o }),
                        Ok(NearTransferView { receiver_id: caller, amount: amount }),
                    )
                }
            },
        }
    }
}

/// What `withdraw_ft` does: like `spec_withdraw_near` on the
/// fungible-token pools, ordering a token transfer instead. A general
/// pool entry that reaches zero is removed as well.
pub open spec fn spec_withdraw_ft(
    o: OracleView,
    caller: Seq<char>,
    amount: u128,
    producer_id: Option<Seq<char>>,
    ft_id: Seq<char>,
) -> (OracleView, Result<FtTransferView, OracleError>) {
    if !o.consumers.dom().contains(caller) {
        (o, Err(OracleError::ConsumerNotRegistered))
    } else {
        let c = o.consumers[caller];
        let transfer = FtTransferView { token: ft_id, receiver_id: caller, amount: amount };
        match producer_id {
            Some(pid) => {
                if !o.producers.dom().contains(pid) {
                    (o, Err(OracleError::ProducerDoesNotExist))
                } else if !c.ft_balances_producer.dom().contains((pid, ft_id)) {
                    (o, Err(OracleError::NoBalanceForProducer))
                } else if c.ft_balances_producer[(pid, ft_id)] < amount {
                    (o, Err(OracleError::NotEnoughBalanceForProducer))
                } else {
                    let left = (c.ft_balances_producer[(pid, ft_id)] - amount) as u128;
                    let m2 = if left == 0 {
                        c.ft_balances_producer.remove((pid, ft_id))
                    } else {
                        c.ft_balances_producer.insert((pid, ft_id), left)
                    };
                    let c2 = ConsumerView { ft_balances_producer: m2, ..c };
                    ((OracleView { consumers: o.consumers.insert(caller, c2), ..o }), Ok(transfer))
                }
            },
            None => {
                if !c.ft_balances.dom().contains(ft_id) {
                    (o, Err(OracleError::NoBalance))
                } else if c.ft_balances[ft_id] < amount {
                    (o, Err(OracleError::NotEnoughBalance))
                } else {
                    let left = (c.ft_balances[ft_id] - amount) as u128;
                    let m2 = if left == 0 {
                        c.ft_balances.remove(ft_id)
                    } else {
                        c.ft_balances.insert(ft_id, left)
                    };
                    let c2 = ConsumerView { ft_balances: m2, ..c };
                    ((OracleView { consumers: o.consumers.insert(caller, c2), ..o }), Ok(transfer))
                }
            },
        }
    }
}

/// What `deposit_ft` does: credits a received token amount to the
/// pool the parsed transfer message addresses.
pub open spec fn spec_deposit_ft(
    o: OracleView,
    sender: Seq<char>,
    ft_id: Seq<char>,
    amount: u128,
    args: (Option<Seq<char>>, Option<Seq<char>>),
) -> (OracleView, Result<(), OracleError>) {
    let target = match args.0 {
        Some(a) => a,
        None => sender,
    };
    if !o.consumers.dom().contains(target) {
        (o, Err(OracleError::ConsumerNotRegistered))
    } else {
        let c = o.consumers[target];
        match args.1 {
            Some(pid) => {
                if !o.producers.dom().contains(pid) {
                    (o, Err(OracleError::ProducerDoesNotExist))
                } else {
                    let cur = pool_or_zero(c.ft_balances_producer, (pid, ft_id));
                    if cur + amount > u128::MAX {
                        (o, Err(OracleError::Overflow))
                    } else {
                        let c2 = ConsumerView {
                            ft_balances_producer: c.ft_balances_producer.insert(
                                (pid, ft_id),
                                (cur + amount) as u128,
                            ),
                            ..c
                        };
                        ((OracleView { consumers: o.consumers.insert(target, c2), ..o }), Ok(()))
                    }
                }
            },
            None => {
                let cur = pool_or_zero(c.ft_balances, ft_id);
                if cur + amount > u128::MAX {
                    (o, Err(OracleError::Overflow))
                } else {
                    let c2 = ConsumerView {
                        ft_balances: c.ft_balances.insert(ft_id, (cur + amount) as u128),
                        ..c
                    };
                    ((OracleView { consumers: o.consumers.insert(target, c2), ..o }), Ok(()))
                }
            },
        }
    }
}

/// Arguments carried in the `msg` of a fungible-token transfer: an
/// optional beneficiary and an optional producer to earmark for.
#[derive(Debug)]
pub struct FtDepositArgs {
    pub account_id: Option<String>,
    pub producer_id: Option<String>,
}

impl View for FtDepositArgs {
    type V = (Option<Seq<char>>, Option<Seq<char>>);

    open spec fn view(&self) -> (Option<Seq<char>>, Option<Seq<char>>) {
        (opt_str_view(self.account_id), opt_str_view(self.producer_id))
    }
}

/// What `serde_json` parses out of a transfer message: the two
/// optional fields, or nothing when the text is not a JSON object of
/// optional string fields `account_id` and `producer_id`.
pub uninterp spec fn parsed_ft_deposit_msg(msg: Seq<char>) -> Option<
    (Option<Seq<char>>, Option<Seq<char>>),
>;

/// Relies on `serde_json::from_str::<Value>` and `Value::{get, as_str}`:
/// parsing is a function of the message text alone; a message that is
/// not a JSON object with optional (or null) string fields
/// `account_id` and `producer_id` is rejected.
#[verifier::external_body]
fn parse_ft_deposit_msg(msg: &str) -> (r: Option<FtDepositArgs>)
    ensures
        match r {
            Some(args) => parsed_ft_deposit_msg(msg@) == Some(args@),
            None => parsed_ft_deposit_msg(msg@) is None,
        },
{
    let v: serde_json::Value = match serde_json::from_str(msg) { Ok(v) => v, Err(_) => return None };
    if !v.is_object() { return None; }
    let account_id = match v.get("account_id") {
        None | Some(serde_json::Value::Null) => None,
        Some(serde_json::Value::String(s)) => Some(s.clone()),
        Some(_) => return None,
    };
    let producer_id = match v.get("producer_id") {
        None | Some(serde_json::Value::Null) => None,
        Some(serde_json::Value::String(s)) => Some(s.clone()),
        Some(_) => return None,
    };
    Some(FtDepositArgs { account_id, producer_id })
}

/// What `ft_on_transfer` does: parse the message, credit the pool it
/// addresses, and accept the whole transfer (zero returned) on
/// success.
pub open spec fn spec_ft_on_transfer(
    o: OracleView,
    sender: Seq<char>,
    ft_id: Seq<char>,
    amount: u128,
    msg: Seq<char>,
) -> (OracleView, Result<u128, OracleError>) {
    match parsed_ft_deposit_msg(msg) {
        None => (o, Err(OracleError::InvalidMsg)),
        Some(args) => {
            let (o2, r) = spec_deposit_ft(o, sender, ft_id, amount, args);
            match r {
                Ok(_) => (o2, Ok(0u128)),
                Err(e) => (o2, Err(e)),
            }
        },
    }
}

impl Oracle {
    /// Credits the native value attached by `caller` to a consumer's
    /// escrow: to `account_id`'s record if given, else the caller's
    /// own; into the pool earmarked for `producer_id` if given, else
    /// the general pool.
    pub fn deposit_near(
        &mut self,
        caller: String,
        attached: u128,
        account_id: Option<String>,
        producer_id: Option<String>,
    ) -> (r: Result<(), OracleError>)
        requires
            old(self).wf(),
        ensures
            final(self).wf(),
            ({
                let (s2, res) = spec_deposit_near(
                    old(self)@,
                    caller@,
                    attached,
                    opt_str_view(account_id),
                    opt_str_view(producer_id),
                );
                final(self)@ == s2 && r == res
            }),
    {
        let ghost o0 = self@;
        let target = match account_id {
            Some(a) => a,
            None => caller,
        };
        if !self.consumers.contains_key(&target) {
            return Err(OracleError::ConsumerNotRegistered);
        }
        match producer_id {
            Some(pid) => {
                if !self.producers.contains_key(&pid) {
                    return Err(OracleError::ProducerDoesNotExist);
                }
                let cur: u128 = match self.consumers.get(&target) {
                    Some(c) => match c.near_balance_producer.get(&pid) {
                        Some(b) => *b,
                        None => 0,
                    },
                    None => unreached(),
                };
                if cur > u128::MAX - attached {
                    return Err(OracleError::Overflow);
                }
                let mut c = match self.consumers.remove(&target) {
                    Some(c) => c,
                    None => unreached(),
                };
                c.near_balance_producer.insert(pid, cur + attached);
                self.consumers.insert(target, c);
                proof {
                    assert(self@ =~= spec_deposit_near(
                        o0,
                        caller@,
                        attached,
                        opt_str_view(account_id),
                        opt_str_view(producer_id),
                    ).0);
                }
                Ok(())
            },
            None => {
                let cur: u128 = match self.consumers.get(&target) {
                    Some(c) => c.near_balance,
                    None => unreached(),
                };
                if cur > u128::MAX - attached {
                    return Err(OracleError::Overflow);
                }
                let mut c = match self.consumers.remove(&target) {
                    Some(c) => c,
                    None => unreached(),
                };
                c.near_balance = cur + attached;
                self.consumers.insert(target, c);
                proof {
                    assert(self@ =~= spec_deposit_near(
                        o0,
                        caller@,
                        attached,
                        opt_str_view(account_id),
                        opt_str_view(producer_id),
                    ).0);
                }
                Ok(())
            },
        }
    }

    /// The consumer's native balance: the pool earmarked for
    /// `producer_id` if given (zero when absent), else the general
    /// pool.
    pub fn get_deposit_near(&self, account_id: &String, producer_id: Option<String>) -> (r: Result<
        u128,
        OracleError,
    >)
        requires
            self.wf(),
        ensures
            ({
                let c = self@.consumers[account_id@];
                if !self@.consumers.dom().contains(account_id@) {
                    r == Err::<u128, OracleError>(OracleError::ConsumerNotRegistered)
                } else {
                    match opt_str_view(producer_id) {
                        Some(pid) => r == Ok::<u128, OracleError>(
                            pool_or_zero(c.near_balance_producer, pid),
                        ),
                        None => r == Ok::<u128, OracleError>(c.near_balance),
                    }
                }
            }),
    {
        let c = match self.consumers.get(account_id) {
            Some(c) => c,
            None => {
                return Err(OracleError::ConsumerNotRegistered);
            },
        };
        match producer_id {
            Some(pid) => match c.near_balance_producer.get(&pid) {
                Some(b) => Ok(*b),
                None => Ok(0),
            },
            None => Ok(c.near_balance),
        }
    }

    /// The consumer's balance of the token `ft_id`: the pool
    /// earmarked for `producer_id` if given (zero when absent), else
    /// the general pool for that token.
    pub fn get_deposit_ft(
        &self,
        account_id: &String,
        producer_id: Option<String>,
        ft_id: String,
    ) -> (r: Result<u128, OracleError>)
        requires
            self.wf(),
        ensures
            ({
                let c = self@.consumers[account_id@];
                if !self@.consumers.dom().contains(account_id@) {
                    r == Err::<u128, OracleError>(OracleError::ConsumerNotRegistered)
                } else {
                    match opt_str_view(producer_id) {
                        Some(pid) => r == Ok::<u128, OracleError>(
                            pool_or_zero(c.ft_balances_producer, (pid, ft_id@)),
                        ),
                        None => r == Ok::<u128, OracleError>(pool_or_zero(c.ft_balances, ft_id@)),
                    }
                }
            }),
    {
        let c = match self.consumers.get(account_id) {
            Some(c) => c,
            None => {
                return Err(OracleError::ConsumerNotRegistered);
            },
        };
        match producer_id {
            Some(pid) => {
                let key = FtKey { producer_id: pid, ft_id: ft_id };
                match c.ft_balances_producer.get(&key) {
                    Some(b) => Ok(*b),
                    None => Ok(0),
                }
            },
            None => match c.ft_balances.get(&ft_id) {
                Some(b) => Ok(*b),
                None => Ok(0),
            },
        }
    }

    /// Debits `amount` from the caller's addressed native pool and
    /// returns the transfer the host must perform. A per-producer
    /// pool that reaches zero is removed.
    pub fn withdraw_near(
        &mut self,
        caller: String,
        amount: u128,
        producer_id: Option<String>,
    ) -> (r: Result<NearTransfer, OracleError>)
        requires
            old(self).wf(),
        ensures
            final(self).wf(),
            ({
                let (s2, res) = spec_withdraw_near(
                    old(self)@,
                    caller@,
                    amount,
                    opt_str_view(producer_id),
                );
                &&& final(self)@ == s2
                &&& match (r, res) {
                    (Ok(t), Ok(tv)) => t@ == tv,
                    (Err(e), Err(ev)) => e == ev,
                    _ => false,
                }
            }),
    {
        let ghost o0 = self@;
        if !self.consumers.contains_key(&caller) {
            return Err(OracleError::ConsumerNotRegistered);
        }
        match producer_id {
            Some(pid) => {
                if !self.producers.contains_key(&pid) {
                    return Err(OracleError::ProducerDoesNotExist);
                }
                let cur: u128 = match self.consumers.get(&caller) {
                    Some(c) => match c.near_balance_producer.get(&pid) {
                        Some(b) => *b,
                        None => {
                            return Err(OracleError::NoBalanceForProducer);
                        },
                    },
                    None => unreached(),
                };
                if cur < amount {
                    return Err(OracleError::NotEnoughBalanceForProducer);
                }
                let mut c = match self.consumers.remove(&caller) {
                    Some(c) => c,
                    None => unreached(),
                };
                let left = cur - amount;
                if left == 0 {
                    let _ = c.near_balance_producer.remove(&pid);
                } else {
                    c.near_balance_producer.insert(pid, left);
                }
                self.consumers.insert(caller.clone(), c);
                proof {
                    assert(self@ =~= spec_withdraw_near(
                        o0,
                        caller@,
                        amount,
                        opt_str_view(producer_id),
                    ).0);
                }
                Ok(NearTransfer { receiver_id: caller, amount })
            },
            None => {
                let cur: u128 = match self.consumers.get(&caller) {
                    Some(c) => c.near_balance,
                    None => unreached(),
                };
                if cur < amount {
                    return Err(OracleError::NotEnoughBalance);
                }
                let mut c = match self.consumers.remove(&caller) {
                    Some(c) => c,
                    None => unreached(),
                };
                c.near_balance = cur - amount;
                self.consumers.insert(caller.clone(), c);
                proof {
                    assert(self@ =~= spec_withdraw_near(
                        o0,
                        caller@,
                        amount,
                        opt_str_view(producer_id),
                    ).0);
                }
                Ok(NearTransfer { receiver_id: caller, amount })
            },
        }
    }

    /// Debits `amount` of the token `ft_id` from the caller's
    /// addressed pool and returns the token transfer the host must
    /// perform through the token contract. A pool entry that reaches
    /// zero is removed.
    pub fn withdraw_ft(
        &mut self,
        caller: String,
        amount: u128,
        producer_id: Option<String>,
        ft_id: String,
    ) -> (r: Result<FtTransfer, OracleError>)
        requires
            old(self).wf(),
        ensures
            final(self).wf(),
            ({
                let (s2, res) = spec_withdraw_ft(
                    old(self)@,
                    caller@,
                    amount,
                    opt_str_view(producer_id),
                    ft_id@,
                );
                &&& final(self)@ == s2
                &&& match (r, res) {
                    (Ok(t), Ok(tv)) => t@ == tv,
                    (Err(e), Err(ev)) => e == ev,
                    _ => false,
                }
            }),
    {
        let ghost o0 = self@;
        if !self.consumers.contains_key(&caller) {
            return Err(OracleError::ConsumerNotRegistered);
        }
        match producer_id {
            Some(pid) => {
                if !self.producers.contains_key(&pid) {
                    return Err(OracleError::ProducerDoesNotExist);
                }
                let key = FtKey { producer_id: pid, ft_id: ft_id };
                let cur: u128 = match self.consumers.get(&caller) {
                    Some(c) => match c.ft_balances_producer.get(&key) {
                        Some(b) => *b,
                        None => {
                            return Err(OracleError::NoBalanceForProducer);
                        },
                    },
                    None => unreached(),
                };
                if cur < amount {
                    return Err(OracleError::NotEnoughBalanceForProducer);
                }
                let mut c = match self.consumers.remove(&caller) {
                    Some(c) => c,
                    None => unreached(),
                };
                let left = cur - amount;
                if left == 0 {
                    let _ = c.ft_balances_producer.remove(&key);
                } else {
                    let token = key.ft_id.clone();
                    c.ft_balances_producer.insert(key, left);
                    self.consumers.insert(caller.clone(), c);
                    proof {
                        assert(self@ =~= spec_withdraw_ft(
                            o0,
                            caller@,
                            amount,
                            opt_str_view(producer_id),
                            token@,
                        ).0);
                    }
                    return Ok(FtTransfer { token, receiver_id: caller, amount });
                }
                let token = key.ft_id;
                self.consumers.insert(caller.clone(), c);
                proof {
                    assert(self@ =~= spec_withdraw_ft(
                        o0,
                        caller@,
                        amount,
                        opt_str_view(producer_id),
                        token@,
                    ).0);
                }
                Ok(FtTransfer { token, receiver_id: caller, amount })
            },
            None => {
                let cur: u128 = match self.consumers.get(&caller) {
                    Some(c) => match c.ft_balances.get(&ft_id) {
                        Some(b) => *b,
                        None => {
                            return Err(OracleError::NoBalance);
                        },
                    },
                    None => unreached(),
                };
                if cur < amount {
                    return Err(OracleError::NotEnoughBalance);
                }
                let mut c = match self.consumers.remove(&caller) {
                    Some(c) => c,
                    None => unreached(),
                };
                let left = cur - amount;
                if left == 0 {
                    let _ = c.ft_balances.remove(&ft_id);
                } else {
                    c.ft_balances.insert(ft_id.clone(), left);
                }
                self.consumers.insert(caller.clone(), c);
                proof {
                    assert(self@ =~= spec_withdraw_ft(
                        o0,
                        caller@,
                        amount,
                        opt_str_view(producer_id),
                        ft_id@,
                    ).0);
                }
                Ok(FtTransfer { token: ft_id, receiver_id: caller, amount })
            },
        }
    }

    /// Credits a fungible-token deposit that already arrived in the
    /// contract's account, to the pool the parsed arguments address.
    /// The beneficiary defaults to the token's sender.
    pub fn deposit_ft(
        &mut self,
        sender_id: String,
        ft_id: String,
        amount: u128,
        args: FtDepositArgs,
    ) -> (r: Result<(), OracleError>)
        requires
            old(self).wf(),
        ensures
            final(self).wf(),
            ({
                let (s2, res) = spec_deposit_ft(old(self)@, sender_id@, ft_id@, amount, args@);
                final(self)@ == s2 && r == res
            }),
    {
        let ghost o0 = self@;
        let target = match args.account_id {
            Some(a) => a,
            None => sender_id,
        };
        if !self.consumers.contains_key(&target) {
            return Err(OracleError::ConsumerNotRegistered);
        }
        match args.producer_id {
            Some(pid) => {
                if !self.producers.contains_key(&pid) {
                    return Err(OracleError::ProducerDoesNotExist);
                }
                let key = FtKey { producer_id: pid, ft_id: ft_id };
                let cur: u128 = match self.consumers.get(&target) {
                    Some(c) => match c.ft_balances_producer.get(&key) {
                        Some(b) => *b,
                        None => 0,
                    },
                    None => unreached(),
                };
                if cur > u128::MAX - amount {
                    return Err(OracleError::Overflow);
                }
                let mut c = match self.consumers.remove(&target) {
                    Some(c) => c,
                    None => unreached(),
                };
                c.ft_balances_producer.insert(key, cur + amount);
                self.consumers.insert(target, c);
                proof {
                    assert(self@ =~= spec_deposit_ft(o0, sender_id@, ft_id@, amount, args@).0);
                }
                Ok(())
            },
            None => {
                let cur: u128 = match self.consumers.get(&target) {
                    Some(c) => match c.ft_balances.get(&ft_id) {
                        Some(b) => *b,
                        None => 0,
                    },
                    None => unreached(),
                };
                if cur > u128::MAX - amount {
                    return Err(OracleError::Overflow);
                }
                let mut c = match self.consumers.remove(&target) {
                    Some(c) => c,
                    None => unreached(),
                };
                c.ft_balances.insert(ft_id, cur + amount);
                self.consumers.insert(target, c);
                proof {
                    assert(self@ =~= spec_deposit_ft(o0, sender_id@, ft_id@, amount, args@).0);
                }
                Ok(())
            },
        }
    }

    /// The token-receiver callback: `ft_id` is the token contract
    /// that called in, `msg` names the pool to credit. Returns the
    /// amount handed back to the sender, which is always zero — the
    /// whole transfer is accepted. A failure aborts the transfer.
    pub fn ft_on_transfer(
        &mut self,
        sender_id: String,
        amount: u128,
        msg: String,
        ft_id: String,
    ) -> (r: Result<u128, OracleError>)
        requires
            old(self).wf(),
        ensures
            final(self).wf(),
            ({
                let (s2, res) = spec_ft_on_transfer(old(self)@, sender_id@, ft_id@, amount, msg@);
                final(self)@ == s2 && r == res
            }),
    {
        let args = match parse_ft_deposit_msg(msg.as_str()) {
            Some(args) => args,
            None => {
                return Err(OracleError::InvalidMsg);
            },
        };
        match self.deposit_ft(sender_id, ft_id, amount, args) {
            Ok(_) => Ok(0),
            Err(e) => Err(e),
        }
    }
}

} // verus!
