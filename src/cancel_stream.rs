//! Cancellation: freezing a stream's balances and settling each side from them.

use vstd::prelude::*;

use crate::claim::{recipient_balance_at, sender_balance_at, streamed_amount_at};
use crate::errors::Error;
use crate::status::{is_warm_status, status_at, StatusModule};
use crate::storage::Status;
use crate::storage::{
    is_send, same_address, Action, Address, BalancesAfterCancel, EsdtPayment, Stream, StreamRole,
};
use crate::CoinDrip;

verus! {

broadcast use vstd::std_specs::hash::group_hash_axioms;

/// The frozen balance of one side.
pub open spec fn half_of(b: BalancesAfterCancel, role: StreamRole) -> u128 {
    match role {
        StreamRole::Sender => b.sender_balance,
        StreamRole::Recipient => b.recipient_balance,
    }
}

/// The frozen balances once one side has been paid.
pub open spec fn zero_half(b: BalancesAfterCancel, role: StreamRole) -> BalancesAfterCancel {
    match role {
        StreamRole::Sender => BalancesAfterCancel { sender_balance: 0, ..b },
        StreamRole::Recipient => BalancesAfterCancel { recipient_balance: 0, ..b },
    }
}

/// The balances frozen when stream `s` is cancelled at `now`.
pub open spec fn snapshot_at(s: Stream, now: int) -> BalancesAfterCancel {
    BalancesAfterCancel {
        sender_balance: sender_balance_at(s, now) as u128,
        recipient_balance: recipient_balance_at(s, now) as u128,
    }
}

/// The streams after one side of cancelled stream `s`, frozen at `b`, was paid:
/// the stream goes once both sides have been.
pub open spec fn streams_after_settle(
    m: Map<u64, Stream>,
    stream_id: u64,
    s: Stream,
    b: BalancesAfterCancel,
    role: StreamRole,
) -> Map<u64, Stream> {
    let nb = zero_half(b, role);
    if nb.sender_balance == 0 && nb.recipient_balance == 0 {
        m.remove(stream_id)
    } else {
        m.insert(stream_id, Stream { balances_after_cancel: Some(nb), ..s })
    }
}

/// The effects of paying one side of cancelled stream `s`: the sender is paid at
/// its address; the certificate holder is paid and the certificate burnt.
pub open spec fn settle_actions(
    actions: Seq<Action>,
    s: Stream,
    b: BalancesAfterCancel,
    role: StreamRole,
    caller: Address,
) -> bool {
    match role {
        StreamRole::Sender => actions.len() == 1 && is_send(
            actions[0],
            s.sender,
            s.payment_token@,
            s.payment_nonce,
            b.sender_balance,
        ),
        StreamRole::Recipient => actions.len() == 2 && is_send(
            actions[0],
            caller,
            s.payment_token@,
            s.payment_nonce,
            b.recipient_balance,
        ) && actions[1] == Action::BurnStreamNft { nonce: s.nft_nonce },
    }
}

impl CoinDrip {
    /// The role in which a caller settles cancelled stream `stream_id`, or why it may not.
    pub open spec fn spec_settle_check(
        &self,
        stream_id: u64,
        caller: Address,
        payments: Seq<EsdtPayment>,
    ) -> Result<StreamRole, Error> {
        match self.spec_require_role(stream_id, caller, payments, None) {
            Err(e) => Err(e),
            Ok(role) => match self.streams@[stream_id].balances_after_cancel {
                None => Err(Error::StreamIsNotCancelled),
                Some(b) => if half_of(b, role) == 0 {
                    Err(Error::ZeroClaim)
                } else {
                    Ok(role)
                },
            },
        }
    }

    /// Why a caller may not cancel stream `stream_id`, if it may not, else its role.
    pub open spec fn spec_cancel_check(
        &self,
        stream_id: u64,
        caller: Address,
        payments: Seq<EsdtPayment>,
    ) -> Result<StreamRole, Error> {
        match self.spec_require_role(stream_id, caller, payments, None) {
            Err(e) => Err(e),
            Ok(role) => {
                let s = self.streams@[stream_id];
                let now = self.block_timestamp as int;
                if !is_warm_status(status_at(s, now)) || !s.can_cancel {
                    Err(Error::CannotCancel)
                } else {
                    Ok(role)
                }
            },
        }
    }

    /// Remove stream `stream_id`, burning its certificate if `with_burn`.
    pub fn remove_stream(&mut self, stream_id: u64, with_burn: bool) -> (actions: Vec<Action>)
        requires
            old(self).wf(),
            old(self).streams@.contains_key(stream_id),
        ensures
            final(self).wf(),
            old(self).same_except_streams(*final(self)),
            final(self).streams@ == old(self).streams@.remove(stream_id),
            with_burn ==> actions@ == seq![Action::BurnStreamNft { nonce: stream_id }],
            !with_burn ==> actions@.len() == 0,
    {
        let mut actions: Vec<Action> = Vec::new();
        if with_burn {
            actions.push(Action::BurnStreamNft { nonce: stream_id });
        }
        self.streams.remove(&stream_id);
        actions
    }

    /// Pay one side of a cancelled stream its frozen balance and zero it.
    fn settle_half(&mut self, stream_id: u64, role: StreamRole, caller: &Address) -> (actions: Vec<
        Action,
    >)
        requires
            old(self).wf(),
            old(self).streams@.contains_key(stream_id),
            old(self).streams@[stream_id].balances_after_cancel is Some,
        ensures
            final(self).wf(),
            old(self).same_except_streams(*final(self)),
            ({
                let s = old(self).streams@[stream_id];
                let b = s.balances_after_cancel.unwrap();
                &&& final(self).streams@ == streams_after_settle(
                    old(self).streams@,
                    stream_id,
                    s,
                    b,
                    role,
                )
                &&& settle_actions(actions@, s, b, role, *caller)
            }),
    {
        let ghost pre = *self;
        let mut stream = self.streams.remove(&stream_id).unwrap();
        let mut balances = stream.balances_after_cancel.unwrap();
        let mut actions: Vec<Action> = Vec::new();
        if role == StreamRole::Sender {
            actions.push(
                Action::Send {
                    to: stream.sender,
                    token: stream.payment_token.copy(),
                    nonce: stream.payment_nonce,
                    amount: balances.sender_balance,
                },
            );
            balances.sender_balance = 0;
        } else {
            actions.push(
                Action::Send {
                    to: *caller,
                    token: stream.payment_token.copy(),
                    nonce: stream.payment_nonce,
                    amount: balances.recipient_balance,
                },
            );
            balances.recipient_balance = 0;
            actions.push(Action::BurnStreamNft { nonce: stream.nft_nonce });
        }
        if !(balances.recipient_balance == 0 && balances.sender_balance == 0) {
            stream.balances_after_cancel = Some(balances);
            self.streams.insert(stream_id, stream);
            proof {
                let s = pre.streams@[stream_id];
                assert(self.streams@ =~= pre.streams@.insert(
                    stream_id,
                    Stream {
                        balances_after_cancel: Some(zero_half(s.balances_after_cancel.unwrap(), role)),
                        ..s
                    },
                ));
            }
        }
        proof {
            assert forall|id: u64| #[trigger] self.streams@.contains_key(id) implies {
                let s = self.streams@[id];
                &&& s.wf()
                &&& s.nft_nonce == id
                &&& 1 <= id <= self.last_stream_id
                &&& s.claimed_amount <= streamed_amount_at(s, self.block_timestamp as int)
            } by {
                if id != stream_id {
                    assert(pre.streams@.contains_key(id));
                }
            }
        }
        actions
    }

    /// After stream `stream_id` was cancelled, pay the calling side its frozen
    /// balance: the sender at its address, or the certificate holder, whose
    /// certificate is then burnt. The stream goes once both sides are paid.
    pub fn claim_from_stream_after_cancel(
        &mut self,
        stream_id: u64,
        caller: &Address,
        payments: &Vec<EsdtPayment>,
    ) -> (r: Result<Vec<Action>, Error>)
        requires
            old(self).wf(),
        ensures
            final(self).wf(),
            match old(self).spec_settle_check(stream_id, *caller, payments@) {
                Err(e) => r == Err::<Vec<Action>, Error>(e) && *final(self) == *old(self),
                Ok(role) => r matches Ok(actions) && {
                    let s = old(self).streams@[stream_id];
                    let b = s.balances_after_cancel.unwrap();
                    &&& old(self).same_except_streams(*final(self))
                    &&& final(self).streams@ == streams_after_settle(
                        old(self).streams@,
                        stream_id,
                        s,
                        b,
                        role,
                    )
                    &&& settle_actions(actions@, s, b, role, *caller)
                },
            },
    {
        let role = match self.require_valid_stream_nft(stream_id, None, caller, payments) {
            Ok(role) => role,
            Err(e) => {
                return Err(e);
            },
        };
        let stream = self.streams.get(&stream_id).unwrap();
        let balances = match stream.balances_after_cancel {
            Some(b) => b,
            None => {
                return Err(Error::StreamIsNotCancelled);
            },
        };
        if role == StreamRole::Sender {
            if balances.sender_balance == 0 {
                return Err(Error::ZeroClaim);
            }
        } else {
            if balances.recipient_balance == 0 {
                return Err(Error::ZeroClaim);
            }
        }
        Ok(self.settle_half(stream_id, role, caller))
    }

    /// The sender or the certificate holder stops a cancelable stream that is
    /// still streaming: the balances at this instant are frozen, and unless
    /// `with_claim` is `Some(false)` the caller's side, if it is owed anything,
    /// is paid at once. A holder who is not paid gets the certificate back.
    pub fn cancel_stream(
        &mut self,
        stream_id: u64,
        with_claim: Option<bool>,
        caller: &Address,
        payments: &Vec<EsdtPayment>,
    ) -> (r: Result<Vec<Action>, Error>)
        requires
            old(self).wf(),
        ensures
            final(self).wf(),
            ({
                match old(self).spec_cancel_check(stream_id, *caller, payments@) {
                    Err(e) => r == Err::<Vec<Action>, Error>(e) && *final(self) == *old(self),
                    Ok(role) => r matches Ok(actions) && {
                        let s = old(self).streams@[stream_id];
                        let b = snapshot_at(s, old(self).block_timestamp as int);
                        let frozen = Stream { balances_after_cancel: Some(b), ..s };
                        let claim = match with_claim {
                            Some(c) => c,
                            None => true,
                        } && half_of(b, role) > 0;
                        &&& b.sender_balance + b.recipient_balance + s.claimed_amount == s.deposit
                        &&& old(self).same_except_streams(*final(self))
                        &&& if claim {
                            &&& final(self).streams@ == streams_after_settle(
                                old(self).streams@,
                                stream_id,
                                frozen,
                                b,
                                role,
                            )
                            &&& settle_actions(actions@, frozen, b, role, *caller)
                        } else {
                            &&& final(self).streams@ == old(self).streams@.insert(stream_id, frozen)
                            &&& role == StreamRole::Recipient ==> actions@ == seq![
                                Action::SendStreamNft { to: *caller, nonce: s.nft_nonce },
                            ]
                            &&& role == StreamRole::Sender ==> actions@.len() == 0
                        }
                    },
                }
            }),
    {
        let ghost pre = *self;
        let role = match self.require_valid_stream_nft(stream_id, None, caller, payments) {
            Ok(role) => role,
            Err(e) => {
                return Err(e);
            },
        };
        let is_warm = match self.is_warm(stream_id) {
            Ok(w) => w,
            Err(e) => {
                return Err(e);
            },
        };
        let now = self.block_timestamp;
        let stream = self.streams.get(&stream_id).unwrap();
        if !is_warm {
            return Err(Error::CannotCancel);
        }
        if !stream.can_cancel {
            return Err(Error::CannotCancel);
        }
        let sender_balance = stream.sender_balance(now);
        let recipient_balance = stream.recipient_balance(now);
        let owed = if role == StreamRole::Sender {
            sender_balance
        } else {
            recipient_balance
        };
        let claim = match with_claim {
            Some(c) => c,
            None => true,
        } && owed > 0;
        let mut stream = self.streams.remove(&stream_id).unwrap();
        stream.balances_after_cancel = Some(BalancesAfterCancel { sender_balance, recipient_balance });
        let nft_nonce = stream.nft_nonce;
        self.streams.insert(stream_id, stream);
        proof {
            let s = pre.streams@[stream_id];
            let frozen = Stream {
                balances_after_cancel: Some(snapshot_at(s, now as int)),
                ..s
            };
            assert(self.streams@ =~= pre.streams@.insert(stream_id, frozen));
            assert forall|id: u64| #[trigger] self.streams@.contains_key(id) implies {
                let s = self.streams@[id];
                &&& s.wf()
                &&& s.nft_nonce == id
                &&& 1 <= id <= self.last_stream_id
                &&& s.claimed_amount <= streamed_amount_at(s, self.block_timestamp as int)
            } by {
                if id != stream_id {
                    assert(pre.streams@.contains_key(id));
                }
            }
        }
        if claim {
            let actions = self.settle_half(stream_id, role, caller);
            proof {
                let s = pre.streams@[stream_id];
                let frozen = Stream {
                    balances_after_cancel: Some(snapshot_at(s, now as int)),
                    ..s
                };
                assert(pre.streams@.insert(stream_id, frozen).remove(stream_id)
                    =~= pre.streams@.remove(stream_id));
                assert(pre.streams@.insert(stream_id, frozen).insert(
                    stream_id,
                    Stream {
                        balances_after_cancel: Some(zero_half(snapshot_at(s, now as int), role)),
                        ..frozen
                    },
                ) =~= pre.streams@.insert(
                    stream_id,
                    Stream {
                        balances_after_cancel: Some(zero_half(snapshot_at(s, now as int), role)),
                        ..frozen
                    },
                ));
            }
            Ok(actions)
        } else {
            let mut actions: Vec<Action> = Vec::new();
            if role == StreamRole::Recipient {
                actions.push(Action::SendStreamNft { to: *caller, nonce: nft_nonce });
            }
            Ok(actions)
        }
    }

    /// The sender gives up the right to cancel stream `stream_id`, for good.
    pub fn renounce_cancel_stream(&mut self, stream_id: u64, caller: &Address) -> (r: Result<
        (),
        Error,
    >)
        requires
            old(self).wf(),
        ensures
            final(self).wf(),
            !old(self).streams@.contains_key(stream_id) ==> r == Err::<(), Error>(
                Error::InvalidStream,
            ),
            old(self).streams@.contains_key(stream_id) ==> {
                let s = old(self).streams@[stream_id];
                if !is_warm_status(status_at(s, old(self).block_timestamp as int)) || !s.can_cancel {
                    r == Err::<(), Error>(Error::CannotCancel)
                } else if caller@ != s.sender@ {
                    r == Err::<(), Error>(Error::CancelOnlySender)
                } else {
                    &&& r is Ok
                    &&& old(self).same_except_streams(*final(self))
                    &&& final(self).streams@ == old(self).streams@.insert(
                        stream_id,
                        Stream { can_cancel: false, ..s },
                    )
                }
            },
            r is Err ==> *final(self) == *old(self),
    {
        let ghost pre = *self;
        let is_warm = match self.is_warm(stream_id) {
            Ok(w) => w,
            Err(e) => {
                return Err(e);
            },
        };
        let stream = match self.streams.get(&stream_id) {
            Some(s) => s,
            None => {
                return Err(Error::InvalidStream);
            },
        };
        if !is_warm {
            return Err(Error::CannotCancel);
        }
        if !stream.can_cancel {
            return Err(Error::CannotCancel);
        }
        if !same_address(caller, &stream.sender) {
            return Err(Error::CancelOnlySender);
        }
        let mut stream = self.streams.remove(&stream_id).unwrap();
        stream.can_cancel = false;
        self.streams.insert(stream_id, stream);
        proof {
            let s = pre.streams@[stream_id];
            assert(self.streams@ =~= pre.streams@.insert(stream_id, Stream { can_cancel: false, ..s }));
            assert forall|id: u64| #[trigger] self.streams@.contains_key(id) implies {
                let s = self.streams@[id];
                &&& s.wf()
                &&& s.nft_nonce == id
                &&& 1 <= id <= self.last_stream_id
                &&& s.claimed_amount <= streamed_amount_at(s, self.block_timestamp as int)
            } by {
                if id != stream_id {
                    assert(pre.streams@.contains_key(id));
                }
            }
        }
        Ok(())
    }
}


/// The balances frozen at cancellation, with what was already claimed, make up
/// the deposit exactly.
pub proof fn lemma_snapshot_conserves(s: Stream, now: int)
    requires
        s.wf(),
        s.claimed_amount <= streamed_amount_at(s, now),
    ensures
        snapshot_at(s, now).sender_balance + snapshot_at(s, now).recipient_balance
            + s.claimed_amount == s.deposit,
{
}

/// Freeze on cancel: once a stream is cancelled its status no longer depends on
/// time, and settling it is refused or accepted alike, with the same payouts and
/// the same remaining record, whatever the block time of the settlement.
pub proof fn lemma_freeze_on_cancel(
    c: CoinDrip,
    stream_id: u64,
    caller: Address,
    payments: Seq<EsdtPayment>,
    t1: u64,
    t2: u64,
)
    requires
        c.streams@.contains_key(stream_id),
        c.streams@[stream_id].balances_after_cancel is Some,
    ensures
        ({
            let c1 = CoinDrip { block_timestamp: t1, ..c };
            let c2 = CoinDrip { block_timestamp: t2, ..c };
            let s = c.streams@[stream_id];
            &&& status_at(s, t1 as int) == Status::Canceled
            &&& status_at(s, t2 as int) == Status::Canceled
            &&& c1.spec_settle_check(stream_id, caller, payments) == c2.spec_settle_check(
                stream_id,
                caller,
                payments,
            )
            &&& c1.spec_claim_check(stream_id, None, caller, payments) == c2.spec_claim_check(
                stream_id,
                None,
                caller,
                payments,
            )
            &&& c1.streams@[stream_id].balances_after_cancel == c2.streams@[stream_id].balances_after_cancel
        }),
{
}

} // verus!
