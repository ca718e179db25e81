//! Opening streams: fees, segment validation and certificate minting.

use vstd::prelude::*;

use crate::arith::mul_div_basis_points;
use crate::claim::{lemma_suffix_unfold, streamed_amount_at};
use crate::errors::Error;
use crate::storage::{
    is_send, is_send_nft, same_address, segment_wf, sum_amounts, sum_durations, Action, Address,
    BrokerFee, Segment, Stream, TokenPayment,
};
use crate::stream_nft::{attributes_match, nft_name, nft_uri, NFT_ROYALTIES};
use crate::CoinDrip;

verus! {

broadcast use vstd::std_specs::hash::group_hash_axioms;

/// The largest broker fee, in hundredths of a percent.
pub const MAX_FEE: u128 = 1000;

/// The most segments a stream may have.
pub const MAX_SEGMENTS: usize = 25;

/// The total duration of `segments` if they can carry `deposit`, or why not.
pub open spec fn spec_validate_segments(deposit: u128, segments: Seq<Segment>) -> Result<nat, Error> {
    if segments.len() > MAX_SEGMENTS {
        Err(Error::TooManySegments)
    } else if exists|i: int| 0 <= i < segments.len() && #[trigger] segments[i].duration == 0 {
        Err(Error::InvalidSegmentsDuration)
    } else if sum_amounts(segments) != deposit {
        Err(Error::InvalidSegmentsDeposit)
    } else {
        Ok(sum_durations(segments))
    }
}

/// What a broker takes out of `amount`, or why the broker's fee is refused.
pub open spec fn spec_broker_fee(amount: u128, broker: Option<BrokerFee>) -> Result<u128, Error> {
    match broker {
        None => Ok(0),
        Some(b) => if b.fee == 0 {
            Ok(0)
        } else if b.fee > MAX_FEE {
            Err(Error::BrokerFeeTooBig)
        } else {
            Ok(((amount * b.fee) / 10000) as u128)
        },
    }
}

/// Check that `segments` can carry `deposit`: at most `MAX_SEGMENTS` of them,
/// each lasting at least a second, their amounts adding up to the deposit.
/// Returns their total duration.
pub fn validate_stream_segments(deposit: u128, segments: &Vec<Segment>) -> (r: Result<u128, Error>)
    ensures
        match spec_validate_segments(deposit, segments@) {
            Ok(d) => r matches Ok(v) && v == d,
            Err(e) => r == Err::<u128, Error>(e),
        },
{
    let ghost segs = segments@;
    let n = segments.len();
    if n > MAX_SEGMENTS {
        return Err(Error::TooManySegments);
    }
    let mut i: usize = 0;
    while i < n
        invariant
            n == segs.len(),
            n <= MAX_SEGMENTS,
            segs == segments@,
            i <= n,
            forall|j: int| 0 <= j < i ==> #[trigger] segs[j].duration > 0,
        decreases n - i,
    {
        if segments[i].duration == 0 {
            assert(segs[i as int].duration == 0);
            return Err(Error::InvalidSegmentsDuration);
        }
        i = i + 1;
    }
    let mut total_amount: u128 = 0;
    let mut amount_overflow = false;
    let mut total_duration: u128 = 0;
    let mut i: usize = 0;
    assert(segs.subrange(0, n as int) =~= segs);
    while i < n
        invariant
            n == segs.len(),
            n <= MAX_SEGMENTS,
            segs == segments@,
            i <= n,
            !amount_overflow ==> total_amount + sum_amounts(segs.subrange(i as int, n as int))
                == sum_amounts(segs),
            amount_overflow ==> sum_amounts(segs) > u128::MAX,
            total_duration + sum_durations(segs.subrange(i as int, n as int)) == sum_durations(
                segs,
            ),
            total_duration <= i * 0x1_0000_0000_0000_0000,
        decreases n - i,
    {
        proof {
            lemma_suffix_unfold(segs, i as int);
        }
        if !amount_overflow {
            match total_amount.checked_add(segments[i].amount) {
                Some(t) => {
                    total_amount = t;
                },
                None => {
                    amount_overflow = true;
                },
            }
        }
        total_duration = total_duration + segments[i].duration as u128;
        i = i + 1;
    }
    proof {
        assert(segs.subrange(n as int, n as int) =~= Seq::<Segment>::empty());
    }
    if amount_overflow || total_amount != deposit {
        return Err(Error::InvalidSegmentsDeposit);
    }
    Ok(total_duration)
}

impl CoinDrip {
    /// The deposit left once the protocol fee on `token` is taken from `amount`.
    pub open spec fn after_protocol_fee(&self, token: Option<Seq<u8>>, amount: u128) -> u128 {
        match self.protocol_fee_of(token) {
            Some(rate) => (amount - (amount * rate) / 10000) as u128,
            None => amount,
        }
    }

    /// Why a stream cannot be created, if it cannot, else its net deposit and
    /// total duration.
    pub open spec fn spec_create_check(
        &self,
        caller: Address,
        payment: TokenPayment,
        recipient: Address,
        start_time: u64,
        segments: Seq<Segment>,
        cliff: u64,
        broker: Option<BrokerFee>,
    ) -> Result<(u128, nat), Error> {
        let after_protocol = self.after_protocol_fee(payment.token@, payment.amount);
        if recipient@ == self.sc_address@ {
            Err(Error::StreamToContract)
        } else if recipient@ == caller@ {
            Err(Error::StreamToCaller)
        } else if payment.amount == 0 {
            Err(Error::ZeroDeposit)
        } else if start_time < self.block_timestamp {
            Err(Error::StartTime)
        } else if self.last_stream_id == u64::MAX {
            Err(Error::StreamIdExhausted)
        } else {
            match spec_broker_fee(after_protocol, broker) {
                Err(e) => Err(e),
                Ok(broker_fee) => {
                    let deposit = (after_protocol - broker_fee) as u128;
                    match spec_validate_segments(deposit, segments) {
                        Err(e) => Err(e),
                        Ok(duration) => if start_time + duration > u64::MAX || duration == 0 {
                            Err(Error::EndTime)
                        } else if start_time + cliff >= start_time + duration {
                            Err(Error::CliffTooBig)
                        } else if self.stream_nft_token is None {
                            Err(Error::TokenNotIssued)
                        } else {
                            Ok((deposit, duration))
                        },
                    }
                },
            }
        }
    }

    /// The outcome of creating a stream from state `self`, leading to `post`
    /// with result `r`: a refusal changes nothing; a stream that is created is
    /// stored under the next id, and the actions are, in order, the protocol
    /// fee to the owner (if a rate is set), the broker fee to the broker (if it
    /// is not zero), the certificate's creation and its transfer to the recipient.
    pub open spec fn spec_create_outcome(
        &self,
        post: CoinDrip,
        caller: Address,
        payment: TokenPayment,
        recipient: Address,
        start_time: u64,
        segments: Vec<Segment>,
        cliff_opt: Option<u64>,
        can_cancel_opt: Option<bool>,
        broker_opt: Option<BrokerFee>,
        r: Result<(u64, Vec<Action>), Error>,
    ) -> bool {
        let cliff = match cliff_opt {
            Some(c) => c,
            None => 0,
        };
        let can_cancel = match can_cancel_opt {
            Some(c) => c,
            None => true,
        };
        match self.spec_create_check(
            caller,
            payment,
            recipient,
            start_time,
            segments@,
            cliff,
            broker_opt,
        ) {
            Err(e) => r == Err::<(u64, Vec<Action>), Error>(e) && post == *self,
            Ok((deposit, duration)) => r matches Ok((id, actions)) && {
                let s = Stream {
                    sender: caller,
                    nft_nonce: id,
                    payment_token: payment.token,
                    payment_nonce: payment.nonce,
                    deposit,
                    claimed_amount: 0,
                    can_cancel,
                    start_time,
                    end_time: (start_time + duration) as u64,
                    cliff,
                    segments,
                    balances_after_cancel: None,
                };
                let after_protocol = self.after_protocol_fee(payment.token@, payment.amount);
                let fees: int = (if self.protocol_fee_of(payment.token@) is Some {
                    1int
                } else {
                    0int
                }) + (if broker_opt matches Some(b) && b.fee > 0 {
                    1int
                } else {
                    0int
                });
                &&& id == self.last_stream_id + 1
                &&& post.last_stream_id == id
                &&& !self.streams@.contains_key(id)
                &&& post.streams@ == self.streams@.insert(id, s)
                &&& post == (CoinDrip { streams: post.streams, last_stream_id: id, ..*self })
                &&& actions@.len() == fees + 2
                &&& is_send_nft(actions@[fees + 1], recipient, id)
                &&& (actions@[fees] matches Action::MintStreamNft {
                    nonce,
                    name,
                    uri,
                    royalties,
                    attributes,
                } && nonce == id && name@ == nft_name(id) && uri@ == nft_uri(
                    self.stream_nft_base_uri@,
                    id,
                ) && royalties == NFT_ROYALTIES && attributes_match(attributes, s))
                &&& (self.protocol_fee_of(payment.token@) matches Some(rate) ==> is_send(
                    actions@[0],
                    self.owner,
                    payment.token@,
                    payment.nonce,
                    (payment.amount * rate / 10000) as u128,
                ))
                &&& match broker_opt {
                    Some(b) => b.fee > 0 ==> is_send(
                        actions@[fees - 1],
                        b.address,
                        payment.token@,
                        payment.nonce,
                        (after_protocol * b.fee / 10000) as u128,
                    ),
                    None => true,
                }
            },
        }
    }

    /// The sender (the caller) locks `payment`, less the protocol and broker
    /// fees, in a new stream to `recipient` starting at `start_time`, released
    /// along `segments` after `cliff` (default none), cancelable unless
    /// `can_cancel_opt` says otherwise. The stream gets the next id; its
    /// certificate is minted and sent to the recipient. Returns the id.
    pub fn create_stream(
        &mut self,
        caller: &Address,
        payment: TokenPayment,
        recipient: &Address,
        start_time: u64,
        segments: Vec<Segment>,
        cliff_opt: Option<u64>,
        can_cancel_opt: Option<bool>,
        broker_opt: Option<BrokerFee>,
    ) -> (r: Result<(u64, Vec<Action>), Error>)
        requires
            old(self).wf(),
        ensures
            final(self).wf(),
            old(self).spec_create_outcome(
                *final(self),
                *caller,
                payment,
                *recipient,
                start_time,
                segments,
                cliff_opt,
                can_cancel_opt,
                broker_opt,
                r,
            ),
    {
        let ghost pre = *self;
        if same_address(recipient, &self.sc_address) {
            return Err(Error::StreamToContract);
        }
        if same_address(recipient, caller) {
            return Err(Error::StreamToCaller);
        }
        let token_amount = payment.amount;
        if token_amount == 0 {
            return Err(Error::ZeroDeposit);
        }
        if start_time < self.block_timestamp {
            return Err(Error::StartTime);
        }
        if self.last_stream_id == u64::MAX {
            return Err(Error::StreamIdExhausted);
        }
        let stream_id = self.last_stream_id + 1;
        let can_cancel = match can_cancel_opt {
            Some(c) => c,
            None => true,
        };
        let mut actions: Vec<Action> = Vec::new();
        let mut stream_amount = token_amount;
        match self.protocol_fee(&payment.token) {
            Some(rate) => {
                proof {
                    let i = choose|i: int|
                        0 <= i < self.protocol_fees@.len() && #[trigger] self.protocol_fees@[i].token@
                            == payment.token@;
                    assert(self.protocol_fees@[i].fee <= 10000);
                }
                let protocol_fee = mul_div_basis_points(stream_amount, rate);
                actions.push(
                    Action::Send {
                        to: self.owner,
                        token: payment.token.copy(),
                        nonce: payment.nonce,
                        amount: protocol_fee,
                    },
                );
                stream_amount = stream_amount - protocol_fee;
            },
            None => {},
        }
        match &broker_opt {
            Some(broker) => {
                if broker.fee > 0 {
                    if broker.fee > MAX_FEE {
                        return Err(Error::BrokerFeeTooBig);
                    }
                    let broker_fee = mul_div_basis_points(stream_amount, broker.fee);
                    actions.push(
                        Action::Send {
                            to: broker.address,
                            token: payment.token.copy(),
                            nonce: payment.nonce,
                            amount: broker_fee,
                        },
                    );
                    stream_amount = stream_amount - broker_fee;
                }
            },
            None => {},
        }
        let stream_duration = match validate_stream_segments(stream_amount, &segments) {
            Ok(d) => d,
            Err(e) => {
                return Err(e);
            },
        };
        if stream_duration == 0 || stream_duration > (u64::MAX - start_time) as u128 {
            return Err(Error::EndTime);
        }
        let end_time = start_time + stream_duration as u64;
        let cliff = match cliff_opt {
            Some(c) => c,
            None => 0,
        };
        if cliff >= end_time - start_time {
            return Err(Error::CliffTooBig);
        }
        if self.stream_nft_token.is_none() {
            return Err(Error::TokenNotIssued);
        }
        let stream = Stream {
            sender: *caller,
            nft_nonce: stream_id,
            payment_token: payment.token,
            payment_nonce: payment.nonce,
            deposit: stream_amount,
            claimed_amount: 0,
            can_cancel,
            start_time,
            end_time,
            cliff,
            segments,
            balances_after_cancel: None,
        };
        let mint = match self.mint_stream_nft(&stream) {
            Ok(a) => a,
            Err(e) => {
                return Err(e);
            },
        };
        actions.push(mint);
        proof {
            assert(!pre.streams@.contains_key(stream_id));
            assert(stream.wf()) by {
                assert forall|i: int| 0 <= i < stream.segments@.len() implies segment_wf(
                    #[trigger] stream.segments@[i],
                ) by {
                    if !segment_wf(stream.segments@[i]) {
                        assert(stream.segments@[i].duration > 0);
                    }
                }
            }
        }
        self.streams.insert(stream_id, stream);
        self.last_stream_id = stream_id;
        actions.push(Action::SendStreamNft { to: *recipient, nonce: stream_id });
        proof {
            assert forall|id: u64| #[trigger] self.streams@.contains_key(id) implies {
                let s = self.streams@[id];
                &&& s.wf()
                &&& s.nft_nonce == id
                &&& 1 <= id <= self.last_stream_id
                &&& s.claimed_amount <= streamed_amount_at(s, self.block_timestamp as int)
            } by {
                if id != stream_id {
                    assert(pre.streams@.contains_key(id));
                }
            }
        }
        Ok((stream_id, actions))
    }

    /// Create a stream that starts at the current block time.
    pub fn create_stream_now(
        &mut self,
        caller: &Address,
        payment: TokenPayment,
        recipient: &Address,
        segments: Vec<Segment>,
        cliff_opt: Option<u64>,
        can_cancel_opt: Option<bool>,
        broker_opt: Option<BrokerFee>,
    ) -> (r: Result<(u64, Vec<Action>), Error>)
        requires
            old(self).wf(),
        ensures
            final(self).wf(),
            old(self).spec_create_outcome(
                *final(self),
                *caller,
                payment,
                *recipient,
                old(self).block_timestamp,
                segments,
                cliff_opt,
                can_cancel_opt,
                broker_opt,
                r,
            ),
    {
        let start_time = self.block_timestamp;
        self.create_stream(
            caller,
            payment,
            recipient,
            start_time,
            segments,
            cliff_opt,
            can_cancel_opt,
            broker_opt,
        )
    }
}

} // verus!
