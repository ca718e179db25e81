//! The release curve, the balances it yields over time, and recipient claims.

use vstd::prelude::*;

use crate::arith::{lemma_pow_base_mono, lemma_pow_positive, pow_nat};
use crate::errors::Error;
use crate::status::{is_warm_status, status_at, StatusModule};
use crate::storage::{
    copy_bytes, is_send, is_send_nft, segment_wf, sum_amounts, sum_durations, Action, Address,
    AggregatorStep, EsdtPayment, PaymentToken, Segment, Status, StorageModule, Stream, StreamRole,
    TokenAmount, TokenPayment,
};
use crate::{streams_consistent, CoinDrip};

verus! {

broadcast use vstd::std_specs::hash::group_hash_axioms;

/// What a segment starting at `segment_start_time` has released at `now`.
pub open spec fn segment_value(segment_start_time: int, segment: Segment, now: int) -> nat {
    if now < segment_start_time {
        0
    } else if now > segment_start_time + segment.duration {
        segment.amount as nat
    } else {
        ((pow_nat((now - segment_start_time) as nat, segment.exponent as nat)
            * segment.amount) as nat) / pow_nat(segment.duration as nat, segment.exponent as nat)
    }
}

/// What the segments, laid end to end from `segment_start_time`, have released
/// at `now`; the walk stops at the first segment with an amount that has released nothing.
pub open spec fn streamed_from(segments: Seq<Segment>, segment_start_time: int, now: int) -> nat
    decreases segments.len(),
{
    if segments.len() == 0 {
        0
    } else {
        let v = segment_value(segment_start_time, segments[0], now);
        if v == 0 && segments[0].amount > 0 {
            0
        } else {
            v + streamed_from(
                segments.drop_first(),
                segment_start_time + segments[0].duration,
                now,
            )
        }
    }
}

/// The amount a stream has released at `now`, before any claim is deducted.
pub open spec fn streamed_amount_at(s: Stream, now: int) -> nat {
    if now < s.start_time {
        0
    } else if now > s.end_time {
        s.deposit as nat
    } else {
        let v = streamed_from(s.segments@, s.start_time as int, now);
        if v <= s.deposit {
            v
        } else {
            s.deposit as nat
        }
    }
}

/// What the certificate holder may claim at `now`.
pub open spec fn recipient_balance_at(s: Stream, now: int) -> int {
    if s.start_time + s.cliff > now {
        0
    } else if now < s.start_time {
        0
    } else if now > s.end_time {
        s.deposit - s.claimed_amount
    } else {
        streamed_amount_at(s, now) - s.claimed_amount
    }
}

/// What would return to the sender if the stream stopped at `now`.
pub open spec fn sender_balance_at(s: Stream, now: int) -> int {
    s.deposit - recipient_balance_at(s, now) - s.claimed_amount
}

/// A segment never releases more than its amount.
pub proof fn lemma_segment_value_bounded(segment_start_time: int, segment: Segment, now: int)
    requires
        segment_wf(segment),
    ensures
        segment_value(segment_start_time, segment, now) <= segment.amount,
{
    if segment_start_time <= now <= segment_start_time + segment.duration {
        let e = (now - segment_start_time) as nat;
        let d = segment.duration as nat;
        let k = segment.exponent as nat;
        let a = segment.amount as nat;
        lemma_pow_base_mono(e, d, k);
        lemma_pow_positive(d, k);
        let pe = pow_nat(e, k);
        let pd = pow_nat(d, k);
        assert((pe * a) / pd <= a) by (nonlinear_arith)
            requires
                pe <= pd,
                pd >= 1,
        {
            assert(pe * a <= pd * a);
            vstd::arithmetic::div_mod::lemma_div_is_ordered((pe * a) as int, (pd * a) as int, pd as int);
            vstd::arithmetic::div_mod::lemma_div_multiples_vanish(a as int, pd as int);
        }
    }
}

/// A segment's release never decreases as time passes.
pub proof fn lemma_segment_value_mono(segment_start_time: int, segment: Segment, t1: int, t2: int)
    requires
        segment_wf(segment),
        t1 <= t2,
    ensures
        segment_value(segment_start_time, segment, t1) <= segment_value(
            segment_start_time,
            segment,
            t2,
        ),
{
    lemma_segment_value_bounded(segment_start_time, segment, t1);
    if segment_start_time <= t1 && t2 <= segment_start_time + segment.duration {
        let k = segment.exponent as nat;
        let a = segment.amount as nat;
        let d = segment.duration as nat;
        let pow_t1 = pow_nat((t1 - segment_start_time) as nat, k);
        let pow_t2 = pow_nat((t2 - segment_start_time) as nat, k);
        let pd = pow_nat(d, k);
        lemma_pow_base_mono((t1 - segment_start_time) as nat, (t2 - segment_start_time) as nat, k);
        lemma_pow_positive(d, k);
        assert(pow_t1 * a <= pow_t2 * a) by (nonlinear_arith)
            requires
                pow_t1 <= pow_t2,
        ;
        vstd::arithmetic::div_mod::lemma_div_is_ordered((pow_t1 * a) as int, (pow_t2 * a) as int, pd as int);
    }
}

/// The segments together never release more than the sum of their amounts.
pub proof fn lemma_streamed_from_bounded(segments: Seq<Segment>, segment_start_time: int, now: int)
    requires
        forall|i: int| 0 <= i < segments.len() ==> segment_wf(#[trigger] segments[i]),
    ensures
        streamed_from(segments, segment_start_time, now) <= sum_amounts(segments),
    decreases segments.len(),
{
    if segments.len() > 0 {
        let rest = segments.drop_first();
        assert forall|i: int| 0 <= i < rest.len() implies segment_wf(#[trigger] rest[i]) by {
            assert(rest[i] == segments[i + 1]);
        }
        assert(segment_wf(segments[0]));
        lemma_segment_value_bounded(segment_start_time, segments[0], now);
        lemma_streamed_from_bounded(rest, segment_start_time + segments[0].duration, now);
    }
}

/// The segments' release never decreases as time passes.
pub proof fn lemma_streamed_from_mono(
    segments: Seq<Segment>,
    segment_start_time: int,
    t1: int,
    t2: int,
)
    requires
        forall|i: int| 0 <= i < segments.len() ==> segment_wf(#[trigger] segments[i]),
        t1 <= t2,
    ensures
        streamed_from(segments, segment_start_time, t1) <= streamed_from(
            segments,
            segment_start_time,
            t2,
        ),
    decreases segments.len(),
{
    if segments.len() > 0 {
        let rest = segments.drop_first();
        assert forall|i: int| 0 <= i < rest.len() implies segment_wf(#[trigger] rest[i]) by {
            assert(rest[i] == segments[i + 1]);
        }
        assert(segment_wf(segments[0]));
        lemma_segment_value_mono(segment_start_time, segments[0], t1, t2);
        lemma_streamed_from_mono(rest, segment_start_time + segments[0].duration, t1, t2);
    }
}

/// Compute what a segment starting at `segment_start_time` has released at `now`:
/// nothing before it starts, its whole amount after it ends, and in between
/// `floor(elapsed^exponent * amount / duration^exponent)`.
pub fn compute_segment_value(segment_start_time: u64, segment: &Segment, now: u64) -> (r: u128)
    requires
        segment_wf(*segment),
    ensures
        r == segment_value(segment_start_time as int, *segment, now as int),
{
    if now < segment_start_time {
        return 0;
    }
    let elapsed = now - segment_start_time;
    if elapsed > segment.duration {
        return segment.amount;
    }
    crate::bignum::scaled_power_ratio(elapsed, segment.duration, segment.exponent, segment.amount)
}


/// Unfolds the segment sums of a suffix by its first segment.
pub proof fn lemma_suffix_unfold(segments: Seq<Segment>, i: int)
    requires
        0 <= i < segments.len(),
    ensures
        segments.subrange(i, segments.len() as int).drop_first() == segments.subrange(
            i + 1,
            segments.len() as int,
        ),
        segments.subrange(i, segments.len() as int)[0] == segments[i],
        sum_durations(segments.subrange(i, segments.len() as int)) == segments[i].duration
            + sum_durations(segments.subrange(i + 1, segments.len() as int)),
        sum_amounts(segments.subrange(i, segments.len() as int)) == segments[i].amount
            + sum_amounts(segments.subrange(i + 1, segments.len() as int)),
{
    assert(segments.subrange(i, segments.len() as int).drop_first() =~= segments.subrange(
        i + 1,
        segments.len() as int,
    ));
}

impl Stream {
    /// The amount released so far at `now`, before claims are deducted: nothing
    /// before the start, the whole deposit after the end, and in
    /// between the segments' releases added in order, capped at the deposit.
    pub fn streamed_amount(&self, now: u64) -> (r: u128)
        requires
            self.wf(),
        ensures
            r == streamed_amount_at(*self, now as int),
            r <= self.deposit,
    {
        if now < self.start_time {
            return 0;
        }
        if now > self.end_time {
            return self.deposit;
        }
        let ghost segs = self.segments@;
        let n = self.segments.len();
        let mut last_segment_end_time: u64 = self.start_time;
        let mut streamed: u128 = 0;
        let mut stop = false;
        let mut i: usize = 0;
        assert(segs.subrange(0, n as int) =~= segs);
        while i < n && !stop
            invariant
                self.wf(),
                segs == self.segments@,
                n == segs.len(),
                i <= n,
                last_segment_end_time + sum_durations(segs.subrange(i as int, n as int))
                    == self.end_time,
                streamed + sum_amounts(segs.subrange(i as int, n as int)) <= self.deposit,
                stop ==> streamed == streamed_from(segs, self.start_time as int, now as int),
                !stop ==> streamed + streamed_from(
                    segs.subrange(i as int, n as int),
                    last_segment_end_time as int,
                    now as int,
                ) == streamed_from(segs, self.start_time as int, now as int),
            decreases n - i + if stop { 0int } else { 1int },
        {
            let segment = &self.segments[i];
            proof {
                lemma_suffix_unfold(segs, i as int);
                assert(segment_wf(segs[i as int]));
                lemma_segment_value_bounded(last_segment_end_time as int, *segment, now as int);
            }
            let value = compute_segment_value(last_segment_end_time, segment, now);
            if value == 0 && segment.amount > 0 {
                stop = true;
            } else {
                streamed = streamed + value;
                last_segment_end_time = last_segment_end_time + segment.duration;
                i = i + 1;
            }
        }
        proof {
            if !stop {
                assert(segs.subrange(n as int, n as int) =~= Seq::<Segment>::empty());
            }
            lemma_streamed_from_bounded(segs, self.start_time as int, now as int);
        }
        if streamed <= self.deposit {
            streamed
        } else {
            self.deposit
        }
    }

    /// What the certificate holder may claim at `now`: nothing before the cliff,
    /// the unclaimed deposit after the end, and in between what was released
    /// less what was claimed.
    pub fn recipient_balance(&self, now: u64) -> (r: u128)
        requires
            self.wf(),
            self.claimed_amount <= streamed_amount_at(*self, now as int),
        ensures
            r == recipient_balance_at(*self, now as int),
            r + self.claimed_amount <= self.deposit,
    {
        if self.start_time + self.cliff > now {
            return 0;
        }
        if now < self.start_time {
            return 0;
        }
        if now > self.end_time {
            return self.deposit - self.claimed_amount;
        }
        let streamed_amount = self.streamed_amount(now);
        streamed_amount - self.claimed_amount
    }

    /// What returns to the sender if the stream stops at `now`: the deposit
    /// less the recipient's balance and what was already claimed.
    pub fn sender_balance(&self, now: u64) -> (r: u128)
        requires
            self.wf(),
            self.claimed_amount <= streamed_amount_at(*self, now as int),
        ensures
            r == sender_balance_at(*self, now as int),
    {
        let recipient_balance = self.recipient_balance(now);
        self.deposit - recipient_balance - self.claimed_amount
    }
}


/// A stream's release never decreases as time passes.
pub proof fn lemma_streamed_amount_mono(s: Stream, t1: int, t2: int)
    requires
        s.wf(),
        t1 <= t2,
    ensures
        streamed_amount_at(s, t1) <= streamed_amount_at(s, t2),
{
    lemma_streamed_from_mono(s.segments@, s.start_time as int, t1, t2);
}


/// Once every segment has ended, the segments have released their whole amounts.
pub proof fn lemma_streamed_from_complete(segments: Seq<Segment>, segment_start_time: int, now: int)
    requires
        forall|i: int| 0 <= i < segments.len() ==> segment_wf(#[trigger] segments[i]),
        now >= segment_start_time + sum_durations(segments),
    ensures
        streamed_from(segments, segment_start_time, now) == sum_amounts(segments),
    decreases segments.len(),
{
    if segments.len() > 0 {
        let rest = segments.drop_first();
        let seg = segments[0];
        assert forall|i: int| 0 <= i < rest.len() implies segment_wf(#[trigger] rest[i]) by {
            assert(rest[i] == segments[i + 1]);
        }
        assert(segment_wf(seg));
        if now <= segment_start_time + seg.duration {
            let pd = pow_nat(seg.duration as nat, seg.exponent as nat);
            lemma_pow_positive(seg.duration as nat, seg.exponent as nat);
            assert(now - segment_start_time == seg.duration);
            vstd::arithmetic::div_mod::lemma_div_multiples_vanish(seg.amount as int, pd as int);
            assert(pd * seg.amount == seg.amount * pd) by (nonlinear_arith);
        }
        assert(segment_value(segment_start_time, seg, now) == seg.amount);
        lemma_streamed_from_complete(rest, segment_start_time + seg.duration, now);
    }
}

/// From the end time on, the recipient may claim all that is still unclaimed.
pub proof fn lemma_recipient_balance_after_end(s: Stream, now: int)
    requires
        s.wf(),
        now >= s.end_time,
    ensures
        streamed_amount_at(s, now) == s.deposit,
        recipient_balance_at(s, now) == s.deposit - s.claimed_amount,
{
    lemma_streamed_from_complete(s.segments@, s.start_time as int, now);
}

impl CoinDrip {
    /// The amount a recipient claim takes from stream `stream_id`, or why it is refused:
    /// `requested` if given, else the whole recipient balance.
    pub open spec fn spec_claim_check(
        &self,
        stream_id: u64,
        requested: Option<u128>,
        caller: Address,
        payments: Seq<EsdtPayment>,
    ) -> Result<u128, Error> {
        match self.spec_require_role(stream_id, caller, payments, Some(StreamRole::Recipient)) {
            Err(e) => Err(e),
            Ok(_) => {
                let s = self.streams@[stream_id];
                let now = self.block_timestamp as int;
                let st = status_at(s, now);
                let balance = recipient_balance_at(s, now);
                if !(is_warm_status(st) || st == Status::Settled) {
                    Err(Error::CannotClaim)
                } else if balance == 0 {
                    Err(Error::ZeroClaim)
                } else {
                    match requested {
                        Some(a) => if a > balance {
                            Err(Error::InvalidClaimAmount)
                        } else {
                            Ok(a)
                        },
                        None => Ok(balance as u128),
                    }
                }
            },
        }
    }

    /// Whether a claim of `amount` drains stream `stream_id` for good: the stream
    /// has ended and nothing would be left unclaimed.
    pub open spec fn spec_claim_drains(&self, stream_id: u64, amount: u128) -> bool {
        let s = self.streams@[stream_id];
        self.block_timestamp >= s.end_time && s.claimed_amount + amount == s.deposit
    }

    /// The state after a claim of `amount` on stream `stream_id` was accepted.
    pub open spec fn spec_after_claim(&self, stream_id: u64, amount: u128, post: CoinDrip) -> bool {
        let s = self.streams@[stream_id];
        &&& self.same_except_streams(post)
        &&& if self.spec_claim_drains(stream_id, amount) {
            post.streams@ == self.streams@.remove(stream_id)
        } else {
            post.streams@ == self.streams@.insert(
                stream_id,
                Stream { claimed_amount: (s.claimed_amount + amount) as u128, ..s },
            )
        }
    }

    /// Take `amount_to_claim_opt`, or else the whole recipient balance, out of the
    /// stream for the certificate holder. A claim that drains an ended stream
    /// removes it and burns its certificate; any other updates the claimed amount,
    /// records the remaining balance on the certificate and hands it back.
    /// Returns what the holder is owed and the certificate operations.
    pub fn claim_from_stream_internal(
        &mut self,
        stream_id: u64,
        amount_to_claim_opt: Option<u128>,
        caller: &Address,
        payments: &Vec<EsdtPayment>,
    ) -> (r: Result<(TokenPayment, Vec<Action>), Error>)
        requires
            old(self).wf(),
        ensures
            final(self).wf(),
            match old(self).spec_claim_check(stream_id, amount_to_claim_opt, *caller, payments@) {
                Err(e) => r == Err::<(TokenPayment, Vec<Action>), Error>(e) && *final(self) == *old(self),
                Ok(amount) => r matches Ok((p, actions)) && {
                    let s = old(self).streams@[stream_id];
                    &&& old(self).spec_after_claim(stream_id, amount, *final(self))
                    &&& p.token@ == s.payment_token@
                    &&& p.nonce == s.payment_nonce
                    &&& p.amount == amount
                    &&& if old(self).spec_claim_drains(stream_id, amount) {
                        actions@ == seq![Action::BurnStreamNft { nonce: s.nft_nonce }]
                    } else {
                        &&& actions@.len() == 2
                        &&& actions@[0] == Action::UpdateRemainingBalance {
                            nonce: s.nft_nonce,
                            remaining_balance: (s.deposit - s.claimed_amount - amount) as u128,
                        }
                        &&& is_send_nft(actions@[1], *caller, s.nft_nonce)
                    }
                },
            },
    {
        let ghost pre = *self;
        match self.require_valid_stream_nft(stream_id, Some(StreamRole::Recipient), caller, payments) {
            Ok(_) => {},
            Err(e) => {
                return Err(e);
            },
        }
        let status = match self.status_of(stream_id) {
            Ok(st) => st,
            Err(e) => {
                return Err(e);
            },
        };
        let is_warm = status == Status::Pending || status == Status::InProgress;
        if !(is_warm || status == Status::Settled) {
            return Err(Error::CannotClaim);
        }
        let now = self.block_timestamp;
        let stream = self.streams.get(&stream_id).unwrap();
        let amount = stream.recipient_balance(now);
        if amount == 0 {
            return Err(Error::ZeroClaim);
        }
        let amount_to_claim = match amount_to_claim_opt {
            Some(a) => a,
            None => amount,
        };
        if amount_to_claim > amount {
            return Err(Error::InvalidClaimAmount);
        }
        proof {
            if now >= stream.end_time {
                lemma_recipient_balance_after_end(*stream, now as int);
            }
        }
        let mut stream = self.streams.remove(&stream_id).unwrap();
        let payment = TokenPayment {
            token: stream.payment_token.copy(),
            nonce: stream.payment_nonce,
            amount: amount_to_claim,
        };
        let nft_nonce = stream.nft_nonce;
        let mut actions: Vec<Action> = Vec::new();
        if now >= stream.end_time && amount_to_claim == stream.deposit - stream.claimed_amount {
            actions.push(Action::BurnStreamNft { nonce: nft_nonce });
        } else {
            stream.claimed_amount = stream.claimed_amount + amount_to_claim;
            let remaining_balance = stream.deposit - stream.claimed_amount;
            self.streams.insert(stream_id, stream);
            actions.push(Action::UpdateRemainingBalance { nonce: nft_nonce, remaining_balance });
            actions.push(Action::SendStreamNft { to: *caller, nonce: nft_nonce });
            proof {
                let s = pre.streams@[stream_id];
                assert(self.streams@ =~= pre.streams@.insert(
                    stream_id,
                    Stream { claimed_amount: (s.claimed_amount + amount_to_claim) as u128, ..s },
                ));
            }
        }
        proof {
            assert forall|id: u64| #[trigger] self.streams@.contains_key(id) implies {
                let s = self.streams@[id];
                &&& s.wf()
                &&& s.nft_nonce == id
                &&& 1 <= id <= self.last_stream_id
                &&& s.claimed_amount <= streamed_amount_at(s, self.block_timestamp as int)
            } by {
                if id != stream_id {
                    assert(pre.streams@.contains_key(id));
                }
            }
        }
        Ok((payment, actions))
    }
}


/// Reading what streams have released and owe.
pub trait ClaimModule: StatusModule {
    /// What stream `stream_id` has released by now, before claims are deducted.
    fn streamed_amount(&self, stream_id: u64) -> (r: Result<u128, Error>)
        requires
            streams_consistent(
                self.stored_streams(),
                self.last_assigned_id(),
                self.current_time() as int,
            ),
        ensures
            match r {
                Ok(v) => self.stored_streams().contains_key(stream_id) && v == streamed_amount_at(
                    self.stored_streams()[stream_id],
                    self.current_time() as int,
                ),
                Err(e) => !self.stored_streams().contains_key(stream_id) && e
                    == Error::InvalidStream,
            },
    ;

    /// What the holder of the certificate of stream `stream_id` may claim now.
    fn recipient_balance(&self, stream_id: u64) -> (r: Result<u128, Error>)
        requires
            streams_consistent(
                self.stored_streams(),
                self.last_assigned_id(),
                self.current_time() as int,
            ),
        ensures
            match r {
                Ok(v) => self.stored_streams().contains_key(stream_id) && v == recipient_balance_at(
                    self.stored_streams()[stream_id],
                    self.current_time() as int,
                ),
                Err(e) => !self.stored_streams().contains_key(stream_id) && e
                    == Error::InvalidStream,
            },
    ;

    /// What would return to the sender of stream `stream_id` if it stopped now.
    fn sender_balance(&self, stream_id: u64) -> (r: Result<u128, Error>)
        requires
            streams_consistent(
                self.stored_streams(),
                self.last_assigned_id(),
                self.current_time() as int,
            ),
        ensures
            match r {
                Ok(v) => self.stored_streams().contains_key(stream_id) && v == sender_balance_at(
                    self.stored_streams()[stream_id],
                    self.current_time() as int,
                ),
                Err(e) => !self.stored_streams().contains_key(stream_id) && e
                    == Error::InvalidStream,
            },
    ;

    /// Whether stream `stream_id` has reached its end time.
    fn is_stream_finalized(&self, stream_id: u64) -> (r: Result<bool, Error>)
        ensures
            match r {
                Ok(v) => self.stored_streams().contains_key(stream_id) && v == (self.current_time()
                    >= self.stored_streams()[stream_id].end_time),
                Err(e) => !self.stored_streams().contains_key(stream_id) && e
                    == Error::InvalidStream,
            },
    ;
}

impl ClaimModule for CoinDrip {
    fn streamed_amount(&self, stream_id: u64) -> (r: Result<u128, Error>) {
        match self.streams.get(&stream_id) {
            Some(stream) => Ok(stream.streamed_amount(self.block_timestamp)),
            None => Err(Error::InvalidStream),
        }
    }

    fn recipient_balance(&self, stream_id: u64) -> (r: Result<u128, Error>) {
        match self.streams.get(&stream_id) {
            Some(stream) => Ok(stream.recipient_balance(self.block_timestamp)),
            None => Err(Error::InvalidStream),
        }
    }

    fn sender_balance(&self, stream_id: u64) -> (r: Result<u128, Error>) {
        match self.streams.get(&stream_id) {
            Some(stream) => Ok(stream.sender_balance(self.block_timestamp)),
            None => Err(Error::InvalidStream),
        }
    }

    fn is_stream_finalized(&self, stream_id: u64) -> (r: Result<bool, Error>) {
        match self.streams.get(&stream_id) {
            Some(stream) => Ok(self.block_timestamp >= stream.end_time),
            None => Err(Error::InvalidStream),
        }
    }
}

impl CoinDrip {
    /// The certificate holder claims the whole recipient balance of stream
    /// `stream_id`, paid to the caller. Once the stream has ended this drains it:
    /// the stream is removed and its certificate burnt.
    pub fn claim_from_stream(
        &mut self,
        stream_id: u64,
        caller: &Address,
        payments: &Vec<EsdtPayment>,
    ) -> (r: Result<Vec<Action>, Error>)
        requires
            old(self).wf(),
        ensures
            final(self).wf(),
            match old(self).spec_claim_check(stream_id, None, *caller, payments@) {
                Err(e) => r == Err::<Vec<Action>, Error>(e) && *final(self) == *old(self),
                Ok(amount) => r matches Ok(actions) && {
                    let s = old(self).streams@[stream_id];
                    &&& amount == recipient_balance_at(s, old(self).block_timestamp as int)
                    &&& old(self).spec_after_claim(stream_id, amount, *final(self))
                    &&& old(self).spec_claim_drains(stream_id, amount) == (old(self).block_timestamp
                        >= s.end_time)
                    &&& is_send(
                        actions@.last(),
                        *caller,
                        s.payment_token@,
                        s.payment_nonce,
                        amount,
                    )
                    &&& if old(self).block_timestamp >= s.end_time {
                        &&& actions@.len() == 2
                        &&& actions@[0] == Action::BurnStreamNft { nonce: s.nft_nonce }
                    } else {
                        &&& actions@.len() == 3
                        &&& actions@[0] == Action::UpdateRemainingBalance {
                            nonce: s.nft_nonce,
                            remaining_balance: (s.deposit - s.claimed_amount - amount) as u128,
                        }
                        &&& is_send_nft(actions@[1], *caller, s.nft_nonce)
                    }
                },
            },
    {
        let ghost pre = *self;
        proof {
            if pre.streams@.contains_key(stream_id) && pre.block_timestamp
                >= pre.streams@[stream_id].end_time {
                lemma_recipient_balance_after_end(
                    pre.streams@[stream_id],
                    pre.block_timestamp as int,
                );
            }
        }
        match self.claim_from_stream_internal(stream_id, None, caller, payments) {
            Err(e) => Err(e),
            Ok((payment, actions)) => {
                let mut actions = actions;
                actions.push(
                    Action::Send {
                        to: *caller,
                        token: payment.token,
                        nonce: payment.nonce,
                        amount: payment.amount,
                    },
                );
                Ok(actions)
            },
        }
    }

    /// The certificate holder claims the amount the first swap step takes in and
    /// has it swapped along `steps`. The actions are the claim's certificate
    /// actions, then, for the native coin, its wrapping, then one aggregation
    /// whose output goes to the caller: the stream is debited before the swap.
    pub fn claim_from_stream_swap(
        &mut self,
        stream_id: u64,
        steps: Vec<AggregatorStep>,
        limits: Vec<TokenAmount>,
        caller: &Address,
        payments: &Vec<EsdtPayment>,
    ) -> (r: Result<Vec<Action>, Error>)
        requires
            old(self).wf(),
        ensures
            final(self).wf(),
            steps@.len() == 0 || limits@.len() == 0 ==> r == Err::<Vec<Action>, Error>(
                Error::InvalidStepsLength,
            ) && *final(self) == *old(self),
            steps@.len() > 0 && limits@.len() > 0 && steps@.len() + 1 != limits@.len() ==> r
                == Err::<Vec<Action>, Error>(Error::InvalidLimitsStepsLength) && *final(self)
                == *old(self),
            steps@.len() > 0 && steps@.len() + 1 == limits@.len() ==> match old(
                self,
            ).spec_claim_check(stream_id, Some(steps@[0].amount_in), *caller, payments@) {
                Err(e) => r == Err::<Vec<Action>, Error>(e) && *final(self) == *old(self),
                Ok(amount) => r matches Ok(actions) && {
                    let s = old(self).streams@[stream_id];
                    &&& amount == steps@[0].amount_in
                    &&& old(self).spec_after_claim(stream_id, amount, *final(self))
                    &&& (if old(self).spec_claim_drains(stream_id, amount) {
                        actions@[0] == Action::BurnStreamNft { nonce: s.nft_nonce }
                    } else {
                        &&& actions@[0] == Action::UpdateRemainingBalance {
                            nonce: s.nft_nonce,
                            remaining_balance: (s.deposit - s.claimed_amount - amount) as u128,
                        }
                        &&& is_send_nft(actions@[1], *caller, s.nft_nonce)
                    })
                    &&& actions@.len() == (if old(self).spec_claim_drains(stream_id, amount) {
                        1int
                    } else {
                        2int
                    }) + (if s.payment_token@ is None {
                        2int
                    } else {
                        1int
                    })
                    &&& (s.payment_token@ is None ==> actions@[actions@.len() - 2]
                        == Action::WrapEgld { amount })
                    &&& (actions@.last() matches Action::Aggregate {
                        to,
                        token,
                        nonce,
                        amount: a,
                        steps: st,
                        limits: li,
                    } && to@ == caller@ && a == amount && st@ == steps@ && li@ == limits@ && (
                    s.payment_token@ is Some ==> token@ == s.payment_token@ && nonce
                        == s.payment_nonce) && (s.payment_token@ is None ==> token@ == Some(
                        old(self).wrap_egld_token@,
                    ) && nonce == 0))
                },
            },
    {
        if steps.len() == 0 {
            return Err(Error::InvalidStepsLength);
        }
        if limits.len() == 0 {
            return Err(Error::InvalidStepsLength);
        }
        if steps.len() != limits.len() - 1 {
            return Err(Error::InvalidLimitsStepsLength);
        }
        let amount = steps[0].amount_in;
        match self.claim_from_stream_internal(stream_id, Some(amount), caller, payments) {
            Err(e) => Err(e),
            Ok((payment, actions)) => {
                let mut actions = actions;
                if payment.token.is_egld() {
                    actions.push(Action::WrapEgld { amount: payment.amount });
                    actions.push(
                        Action::Aggregate {
                            to: *caller,
                            token: PaymentToken::Esdt(copy_bytes(&self.wrap_egld_token)),
                            nonce: 0,
                            amount: payment.amount,
                            steps,
                            limits,
                        },
                    );
                } else {
                    actions.push(
                        Action::Aggregate {
                            to: *caller,
                            token: payment.token,
                            nonce: payment.nonce,
                            amount: payment.amount,
                            steps,
                            limits,
                        },
                    );
                }
                Ok(actions)
            },
        }
    }
}


/// Conservation: for every stream of a consistent contract, at the current block
/// time and at any later one, the deposit splits exactly into what was claimed,
/// what the recipient may claim and what would return to the sender, none of
/// them negative; a cancelled stream's frozen balances and its claims never
/// exceed the deposit.
pub proof fn lemma_conservation(c: CoinDrip, stream_id: u64, t: int)
    requires
        c.wf(),
        c.streams@.contains_key(stream_id),
        t >= c.block_timestamp,
    ensures
        ({
            let s = c.streams@[stream_id];
            &&& s.deposit == s.claimed_amount + recipient_balance_at(s, t) + sender_balance_at(s, t)
            &&& recipient_balance_at(s, t) >= 0
            &&& sender_balance_at(s, t) >= 0
            &&& (s.balances_after_cancel matches Some(b) ==> b.sender_balance + b.recipient_balance
                + s.claimed_amount <= s.deposit)
        }),
{
    let s = c.streams@[stream_id];
    lemma_streamed_amount_mono(s, c.block_timestamp as int, t);
}

/// Monotonicity: with the claimed amount fixed, what the recipient may claim
/// never decreases as time passes.
pub proof fn lemma_recipient_balance_monotone(s: Stream, t1: int, t2: int)
    requires
        s.wf(),
        s.claimed_amount <= streamed_amount_at(s, t1),
        t1 <= t2,
    ensures
        recipient_balance_at(s, t1) <= recipient_balance_at(s, t2),
{
    lemma_streamed_amount_mono(s, t1, t2);
}

/// Cliff gating: before the cliff has passed the recipient may claim nothing,
/// whatever the segments.
pub proof fn lemma_cliff_gating(s: Stream, t: int)
    requires
        t < s.start_time + s.cliff,
    ensures
        recipient_balance_at(s, t) == 0,
{
}

/// A claim by the certificate holder on a stream that is not cancelled, when
/// the recipient balance is zero, is refused with `ZeroClaim`; a refused claim
/// leaves the contract unchanged.
pub proof fn lemma_zero_balance_claim_refused(
    c: CoinDrip,
    stream_id: u64,
    caller: Address,
    payments: Seq<EsdtPayment>,
)
    requires
        c.spec_require_role(stream_id, caller, payments, Some(StreamRole::Recipient)) is Ok,
        c.streams@[stream_id].balances_after_cancel is None,
        recipient_balance_at(c.streams@[stream_id], c.block_timestamp as int) == 0,
    ensures
        c.spec_claim_check(stream_id, None, caller, payments) == Err::<u128, Error>(
            Error::ZeroClaim,
        ),
{
}

} // verus!
