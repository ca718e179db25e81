//! The stored data, the effects operations return, and byte helpers.

use vstd::prelude::*;

use crate::errors::Error;
use crate::CoinDrip;

verus! {

broadcast use vstd::std_specs::hash::group_hash_axioms;

/// An account on the chain, as its 32 address bytes.
pub type Address = [u8; 32];

/// The asset a stream pays out: the native coin or a token named by its identifier.
#[derive(Debug, PartialEq, Eq)]
pub enum PaymentToken {
    Egld,
    Esdt(Vec<u8>),
}

/// On whose behalf a caller acts on a stream.
#[derive(Debug, PartialEq, Eq, Structural)]
pub enum StreamRole {
    Sender,
    Recipient,
}

/// The lifecycle state of a stream, derived from its fields and the current time.
#[derive(Debug, PartialEq, Eq, Structural, Clone, Copy)]
pub enum Status {
    Pending,
    InProgress,
    Canceled,
    Settled,
    Finished,
}

/// The balances frozen when a stream is cancelled; each drains to zero when its side claims.
#[derive(Debug, PartialEq, Eq, Structural, Clone, Copy)]
pub struct BalancesAfterCancel {
    pub sender_balance: u128,
    pub recipient_balance: u128,
}

/// One phase of a release curve.
#[derive(Debug, PartialEq, Eq, Structural, Clone, Copy)]
pub struct Segment {
    pub amount: u128,
    pub exponent: u32,
    pub duration: u64,
}

/// A transfer of tokens received with a call.
#[derive(Debug)]
pub struct EsdtPayment {
    pub token_identifier: Vec<u8>,
    pub token_nonce: u64,
    pub amount: u128,
}

/// A stream: a deposit released to the holder of its certificate over `[start_time, end_time]`.
#[derive(Debug)]
pub struct Stream {
    pub sender: Address,
    pub nft_nonce: u64,
    pub payment_token: PaymentToken,
    pub payment_nonce: u64,
    pub deposit: u128,
    pub claimed_amount: u128,
    pub can_cancel: bool,
    pub start_time: u64,
    pub end_time: u64,
    pub cliff: u64,
    pub segments: Vec<Segment>,
    pub balances_after_cancel: Option<BalancesAfterCancel>,
}

/// A fee, in hundredths of a percent, paid to a broker out of a new stream's deposit.
#[derive(Debug)]
pub struct BrokerFee {
    pub address: Address,
    pub fee: u128,
}

/// The metadata recorded on a stream certificate.
#[derive(Debug, PartialEq, Eq)]
pub struct StreamAttributes {
    pub sender: Address,
    pub payment_token: PaymentToken,
    pub payment_nonce: u64,
    pub deposit: u128,
    pub remaining_balance: u128,
    pub can_cancel: bool,
    pub start_time: u64,
    pub end_time: u64,
    pub cliff: u64,
    pub is_canceled: bool,
}

/// A token and an amount, as the swap aggregator takes its limits.
#[derive(Debug, PartialEq, Eq)]
pub struct TokenAmount {
    pub token: Vec<u8>,
    pub amount: u128,
}

/// One hop of a swap route handed to the aggregator.
#[derive(Debug, PartialEq, Eq)]
pub struct AggregatorStep {
    pub token_in: Vec<u8>,
    pub token_out: Vec<u8>,
    pub amount_in: u128,
    pub pool_address: Address,
    pub function_name: Vec<u8>,
    pub arguments: Vec<Vec<u8>>,
}

/// A segment is well formed when it lasts at least one second.
pub open spec fn segment_wf(s: Segment) -> bool {
    s.duration > 0
}

pub open spec fn sum_amounts(segments: Seq<Segment>) -> nat
    decreases segments.len(),
{
    if segments.len() == 0 {
        0
    } else {
        (segments[0].amount + sum_amounts(segments.drop_first())) as nat
    }
}

pub open spec fn sum_durations(segments: Seq<Segment>) -> nat
    decreases segments.len(),
{
    if segments.len() == 0 {
        0
    } else {
        (segments[0].duration + sum_durations(segments.drop_first())) as nat
    }
}

impl Stream {
    /// The stream's schedule and economics are consistent: the segments tile
    /// `[start_time, end_time]`, their amounts add up to the deposit, the cliff
    /// ends before the stream does, and no more than the deposit was claimed.
    pub open spec fn wf(&self) -> bool {
        &&& self.start_time < self.end_time
        &&& self.start_time + self.cliff < self.end_time
        &&& sum_durations(self.segments@) == self.end_time - self.start_time
        &&& sum_amounts(self.segments@) == self.deposit
        &&& forall|i: int| 0 <= i < self.segments@.len() ==> segment_wf(#[trigger] self.segments@[i])
        &&& self.claimed_amount <= self.deposit
        &&& match self.balances_after_cancel {
            Some(b) => b.sender_balance + b.recipient_balance + self.claimed_amount
                <= self.deposit,
            None => true,
        }
    }
}


impl View for PaymentToken {
    type V = Option<Seq<u8>>;

    /// `None` for the native coin, else the token identifier's bytes.
    open spec fn view(&self) -> Option<Seq<u8>> {
        match self {
            PaymentToken::Egld => None,
            PaymentToken::Esdt(id) => Some(id@),
        }
    }
}

/// A fresh vector holding the same bytes.
pub fn copy_bytes(b: &Vec<u8>) -> (r: Vec<u8>)
    ensures
        r@ == b@,
{
    let mut r: Vec<u8> = Vec::new();
    let mut i: usize = 0;
    while i < b.len()
        invariant
            i <= b.len(),
            r@ == b@.subrange(0, i as int),
        decreases b.len() - i,
    {
        r.push(b[i]);
        i = i + 1;
    }
    assert(r@ =~= b@);
    r
}

/// Whether two byte strings are equal.
pub fn same_bytes(a: &Vec<u8>, b: &Vec<u8>) -> (r: bool)
    ensures
        r == (a@ == b@),
{
    if a.len() != b.len() {
        return false;
    }
    let mut i: usize = 0;
    while i < a.len()
        invariant
            a.len() == b.len(),
            i <= a.len(),
            a@.subrange(0, i as int) == b@.subrange(0, i as int),
        decreases a.len() - i,
    {
        if a[i] != b[i] {
            assert(a@[i as int] != b@[i as int]);
            return false;
        }
        assert(a@.subrange(0, i + 1) =~= a@.subrange(0, i as int).push(a@[i as int]));
        assert(b@.subrange(0, i + 1) =~= b@.subrange(0, i as int).push(b@[i as int]));
        i = i + 1;
    }
    assert(a@ =~= a@.subrange(0, a.len() as int));
    assert(b@ =~= b@.subrange(0, b.len() as int));
    true
}

/// Whether two addresses are equal.
pub fn same_address(a: &Address, b: &Address) -> (r: bool)
    ensures
        r == (a@ == b@),
{
    let mut i: usize = 0;
    while i < 32
        invariant
            i <= 32,
            a@.len() == 32,
            b@.len() == 32,
            a@.subrange(0, i as int) == b@.subrange(0, i as int),
        decreases 32 - i,
    {
        if a[i] != b[i] {
            assert(a@[i as int] != b@[i as int]);
            return false;
        }
        assert(a@.subrange(0, i + 1) =~= a@.subrange(0, i as int).push(a@[i as int]));
        assert(b@.subrange(0, i + 1) =~= b@.subrange(0, i as int).push(b@[i as int]));
        i = i + 1;
    }
    assert(a@ =~= a@.subrange(0, 32));
    assert(b@ =~= b@.subrange(0, 32));
    true
}

impl PaymentToken {
    /// A fresh value naming the same asset.
    pub fn copy(&self) -> (r: PaymentToken)
        ensures
            r@ == self@,
    {
        match self {
            PaymentToken::Egld => PaymentToken::Egld,
            PaymentToken::Esdt(id) => PaymentToken::Esdt(copy_bytes(id)),
        }
    }

    pub fn is_egld(&self) -> (r: bool)
        ensures
            r == (self@ is None),
    {
        match self {
            PaymentToken::Egld => true,
            PaymentToken::Esdt(_) => false,
        }
    }
}


/// A protocol fee rate, in hundredths of a percent, charged on streams of one asset.
#[derive(Debug)]
pub struct ProtocolFee {
    pub token: PaymentToken,
    pub fee: u128,
}

/// An effect on the outside world that an accepted operation asks the host to carry out, in order.
#[derive(Debug, PartialEq, Eq)]
pub enum Action {
    /// Transfer `amount` of an asset to `to`.
    Send { to: Address, token: PaymentToken, nonce: u64, amount: u128 },
    /// Transfer the stream certificate with this nonce to `to`.
    SendStreamNft { to: Address, nonce: u64 },
    /// Destroy the stream certificate with this nonce.
    BurnStreamNft { nonce: u64 },
    /// Record on a certificate how much of its stream is still unclaimed.
    UpdateRemainingBalance { nonce: u64, remaining_balance: u128 },
    /// Create the certificate of a new stream.
    MintStreamNft { nonce: u64, name: Vec<u8>, uri: Vec<u8>, royalties: u64, attributes: StreamAttributes },
    /// Issue the certificate token, paying `issue_cost` of the native coin.
    IssueStreamNftToken { issue_cost: u128, token_name: Vec<u8>, token_ticker: Vec<u8>, num_decimals: u32 },
    /// Wrap `amount` of the native coin into its token form.
    WrapEgld { amount: u128 },
    /// Hand `amount` of a token to the swap aggregator along `steps`, within `limits`,
    /// and forward what comes back to `to`.
    Aggregate {
        to: Address,
        token: PaymentToken,
        nonce: u64,
        amount: u128,
        steps: Vec<AggregatorStep>,
        limits: Vec<TokenAmount>,
    },
}

pub open spec fn is_send(a: Action, to: Address, token: Option<Seq<u8>>, nonce: u64, amount: u128) -> bool {
    match a {
        Action::Send { to: t, token: k, nonce: n, amount: m } => t@ == to@ && k@ == token && n == nonce && m == amount,
        _ => false,
    }
}

pub open spec fn is_send_nft(a: Action, to: Address, nonce: u64) -> bool {
    match a {
        Action::SendStreamNft { to: t, nonce: n } => t@ == to@ && n == nonce,
        _ => false,
    }
}


/// An amount of one asset.
#[derive(Debug)]
pub struct TokenPayment {
    pub token: PaymentToken,
    pub nonce: u64,
    pub amount: u128,
}


/// Reading the stored streams.
pub trait StorageModule {
    /// The stored streams, by id.
    spec fn stored_streams(&self) -> Map<u64, Stream>;

    /// The last stream id handed out.
    spec fn last_assigned_id(&self) -> u64;

    /// The stream with id `stream_id`.
    fn get_stream(&self, stream_id: u64) -> (r: Result<&Stream, Error>)
        ensures
            match r {
                Ok(s) => self.stored_streams().contains_key(stream_id) && *s
                    == self.stored_streams()[stream_id],
                Err(e) => !self.stored_streams().contains_key(stream_id) && e
                    == Error::InvalidStream,
            },
    ;

    /// The last stream id handed out, zero before the first stream.
    fn get_last_stream_id(&self) -> (r: u64)
        ensures
            r == self.last_assigned_id(),
    ;
}

impl StorageModule for CoinDrip {
    open spec fn stored_streams(&self) -> Map<u64, Stream> {
        self.streams@
    }

    open spec fn last_assigned_id(&self) -> u64 {
        self.last_stream_id
    }

    fn get_stream(&self, stream_id: u64) -> (r: Result<&Stream, Error>) {
        match self.streams.get(&stream_id) {
            Some(s) => Ok(s),
            None => Err(Error::InvalidStream),
        }
    }

    fn get_last_stream_id(&self) -> (r: u64) {
        self.last_stream_id
    }
}


impl CoinDrip {
    /// Whether `s` may be stored under its certificate nonce at the current
    /// block time: it is consistent, its id was handed out and is free, and it
    /// has not paid out more than it released.
    pub open spec fn admits(&self, s: Stream) -> bool {
        &&& s.wf()
        &&& s.segments@.len() <= crate::create_stream::MAX_SEGMENTS
        &&& 1 <= s.nft_nonce <= self.last_stream_id
        &&& !self.streams@.contains_key(s.nft_nonce)
        &&& s.claimed_amount <= crate::claim::streamed_amount_at(s, self.block_timestamp as int)
    }

    /// Take in a stream kept elsewhere, after checking that it fits this state;
    /// a stream that does not fit is refused with `InvalidStream`.
    pub fn load_stream(&mut self, stream: Stream) -> (r: Result<(), Error>)
        requires
            old(self).wf(),
        ensures
            final(self).wf(),
            old(self).admits(stream) ==> r is Ok && old(self).same_except_streams(*final(self))
                && final(self).streams@ == old(self).streams@.insert(stream.nft_nonce, stream),
            !old(self).admits(stream) ==> r == Err::<(), Error>(Error::InvalidStream)
                && *final(self) == *old(self),
    {
        if !(stream.start_time < stream.end_time) {
            return Err(Error::InvalidStream);
        }
        if stream.cliff >= stream.end_time - stream.start_time {
            return Err(Error::InvalidStream);
        }
        match crate::create_stream::validate_stream_segments(stream.deposit, &stream.segments) {
            Ok(duration) => {
                if duration != (stream.end_time - stream.start_time) as u128 {
                    return Err(Error::InvalidStream);
                }
            },
            Err(_) => {
                proof {
                    if self.admits(stream) {
                        assert forall|i: int| 0 <= i < stream.segments@.len() implies
                            #[trigger] stream.segments@[i].duration > 0 by {
                            assert(segment_wf(stream.segments@[i]));
                        }
                    }
                }
                return Err(Error::InvalidStream);
            },
        }
        if stream.claimed_amount > stream.deposit {
            return Err(Error::InvalidStream);
        }
        match stream.balances_after_cancel {
            Some(b) => {
                if b.sender_balance > stream.deposit - stream.claimed_amount
                    || b.recipient_balance > stream.deposit - stream.claimed_amount
                    - b.sender_balance {
                    return Err(Error::InvalidStream);
                }
            },
            None => {},
        }
        proof {
            assert forall|i: int| 0 <= i < stream.segments@.len() implies segment_wf(
                #[trigger] stream.segments@[i],
            ) by {
                if !segment_wf(stream.segments@[i]) {
                    assert(stream.segments@[i].duration > 0);
                }
            }
        }
        let id = stream.nft_nonce;
        if id == 0 || id > self.last_stream_id {
            return Err(Error::InvalidStream);
        }
        if self.streams.contains_key(&id) {
            return Err(Error::InvalidStream);
        }
        if stream.claimed_amount > stream.streamed_amount(self.block_timestamp) {
            return Err(Error::InvalidStream);
        }
        let ghost pre = *self;
        self.streams.insert(id, stream);
        proof {
            assert forall|k: u64| #[trigger] self.streams@.contains_key(k) implies {
                let s = self.streams@[k];
                &&& s.wf()
                &&& s.nft_nonce == k
                &&& 1 <= k <= self.last_stream_id
                &&& s.claimed_amount <= crate::claim::streamed_amount_at(s, self.block_timestamp as int)
            } by {
                if k != id {
                    assert(pre.streams@.contains_key(k));
                }
            }
        }
        Ok(())
    }

    /// Raise the last id handed out, as recorded elsewhere.
    pub fn set_last_stream_id(&mut self, last_stream_id: u64)
        requires
            old(self).wf(),
            last_stream_id >= old(self).last_stream_id,
        ensures
            final(self).wf(),
            *final(self) == (CoinDrip { last_stream_id, ..*old(self) }),
    {
        self.last_stream_id = last_stream_id;
    }
}

} // verus!
