//! Owner-only settings: protocol fee rates per asset.

use vstd::prelude::*;

use crate::errors::Error;
use crate::storage::{same_address, same_bytes, Address, PaymentToken, ProtocolFee};
use crate::CoinDrip;

verus! {

/// The largest protocol fee rate: the whole deposit, in hundredths of a percent.
pub const MAX_PROTOCOL_FEE: u128 = 10000;

/// Whether two values name the same asset.
pub fn same_token(a: &PaymentToken, b: &PaymentToken) -> (r: bool)
    ensures
        r == (a@ == b@),
{
    match (a, b) {
        (PaymentToken::Egld, PaymentToken::Egld) => true,
        (PaymentToken::Esdt(x), PaymentToken::Esdt(y)) => same_bytes(x, y),
        _ => false,
    }
}

impl CoinDrip {
    /// The protocol fee rate charged on new streams of `token`, if one is set.
    pub open spec fn protocol_fee_of(&self, token: Option<Seq<u8>>) -> Option<u128> {
        if exists|i: int|
            0 <= i < self.protocol_fees@.len() && #[trigger] self.protocol_fees@[i].token@ == token {
            let i = choose|i: int|
                0 <= i < self.protocol_fees@.len() && #[trigger] self.protocol_fees@[i].token@
                    == token;
            Some(self.protocol_fees@[i].fee)
        } else {
            None
        }
    }

    /// The position of `token`'s fee entry, if any.
    fn find_protocol_fee(&self, token: &PaymentToken) -> (r: Option<usize>)
        ensures
            match r {
                Some(i) => i < self.protocol_fees@.len() && self.protocol_fees@[i as int].token@
                    == token@,
                None => forall|i: int|
                    0 <= i < self.protocol_fees@.len() ==> #[trigger] self.protocol_fees@[i].token@
                        != token@,
            },
    {
        let mut i: usize = 0;
        while i < self.protocol_fees.len()
            invariant
                i <= self.protocol_fees@.len(),
                forall|j: int| 0 <= j < i ==> #[trigger] self.protocol_fees@[j].token@ != token@,
            decreases self.protocol_fees@.len() - i,
        {
            if same_token(&self.protocol_fees[i].token, token) {
                return Some(i);
            }
            i = i + 1;
        }
        None
    }

    /// The protocol fee rate charged on new streams of `token`, if one is set.
    pub fn protocol_fee(&self, token: &PaymentToken) -> (r: Option<u128>)
        requires
            self.wf(),
        ensures
            r == self.protocol_fee_of(token@),
    {
        match self.find_protocol_fee(token) {
            Some(i) => Some(self.protocol_fees[i].fee),
            None => None,
        }
    }

    /// The owner sets the protocol fee rate on new streams of `token`, in
    /// hundredths of a percent: more than zero and at most the whole deposit.
    pub fn set_protocol_fee(&mut self, caller: &Address, token: PaymentToken, value: u128) -> (r:
        Result<(), Error>)
        requires
            old(self).wf(),
        ensures
            final(self).wf(),
            caller@ != old(self).owner@ ==> r == Err::<(), Error>(Error::OnlyOwner),
            caller@ == old(self).owner@ && value == 0 ==> r == Err::<(), Error>(
                Error::ProtocolFeeZero,
            ),
            caller@ == old(self).owner@ && value > MAX_PROTOCOL_FEE ==> r == Err::<(), Error>(
                Error::ProtocolFeeTooBig,
            ),
            r is Err ==> *final(self) == *old(self),
            r is Ok ==> {
                &&& caller@ == old(self).owner@ && 0 < value <= MAX_PROTOCOL_FEE
                &&& final(self).protocol_fee_of(token@) == Some(value)
                &&& forall|t: Option<Seq<u8>>|
                    t != token@ ==> #[trigger] final(self).protocol_fee_of(t) == old(
                        self,
                    ).protocol_fee_of(t)
                &&& final(self).streams@ == old(self).streams@
                &&& final(self).block_timestamp == old(self).block_timestamp
                &&& final(self).last_stream_id == old(self).last_stream_id
                &&& final(self).stream_nft_token == old(self).stream_nft_token
            },
    {
        if !same_address(caller, &self.owner) {
            return Err(Error::OnlyOwner);
        }
        if value == 0 {
            return Err(Error::ProtocolFeeZero);
        }
        if value > MAX_PROTOCOL_FEE {
            return Err(Error::ProtocolFeeTooBig);
        }
        let ghost pre = *self;
        match self.find_protocol_fee(&token) {
            Some(i) => {
                self.protocol_fees.set(i, ProtocolFee { token, fee: value });
                proof {
                    let k = token@;
                    assert(self.protocol_fees@[i as int].token@ == k);
                    assert forall|t: Option<Seq<u8>>| t != k implies #[trigger] self.protocol_fee_of(t)
                        == pre.protocol_fee_of(t) by {
                        if exists|j: int|
                            0 <= j < pre.protocol_fees@.len() && #[trigger] pre.protocol_fees@[j].token@
                                == t {
                            let j = choose|j: int|
                                0 <= j < pre.protocol_fees@.len()
                                    && #[trigger] pre.protocol_fees@[j].token@ == t;
                            assert(self.protocol_fees@[j].token@ == t);
                        }
                    }
                }
            },
            None => {
                self.protocol_fees.push(ProtocolFee { token, fee: value });
                proof {
                    let k = self.protocol_fees@[pre.protocol_fees@.len() as int].token@;
                    assert forall|t: Option<Seq<u8>>| t != k implies #[trigger] self.protocol_fee_of(t)
                        == pre.protocol_fee_of(t) by {
                        if exists|j: int|
                            0 <= j < pre.protocol_fees@.len() && #[trigger] pre.protocol_fees@[j].token@
                                == t {
                            let j = choose|j: int|
                                0 <= j < pre.protocol_fees@.len()
                                    && #[trigger] pre.protocol_fees@[j].token@ == t;
                            assert(self.protocol_fees@[j].token@ == t);
                        }
                    }
                }
            },
        }
        Ok(())
    }

    /// The owner stops charging a protocol fee on new streams of `token`.
    pub fn remove_protocol_fee(&mut self, caller: &Address, token: &PaymentToken) -> (r: Result<
        (),
        Error,
    >)
        requires
            old(self).wf(),
        ensures
            final(self).wf(),
            caller@ != old(self).owner@ ==> r == Err::<(), Error>(Error::OnlyOwner) && *final(self)
                == *old(self),
            caller@ == old(self).owner@ ==> {
                &&& r is Ok
                &&& final(self).protocol_fee_of(token@) is None
                &&& forall|t: Option<Seq<u8>>|
                    t != token@ ==> #[trigger] final(self).protocol_fee_of(t) == old(
                        self,
                    ).protocol_fee_of(t)
                &&& final(self).streams@ == old(self).streams@
                &&& final(self).block_timestamp == old(self).block_timestamp
                &&& final(self).last_stream_id == old(self).last_stream_id
                &&& final(self).stream_nft_token == old(self).stream_nft_token
            },
    {
        if !same_address(caller, &self.owner) {
            return Err(Error::OnlyOwner);
        }
        let ghost pre = *self;
        match self.find_protocol_fee(token) {
            Some(i) => {
                self.protocol_fees.remove(i);
                proof {
                    let n = pre.protocol_fees@.len();
                    assert forall|j: int| 0 <= j < n - 1 implies #[trigger] self.protocol_fees@[j]
                        == pre.protocol_fees@[if j < i {
                        j
                    } else {
                        j + 1
                    }] by {}
                    assert forall|t: Option<Seq<u8>>| t != token@ implies #[trigger] self.protocol_fee_of(
                        t,
                    ) == pre.protocol_fee_of(t) by {
                        if exists|j: int|
                            0 <= j < pre.protocol_fees@.len() && #[trigger] pre.protocol_fees@[j].token@
                                == t {
                            let j = choose|j: int|
                                0 <= j < pre.protocol_fees@.len()
                                    && #[trigger] pre.protocol_fees@[j].token@ == t;
                            let jj = if j < i {
                                j
                            } else {
                                j - 1
                            };
                            assert(self.protocol_fees@[jj].token@ == t);
                        }
                        if exists|j: int|
                            0 <= j < self.protocol_fees@.len()
                                && #[trigger] self.protocol_fees@[j].token@ == t {
                            let j = choose|j: int|
                                0 <= j < self.protocol_fees@.len()
                                    && #[trigger] self.protocol_fees@[j].token@ == t;
                            let jj = if j < i {
                                j
                            } else {
                                j + 1
                            };
                            assert(pre.protocol_fees@[jj].token@ == t);
                        }
                    }
                    assert forall|j: int|
                        0 <= j < self.protocol_fees@.len() implies #[trigger] self.protocol_fees@[j].token@
                        != token@ by {
                        let jj = if j < i {
                            j
                        } else {
                            j + 1
                        };
                        assert(pre.protocol_fees@[jj].token@ != token@);
                    }
                }
            },
            None => {},
        }
        Ok(())
    }
}

} // verus!
