//! Token streaming ("vesting") accounting: a sender locks a deposit for the
//! holder of a stream certificate, released over time along a piecewise curve.
//!
//! The contract state is [`CoinDrip`]. Its operations take the caller, the
//! tokens sent with the call and the block time as plain values, and return the
//! transfers and certificate operations the host must perform.

pub mod arith;
pub mod bignum;
pub mod cancel_stream;
pub mod claim;
pub mod create_stream;
pub mod errors;
pub mod owner;
pub mod status;
pub mod storage;
pub mod stream_nft;
pub mod svg;

use std::collections::HashMap;
use vstd::prelude::*;

use crate::claim::streamed_amount_at;
use crate::storage::{Address, ProtocolFee, Stream};

verus! {

broadcast use vstd::std_specs::hash::group_hash_axioms;

/// Every stream is consistent, is keyed by its certificate nonce, has an id
/// already handed out, and has not paid out more than it released by `now`.
pub open spec fn streams_consistent(streams: Map<u64, Stream>, last_id: u64, now: int) -> bool {
    forall|id: u64| #[trigger]
        streams.contains_key(id) ==> {
            let s = streams[id];
            &&& s.wf()
            &&& s.nft_nonce == id
            &&& 1 <= id <= last_id
            &&& s.claimed_amount <= streamed_amount_at(s, now)
        }
}

/// The streaming contract's whole state.
pub struct CoinDrip {
    /// The account allowed to set protocol fees and issue the certificate token.
    pub owner: Address,
    /// The contract's own account.
    pub sc_address: Address,
    /// The current block time; it never goes back.
    pub block_timestamp: u64,
    /// The live streams, by id.
    pub streams: HashMap<u64, Stream>,
    /// The last id handed out; ids start at one and are never reused.
    pub last_stream_id: u64,
    /// The certificate token's identifier, once issued.
    pub stream_nft_token: Option<Vec<u8>>,
    /// Where certificate URIs point to.
    pub stream_nft_base_uri: Vec<u8>,
    /// The protocol fee rates, at most one per asset.
    pub protocol_fees: Vec<ProtocolFee>,
    /// The contract that wraps the native coin before a swap.
    pub wrap_egld_sc: Address,
    /// The token the native coin is wrapped into.
    pub wrap_egld_token: Vec<u8>,
    /// The swap aggregator's contract.
    pub ash_aggregator_sc: Address,
}

impl CoinDrip {
    /// The streams are consistent at the current block time, and the protocol
    /// fee table has at most one rate per asset, none above the whole deposit.
    pub open spec fn wf(&self) -> bool {
        &&& streams_consistent(self.streams@, self.last_stream_id, self.block_timestamp as int)
        &&& forall|i: int| 0 <= i < self.protocol_fees@.len() ==> #[trigger] self.protocol_fees@[i].fee <= 10000
        &&& forall|i: int, j: int|
            0 <= i < j < self.protocol_fees@.len() ==> #[trigger] self.protocol_fees@[i].token@
                != #[trigger] self.protocol_fees@[j].token@
    }

    /// `post` differs from this state at most in its streams.
    pub open spec fn same_except_streams(&self, post: CoinDrip) -> bool {
        &&& post.owner == self.owner
        &&& post.sc_address == self.sc_address
        &&& post.block_timestamp == self.block_timestamp
        &&& post.last_stream_id == self.last_stream_id
        &&& post.stream_nft_token == self.stream_nft_token
        &&& post.stream_nft_base_uri == self.stream_nft_base_uri
        &&& post.protocol_fees == self.protocol_fees
        &&& post.wrap_egld_sc == self.wrap_egld_sc
        &&& post.wrap_egld_token == self.wrap_egld_token
        &&& post.ash_aggregator_sc == self.ash_aggregator_sc
    }

    /// A contract with no streams, at block time `block_timestamp`.
    pub fn init(
        owner: Address,
        sc_address: Address,
        block_timestamp: u64,
        nft_base_uri: Vec<u8>,
        wrap_egld_sc: Address,
        wrap_egld_token: Vec<u8>,
        ash_aggregator_sc: Address,
    ) -> (r: CoinDrip)
        ensures
            r.wf(),
            r.streams@.is_empty(),
            r.last_stream_id == 0,
            r.block_timestamp == block_timestamp,
            r.owner@ == owner@,
            r.sc_address@ == sc_address@,
            r.stream_nft_token is None,
            r.stream_nft_base_uri@ == nft_base_uri@,
    {
        CoinDrip {
            owner,
            sc_address,
            block_timestamp,
            streams: HashMap::new(),
            last_stream_id: 0,
            stream_nft_token: None,
            stream_nft_base_uri: nft_base_uri,
            protocol_fees: Vec::new(),
            wrap_egld_sc,
            wrap_egld_token,
            ash_aggregator_sc,
        }
    }

    /// Move the block time forward; the streams are untouched.
    pub fn set_block_timestamp(&mut self, timestamp: u64)
        requires
            old(self).wf(),
            timestamp >= old(self).block_timestamp,
        ensures
            final(self).wf(),
            *final(self) == (CoinDrip { block_timestamp: timestamp, ..*old(self) }),
    {
        proof {
            assert forall|id: u64| #[trigger] self.streams@.contains_key(id) implies
                self.streams@[id].claimed_amount <= streamed_amount_at(self.streams@[id], timestamp as int) by {
                crate::claim::lemma_streamed_amount_mono(self.streams@[id], self.block_timestamp as int, timestamp as int);
            }
        }
        self.block_timestamp = timestamp;
    }
}

} // verus!
