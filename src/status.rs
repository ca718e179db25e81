//! A stream's lifecycle state, derived from its fields and the block time.

use vstd::prelude::*;

use crate::errors::Error;
use crate::storage::{Status, StorageModule, Stream};
use crate::CoinDrip;

verus! {

broadcast use vstd::std_specs::hash::group_hash_axioms;

/// The status of a stored stream at `now`: cancellation overrides the schedule.
pub open spec fn status_at(s: Stream, now: int) -> Status {
    if s.balances_after_cancel is Some {
        Status::Canceled
    } else if now < s.start_time {
        Status::Pending
    } else if now < s.end_time {
        Status::InProgress
    } else {
        Status::Settled
    }
}

pub open spec fn is_warm_status(st: Status) -> bool {
    st == Status::Pending || st == Status::InProgress
}

/// The status of stream `stream_id` among `streams` at `now`: a removed stream
/// whose id was handed out is finished; an id never handed out names no stream.
pub open spec fn status_in(streams: Map<u64, Stream>, last_id: u64, now: int, stream_id: u64) -> Result<
    Status,
    Error,
> {
    if streams.contains_key(stream_id) {
        Ok(status_at(streams[stream_id], now))
    } else if stream_id <= last_id {
        Ok(Status::Finished)
    } else {
        Err(Error::InvalidStream)
    }
}

/// Classifying streams by their lifecycle state, recomputed on demand.
pub trait StatusModule: StorageModule {
    /// The current block time.
    spec fn current_time(&self) -> u64;

    /// The status of stream `stream_id` now.
    fn status_of(&self, stream_id: u64) -> (r: Result<Status, Error>)
        ensures
            r == status_in(
                self.stored_streams(),
                self.last_assigned_id(),
                self.current_time() as int,
                stream_id,
            ),
    ;

    /// Whether stream `stream_id` is still streaming: pending or in progress.
    fn is_warm(&self, stream_id: u64) -> (r: Result<bool, Error>)
        ensures
            match status_in(
                self.stored_streams(),
                self.last_assigned_id(),
                self.current_time() as int,
                stream_id,
            ) {
                Ok(st) => r == Ok::<bool, Error>(is_warm_status(st)),
                Err(e) => r == Err::<bool, Error>(e),
            },
    ;
}

impl CoinDrip {
    pub open spec fn spec_status_of(&self, stream_id: u64) -> Result<Status, Error> {
        status_in(self.streams@, self.last_stream_id, self.block_timestamp as int, stream_id)
    }
}

impl StatusModule for CoinDrip {
    open spec fn current_time(&self) -> u64 {
        self.block_timestamp
    }

    fn status_of(&self, stream_id: u64) -> (r: Result<Status, Error>) {
        match self.streams.get(&stream_id) {
            None => {
                if stream_id <= self.last_stream_id {
                    Ok(Status::Finished)
                } else {
                    Err(Error::InvalidStream)
                }
            },
            Some(stream) => {
                if stream.balances_after_cancel.is_some() {
                    Ok(Status::Canceled)
                } else if self.block_timestamp < stream.start_time {
                    Ok(Status::Pending)
                } else if self.block_timestamp < stream.end_time {
                    Ok(Status::InProgress)
                } else {
                    Ok(Status::Settled)
                }
            },
        }
    }

    fn is_warm(&self, stream_id: u64) -> (r: Result<bool, Error>) {
        match self.status_of(stream_id) {
            Ok(status) => Ok(status == Status::Pending || status == Status::InProgress),
            Err(e) => Err(e),
        }
    }
}

} // verus!
