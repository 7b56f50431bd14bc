use vstd::prelude::*;

use crate::time::get_unix_epoch_timestamp;

verus! {

/// A payload stamped with the time at which it was wrapped.
pub struct Response<D> {
    pub time_stamp: u128,
    pub data: D,
}

impl<D> Response<D> {
    /// Wraps `data` with the current time.
    pub fn new(data: D) -> (r: Self)
        ensures
            r.data == data,
    {
        Self::with_timestamp(data, get_unix_epoch_timestamp())
    }

    /// Wraps `data` with the time `time_stamp`.
    pub fn with_timestamp(data: D, time_stamp: u128) -> (r: Self)
        ensures
            r.data == data,
            r.time_stamp == time_stamp,
    {
        Response { time_stamp, data }
    }
}

} // verus!
