//! Messages of streaming connections to a domain.
use vstd::prelude::*;

use crate::ids::ClientSocketId;
use crate::instance::{PlayId, RenderId};
use crate::time::{now, Timestamp};

verus! {

#[derive(Clone, Debug)]
pub enum SessionPacketError {
    Playing(PlayId, String),
    Rendering(RenderId, String),
    General(String),
}

/// Difference stamped in milliseconds since a common epoch, in order to pack
/// most efficiently.
#[derive(Clone, Debug, PartialEq)]
pub struct DiffStamped<T>(usize, T);

impl<T> DiffStamped<T> {
    /// The stamp: milliseconds between the epoch and the stamped time.
    pub closed spec fn diff(self) -> usize {
        self.0
    }

    /// The stamped value.
    pub closed spec fn stamped(self) -> T {
        self.1
    }

    /// The value stamped with the whole milliseconds (rounded toward zero)
    /// from `timestamp` to `at`; a negative count wraps around as `as usize`
    /// does.
    pub fn at(at: Timestamp, timestamp: Timestamp, value: T) -> (d: Self)
        ensures
            d.diff() == (crate::time::div_toward_zero(at@ - timestamp@, 1_000_000) as i64) as usize,
            d.stamped() == value,
    {
        let diff = at.since(timestamp);
        DiffStamped(diff.num_milliseconds() as usize, value)
    }

    /// The value stamped with the milliseconds from `timestamp` to the current
    /// time, as read once from the clock: the reading is some representable
    /// instant `t`, and the stamp is as for `at(t, timestamp, value)`.
    pub fn new(timestamp: Timestamp, value: T) -> (d: Self)
        ensures
            exists|t: Timestamp|
                d.diff() == (crate::time::div_toward_zero(#[trigger] t@ - timestamp@, 1_000_000)
                    as i64) as usize,
            d.stamped() == value,
    {
        let t = now();
        let d = Self::at(t, timestamp, value);
        assert(d.diff() == (crate::time::div_toward_zero(t@ - timestamp@, 1_000_000) as i64) as usize);
        d
    }

    pub fn value(&self) -> (v: &T)
        ensures
            *v == self.stamped(),
    {
        &self.1
    }

    pub fn value_mut(&mut self) -> (v: &mut T)
        ensures
            *v == old(self).stamped(),
            final(self).stamped() == *final(v),
            final(self).diff() == old(self).diff(),
    {
        &mut self.1
    }
}

/// Confirmation that the socket has been created normally from the domain
/// client offer
#[derive(Clone, Debug)]
pub enum PeerConnectionCreated {
    /// Connection created normally
    Created {
        /// Created socket id
        socket_id: ClientSocketId,
        /// The domain server's WebRTC offer
        remote_description: String,
    },
}

} // verus!
