//! What the benchmark service sends back: a response that may carry the
//! duration that the server measured, as signed seconds and nanoseconds.

use crate::delay::Delay;
use vstd::prelude::*;

verus! {

/// A duration as it travels in a response: a signed count of seconds and a
/// signed count of nanoseconds, to be added up.
#[derive(Clone, Copy, Debug, PartialEq, Eq, Structural)]
pub struct WireDuration {
    pub seconds: i64,
    pub nanos: i32,
}

/// The response of the benchmark service to one call.
#[derive(Clone, Copy, Debug, PartialEq, Eq, Structural)]
pub struct ServiceResponse {
    /// The duration that the server measured, where it sent one.
    pub response_duration: Option<WireDuration>,
}

/// The longest duration that a wire duration converts to, in nanoseconds:
/// `i64::MAX` seconds and 999,999,999 nanoseconds.
pub const WIRE_CAP: i128 = 9_223_372_036_854_775_807_999_999_999;

/// `i64::MIN` seconds, in nanoseconds. A wire duration has to add up to
/// more than this to be converted.
pub const WIRE_FLOOR: i128 = -9_223_372_036_854_775_808_000_000_000;

/// The nanoseconds that a wire duration adds up to.
pub open spec fn wire_nanos(seconds: int, nanos: int) -> int {
    seconds * 1_000_000_000 + nanos
}

/// What a wire duration that adds up to `total` nanoseconds converts to, in
/// nanoseconds: nothing where the total is negative, else the total, capped
/// at `WIRE_CAP`.
pub open spec fn converted(total: int) -> Option<nat> {
    if total < 0 {
        None
    } else if total > WIRE_CAP {
        Some(WIRE_CAP as nat)
    } else {
        Some(total as nat)
    }
}

/// The delay that a response reports, in nanoseconds: zero where it carries
/// no duration, or one that converts to nothing.
pub open spec fn server_nanos(resp: ServiceResponse) -> nat {
    match resp.response_duration {
        None => 0,
        Some(w) => match converted(wire_nanos(w.seconds as int, w.nanos as int)) {
            None => 0,
            Some(nanos) => nanos,
        },
    }
}

/// `std::time::Duration::try_from(prost_types::Duration)`, with the result
/// taken apart into whole seconds and the nanoseconds beyond them. The wire
/// duration is normalised and converted, which fails exactly where it adds
/// up to less than nothing; on success the result is what it adds up to, or
/// the cap where normalising overflowed. A total at or below `WIRE_FLOOR`
/// is left out: there the conversion negates `i64::MIN`.
#[verifier::external_body]
fn std_duration(seconds: i64, nanos: i32) -> (r: Option<(u64, u32)>)
    requires
        wire_nanos(seconds as int, nanos as int) > WIRE_FLOOR,
    ensures
        match r {
            Some((s, n)) => n < 1_000_000_000 && converted(
                wire_nanos(seconds as int, nanos as int),
            ) == Some((s * 1_000_000_000 + n) as nat),
            None => converted(wire_nanos(seconds as int, nanos as int)) is None,
        },
{
    match std::time::Duration::try_from(prost_types::Duration { seconds, nanos }) {
        Ok(d) => Some((d.as_secs(), d.subsec_nanos())),
        Err(_) => None,
    }
}

impl WireDuration {
    /// The delay that this duration stands for; one that adds up to less
    /// than nothing counts as zero.
    pub fn to_delay(&self) -> (d: Delay)
        ensures
            d@ == server_nanos(ServiceResponse { response_duration: Some(*self) }),
    {
        let s: i128 = self.seconds as i128;
        let n: i128 = self.nanos as i128;
        if s * 1_000_000_000 + n <= WIRE_FLOOR {
            return Delay::zero();
        }
        match std_duration(self.seconds, self.nanos) {
            Some((secs, subsec)) => Delay::new(secs, subsec),
            None => Delay::zero(),
        }
    }
}

impl ServiceResponse {
    /// The delay that the server reported; zero where the response carries
    /// no duration or a negative one.
    pub fn server_delay(&self) -> (d: Delay)
        ensures
            d@ == server_nanos(*self),
    {
        match self.response_duration {
            Some(w) => w.to_delay(),
            None => Delay::zero(),
        }
    }
}

} // verus!
