//! Elapsed times and the record of one run: the delays measured by the
//! client and reported by the server for the cold and the warm request, and
//! the time taken to restore and to resume the sandbox.

use crate::text::{decimal, push_decimal};
use crate::wire::{server_nanos, ServiceResponse};
use vstd::prelude::*;

verus! {

/// An elapsed time, as a whole number of nanoseconds.
#[derive(Clone, Copy, Debug, PartialEq, Eq, Structural)]
pub struct Delay {
    pub nanos: u128,
}

impl View for Delay {
    type V = nat;

    open spec fn view(&self) -> nat {
        self.nanos as nat
    }
}

impl Delay {
    /// The number of whole microseconds in this delay.
    pub open spec fn micros(self) -> nat {
        self@ / 1000
    }

    /// No time at all.
    pub fn zero() -> (d: Delay)
        ensures
            d@ == 0,
    {
        Delay { nanos: 0 }
    }

    /// The delay of `secs` seconds and `subsec_nanos` nanoseconds.
    pub fn new(secs: u64, subsec_nanos: u32) -> (d: Delay)
        ensures
            d@ == secs * 1_000_000_000 + subsec_nanos,
    {
        let whole: u128 = secs as u128;
        let part: u128 = subsec_nanos as u128;
        Delay { nanos: whole * 1_000_000_000 + part }
    }

    /// The delay of `millis` milliseconds.
    pub fn from_millis(millis: u64) -> (d: Delay)
        ensures
            d@ == millis * 1_000_000,
    {
        let m: u128 = millis as u128;
        Delay { nanos: m * 1_000_000 }
    }

    /// The delay of `micros` microseconds.
    pub fn from_micros(micros: u64) -> (d: Delay)
        ensures
            d@ == micros * 1000,
    {
        let m: u128 = micros as u128;
        Delay { nanos: m * 1000 }
    }

    /// The delay of `nanos` nanoseconds.
    pub fn from_nanos(nanos: u128) -> (d: Delay)
        ensures
            d@ == nanos,
    {
        Delay { nanos }
    }

    /// The number of whole microseconds in this delay.
    pub fn as_micros(&self) -> (us: u128)
        ensures
            us == self.micros(),
    {
        self.nanos / 1000
    }

    /// The number of nanoseconds in this delay.
    pub fn as_nanos(&self) -> (ns: u128)
        ensures
            ns == self@,
    {
        self.nanos
    }

    /// The time from `start` to `self` on one clock; zero where `start` is
    /// the later of the two.
    pub fn since(&self, start: Delay) -> (d: Delay)
        ensures
            d@ == if self@ >= start@ {
                self@ - start@
            } else {
                0
            },
    {
        if self.nanos >= start.nanos {
            Delay { nanos: self.nanos - start.nanos }
        } else {
            Delay { nanos: 0 }
        }
    }

    /// Whether this delay is no time at all.
    pub fn is_zero(&self) -> (b: bool)
        ensures
            b == (self@ == 0),
    {
        self.nanos == 0
    }
}

/// The delays of a single request, cold or warm.
#[derive(Clone, Copy, Debug, PartialEq, Eq, Structural)]
pub struct Delays {
    /// The delay as measured by the client around the call; it includes the
    /// server's.
    pub client: Delay,
    /// The delay as measured by the server and sent back in its response.
    pub server: Delay,
}

impl Delays {
    /// The pair of a client-observed and a server-reported delay.
    pub fn new(client: Delay, server: Delay) -> (d: Delays)
        ensures
            d.client == client,
            d.server == server,
    {
        Delays { client, server }
    }
}

impl From<(Delay, ServiceResponse)> for Delays {
    /// Pairs the delay that the client measured with the one in the server's
    /// response; a response without a duration, or with a negative one,
    /// counts as zero.
    fn from(parts: (Delay, ServiceResponse)) -> (d: Delays) {
        Delays { client: parts.0, server: parts.1.server_delay() }
    }
}

impl vstd::std_specs::convert::FromSpecImpl<(Delay, ServiceResponse)> for Delays {
    open spec fn obeys_from_spec() -> bool {
        true
    }

    open spec fn from_spec(parts: (Delay, ServiceResponse)) -> Delays {
        Delays { client: parts.0, server: Delay { nanos: server_nanos(parts.1) as u128 } }
    }
}

/// The result of one run against one sandbox: a cold and a warm request,
/// and, where the sandbox was restored from a snapshot first, the time that
/// restoring and resuming took.
#[derive(Clone, Copy, Debug, PartialEq, Eq, Structural)]
pub struct Measurement {
    /// From the start of the run to the return of the cold request; where
    /// the sandbox was restored from a snapshot, restoring and resuming it
    /// are included.
    pub global: Delay,
    /// The delay for restoring the sandbox from a snapshot.
    pub restore: Delay,
    /// The delay for resuming the sandbox after it has been restored.
    pub resume: Delay,
    /// The delays of the cold request.
    pub cold: Delays,
    /// The delays of the warm request.
    pub warm: Delays,
}

impl From<(Delay, Delays, Delays)> for Measurement {
    /// The record of a run without a snapshot: restore and resume are zero.
    fn from(parts: (Delay, Delays, Delays)) -> (m: Measurement) {
        Measurement {
            global: parts.0,
            restore: Delay::zero(),
            resume: Delay::zero(),
            cold: parts.1,
            warm: parts.2,
        }
    }
}

impl vstd::std_specs::convert::FromSpecImpl<(Delay, Delays, Delays)> for Measurement {
    open spec fn obeys_from_spec() -> bool {
        true
    }

    open spec fn from_spec(parts: (Delay, Delays, Delays)) -> Measurement {
        Measurement {
            global: parts.0,
            restore: Delay { nanos: 0 },
            resume: Delay { nanos: 0 },
            cold: parts.1,
            warm: parts.2,
        }
    }
}

impl From<(Delay, Delay, Delay, Delays, Delays)> for Measurement {
    /// The record of a run that restored the sandbox from a snapshot.
    fn from(parts: (Delay, Delay, Delay, Delays, Delays)) -> (m: Measurement) {
        Measurement {
            global: parts.0,
            restore: parts.1,
            resume: parts.2,
            cold: parts.3,
            warm: parts.4,
        }
    }
}

impl vstd::std_specs::convert::FromSpecImpl<(Delay, Delay, Delay, Delays, Delays)> for Measurement {
    open spec fn obeys_from_spec() -> bool {
        true
    }

    open spec fn from_spec(parts: (Delay, Delay, Delay, Delays, Delays)) -> Measurement {
        Measurement {
            global: parts.0,
            restore: parts.1,
            resume: parts.2,
            cold: parts.3,
            warm: parts.4,
        }
    }
}

impl Measurement {
    /// The record as text: global, restore, resume, cold client, cold
    /// server, warm client, warm server, each in whole microseconds and
    /// separated by commas.
    pub open spec fn record(self) -> Seq<char> {
        decimal(self.global.micros()) + seq![','] + decimal(self.restore.micros()) + seq![',']
            + decimal(self.resume.micros()) + seq![','] + decimal(self.cold.client.micros())
            + seq![','] + decimal(self.cold.server.micros()) + seq![','] + decimal(
            self.warm.client.micros(),
        ) + seq![','] + decimal(self.warm.server.micros())
    }

    /// The record in which nothing is measured yet: every delay is zero.
    pub open spec fn blank() -> Measurement {
        let none = Delay { nanos: 0 };
        Measurement {
            global: none,
            restore: none,
            resume: none,
            cold: Delays { client: none, server: none },
            warm: Delays { client: none, server: none },
        }
    }

    /// Whether the record is that of a run without a snapshot: restore and
    /// resume are both zero.
    pub open spec fn plain(self) -> bool {
        self.restore@ == 0 && self.resume@ == 0
    }

    /// Appends the record as text to `out`.
    pub fn push_record(&self, out: &mut String)
        ensures
            final(out)@ == old(out)@ + self.record(),
    {
        let ghost start = out@;
        push_decimal(out, self.global.as_micros());
        out.push(',');
        push_decimal(out, self.restore.as_micros());
        out.push(',');
        push_decimal(out, self.resume.as_micros());
        out.push(',');
        push_decimal(out, self.cold.client.as_micros());
        out.push(',');
        push_decimal(out, self.cold.server.as_micros());
        out.push(',');
        push_decimal(out, self.warm.client.as_micros());
        out.push(',');
        push_decimal(out, self.warm.server.as_micros());
        assert(out@ =~= start + self.record());
    }

    /// The record as text.
    pub fn to_string(&self) -> (s: String)
        ensures
            s@ == self.record(),
    {
        let mut s = String::new();
        self.push_record(&mut s);
        assert(Seq::<char>::empty() + self.record() =~= self.record());
        s
    }
}

/// A run built without restore and resume delays has both at zero, and so
/// never one without the other.
pub proof fn lemma_plain_run_has_no_snapshot_delays(global: Delay, cold: Delays, warm: Delays)
    ensures
        <Measurement as vstd::std_specs::convert::FromSpec<(Delay, Delays, Delays)>>::from_spec(
            (global, cold, warm),
        ).plain(),
{
}

} // verus!
