//! The verified half of the concurrent poller.
//!
//! Device polls run as one independent unit of work per device, fanned out at
//! the start of a tick; the wire exchange itself happens outside the crate.
//! What is verified here is the contract the round depends on: the fan-in
//! collects exactly one outcome per input device before the round proceeds
//! ([`RoundCollector`]), and the timing model under which one device's
//! timeout cannot stretch another device's observed latency
//! ([`lemma_timeout_isolation`]).

use vstd::prelude::*;

verus! {

/// One raw field value as the round logic sees it: a numeric reading already
/// truncated to an integer, or a value that was present in the device's
/// response but not numerically interpretable.
#[derive(Clone, Copy, PartialEq, Eq, Structural, Debug)]
pub enum FieldValue {
    Numeric(i64),
    Unparseable,
}

/// Why one device produced no reading this round.  Every variant is
/// round-local: it is logged and the device's slot stays empty for the tick,
/// and it never aborts the round or touches another device's slot.
#[derive(Clone, Copy, PartialEq, Eq, Structural, Debug)]
pub enum PollError {
    /// The device did not answer within its per-device deadline.
    Timeout,
    /// The connection to the device could not be established or broke.
    Connection,
    /// The device answered, but not with a well-formed reading.
    Protocol,
    /// The unit of work polling the device crashed before producing a result.
    TaskFailed,
}

/// One device's raw poll result for one tick: an ordered list of
/// field-name/value pairs.  Lookups return the first pair with the asked-for
/// name.
#[derive(Clone, Debug)]
pub struct Reading {
    pub fields: Vec<(String, FieldValue)>,
}

impl View for Reading {
    type V = Seq<(Seq<char>, FieldValue)>;

    open spec fn view(&self) -> Seq<(Seq<char>, FieldValue)> {
        self.fields@.map_values(|p: (String, FieldValue)| (p.0@, p.1))
    }
}

/// First value recorded under `name`, if any.
pub open spec fn lookup_spec(fields: Seq<(Seq<char>, FieldValue)>, name: Seq<char>) -> Option<
    FieldValue,
>
    decreases fields.len(),
{
    if fields.len() == 0 {
        Option::None
    } else if fields[0].0 == name {
        Option::Some(fields[0].1)
    } else {
        lookup_spec(fields.drop_first(), name)
    }
}

impl Reading {
    /// An empty reading, to be filled field by field.
    pub fn new() -> (r: Reading)
        ensures
            r@ == Seq::<(Seq<char>, FieldValue)>::empty(),
    {
        let r = Reading { fields: Vec::new() };
        proof {
            assert(r@ =~= Seq::<(Seq<char>, FieldValue)>::empty());
        }
        r
    }

    /// Record one field of the reading.
    pub fn push_field(&mut self, name: String, value: FieldValue)
        ensures
            final(self)@ == old(self)@ + seq![(name@, value)],
    {
        self.fields.push((name, value));
        proof {
            assert(self@ =~= old(self)@ + seq![(name@, value)]);
        }
    }

    /// Number of fields.
    pub fn len(&self) -> (n: usize)
        ensures
            n == self@.len(),
    {
        self.fields.len()
    }

    /// Look a field up by name; the first pair with that name wins.
    pub fn get(&self, name: &String) -> (r: Option<FieldValue>)
        ensures
            r == lookup_spec(self@, name@),
    {
        let n = self.fields.len();
        let mut i: usize = 0;
        proof {
            assert(self@.skip(0) =~= self@);
        }
        while i < n
            invariant
                n == self.fields@.len(),
                i <= n,
                lookup_spec(self@, name@) == lookup_spec(self@.skip(i as int), name@),
            decreases n - i,
        {
            proof {
                assert(self@.skip(i as int).drop_first() =~= self@.skip(i + 1));
                assert(self@[i as int] == (self.fields@[i as int].0@, self.fields@[i as int].1));
            }
            if self.fields[i].0 == *name {
                return Option::Some(self.fields[i].1);
            }
            i = i + 1;
        }
        proof {
            assert(self@.skip(n as int) =~= Seq::<(Seq<char>, FieldValue)>::empty());
        }
        Option::None
    }
}

/// Every slot of the fan-in holds an outcome.
pub open spec fn all_recorded(slots: Seq<Option<Result<Reading, PollError>>>) -> bool {
    forall|i: int| 0 <= i < slots.len() ==> (#[trigger] slots[i]) is Some
}

/// Fan-in point of one poll round: one slot per device, each filled exactly
/// once by the unit of work that polled that device.  The round can only
/// proceed to normalization once every slot is filled, so the round never
/// returns early on a failure and never drops or duplicates a device.
pub struct RoundCollector {
    pub slots: Vec<Option<Result<Reading, PollError>>>,
}

impl View for RoundCollector {
    type V = Seq<Option<Result<Reading, PollError>>>;

    open spec fn view(&self) -> Seq<Option<Result<Reading, PollError>>> {
        self.slots@
    }
}

impl RoundCollector {
    /// A collector for a round over `device_count` devices, all slots empty.
    pub fn new(device_count: usize) -> (c: RoundCollector)
        ensures
            c@.len() == device_count,
            forall|i: int| 0 <= i < device_count ==> (#[trigger] c@[i]) is None,
    {
        let mut slots: Vec<Option<Result<Reading, PollError>>> = Vec::new();
        let mut i: usize = 0;
        while i < device_count
            invariant
                i <= device_count,
                slots@.len() == i,
                forall|j: int| 0 <= j < i ==> (#[trigger] slots@[j]) is None,
            decreases device_count - i,
        {
            slots.push(Option::None);
            i = i + 1;
        }
        RoundCollector { slots }
    }

    /// Number of device slots.
    pub fn len(&self) -> (n: usize)
        ensures
            n == self@.len(),
    {
        self.slots.len()
    }

    /// Record the outcome of device `device`'s unit of work.  Each device
    /// reports exactly once per round; no outcome ever overwrites another.
    pub fn record(&mut self, device: usize, outcome: Result<Reading, PollError>)
        requires
            device < old(self)@.len(),
            old(self)@[device as int] is None,
        ensures
            final(self)@ == old(self)@.update(device as int, Option::Some(outcome)),
    {
        self.slots[device] = Option::Some(outcome);
    }

    /// Whether every device has reported.
    pub fn is_complete(&self) -> (r: bool)
        ensures
            r == all_recorded(self@),
    {
        let n = self.slots.len();
        let mut i: usize = 0;
        while i < n
            invariant
                n == self@.len(),
                i <= n,
                forall|j: int| 0 <= j < i ==> (#[trigger] self@[j]) is Some,
            decreases n - i,
        {
            if self.slots[i].is_none() {
                return false;
            }
            i = i + 1;
        }
        true
    }

    /// Hand the completed round over: exactly one outcome per input device,
    /// in device order, however many devices failed or timed out.
    pub fn finish(self) -> (r: Vec<Result<Reading, PollError>>)
        requires
            all_recorded(self@),
        ensures
            r@.len() == self@.len(),
            forall|i: int| 0 <= i < self@.len() ==> self@[i] == Option::Some(#[trigger] r@[i]),
    {
        let ghost initial = self@;
        let mut slots = self.slots;
        let mut out: Vec<Result<Reading, PollError>> = Vec::new();
        while slots.len() > 0
            invariant
                all_recorded(initial),
                out@.len() + slots@.len() == initial.len(),
                forall|j: int| 0 <= j < slots@.len() ==> slots@[j] == initial[out@.len() + j],
                forall|i: int|
                    0 <= i < out@.len() ==> initial[i] == Option::Some(#[trigger] out@[i]),
            decreases slots@.len(),
        {
            let slot = slots.remove(0);
            out.push(slot.unwrap());
        }
        out
    }
}

/// Timing model of one device's poll: how long the round observes the unit
/// of work to run, given the device's own completion time and the shared
/// per-device deadline.  A device that exceeds the deadline is abandoned at
/// the deadline and its slot marked failed.
pub open spec fn observed_latency(duration: u64, deadline: u64) -> u64 {
    if duration > deadline {
        deadline
    } else {
        duration
    }
}

/// Whether a device exceeding its deadline is marked timed out.
pub open spec fn times_out(duration: u64, deadline: u64) -> bool {
    duration > deadline
}

/// Decide whether a unit of work that took `duration` against `deadline` is
/// marked timed out.
pub fn deadline_exceeded(duration: u64, deadline: u64) -> (r: bool)
    ensures
        r == times_out(duration, deadline),
{
    duration > deadline
}

/// How long the round waits on one device: its own completion time, capped
/// at its own deadline.
pub fn observed_wait(duration: u64, deadline: u64) -> (w: u64)
    ensures
        w == observed_latency(duration, deadline),
{
    if duration > deadline {
        deadline
    } else {
        duration
    }
}

/// Isolation of per-device deadlines: what the round observes of one device
/// depends on that device's own completion time alone, and never exceeds the
/// device's own deadline.  In particular another device timing out — any
/// change to the rest of the duration sequence — leaves this device's
/// observed latency unchanged.
pub proof fn lemma_timeout_isolation(
    durations_a: Seq<u64>,
    durations_b: Seq<u64>,
    deadline: u64,
    device: int,
)
    requires
        0 <= device < durations_a.len(),
        device < durations_b.len(),
        durations_a[device] == durations_b[device],
    ensures
        observed_latency(durations_a[device], deadline) == observed_latency(
            durations_b[device],
            deadline,
        ),
        observed_latency(durations_a[device], deadline) <= deadline,
        observed_latency(durations_a[device], deadline) <= durations_a[device],
{
}

} // verus!
