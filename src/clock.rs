use vstd::prelude::*;

verus! {

/// Nanoseconds in one second.
pub const NANOS_PER_SEC: u32 = 1_000_000_000;

/// An instant, as whole seconds since the Unix epoch and the nanoseconds
/// past that second.
#[derive(Clone, Copy, Debug, PartialEq, Eq, Structural)]
pub struct Timestamp {
    pub secs: u64,
    pub subsec_nanos: u32,
}

impl Timestamp {
    /// The nanosecond part stays below one second.
    pub open spec fn wf(self) -> bool {
        self.subsec_nanos < NANOS_PER_SEC
    }

    /// Builds an instant from seconds and nanoseconds since the epoch.
    pub fn new(secs: u64, subsec_nanos: u32) -> (r: Timestamp)
        requires
            subsec_nanos < NANOS_PER_SEC,
        ensures
            r.secs == secs,
            r.subsec_nanos == subsec_nanos,
            r.wf(),
    {
        Timestamp { secs, subsec_nanos }
    }
}

/// A source of the current time. Injected wherever the time is read, so
/// that a fixed clock can stand in for the system one.
pub trait Clock {
    /// Whether `t` is a reading that this clock may give.
    spec fn gives_reading(&self, t: Timestamp) -> bool;

    fn now(&self) -> (r: Timestamp)
        ensures
            self.gives_reading(r),
    ;
}

/// The clock of the operating system.
#[derive(Debug, Default)]
pub struct SystemClock {}

impl SystemClock {
    pub fn new() -> (r: SystemClock) {
        SystemClock {  }
    }
}

/// An instant of the system clock, carried through opaquely.
#[verifier::external_type_specification]
#[verifier::external_body]
pub struct ExSystemTime(std::time::SystemTime);

/// Relies on std::time::SystemTime::now: the current instant of the system
/// clock, of which nothing is promised.
#[verifier::external_body]
fn system_now() -> (r: std::time::SystemTime) {
    std::time::SystemTime::now()
}

/// Relies on std::time::SystemTime::duration_since: the time elapsed from
/// the Unix epoch to `t`, as whole seconds and the nanoseconds of the
/// current second (which stay below one second); none when `t` is before
/// the epoch.
#[verifier::external_body]
fn since_epoch(t: std::time::SystemTime) -> (r: Option<Timestamp>)
    ensures
        r matches Some(ts) ==> ts.wf(),
{
    match t.duration_since(std::time::UNIX_EPOCH) {
        Ok(d) => Some(Timestamp { secs: d.as_secs(), subsec_nanos: d.subsec_nanos() }),
        Err(_) => None,
    }
}

impl Clock for SystemClock {
    /// Any well-formed instant; an instant before the epoch reads as the
    /// epoch.
    open spec fn gives_reading(&self, t: Timestamp) -> bool {
        t.wf()
    }

    fn now(&self) -> (r: Timestamp) {
        match since_epoch(system_now()) {
            Some(t) => t,
            None => Timestamp::new(0, 0),
        }
    }
}

} // verus!
