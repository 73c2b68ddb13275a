use vstd::prelude::*;

use crate::boot_state::{next_boot_count, PersistedBootState};
use crate::bounded::{bounded32, bounded64, byte_len, text32, text64};
use crate::telemetry::{ApiVersion, AppStarted, Application, Host, Payload, Telemetry};
use crate::wire::{header_fields, object, started_fields};

verus! {

/// How long the device sleeps between two wakes, in seconds.
pub const DEEP_SLEEP_SECONDS: u64 = 300;

/// Capacity of the network name, in bytes.
pub const SSID_CAPACITY: usize = 32;

/// Capacity of the network password, in bytes.
pub const PASSWORD_CAPACITY: usize = 64;

/// Failure reported by the network provisioner.
#[derive(Debug, Clone, Copy, PartialEq, Eq, Structural)]
pub struct WifiError {
    pub code: i32,
}

/// Failure reported by the clock source.
#[derive(Debug, Clone, Copy, PartialEq, Eq, Structural)]
pub struct ClockError {
    pub code: i32,
}

/// Everything that can go wrong in one boot cycle.
#[derive(Debug, Clone, Copy, PartialEq, Eq, Structural)]
pub enum Error {
    /// The configured network name or password does not fit its capacity.
    ParseCredentials,
    /// The network could not be joined.
    Wifi(WifiError),
    /// The time could not be obtained.
    Clock(ClockError),
}

impl From<WifiError> for Error {
    fn from(error: WifiError) -> (r: Error)
        ensures
            r == Error::Wifi(error),
    {
        Error::Wifi(error)
    }
}

impl vstd::std_specs::convert::FromSpecImpl<WifiError> for Error {
    open spec fn obeys_from_spec() -> bool {
        true
    }

    open spec fn from_spec(error: WifiError) -> Error {
        Error::Wifi(error)
    }
}

impl From<ClockError> for Error {
    fn from(error: ClockError) -> (r: Error)
        ensures
            r == Error::Clock(error),
    {
        Error::Clock(error)
    }
}

impl vstd::std_specs::convert::FromSpecImpl<ClockError> for Error {
    open spec fn obeys_from_spec() -> bool {
        true
    }

    open spec fn from_spec(error: ClockError) -> Error {
        Error::Clock(error)
    }
}

/// The network name and password fit their capacities.
pub open spec fn credentials_fit(ssid: Seq<char>, password: Seq<char>) -> bool {
    byte_len(ssid) <= SSID_CAPACITY && byte_len(password) <= PASSWORD_CAPACITY
}

/// Network name and password, in the fixed-capacity strings the radio
/// driver takes.
#[derive(Debug)]
pub struct Credentials {
    pub ssid: heapless::String<32>,
    pub password: heapless::String<64>,
}

impl Credentials {
    /// Bounds the configured network name and password.
    pub fn try_new(ssid: &str, password: &str) -> (r: Result<Credentials, Error>)
        ensures
            r is Ok <==> credentials_fit(ssid@, password@),
            r is Err ==> r == Err::<Credentials, Error>(Error::ParseCredentials),
            r is Ok ==> text32(r->Ok_0.ssid) == ssid@ && text64(r->Ok_0.password)
                == password@,
    {
        let s = match bounded32(ssid) {
            Ok(s) => s,
            Err(()) => return Err(Error::ParseCredentials),
        };
        let p = match bounded64(password) {
            Ok(p) => p,
            Err(()) => return Err(Error::ParseCredentials),
        };
        Ok(Credentials { ssid: s, password: p })
    }
}

/// Where a boot cycle stands: the step whose outcome it waits for.
#[derive(Debug, Clone, Copy, PartialEq, Eq, Structural)]
pub enum Phase {
    AcquireNetwork,
    SyncClock,
    ReleaseNetwork,
    ReadClock,
    Transmit,
    ScheduleSleep,
    Asleep,
}

/// The outcome of the last requested action.
#[derive(Debug, Clone, Copy, PartialEq, Eq, Structural)]
pub enum Event {
    /// A request that yields nothing was carried out.
    Done,
    Connected,
    ConnectFailed(WifiError),
    /// The network time, in Unix seconds.
    Synced(u64),
    SyncFailed(ClockError),
    /// The current time, in Unix seconds.
    Time(u64),
    TimeFailed(ClockError),
    /// The event could not be sent; this does not abort the cycle.
    SendFailed,
}

/// The kind of an action, without its data.
#[derive(Debug, Clone, Copy, PartialEq, Eq, Structural)]
pub enum Step {
    Connect,
    SyncClock,
    ReleaseNetwork,
    ReadClock,
    Transmit,
    Sleep,
    /// Nothing new is asked: the cycle is over, or the event did not fit.
    Wait,
}

/// What the caller must do next.
#[derive(Debug)]
pub enum Action {
    /// Join the network with these credentials.
    Connect(Credentials),
    /// Ask the network time source for the time.
    SyncClock,
    /// Tell the network task to shut the radio down; nothing waits for it.
    ReleaseNetwork,
    /// Read the current time from the clock.
    ReadClock,
    /// Send this serialized event.
    Transmit(String),
    /// Enter deep sleep for this many seconds.
    Sleep(u64),
    /// Nothing to do: the cycle is over, or the event did not fit.
    Wait,
}

/// The kind of an action.
pub open spec fn step_of(a: Action) -> Step {
    match a {
        Action::Connect(_) => Step::Connect,
        Action::SyncClock => Step::SyncClock,
        Action::ReleaseNetwork => Step::ReleaseNetwork,
        Action::ReadClock => Step::ReadClock,
        Action::Transmit(_) => Step::Transmit,
        Action::Sleep(_) => Step::Sleep,
        Action::Wait => Step::Wait,
    }
}

/// The part of a boot cycle that changes as it runs.
#[derive(Debug, Clone, Copy, PartialEq, Eq, Structural)]
pub struct CycleState {
    pub phase: Phase,
    pub persisted: PersistedBootState,
    /// The time was obtained from the network in this cycle.
    pub synced: bool,
    /// The first failure of this cycle.
    pub error: Option<Error>,
}

/// The action requested on entering a phase.
pub open spec fn entry_step(p: Phase) -> Step {
    match p {
        Phase::AcquireNetwork => Step::Connect,
        Phase::SyncClock => Step::SyncClock,
        Phase::ReleaseNetwork => Step::ReleaseNetwork,
        Phase::ReadClock => Step::ReadClock,
        Phase::Transmit => Step::Transmit,
        Phase::ScheduleSleep => Step::Sleep,
        Phase::Asleep => Step::Wait,
    }
}

/// Moves to `phase` and asks for its action.
pub open spec fn enter(s: CycleState, phase: Phase) -> (CycleState, Step) {
    (CycleState { phase, ..s }, entry_step(phase))
}

/// Keeps the failure `e`, moves to `phase` and asks for its action.
pub open spec fn fail(s: CycleState, e: Error, phase: Phase) -> (CycleState, Step) {
    enter(CycleState { error: Some(e), ..s }, phase)
}

/// The first phase of a cycle. The wake is counted before anything can
/// fail; a cached time skips the network; credentials that do not fit end
/// the cycle before any association is tried.
pub open spec fn begin(p: PersistedBootState, fit: bool) -> (CycleState, Step) {
    let s = CycleState {
        phase: Phase::AcquireNetwork,
        persisted: PersistedBootState { boot_count: next_boot_count(p.boot_count), ..p },
        synced: false,
        error: None,
    };
    if p.cached_time is Some {
        enter(s, Phase::ReadClock)
    } else if fit {
        enter(s, Phase::AcquireNetwork)
    } else {
        fail(s, Error::ParseCredentials, Phase::ScheduleSleep)
    }
}

/// One step of a cycle. Failures are kept and lead to sleep, through a
/// release of the network when it may be up; a failed send does not abort.
/// An event that does not fit the phase is ignored.
pub open spec fn transition(s: CycleState, e: Event) -> (CycleState, Step) {
    match (s.phase, e) {
        (Phase::AcquireNetwork, Event::Connected) => enter(s, Phase::SyncClock),
        (Phase::AcquireNetwork, Event::ConnectFailed(w)) => fail(
            s,
            Error::Wifi(w),
            Phase::ReleaseNetwork,
        ),
        (Phase::SyncClock, Event::Synced(t)) => enter(
            CycleState {
                persisted: PersistedBootState { cached_time: Some(t), ..s.persisted },
                synced: true,
                ..s
            },
            Phase::ReleaseNetwork,
        ),
        (Phase::SyncClock, Event::SyncFailed(c)) => fail(
            s,
            Error::Clock(c),
            Phase::ReleaseNetwork,
        ),
        (Phase::ReleaseNetwork, Event::Done) => if s.error is Some {
            enter(s, Phase::ScheduleSleep)
        } else {
            enter(s, Phase::ReadClock)
        },
        (Phase::ReadClock, Event::Time(_)) => enter(s, Phase::Transmit),
        (Phase::ReadClock, Event::TimeFailed(c)) => fail(s, Error::Clock(c), Phase::ScheduleSleep),
        (Phase::Transmit, Event::Done) => enter(s, Phase::ScheduleSleep),
        (Phase::Transmit, Event::SendFailed) => enter(s, Phase::ScheduleSleep),
        (Phase::ScheduleSleep, Event::Done) => enter(s, Phase::Asleep),
        _ => (s, Step::Wait),
    }
}

/// The JSON text of the start-up event of a cycle: protocol version 2 and a
/// start-up payload with no entries, whether the time came from the
/// network or from the cache.
pub open spec fn event_json(
    application: Application,
    host: Host,
    runtime_id: Seq<char>,
    seq_id: u64,
    time: u64,
) -> Seq<char> {
    object(
        header_fields(ApiVersion::V2, time, runtime_id, seq_id, application, host)
            + started_fields(Seq::empty()),
    )
}

/// One boot cycle: from wake to deep sleep.
#[derive(Debug)]
pub struct BootCycle {
    pub state: CycleState,
    pub runtime_id: String,
    pub seq_id: u64,
    pub application: Application,
    pub host: Host,
}

impl BootCycle {
    /// Starts a cycle on the persisted record as it was found at wake.
    pub fn start(
        persisted: PersistedBootState,
        ssid: &str,
        password: &str,
        runtime_id: String,
        seq_id: u64,
        application: Application,
        host: Host,
    ) -> (r: (BootCycle, Action))
        ensures
            (r.0.state, step_of(r.1)) == begin(persisted, credentials_fit(ssid@, password@)),
            r.0.runtime_id == runtime_id,
            r.0.seq_id == seq_id,
            r.0.application == application,
            r.0.host == host,
            r.1 matches Action::Connect(c) ==> text32(c.ssid) == ssid@ && text64(c.password)
                == password@,
            r.1 matches Action::Sleep(d) ==> d == DEEP_SLEEP_SECONDS,
    {
        let mut p = persisted;
        p.record_boot();
        let base = CycleState {
            phase: Phase::AcquireNetwork,
            persisted: p,
            synced: false,
            error: None,
        };
        let (state, action) = if persisted.cached_time.is_some() {
            (CycleState { phase: Phase::ReadClock, ..base }, Action::ReadClock)
        } else {
            match Credentials::try_new(ssid, password) {
                Ok(c) => (base, Action::Connect(c)),
                Err(e) => (
                    CycleState { phase: Phase::ScheduleSleep, error: Some(e), ..base },
                    Action::Sleep(DEEP_SLEEP_SECONDS),
                ),
            }
        };
        (BootCycle { state, runtime_id, seq_id, application, host }, action)
    }

    /// The serialized start-up event for the given time.
    fn event_text(&self, time: u64) -> (r: String)
        ensures
            r@ == event_json(
                self.application,
                self.host,
                self.runtime_id@,
                self.seq_id,
                time,
            ),
    {
        let payload = Payload::AppStarted(AppStarted::empty());
        let t = Telemetry::new(
            ApiVersion::V2,
            time,
            self.seq_id,
            self.runtime_id.as_str(),
            &self.application,
            &self.host,
            &payload,
        );
        t.serialize()
    }

    /// Takes the outcome of the last action and says what to do next.
    pub fn step(&mut self, e: Event) -> (a: Action)
        ensures
            (final(self).state, step_of(a)) == transition(old(self).state, e),
            final(self).runtime_id == old(self).runtime_id,
            final(self).seq_id == old(self).seq_id,
            final(self).application == old(self).application,
            final(self).host == old(self).host,
            old(self).state.phase is ReadClock && e is Time ==> (a matches Action::Transmit(j)
                && j@ == event_json(
                old(self).application,
                old(self).host,
                old(self).runtime_id@,
                old(self).seq_id,
                e->Time_0,
            )),
            a matches Action::Sleep(d) ==> d == DEEP_SLEEP_SECONDS,
    {
        let s = self.state;
        let sleep = CycleState { phase: Phase::ScheduleSleep, ..s };
        match (s.phase, e) {
            (Phase::AcquireNetwork, Event::Connected) => {
                self.state = CycleState { phase: Phase::SyncClock, ..s };
                Action::SyncClock
            },
            (Phase::AcquireNetwork, Event::ConnectFailed(w)) => {
                self.state = CycleState {
                    phase: Phase::ReleaseNetwork,
                    error: Some(Error::from(w)),
                    ..s
                };
                Action::ReleaseNetwork
            },
            (Phase::SyncClock, Event::Synced(t)) => {
                let mut p = s.persisted;
                p.update_clock(t);
                self.state = CycleState {
                    phase: Phase::ReleaseNetwork,
                    persisted: p,
                    synced: true,
                    ..s
                };
                Action::ReleaseNetwork
            },
            (Phase::SyncClock, Event::SyncFailed(c)) => {
                self.state = CycleState {
                    phase: Phase::ReleaseNetwork,
                    error: Some(Error::from(c)),
                    ..s
                };
                Action::ReleaseNetwork
            },
            (Phase::ReleaseNetwork, Event::Done) => {
                if s.error.is_some() {
                    self.state = sleep;
                    Action::Sleep(DEEP_SLEEP_SECONDS)
                } else {
                    self.state = CycleState { phase: Phase::ReadClock, ..s };
                    Action::ReadClock
                }
            },
            (Phase::ReadClock, Event::Time(t)) => {
                let json = self.event_text(t);
                self.state = CycleState { phase: Phase::Transmit, ..s };
                Action::Transmit(json)
            },
            (Phase::ReadClock, Event::TimeFailed(c)) => {
                self.state = CycleState { error: Some(Error::from(c)), ..sleep };
                Action::Sleep(DEEP_SLEEP_SECONDS)
            },
            (Phase::Transmit, Event::Done) | (Phase::Transmit, Event::SendFailed) => {
                self.state = sleep;
                Action::Sleep(DEEP_SLEEP_SECONDS)
            },
            (Phase::ScheduleSleep, Event::Done) => {
                self.state = CycleState { phase: Phase::Asleep, ..s };
                Action::Wait
            },
            _ => Action::Wait,
        }
    }
}

/// The state after feeding `events` to a cycle, in order.
pub open spec fn run(s: CycleState, events: Seq<Event>) -> CycleState
    decreases events.len(),
{
    if events.len() == 0 {
        s
    } else {
        run(transition(s, events[0]).0, events.drop_first())
    }
}

/// The actions asked for while feeding `events` to a cycle, in order.
pub open spec fn steps(s: CycleState, events: Seq<Event>) -> Seq<Step>
    decreases events.len(),
{
    if events.len() == 0 {
        Seq::empty()
    } else {
        seq![transition(s, events[0]).1] + steps(transition(s, events[0]).0, events.drop_first())
    }
}

/// No step of a cycle changes the boot counter.
pub proof fn lemma_run_keeps_count(s: CycleState, events: Seq<Event>)
    ensures
        run(s, events).persisted.boot_count == s.persisted.boot_count,
    decreases events.len(),
{
    if events.len() > 0 {
        lemma_run_keeps_count(transition(s, events[0]).0, events.drop_first());
    }
}

/// Across one wake, whatever happens in it (a cached time, a network
/// sync, a failure), the boot counter grows by exactly one, wrapping past
/// `u32::MAX`.
pub proof fn lemma_one_count_per_wake(p: PersistedBootState, fit: bool, events: Seq<Event>)
    ensures
        run(begin(p, fit).0, events).persisted.boot_count == next_boot_count(p.boot_count),
{
    lemma_run_keeps_count(begin(p, fit).0, events);
}

/// The phases in which the network is no longer needed.
pub open spec fn offline(p: Phase) -> bool {
    p is ReadClock || p is Transmit || p is ScheduleSleep || p is Asleep
}

/// From an offline phase a cycle never joins or releases the network.
pub proof fn lemma_offline_stays(s: CycleState, events: Seq<Event>)
    requires
        offline(s.phase),
    ensures
        offline(run(s, events).phase),
        forall|i: int|
            0 <= i < steps(s, events).len() ==> !(#[trigger] steps(s, events)[i] is Connect)
                && !(steps(s, events)[i] is ReleaseNetwork),
    decreases events.len(),
{
    if events.len() > 0 {
        let n = transition(s, events[0]);
        lemma_offline_stays(n.0, events.drop_first());
        let rest = steps(n.0, events.drop_first());
        assert(steps(s, events) == seq![n.1] + rest);
        assert forall|i: int| 0 <= i < steps(s, events).len() implies !(#[trigger] steps(
            s,
            events,
        )[i] is Connect) && !(steps(s, events)[i] is ReleaseNetwork) by {
            if i > 0 {
                assert(steps(s, events)[i] == rest[i - 1]);
            }
        }
    }
}

/// When the persisted record holds a time, the cycle never asks to join
/// or to release the network, whatever the events.
pub proof fn lemma_cache_hit_skips_network(p: PersistedBootState, fit: bool, events: Seq<Event>)
    requires
        p.cached_time is Some,
    ensures
        begin(p, fit).1 == Step::ReadClock,
        forall|i: int|
            0 <= i < steps(begin(p, fit).0, events).len() ==> !(#[trigger] steps(
                begin(p, fit).0,
                events,
            )[i] is Connect) && !(steps(begin(p, fit).0, events)[i] is ReleaseNetwork),
{
    lemma_offline_stays(begin(p, fit).0, events);
}

/// The phases a cycle may stand in once something failed.
pub open spec fn winding_down(p: Phase) -> bool {
    p is ReleaseNetwork || p is ScheduleSleep || p is Asleep
}

/// A failed cycle stands in a phase that only leads to sleep.
pub open spec fn failure_winds_down(s: CycleState) -> bool {
    s.error is Some ==> winding_down(s.phase)
}

/// Every reachable state of a cycle that failed is winding down.
pub proof fn lemma_failure_winds_down(p: PersistedBootState, fit: bool, events: Seq<Event>)
    ensures
        failure_winds_down(run(begin(p, fit).0, events)),
{
    lemma_run_keeps_winding_down(begin(p, fit).0, events);
}

proof fn lemma_run_keeps_winding_down(s: CycleState, events: Seq<Event>)
    requires
        failure_winds_down(s),
    ensures
        failure_winds_down(run(s, events)),
    decreases events.len(),
{
    if events.len() > 0 {
        lemma_run_keeps_winding_down(transition(s, events[0]).0, events.drop_first());
    }
}

/// After a failure a cycle asks for nothing but the release of the network
/// and deep sleep: it neither syncs, reads the clock nor transmits.
pub proof fn lemma_failed_cycle_only_sleeps(s: CycleState, events: Seq<Event>)
    requires
        s.error is Some,
        winding_down(s.phase),
    ensures
        run(s, events).error is Some,
        winding_down(run(s, events).phase),
        forall|i: int|
            0 <= i < steps(s, events).len() ==> {
                let k = #[trigger] steps(s, events)[i];
                k is ReleaseNetwork || k is Sleep || k is Wait
            },
    decreases events.len(),
{
    if events.len() > 0 {
        let n = transition(s, events[0]);
        lemma_failed_cycle_only_sleeps(n.0, events.drop_first());
        let rest = steps(n.0, events.drop_first());
        assert(steps(s, events) == seq![n.1] + rest);
        assert forall|i: int| 0 <= i < steps(s, events).len() implies {
            let k = #[trigger] steps(s, events)[i];
            k is ReleaseNetwork || k is Sleep || k is Wait
        } by {
            if i > 0 {
                assert(steps(s, events)[i] == rest[i - 1]);
            }
        }
    }
}

} // verus!
