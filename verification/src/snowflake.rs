//! The sequence state machine: one generator per `(datacenter, worker)` pair,
//! which hands out identifiers that grow with every call.

use crate::clock::{now_millis, relax};
use crate::codec::{
    pack, pack_fields, MAX_DATACENTER_ID, MAX_SEQUENCE, MAX_TIMESTAMP, MAX_WORKER_ID,
};
use crate::error::GeneratorError;
use vstd::prelude::*;

verus! {

/// The epoch used by `SnowflakeGenerator::new`: 2020-01-01T00:00:00Z, in
/// milliseconds since the UNIX epoch.
pub const DEFAULT_EPOCH_MILLIS: u64 = 1_577_836_800_000;

/// The tolerance used by `SnowflakeGenerator::new`: a clock that falls back
/// by at most this many milliseconds is waited for; a larger step back fails
/// the call.
pub const DEFAULT_TOLERANCE_MILLIS: u64 = 5;

/// How often `SnowflakeGenerator::next_id` reads the clock again, after its
/// first reading, before it gives up waiting for the clock to move on.
pub const CLOCK_POLL_LIMIT: u64 = 0x1_0000_0000;

/// What a generator is set up with. It never changes afterwards.
#[derive(PartialEq, Eq, Structural, Clone, Copy, Debug)]
pub struct GeneratorConfig {
    /// The deployment region or cluster, `0..=31`.
    pub datacenter_id: u8,
    /// The process or node within its datacenter, `0..=31`.
    pub worker_id: u8,
    /// The instant from which timestamps are measured, in milliseconds since
    /// the UNIX epoch.
    pub epoch_millis: u64,
    /// The largest step back of the clock, in milliseconds, that is waited
    /// for rather than reported.
    pub tolerance_millis: u64,
}

/// What a generator remembers between calls.
#[derive(PartialEq, Eq, Structural, Clone, Copy, Debug)]
pub struct GeneratorState {
    /// The millisecond of the most recent identifier; the epoch before the
    /// first.
    pub last_timestamp: u64,
    /// The sequence number of the most recent identifier within
    /// `last_timestamp`.
    pub sequence: u16,
}

/// What one reading of the clock leads to.
#[derive(PartialEq, Eq, Structural, Clone, Copy, Debug)]
pub enum Tick {
    /// An identifier was issued.
    Issued(u64),
    /// Nothing was issued: the clock has to move on first.
    Pending,
    /// Nothing was issued: the clock showed `observed`, which lies before
    /// `last` by more than the tolerance.
    Regressed { observed: u64, last: u64 },
}

/// What a call for the next identifier does after one poll.
#[derive(PartialEq, Eq, Clone, Copy, Debug)]
pub enum Step {
    /// The call is over, with this result.
    Done(Result<u64, GeneratorError>),
    /// The clock has to move on: the call reads it again.
    ReadAgain,
}

/// Both ids fit their fields.
pub open spec fn config_valid(config: GeneratorConfig) -> bool {
    config.datacenter_id <= MAX_DATACENTER_ID && config.worker_id <= MAX_WORKER_ID
}

/// The state never lies before the epoch, and its sequence fits its field.
pub open spec fn state_valid(config: GeneratorConfig, state: GeneratorState) -> bool {
    config.epoch_millis <= state.last_timestamp && state.sequence <= MAX_SEQUENCE
}

/// Whether a generator may be set up with `config` when the clock shows
/// `now`: the ids fit, the epoch is not in the future, and the time since
/// the epoch fits the timestamp field.
pub open spec fn admissible(config: GeneratorConfig, now: u64) -> bool {
    &&& config_valid(config)
    &&& config.epoch_millis <= now
    &&& now - config.epoch_millis <= MAX_TIMESTAMP
}

/// The state of a generator that has issued nothing yet.
pub open spec fn initial_state(config: GeneratorConfig) -> GeneratorState {
    GeneratorState { last_timestamp: config.epoch_millis, sequence: 0 }
}

/// The timestamp field for a clock reading: the milliseconds since the epoch,
/// cut down to 41 bits.
pub open spec fn timestamp_delta(config: GeneratorConfig, timestamp: u64) -> int {
    (timestamp - config.epoch_millis) % 0x200_0000_0000
}

/// The identifier that stands for a state: the one issued last, once one was
/// issued.
pub open spec fn identifier(config: GeneratorConfig, state: GeneratorState) -> int {
    pack(
        timestamp_delta(config, state.last_timestamp),
        config.datacenter_id as int,
        config.worker_id as int,
        state.sequence as int,
    )
}

/// The clock has fallen back behind the last timestamp by more than the
/// tolerance.
pub open spec fn regressed(config: GeneratorConfig, state: GeneratorState, now: u64) -> bool {
    now < state.last_timestamp && state.last_timestamp - now > config.tolerance_millis
}

/// The clock has to move on before an identifier can be issued: it lies
/// behind the last timestamp, or the sequence is used up for this
/// millisecond.
pub open spec fn must_wait(state: GeneratorState, now: u64) -> bool {
    now < state.last_timestamp || (now == state.last_timestamp && state.sequence
        == MAX_SEQUENCE)
}

/// The state after a reading of the clock: unchanged where nothing is issued,
/// the next sequence number within the same millisecond, sequence zero in a
/// later one.
pub open spec fn state_after(state: GeneratorState, now: u64) -> GeneratorState {
    if must_wait(state, now) {
        state
    } else if now == state.last_timestamp {
        GeneratorState { last_timestamp: now, sequence: (state.sequence + 1) as u16 }
    } else {
        GeneratorState { last_timestamp: now, sequence: 0 }
    }
}

/// What a reading of the clock leads to.
pub open spec fn tick(config: GeneratorConfig, state: GeneratorState, now: u64) -> Tick {
    if regressed(config, state, now) {
        Tick::Regressed { observed: now, last: state.last_timestamp }
    } else if must_wait(state, now) {
        Tick::Pending
    } else {
        Tick::Issued(identifier(config, state_after(state, now)) as u64)
    }
}

/// Some reading of the clock takes a generator from `before` to `after` and
/// issues `id`.
pub open spec fn issues(
    config: GeneratorConfig,
    before: GeneratorState,
    after: GeneratorState,
    id: u64,
) -> bool {
    exists|now: u64|
        #[trigger] tick(config, before, now) == Tick::Issued(id) && after == state_after(
            before,
            now,
        )
}

/// Some reading of the clock, at which a generator in `state` issues
/// nothing, is reported by `error` as a clock regression.
pub open spec fn refuses(config: GeneratorConfig, state: GeneratorState, error: GeneratorError) -> bool {
    exists|now: u64|
        !(#[trigger] tick(config, state, now) is Issued) && error
            == (GeneratorError::ClockRegression { observed: now, last: state.last_timestamp })
}

/// What a call for the next identifier comes to when the clock shows
/// `readings`, one after the other: every reading but the last leaves the
/// generator waiting, and the last one decides. It issues the identifier, or
/// it shows a clock that fell back by more than the tolerance, or it is the
/// last of all the readings that a call makes and still leaves the generator
/// waiting.
pub open spec fn resolves(
    config: GeneratorConfig,
    state: GeneratorState,
    readings: Seq<u64>,
    after: GeneratorState,
    outcome: Result<u64, GeneratorError>,
) -> bool {
    &&& 0 < readings.len() <= CLOCK_POLL_LIMIT + 1
    &&& forall|i: int|
        0 <= i < readings.len() - 1 ==> #[trigger] tick(config, state, readings[i]) == Tick::Pending
    &&& after == state_after(state, readings.last())
    &&& outcome == outcome_at(config, state, readings.last())
    &&& tick(config, state, readings.last()) == Tick::Pending ==> readings.len() == CLOCK_POLL_LIMIT
        + 1
}

/// What a call does after a poll at `now` came to `outcome`, when it has read
/// the clock again `polls` times before and the generator's last timestamp is
/// `last`. An identifier ends the call, and so does a regression. A clock
/// that has to move on is read again, unless it was read again
/// `CLOCK_POLL_LIMIT` times already: the call then gives up and reports the
/// reading against the last timestamp.
pub open spec fn step_of(outcome: Tick, polls: u64, now: u64, last: u64) -> Step {
    match outcome {
        Tick::Issued(id) => Step::Done(Ok(id)),
        Tick::Regressed { observed, last: behind } => Step::Done(
            Err(GeneratorError::ClockRegression { observed, last: behind }),
        ),
        Tick::Pending => if polls < CLOCK_POLL_LIMIT {
            Step::ReadAgain
        } else {
            Step::Done(Err(GeneratorError::ClockRegression { observed: now, last }))
        },
    }
}

/// Decides what a call for the next identifier does after one poll.
pub fn after_poll(outcome: Tick, polls: u64, now: u64, last: u64) -> (s: Step)
    ensures
        s == step_of(outcome, polls, now, last),
{
    match outcome {
        Tick::Issued(id) => Step::Done(Ok(id)),
        Tick::Regressed { observed, last: behind } => Step::Done(
            Err(GeneratorError::ClockRegression { observed, last: behind }),
        ),
        Tick::Pending => {
            if polls < CLOCK_POLL_LIMIT {
                Step::ReadAgain
            } else {
                Step::Done(Err(GeneratorError::ClockRegression { observed: now, last }))
            }
        },
    }
}

/// Every one of `readings` leaves a generator in `state` waiting.
pub open spec fn all_pending(config: GeneratorConfig, state: GeneratorState, readings: Seq<u64>) -> bool {
    forall|i: int|
        0 <= i < readings.len() ==> #[trigger] tick(config, state, readings[i]) == Tick::Pending
}

/// The outcome that a deciding reading of the clock leads to.
pub open spec fn outcome_at(config: GeneratorConfig, state: GeneratorState, now: u64) -> Result<
    u64,
    GeneratorError,
> {
    match tick(config, state, now) {
        Tick::Issued(id) => Ok(id),
        _ => Err(GeneratorError::ClockRegression { observed: now, last: state.last_timestamp }),
    }
}

/// After readings that all left the generator waiting, a reading that
/// issues or reports a regression decides the call, and so does the last
/// reading that a call may make.
pub proof fn lemma_last_reading_decides(
    config: GeneratorConfig,
    state: GeneratorState,
    waited: Seq<u64>,
    now: u64,
)
    requires
        waited.len() <= CLOCK_POLL_LIMIT,
        all_pending(config, state, waited),
        tick(config, state, now) == Tick::Pending ==> waited.len() == CLOCK_POLL_LIMIT,
    ensures
        resolves(
            config,
            state,
            waited.push(now),
            state_after(state, now),
            outcome_at(config, state, now),
        ),
        outcome_at(config, state, now) matches Ok(id) ==> issues(
            config,
            state,
            state_after(state, now),
            id,
        ),
        outcome_at(config, state, now) matches Err(e) ==> state_after(state, now) == state
            && refuses(config, state, e),
{
    let readings = waited.push(now);
    assert(readings.last() == now);
    assert forall|i: int| 0 <= i < readings.len() - 1 implies #[trigger] tick(
        config,
        state,
        readings[i],
    ) == Tick::Pending by {
        assert(readings[i] == waited[i]);
    }
    if outcome_at(config, state, now) is Err {
        assert(!(tick(config, state, now) is Issued));
    }
}

/// A generator of identifiers for one `(datacenter, worker)` pair.
pub struct SnowflakeGenerator {
    config: GeneratorConfig,
    state: GeneratorState,
}

impl SnowflakeGenerator {
    /// What the generator was set up with.
    pub closed spec fn config(&self) -> GeneratorConfig {
        self.config
    }

    /// What the generator remembers of its last identifier.
    pub closed spec fn state(&self) -> GeneratorState {
        self.state
    }

    /// The generator's invariant.
    pub open spec fn wf(&self) -> bool {
        config_valid(self.config()) && state_valid(self.config(), self.state())
    }

    /// Sets up a generator with `config` at a time when the clock shows
    /// `now`. Fails with `InvalidConfiguration` exactly where `config` is
    /// not admissible at `now`.
    pub fn with_config_at(config: GeneratorConfig, now: u64) -> (r: Result<
        SnowflakeGenerator,
        GeneratorError,
    >)
        ensures
            admissible(config, now) <==> r is Ok,
            r matches Ok(g) ==> g.wf() && g.config() == config && g.state() == initial_state(
                config,
            ),
            r matches Err(e) ==> e == GeneratorError::InvalidConfiguration,
    {
        if config.datacenter_id > MAX_DATACENTER_ID || config.worker_id > MAX_WORKER_ID {
            return Err(GeneratorError::InvalidConfiguration);
        }
        if config.epoch_millis > now || now - config.epoch_millis > MAX_TIMESTAMP {
            return Err(GeneratorError::InvalidConfiguration);
        }
        Ok(
            SnowflakeGenerator {
                config,
                state: GeneratorState { last_timestamp: config.epoch_millis, sequence: 0 },
            },
        )
    }

    /// Sets up a generator with `config`, checked against the wall clock.
    /// Ids that do not fit always fail; whether the epoch is acceptable is
    /// for the clock to say.
    pub fn with_config(config: GeneratorConfig) -> (r: Result<SnowflakeGenerator, GeneratorError>)
        ensures
            !config_valid(config) ==> r is Err,
            r matches Ok(g) ==> g.wf() && g.config() == config && g.state() == initial_state(
                config,
            ),
            r matches Err(e) ==> e == GeneratorError::InvalidConfiguration,
    {
        let now = now_millis();
        SnowflakeGenerator::with_config_at(config, now)
    }

    /// Sets up a generator for the given datacenter and worker, with the
    /// default epoch and tolerance.
    pub fn new(datacenter_id: u8, worker_id: u8) -> (r: Result<SnowflakeGenerator, GeneratorError>)
        ensures
            datacenter_id > MAX_DATACENTER_ID || worker_id > MAX_WORKER_ID ==> r is Err,
            r matches Ok(g) ==> g.wf() && g.config() == (GeneratorConfig {
                datacenter_id,
                worker_id,
                epoch_millis: DEFAULT_EPOCH_MILLIS,
                tolerance_millis: DEFAULT_TOLERANCE_MILLIS,
            }) && g.state() == initial_state(g.config()),
            r matches Err(e) ==> e == GeneratorError::InvalidConfiguration,
    {
        SnowflakeGenerator::with_config(
            GeneratorConfig {
                datacenter_id,
                worker_id,
                epoch_millis: DEFAULT_EPOCH_MILLIS,
                tolerance_millis: DEFAULT_TOLERANCE_MILLIS,
            },
        )
    }

    /// One step of the generator for one reading of the clock. Either an
    /// identifier is issued and the state moves on, or the state stays as it
    /// is and the caller learns that the clock has to move on, or that it
    /// fell back too far.
    pub fn poll(&mut self, now: u64) -> (r: Tick)
        requires
            old(self).wf(),
        ensures
            final(self).wf(),
            final(self).config() == old(self).config(),
            final(self).state() == state_after(old(self).state(), now),
            r == tick(old(self).config(), old(self).state(), now),
            r matches Tick::Issued(id) ==> id <= i64::MAX,
    {
        let last: u64 = self.state.last_timestamp;
        if now < last {
            if last - now > self.config.tolerance_millis {
                return Tick::Regressed { observed: now, last };
            }
            return Tick::Pending;
        }
        if now == last {
            if self.state.sequence >= MAX_SEQUENCE {
                return Tick::Pending;
            }
            self.state.sequence = self.state.sequence + 1;
        } else {
            self.state.last_timestamp = now;
            self.state.sequence = 0;
        }
        let elapsed: u64 = now - self.config.epoch_millis;
        let delta: u64 = elapsed & MAX_TIMESTAMP;
        proof {
            assert(elapsed & 0x1FF_FFFF_FFFF == elapsed % 0x200_0000_0000) by (bit_vector);
        }
        Tick::Issued(
            pack_fields(delta, self.config.datacenter_id, self.config.worker_id, self.state.sequence),
        )
    }

    /// The next identifier. Reads the clock and polls; what follows each poll
    /// is for `after_poll` to say. While the clock has to move on, it is read
    /// again, up to `CLOCK_POLL_LIMIT` times. A clock that fell back by more
    /// than the tolerance, or that did not move on in all those readings,
    /// fails the call with `ClockRegression`, and the state stays as it was.
    pub fn next_id(&mut self) -> (r: Result<u64, GeneratorError>)
        requires
            old(self).wf(),
        ensures
            final(self).wf(),
            final(self).config() == old(self).config(),
            exists|readings: Seq<u64>| #[trigger]
                resolves(old(self).config(), old(self).state(), readings, final(self).state(), r),
            r matches Ok(id) ==> id <= i64::MAX && issues(
                old(self).config(),
                old(self).state(),
                final(self).state(),
                id,
            ),
            r matches Err(e) ==> final(self).state() == old(self).state() && refuses(
                old(self).config(),
                old(self).state(),
                e,
            ),
    {
        let ghost mut waited: Seq<u64> = Seq::empty();
        let mut polls: u64 = 0;
        let mut now: u64 = now_millis();
        loop
            invariant
                self.wf(),
                self.config() == old(self).config(),
                self.state() == old(self).state(),
                polls <= CLOCK_POLL_LIMIT,
                waited.len() == polls,
                all_pending(old(self).config(), old(self).state(), waited),
            decreases CLOCK_POLL_LIMIT - polls,
        {
            let outcome = self.poll(now);
            match after_poll(outcome, polls, now, self.state.last_timestamp) {
                Step::Done(r) => {
                    proof {
                        lemma_last_reading_decides(old(self).config(), old(self).state(), waited, now);
                    }
                    return r;
                },
                Step::ReadAgain => {
                    proof {
                        waited = waited.push(now);
                    }
                    polls = polls + 1;
                    relax();
                    now = now_millis();
                },
            }
        }
    }

    /// What the generator was set up with.
    pub fn configuration(&self) -> (r: GeneratorConfig)
        ensures
            r == self.config(),
    {
        self.config
    }

    /// The timestamp and sequence of the most recent identifier.
    pub fn snapshot(&self) -> (r: GeneratorState)
        ensures
            r == self.state(),
    {
        self.state
    }
}

} // verus!
