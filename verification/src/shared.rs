//! A generator behind a lock, for callers on many threads: each reading of
//! the clock and the step that follows it happen while the lock is held, so
//! no two callers ever step from the same state.

use crate::clock::{now_millis, relax};
use crate::codec::{datacenter_of, worker_of};
use crate::error::GeneratorError;
use crate::laws::lemma_issued_fields;
use crate::snowflake::{
    after_poll, state_valid, tick, GeneratorConfig, GeneratorState, SnowflakeGenerator, Step, Tick,
    CLOCK_POLL_LIMIT, DEFAULT_EPOCH_MILLIS, DEFAULT_TOLERANCE_MILLIS,
};
use vstd::prelude::*;
use vstd::rwlock::RwLock;

verus! {

/// What the lock of a shared generator admits: a valid generator that was
/// set up with `config`.
pub open spec fn guards(config: GeneratorConfig) -> spec_fn(SnowflakeGenerator) -> bool {
    |generator: SnowflakeGenerator| generator.wf() && generator.config() == config
}

/// Some valid state and some reading of the clock exist from which a
/// generator with `config` issues `id` in one step.
pub open spec fn issued_by(config: GeneratorConfig, id: u64) -> bool {
    exists|before: GeneratorState, now: u64|
        state_valid(config, before) && #[trigger] tick(config, before, now) == Tick::Issued(id)
}

/// A generator that many callers use through a shared reference.
pub struct SharedGenerator {
    config: GeneratorConfig,
    lock: RwLock<SnowflakeGenerator, spec_fn(SnowflakeGenerator) -> bool>,
}

impl SharedGenerator {
    /// What the generator was set up with.
    pub closed spec fn config(&self) -> GeneratorConfig {
        self.config
    }

    /// The lock holds a valid generator with this configuration, whoever
    /// used it last.
    pub closed spec fn wf(&self) -> bool {
        self.lock.pred() == guards(self.config)
    }

    /// Puts a generator behind a lock.
    pub fn share(generator: SnowflakeGenerator) -> (r: SharedGenerator)
        requires
            generator.wf(),
        ensures
            r.wf(),
            r.config() == generator.config(),
    {
        let config = generator.configuration();
        SharedGenerator { config, lock: RwLock::new(generator, Ghost(guards(config))) }
    }

    /// Sets up a shared generator for the given datacenter and worker, as
    /// `SnowflakeGenerator::new` does.
    pub fn new(datacenter_id: u8, worker_id: u8) -> (r: Result<SharedGenerator, GeneratorError>)
        ensures
            datacenter_id > 31 || worker_id > 31 ==> r is Err,
            r matches Ok(shared) ==> shared.wf() && shared.config() == (GeneratorConfig {
                datacenter_id,
                worker_id,
                epoch_millis: DEFAULT_EPOCH_MILLIS,
                tolerance_millis: DEFAULT_TOLERANCE_MILLIS,
            }),
            r matches Err(e) ==> e == GeneratorError::InvalidConfiguration,
    {
        match SnowflakeGenerator::new(datacenter_id, worker_id) {
            Ok(generator) => Ok(SharedGenerator::share(generator)),
            Err(e) => Err(e),
        }
    }

    /// What the generator was set up with.
    pub fn configuration(&self) -> (r: GeneratorConfig)
        ensures
            r == self.config(),
    {
        self.config
    }

    /// The next identifier. The lock is taken for each reading of the clock
    /// together with the step that follows it, and given back while the
    /// caller waits for the clock to move on; what follows each poll is for
    /// `after_poll` to say. An identifier that comes back
    /// holds this generator's datacenter and worker ids; a clock that fell
    /// back too far, or did not move on within `CLOCK_POLL_LIMIT` further
    /// readings, fails the call with `ClockRegression`.
    pub fn next_id(&self) -> (r: Result<u64, GeneratorError>)
        requires
            self.wf(),
        ensures
            r matches Ok(id) ==> {
                &&& issued_by(self.config(), id)
                &&& id <= i64::MAX
                &&& datacenter_of(id as int) == self.config().datacenter_id
                &&& worker_of(id as int) == self.config().worker_id
            },
            r matches Err(e) ==> e is ClockRegression && e->observed <= e->last
                && self.config().epoch_millis <= e->last,
    {
        let mut polls: u64 = 0;
        loop
            invariant
                self.wf(),
                polls <= CLOCK_POLL_LIMIT,
            decreases CLOCK_POLL_LIMIT - polls,
        {
            let (mut generator, handle) = self.lock.acquire_write();
            let now: u64 = now_millis();
            let ghost before = generator.state();
            let outcome = generator.poll(now);
            let last: u64 = generator.snapshot().last_timestamp;
            handle.release_write(generator);
            proof {
                if outcome is Issued {
                    lemma_issued_fields(self.config, before, now);
                    assert(tick(self.config, before, now) == outcome);
                }
            }
            match after_poll(outcome, polls, now, last) {
                Step::Done(r) => {
                    return r;
                },
                Step::ReadAgain => {
                    polls = polls + 1;
                    relax();
                },
            }
        }
    }
}

} // verus!
