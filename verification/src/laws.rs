//! What holds of the identifiers that generators issue, over any run of
//! clock readings.

use crate::codec::{
    datacenter_of, lemma_unpack_pack, sequence_of, timestamp_of, worker_of, MAX_SEQUENCE,
    MAX_TIMESTAMP,
};
use crate::error::GeneratorError;
use crate::shared::issued_by;
use crate::snowflake::{
    config_valid, identifier, resolves, state_after, state_valid, tick, timestamp_delta,
    GeneratorConfig, GeneratorState, Tick,
};
use vstd::prelude::*;

verus! {

/// The identifiers that a generator in `state` issues, in order, when it is
/// polled once with each of `readings` in turn.
pub open spec fn issued(config: GeneratorConfig, state: GeneratorState, readings: Seq<u64>) -> Seq<
    u64,
>
    decreases readings.len(),
{
    if readings.len() == 0 {
        Seq::empty()
    } else {
        let rest = issued(config, state_after(state, readings[0]), readings.drop_first());
        match tick(config, state, readings[0]) {
            Tick::Issued(id) => seq![id] + rest,
            _ => rest,
        }
    }
}

/// The time from the epoch to `timestamp` fits the timestamp field.
pub open spec fn in_range(config: GeneratorConfig, timestamp: u64) -> bool {
    timestamp - config.epoch_millis <= MAX_TIMESTAMP
}

/// A poll keeps the state valid and never moves the timestamp back. Where an
/// identifier is issued, the sequence grows by one within the same
/// millisecond and starts again at zero in a later one.
pub proof fn lemma_poll_keeps_state_valid(config: GeneratorConfig, state: GeneratorState, now: u64)
    requires
        state_valid(config, state),
    ensures
        state_valid(config, state_after(state, now)),
        state.last_timestamp <= state_after(state, now).last_timestamp,
        tick(config, state, now) is Issued ==> state_after(state, now).last_timestamp == now,
        tick(config, state, now) is Issued && now == state.last_timestamp ==> state_after(
            state,
            now,
        ).sequence == state.sequence + 1,
        tick(config, state, now) is Issued && now != state.last_timestamp ==> state_after(
            state,
            now,
        ).sequence == 0,
{
}

/// Once the sequence is used up for a millisecond, nothing is issued until
/// the clock shows a later one, and the sequence then starts again at zero.
pub proof fn lemma_sequence_wraps_on_a_later_tick(
    config: GeneratorConfig,
    state: GeneratorState,
    now: u64,
)
    requires
        state_valid(config, state),
        state.sequence == MAX_SEQUENCE,
    ensures
        now <= state.last_timestamp ==> !(tick(config, state, now) is Issued),
        now == state.last_timestamp ==> tick(config, state, now) == Tick::Pending,
        tick(config, state, now) is Issued ==> state.last_timestamp < state_after(
            state,
            now,
        ).last_timestamp && state_after(state, now).sequence == 0,
{
}

/// Where the clock fell back by more than the tolerance, or has to move on
/// first, no identifier is issued and the state stays as it was.
pub proof fn lemma_no_identifier_without_progress(
    config: GeneratorConfig,
    state: GeneratorState,
    now: u64,
)
    ensures
        !(tick(config, state, now) is Issued) ==> state_after(state, now) == state,
        now < state.last_timestamp ==> !(tick(config, state, now) is Issued),
        now < state.last_timestamp && state.last_timestamp - now > config.tolerance_millis ==> tick(
            config,
            state,
            now,
        ) == (Tick::Regressed { observed: now, last: state.last_timestamp }),
{
}

/// An issued identifier holds the generator's own datacenter and worker ids,
/// the sequence number of the new state and the reading's timestamp, and
/// its top bit is clear.
pub proof fn lemma_issued_fields(config: GeneratorConfig, state: GeneratorState, now: u64)
    requires
        config_valid(config),
        state_valid(config, state),
        tick(config, state, now) is Issued,
    ensures
        ({
            let id = tick(config, state, now)->Issued_0;
            &&& id == identifier(config, state_after(state, now))
            &&& id <= i64::MAX
            &&& timestamp_of(id as int) == timestamp_delta(config, now)
            &&& datacenter_of(id as int) == config.datacenter_id
            &&& worker_of(id as int) == config.worker_id
            &&& sequence_of(id as int) == state_after(state, now).sequence
        }),
{
    let next = state_after(state, now);
    lemma_unpack_pack(
        timestamp_delta(config, next.last_timestamp),
        config.datacenter_id as int,
        config.worker_id as int,
        next.sequence as int,
    );
}

/// Within the timestamp range, an issued identifier is greater than the one
/// that stands for the state before.
pub proof fn lemma_issued_grows(config: GeneratorConfig, state: GeneratorState, now: u64)
    requires
        config_valid(config),
        state_valid(config, state),
        in_range(config, state.last_timestamp),
        in_range(config, now),
        tick(config, state, now) is Issued,
    ensures
        identifier(config, state) < tick(config, state, now)->Issued_0,
        in_range(config, state_after(state, now).last_timestamp),
{
    lemma_issued_fields(config, state, now);
}

/// A run whose readings all leave the generator waiting, but for the last,
/// issues what the last reading issues and nothing else.
pub proof fn lemma_run_after_waiting(config: GeneratorConfig, state: GeneratorState, readings: Seq<u64>)
    requires
        0 < readings.len(),
        forall|i: int|
            0 <= i < readings.len() - 1 ==> #[trigger] tick(config, state, readings[i])
                == Tick::Pending,
    ensures
        issued(config, state, readings) == match tick(config, state, readings.last()) {
            Tick::Issued(id) => seq![id],
            _ => Seq::<u64>::empty(),
        },
    decreases readings.len(),
{
    let rest = readings.drop_first();
    if readings.len() == 1 {
        assert(readings[0] == readings.last());
        assert(issued(config, state_after(state, readings[0]), rest) == Seq::<u64>::empty());
        if tick(config, state, readings[0]) is Issued {
            let id = tick(config, state, readings[0])->Issued_0;
            assert(seq![id] + Seq::<u64>::empty() == seq![id]);
        }
    } else {
        assert(tick(config, state, readings[0]) == Tick::Pending);
        assert(rest.last() == readings.last());
        assert forall|i: int| 0 <= i < rest.len() - 1 implies #[trigger] tick(
            config,
            state,
            rest[i],
        ) == Tick::Pending by {
            assert(rest[i] == readings[i + 1]);
        }
        lemma_run_after_waiting(config, state, rest);
    }
}

/// A call for the next identifier is a run over the clock readings that the
/// call made: the run issues the identifier that the call returned and no
/// other, or nothing where the call failed.
pub proof fn lemma_call_is_a_run(
    config: GeneratorConfig,
    state: GeneratorState,
    readings: Seq<u64>,
    after: GeneratorState,
    outcome: Result<u64, GeneratorError>,
)
    requires
        resolves(config, state, readings, after, outcome),
    ensures
        outcome matches Ok(id) ==> issued(config, state, readings) == seq![id],
        outcome is Err ==> issued(config, state, readings) == Seq::<u64>::empty(),
{
    lemma_run_after_waiting(config, state, readings);
}

/// Every identifier of a run holds the generator's datacenter and worker
/// ids.
pub proof fn lemma_run_carries_ids(config: GeneratorConfig, state: GeneratorState, readings: Seq<u64>)
    requires
        config_valid(config),
        state_valid(config, state),
    ensures
        forall|k: int|
            0 <= k < issued(config, state, readings).len() ==> {
                &&& datacenter_of(#[trigger] issued(config, state, readings)[k] as int)
                    == config.datacenter_id
                &&& worker_of(issued(config, state, readings)[k] as int) == config.worker_id
            },
    decreases readings.len(),
{
    if readings.len() > 0 {
        let now = readings[0];
        let ids = issued(config, state, readings);
        let tail = issued(config, state_after(state, now), readings.drop_first());
        lemma_poll_keeps_state_valid(config, state, now);
        lemma_run_carries_ids(config, state_after(state, now), readings.drop_first());
        if tick(config, state, now) is Issued {
            lemma_issued_fields(config, state, now);
            assert(ids == seq![tick(config, state, now)->Issued_0] + tail);
        } else {
            assert(ids == tail);
        }
        assert forall|k: int| 0 <= k < ids.len() implies {
            &&& datacenter_of(#[trigger] ids[k] as int) == config.datacenter_id
            &&& worker_of(ids[k] as int) == config.worker_id
        } by {
            if tick(config, state, now) is Issued && k > 0 {
                assert(ids[k] == tail[k - 1]);
            }
        }
    }
}

/// Within the timestamp range, every identifier of a run is greater than the
/// one that stands for the state the run began in.
pub proof fn lemma_run_stays_above(config: GeneratorConfig, state: GeneratorState, readings: Seq<u64>)
    requires
        config_valid(config),
        state_valid(config, state),
        in_range(config, state.last_timestamp),
        forall|k: int| 0 <= k < readings.len() ==> in_range(config, #[trigger] readings[k]),
    ensures
        forall|k: int|
            0 <= k < issued(config, state, readings).len() ==> identifier(config, state)
                < #[trigger] issued(config, state, readings)[k],
    decreases readings.len(),
{
    if readings.len() > 0 {
        let now = readings[0];
        let rest = readings.drop_first();
        lemma_poll_keeps_state_valid(config, state, now);
        assert forall|k: int| 0 <= k < rest.len() implies in_range(config, #[trigger] rest[k]) by {
            assert(rest[k] == readings[k + 1]);
        }
        let ids = issued(config, state, readings);
        let tail = issued(config, state_after(state, now), rest);
        lemma_run_stays_above(config, state_after(state, now), rest);
        if tick(config, state, now) is Issued {
            lemma_issued_grows(config, state, now);
            lemma_issued_fields(config, state, now);
            assert(ids == seq![tick(config, state, now)->Issued_0] + tail);
        } else {
            assert(ids == tail);
        }
        assert forall|k: int| 0 <= k < ids.len() implies identifier(config, state)
            < #[trigger] ids[k] by {
            if tick(config, state, now) is Issued && k > 0 {
                assert(ids[k] == tail[k - 1]);
            }
        }
    }
}

/// Monotonicity: the identifiers that one generator issues over any run of
/// clock readings within the timestamp range are strictly increasing.
pub proof fn lemma_identifiers_strictly_increase(
    config: GeneratorConfig,
    state: GeneratorState,
    readings: Seq<u64>,
)
    requires
        config_valid(config),
        state_valid(config, state),
        in_range(config, state.last_timestamp),
        forall|k: int| 0 <= k < readings.len() ==> in_range(config, #[trigger] readings[k]),
    ensures
        forall|i: int, j: int|
            0 <= i < j < issued(config, state, readings).len() ==> #[trigger] issued(
                config,
                state,
                readings,
            )[i] < #[trigger] issued(config, state, readings)[j],
    decreases readings.len(),
{
    if readings.len() > 0 {
        let now = readings[0];
        let rest = readings.drop_first();
        let next = state_after(state, now);
        lemma_poll_keeps_state_valid(config, state, now);
        assert forall|k: int| 0 <= k < rest.len() implies in_range(config, #[trigger] rest[k]) by {
            assert(rest[k] == readings[k + 1]);
        }
        let ids = issued(config, state, readings);
        let tail = issued(config, next, rest);
        lemma_identifiers_strictly_increase(config, next, rest);
        lemma_run_stays_above(config, next, rest);
        if tick(config, state, now) is Issued {
            lemma_issued_grows(config, state, now);
            lemma_issued_fields(config, state, now);
            assert(ids == seq![tick(config, state, now)->Issued_0] + tail);
        } else {
            assert(ids == tail);
        }
        assert forall|i: int, j: int| 0 <= i < j < ids.len() implies #[trigger] ids[i]
            < #[trigger] ids[j] by {
            if tick(config, state, now) is Issued {
                assert(ids[j] == tail[j - 1]);
                if i > 0 {
                    assert(ids[i] == tail[i - 1]);
                }
            }
        }
    }
}

/// Monotonicity of calls: where a generator returns one identifier and, from
/// the state that this call left, another, the later one is the greater, as
/// long as the clock stays within the timestamp range. A failed call in
/// between changes nothing, since it leaves the state as it was.
pub proof fn lemma_later_call_returns_more(
    config: GeneratorConfig,
    before: GeneratorState,
    first_readings: Seq<u64>,
    between: GeneratorState,
    first: u64,
    second_readings: Seq<u64>,
    after: GeneratorState,
    second: u64,
)
    requires
        config_valid(config),
        state_valid(config, before),
        resolves(config, before, first_readings, between, Ok(first)),
        resolves(config, between, second_readings, after, Ok(second)),
        in_range(config, first_readings.last()),
        in_range(config, second_readings.last()),
    ensures
        first < second,
{
    lemma_poll_keeps_state_valid(config, before, first_readings.last());
    lemma_issued_fields(config, before, first_readings.last());
    lemma_issued_grows(config, between, second_readings.last());
}

/// Uniqueness across shared generators: identifiers that two generators
/// issued, each in one step from some valid state, differ where the
/// generators' `(datacenter, worker)` pairs differ.
pub proof fn lemma_issued_by_distinct_generators_differ(
    first: GeneratorConfig,
    first_id: u64,
    second: GeneratorConfig,
    second_id: u64,
)
    requires
        config_valid(first),
        config_valid(second),
        issued_by(first, first_id),
        issued_by(second, second_id),
        first.datacenter_id != second.datacenter_id || first.worker_id != second.worker_id,
    ensures
        first_id != second_id,
{
    let (a, now_a) = choose|before: GeneratorState, now: u64|
        state_valid(first, before) && #[trigger] tick(first, before, now) == Tick::Issued(first_id);
    let (b, now_b) = choose|before: GeneratorState, now: u64|
        state_valid(second, before) && #[trigger] tick(second, before, now) == Tick::Issued(
            second_id,
        );
    lemma_issued_fields(first, a, now_a);
    lemma_issued_fields(second, b, now_b);
}

/// Uniqueness: two generators whose `(datacenter, worker)` pairs differ never
/// issue the same identifier, whatever their states and whatever their
/// clocks show.
pub proof fn lemma_distinct_generators_never_collide(
    first: GeneratorConfig,
    first_state: GeneratorState,
    first_readings: Seq<u64>,
    second: GeneratorConfig,
    second_state: GeneratorState,
    second_readings: Seq<u64>,
)
    requires
        config_valid(first),
        state_valid(first, first_state),
        config_valid(second),
        state_valid(second, second_state),
        first.datacenter_id != second.datacenter_id || first.worker_id != second.worker_id,
    ensures
        forall|i: int, j: int|
            0 <= i < issued(first, first_state, first_readings).len() && 0 <= j < issued(
                second,
                second_state,
                second_readings,
            ).len() ==> #[trigger] issued(first, first_state, first_readings)[i]
                != #[trigger] issued(second, second_state, second_readings)[j],
{
    lemma_run_carries_ids(first, first_state, first_readings);
    lemma_run_carries_ids(second, second_state, second_readings);
}

} // verus!
