use galactus_core::codec::decode;
use galactus_core::error::GeneratorError;
use galactus_core::shared::SharedGenerator;
use galactus_core::snowflake::{
    GeneratorConfig, SnowflakeGenerator, DEFAULT_EPOCH_MILLIS, DEFAULT_TOLERANCE_MILLIS,
};
use std::sync::Arc;

#[test]
fn shared_construction_bounds() {
    assert!(matches!(SharedGenerator::new(32, 0), Err(GeneratorError::InvalidConfiguration)));
    assert!(matches!(SharedGenerator::new(0, 32), Err(GeneratorError::InvalidConfiguration)));
    assert!(SharedGenerator::new(31, 31).is_ok());
}

#[test]
fn shared_generator_keeps_its_configuration() {
    let shared: SharedGenerator = SharedGenerator::new(6, 7).unwrap();
    let config: GeneratorConfig = shared.configuration();
    assert_eq!(config.datacenter_id, 6);
    assert_eq!(config.worker_id, 7);
    assert_eq!(config.epoch_millis, DEFAULT_EPOCH_MILLIS);
    assert_eq!(config.tolerance_millis, DEFAULT_TOLERANCE_MILLIS);
}

#[test]
fn shared_next_id_increases_through_a_shared_reference() {
    let shared: Arc<SharedGenerator> = Arc::new(SharedGenerator::new(6, 7).unwrap());
    let other: Arc<SharedGenerator> = shared.clone();
    let mut previous: u64 = 0;
    for round in 0..6_000 {
        let id: u64 = if round % 2 == 0 { shared.next_id().unwrap() } else { other.next_id().unwrap() };
        assert!(id > previous);
        let (_, datacenter, worker, _) = decode(id);
        assert_eq!((datacenter, worker), (6, 7));
        previous = id;
    }
}

#[test]
fn shared_generator_continues_where_the_owned_one_stood() {
    let config: GeneratorConfig = GeneratorConfig {
        datacenter_id: 1,
        worker_id: 2,
        epoch_millis: DEFAULT_EPOCH_MILLIS,
        tolerance_millis: 5,
    };
    let mut owned = SnowflakeGenerator::with_config(config).unwrap();
    let first: u64 = owned.next_id().unwrap();
    let shared: SharedGenerator = SharedGenerator::share(owned);
    let second: u64 = shared.next_id().unwrap();
    assert!(second > first);
}

#[test]
fn shared_next_id_reports_a_clock_far_behind() {
    let config: GeneratorConfig = GeneratorConfig {
        datacenter_id: 1,
        worker_id: 2,
        epoch_millis: DEFAULT_EPOCH_MILLIS,
        tolerance_millis: 5,
    };
    let ahead: u64 = DEFAULT_EPOCH_MILLIS + (1 << 40);
    let mut owned = SnowflakeGenerator::with_config_at(config, ahead).unwrap();
    owned.poll(ahead);
    let shared: SharedGenerator = SharedGenerator::share(owned);
    match shared.next_id() {
        Err(GeneratorError::ClockRegression { observed, last }) => {
            assert_eq!(last, ahead);
            assert!(observed < last);
        }
        other => panic!("expected a clock regression, got {:?}", other),
    }
    match shared.next_id() {
        Err(GeneratorError::ClockRegression { last, .. }) => assert_eq!(last, ahead),
        other => panic!("expected a clock regression, got {:?}", other),
    }
}
