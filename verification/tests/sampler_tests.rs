use ifstats_logger::sample::{Counters, FatalError, QueryError, StoreError};
use ifstats_logger::sampler::{
    remaining_sleep, validate_config, ConfigError, InterfaceOutcome, Sampler, SamplerConfig,
};
use ifstats_logger::shutdown::ShutdownFlag;
use ifstats_logger::store::SampleStore;

fn config(period: u64, interfaces: &[&str]) -> SamplerConfig {
    SamplerConfig {
        sample_period_seconds: period,
        interfaces: interfaces.iter().map(|s| s.to_string()).collect(),
    }
}

fn fresh_store() -> SampleStore {
    let conn = rusqlite::Connection::open_in_memory().unwrap();
    let mut store = SampleStore::new(conn);
    store.ensure_schema().unwrap();
    store
}

fn read_rows(store: SampleStore) -> Vec<(String, i64, i64)> {
    let conn = store.into_connection();
    let mut stmt = conn
        .prepare(
            "SELECT InterfaceName, ReceivedBytes, TransmittedBytes \
             FROM InterfaceMetadata ORDER BY rowid",
        )
        .unwrap();
    let rows = stmt
        .query_map([], |r| Ok((r.get(0)?, r.get(1)?, r.get(2)?)))
        .unwrap()
        .collect::<Result<Vec<_>, _>>()
        .unwrap();
    rows
}

#[test]
fn sleep_is_the_remainder_of_the_period() {
    assert_eq!(remaining_sleep(30, 12), 18);
    assert_eq!(remaining_sleep(30, 0), 30);
    assert_eq!(remaining_sleep(30, 30), 0);
    assert_eq!(remaining_sleep(30, 45), 0);
}

#[test]
fn configuration_defects_are_rejected() {
    assert_eq!(
        validate_config(&config(0, &["eth0"])),
        Err(ConfigError::ZeroSamplePeriod)
    );
    assert_eq!(validate_config(&config(30, &[])), Err(ConfigError::NoInterfaces));
    assert_eq!(
        validate_config(&config(30, &["eth0", ""])),
        Err(ConfigError::EmptyInterfaceName)
    );
    assert_eq!(validate_config(&config(30, &["eth0"])), Ok(()));
    assert!(Sampler::new(config(0, &["eth0"])).is_err());
}

#[test]
fn one_cycle_records_one_row() {
    // One configured interface whose query succeeds: after the cycle the
    // store holds exactly one row with its name and counters.
    let mut sampler = Sampler::new(config(30, &["eth0"])).unwrap();
    let mut store = fresh_store();
    let flag = ShutdownFlag::new();

    assert!(sampler.begin_cycle(&flag));
    assert!(sampler.is_mid_cycle());
    assert_eq!(sampler.current_interface().as_str(), "eth0");
    let outcome = sampler.handle_query(
        &mut store,
        Ok(Counters {
            received_bytes: 100,
            transmitted_bytes: 50,
        }),
    );
    assert_eq!(outcome, Ok(InterfaceOutcome::Sampled));
    assert!(!sampler.is_mid_cycle());
    assert!(!sampler.is_stopped());

    assert_eq!(read_rows(store), vec![("eth0".to_string(), 100, 50)]);
}

#[test]
fn rows_added_equal_successes_in_a_cycle() {
    // Three interfaces, two successes: the cycle adds exactly two rows.
    let mut sampler = Sampler::new(config(30, &["eth0", "eth1", "eth2"])).unwrap();
    let mut store = fresh_store();
    let flag = ShutdownFlag::new();

    assert!(sampler.begin_cycle(&flag));
    let r0 = sampler.handle_query(
        &mut store,
        Ok(Counters {
            received_bytes: 1,
            transmitted_bytes: 2,
        }),
    );
    assert_eq!(r0, Ok(InterfaceOutcome::Sampled));
    let r1 = sampler.handle_query(&mut store, Err(QueryError::NotFound));
    assert_eq!(r1, Ok(InterfaceOutcome::Skipped(QueryError::NotFound)));
    let r2 = sampler.handle_query(
        &mut store,
        Ok(Counters {
            received_bytes: 3,
            transmitted_bytes: 4,
        }),
    );
    assert_eq!(r2, Ok(InterfaceOutcome::Sampled));
    assert!(!sampler.is_mid_cycle());

    let rows = read_rows(store);
    assert_eq!(rows.len(), 2);
    assert_eq!(
        rows,
        vec![("eth0".to_string(), 1, 2), ("eth2".to_string(), 3, 4)]
    );
}

#[test]
fn not_found_skips_only_that_interface() {
    // A missing interface is skipped; the other one is still sampled in
    // the same cycle, and nothing stops.
    let mut sampler = Sampler::new(config(30, &["eth0", "eth1"])).unwrap();
    let mut store = fresh_store();
    let flag = ShutdownFlag::new();

    assert!(sampler.begin_cycle(&flag));
    let r0 = sampler.handle_query(&mut store, Err(QueryError::NotFound));
    assert_eq!(r0, Ok(InterfaceOutcome::Skipped(QueryError::NotFound)));
    assert!(sampler.is_mid_cycle());
    assert_eq!(sampler.current_interface().as_str(), "eth1");
    let r1 = sampler.handle_query(
        &mut store,
        Ok(Counters {
            received_bytes: 7,
            transmitted_bytes: 8,
        }),
    );
    assert_eq!(r1, Ok(InterfaceOutcome::Sampled));
    assert!(!sampler.is_stopped());

    assert_eq!(read_rows(store), vec![("eth1".to_string(), 7, 8)]);
}

#[test]
fn malformed_response_is_skipped_like_not_found() {
    let mut sampler = Sampler::new(config(30, &["eth0"])).unwrap();
    let mut store = fresh_store();
    let flag = ShutdownFlag::new();

    assert!(sampler.begin_cycle(&flag));
    let r = sampler.handle_query(&mut store, Err(QueryError::MalformedResponse));
    assert_eq!(
        r,
        Ok(InterfaceOutcome::Skipped(QueryError::MalformedResponse))
    );
    assert!(!sampler.is_stopped());
    assert_eq!(read_rows(store).len(), 0);
}

#[test]
fn transport_error_stops_the_loop_with_no_rows() {
    // A transport failure on the first interface is fatal: the sampler
    // stops, calls for a nonzero exit status, and the cycle wrote nothing.
    let mut sampler = Sampler::new(config(30, &["eth0", "eth1"])).unwrap();
    let mut store = fresh_store();
    let flag = ShutdownFlag::new();

    assert!(sampler.begin_cycle(&flag));
    let r = sampler.handle_query(&mut store, Err(QueryError::TransportError));
    assert_eq!(r, Err(FatalError::Transport));
    assert!(sampler.is_stopped());
    assert_ne!(sampler.exit_code(), 0);
    assert_eq!(read_rows(store).len(), 0);
}

#[test]
fn failed_append_is_fatal() {
    // A store without the schema makes every append fail: the first
    // success of the cycle turns into a fatal store error.
    let mut sampler = Sampler::new(config(30, &["eth0"])).unwrap();
    let conn = rusqlite::Connection::open_in_memory().unwrap();
    let mut store = SampleStore::new(conn);
    let flag = ShutdownFlag::new();

    assert!(sampler.begin_cycle(&flag));
    let r = sampler.handle_query(
        &mut store,
        Ok(Counters {
            received_bytes: 1,
            transmitted_bytes: 1,
        }),
    );
    assert_eq!(r, Err(FatalError::Store(StoreError::WriteError)));
    assert!(sampler.is_stopped());
    assert_ne!(sampler.exit_code(), 0);
}

#[test]
fn shutdown_mid_cycle_finishes_the_cycle_first() {
    // The shutdown flag is raised between the two interfaces of a cycle:
    // the second interface is still queried and written, and only the next
    // cycle boundary honors the request.
    let mut sampler = Sampler::new(config(30, &["eth0", "eth1"])).unwrap();
    let mut store = fresh_store();
    let mut flag = ShutdownFlag::new();

    assert!(sampler.begin_cycle(&flag));
    let r0 = sampler.handle_query(
        &mut store,
        Ok(Counters {
            received_bytes: 1,
            transmitted_bytes: 2,
        }),
    );
    assert_eq!(r0, Ok(InterfaceOutcome::Sampled));

    flag.signal_shutdown();
    flag.signal_shutdown();
    assert!(flag.is_shutdown_requested());

    assert!(sampler.is_mid_cycle());
    let r1 = sampler.handle_query(
        &mut store,
        Ok(Counters {
            received_bytes: 3,
            transmitted_bytes: 4,
        }),
    );
    assert_eq!(r1, Ok(InterfaceOutcome::Sampled));
    assert!(!sampler.is_mid_cycle());
    assert!(!sampler.is_stopped());

    assert!(!sampler.begin_cycle(&flag));
    assert!(sampler.is_stopped());
    assert_eq!(sampler.exit_code(), 0);

    assert_eq!(
        read_rows(store),
        vec![("eth0".to_string(), 1, 2), ("eth1".to_string(), 3, 4)]
    );
}

#[test]
fn clean_start_runs_until_shutdown() {
    // Without a shutdown request the boundary check begins a cycle; with
    // one it stops cleanly before querying anything.
    let mut sampler = Sampler::new(config(30, &["eth0"])).unwrap();
    let mut store = fresh_store();
    let mut flag = ShutdownFlag::new();

    assert!(sampler.begin_cycle(&flag));
    let r = sampler.handle_query(&mut store, Err(QueryError::NotFound));
    assert_eq!(r, Ok(InterfaceOutcome::Skipped(QueryError::NotFound)));

    flag.signal_shutdown();
    assert!(!sampler.begin_cycle(&flag));
    assert_eq!(sampler.exit_code(), 0);
    assert_eq!(read_rows(store).len(), 0);
}
