use wanderer_connector::errors::CoreError;
use wanderer_connector::pool::{
    establish_connection_pool, get_connection, AcquireAttempt, ConnectionPool, PooledConnection,
};

fn must_grant(pool: &mut ConnectionPool, waited_ms: u64) -> PooledConnection {
    match pool.poll_acquire(waited_ms) {
        AcquireAttempt::Granted(c) => c,
        _ => panic!("expected a granted connection"),
    }
}

#[test]
fn zero_capacity_is_a_configuration_error() {
    match ConnectionPool::new(0, 100) {
        Err(CoreError::ConfigurationError) => {}
        _ => panic!("expected ConfigurationError"),
    }
}

#[test]
fn establish_pool_with_positive_capacity() {
    assert!(establish_connection_pool(10, 5000).is_ok());
}

#[test]
fn outstanding_never_exceeds_capacity() {
    let mut pool = ConnectionPool::new(2, 50).unwrap();
    let _c1 = must_grant(&mut pool, 0);
    let _c2 = must_grant(&mut pool, 0);
    // The pool is full: no further poll grants a third connection.
    assert!(matches!(pool.poll_acquire(0), AcquireAttempt::Pending));
    assert!(matches!(pool.poll_acquire(49), AcquireAttempt::Pending));
    assert!(matches!(pool.poll_acquire(50), AcquireAttempt::Exhausted));
    assert!(matches!(pool.poll_acquire(500), AcquireAttempt::Exhausted));
}

#[test]
fn acquire_fails_after_timeout_and_not_before() {
    let mut pool = ConnectionPool::new(1, 200).unwrap();
    let _held = must_grant(&mut pool, 0);
    assert!(matches!(pool.poll_acquire(0), AcquireAttempt::Pending));
    assert!(matches!(pool.poll_acquire(199), AcquireAttempt::Pending));
    assert!(matches!(pool.poll_acquire(200), AcquireAttempt::Exhausted));
}

#[test]
fn release_returns_capacity() {
    let mut pool = ConnectionPool::new(1, 50).unwrap();
    let c = must_grant(&mut pool, 0);
    assert!(matches!(pool.poll_acquire(50), AcquireAttempt::Exhausted));
    pool.release(c, false);
    let _again = must_grant(&mut pool, 0);
}

#[test]
fn release_after_failure_replaces_the_connection() {
    let mut pool = ConnectionPool::new(1, 50).unwrap();
    let c = must_grant(&mut pool, 0);
    let broken_id = c.conn_id();
    pool.release(c, true);
    let replacement = must_grant(&mut pool, 0);
    assert_ne!(replacement.conn_id(), broken_id);
}

#[test]
fn get_connection_reports_pool_exhausted() {
    let mut pool = ConnectionPool::new(1, 50).unwrap();
    let _held = must_grant(&mut pool, 0);
    match get_connection(&mut pool, 50) {
        Err(CoreError::PoolExhausted) => {}
        _ => panic!("expected PoolExhausted"),
    }
}

#[test]
fn get_connection_grants_when_idle() {
    let mut pool = ConnectionPool::new(2, 50).unwrap();
    assert!(get_connection(&mut pool, 0).is_ok());
}
