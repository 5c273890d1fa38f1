use wanderer_connector::errors::CoreError;
use wanderer_connector::model::{NewUser, UpdateUser};
use wanderer_connector::pool::ConnectionPool;
use wanderer_connector::repository::UserRepository;
use wanderer_connector::table::UserTable;

fn fixtures() -> (ConnectionPool, UserTable) {
    (ConnectionPool::new(4, 100).unwrap(), UserTable::new())
}

fn new_user(name: &str, email: &str) -> NewUser {
    NewUser { name: name.to_string(), email: email.to_string() }
}

#[test]
fn create_then_get_round_trip() {
    let (mut pool, mut table) = fixtures();
    let created =
        UserRepository::create_user(&mut pool, &mut table, 0, true, &new_user("alice", "alice@example.com"), 7, 100)
            .unwrap();
    assert_eq!(created.id, 7);
    assert_eq!(created.name, "alice");
    assert_eq!(created.email, "alice@example.com");
    assert_eq!(created.created_at, 100);
    assert_eq!(created.updated_at, 100);
    let fetched = UserRepository::get_user_by_id(&mut pool, &table, 0, true, 7).unwrap();
    assert_eq!(fetched, created);
}

#[test]
fn create_duplicate_identity_is_a_conflict() {
    let (mut pool, mut table) = fixtures();
    UserRepository::create_user(&mut pool, &mut table, 0, true, &new_user("a", "a@x"), 1, 10).unwrap();
    match UserRepository::create_user(&mut pool, &mut table, 0, true, &new_user("b", "b@x"), 1, 20) {
        Err(CoreError::Conflict) => {}
        _ => panic!("expected Conflict"),
    }
    // The failed create left the table unchanged.
    let kept = UserRepository::get_user_by_id(&mut pool, &table, 0, true, 1).unwrap();
    assert_eq!(kept.name, "a");
}

#[test]
fn get_missing_identity_is_not_found() {
    let (mut pool, table) = fixtures();
    match UserRepository::get_user_by_id(&mut pool, &table, 0, true, 42) {
        Err(CoreError::NotFound) => {}
        _ => panic!("expected NotFound"),
    }
}

#[test]
fn partial_update_keeps_unset_fields() {
    let (mut pool, mut table) = fixtures();
    UserRepository::create_user(&mut pool, &mut table, 0, true, &new_user("carol", "carol@x"), 3, 50).unwrap();
    let only_name = UpdateUser { name: Some("caroline".to_string()), email: None };
    let updated =
        UserRepository::update_user(&mut pool, &mut table, 0, true, 3, &only_name, 60).unwrap();
    assert_eq!(updated.name, "caroline");
    assert_eq!(updated.email, "carol@x");
    assert_eq!(updated.created_at, 50);
    assert_eq!(updated.updated_at, 60);
}

#[test]
fn partial_update_twice_yields_same_state() {
    let (mut pool, mut table) = fixtures();
    UserRepository::create_user(&mut pool, &mut table, 0, true, &new_user("dan", "dan@x"), 4, 50).unwrap();
    let only_email = UpdateUser { name: None, email: Some("dan@y".to_string()) };
    let once = UserRepository::update_user(&mut pool, &mut table, 0, true, 4, &only_email, 70).unwrap();
    let twice = UserRepository::update_user(&mut pool, &mut table, 0, true, 4, &only_email, 70).unwrap();
    assert_eq!(once, twice);
    let fetched = UserRepository::get_user_by_id(&mut pool, &table, 0, true, 4).unwrap();
    assert_eq!(fetched, once);
}

#[test]
fn update_missing_identity_is_not_found() {
    let (mut pool, mut table) = fixtures();
    let up = UpdateUser { name: Some("x".to_string()), email: None };
    match UserRepository::update_user(&mut pool, &mut table, 0, true, 9, &up, 5) {
        Err(CoreError::NotFound) => {}
        _ => panic!("expected NotFound"),
    }
}

#[test]
fn delete_missing_identity_is_false_never_internal() {
    let (mut pool, mut table) = fixtures();
    match UserRepository::delete_user(&mut pool, &mut table, 0, true, 999) {
        Ok(false) => {}
        Ok(true) => panic!("nothing to delete"),
        Err(e) => panic!("expected Ok(false), got error {:?}", e),
    }
}

#[test]
fn delete_existing_identity_then_it_is_gone() {
    let (mut pool, mut table) = fixtures();
    UserRepository::create_user(&mut pool, &mut table, 0, true, &new_user("eve", "eve@x"), 5, 10).unwrap();
    assert_eq!(UserRepository::delete_user(&mut pool, &mut table, 0, true, 5).unwrap(), true);
    assert_eq!(UserRepository::delete_user(&mut pool, &mut table, 0, true, 5).unwrap(), false);
    match UserRepository::get_user_by_id(&mut pool, &table, 0, true, 5) {
        Err(CoreError::NotFound) => {}
        _ => panic!("expected NotFound after delete"),
    }
}

#[test]
fn list_all_in_insertion_order() {
    let (mut pool, mut table) = fixtures();
    UserRepository::create_user(&mut pool, &mut table, 0, true, &new_user("u1", "u1@x"), 1, 1).unwrap();
    UserRepository::create_user(&mut pool, &mut table, 0, true, &new_user("u2", "u2@x"), 2, 2).unwrap();
    UserRepository::create_user(&mut pool, &mut table, 0, true, &new_user("u3", "u3@x"), 3, 3).unwrap();
    let all = UserRepository::get_all_users(&mut pool, &table, 0, true).unwrap();
    let ids: Vec<u128> = all.iter().map(|u| u.id).collect();
    assert_eq!(ids, vec![1, 2, 3]);
}

#[test]
fn link_loss_surfaces_connection_lost_and_changes_nothing() {
    let (mut pool, mut table) = fixtures();
    UserRepository::create_user(&mut pool, &mut table, 0, true, &new_user("f", "f@x"), 6, 1).unwrap();
    match UserRepository::create_user(&mut pool, &mut table, 0, false, &new_user("g", "g@x"), 7, 2) {
        Err(CoreError::ConnectionLost) => {}
        _ => panic!("expected ConnectionLost"),
    }
    match UserRepository::delete_user(&mut pool, &mut table, 0, false, 6) {
        Err(CoreError::ConnectionLost) => {}
        _ => panic!("expected ConnectionLost"),
    }
    // The table is untouched and the pool still has its full capacity.
    let all = UserRepository::get_all_users(&mut pool, &table, 0, true).unwrap();
    assert_eq!(all.len(), 1);
}

#[test]
fn full_pool_propagates_pool_exhausted() {
    let mut pool = ConnectionPool::new(1, 100).unwrap();
    let mut table = UserTable::new();
    let held = match pool.poll_acquire(0) {
        wanderer_connector::pool::AcquireAttempt::Granted(c) => c,
        _ => panic!("expected a connection"),
    };
    match UserRepository::get_user_by_id(&mut pool, &table, 100, true, 1) {
        Err(CoreError::PoolExhausted) => {}
        _ => panic!("expected PoolExhausted"),
    }
    pool.release(held, false);
    // With the connection back, operations proceed again.
    match UserRepository::delete_user(&mut pool, &mut table, 0, true, 1) {
        Ok(false) => {}
        _ => panic!("expected Ok(false)"),
    }
}

#[test]
fn operations_release_their_connection_on_every_path() {
    let mut pool = ConnectionPool::new(1, 100).unwrap();
    let mut table = UserTable::new();
    // Success, logical failure and link failure all hand the single
    // connection back: a pool of one keeps serving.
    UserRepository::create_user(&mut pool, &mut table, 0, true, &new_user("h", "h@x"), 8, 1).unwrap();
    let _ = UserRepository::get_user_by_id(&mut pool, &table, 0, true, 77);
    let _ = UserRepository::create_user(&mut pool, &mut table, 0, false, &new_user("i", "i@x"), 9, 2);
    let _ = UserRepository::update_user(
        &mut pool,
        &mut table,
        0,
        true,
        8,
        &UpdateUser { name: None, email: None },
        3,
    );
    assert!(UserRepository::get_user_by_id(&mut pool, &table, 0, true, 8).is_ok());
}
