use querygate::dispatch::{classify_route, connect_ack, plan_redis_command, AppState, QueryRoute};
use querygate::registry::Registry;
use querygate::values::DbError;

#[test]
fn register_then_lookup_finds_the_handle() {
    let mut r: Registry<u32> = Registry::new();
    r.register("main".to_string(), 7);
    assert_eq!(r.lookup(&"main".to_string()), Some(&7));
    assert_eq!(r.len(), 1);
}

#[test]
fn lookup_of_unregistered_identifier_is_none() {
    let r: Registry<u32> = Registry::new();
    assert_eq!(r.lookup(&"missing".to_string()), None);
    assert!(!r.contains(&"missing".to_string()));
}

#[test]
fn reconnect_supersedes_earlier_registration() {
    let mut r: Registry<u32> = Registry::new();
    r.register("db".to_string(), 1);
    r.register("db".to_string(), 2);
    assert_eq!(r.len(), 1);
    assert_eq!(r.lookup(&"db".to_string()), Some(&2));
}

#[test]
fn distinct_identifiers_keep_distinct_handles() {
    let mut r: Registry<u32> = Registry::new();
    r.register("a".to_string(), 1);
    r.register("b".to_string(), 2);
    assert_eq!(r.len(), 2);
    assert_eq!(r.lookup(&"a".to_string()), Some(&1));
    assert_eq!(r.lookup(&"b".to_string()), Some(&2));
}

#[test]
fn unregistered_identifier_routes_to_not_found() {
    let s: AppState<u32, u32, u32, u32> = AppState::new();
    assert_eq!(s.route_query(&"nope".to_string()), QueryRoute::NotFound);
    assert_eq!(
        DbError::ConnectionNotFound.message(),
        "Connection not found"
    );
}

#[test]
fn route_probes_backends_in_fixed_order() {
    let mut s: AppState<u32, u32, u32, u32> = AppState::new();
    s.sqlite.register("x".to_string(), 3);
    assert_eq!(s.route_query(&"x".to_string()), QueryRoute::Sqlite);
    s.mysql.register("x".to_string(), 2);
    assert_eq!(s.route_query(&"x".to_string()), QueryRoute::MySql);
    s.postgres.register("x".to_string(), 1);
    assert_eq!(s.route_query(&"x".to_string()), QueryRoute::Postgres);
}

#[test]
fn redis_registration_does_not_satisfy_query_routing() {
    let mut s: AppState<u32, u32, u32, u32> = AppState::new();
    s.redis.register("kv".to_string(), 9);
    assert_eq!(s.route_query(&"kv".to_string()), QueryRoute::NotFound);
}

#[test]
fn command_against_unknown_identifier_is_refused() {
    let s: AppState<u32, u32, u32, u32> = AppState::new();
    let r = s.prepare_redis_command(&"kv".to_string(), "GET k");
    assert_eq!(r, Err(DbError::RedisConnectionNotFound));
    assert_eq!(
        DbError::RedisConnectionNotFound.message(),
        "Redis connection not found"
    );
}

#[test]
fn empty_command_is_refused_before_any_backend_contact() {
    let mut s: AppState<u32, u32, u32, u32> = AppState::new();
    s.redis.register("kv".to_string(), 9);
    assert_eq!(s.prepare_redis_command(&"kv".to_string(), ""), Err(DbError::EmptyCommand));
    assert_eq!(
        s.prepare_redis_command(&"kv".to_string(), "   \t  \n "),
        Err(DbError::EmptyCommand)
    );
    assert_eq!(DbError::EmptyCommand.message(), "Empty command");
}

#[test]
fn command_text_splits_on_whitespace_runs() {
    let mut s: AppState<u32, u32, u32, u32> = AppState::new();
    s.redis.register("kv".to_string(), 9);
    let r = s.prepare_redis_command(&"kv".to_string(), "  SET\t key \n value  ");
    assert_eq!(
        r,
        Ok(vec!["SET".to_string(), "key".to_string(), "value".to_string()])
    );
}

#[test]
fn whitespace_only_unicode_command_is_refused() {
    let mut s: AppState<u32, u32, u32, u32> = AppState::new();
    s.redis.register("kv".to_string(), 9);
    assert_eq!(
        s.prepare_redis_command(&"kv".to_string(), "\u{a0}"),
        Err(DbError::EmptyCommand)
    );
    assert_eq!(
        s.prepare_redis_command(&"kv".to_string(), "GET\u{a0}key"),
        Ok(vec!["GET".to_string(), "key".to_string()])
    );
}

#[test]
fn classification_follows_the_probe_order() {
    assert_eq!(classify_route(false, false, false), QueryRoute::NotFound);
    assert_eq!(classify_route(false, false, true), QueryRoute::Sqlite);
    assert_eq!(classify_route(false, true, true), QueryRoute::MySql);
    assert_eq!(classify_route(true, true, true), QueryRoute::Postgres);
}

#[test]
fn command_planning_works_per_registry() {
    let mut r: Registry<u32> = Registry::new();
    assert_eq!(
        plan_redis_command(&r, &"kv".to_string(), "PING"),
        Err(DbError::RedisConnectionNotFound)
    );
    r.register("kv".to_string(), 1);
    assert_eq!(
        plan_redis_command(&r, &"kv".to_string(), " LPUSH q x "),
        Ok(vec!["LPUSH".to_string(), "q".to_string(), "x".to_string()])
    );
    assert_eq!(plan_redis_command(&r, &"kv".to_string(), " \t"), Err(DbError::EmptyCommand));
}

#[test]
fn driver_errors_surface_their_message_verbatim() {
    let e = DbError::Driver("connection refused".to_string());
    assert_eq!(e.message(), "connection refused");
    assert_eq!(DbError::LockPoisoned.message(), "Failed to lock mutex");
}

#[test]
fn connect_acknowledgment_text() {
    assert_eq!(connect_ack(), "Connected successfully");
}
