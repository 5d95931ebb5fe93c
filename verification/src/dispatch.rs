//! The gateway state and dispatcher: per-backend-kind registries, the fixed
//! probe order that classifies a connection identifier, and the command path
//! of the key-value backend.

use vstd::prelude::*;

use crate::command::{tokenize, ws_tokens};
use crate::registry::Registry;
use crate::values::DbError;

verus! {

/// All live connections, segmented per backend kind: the model of the whole
/// gateway state. The shell guards each per-kind registry for concurrent
/// access — separately, via [`classify_route`] and [`plan_redis_command`],
/// so one failed guard never disables another map — and hands borrowed
/// handles to one query at a time; nothing here survives the process.
pub struct AppState<P, M, S, R> {
    pub postgres: Registry<P>,
    pub mysql: Registry<M>,
    pub sqlite: Registry<S>,
    pub redis: Registry<R>,
}

/// Which backend owns a connection identifier, per the fixed probe order.
#[derive(Debug, Clone, Copy, PartialEq, Eq, Structural)]
pub enum QueryRoute {
    Postgres,
    MySql,
    Sqlite,
    /// The identifier is registered in no relational backend map.
    NotFound,
}

/// The fixed probe order as a pure decision: given which backend maps hold
/// the identifier, the relational-typed backend wins, then the
/// flexible-typed one, then the dynamically-typed one. The shell may probe
/// each map under its own guard and classify from the findings, so one
/// poisoned guard never disables the other maps.
pub fn classify_route(in_postgres: bool, in_mysql: bool, in_sqlite: bool) -> (r: QueryRoute)
    ensures
        r == QueryRoute::Postgres <==> in_postgres,
        r == QueryRoute::MySql <==> !in_postgres && in_mysql,
        r == QueryRoute::Sqlite <==> !in_postgres && !in_mysql && in_sqlite,
        r == QueryRoute::NotFound <==> !in_postgres && !in_mysql && !in_sqlite,
{
    if in_postgres {
        QueryRoute::Postgres
    } else if in_mysql {
        QueryRoute::MySql
    } else if in_sqlite {
        QueryRoute::Sqlite
    } else {
        QueryRoute::NotFound
    }
}

/// Plans a key-value command against one backend-kind registry: checks that
/// the identifier names a live key-value client, then splits the command
/// text on whitespace into the verb and its arguments. Empty or
/// whitespace-only text is refused here, before any backend is contacted.
pub fn plan_redis_command<R>(redis: &Registry<R>, connection_id: &String, command: &str) -> (r:
    Result<Vec<String>, DbError>)
    requires
        redis.wf(),
    ensures
        !redis@.contains_key(connection_id@) ==> (r matches Err(e) && e
            is RedisConnectionNotFound),
        redis@.contains_key(connection_id@) && ws_tokens(command@).len() == 0 ==> (r matches Err(e)
            && e is EmptyCommand),
        redis@.contains_key(connection_id@) && ws_tokens(command@).len() > 0 ==> (r matches Ok(
            parts,
        ) && parts.deep_view() == ws_tokens(command@)),
{
    if !redis.contains(connection_id) {
        return Err(DbError::RedisConnectionNotFound);
    }
    let parts = tokenize(command);
    if parts.is_empty() {
        proof {
            assert(parts.deep_view().len() == parts@.len());
        }
        return Err(DbError::EmptyCommand);
    }
    proof {
        assert(parts.deep_view().len() == parts@.len());
    }
    Ok(parts)
}

impl<P, M, S, R> AppState<P, M, S, R> {
    pub open spec fn wf(&self) -> bool {
        self.postgres.wf() && self.mysql.wf() && self.sqlite.wf() && self.redis.wf()
    }

    /// A gateway with no registered connection.
    pub fn new() -> (r: AppState<P, M, S, R>)
        ensures
            r.wf(),
            r.postgres@ == Map::<Seq<char>, P>::empty(),
            r.mysql@ == Map::<Seq<char>, M>::empty(),
            r.sqlite@ == Map::<Seq<char>, S>::empty(),
            r.redis@ == Map::<Seq<char>, R>::empty(),
    {
        AppState {
            postgres: Registry::new(),
            mysql: Registry::new(),
            sqlite: Registry::new(),
            redis: Registry::new(),
        }
    }

    /// Classifies a query's connection identifier by the fixed probe order:
    /// the relational-typed map first, then the flexible-typed one, then the
    /// dynamically-typed one. The classification reads nothing but the
    /// identifier, so an unregistered identifier is refused whatever the
    /// query text.
    pub fn route_query(&self, connection_id: &String) -> (r: QueryRoute)
        requires
            self.wf(),
        ensures
            r == QueryRoute::Postgres <==> self.postgres@.contains_key(connection_id@),
            r == QueryRoute::MySql <==> !self.postgres@.contains_key(connection_id@)
                && self.mysql@.contains_key(connection_id@),
            r == QueryRoute::Sqlite <==> !self.postgres@.contains_key(connection_id@)
                && !self.mysql@.contains_key(connection_id@) && self.sqlite@.contains_key(
                connection_id@,
            ),
            r == QueryRoute::NotFound <==> !self.postgres@.contains_key(connection_id@)
                && !self.mysql@.contains_key(connection_id@) && !self.sqlite@.contains_key(
                connection_id@,
            ),
    {
        classify_route(
            self.postgres.contains(connection_id),
            self.mysql.contains(connection_id),
            self.sqlite.contains(connection_id),
        )
    }

    /// Plans a key-value command: checks that the identifier names a live
    /// key-value client, then splits the command text on whitespace into the
    /// verb and its arguments. Empty or whitespace-only text is refused here,
    /// before any backend is contacted.
    pub fn prepare_redis_command(&self, connection_id: &String, command: &str) -> (r: Result<
        Vec<String>,
        DbError,
    >)
        requires
            self.wf(),
        ensures
            !self.redis@.contains_key(connection_id@) ==> (r matches Err(e) && e
                is RedisConnectionNotFound),
            self.redis@.contains_key(connection_id@) && ws_tokens(command@).len() == 0 ==> (r
                matches Err(e) && e is EmptyCommand),
            self.redis@.contains_key(connection_id@) && ws_tokens(command@).len() > 0 ==> (r
                matches Ok(parts) && parts.deep_view() == ws_tokens(command@)),
    {
        plan_redis_command(&self.redis, connection_id, command)
    }
}

/// The acknowledgment a successful connect operation returns.
pub fn connect_ack() -> (r: String)
    ensures
        r@ == "Connected successfully"@,
{
    "Connected successfully".to_owned()
}

} // verus!
