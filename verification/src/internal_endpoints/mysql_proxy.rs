//! A proxy in front of a MySQL executor: before the query runs, it injects
//! the server's internal parameters (the names of the tables that hold
//! users, sessions and roles) into the request.
use vstd::prelude::*;

use crate::pipeline::{ParamValue, ParamView, RequestParams};

verus! {

/// A MySQL executor: the SQL query that it runs.
#[derive(Clone, Debug, PartialEq, Eq)]
pub struct MySQLExecutor {
    pub query: String,
}

impl MySQLExecutor {
    /// The executor that runs `query`.
    pub fn from_query(query: String) -> (res: MySQLExecutor)
        ensures
            res.query@ == query@,
    {
        MySQLExecutor { query }
    }
}

/// Proxies MySQL execute queries and injects internal params on runtime.
#[derive(Clone, Debug, PartialEq, Eq)]
pub struct MySQLExecutorProxy(pub MySQLExecutor);

/// The internal parameters that the server's configuration holds.
#[derive(Clone, Debug, PartialEq, Eq)]
pub struct InternalParams {
    pub users_target_table: String,
    pub sessions_target_table: String,
    pub roles_target_table: String,
}

/// The parameters of a request once the internal ones are injected: each
/// table name set as an internal value, whatever the client sent under it.
pub open spec fn with_internal_params(
    params: Map<Seq<char>, ParamView>,
    users: Seq<char>,
    sessions: Seq<char>,
    roles: Seq<char>,
) -> Map<Seq<char>, ParamView> {
    params.insert("users_target_table"@, ParamView::Internal(users)).insert(
        "sessions_target_table"@,
        ParamView::Internal(sessions),
    ).insert("roles_target_table"@, ParamView::Internal(roles))
}

/// The query of the executor that a proxy runs when none is configured.
pub open spec fn example_query() -> Seq<char> {
    "SELECT * FROM example"@
}

impl Default for MySQLExecutorProxy {
    /// The proxy in front of an executor of the example query.
    fn default() -> (res: MySQLExecutorProxy)
        ensures
            res.0.query@ == example_query(),
    {
        MySQLExecutorProxy(MySQLExecutor::from_query("SELECT * FROM example".to_owned()))
    }
}

impl From<MySQLExecutor> for MySQLExecutorProxy {
    /// The proxy in front of `execute`.
    fn from(execute: MySQLExecutor) -> (res: MySQLExecutorProxy) {
        MySQLExecutorProxy(execute)
    }
}

impl vstd::std_specs::convert::FromSpecImpl<MySQLExecutor> for MySQLExecutorProxy {
    open spec fn obeys_from_spec() -> bool {
        true
    }

    open spec fn from_spec(execute: MySQLExecutor) -> MySQLExecutorProxy {
        MySQLExecutorProxy(execute)
    }
}

impl MySQLExecutorProxy {
    /// The executor behind the proxy.
    pub fn executor(&self) -> (res: &MySQLExecutor)
        ensures
            *res == self.0,
    {
        &self.0
    }

    /// The name under which the executor is registered.
    pub fn name(&self) -> (res: &'static str)
        ensures
            res@ == "silence_mysql_proxy"@,
    {
        "silence_mysql_proxy"
    }

    /// Injects the internal parameters into a request's parameters, before
    /// the request goes on to the executor behind the proxy.
    pub fn inject_internal_params(&self, params: &mut RequestParams, internal: &InternalParams)
        requires
            old(params).wf(),
        ensures
            final(params).wf(),
            final(params)@ == with_internal_params(
                old(params)@,
                internal.users_target_table@,
                internal.sessions_target_table@,
                internal.roles_target_table@,
            ),
    {
        params.insert(
            "users_target_table".to_owned(),
            ParamValue::Internal(internal.users_target_table.clone()),
        );
        params.insert(
            "sessions_target_table".to_owned(),
            ParamValue::Internal(internal.sessions_target_table.clone()),
        );
        params.insert(
            "roles_target_table".to_owned(),
            ParamValue::Internal(internal.roles_target_table.clone()),
        );
    }
}

/// The names of the three internal parameters differ.
proof fn lemma_internal_names_differ()
    ensures
        "users_target_table"@ != "sessions_target_table"@,
        "users_target_table"@ != "roles_target_table"@,
        "sessions_target_table"@ != "roles_target_table"@,
{
    reveal_strlit("users_target_table");
    reveal_strlit("sessions_target_table");
    reveal_strlit("roles_target_table");
    assert("users_target_table"@[0] != "sessions_target_table"@[0]);
    assert("users_target_table"@[0] != "roles_target_table"@[0]);
    assert("sessions_target_table"@[0] != "roles_target_table"@[0]);
}

/// After injection, each table name reads back as the server's internal
/// value, whatever the client sent under that name, and every other
/// parameter is the one the client sent.
pub proof fn lemma_injected_params(
    params: Map<Seq<char>, ParamView>,
    users: Seq<char>,
    sessions: Seq<char>,
    roles: Seq<char>,
    other: Seq<char>,
)
    requires
        other != "users_target_table"@,
        other != "sessions_target_table"@,
        other != "roles_target_table"@,
    ensures
        with_internal_params(params, users, sessions, roles)["users_target_table"@]
            == ParamView::Internal(users),
        with_internal_params(params, users, sessions, roles)["sessions_target_table"@]
            == ParamView::Internal(sessions),
        with_internal_params(params, users, sessions, roles)["roles_target_table"@]
            == ParamView::Internal(roles),
        with_internal_params(params, users, sessions, roles).contains_key(other)
            == params.contains_key(other),
        params.contains_key(other) ==> with_internal_params(params, users, sessions, roles)[other]
            == params[other],
{
    lemma_internal_names_differ();
}

/// Injecting the same internal parameters twice is the same as injecting
/// them once.
pub proof fn lemma_injection_idempotent(
    params: Map<Seq<char>, ParamView>,
    users: Seq<char>,
    sessions: Seq<char>,
    roles: Seq<char>,
)
    ensures
        with_internal_params(with_internal_params(params, users, sessions, roles), users, sessions, roles)
            == with_internal_params(params, users, sessions, roles),
{
    lemma_internal_names_differ();
    assert(with_internal_params(with_internal_params(params, users, sessions, roles), users, sessions, roles)
        =~= with_internal_params(params, users, sessions, roles));
}

} // verus!
