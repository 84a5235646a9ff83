//! The endpoint definitions that the server runs, as far as Silence reads
//! and writes them: identity, databases, description, authentication, and
//! what the endpoint executes when it is called over HTTP.
use vstd::prelude::*;

use crate::internal_endpoints::mysql_proxy::{MySQLExecutor, MySQLExecutorProxy};
use crate::pipeline::HttpMethod;

verus! {

/// Who may call an endpoint.
#[derive(Clone, Copy, Debug, PartialEq, Eq, Structural)]
pub enum AuthLevel {
    /// Anyone; no session is looked at.
    Open,
    /// Anyone; the caller's session, when there is one, is passed on.
    InjectWhenAvailable,
    /// Only a caller with a session.
    Required,
}

/// The authentication settings of an endpoint.
#[derive(Clone, Debug, PartialEq, Eq)]
pub struct Auth {
    pub level: AuthLevel,
    pub allowed_roles: Vec<String>,
}

/// What a step of an endpoint's pipeline executes: a MySQL executor, one
/// behind a proxy, or any other kind of executor.
#[derive(Clone, Debug, PartialEq, Eq)]
pub enum Executor {
    MySql(MySQLExecutor),
    MySqlProxy(MySQLExecutorProxy),
    Other,
}

/// A step of an endpoint's execution pipeline.
#[derive(Clone, Debug, PartialEq, Eq)]
pub struct ExecutionStep {
    pub executor: Executor,
}

/// An endpoint served over HTTP.
#[derive(Clone, Debug, PartialEq, Eq)]
pub struct HttpTarget {
    pub route: String,
    pub version: Option<String>,
    pub method: HttpMethod,
    pub query_params: Vec<String>,
    pub body_params: Vec<String>,
    pub auto_generated: bool,
    pub execution_pipeline: Option<ExecutionStep>,
}

/// How an endpoint is reached: over HTTP, or over a socket.
#[derive(Clone, Debug, PartialEq, Eq)]
pub enum ExecutionTarget {
    Http(HttpTarget),
    Socket,
}

/// An endpoint definition.
#[derive(Clone, Debug, PartialEq, Eq)]
pub struct Endpoint {
    pub id: String,
    pub databases: Vec<String>,
    pub description: Option<String>,
    pub auth: Auth,
    pub execution_target: ExecutionTarget,
}

// ---- Views ------------------------------------------------------------------

/// An optional text taken as a sequence of characters.
pub open spec fn opt_text(o: Option<String>) -> Option<Seq<char>> {
    match o {
        Some(s) => Some(s@),
        None => None,
    }
}

pub struct AuthView {
    pub level: AuthLevel,
    pub allowed_roles: Seq<Seq<char>>,
}

/// An executor, each MySQL one by the query it runs.
pub enum ExecutorView {
    MySql(Seq<char>),
    MySqlProxy(Seq<char>),
    Other,
}

pub struct HttpTargetView {
    pub route: Seq<char>,
    pub version: Option<Seq<char>>,
    pub method: HttpMethod,
    pub query_params: Seq<Seq<char>>,
    pub body_params: Seq<Seq<char>>,
    pub auto_generated: bool,
    pub execution_pipeline: Option<ExecutorView>,
}

pub enum ExecutionTargetView {
    Http(HttpTargetView),
    Socket,
}

pub struct EndpointView {
    pub id: Seq<char>,
    pub databases: Seq<Seq<char>>,
    pub description: Option<Seq<char>>,
    pub auth: AuthView,
    pub execution_target: ExecutionTargetView,
}

impl View for Auth {
    type V = AuthView;

    open spec fn view(&self) -> AuthView {
        AuthView { level: self.level, allowed_roles: self.allowed_roles.deep_view() }
    }
}

impl View for Executor {
    type V = ExecutorView;

    open spec fn view(&self) -> ExecutorView {
        match self {
            Executor::MySql(e) => ExecutorView::MySql(e.query@),
            Executor::MySqlProxy(p) => ExecutorView::MySqlProxy(p.0.query@),
            Executor::Other => ExecutorView::Other,
        }
    }
}

impl View for HttpTarget {
    type V = HttpTargetView;

    open spec fn view(&self) -> HttpTargetView {
        HttpTargetView {
            route: self.route@,
            version: opt_text(self.version),
            method: self.method,
            query_params: self.query_params.deep_view(),
            body_params: self.body_params.deep_view(),
            auto_generated: self.auto_generated,
            execution_pipeline: match self.execution_pipeline {
                Some(step) => Some(step.executor@),
                None => None,
            },
        }
    }
}

impl View for ExecutionTarget {
    type V = ExecutionTargetView;

    open spec fn view(&self) -> ExecutionTargetView {
        match self {
            ExecutionTarget::Http(t) => ExecutionTargetView::Http(t@),
            ExecutionTarget::Socket => ExecutionTargetView::Socket,
        }
    }
}

impl View for Endpoint {
    type V = EndpointView;

    open spec fn view(&self) -> EndpointView {
        EndpointView {
            id: self.id@,
            databases: self.databases.deep_view(),
            description: opt_text(self.description),
            auth: self.auth@,
            execution_target: self.execution_target@,
        }
    }
}

// ---- Copies -----------------------------------------------------------------

/// A copy of a list of texts.
pub fn copy_texts(v: &Vec<String>) -> (res: Vec<String>)
    ensures
        res.deep_view() == v.deep_view(),
{
    let mut res: Vec<String> = Vec::new();
    let mut i: usize = 0;
    while i < v.len()
        invariant
            i <= v.len(),
            res.deep_view() =~= v.deep_view().take(i as int),
        decreases v.len() - i,
    {
        let ghost before = res.deep_view();
        res.push(v[i].clone());
        assert(res.deep_view() =~= before.push(v@[i as int]@));
        assert(v.deep_view().take(i + 1) =~= v.deep_view().take(i as int).push(v@[i as int]@));
        i = i + 1;
    }
    assert(v.deep_view().take(v.len() as int) =~= v.deep_view());
    res
}

/// A copy of an optional text.
pub fn copy_opt_text(o: &Option<String>) -> (res: Option<String>)
    ensures
        opt_text(res) == opt_text(*o),
{
    match o {
        Some(s) => Some(s.clone()),
        None => None,
    }
}

/// A copy of a MySQL executor.
pub fn copy_executor(e: &MySQLExecutor) -> (res: MySQLExecutor)
    ensures
        res.query@ == e.query@,
{
    MySQLExecutor { query: e.query.clone() }
}

} // verus!
