//! Silence's flat description of an endpoint, and its conversions to and
//! from the endpoint definitions that the server runs.
use vstd::prelude::*;

use crate::endpoint::{
    copy_executor, copy_opt_text, copy_texts, opt_text, Auth, AuthLevel, AuthView, Endpoint,
    EndpointView, ExecutionStep, ExecutionTarget, ExecutionTargetView, Executor, ExecutorView,
    HttpTarget, HttpTargetView,
};
use crate::internal_endpoints::mysql_proxy::{example_query, MySQLExecutor, MySQLExecutorProxy};
use crate::pipeline::HttpMethod;

verus! {

/// Silence's endpoint.
#[derive(Clone, Debug, PartialEq, Eq)]
pub struct SimpleEndpoint {
    id: String,
    database: Option<String>,
    route: String,
    version: Option<String>,
    method: HttpMethod,
    query_params: Vec<String>,
    body_params: Vec<String>,
    execute: Option<MySQLExecutorProxy>,
    description: Option<String>,
    require_auth: bool,
    inject_auth_metadata: bool,
    allowed_roles: Vec<String>,
    auto_generated: bool,
}

/// A simple endpoint with its texts taken as sequences of characters, and
/// its executor as the query that the executor behind the proxy runs.
pub struct SimpleEndpointView {
    pub id: Seq<char>,
    pub database: Option<Seq<char>>,
    pub route: Seq<char>,
    pub version: Option<Seq<char>>,
    pub method: HttpMethod,
    pub query_params: Seq<Seq<char>>,
    pub body_params: Seq<Seq<char>>,
    pub execute: Option<Seq<char>>,
    pub description: Option<Seq<char>>,
    pub require_auth: bool,
    pub inject_auth_metadata: bool,
    pub allowed_roles: Seq<Seq<char>>,
    pub auto_generated: bool,
}

impl View for SimpleEndpoint {
    type V = SimpleEndpointView;

    closed spec fn view(&self) -> SimpleEndpointView {
        SimpleEndpointView {
            id: self.id@,
            database: opt_text(self.database),
            route: self.route@,
            version: opt_text(self.version),
            method: self.method,
            query_params: self.query_params.deep_view(),
            body_params: self.body_params.deep_view(),
            execute: match self.execute {
                Some(p) => Some(p.0.query@),
                None => None,
            },
            description: opt_text(self.description),
            require_auth: self.require_auth,
            inject_auth_metadata: self.inject_auth_metadata,
            allowed_roles: self.allowed_roles.deep_view(),
            auto_generated: self.auto_generated,
        }
    }
}

/// The endpoint that a fresh description stands for.
pub open spec fn default_endpoint() -> SimpleEndpointView {
    SimpleEndpointView {
        id: "Example"@,
        database: None,
        route: "my_endpoint"@,
        version: Some("v1"@),
        method: HttpMethod::Get,
        query_params: Seq::empty(),
        body_params: Seq::empty(),
        execute: Some(example_query()),
        description: None,
        require_auth: false,
        inject_auth_metadata: false,
        allowed_roles: Seq::empty(),
        auto_generated: false,
    }
}

/// Who may call an endpoint whose description requires authentication or
/// asks for the caller's session to be passed on; requiring wins.
pub open spec fn auth_level_of(require_auth: bool, inject_auth_metadata: bool) -> AuthLevel {
    if require_auth {
        AuthLevel::Required
    } else if inject_auth_metadata {
        AuthLevel::InjectWhenAvailable
    } else {
        AuthLevel::Open
    }
}

/// The endpoint definition that a description stands for. It names no
/// database, and it is not marked as generated.
pub open spec fn endpoint_of(s: SimpleEndpointView) -> EndpointView {
    EndpointView {
        id: s.id,
        databases: Seq::empty(),
        description: s.description,
        auth: AuthView {
            level: auth_level_of(s.require_auth, s.inject_auth_metadata),
            allowed_roles: s.allowed_roles,
        },
        execution_target: ExecutionTargetView::Http(
            HttpTargetView {
                route: s.route,
                version: s.version,
                method: s.method,
                query_params: s.query_params,
                body_params: s.body_params,
                auto_generated: false,
                execution_pipeline: match s.execute {
                    Some(q) => Some(ExecutorView::MySqlProxy(q)),
                    None => None,
                },
            },
        ),
    }
}

/// The query that an endpoint's pipeline runs through MySQL, directly or
/// behind a proxy, if it runs one.
pub open spec fn mysql_query_of(t: HttpTargetView) -> Option<Seq<char>> {
    match t.execution_pipeline {
        Some(ExecutorView::MySql(q)) => Some(q),
        Some(ExecutorView::MySqlProxy(q)) => Some(q),
        _ => None,
    }
}

/// The description of an endpoint definition. Of its databases, only the
/// first is kept; an endpoint reached over a socket is described by the
/// route `websockets` and the version `upgrade`.
pub open spec fn simple_of(e: EndpointView) -> SimpleEndpointView {
    SimpleEndpointView {
        id: e.id,
        database: if e.databases.len() > 0 {
            Some(e.databases[0])
        } else {
            None
        },
        route: match e.execution_target {
            ExecutionTargetView::Http(t) => t.route,
            ExecutionTargetView::Socket => "websockets"@,
        },
        version: match e.execution_target {
            ExecutionTargetView::Http(t) => t.version,
            ExecutionTargetView::Socket => Some("upgrade"@),
        },
        method: match e.execution_target {
            ExecutionTargetView::Http(t) => t.method,
            ExecutionTargetView::Socket => HttpMethod::Get,
        },
        query_params: match e.execution_target {
            ExecutionTargetView::Http(t) => t.query_params,
            ExecutionTargetView::Socket => Seq::empty(),
        },
        body_params: match e.execution_target {
            ExecutionTargetView::Http(t) => t.body_params,
            ExecutionTargetView::Socket => Seq::empty(),
        },
        execute: match e.execution_target {
            ExecutionTargetView::Http(t) => mysql_query_of(t),
            ExecutionTargetView::Socket => None,
        },
        description: e.description,
        require_auth: e.auth.level == AuthLevel::Required,
        inject_auth_metadata: e.auth.level == AuthLevel::InjectWhenAvailable,
        allowed_roles: e.auth.allowed_roles,
        auto_generated: match e.execution_target {
            ExecutionTargetView::Http(t) => t.auto_generated,
            ExecutionTargetView::Socket => false,
        },
    }
}

/// The error type of the conversion of an endpoint definition to a
/// description; the conversion never fails.
#[derive(Clone, Copy, Debug, PartialEq, Eq, Structural)]
pub struct ConversionError;

/// The error type of a builder; building never fails, as every part has a
/// default.
#[derive(Clone, Copy, Debug, PartialEq, Eq, Structural)]
pub struct SimpleEndpointBuilderError;

/// A builder of simple endpoints: every part left unset is taken from the
/// default endpoint.
#[derive(Clone, Debug)]
pub struct SimpleEndpointBuilder {
    id: Option<String>,
    database: Option<Option<String>>,
    route: Option<String>,
    version: Option<Option<String>>,
    method: Option<HttpMethod>,
    query_params: Option<Vec<String>>,
    body_params: Option<Vec<String>>,
    execute: Option<Option<MySQLExecutorProxy>>,
    description: Option<Option<String>>,
    require_auth: Option<bool>,
    inject_auth_metadata: Option<bool>,
    allowed_roles: Option<Vec<String>>,
    auto_generated: Option<bool>,
}

/// The parts set on a builder; an optional part, once set, is present.
pub struct SimpleEndpointBuilderView {
    pub id: Option<Seq<char>>,
    pub database: Option<Seq<char>>,
    pub route: Option<Seq<char>>,
    pub version: Option<Seq<char>>,
    pub method: Option<HttpMethod>,
    pub query_params: Option<Seq<Seq<char>>>,
    pub body_params: Option<Seq<Seq<char>>>,
    pub execute: Option<Seq<char>>,
    pub description: Option<Seq<char>>,
    pub require_auth: Option<bool>,
    pub inject_auth_metadata: Option<bool>,
    pub allowed_roles: Option<Seq<Seq<char>>>,
    pub auto_generated: Option<bool>,
}

impl View for SimpleEndpointBuilder {
    type V = SimpleEndpointBuilderView;

    closed spec fn view(&self) -> SimpleEndpointBuilderView {
        SimpleEndpointBuilderView {
            id: match self.id {
                Some(t) => Some(t@),
                None => None,
            },
            database: match self.database {
                Some(Some(t)) => Some(t@),
                _ => None,
            },
            route: match self.route {
                Some(t) => Some(t@),
                None => None,
            },
            version: match self.version {
                Some(Some(t)) => Some(t@),
                _ => None,
            },
            method: match self.method {
                Some(t) => Some(t),
                None => None,
            },
            query_params: match self.query_params {
                Some(t) => Some(t.deep_view()),
                None => None,
            },
            body_params: match self.body_params {
                Some(t) => Some(t.deep_view()),
                None => None,
            },
            execute: match self.execute {
                Some(Some(p)) => Some(p.0.query@),
                _ => None,
            },
            description: match self.description {
                Some(Some(t)) => Some(t@),
                _ => None,
            },
            require_auth: match self.require_auth {
                Some(t) => Some(t),
                None => None,
            },
            inject_auth_metadata: match self.inject_auth_metadata {
                Some(t) => Some(t),
                None => None,
            },
            allowed_roles: match self.allowed_roles {
                Some(t) => Some(t.deep_view()),
                None => None,
            },
            auto_generated: match self.auto_generated {
                Some(t) => Some(t),
                None => None,
            },
        }
    }
}

/// The endpoint a builder builds: each part set on it, and the default
/// endpoint's for the others.
pub open spec fn built(b: SimpleEndpointBuilderView) -> SimpleEndpointView {
    let d = default_endpoint();
    SimpleEndpointView {
        id: match b.id {
            Some(x) => x,
            None => d.id,
        },
        database: match b.database {
            Some(x) => Some(x),
            None => d.database,
        },
        route: match b.route {
            Some(x) => x,
            None => d.route,
        },
        version: match b.version {
            Some(x) => Some(x),
            None => d.version,
        },
        method: match b.method {
            Some(x) => x,
            None => d.method,
        },
        query_params: match b.query_params {
            Some(x) => x,
            None => d.query_params,
        },
        body_params: match b.body_params {
            Some(x) => x,
            None => d.body_params,
        },
        execute: match b.execute {
            Some(x) => Some(x),
            None => d.execute,
        },
        description: match b.description {
            Some(x) => Some(x),
            None => d.description,
        },
        require_auth: match b.require_auth {
            Some(x) => x,
            None => d.require_auth,
        },
        inject_auth_metadata: match b.inject_auth_metadata {
            Some(x) => x,
            None => d.inject_auth_metadata,
        },
        allowed_roles: match b.allowed_roles {
            Some(x) => x,
            None => d.allowed_roles,
        },
        auto_generated: match b.auto_generated {
            Some(x) => x,
            None => d.auto_generated,
        },
    }
}

impl Default for SimpleEndpointBuilder {
    /// A builder with no part set.
    fn default() -> (res: SimpleEndpointBuilder)
        ensures
            res@.id is None,
            res@.database is None,
            res@.route is None,
            res@.version is None,
            res@.method is None,
            res@.query_params is None,
            res@.body_params is None,
            res@.execute is None,
            res@.description is None,
            res@.require_auth is None,
            res@.inject_auth_metadata is None,
            res@.allowed_roles is None,
            res@.auto_generated is None,
    {
        SimpleEndpointBuilder {
            id: None,
            database: None,
            route: None,
            version: None,
            method: None,
            query_params: None,
            body_params: None,
            execute: None,
            description: None,
            require_auth: None,
            inject_auth_metadata: None,
            allowed_roles: None,
            auto_generated: None,
        }
    }
}

impl SimpleEndpointBuilder {
    /// Sets the endpoint's `id`.
    pub fn id(&mut self, value: String) -> (res: &mut SimpleEndpointBuilder)
        ensures
            res@ == (SimpleEndpointBuilderView { id: Some(value@), ..old(self)@ }),
            final(self)@ == final(res)@,
    {
        self.id = Some(value);
        self
    }

    /// Sets the endpoint's `database`.
    pub fn database(&mut self, value: String) -> (res: &mut SimpleEndpointBuilder)
        ensures
            res@ == (SimpleEndpointBuilderView { database: Some(value@), ..old(self)@ }),
            final(self)@ == final(res)@,
    {
        self.database = Some(Some(value));
        self
    }

    /// Sets the endpoint's `route`.
    pub fn route(&mut self, value: String) -> (res: &mut SimpleEndpointBuilder)
        ensures
            res@ == (SimpleEndpointBuilderView { route: Some(value@), ..old(self)@ }),
            final(self)@ == final(res)@,
    {
        self.route = Some(value);
        self
    }

    /// Sets the endpoint's `version`.
    pub fn version(&mut self, value: String) -> (res: &mut SimpleEndpointBuilder)
        ensures
            res@ == (SimpleEndpointBuilderView { version: Some(value@), ..old(self)@ }),
            final(self)@ == final(res)@,
    {
        self.version = Some(Some(value));
        self
    }

    /// Sets the endpoint's `method`.
    pub fn method(&mut self, value: HttpMethod) -> (res: &mut SimpleEndpointBuilder)
        ensures
            res@ == (SimpleEndpointBuilderView { method: Some(value), ..old(self)@ }),
            final(self)@ == final(res)@,
    {
        self.method = Some(value);
        self
    }

    /// Sets the endpoint's `query_params`.
    pub fn query_params(&mut self, value: Vec<String>) -> (res: &mut SimpleEndpointBuilder)
        ensures
            res@ == (SimpleEndpointBuilderView { query_params: Some(value.deep_view()), ..old(self)@ }),
            final(self)@ == final(res)@,
    {
        self.query_params = Some(value);
        self
    }

    /// Sets the endpoint's `body_params`.
    pub fn body_params(&mut self, value: Vec<String>) -> (res: &mut SimpleEndpointBuilder)
        ensures
            res@ == (SimpleEndpointBuilderView { body_params: Some(value.deep_view()), ..old(self)@ }),
            final(self)@ == final(res)@,
    {
        self.body_params = Some(value);
        self
    }

    /// Sets the endpoint's `execute`.
    pub fn execute(&mut self, value: MySQLExecutorProxy) -> (res: &mut SimpleEndpointBuilder)
        ensures
            res@ == (SimpleEndpointBuilderView { execute: Some(value.0.query@), ..old(self)@ }),
            final(self)@ == final(res)@,
    {
        self.execute = Some(Some(value));
        self
    }

    /// Sets the endpoint's `description`.
    pub fn description(&mut self, value: String) -> (res: &mut SimpleEndpointBuilder)
        ensures
            res@ == (SimpleEndpointBuilderView { description: Some(value@), ..old(self)@ }),
            final(self)@ == final(res)@,
    {
        self.description = Some(Some(value));
        self
    }

    /// Sets the endpoint's `require_auth`.
    pub fn require_auth(&mut self, value: bool) -> (res: &mut SimpleEndpointBuilder)
        ensures
            res@ == (SimpleEndpointBuilderView { require_auth: Some(value), ..old(self)@ }),
            final(self)@ == final(res)@,
    {
        self.require_auth = Some(value);
        self
    }

    /// Sets the endpoint's `inject_auth_metadata`.
    pub fn inject_auth_metadata(&mut self, value: bool) -> (res: &mut SimpleEndpointBuilder)
        ensures
            res@ == (SimpleEndpointBuilderView { inject_auth_metadata: Some(value), ..old(self)@ }),
            final(self)@ == final(res)@,
    {
        self.inject_auth_metadata = Some(value);
        self
    }

    /// Sets the endpoint's `allowed_roles`.
    pub fn allowed_roles(&mut self, value: Vec<String>) -> (res: &mut SimpleEndpointBuilder)
        ensures
            res@ == (SimpleEndpointBuilderView { allowed_roles: Some(value.deep_view()), ..old(self)@ }),
            final(self)@ == final(res)@,
    {
        self.allowed_roles = Some(value);
        self
    }

    /// Sets the endpoint's `auto_generated`.
    pub fn auto_generated(&mut self, value: bool) -> (res: &mut SimpleEndpointBuilder)
        ensures
            res@ == (SimpleEndpointBuilderView { auto_generated: Some(value), ..old(self)@ }),
            final(self)@ == final(res)@,
    {
        self.auto_generated = Some(value);
        self
    }

    /// The endpoint with every part set on the builder, and the default
    /// endpoint's parts for the others.
    pub fn build(&self) -> (res: Result<SimpleEndpoint, SimpleEndpointBuilderError>)
        ensures
            res matches Ok(e) && e@ == built(self@),
    {
        let d = SimpleEndpoint::default();
        let id = match &self.id {
            Some(v) => v.clone(),
            None => d.id,
        };
        let database = match &self.database {
            Some(Some(v)) => Some(v.clone()),
            _ => d.database,
        };
        let route = match &self.route {
            Some(v) => v.clone(),
            None => d.route,
        };
        let version = match &self.version {
            Some(Some(v)) => Some(v.clone()),
            _ => d.version,
        };
        let method = match &self.method {
            Some(v) => *v,
            None => d.method,
        };
        let query_params = match &self.query_params {
            Some(v) => copy_texts(v),
            None => d.query_params,
        };
        let body_params = match &self.body_params {
            Some(v) => copy_texts(v),
            None => d.body_params,
        };
        let execute = match &self.execute {
            Some(Some(v)) => Some(MySQLExecutorProxy(copy_executor(&v.0))),
            _ => d.execute,
        };
        let description = match &self.description {
            Some(Some(v)) => Some(v.clone()),
            _ => d.description,
        };
        let require_auth = match &self.require_auth {
            Some(v) => *v,
            None => d.require_auth,
        };
        let inject_auth_metadata = match &self.inject_auth_metadata {
            Some(v) => *v,
            None => d.inject_auth_metadata,
        };
        let allowed_roles = match &self.allowed_roles {
            Some(v) => copy_texts(v),
            None => d.allowed_roles,
        };
        let auto_generated = match &self.auto_generated {
            Some(v) => *v,
            None => d.auto_generated,
        };
        let e = SimpleEndpoint {
            id,
            database,
            route,
            version,
            method,
            query_params,
            body_params,
            execute,
            description,
            require_auth,
            inject_auth_metadata,
            allowed_roles,
            auto_generated,
        };
        assert(e@ =~= built(self@));
        Ok(e)
    }
}

impl Default for SimpleEndpoint {
    fn default() -> (res: SimpleEndpoint)
        ensures
            res@ == default_endpoint(),
    {
        let res = SimpleEndpoint {
            id: "Example".to_owned(),
            database: None,
            route: "my_endpoint".to_owned(),
            version: Some("v1".to_owned()),
            method: HttpMethod::Get,
            query_params: Vec::new(),
            body_params: Vec::new(),
            execute: Some(MySQLExecutorProxy(MySQLExecutor::from_query("SELECT * FROM example".to_owned()))),
            description: None,
            require_auth: false,
            inject_auth_metadata: false,
            allowed_roles: Vec::new(),
            auto_generated: false,
        };
        assert(res.query_params.deep_view() =~= Seq::<Seq<char>>::empty());
        assert(res.body_params.deep_view() =~= Seq::<Seq<char>>::empty());
        assert(res.allowed_roles.deep_view() =~= Seq::<Seq<char>>::empty());
        res
    }
}

impl SimpleEndpoint {
    /// The description with all its parts given.
    pub fn new(
        id: String,
        database: Option<String>,
        route: String,
        version: Option<String>,
        method: HttpMethod,
        query_params: Vec<String>,
        body_params: Vec<String>,
        execute: Option<MySQLExecutorProxy>,
        description: Option<String>,
        require_auth: bool,
        inject_auth_metadata: bool,
        allowed_roles: Vec<String>,
        auto_generated: bool,
    ) -> (res: SimpleEndpoint)
        ensures
            res@ == (SimpleEndpointView {
                id: id@,
                database: opt_text(database),
                route: route@,
                version: opt_text(version),
                method,
                query_params: query_params.deep_view(),
                body_params: body_params.deep_view(),
                execute: match execute {
                    Some(p) => Some(p.0.query@),
                    None => None,
                },
                description: opt_text(description),
                require_auth,
                inject_auth_metadata,
                allowed_roles: allowed_roles.deep_view(),
                auto_generated,
            }),
    {
        SimpleEndpoint {
            id,
            database,
            route,
            version,
            method,
            query_params,
            body_params,
            execute,
            description,
            require_auth,
            inject_auth_metadata,
            allowed_roles,
            auto_generated,
        }
    }

    /// The endpoint's identifier.
    pub fn id(&self) -> (res: &String)
        ensures
            res@ == self@.id,
    {
        &self.id
    }

    /// The database the endpoint works on, if it names one.
    pub fn database(&self) -> (res: &Option<String>)
        ensures
            opt_text(*res) == self@.database,
    {
        &self.database
    }

    /// The route the endpoint is served under.
    pub fn route(&self) -> (res: &String)
        ensures
            res@ == self@.route,
    {
        &self.route
    }

    /// The version of the endpoint, if it has one.
    pub fn version(&self) -> (res: &Option<String>)
        ensures
            opt_text(*res) == self@.version,
    {
        &self.version
    }

    /// The names of the query parameters the endpoint takes.
    pub fn query_params(&self) -> (res: &Vec<String>)
        ensures
            res.deep_view() == self@.query_params,
    {
        &self.query_params
    }

    /// The names of the body parameters the endpoint takes.
    pub fn body_params(&self) -> (res: &Vec<String>)
        ensures
            res.deep_view() == self@.body_params,
    {
        &self.body_params
    }

    /// The executor the endpoint runs, if any.
    pub fn execute(&self) -> (res: &Option<MySQLExecutorProxy>)
        ensures
            self@.execute == (match *res { Some(p) => Some(p.0.query@), None => None }),
    {
        &self.execute
    }

    /// The endpoint's description, if it has one.
    pub fn description(&self) -> (res: &Option<String>)
        ensures
            opt_text(*res) == self@.description,
    {
        &self.description
    }

    /// The roles allowed to call the endpoint.
    pub fn allowed_roles(&self) -> (res: &Vec<String>)
        ensures
            res.deep_view() == self@.allowed_roles,
    {
        &self.allowed_roles
    }

    /// The HTTP method the endpoint answers.
    pub fn method(&self) -> (res: HttpMethod)
        ensures
            res == self@.method,
    {
        self.method
    }

    /// Whether callers must be authenticated.
    pub fn require_auth(&self) -> (res: bool)
        ensures
            res == self@.require_auth,
    {
        self.require_auth
    }

    /// Whether the caller's session is passed on when there is one.
    pub fn inject_auth_metadata(&self) -> (res: bool)
        ensures
            res == self@.inject_auth_metadata,
    {
        self.inject_auth_metadata
    }

    /// Whether the endpoint was generated rather than written.
    pub fn auto_generated(&self) -> (res: bool)
        ensures
            res == self@.auto_generated,
    {
        self.auto_generated
    }

    /// The endpoint's identifier, to change in place.
    pub fn id_mut(&mut self) -> (res: &mut String)
        ensures
            (res@) == old(self)@.id,
            final(self)@ == (SimpleEndpointView { id: (final(res)@), ..old(self)@ }),
    {
        &mut self.id
    }

    /// The endpoint's database, to change in place.
    pub fn database_mut(&mut self) -> (res: &mut Option<String>)
        ensures
            (opt_text(*res)) == old(self)@.database,
            final(self)@ == (SimpleEndpointView { database: (opt_text(*final(res))), ..old(self)@ }),
    {
        &mut self.database
    }

    /// The endpoint's route, to change in place.
    pub fn route_mut(&mut self) -> (res: &mut String)
        ensures
            (res@) == old(self)@.route,
            final(self)@ == (SimpleEndpointView { route: (final(res)@), ..old(self)@ }),
    {
        &mut self.route
    }

    /// The endpoint's version, to change in place.
    pub fn version_mut(&mut self) -> (res: &mut Option<String>)
        ensures
            (opt_text(*res)) == old(self)@.version,
            final(self)@ == (SimpleEndpointView { version: (opt_text(*final(res))), ..old(self)@ }),
    {
        &mut self.version
    }

    /// The endpoint's HTTP method, to change in place.
    pub fn method_mut(&mut self) -> (res: &mut HttpMethod)
        ensures
            (*res) == old(self)@.method,
            final(self)@ == (SimpleEndpointView { method: (*final(res)), ..old(self)@ }),
    {
        &mut self.method
    }

    /// The endpoint's query parameters, to change in place.
    pub fn query_params_mut(&mut self) -> (res: &mut Vec<String>)
        ensures
            (res.deep_view()) == old(self)@.query_params,
            final(self)@ == (SimpleEndpointView { query_params: (final(res).deep_view()), ..old(self)@ }),
    {
        &mut self.query_params
    }

    /// The endpoint's body parameters, to change in place.
    pub fn body_params_mut(&mut self) -> (res: &mut Vec<String>)
        ensures
            (res.deep_view()) == old(self)@.body_params,
            final(self)@ == (SimpleEndpointView { body_params: (final(res).deep_view()), ..old(self)@ }),
    {
        &mut self.body_params
    }

    /// The endpoint's executor, to change in place.
    pub fn execute_mut(&mut self) -> (res: &mut Option<MySQLExecutorProxy>)
        ensures
            (match *res { Some(p) => Some(p.0.query@), None => None }) == old(self)@.execute,
            final(self)@ == (SimpleEndpointView { execute: (match *final(res) { Some(p) => Some(p.0.query@), None => None }), ..old(self)@ }),
    {
        &mut self.execute
    }

    /// The endpoint's description, to change in place.
    pub fn description_mut(&mut self) -> (res: &mut Option<String>)
        ensures
            (opt_text(*res)) == old(self)@.description,
            final(self)@ == (SimpleEndpointView { description: (opt_text(*final(res))), ..old(self)@ }),
    {
        &mut self.description
    }

    /// The endpoint's authentication requirement, to change in place.
    pub fn require_auth_mut(&mut self) -> (res: &mut bool)
        ensures
            (*res) == old(self)@.require_auth,
            final(self)@ == (SimpleEndpointView { require_auth: (*final(res)), ..old(self)@ }),
    {
        &mut self.require_auth
    }

    /// The endpoint's session passing, to change in place.
    pub fn inject_auth_metadata_mut(&mut self) -> (res: &mut bool)
        ensures
            (*res) == old(self)@.inject_auth_metadata,
            final(self)@ == (SimpleEndpointView { inject_auth_metadata: (*final(res)), ..old(self)@ }),
    {
        &mut self.inject_auth_metadata
    }

    /// The endpoint's allowed roles, to change in place.
    pub fn allowed_roles_mut(&mut self) -> (res: &mut Vec<String>)
        ensures
            (res.deep_view()) == old(self)@.allowed_roles,
            final(self)@ == (SimpleEndpointView { allowed_roles: (final(res).deep_view()), ..old(self)@ }),
    {
        &mut self.allowed_roles
    }

    /// The endpoint's generated mark, to change in place.
    pub fn auto_generated_mut(&mut self) -> (res: &mut bool)
        ensures
            (*res) == old(self)@.auto_generated,
            final(self)@ == (SimpleEndpointView { auto_generated: (*final(res)), ..old(self)@ }),
    {
        &mut self.auto_generated
    }

    /// The description of an endpoint definition.
    pub fn try_from(endpoint: &Endpoint) -> (res: Result<SimpleEndpoint, ConversionError>)
        ensures
            res matches Ok(s) && s@ == simple_of(endpoint@),
    {
        let http_target: Option<&HttpTarget> = match &endpoint.execution_target {
            ExecutionTarget::Http(t) => Some(t),
            ExecutionTarget::Socket => None,
        };
        let execute: Option<MySQLExecutorProxy> = match http_target {
            Some(t) => match &t.execution_pipeline {
                Some(step) => match &step.executor {
                    Executor::MySql(e) => Some(MySQLExecutorProxy(copy_executor(e))),
                    Executor::MySqlProxy(p) => Some(MySQLExecutorProxy(copy_executor(&p.0))),
                    Executor::Other => None,
                },
                None => None,
            },
            None => None,
        };
        let database = if endpoint.databases.len() > 0 {
            Some(endpoint.databases[0].clone())
        } else {
            None
        };
        let res = match http_target {
            Some(t) => SimpleEndpoint {
                id: endpoint.id.clone(),
                database,
                route: t.route.clone(),
                version: copy_opt_text(&t.version),
                method: t.method,
                query_params: copy_texts(&t.query_params),
                body_params: copy_texts(&t.body_params),
                execute,
                description: copy_opt_text(&endpoint.description),
                require_auth: endpoint.auth.level == AuthLevel::Required,
                inject_auth_metadata: endpoint.auth.level == AuthLevel::InjectWhenAvailable,
                allowed_roles: copy_texts(&endpoint.auth.allowed_roles),
                auto_generated: t.auto_generated,
            },
            None => SimpleEndpoint {
                id: endpoint.id.clone(),
                database,
                route: "websockets".to_owned(),
                version: Some("upgrade".to_owned()),
                method: HttpMethod::Get,
                query_params: Vec::new(),
                body_params: Vec::new(),
                execute,
                description: copy_opt_text(&endpoint.description),
                require_auth: endpoint.auth.level == AuthLevel::Required,
                inject_auth_metadata: endpoint.auth.level == AuthLevel::InjectWhenAvailable,
                allowed_roles: copy_texts(&endpoint.auth.allowed_roles),
                auto_generated: false,
            },
        };
        assert(res.query_params.deep_view() =~= simple_of(endpoint@).query_params);
        assert(res.body_params.deep_view() =~= simple_of(endpoint@).body_params);
        assert(res@ =~= simple_of(endpoint@));
        Ok(res)
    }

    /// The endpoint definition that this description stands for.
    pub fn into_endpoint(&self) -> (res: Endpoint)
        ensures
            res@ == endpoint_of(self@),
    {
        let level = if self.require_auth {
            AuthLevel::Required
        } else if self.inject_auth_metadata {
            AuthLevel::InjectWhenAvailable
        } else {
            AuthLevel::Open
        };
        let execution_pipeline = match &self.execute {
            Some(p) => Some(ExecutionStep { executor: Executor::MySqlProxy(MySQLExecutorProxy(copy_executor(&p.0))) }),
            None => None,
        };
        let target = HttpTarget {
            route: self.route.clone(),
            version: copy_opt_text(&self.version),
            method: self.method,
            query_params: copy_texts(&self.query_params),
            body_params: copy_texts(&self.body_params),
            auto_generated: false,
            execution_pipeline,
        };
        let res = Endpoint {
            id: self.id.clone(),
            databases: Vec::new(),
            description: copy_opt_text(&self.description),
            auth: Auth { level, allowed_roles: copy_texts(&self.allowed_roles) },
            execution_target: ExecutionTarget::Http(target),
        };
        assert(res.databases.deep_view() =~= Seq::<Seq<char>>::empty());
        assert(res@ =~= endpoint_of(self@));
        res
    }
}

/// A description survives the trip to an endpoint definition and back,
/// unless it names a database, both requires authentication and asks for
/// the session to be passed on, or is marked as generated: the definition
/// keeps none of the three.
pub proof fn lemma_description_round_trip(s: SimpleEndpointView)
    requires
        s.database is None,
        !(s.require_auth && s.inject_auth_metadata),
        !s.auto_generated,
    ensures
        simple_of(endpoint_of(s)) == s,
{
    assert(simple_of(endpoint_of(s)) =~= s);
}

/// Describing an endpoint definition and turning the description back into
/// a definition keeps its identifier, its description and its
/// authentication settings, whatever they were.
pub proof fn lemma_definition_keeps_identity_and_auth(e: EndpointView)
    ensures
        endpoint_of(simple_of(e)).id == e.id,
        endpoint_of(simple_of(e)).description == e.description,
        endpoint_of(simple_of(e)).auth == e.auth,
{
}

/// The definition of a description is served over HTTP, names no database,
/// is not marked as generated, and runs the description's executor, if any,
/// behind a proxy.
pub proof fn lemma_definition_shape(s: SimpleEndpointView)
    ensures
        endpoint_of(s).execution_target matches ExecutionTargetView::Http(t) && !t.auto_generated
            && mysql_query_of(t) == s.execute && (t.execution_pipeline matches Some(x) ==> x is MySqlProxy),
        endpoint_of(s).databases.len() == 0,
{
}

/// The description of a definition names the definition's first database,
/// whatever its execution target, and none when it has no database; its
/// identifier, description and roles are the definition's.
pub proof fn lemma_description_of_definition(e: EndpointView)
    ensures
        e.databases.len() > 0 ==> simple_of(e).database == Some(e.databases[0]),
        e.databases.len() == 0 ==> simple_of(e).database is None,
        simple_of(e).id == e.id,
        simple_of(e).description == e.description,
        simple_of(e).allowed_roles == e.auth.allowed_roles,
        simple_of(e).require_auth <==> e.auth.level == AuthLevel::Required,
        simple_of(e).inject_auth_metadata <==> e.auth.level == AuthLevel::InjectWhenAvailable,
{
}

/// The description of an endpoint served over HTTP takes its route,
/// version, method, parameters and generated mark from the HTTP target, and
/// its executor's query from the target's pipeline.
pub proof fn lemma_description_of_http_definition(e: EndpointView, t: HttpTargetView)
    requires
        e.execution_target == ExecutionTargetView::Http(t),
    ensures
        simple_of(e).route == t.route,
        simple_of(e).version == t.version,
        simple_of(e).method == t.method,
        simple_of(e).query_params == t.query_params,
        simple_of(e).body_params == t.body_params,
        simple_of(e).auto_generated == t.auto_generated,
        t.execution_pipeline matches Some(ExecutorView::MySql(q)) ==> simple_of(e).execute == Some(q),
        t.execution_pipeline matches Some(ExecutorView::MySqlProxy(q)) ==> simple_of(e).execute == Some(q),
        (t.execution_pipeline is None || t.execution_pipeline == Some(ExecutorView::Other))
            ==> simple_of(e).execute is None,
{
}

/// Every part set on a builder appears unchanged in the endpoint it builds,
/// and every part left unset is the default endpoint's.
pub proof fn lemma_builder_keeps_set_parts(b: SimpleEndpointBuilderView)
    ensures
        b.id matches Some(x) ==> built(b).id == x,
        b.database matches Some(x) ==> built(b).database == Some(x),
        b.route matches Some(x) ==> built(b).route == x,
        b.version matches Some(x) ==> built(b).version == Some(x),
        b.method matches Some(x) ==> built(b).method == x,
        b.query_params matches Some(x) ==> built(b).query_params == x,
        b.body_params matches Some(x) ==> built(b).body_params == x,
        b.execute matches Some(x) ==> built(b).execute == Some(x),
        b.description matches Some(x) ==> built(b).description == Some(x),
        b.require_auth matches Some(x) ==> built(b).require_auth == x,
        b.inject_auth_metadata matches Some(x) ==> built(b).inject_auth_metadata == x,
        b.allowed_roles matches Some(x) ==> built(b).allowed_roles == x,
        b.auto_generated matches Some(x) ==> built(b).auto_generated == x,
        b.id is None ==> built(b).id == "Example"@,
        b.database is None ==> built(b).database is None,
        b.route is None ==> built(b).route == "my_endpoint"@,
        b.version is None ==> built(b).version == Some("v1"@),
        b.method is None ==> built(b).method == HttpMethod::Get,
        b.query_params is None ==> built(b).query_params.len() == 0,
        b.body_params is None ==> built(b).body_params.len() == 0,
        b.execute is None ==> built(b).execute == Some(example_query()),
        b.description is None ==> built(b).description is None,
        b.require_auth is None ==> !built(b).require_auth,
        b.inject_auth_metadata is None ==> !built(b).inject_auth_metadata,
        b.allowed_roles is None ==> built(b).allowed_roles.len() == 0,
        b.auto_generated is None ==> !built(b).auto_generated,
{
}

} // verus!
