//! The routes of the API.

use vstd::prelude::*;

verus! {

/// The HTTP methods that the API answers.
#[derive(Debug, Clone, Copy, PartialEq, Eq, Structural)]
pub enum Method {
    Get,
    Post,
    Delete,
}

/// The endpoints of the API.
#[derive(Debug, Clone, Copy, PartialEq, Eq, Structural)]
pub enum Endpoint {
    CreateJob,
    GetJob,
    DeleteJob,
    RetryJob,
    QueueStats,
    Health,
}

/// One route: a method and a path, and the endpoint that answers them.
#[derive(Debug, Clone, Copy)]
pub struct Route {
    pub method: Method,
    pub path: &'static str,
    pub endpoint: Endpoint,
}

impl Route {
    /// The route is `method` on `path`, answered by `endpoint`.
    pub open spec fn is(self, method: Method, path: Seq<char>, endpoint: Endpoint) -> bool {
        self.method == method && self.path@ == path && self.endpoint == endpoint
    }
}

/// The routes of the API, in the order in which they are registered.
pub fn create_router() -> (routes: Vec<Route>)
    ensures
        routes.len() == 6,
        routes[0].is(Method::Post, "/jobs"@, Endpoint::CreateJob),
        routes[1].is(Method::Get, "/jobs/:id"@, Endpoint::GetJob),
        routes[2].is(Method::Delete, "/jobs/:id"@, Endpoint::DeleteJob),
        routes[3].is(Method::Post, "/jobs/:id/retry"@, Endpoint::RetryJob),
        routes[4].is(Method::Get, "/queues/stats"@, Endpoint::QueueStats),
        routes[5].is(Method::Get, "/health"@, Endpoint::Health),
{
    let mut routes: Vec<Route> = Vec::new();
    routes.push(Route { method: Method::Post, path: "/jobs", endpoint: Endpoint::CreateJob });
    routes.push(Route { method: Method::Get, path: "/jobs/:id", endpoint: Endpoint::GetJob });
    routes.push(Route { method: Method::Delete, path: "/jobs/:id", endpoint: Endpoint::DeleteJob });
    routes.push(
        Route { method: Method::Post, path: "/jobs/:id/retry", endpoint: Endpoint::RetryJob },
    );
    routes.push(
        Route { method: Method::Get, path: "/queues/stats", endpoint: Endpoint::QueueStats },
    );
    routes.push(Route { method: Method::Get, path: "/health", endpoint: Endpoint::Health });
    routes
}

} // verus!
