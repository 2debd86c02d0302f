//! The request-handling pipeline that is assembled before the socket opens.

use vstd::prelude::*;

verus! {

/// Whether requests may be authenticated at an identity provider.
#[derive(Clone, Copy, Debug, PartialEq, Eq, Structural)]
pub enum IdentityMode {
    /// No identity provider is configured.
    Disabled,
    /// A client of the discovered identity provider is available.
    Enabled,
}

/// The cross-site policy of the session cookie.
#[derive(Clone, Copy, Debug, PartialEq, Eq, Structural)]
pub enum CookieSameSite {
    /// Sent on same-site requests only.
    Strict,
    /// Sent on same-site requests and on top-level cross-site navigation.
    Lax,
    /// Sent on every request.
    Unrestricted,
}

/// A layer wrapped around the routes.
#[derive(Clone, Copy, Debug, PartialEq, Eq, Structural)]
pub enum MiddlewareLayer {
    /// Records each request and its response without altering them.
    Tracing,
    /// Injects and validates the session cookie.
    Sessions,
}

/// How sessions expire and where their cookie is sent.
#[derive(Clone, Copy, Debug, PartialEq, Eq, Structural)]
pub struct SessionPolicy {
    /// A session expires after this many hours without a request.
    pub inactivity_hours: i64,
    /// The same-site attribute of the session cookie.
    pub same_site: CookieSameSite,
}

/// Hours of inactivity after which a session expires.
pub const SESSION_INACTIVITY_HOURS: i64 = 24;

/// The composed pipeline: routes, documentation and middleware.
#[derive(Debug, PartialEq, Eq)]
pub struct PipelinePlan {
    /// The prefix under which the frontend API is mounted.
    pub api_prefix: &'static str,
    /// The path of the documentation surface.
    pub docs_path: &'static str,
    /// The title of the documentation page of the frontend API.
    pub docs_title: &'static str,
    /// Whether the routes may authenticate through an identity provider.
    pub identity: IdentityMode,
    /// The middleware, outermost first.
    pub layers: Vec<MiddlewareLayer>,
    /// The policy of the session layer.
    pub session: SessionPolicy,
}

/// The session policy of the server: expiry after a day of inactivity, lax cookies.
pub open spec fn server_session_policy() -> SessionPolicy {
    SessionPolicy { inactivity_hours: SESSION_INACTIVITY_HOURS, same_site: CookieSameSite::Lax }
}

/// `p` is the pipeline of the server for `identity`.
pub open spec fn is_server_pipeline(p: PipelinePlan, identity: IdentityMode) -> bool {
    &&& p.api_prefix@ == "/api/frontend"@
    &&& p.docs_path@ == "/docs"@
    &&& p.docs_title@ == "Frontend"@
    &&& p.identity == identity
    &&& p.layers@ == seq![MiddlewareLayer::Tracing, MiddlewareLayer::Sessions]
    &&& p.session == server_session_policy()
}

/// The session policy of the server.
pub fn session_policy() -> (r: SessionPolicy)
    ensures
        r == server_session_policy(),
{
    SessionPolicy { inactivity_hours: SESSION_INACTIVITY_HOURS, same_site: CookieSameSite::Lax }
}

/// The pipeline of the server: the frontend API under its versioned prefix,
/// its documentation at a fixed path, and request tracing outside session
/// management.
pub fn pipeline_plan(identity: IdentityMode) -> (r: PipelinePlan)
    ensures
        is_server_pipeline(r, identity),
{
    let mut layers: Vec<MiddlewareLayer> = Vec::new();
    layers.push(MiddlewareLayer::Tracing);
    layers.push(MiddlewareLayer::Sessions);
    assert(layers@ =~= seq![MiddlewareLayer::Tracing, MiddlewareLayer::Sessions]);
    PipelinePlan {
        api_prefix: "/api/frontend",
        docs_path: "/docs",
        docs_title: "Frontend",
        identity,
        layers,
        session: session_policy(),
    }
}

} // verus!
