use webserver::pipeline::pipeline_plan;
use webserver::pipeline::session_policy;
use webserver::pipeline::CookieSameSite;
use webserver::pipeline::IdentityMode;
use webserver::pipeline::MiddlewareLayer;
use webserver::pipeline::SESSION_INACTIVITY_HOURS;

#[test]
fn pipeline_mounts_api_and_docs() {
    let p = pipeline_plan(IdentityMode::Enabled);
    assert_eq!(p.api_prefix, "/api/frontend");
    assert_eq!(p.docs_path, "/docs");
    assert_eq!(p.docs_title, "Frontend");
    assert_eq!(p.identity, IdentityMode::Enabled);
    assert_eq!(pipeline_plan(IdentityMode::Disabled).identity, IdentityMode::Disabled);
}

#[test]
fn tracing_wraps_sessions() {
    let p = pipeline_plan(IdentityMode::Disabled);
    assert_eq!(p.layers, vec![MiddlewareLayer::Tracing, MiddlewareLayer::Sessions]);
}

#[test]
fn sessions_expire_after_a_day_with_lax_cookies() {
    let s = session_policy();
    assert_eq!(s.inactivity_hours, 24);
    assert_eq!(SESSION_INACTIVITY_HOURS, 24);
    assert_eq!(s.same_site, CookieSameSite::Lax);
    assert_eq!(pipeline_plan(IdentityMode::Disabled).session, s);
}
