use webserver::address::IpAddress;
use webserver::address::SocketAddress;
use webserver::config::Config;
use webserver::config::OidcConfig;
use webserver::config::ServerSettings;
use webserver::error::StartServerError;
use webserver::pipeline::IdentityMode;
use webserver::startup::Startup;
use webserver::startup::StartupAction;
use webserver::startup::StartupEvent;
use webserver::startup::StartupPhase;

fn oidc() -> OidcConfig {
    OidcConfig {
        discover_url: "https://id.example.org/realms/main".to_string(),
        client_id: "webserver".to_string(),
        client_secret: "client-secret".to_string(),
        redirect_url: "https://app.example.org/api/frontend/v1/auth/finish".to_string(),
    }
}

fn config(address: &str, port: u16, identity: Option<OidcConfig>) -> Config {
    Config {
        server: ServerSettings { listen_address: address.to_string(), listen_port: port },
        openid_connect: identity,
    }
}

const LOCALHOST: IpAddress = IpAddress::V4([127, 0, 0, 1]);

#[test]
fn disabled_identity_binds_then_serves() {
    let mut s = Startup::new(config("127.0.0.1", 8080, None), Some(LOCALHOST));
    assert_eq!(
        s.step(StartupEvent::Begin),
        StartupAction::AssembleAndBind {
            identity: IdentityMode::Disabled,
            addr: SocketAddress { ip: LOCALHOST, port: 8080 },
        }
    );
    assert_eq!(s.phase, StartupPhase::Binding);
    assert_eq!(s.step(StartupEvent::BindFinished(Ok(()))), StartupAction::Serve);
    assert_eq!(s.phase, StartupPhase::Serving);
    assert_eq!(s.step(StartupEvent::ServingFinished(Ok(()))), StartupAction::Finish);
    assert_eq!(s.phase, StartupPhase::Stopped);
}

#[test]
fn disabled_identity_makes_no_discovery() {
    let mut s = Startup::new(config("::", 80, None), Some(IpAddress::V6([0; 8])));
    let events = vec![
        StartupEvent::Begin,
        StartupEvent::DiscoveryFinished(Ok(())),
        StartupEvent::Begin,
        StartupEvent::BindFinished(Ok(())),
    ];
    for e in events {
        assert!(!matches!(s.step(e), StartupAction::Discover(_)));
    }
    assert_eq!(s.identity, IdentityMode::Disabled);
}

#[test]
fn enabled_identity_discovers_once_first() {
    let mut s = Startup::new(config("127.0.0.1", 8080, Some(oidc())), Some(LOCALHOST));
    assert_eq!(s.step(StartupEvent::Begin), StartupAction::Discover(oidc()));
    assert_eq!(s.phase, StartupPhase::Discovering);
    assert_eq!(s.step(StartupEvent::Begin), StartupAction::Ignore);
    assert_eq!(
        s.step(StartupEvent::DiscoveryFinished(Ok(()))),
        StartupAction::AssembleAndBind {
            identity: IdentityMode::Enabled,
            addr: SocketAddress { ip: LOCALHOST, port: 8080 },
        }
    );
    assert_eq!(s.identity, IdentityMode::Enabled);
}

#[test]
fn failed_discovery_aborts_before_listening() {
    let mut s = Startup::new(config("127.0.0.1", 8080, Some(oidc())), Some(LOCALHOST));
    s.step(StartupEvent::Begin);
    assert_eq!(
        s.step(StartupEvent::DiscoveryFinished(Err("connection refused".to_string()))),
        StartupAction::Abort(StartServerError::OidcConnectionFailed("connection refused".to_string()))
    );
    assert_eq!(s.phase, StartupPhase::Failed);
    assert_eq!(s.step(StartupEvent::BindFinished(Ok(()))), StartupAction::Ignore);
    assert_eq!(s.step(StartupEvent::Begin), StartupAction::Ignore);
    assert_eq!(s.phase, StartupPhase::Failed);
}

#[test]
fn failed_discovery_wins_over_invalid_address() {
    let mut s = Startup::new(config("not an address", 8080, Some(oidc())), None);
    s.step(StartupEvent::Begin);
    assert_eq!(
        s.step(StartupEvent::DiscoveryFinished(Err("timeout".to_string()))),
        StartupAction::Abort(StartServerError::OidcConnectionFailed("timeout".to_string()))
    );
}

#[test]
fn invalid_address_is_reported_as_such() {
    let mut s = Startup::new(config("300.1.2.3", 8080, None), None);
    assert_eq!(
        s.step(StartupEvent::Begin),
        StartupAction::Abort(StartServerError::InvalidAddress("300.1.2.3".to_string()))
    );
    assert_eq!(s.phase, StartupPhase::Failed);
    assert_eq!(s.step(StartupEvent::BindFinished(Err("in use".to_string()))), StartupAction::Ignore);
}

#[test]
fn invalid_address_after_discovery() {
    let mut s = Startup::new(config("localhost", 8080, Some(oidc())), None);
    s.step(StartupEvent::Begin);
    assert_eq!(
        s.step(StartupEvent::DiscoveryFinished(Ok(()))),
        StartupAction::Abort(StartServerError::InvalidAddress("localhost".to_string()))
    );
}

#[test]
fn bind_failure_is_io() {
    let mut s = Startup::new(config("127.0.0.1", 80, None), Some(LOCALHOST));
    s.step(StartupEvent::Begin);
    assert_eq!(
        s.step(StartupEvent::BindFinished(Err("address in use".to_string()))),
        StartupAction::Abort(StartServerError::Io("address in use".to_string()))
    );
    assert_eq!(s.phase, StartupPhase::Failed);
}

#[test]
fn serving_failure_is_io() {
    let mut s = Startup::new(config("127.0.0.1", 80, None), Some(LOCALHOST));
    s.step(StartupEvent::Begin);
    s.step(StartupEvent::BindFinished(Ok(())));
    assert_eq!(
        s.step(StartupEvent::ServingFinished(Err("accept failed".to_string()))),
        StartupAction::Abort(StartServerError::Io("accept failed".to_string()))
    );
}

#[test]
fn events_out_of_order_are_ignored() {
    let mut s = Startup::new(config("127.0.0.1", 80, None), Some(LOCALHOST));
    assert_eq!(s.step(StartupEvent::BindFinished(Ok(()))), StartupAction::Ignore);
    assert_eq!(s.step(StartupEvent::ServingFinished(Ok(()))), StartupAction::Ignore);
    assert_eq!(s.phase, StartupPhase::Idle);
}

#[test]
fn oidc_settings_duplicate() {
    let o = oidc();
    assert_eq!(o.duplicate(), o);
}
