use shaide::config::{default_host, ConfigError, ConfigSource, EnvVars, IpAddress, RunTimeConfig};

fn vars() -> EnvVars {
    EnvVars {
        admin_password: Some("admin".to_owned()),
        jwt_secret: Some("0123456789abcdef0123456789abcdef".to_owned()),
        control_panel_fqdn: Some("panel.localhost".to_owned()),
        control_panel_port: Some("3000".to_owned()),
        host: None,
        port: None,
        vector_db_url: None,
        mcp_namespace: None,
        mcp_label_selector: None,
        trial: None,
    }
}

#[test]
fn defaults_fill_the_optional_settings() {
    let c = RunTimeConfig::from_vars(vars(), ConfigSource::DotEnv).unwrap();
    assert_eq!(c.host, IpAddress::V4(0, 0, 0, 0));
    assert_eq!(default_host(), IpAddress::V4(0, 0, 0, 0));
    assert_eq!(c.port, 8080);
    assert_eq!(c.vector_db_url, "http://localhost:6334");
    assert_eq!(c.mcp_namespace, "");
    assert_eq!(c.mcp_label_selector, "");
    assert!(!c.is_trial);
    assert_eq!(c.admin_password, "admin");
}

#[test]
fn given_settings_are_used() {
    let mut v = vars();
    v.host = Some(Ok(IpAddress::V4(127, 0, 0, 1)));
    v.port = Some("9000".to_owned());
    v.trial = Some("TRUE".to_owned());
    v.mcp_namespace = Some("mcp".to_owned());
    let c = RunTimeConfig::from_vars(v, ConfigSource::Process).unwrap();
    assert_eq!(c.host, IpAddress::V4(127, 0, 0, 1));
    assert_eq!(c.port, 9000);
    assert!(c.is_trial);
    assert_eq!(c.mcp_namespace, "mcp");
    let mut v = vars();
    v.trial = Some("yes".to_owned());
    assert!(!RunTimeConfig::from_vars(v, ConfigSource::Process).unwrap().is_trial);
}

#[test]
fn missing_and_bad_settings_are_refused_in_order() {
    let missing = |f: fn(&mut EnvVars), source| match RunTimeConfig::from_vars(
        {
            let mut v = vars();
            f(&mut v);
            v
        },
        source,
    ) {
        Err(ConfigError::Missing(m)) => m,
        other => panic!("unexpected {other:?}"),
    };
    assert_eq!(missing(|v| v.admin_password = None, ConfigSource::DotEnv), "ADMIN_PASSWORD not set");
    assert_eq!(missing(|v| v.admin_password = None, ConfigSource::Process), "ADMIN_PASSWORD is not set");
    assert_eq!(missing(|v| v.jwt_secret = None, ConfigSource::DotEnv), "JWT_SECRET not set");
    assert_eq!(missing(|v| v.control_panel_fqdn = None, ConfigSource::Process), "SHAIDE_SERVER_UI_FQDN is not set");
    assert_eq!(missing(|v| v.control_panel_port = None, ConfigSource::DotEnv), "SHAIDE_SERVER_UI_PORT not set");

    let mut v = vars();
    v.jwt_secret = Some("short".to_owned());
    assert!(matches!(RunTimeConfig::from_vars(v, ConfigSource::DotEnv), Err(ConfigError::ShortJwtSecret)));
    let mut v = vars();
    v.port = Some("70000".to_owned());
    assert!(matches!(RunTimeConfig::from_vars(v, ConfigSource::DotEnv), Err(ConfigError::InvalidPort(p)) if p == "70000"));
}

#[test]
fn a_host_that_is_no_address_is_refused_before_the_port() {
    let mut v = vars();
    v.host = Some(Err("not-an-ip".to_owned()));
    v.port = Some("70000".to_owned());
    assert!(matches!(RunTimeConfig::from_vars(v, ConfigSource::DotEnv), Err(ConfigError::InvalidHost(h)) if h == "not-an-ip"));
    let mut v = vars();
    v.host = Some(Err("x".to_owned()));
    v.control_panel_port = None;
    assert!(matches!(RunTimeConfig::from_vars(v, ConfigSource::DotEnv), Err(ConfigError::Missing(m)) if m == "SHAIDE_SERVER_UI_PORT not set"));
    let mut v = vars();
    v.host = Some(Ok(IpAddress::V6(0, 0, 0, 0, 0, 0, 0, 1)));
    assert_eq!(RunTimeConfig::from_vars(v, ConfigSource::DotEnv).unwrap().host, IpAddress::V6(0, 0, 0, 0, 0, 0, 0, 1));
}
