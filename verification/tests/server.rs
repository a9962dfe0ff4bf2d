use republisher::config::{AppConfig, MqttConfig, PayloadFormat};
use republisher::json::Json;
use republisher::table::Table;
use republisher::web;
use republisher::web::assets;
use republisher::web::auth::{Auth, AuthNotice, EnvVars, SESSION_TTL};
use republisher::web::envcfg::MergedPoints;
use republisher::web::{Endpoint, LoadOutcome, Method, Screening, ServerOptions};

fn config() -> AppConfig {
    AppConfig {
        protocol: String::new(),
        mqtt: MqttConfig {
            host: "localhost".to_string(),
            port: 8883,
            use_tls: true,
            client_id: "republisher".to_string(),
            topic_prefix: "netix".to_string(),
            health_topic: "netix/health".to_string(),
            username: None,
            password: None,
            password_env: None,
            ca_cert_path: None,
            client_cert_path: None,
            client_key_path: None,
            client_key_passphrase: None,
            remember_secrets: true,
            retain: false,
            keep_alive_secs: 30,
            payload_format: PayloadFormat::Scalar,
            device_topic_prefix: "devices".to_string(),
            autostart: false,
        },
        connections: Table::new(),
        points: Vec::new(),
        discover_on_start: false,
        theme: "dark".to_string(),
    }
}

fn vars(pairs: &[(&str, &str)]) -> EnvVars {
    let mut out: EnvVars = Table::new();
    for (key, value) in pairs {
        out.insert(key.to_string(), value.to_string());
    }
    out
}

fn nothing() -> Result<MergedPoints, String> {
    Ok(MergedPoints { points: Vec::new(), added: 0, updated: 0 })
}

fn error_of(body: &Json) -> &str {
    match body {
        Json::Object(fields) => match &fields[0] {
            (key, Json::Text(message)) if key == "error" => message,
            _ => panic!("not an error"),
        },
        _ => panic!("not an object"),
    }
}

fn default_path() -> Result<String, String> {
    Ok("/home/config.toml".to_string())
}

fn any() -> Result<String, String> {
    Ok("0.0.0.0:8080".to_string())
}

#[test]
fn options_come_from_the_command_line_then_the_environment() {
    let none = vars(&[]);
    let o = ServerOptions::from_env(None, None, &none, any(), default_path()).unwrap();
    assert_eq!((o.bind.as_str(), o.config_path.as_str()), ("0.0.0.0:8080", "/home/config.toml"));
    assert!(o.tls.is_none());
    assert_eq!(
        web::listening_line(&o),
        "config: /home/config.toml · listening on http://0.0.0.0:8080"
    );

    let env = vars(&[
        ("REPUBLISHER_BIND", "127.0.0.1:1"),
        ("REPUBLISHER_CONFIG", "/env"),
        ("REPUBLISHER_TLS_CERT", "c.pem"),
        ("REPUBLISHER_TLS_KEY", "k.pem"),
    ]);
    let address = Ok(web::bind_text(&None, &env));
    let o = ServerOptions::from_env(None, None, &env, address, Err("unknown".to_string())).unwrap();
    assert_eq!(
        web::listening_line(&o),
        "config: /env · listening on https://127.0.0.1:1"
    );
    assert_eq!(o.tls.unwrap().load_failure(), "failed to load TLS cert/key (c.pem, k.pem)");

    let o = ServerOptions::from_env(
        Some("/cli".to_string()),
        Some("[0::1]:02".to_string()),
        &env,
        Ok("[::1]:2".to_string()),
        default_path(),
    )
    .unwrap();
    assert_eq!((o.bind.as_str(), o.config_path.as_str()), ("[::1]:2", "/cli"));
}

#[test]
fn bad_options_are_refused() {
    assert_eq!(web::bind_text(&None, &vars(&[])), "0.0.0.0:8080");
    let e = ServerOptions::from_env(
        None,
        Some("nowhere".to_string()),
        &vars(&[]),
        Err("invalid socket address syntax".to_string()),
        default_path(),
    )
    .unwrap_err();
    assert_eq!(e.full_text(), "invalid bind address 'nowhere': invalid socket address syntax");
    let e = ServerOptions::from_env(None, None, &vars(&[]), any(), Err("no home".to_string())).unwrap_err();
    assert_eq!(e.full_text(), "no home");
    for one in ["REPUBLISHER_TLS_CERT", "REPUBLISHER_TLS_KEY"] {
        let e = ServerOptions::from_env(None, None, &vars(&[(one, "x")]), any(), default_path()).unwrap_err();
        assert_eq!(
            e.full_text(),
            "REPUBLISHER_TLS_CERT and REPUBLISHER_TLS_KEY must be set together"
        );
    }
}

#[test]
fn the_boot_status_says_where_the_configuration_comes_from() {
    let (c, status) =
        web::boot_config(LoadOutcome::Missing, config(), &vars(&[]), None, nothing()).unwrap();
    assert_eq!(status, "Using default configuration");
    assert_eq!(c.mqtt.host, "localhost");

    let mut stored = config();
    stored.mqtt.host = "stored".to_string();
    let env = vars(&[("REPUBLISHER_PROTOCOL", "opcua"), ("REPUBLISHER_MQTT_RETAIN", "on")]);
    let (c, status) =
        web::boot_config(LoadOutcome::Loaded(stored), config(), &env, None, nothing()).unwrap();
    assert_eq!(
        status,
        "Loaded saved configuration; env overrides: protocol = opcua (env), mqtt.retain (env)"
    );
    assert_eq!((c.mqtt.host.as_str(), c.mqtt.retain), ("stored", true));

    let failed = LoadOutcome::Failed("bad toml".to_string());
    let (_, status) = web::boot_config(failed, config(), &vars(&[]), None, nothing()).unwrap();
    assert_eq!(status, "Using defaults; config load failed: bad toml");

    let bad = vars(&[("REPUBLISHER_MQTT_TLS", "perhaps")]);
    let e = web::boot_config(LoadOutcome::Missing, config(), &bad, None, nothing()).unwrap_err();
    assert_eq!(e.full_text(), "REPUBLISHER_MQTT_TLS: expected a boolean, got 'perhaps'");
}

#[test]
fn a_missing_protocol_is_chosen() {
    let ids = vec!["bacnet".to_string(), "modbus".to_string()];
    let mut c = config();
    web::choose_protocol(&mut c, &vec![]);
    assert_eq!(c.protocol, "");
    web::choose_protocol(&mut c, &ids);
    assert_eq!(c.protocol, "bacnet");
    c.protocol = "modbus".to_string();
    web::choose_protocol(&mut c, &ids);
    assert_eq!(c.protocol, "modbus");
}

#[test]
fn booting_makes_the_daemon_ready_or_says_why_not() {
    let env = vars(&[("REPUBLISHER_ADMIN_PASSWORD", "pw"), ("REPUBLISHER_AUTOSTART", "yes")]);
    let options = ServerOptions::from_env(None, None, &env, any(), default_path()).unwrap();
    let ids = vec!["bacnet".to_string()];
    let booted = web::boot(
        &options,
        false,
        LoadOutcome::Missing,
        config(),
        &env,
        None,
        nothing(),
        vec![],
        ids,
        77,
    )
    .unwrap();
    assert!(booted.autostart);
    assert_eq!(booted.status, "Using default configuration; env overrides: mqtt.autostart = true (env)");
    assert_eq!(booted.state.shared.config.protocol, "bacnet");
    assert_eq!(booted.state.shared.logs[0].message, booted.status);
    assert_eq!(booted.state.config_path, "/home/config.toml");
    assert!(booted.auth.verify_password("pw"));
    assert!(matches!(booted.notice, AuthNotice::Quiet));

    let off = vars(&[("REPUBLISHER_AUTH", "disabled")]);
    let refused = web::boot(
        &options,
        false,
        LoadOutcome::Missing,
        config(),
        &off,
        None,
        nothing(),
        vec![],
        vec![],
        77,
    );
    assert!(refused.unwrap_err().full_text().contains("loopback"));
}

#[test]
fn shutting_down_asks_the_republisher_first() {
    let mut booted = web::boot(
        &ServerOptions::from_env(None, None, &vars(&[]), any(), default_path()).unwrap(),
        false,
        LoadOutcome::Missing,
        config(),
        &vars(&[]),
        None,
        nothing(),
        vec![],
        vec![],
        0,
    )
    .unwrap();
    web::shut_down(&mut booted.state, 1);
    assert_eq!(booted.state.shared.stop_flag, None);
    assert_eq!(booted.state.shared.status_line, "Shutting down…");
    booted.state.shared.stop_flag = Some(false);
    web::shut_down(&mut booted.state, 2);
    assert_eq!(booted.state.shared.stop_flag, Some(true));
}

#[test]
fn only_the_shell_and_the_session_are_public() {
    for path in ["/", "/app.js", "/style.css", "/favicon.svg", "/favicon.png", "/logo.png", "/logo-dark.png", "/glyph.png", "/healthz"] {
        assert!(web::is_public(path, Method::Get));
        assert!(web::is_public(path, Method::Post));
    }
    for method in [Method::Get, Method::Post, Method::Delete] {
        assert!(web::is_public("/api/session", method));
    }
    assert!(!web::is_public("/api/session", Method::Put));
    assert!(!web::is_public("/api/state", Method::Get));
    assert!(!web::is_public("/api/session/", Method::Get));
    assert!(!web::is_public("", Method::Get));
}

#[test]
fn every_route_but_the_public_ones_needs_a_session() {
    let routes = web::routes();
    assert_eq!(routes.len(), 34);
    for route in &routes {
        let open = matches!(
            route.endpoint,
            Endpoint::Health
                | Endpoint::Index
                | Endpoint::AppJs
                | Endpoint::StyleCss
                | Endpoint::Favicon
                | Endpoint::FaviconPng
                | Endpoint::LogoPng
                | Endpoint::LogoDarkPng
                | Endpoint::GlyphPng
                | Endpoint::SessionInfo
                | Endpoint::Login
                | Endpoint::Logout
        );
        assert_eq!(web::is_public(route.path, route.method), open);
    }
    let start = routes.iter().find(|r| r.endpoint == Endpoint::Start).unwrap();
    assert_eq!((start.method, start.path), (Method::Post, "/api/republisher/start"));
    let glyph = routes.iter().find(|r| r.endpoint == Endpoint::GlyphPng).unwrap();
    assert_eq!((glyph.method, glyph.path), (Method::Get, "/glyph.png"));
}

#[test]
fn requests_without_a_session_are_turned_away() {
    let mut auth = Auth::new(true, false, None);
    auth.open_session("tok", 0);
    let cookie = Some("x=y; republisher_sid=tok");
    assert!(web::lets_through(&mut auth, "/api/state", Method::Get, cookie, 1));
    assert!(!web::lets_through(&mut auth, "/api/state", Method::Get, None, 1));
    assert!(!web::lets_through(&mut auth, "/api/state", Method::Get, Some("republisher_sid=forged"), 1));
    assert!(web::lets_through(&mut auth, "/healthz", Method::Get, None, 1));
    assert!(!web::lets_through(&mut auth, "/api/state", Method::Get, cookie, SESSION_TTL));
    let mut open = Auth::new(false, false, None);
    assert!(web::lets_through(&mut open, "/api/state", Method::Get, None, 1));
    let reply = web::unauthorized_reply();
    assert_eq!((reply.status, error_of(&reply.body)), (401, "authentication required"));
    assert_eq!(reply.headers, web::security_headers());
}

#[test]
fn changes_come_from_the_daemons_own_pages() {
    let host = Some("gui.local:8080");
    assert!(web::origin_allowed(Method::Post, host, Some("https://gui.local:8080")));
    assert!(web::origin_allowed(Method::Post, host, Some("http://gui.local:8080")));
    assert!(web::origin_allowed(Method::Post, host, Some("gui.local:8080")));
    assert!(web::origin_allowed(Method::Delete, host, None));
    assert!(!web::origin_allowed(Method::Post, host, Some("https://evil.example")));
    assert!(!web::origin_allowed(Method::Other, host, Some("null")));
    assert!(!web::origin_allowed(Method::Put, None, Some("https://gui.local:8080")));
    for method in [Method::Get, Method::Head, Method::Options] {
        assert!(web::origin_allowed(method, host, Some("https://evil.example")));
    }
    let reply = web::cross_origin_reply();
    assert_eq!((reply.status, error_of(&reply.body)), (403, "cross-origin request rejected"));
    match web::screen(Method::Post, host, Some("https://evil.example")) {
        Screening::Refused(reply) => {
            assert_eq!((reply.status, error_of(&reply.body)), (403, "cross-origin request rejected"));
            assert_eq!(reply.headers, web::security_headers());
        }
        Screening::Passed(_) => panic!("should be refused"),
    }
    match web::screen(Method::Post, host, Some("https://gui.local:8080")) {
        Screening::Passed(headers) => assert_eq!(headers, web::security_headers()),
        Screening::Refused(_) => panic!("should pass"),
    }
}

#[test]
fn every_reply_has_the_security_headers() {
    let headers = web::security_headers();
    assert_eq!(
        headers[0],
        (
            "content-security-policy",
            "default-src 'self'; img-src 'self' data:; style-src 'self'; script-src 'self'; connect-src 'self'; frame-ancestors 'none'; base-uri 'none'; form-action 'self'"
        )
    );
    assert_eq!(
        headers[1..],
        [
            ("x-content-type-options", "nosniff"),
            ("x-frame-options", "DENY"),
            ("referrer-policy", "no-referrer"),
        ]
    );
}

#[test]
fn assets_have_their_types() {
    let types = [
        (assets::index("x"), "text/html; charset=utf-8"),
        (assets::app_js("x"), "application/javascript; charset=utf-8"),
        (assets::style_css("x"), "text/css; charset=utf-8"),
        (assets::favicon("x"), "image/svg+xml"),
    ];
    for (reply, content_type) in types {
        assert_eq!(
            (reply.status, reply.content_type, reply.cache_control, reply.body.as_str()),
            (200, content_type, "no-cache", "x")
        );
    }
    let image = assets::png(vec![137, 80, 78, 71]);
    assert_eq!(
        (image.status, image.content_type, image.cache_control, image.body),
        (200, "image/png", "no-cache", vec![137, 80, 78, 71])
    );
}

#[test]
fn booting_without_a_credential_makes_a_password() {
    let env = vars(&[]);
    let options = ServerOptions::from_env(None, None, &env, any(), default_path()).unwrap();
    let booted = web::boot(
        &options,
        false,
        LoadOutcome::Missing,
        config(),
        &env,
        None,
        nothing(),
        vec![],
        vec![],
        0,
    )
    .unwrap();
    match booted.notice {
        AuthNotice::Generated(password) => {
            assert_eq!(password.len(), 24);
            assert!(password.chars().all(|c| c.is_ascii_alphanumeric()));
            assert!(booted.auth.verify_password(&password));
            assert!(!booted.auth.verify_password(""));
        }
        other => panic!("{other:?}"),
    }
}
