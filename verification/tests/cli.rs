use republisher::cli;
use republisher::cli::{Action, Exchange};
use republisher::table::Table;
use republisher::web::auth::EnvVars;

fn args(list: &[&str]) -> Vec<String> {
    list.iter().map(|a| a.to_string()).collect()
}

fn misuse(list: &[&str]) -> String {
    match cli::parse_args(&args(list)) {
        Action::Misuse(message) => message,
        _ => panic!("should be refused"),
    }
}

fn vars(pairs: &[(&str, &str)]) -> EnvVars {
    let mut out: EnvVars = Table::new();
    for (key, value) in pairs {
        out.insert(key.to_string(), value.to_string());
    }
    out
}

#[test]
fn arguments_say_what_to_do() {
    match cli::parse_args(&args(&["--config", "a", "--bind", "b", "--config", "c"])) {
        Action::Serve { config, bind } => {
            assert_eq!((config.as_deref(), bind.as_deref()), (Some("c"), Some("b")));
        }
        _ => panic!("should serve"),
    }
    assert!(matches!(cli::parse_args(&args(&[])), Action::Serve { config: None, bind: None }));
    assert!(matches!(cli::parse_args(&args(&["healthcheck", "junk"])), Action::Healthcheck));
    assert!(matches!(cli::parse_args(&args(&["--bind", "b", "-h"])), Action::Help));
    assert!(matches!(cli::parse_args(&args(&["--help"])), Action::Help));
    assert!(matches!(cli::parse_args(&args(&["-V"])), Action::Version));
    assert!(matches!(cli::parse_args(&args(&["--version"])), Action::Version));
}

#[test]
fn misuse_is_explained() {
    assert_eq!(misuse(&["--config"]), "--config requires a path");
    assert_eq!(misuse(&["--config", "a", "--bind"]), "--bind requires an address");
    assert_eq!(misuse(&["--nope"]), "unknown argument '--nope'");
    let text = cli::usage_error("--config requires a path");
    assert!(text.starts_with("republisherd: --config requires a path\n\nrepublisherd — NETIX"));
    assert!(text.ends_with("REPUBLISHER_POINTS_JSON          JSON array of points merged at boot\n"));
}

#[test]
fn the_probe_knows_its_port() {
    assert_eq!(cli::probe_port("0.0.0.0:8080"), Some(8080));
    assert_eq!(cli::probe_port("[::1]:443"), Some(443));
    assert_eq!(cli::probe_port("9000"), Some(9000));
    assert_eq!(cli::probe_port("host:"), None);
    assert_eq!(cli::probe_port("host:65536"), None);
    assert_eq!(cli::probe_port(""), None);
    assert_eq!(cli::probe_address(&vars(&[])), Ok("127.0.0.1:8080".to_string()));
    assert_eq!(
        cli::probe_address(&vars(&[("REPUBLISHER_BIND", "x:y")])),
        Err("healthcheck: cannot parse port from REPUBLISHER_BIND 'x:y'".to_string())
    );
    assert!(!cli::connection_suffices(&vars(&[])));
    assert!(cli::connection_suffices(&vars(&[("REPUBLISHER_TLS_CERT", "c")])));
}

#[test]
fn the_probe_judges_the_response() {
    assert_eq!(
        cli::PROBE_REQUEST,
        "GET /healthz HTTP/1.0\r\nHost: 127.0.0.1\r\nConnection: close\r\n\r\n"
    );
    assert_eq!(cli::probe_report("HTTP/1.0 200 OK\r\n\r\nok"), None);
    assert_eq!(cli::probe_report("HTTP/1.1 200"), None);
    assert_eq!(
        cli::probe_report("HTTP/1.1 503 Busy\r\nx: y\r\n").as_deref(),
        Some("healthcheck: unexpected response: HTTP/1.1 503 Busy")
    );
    assert_eq!(
        cli::probe_report("no line end\r").as_deref(),
        Some("healthcheck: unexpected response: no line end\r")
    );
    assert_eq!(cli::probe_report("\nx").as_deref(), Some("healthcheck: unexpected response: "));
    assert_eq!(cli::probe_report("").as_deref(), Some("healthcheck: unexpected response: <empty>"));
}

#[test]
fn the_daemon_is_up_when_it_connects_and_answers_well() {
    let plain = vars(&[]);
    let tls = vars(&[("REPUBLISHER_TLS_CERT", "c")]);
    let replied = |text: &str| Exchange::Replied(text.to_string());
    let refused = || Err("refused".to_string());
    assert_eq!(cli::healthcheck(&plain, Ok(()), replied("HTTP/1.1 200 OK")), Ok(()));
    assert_eq!(cli::healthcheck(&tls, Ok(()), replied("")), Ok(()));
    assert_eq!(
        cli::healthcheck(&plain, Ok(()), replied("")),
        Err("healthcheck: unexpected response: <empty>".to_string())
    );
    assert_eq!(
        cli::healthcheck(&tls, refused(), replied("HTTP/1.1 200 OK")),
        Err("healthcheck: connect 127.0.0.1:8080: refused".to_string())
    );
    assert_eq!(
        cli::healthcheck(&plain, Ok(()), Exchange::WriteFailed("broken".to_string())),
        Err("healthcheck: write: broken".to_string())
    );
    assert_eq!(
        cli::healthcheck(&plain, Ok(()), Exchange::ReadFailed("timed out".to_string())),
        Err("healthcheck: read: timed out".to_string())
    );
    let bad = vars(&[("REPUBLISHER_BIND", "x:y"), ("REPUBLISHER_TLS_CERT", "c")]);
    assert_eq!(
        cli::healthcheck(&bad, Ok(()), replied("HTTP/1.1 200 OK")),
        Err("healthcheck: cannot parse port from REPUBLISHER_BIND 'x:y'".to_string())
    );
}
