use argon2::password_hash::{PasswordHasher, SaltString};
use republisher::table::Table;
use republisher::web::auth::{
    can_compute, session_from_cookie_header, Auth, AuthNotice, ClientIp, Credential, EnvVars,
    LOGIN_MAX_FAILURES, LOGIN_WINDOW, SESSION_TTL,
};

fn plain_auth(password: &str) -> Auth {
    Auth::new(true, false, Some(Credential::Plain(password.to_string())))
}

fn vars(pairs: &[(&str, &str)]) -> EnvVars {
    let mut out: EnvVars = Table::new();
    for (key, value) in pairs {
        out.insert(key.to_string(), value.to_string());
    }
    out
}

/// The argon2id PHC string of "correct horse" with small parameters.
fn phc_of(password: &str) -> String {
    let salt = SaltString::from_b64("c29tZXNhbHRzb21lc2FsdA").unwrap();
    let params = argon2::Params::new(8, 1, 1, None).unwrap();
    let hasher = argon2::Argon2::new(argon2::Algorithm::Argon2id, argon2::Version::V0x13, params);
    hasher.hash_password(password.as_bytes(), &salt).unwrap().to_string()
}

#[test]
fn plain_password_verifies_exactly() {
    let auth = plain_auth("hunter2hunter2");
    assert!(auth.verify_password("hunter2hunter2"));
    assert!(!auth.verify_password("hunter2"));
    assert!(!auth.verify_password(""));
}

#[test]
fn sessions_round_trip_and_logout() {
    let mut auth = plain_auth("pw");
    let token = auth.create_session(0);
    assert!(auth.check_session(&token, 1));
    auth.remove_session(&token);
    assert!(!auth.check_session(&token, 1));
    assert!(!auth.check_session("forged", 1));
}

#[test]
fn throttle_kicks_in_after_budget() {
    let mut auth = plain_auth("pw");
    let ip = ClientIp::V4(
        "10.0.0.9".split('.').fold(0, |n: u32, part| n * 256 + part.parse::<u32>().unwrap()),
    );
    assert!(!auth.throttled(ip, 5));
    for _ in 0..LOGIN_MAX_FAILURES {
        auth.record_failure(ip, 5);
    }
    assert!(auth.throttled(ip, 5));
}

#[test]
fn cookie_header_parsing_finds_session() {
    assert_eq!(
        session_from_cookie_header("a=b; republisher_sid=tok123; c=d"),
        Some("tok123")
    );
    assert_eq!(session_from_cookie_header("a=b"), None);
}

#[test]
fn cookie_header_edges() {
    assert_eq!(session_from_cookie_header(""), None);
    assert_eq!(session_from_cookie_header("republisher_sid"), None);
    assert_eq!(session_from_cookie_header("republisher_sid="), Some(""));
    assert_eq!(session_from_cookie_header("republisher_sid=a=b"), Some("a=b"));
    assert_eq!(session_from_cookie_header("xrepublisher_sid=a;republisher_sid=b"), Some("b"));
    assert_eq!(session_from_cookie_header("republisher_sid=a; republisher_sid=b"), Some("a"));
    assert_eq!(session_from_cookie_header(";;  republisher_sid=a  ;"), Some("a"));
}

#[test]
fn a_session_lasts_a_day_and_no_longer() {
    let mut auth = plain_auth("pw");
    auth.open_session("tok", 7);
    assert!(auth.check_session("tok", 7 + SESSION_TTL - 1));
    assert!(!auth.check_session("tok", 7 + SESSION_TTL));
    assert!(!auth.check_session("tok", 8));
}

#[test]
fn opening_a_session_drops_ended_ones_only() {
    let mut auth = plain_auth("pw");
    auth.open_session("old", 0);
    auth.open_session("young", 10);
    auth.open_session("new", SESSION_TTL);
    assert!(!auth.check_session("old", 1));
    assert!(auth.check_session("young", SESSION_TTL));
    assert!(auth.check_session("new", SESSION_TTL));
}

#[test]
fn tokens_are_random_letters_and_digits() {
    let mut auth = plain_auth("pw");
    let a = auth.create_session(0);
    let b = auth.create_session(0);
    assert_eq!(a.len(), 48);
    assert!(a.chars().all(|c| c.is_ascii_alphanumeric()));
    assert_ne!(a, b);
}

#[test]
fn throttle_forgets_after_the_window_and_knows_addresses_apart() {
    let mut auth = plain_auth("pw");
    let ip = ClientIp::V6(9);
    for _ in 0..LOGIN_MAX_FAILURES {
        auth.record_failure(ip, 100);
    }
    assert!(!auth.throttled(ClientIp::V4(9), 100));
    assert!(auth.throttled(ip, 100 + LOGIN_WINDOW - 1));
    assert!(!auth.throttled(ip, 100 + LOGIN_WINDOW));
}

#[test]
fn cookies_carry_the_token_and_the_flags() {
    let auth = plain_auth("pw");
    assert_eq!(
        auth.session_cookie("tok"),
        "republisher_sid=tok; Path=/; HttpOnly; SameSite=Strict"
    );
    assert_eq!(
        auth.clear_cookie(),
        "republisher_sid=; Path=/; HttpOnly; SameSite=Strict; Max-Age=0"
    );
    let secure = Auth::new(true, true, None);
    assert_eq!(
        secure.session_cookie("tok"),
        "republisher_sid=tok; Path=/; HttpOnly; SameSite=Strict; Secure"
    );
    assert_eq!(session_from_cookie_header(&secure.session_cookie("tok")), Some("tok"));
    assert_eq!(session_from_cookie_header(&secure.clear_cookie()), Some(""));
}

#[test]
fn a_hash_verifies_its_password_alone() {
    let auth = Auth::new(true, false, Some(Credential::Hash(phc_of("correct horse"))));
    assert!(auth.verify_password("correct horse"));
    assert!(!auth.verify_password("correct hors"));
    let broken = Auth::new(true, false, Some(Credential::Hash("nonsense".to_string())));
    assert!(!broken.verify_password("nonsense"));
    assert!(!Auth::new(true, false, None).verify_password(""));
}

#[test]
fn a_hash_that_cannot_be_computed_has_no_password() {
    let good = phc_of("correct horse");
    assert!(good.contains("p=1"));
    let with = |params: &str| {
        let hash = good.replace("m=8,t=1,p=1", params);
        Auth::new(true, false, Some(Credential::Hash(hash))).verify_password("correct horse")
    };
    assert!(with("m=8,t=1,p=1"));
    assert!(with("m=8,t=1"));
    assert!(!with("m=8,t=1,p=536870912"));
    assert!(!with("m=8,t=1,p=536870913"));
    assert!(!with("m=8,t=1,p=4294967295"));
    assert!(!with("m=8,t=1,p=4294967296"));
    assert!(!with("m=8,t=1,p=16777216"));
    assert!(!with("m=8,t=1,p=16777215"));
    assert!(!with("m=8,t=1,p=x"));
    assert!(!with("m=8,t=1,p=+1"));
    assert!(!with("m=18446744073709551615,t=1,p=1"));
    assert!(with("m=8,t=1,p=536870912,p=1"));
    assert!(!with("m=8,t=1,p=1,p=536870912"));
}

#[test]
fn the_last_value_of_a_parameter_counts() {
    let pairs = |list: &[(&str, &str)]| -> Vec<(String, String)> {
        list.iter().map(|(name, value)| (name.to_string(), value.to_string())).collect()
    };
    assert!(can_compute(&pairs(&[])));
    assert!(can_compute(&pairs(&[("p", "16777215")])));
    assert!(!can_compute(&pairs(&[("p", "16777216")])));
    assert!(can_compute(&pairs(&[("p", "16777216"), ("p", "4")])));
    assert!(!can_compute(&pairs(&[("p", "4"), ("p", "16777216"), ("t", "1")])));
    assert!(!can_compute(&pairs(&[("p", "")])));
    assert!(can_compute(&pairs(&[("m", "19456"), ("t", "99999999999")])));
    assert!(!can_compute(&pairs(&[("m", "18446744073709551615")])));
}

#[test]
fn a_token_need_not_be_letters_and_digits() {
    let auth = plain_auth("pw");
    for token in ["a=b", " x", "x y", "", "=", "é"] {
        assert_eq!(session_from_cookie_header(&auth.session_cookie(token)), Some(token));
    }
    assert_eq!(session_from_cookie_header(&auth.session_cookie("x ")), Some("x"));
    assert_eq!(session_from_cookie_header(&auth.session_cookie("x;y")), Some("x"));
}

#[test]
fn the_environment_names_the_credential() {
    let hash = phc_of("hashed");
    let both = vars(&[
        ("REPUBLISHER_ADMIN_PASSWORD_HASH", &hash),
        ("REPUBLISHER_ADMIN_PASSWORD", "plain"),
    ]);
    let (auth, notice) = Auth::from_env("0.0.0.0:8080", false, false, &both).unwrap();
    assert!(auth.asks_for_session() && !auth.has_secure_cookie());
    assert!(matches!(notice, AuthNotice::Quiet));
    assert!(auth.verify_password("hashed"));
    assert!(!auth.verify_password("plain"));

    let plain = vars(&[("REPUBLISHER_ADMIN_PASSWORD", " plain ")]);
    let (auth, _) = Auth::from_env("0.0.0.0:8080", false, true, &plain).unwrap();
    assert!(auth.has_secure_cookie());
    assert!(auth.verify_password(" plain "));
    assert!(!auth.verify_password("plain"));
}

#[test]
fn a_password_is_made_where_none_is_named() {
    let blank = vars(&[("REPUBLISHER_ADMIN_PASSWORD", "  "), ("REPUBLISHER_COOKIE_SECURE", "TRUE")]);
    let (auth, notice) = Auth::from_env("0.0.0.0:8080", false, false, &blank).unwrap();
    assert!(auth.asks_for_session() && auth.has_secure_cookie());
    match notice {
        AuthNotice::Generated(password) => {
            assert_eq!(password.len(), 24);
            assert!(password.chars().all(|c| c.is_ascii_alphanumeric()));
            assert!(auth.verify_password(&password));
        }
        _ => panic!("a password should be made"),
    }
}

#[test]
fn authentication_is_switched_off_on_loopback_only() {
    let off = vars(&[("REPUBLISHER_AUTH", "Disabled")]);
    let (auth, notice) = Auth::from_env("127.0.0.1:8080", true, false, &off).unwrap();
    assert!(!auth.asks_for_session());
    assert!(matches!(notice, AuthNotice::Disabled));
    let refused = Auth::from_env("0.0.0.0:8080", false, false, &off).unwrap_err();
    assert_eq!(
        refused.full_text(),
        "REPUBLISHER_AUTH=disabled is only allowed for loopback binds; refusing to serve an unauthenticated GUI on 0.0.0.0:8080"
    );
}

#[test]
fn a_bad_hash_is_refused() {
    let bad = vars(&[("REPUBLISHER_ADMIN_PASSWORD_HASH", "not a hash")]);
    let refused = Auth::from_env("0.0.0.0:8080", false, false, &bad).unwrap_err();
    assert_eq!(refused.message, "REPUBLISHER_ADMIN_PASSWORD_HASH is not a valid PHC string");
    assert!(refused.cause.is_some());
}
