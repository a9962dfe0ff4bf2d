//! The web daemon: how it starts and stops, and which requests it lets through.

pub mod api;
pub mod assets;
pub mod auth;
pub mod dto;
pub mod envcfg;
pub mod state;

use vstd::prelude::*;
use vstd::string::*;

use crate::config;
use crate::config::AppConfig;
use crate::error;
use crate::error::BootError;
use crate::json::{Json, JsonModel};
use crate::model::{Capabilities, LogLevel};
use crate::text;
use crate::text::{join, same, strip_prefix};
use crate::web::api::error_body;
use crate::web::auth::{env_var, Auth, AuthNotice, EnvVars};
use crate::web::envcfg::{apply_env_overrides, MergedPoints};
use crate::web::state::WebState;

verus! {

/// What the daemon serves and from where.
#[derive(Debug)]
pub struct ServerOptions {
    pub bind: String,
    pub config_path: String,
    pub tls: Option<TlsPaths>,
}

/// Where the certificate and its key are.
#[derive(Debug)]
pub struct TlsPaths {
    pub cert: String,
    pub key: String,
}

/// What [`ServerOptions`] stand for.
pub struct OptionsModel {
    pub bind: Seq<char>,
    pub config_path: Seq<char>,
    pub tls: Option<(Seq<char>, Seq<char>)>,
}

impl View for ServerOptions {
    type V = OptionsModel;

    open spec fn view(&self) -> OptionsModel {
        OptionsModel {
            bind: self.bind@,
            config_path: self.config_path@,
            tls: match self.tls {
                Some(t) => Some((t.cert@, t.key@)),
                None => None,
            },
        }
    }
}

/// The address to serve: that of the command line, else that of the environment, else every
/// address of this machine.
pub open spec fn bind_choice(
    cli_bind: Option<Seq<char>>,
    vars: Map<Seq<char>, Seq<char>>,
) -> Seq<char> {
    match cli_bind {
        Some(b) => b,
        None => match auth::var(vars, "REPUBLISHER_BIND"@) {
            Some(b) => b,
            None => "0.0.0.0:8080"@,
        },
    }
}

/// The address to serve.
pub fn bind_text(cli_bind: &Option<String>, vars: &EnvVars) -> (r: String)
    ensures
        r@ == bind_choice(text::opt(*cli_bind), vars@),
{
    match cli_bind {
        Some(b) => b.clone(),
        None => match env_var(vars, "REPUBLISHER_BIND") {
            Some(b) => b,
            None => "0.0.0.0:8080".to_string(),
        },
    }
}

/// Where the configuration is: as the command line says, else as the environment says, else where
/// the system keeps such files.
pub open spec fn path_choice(
    cli_config: Option<Seq<char>>,
    vars: Map<Seq<char>, Seq<char>>,
    default_path: Result<Seq<char>, Seq<char>>,
) -> Result<Seq<char>, Seq<char>> {
    match cli_config {
        Some(p) => Ok(p),
        None => match auth::var(vars, "REPUBLISHER_CONFIG"@) {
            Some(p) => Ok(p),
            None => default_path,
        },
    }
}

/// The certificate and its key: both or neither.
pub open spec fn tls_choice(vars: Map<Seq<char>, Seq<char>>) -> Result<
    Option<(Seq<char>, Seq<char>)>,
    error::BootErrorModel,
> {
    match (auth::var(vars, "REPUBLISHER_TLS_CERT"@), auth::var(vars, "REPUBLISHER_TLS_KEY"@)) {
        (Some(cert), Some(key)) => Ok(Some((cert, key))),
        (None, None) => Ok(None),
        _ => Err(
            error::plain("REPUBLISHER_TLS_CERT and REPUBLISHER_TLS_KEY must be set together"@),
        ),
    }
}

/// The options, or the first thing that is wrong: with the address, with the place of the
/// configuration, or with the certificate.
pub open spec fn options_choice(
    cli_config: Option<Seq<char>>,
    cli_bind: Option<Seq<char>>,
    vars: Map<Seq<char>, Seq<char>>,
    address: Result<Seq<char>, Seq<char>>,
    default_path: Result<Seq<char>, Seq<char>>,
) -> Result<OptionsModel, error::BootErrorModel> {
    match address {
        Err(e) => Err(
            error::caused("invalid bind address '"@ + bind_choice(cli_bind, vars) + "'"@, e),
        ),
        Ok(bind) => match path_choice(cli_config, vars, default_path) {
            Err(e) => Err(error::plain(e)),
            Ok(config_path) => match tls_choice(vars) {
                Err(e) => Err(e),
                Ok(tls) => Ok(OptionsModel { bind, config_path, tls }),
            },
        },
    }
}

/// The view of a text or of the reason that there is none.
pub open spec fn text_result(r: Result<String, String>) -> Result<Seq<char>, Seq<char>> {
    match r {
        Ok(s) => Ok(s@),
        Err(e) => Err(e@),
    }
}

/// The view of options or of the reason that there are none.
pub open spec fn options_result(r: Result<ServerOptions, BootError>) -> Result<
    OptionsModel,
    error::BootErrorModel,
> {
    match r {
        Ok(o) => Ok(o@),
        Err(e) => Err(e@),
    }
}

impl ServerOptions {
    /// Takes the options from the command line and the environment. `address` is what the system
    /// makes of the address that [`bind_text`] gives, or what is wrong with it; `default_path` is
    /// where the system keeps the configuration, or why that is not known.
    pub fn from_env(
        cli_config: Option<String>,
        cli_bind: Option<String>,
        vars: &EnvVars,
        address: Result<String, String>,
        default_path: Result<String, String>,
    ) -> (r: Result<Self, BootError>)
        ensures
            options_result(r) == options_choice(
                text::opt(cli_config),
                text::opt(cli_bind),
                vars@,
                text_result(address),
                text_result(default_path),
            ),
    {
        let bind: String = match address {
            Ok(bind) => bind,
            Err(cause) => {
                let mut message = "invalid bind address '".to_string();
                message.append(&bind_text(&cli_bind, vars));
                message.append("'");
                return Err(BootError { message, cause: Some(cause) });
            },
        };
        let config_path: String = match cli_config {
            Some(p) => p,
            None => match env_var(vars, "REPUBLISHER_CONFIG") {
                Some(p) => p,
                None => match default_path {
                    Ok(p) => p,
                    Err(e) => return Err(BootError::new(e)),
                },
            },
        };
        let cert = env_var(vars, "REPUBLISHER_TLS_CERT");
        let key = env_var(vars, "REPUBLISHER_TLS_KEY");
        let tls: Option<TlsPaths> = match (cert, key) {
            (Some(cert), Some(key)) => Some(TlsPaths { cert, key }),
            (None, None) => None,
            _ => {
                return Err(
                    BootError::new(
                        "REPUBLISHER_TLS_CERT and REPUBLISHER_TLS_KEY must be set together".to_string(),
                    ),
                );
            },
        };
        Ok(ServerOptions { bind, config_path, tls })
    }
}

/// What came of reading the configuration from disk.
#[derive(Debug)]
pub enum LoadOutcome {
    /// There is none.
    Missing,
    /// This is it.
    Loaded(AppConfig),
    /// It could not be read.
    Failed(String),
}

/// What a [`LoadOutcome`] stands for.
pub enum LoadModel {
    Missing,
    Loaded(config::ConfigModel),
    Failed(Seq<char>),
}

impl View for LoadOutcome {
    type V = LoadModel;

    open spec fn view(&self) -> LoadModel {
        match self {
            LoadOutcome::Missing => LoadModel::Missing,
            LoadOutcome::Loaded(c) => LoadModel::Loaded(c@),
            LoadOutcome::Failed(e) => LoadModel::Failed(e@),
        }
    }
}

/// The configuration to start from.
pub open spec fn start_config(
    loaded: LoadModel,
    defaults: config::ConfigModel,
) -> config::ConfigModel {
    match loaded {
        LoadModel::Loaded(c) => c,
        _ => defaults,
    }
}

/// What is said of the configuration to start from.
pub open spec fn start_status(loaded: LoadModel) -> Seq<char> {
    match loaded {
        LoadModel::Missing => "Using default configuration"@,
        LoadModel::Loaded(_) => "Loaded saved configuration"@,
        LoadModel::Failed(e) => "Using defaults; config load failed: "@ + e,
    }
}

/// What is said at start: what the configuration is, and what the environment changed of it.
pub open spec fn boot_status(loaded: LoadModel, notes: Seq<Seq<char>>) -> Seq<char> {
    if notes.len() == 0 {
        start_status(loaded)
    } else {
        start_status(loaded) + "; env overrides: "@ + text::joined(notes, ", "@)
    }
}

/// The view of a configuration and what is said of it.
pub open spec fn boot_result(r: Result<(AppConfig, String), BootError>) -> Result<
    (config::ConfigModel, Seq<char>),
    error::BootErrorModel,
> {
    match r {
        Ok((c, status)) => Ok((c@, status@)),
        Err(e) => Err(e@),
    }
}

/// The configuration that the daemon starts with: what was stored, or the defaults, with the
/// environment applied. A stored configuration that cannot be read is passed over, a bad variable
/// is not. `secret` and `import` are those of [`apply_env_overrides`].
pub fn boot_config(
    loaded: LoadOutcome,
    defaults: AppConfig,
    vars: &EnvVars,
    secret: Option<String>,
    import: Result<MergedPoints, String>,
) -> (r: Result<(AppConfig, String), BootError>)
    ensures
        ({
            let run = envcfg::overrides(
                start_config(loaded@, defaults@),
                vars@,
                text::opt(secret),
                envcfg::import_view(import),
            );
            boot_result(r) == match envcfg::run_result(run) {
                Err(e) => Err(e),
                Ok(notes) => Ok((run.config, boot_status(loaded@, notes))),
            }
        }),
{
    let (mut config, mut status): (AppConfig, String) = match loaded {
        LoadOutcome::Loaded(config) => (config, "Loaded saved configuration".to_string()),
        LoadOutcome::Missing => (defaults, "Using default configuration".to_string()),
        LoadOutcome::Failed(e) => {
            let mut status = "Using defaults; config load failed: ".to_string();
            status.append(&e);
            (defaults, status)
        },
    };
    match apply_env_overrides(&mut config, vars, secret, import) {
        Err(e) => Err(e),
        Ok(notes) => {
            if notes.len() > 0 {
                status.append("; env overrides: ");
                status.append(&join(&notes, ", "));
            }
            Ok((config, status))
        },
    }
}

/// The configuration with a protocol: where none is configured, the first that there is an adapter
/// for.
pub open spec fn with_protocol(
    c: config::ConfigModel,
    ids: Seq<Seq<char>>,
) -> config::ConfigModel {
    if c.protocol.len() == 0 && ids.len() > 0 {
        config::ConfigModel { protocol: ids[0], ..c }
    } else {
        c
    }
}

/// Where no protocol is configured, takes the first that there is an adapter for.
pub fn choose_protocol(config: &mut AppConfig, ids: &Vec<String>)
    ensures
        final(config)@ == with_protocol(old(config)@, text::views(ids@)),
{
    if config.protocol.as_str().is_empty() && ids.len() > 0 {
        config.protocol = ids[0].clone();
    }
}

/// A daemon that is ready to serve.
#[derive(Debug)]
pub struct Booted {
    pub state: WebState,
    pub auth: Auth,
    pub notice: AuthNotice,
    /// What is said of the configuration.
    pub status: String,
    /// Whether to start the republisher at once.
    pub autostart: bool,
}

/// Makes a daemon ready: its configuration, then its authentication, then its state. The first that
/// fails is the reason not to start. `loopback` says whether only this machine reaches the address;
/// `capabilities` and `protocol_ids` are those of the adapters.
pub fn boot(
    options: &ServerOptions,
    loopback: bool,
    loaded: LoadOutcome,
    defaults: AppConfig,
    vars: &EnvVars,
    secret: Option<String>,
    import: Result<MergedPoints, String>,
    capabilities: Vec<Capabilities>,
    protocol_ids: Vec<String>,
    now_ms: i64,
) -> (r: Result<Booted, BootError>)
    ensures
        ({
            let run = envcfg::overrides(
                start_config(loaded@, defaults@),
                vars@,
                text::opt(secret),
                envcfg::import_view(import),
            );
            let refusal = auth::auth_refusal(
                vars@,
                options@.bind,
                loopback,
                auth::hash_error(vars@),
            );
            match r {
                Err(e) => match run.failed {
                    Some(reason) => e@ == reason,
                    None => refusal == Some(e@),
                },
                Ok(b) => {
                    let config = with_protocol(run.config, text::views(protocol_ids@));
                    let status = boot_status(loaded@, run.notes);
                    &&& run.failed is None
                    &&& refusal is None
                    &&& b.state@ == state::fresh(
                        text::views(capabilities@),
                        text::views(protocol_ids@),
                        config,
                        options@.config_path,
                        status,
                        now_ms,
                    )
                    &&& b.state@.shared.well_formed()
                    &&& auth::begun(vars@, options@.tls is Some, b.auth@, b.notice)
                    &&& b.notice matches AuthNotice::Generated(g) ==> g@.len() == 24
                        && auth::alphanumeric(g@)
                    &&& b.status@ == status
                    &&& b.autostart == config.mqtt.autostart
                },
            }
        }),
{
    let (mut config, status): (AppConfig, String) = match boot_config(
        loaded,
        defaults,
        vars,
        secret,
        import,
    ) {
        Ok(found) => found,
        Err(e) => return Err(e),
    };
    let (auth, notice): (Auth, AuthNotice) = match Auth::from_env(
        &options.bind,
        loopback,
        options.tls.is_some(),
        vars,
    ) {
        Ok(found) => found,
        Err(e) => return Err(e),
    };
    choose_protocol(&mut config, &protocol_ids);
    let autostart: bool = config.mqtt.autostart;
    let state = WebState::new(
        capabilities,
        protocol_ids,
        config,
        options.config_path.clone(),
        status.clone(),
        now_ms,
    );
    Ok(Booted { state, auth, notice, status, autostart })
}

/// What is said once the daemon serves.
pub open spec fn listening_text(o: OptionsModel) -> Seq<char> {
    "config: "@ + o.config_path + " \u{b7} listening on "@ + (if o.tls is Some {
        "https://"@
    } else {
        "http://"@
    }) + o.bind
}

/// What is said once the daemon serves.
pub fn listening_line(options: &ServerOptions) -> (r: String)
    ensures
        r@ == listening_text(options@),
{
    let mut out = "config: ".to_string();
    out.append(&options.config_path);
    out.append(" \u{b7} listening on ");
    out.append(
        if options.tls.is_some() {
            "https://"
        } else {
            "http://"
        },
    );
    out.append(&options.bind);
    out
}

/// What is said of a certificate that cannot be loaded.
pub open spec fn tls_failure(cert: Seq<char>, key: Seq<char>) -> Seq<char> {
    "failed to load TLS cert/key ("@ + cert + ", "@ + key + ")"@
}

impl TlsPaths {
    /// What is said where they cannot be loaded.
    pub fn load_failure(&self) -> (r: String)
        ensures
            r@ == tls_failure(self.cert@, self.key@),
    {
        let mut out = "failed to load TLS cert/key (".to_string();
        out.append(&self.cert);
        out.append(", ");
        out.append(&self.key);
        out.append(")");
        out
    }
}

/// The state once the daemon is asked to stop: the republisher is asked first, so that it can
/// leave the broker in order.
pub fn shut_down(state: &mut WebState, now_ms: i64)
    requires
        old(state)@.shared.has_room(1),
    ensures
        old(state)@.shared.well_formed() ==> final(state)@.shared.well_formed(),
        final(state)@ == state::status_set(
            api::stop_asked(old(state)@),
            LogLevel::Info,
            "Shutting down\u{2026}"@,
            now_ms,
        ),
{
    if state.shared.stop_flag.is_some() {
        state.shared.stop_flag = Some(true);
    }
    state.set_status(LogLevel::Info, "Shutting down\u{2026}", now_ms);
}

/// The method of a request.
#[derive(Debug, Clone, Copy, PartialEq, Eq, Structural)]
pub enum Method {
    Get,
    Head,
    Options,
    Post,
    Put,
    Patch,
    Delete,
    Other,
}

/// The paths that a browser needs before it has a session: the login page and its files, and the
/// health probe.
pub open spec fn shell_path(path: Seq<char>) -> bool {
    ||| path == "/"@
    ||| path == "/app.js"@
    ||| path == "/style.css"@
    ||| path == "/favicon.svg"@
    ||| path == "/favicon.png"@
    ||| path == "/logo.png"@
    ||| path == "/logo-dark.png"@
    ||| path == "/glyph.png"@
    ||| path == "/healthz"@
}

/// Whether a request needs no session.
pub open spec fn public_request(path: Seq<char>, method: Method) -> bool {
    ||| shell_path(path)
    ||| path == "/api/session"@ && (method == Method::Get || method == Method::Post || method
        == Method::Delete)
}

/// Whether a request needs no session.
pub fn is_public(path: &str, method: Method) -> (r: bool)
    ensures
        r == public_request(path@, method),
{
    same(path, "/") || same(path, "/app.js") || same(path, "/style.css") || same(
        path,
        "/favicon.svg",
    ) || same(path, "/favicon.png") || same(path, "/logo.png") || same(path, "/logo-dark.png")
        || same(path, "/glyph.png") || same(path, "/healthz") || (same(path, "/api/session") && (
    method == Method::Get || method == Method::Post || method == Method::Delete))
}

/// What a request asks for.
#[derive(Debug, Clone, Copy, PartialEq, Eq, Structural)]
pub enum Endpoint {
    Health,
    Index,
    AppJs,
    StyleCss,
    Favicon,
    FaviconPng,
    LogoPng,
    LogoDarkPng,
    GlyphPng,
    State,
    Status,
    Capabilities,
    Config,
    Settings,
    Protocol,
    Connection,
    Interfaces,
    Discover,
    Browse,
    ScanAll,
    PollOnce,
    Points,
    SavePoint,
    ClearPoints,
    DeletePoint,
    TogglePoint,
    AddBrowsed,
    Start,
    Stop,
    Logs,
    Events,
    SessionInfo,
    Login,
    Logout,
}

/// A method and a path that are served, and what they ask for. `{index}` in a path stands for a
/// number.
#[derive(Debug)]
pub struct Route {
    pub method: Method,
    pub path: &'static str,
    pub endpoint: Endpoint,
}

impl View for Route {
    type V = (Method, Seq<char>, Endpoint);

    open spec fn view(&self) -> (Method, Seq<char>, Endpoint) {
        (self.method, self.path@, self.endpoint)
    }
}

/// Everything that is served.
pub open spec fn route_list() -> Seq<(Method, Seq<char>, Endpoint)> {
    seq![
        (Method::Get, "/healthz"@, Endpoint::Health),
        (Method::Get, "/"@, Endpoint::Index),
        (Method::Get, "/app.js"@, Endpoint::AppJs),
        (Method::Get, "/style.css"@, Endpoint::StyleCss),
        (Method::Get, "/favicon.svg"@, Endpoint::Favicon),
        (Method::Get, "/favicon.png"@, Endpoint::FaviconPng),
        (Method::Get, "/logo.png"@, Endpoint::LogoPng),
        (Method::Get, "/logo-dark.png"@, Endpoint::LogoDarkPng),
        (Method::Get, "/glyph.png"@, Endpoint::GlyphPng),
        (Method::Get, "/api/state"@, Endpoint::State),
        (Method::Get, "/api/status"@, Endpoint::Status),
        (Method::Get, "/api/capabilities"@, Endpoint::Capabilities),
        (Method::Get, "/api/config"@, Endpoint::Config),
        (Method::Put, "/api/settings"@, Endpoint::Settings),
        (Method::Post, "/api/protocol"@, Endpoint::Protocol),
        (Method::Put, "/api/connection"@, Endpoint::Connection),
        (Method::Get, "/api/interfaces"@, Endpoint::Interfaces),
        (Method::Post, "/api/discover"@, Endpoint::Discover),
        (Method::Post, "/api/devices/{index}/browse"@, Endpoint::Browse),
        (Method::Post, "/api/scan-all"@, Endpoint::ScanAll),
        (Method::Post, "/api/poll-once"@, Endpoint::PollOnce),
        (Method::Get, "/api/points"@, Endpoint::Points),
        (Method::Post, "/api/points"@, Endpoint::SavePoint),
        (Method::Delete, "/api/points"@, Endpoint::ClearPoints),
        (Method::Delete, "/api/points/{index}"@, Endpoint::DeletePoint),
        (Method::Patch, "/api/points/{index}"@, Endpoint::TogglePoint),
        (Method::Post, "/api/browsed/{index}/add"@, Endpoint::AddBrowsed),
        (Method::Post, "/api/republisher/start"@, Endpoint::Start),
        (Method::Post, "/api/republisher/stop"@, Endpoint::Stop),
        (Method::Get, "/api/logs"@, Endpoint::Logs),
        (Method::Get, "/api/events"@, Endpoint::Events),
        (Method::Get, "/api/session"@, Endpoint::SessionInfo),
        (Method::Post, "/api/session"@, Endpoint::Login),
        (Method::Delete, "/api/session"@, Endpoint::Logout),
    ]
}

/// One more thing that is served.
fn serve_at(routes: &mut Vec<Route>, method: Method, path: &'static str, endpoint: Endpoint)
    ensures
        text::views(final(routes)@) == text::views(old(routes)@).push((method, path@, endpoint)),
{
    let ghost before = routes@;
    routes.push(Route { method, path, endpoint });
    assert(text::views(routes@) =~= text::views(before).push((method, path@, endpoint)));
}

/// Everything that is served.
pub fn routes() -> (r: Vec<Route>)
    ensures
        text::views(r@) == route_list(),
{
    let mut out: Vec<Route> = Vec::new();
    assert(text::views(out@) =~= Seq::empty());
    serve_at(&mut out, Method::Get, "/healthz", Endpoint::Health);
    serve_at(&mut out, Method::Get, "/", Endpoint::Index);
    serve_at(&mut out, Method::Get, "/app.js", Endpoint::AppJs);
    serve_at(&mut out, Method::Get, "/style.css", Endpoint::StyleCss);
    serve_at(&mut out, Method::Get, "/favicon.svg", Endpoint::Favicon);
    serve_at(&mut out, Method::Get, "/favicon.png", Endpoint::FaviconPng);
    serve_at(&mut out, Method::Get, "/logo.png", Endpoint::LogoPng);
    serve_at(&mut out, Method::Get, "/logo-dark.png", Endpoint::LogoDarkPng);
    serve_at(&mut out, Method::Get, "/glyph.png", Endpoint::GlyphPng);
    serve_at(&mut out, Method::Get, "/api/state", Endpoint::State);
    serve_at(&mut out, Method::Get, "/api/status", Endpoint::Status);
    serve_at(&mut out, Method::Get, "/api/capabilities", Endpoint::Capabilities);
    serve_at(&mut out, Method::Get, "/api/config", Endpoint::Config);
    serve_at(&mut out, Method::Put, "/api/settings", Endpoint::Settings);
    serve_at(&mut out, Method::Post, "/api/protocol", Endpoint::Protocol);
    serve_at(&mut out, Method::Put, "/api/connection", Endpoint::Connection);
    serve_at(&mut out, Method::Get, "/api/interfaces", Endpoint::Interfaces);
    serve_at(&mut out, Method::Post, "/api/discover", Endpoint::Discover);
    serve_at(&mut out, Method::Post, "/api/devices/{index}/browse", Endpoint::Browse);
    serve_at(&mut out, Method::Post, "/api/scan-all", Endpoint::ScanAll);
    serve_at(&mut out, Method::Post, "/api/poll-once", Endpoint::PollOnce);
    serve_at(&mut out, Method::Get, "/api/points", Endpoint::Points);
    serve_at(&mut out, Method::Post, "/api/points", Endpoint::SavePoint);
    serve_at(&mut out, Method::Delete, "/api/points", Endpoint::ClearPoints);
    serve_at(&mut out, Method::Delete, "/api/points/{index}", Endpoint::DeletePoint);
    serve_at(&mut out, Method::Patch, "/api/points/{index}", Endpoint::TogglePoint);
    serve_at(&mut out, Method::Post, "/api/browsed/{index}/add", Endpoint::AddBrowsed);
    serve_at(&mut out, Method::Post, "/api/republisher/start", Endpoint::Start);
    serve_at(&mut out, Method::Post, "/api/republisher/stop", Endpoint::Stop);
    serve_at(&mut out, Method::Get, "/api/logs", Endpoint::Logs);
    serve_at(&mut out, Method::Get, "/api/events", Endpoint::Events);
    serve_at(&mut out, Method::Get, "/api/session", Endpoint::SessionInfo);
    serve_at(&mut out, Method::Post, "/api/session", Endpoint::Login);
    serve_at(&mut out, Method::Delete, "/api/session", Endpoint::Logout);
    out
}

/// Whether a request is let through.
pub open spec fn admitted(
    a: auth::AuthModel,
    path: Seq<char>,
    method: Method,
    cookie: Option<Seq<char>>,
    now: u64,
) -> bool {
    !a.required || public_request(path, method) || auth::holds_session(a, cookie, now)
}

/// Whether a request is let through. `cookie` is its cookie header.
pub fn lets_through(
    auth: &mut Auth,
    path: &str,
    method: Method,
    cookie: Option<&str>,
    now: u64,
) -> (r: bool)
    ensures
        r == admitted(old(auth)@, path@, method, text::opt(cookie), now),
        final(auth)@ == if old(auth)@.required && !public_request(path@, method) {
            auth::session_checked(old(auth)@, text::opt(cookie), now)
        } else {
            old(auth)@
        },
{
    if !auth.asks_for_session() || is_public(path, method) {
        return true;
    }
    auth.check_cookie(cookie, now)
}

/// Whether a method changes nothing.
pub open spec fn safe_method(method: Method) -> bool {
    method == Method::Get || method == Method::Head || method == Method::Options
}

/// The host that an origin names.
pub open spec fn origin_host(origin: Seq<char>) -> Seq<char> {
    if text::begins(origin, "https://"@) {
        origin.skip("https://"@.len() as int)
    } else if text::begins(origin, "http://"@) {
        origin.skip("http://"@.len() as int)
    } else {
        origin
    }
}

/// Whether a request comes from the daemon's own pages, or from no page at all. Browsers name the
/// origin; other clients do not.
pub open spec fn same_origin(
    method: Method,
    host: Option<Seq<char>>,
    origin: Option<Seq<char>>,
) -> bool {
    safe_method(method) || match origin {
        Some(o) => host == Some(origin_host(o)),
        None => true,
    }
}

/// Whether a request comes from the daemon's own pages, or from no page at all.
pub fn origin_allowed(method: Method, host: Option<&str>, origin: Option<&str>) -> (r: bool)
    ensures
        r == same_origin(method, text::opt(host), text::opt(origin)),
{
    if method == Method::Get || method == Method::Head || method == Method::Options {
        return true;
    }
    match origin {
        None => true,
        Some(o) => {
            let named: &str = match strip_prefix(o, "https://") {
                Some(rest) => rest,
                None => match strip_prefix(o, "http://") {
                    Some(rest) => rest,
                    None => o,
                },
            };
            match host {
                Some(h) => same(h, named),
                None => false,
            }
        },
    }
}

/// The headers of every reply, by name and value.
pub open spec fn reply_headers() -> Seq<(Seq<char>, Seq<char>)> {
    seq![
        (
            "content-security-policy"@,
            "default-src 'self'; img-src 'self' data:; style-src 'self'; script-src 'self'; connect-src 'self'; frame-ancestors 'none'; base-uri 'none'; form-action 'self'"@,
        ),
        ("x-content-type-options"@, "nosniff"@),
        ("x-frame-options"@, "DENY"@),
        ("referrer-policy"@, "no-referrer"@),
    ]
}

/// The views of names and values.
pub open spec fn header_views(s: Seq<(&'static str, &'static str)>) -> Seq<
    (Seq<char>, Seq<char>),
> {
    Seq::new(s.len(), |i: int| (s[i].0@, s[i].1@))
}

/// The headers of every reply. Scripts and styles come from the daemon alone, and no other site
/// may frame its pages.
pub fn security_headers() -> (r: Vec<(&'static str, &'static str)>)
    ensures
        header_views(r@) == reply_headers(),
{
    let mut out: Vec<(&'static str, &'static str)> = Vec::new();
    out.push(
        (
            "content-security-policy",
            "default-src 'self'; img-src 'self' data:; style-src 'self'; script-src 'self'; connect-src 'self'; frame-ancestors 'none'; base-uri 'none'; form-action 'self'",
        ),
    );
    out.push(("x-content-type-options", "nosniff"));
    out.push(("x-frame-options", "DENY"));
    out.push(("referrer-policy", "no-referrer"));
    assert(header_views(out@) =~= reply_headers());
    out
}

/// A reply that turns a request away: the HTTP status, the headers by name and value, and the body.
#[derive(Debug)]
pub struct Refusal {
    pub status: u16,
    pub headers: Vec<(&'static str, &'static str)>,
    pub body: Json,
}

/// What a [`Refusal`] stands for.
pub struct RefusalModel {
    pub status: u16,
    pub headers: Seq<(Seq<char>, Seq<char>)>,
    pub body: JsonModel,
}

impl View for Refusal {
    type V = RefusalModel;

    open spec fn view(&self) -> RefusalModel {
        RefusalModel {
            status: self.status,
            headers: header_views(self.headers@),
            body: self.body@,
        }
    }
}

/// How a request is turned away: as every reply, with the security headers.
pub open spec fn refused(status: u16, message: Seq<char>) -> RefusalModel {
    RefusalModel { status, headers: reply_headers(), body: api::error_json(message) }
}

/// What a request from another site's page is answered.
pub fn cross_origin_reply() -> (r: Refusal)
    ensures
        r@ == refused(403, "cross-origin request rejected"@),
{
    Refusal {
        status: 403,
        headers: security_headers(),
        body: error_body("cross-origin request rejected"),
    }
}

/// What a request without a session is answered.
pub fn unauthorized_reply() -> (r: Refusal)
    ensures
        r@ == refused(401, "authentication required"@),
{
    Refusal {
        status: 401,
        headers: security_headers(),
        body: error_body("authentication required"),
    }
}

/// What becomes of a request at the door.
#[derive(Debug)]
pub enum Screening {
    /// It is turned away with this reply.
    Refused(Refusal),
    /// It goes on, and whatever it is answered gets these headers.
    Passed(Vec<(&'static str, &'static str)>),
}

/// The headers that the reply to a screened request has.
pub open spec fn screened_headers(s: Screening) -> Seq<(Seq<char>, Seq<char>)> {
    match s {
        Screening::Refused(refusal) => refusal@.headers,
        Screening::Passed(headers) => header_views(headers@),
    }
}

/// Turns away what comes from another site's page, and gives every reply, a refusal too, the
/// security headers.
pub fn screen(method: Method, host: Option<&str>, origin: Option<&str>) -> (r: Screening)
    ensures
        screened_headers(r) == reply_headers(),
        match r {
            Screening::Passed(_) => same_origin(method, text::opt(host), text::opt(origin)),
            Screening::Refused(refusal) => !same_origin(
                method,
                text::opt(host),
                text::opt(origin),
            ) && refusal@ == refused(403, "cross-origin request rejected"@),
        },
{
    if origin_allowed(method, host, origin) {
        Screening::Passed(security_headers())
    } else {
        Screening::Refused(cross_origin_reply())
    }
}

/// No path of the interface but that of the session itself is served without a session.
pub proof fn law_api_needs_session(
    a: auth::AuthModel,
    path: Seq<char>,
    method: Method,
    cookie: Option<Seq<char>>,
    now: u64,
)
    requires
        a.required,
        text::begins(path, "/api/"@),
        path != "/api/session"@ || !(method == Method::Get || method == Method::Post || method
            == Method::Delete),
        !auth::holds_session(a, cookie, now),
    ensures
        !admitted(a, path, method, cookie, now),
{
    reveal_strlit("/api/");
    reveal_strlit("/");
    reveal_strlit("/app.js");
    reveal_strlit("/style.css");
    reveal_strlit("/favicon.svg");
    reveal_strlit("/favicon.png");
    reveal_strlit("/logo.png");
    reveal_strlit("/logo-dark.png");
    reveal_strlit("/glyph.png");
    reveal_strlit("/healthz");
    assert(path.take(5)[1] == 'a' && path.take(5)[3] == 'i');
    assert(path[1] == 'a' && path[3] == 'i');
    assert("/app.js"@[3] == 'p');
    assert("/style.css"@[1] == 's');
    assert("/favicon.svg"@[1] == 'f');
    assert("/favicon.png"@[1] == 'f');
    assert("/logo.png"@[1] == 'l');
    assert("/logo-dark.png"@[1] == 'l');
    assert("/glyph.png"@[1] == 'g');
    assert("/healthz"@[1] == 'h');
}

/// Whether something that is served needs a session.
pub open spec fn guarded(endpoint: Endpoint) -> bool {
    !(endpoint is Health || endpoint is Index || endpoint is AppJs || endpoint is StyleCss
        || endpoint is Favicon || endpoint is FaviconPng || endpoint is LogoPng
        || endpoint is LogoDarkPng || endpoint is GlyphPng || endpoint is SessionInfo
        || endpoint is Login || endpoint is Logout)
}

/// Everything that is served, but for the login page and its files, the health probe and the
/// session itself, needs a session.
pub proof fn law_routes_are_guarded(i: int)
    requires
        0 <= i < route_list().len(),
        guarded(route_list()[i].2),
    ensures
        !public_request(route_list()[i].1, route_list()[i].0),
{
    let (method, path, endpoint) = route_list()[i];
    assert(text::begins(path, "/api/"@) && path != "/api/session"@) by {
        reveal_strlit("/api/");
        reveal_strlit("/api/session");
        reveal_strlit("/api/state");
        assert("/api/state"@[6] == 't');
        assert("/api/state"@.take(5) =~= "/api/"@);
        reveal_strlit("/api/status");
        assert("/api/status"@[6] == 't');
        assert("/api/status"@.take(5) =~= "/api/"@);
        reveal_strlit("/api/capabilities");
        assert("/api/capabilities"@[5] == 'c');
        assert("/api/capabilities"@.take(5) =~= "/api/"@);
        reveal_strlit("/api/config");
        assert("/api/config"@[5] == 'c');
        assert("/api/config"@.take(5) =~= "/api/"@);
        reveal_strlit("/api/settings");
        assert("/api/settings"@[7] == 't');
        assert("/api/settings"@.take(5) =~= "/api/"@);
        reveal_strlit("/api/protocol");
        assert("/api/protocol"@[5] == 'p');
        assert("/api/protocol"@.take(5) =~= "/api/"@);
        reveal_strlit("/api/connection");
        assert("/api/connection"@[5] == 'c');
        assert("/api/connection"@.take(5) =~= "/api/"@);
        reveal_strlit("/api/interfaces");
        assert("/api/interfaces"@[5] == 'i');
        assert("/api/interfaces"@.take(5) =~= "/api/"@);
        reveal_strlit("/api/discover");
        assert("/api/discover"@[5] == 'd');
        assert("/api/discover"@.take(5) =~= "/api/"@);
        reveal_strlit("/api/devices/{index}/browse");
        assert("/api/devices/{index}/browse"@[5] == 'd');
        assert("/api/devices/{index}/browse"@.take(5) =~= "/api/"@);
        reveal_strlit("/api/scan-all");
        assert("/api/scan-all"@[6] == 'c');
        assert("/api/scan-all"@.take(5) =~= "/api/"@);
        reveal_strlit("/api/poll-once");
        assert("/api/poll-once"@[5] == 'p');
        assert("/api/poll-once"@.take(5) =~= "/api/"@);
        reveal_strlit("/api/points");
        assert("/api/points"@[5] == 'p');
        assert("/api/points"@.take(5) =~= "/api/"@);
        reveal_strlit("/api/points/{index}");
        assert("/api/points/{index}"@[5] == 'p');
        assert("/api/points/{index}"@.take(5) =~= "/api/"@);
        reveal_strlit("/api/browsed/{index}/add");
        assert("/api/browsed/{index}/add"@[5] == 'b');
        assert("/api/browsed/{index}/add"@.take(5) =~= "/api/"@);
        reveal_strlit("/api/republisher/start");
        assert("/api/republisher/start"@[5] == 'r');
        assert("/api/republisher/start"@.take(5) =~= "/api/"@);
        reveal_strlit("/api/republisher/stop");
        assert("/api/republisher/stop"@[5] == 'r');
        assert("/api/republisher/stop"@.take(5) =~= "/api/"@);
        reveal_strlit("/api/logs");
        assert("/api/logs"@[5] == 'l');
        assert("/api/logs"@.take(5) =~= "/api/"@);
        reveal_strlit("/api/events");
        assert("/api/events"@[5] == 'e');
        assert("/api/events"@.take(5) =~= "/api/"@);
    }
    let nobody = auth::fresh(true, false, None);
    law_api_needs_session(nobody, path, method, None, 0);
}

/// A request that changes something is turned away where its page is not of the host that it
/// addresses; one that changes nothing never is.
pub proof fn law_cross_origin(
    method: Method,
    host: Seq<char>,
    elsewhere: Seq<char>,
    origin: Option<Seq<char>>,
)
    requires
        elsewhere != host,
    ensures
        !safe_method(method) ==> !same_origin(
            method,
            Some(host),
            Some("https://"@ + elsewhere),
        ) && same_origin(method, Some(host), Some("https://"@ + host)),
        !safe_method(method) ==> !same_origin(method, Some(host), Some("http://"@ + elsewhere))
            && same_origin(method, Some(host), Some("http://"@ + host)),
        !safe_method(method) ==> same_origin(method, Some(host), None),
        safe_method(method) ==> same_origin(method, Some(host), origin),
{
    lemma_origin(elsewhere);
    lemma_origin(host);
}

/// An origin names the host behind its scheme.
proof fn lemma_origin(host: Seq<char>)
    ensures
        origin_host("https://"@ + host) == host,
        origin_host("http://"@ + host) == host,
{
    reveal_strlit("https://");
    reveal_strlit("http://");
    let a = "https://"@ + host;
    let b = "http://"@ + host;
    assert(a.take("https://"@.len() as int) =~= "https://"@);
    assert(b.take("http://"@.len() as int) =~= "http://"@);
    assert(a.skip("https://"@.len() as int) =~= host);
    assert(b.skip("http://"@.len() as int) =~= host);
    assert(!text::begins(b, "https://"@)) by {
        if text::begins(b, "https://"@) {
            assert(b.take("https://"@.len() as int)[4] == "https://"@[4]);
            assert(b[4] == "http://"@[4]);
        }
    }
}

} // verus!
