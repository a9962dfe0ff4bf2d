//! Laws of the command line, of starting, of the health probe and of what is served.

use vstd::prelude::*;
use vstd::string::*;

use crate::cli;
use crate::cli::{
    connection_suffices, healthcheck, parse_args, probe_address, probe_port, probe_report,
    usage_error, Action, Exchange,
};
use crate::config;
use crate::config::AppConfig;
use crate::error::BootError;
use crate::model;
use crate::model::{Capabilities, PointConfig};
use crate::sample;
use crate::sample::{bacnet_point, sample_config, simulator_points, written_line};
use crate::text;
use crate::web;
use crate::web::api::Interface;
use crate::web::assets;
use crate::web::assets::{AssetReply, ImageReply};
use crate::web::auth;
use crate::web::auth::{Auth, AuthNotice, EnvVars};
use crate::web::envcfg::{apply_env_overrides, MergedPoints};
use crate::web::state::WebState;
use crate::web::{
    bind_text, boot, boot_config, choose_protocol, listening_line, routes, Booted, Endpoint,
    LoadOutcome, Method, Route, ServerOptions, TlsPaths,
};

verus! {

/// Without arguments the daemon serves with what the environment says; a first word that names an
/// action decides.
pub proof fn law_first_argument(args: &Vec<String>, r: Action)
    requires
        call_ensures(parse_args, (args,), r),
    ensures
        args@.len() == 0 ==> r@ == (cli::ActionModel::Serve { config: None, bind: None }),
        args@.len() > 0 && args@[0]@ == "healthcheck"@ ==> r@ is Healthcheck,
        args@.len() > 0 && (args@[0]@ == "--help"@ || args@[0]@ == "-h"@) ==> r@ is Help,
        args@.len() > 0 && (args@[0]@ == "--version"@ || args@[0]@ == "-V"@) ==> r@ is Version,
        args@.len() == 1 && args@[0]@ == "--config"@ ==> r@ == cli::ActionModel::Misuse(
            "--config requires a path"@,
        ),
        args@.len() == 1 && args@[0]@ == "--bind"@ ==> r@ == cli::ActionModel::Misuse(
            "--bind requires an address"@,
        ),
        args@.len() > 0 && !is_word(args@[0]@) ==> r@ == cli::ActionModel::Misuse(
            "unknown argument '"@ + args@[0]@ + "'"@,
        ),
{
    reveal_strlit("healthcheck");
    reveal_strlit("--config");
    reveal_strlit("--bind");
    reveal_strlit("--help");
    reveal_strlit("-h");
    reveal_strlit("--version");
    reveal_strlit("-V");
    assert("healthcheck"@.len() == 11);
    assert("--config"@.len() == 8);
    assert("--bind"@.len() == 6);
    assert("--help"@.len() == 6);
    assert("-h"@.len() == 2);
    assert("--version"@.len() == 9);
    assert("-V"@.len() == 2);
    assert("--bind"@[2] == 'b');
    assert("--help"@[2] == 'h');
    assert("-h"@[1] == 'h');
    assert("-V"@[1] == 'V');
}

/// Whether the command line knows a word.
pub open spec fn is_word(s: Seq<char>) -> bool {
    s == "healthcheck"@ || s == "--config"@ || s == "--bind"@ || s == "--help"@ || s == "-h"@ || s
        == "--version"@ || s == "-V"@
}

/// An option with its value before the other arguments gives that value, unless they give another;
/// what else they ask for stays.
pub proof fn law_options(args: &Vec<String>, rest: &Vec<String>, r: Action, s: Action)
    requires
        call_ensures(parse_args, (args,), r),
        call_ensures(parse_args, (rest,), s),
        args@.len() == rest@.len() + 2,
        args@.skip(2) == rest@,
    ensures
        args@[0]@ == "--config"@ ==> r@ == match s@ {
            cli::ActionModel::Serve { config, bind } => cli::ActionModel::Serve {
                config: if config is Some {
                    config
                } else {
                    Some(args@[1]@)
                },
                bind,
            },
            other => other,
        },
        args@[0]@ == "--bind"@ ==> r@ == match s@ {
            cli::ActionModel::Serve { config, bind } => cli::ActionModel::Serve {
                config,
                bind: if bind is Some {
                    bind
                } else {
                    Some(args@[1]@)
                },
            },
            other => other,
        },
{
    reveal_strlit("healthcheck");
    reveal_strlit("--config");
    reveal_strlit("--bind");
    reveal_strlit("--help");
    reveal_strlit("-h");
    reveal_strlit("--version");
    reveal_strlit("-V");
    assert("healthcheck"@.len() == 11);
    assert("--config"@.len() == 8);
    assert("--bind"@.len() == 6);
    assert("--help"@.len() == 6);
    assert("-h"@.len() == 2);
    assert("--version"@.len() == 9);
    assert("-V"@.len() == 2);
    assert("--bind"@[2] == 'b');
    assert("--help"@[2] == 'h');
    assert("-h"@[1] == 'h');
    assert("-V"@[1] == 'V');
    let all = text::views(args@);
    let t = text::views(rest@);
    assert(all.skip(2) =~= t) by {
        assert forall|i: int| 0 <= i < t.len() implies all.skip(2)[i] == t[i] by {
            assert(args@.skip(2)[i] == rest@[i]);
        }
    }
    assert(all[0] == args@[0]@ && all[1] == args@[1]@);
    lemma_asked(t, Some(args@[1]@), None);
    lemma_asked(t, None, Some(args@[1]@));
    lemma_asked(t, None, None);
}

/// What earlier options give where the arguments do not give another.
proof fn lemma_asked(args: Seq<Seq<char>>, config: Option<Seq<char>>, bind: Option<Seq<char>>)
    ensures
        cli::asked(args, config, bind) == match cli::asked(args, None, None) {
            cli::ActionModel::Serve { config: c, bind: b } => cli::ActionModel::Serve {
                config: if c is Some {
                    c
                } else {
                    config
                },
                bind: if b is Some {
                    b
                } else {
                    bind
                },
            },
            other => other,
        },
    decreases args.len(),
{
    if args.len() >= 2 {
        lemma_asked(args.skip(2), Some(args[1]), bind);
        lemma_asked(args.skip(2), config, Some(args[1]));
        lemma_asked(args.skip(2), Some(args[1]), None);
        lemma_asked(args.skip(2), None, Some(args[1]));
    }
}

/// What is wrong with the command line comes before how it is used.
pub proof fn law_usage(message: &str, r: String)
    requires
        call_ensures(usage_error, (message,), r),
    ensures
        r@ == "republisherd: "@ + message@ + "\n\n"@ + cli::USAGE@,
{
}

/// The port is what stands behind the last colon, or all where there is none.
pub proof fn law_probe_port(bind: &str, r: Option<u16>, host: Seq<char>, port: Seq<char>)
    requires
        call_ensures(probe_port, (bind,), r),
        forall|i: int| 0 <= i < port.len() ==> #[trigger] port[i] != ':',
        bind@ == host + ":"@ + port || bind@ == port,
    ensures
        match text::number(port, 65535) {
            Some(n) => r is Some && r->Some_0 == n,
            None => r is None,
        },
{
    reveal_strlit(":");
    let at: int = if bind@ == port {
        0
    } else {
        host.len() as int + 1
    };
    lemma_behind(bind@, at);
    assert(bind@.subrange(at, bind@.len() as int) =~= port);
}

/// What stands behind the last colon.
proof fn lemma_behind(s: Seq<char>, i: int)
    requires
        0 <= i <= s.len(),
        i > 0 ==> s[i - 1] == ':',
        forall|k: int| i <= k < s.len() ==> s[k] != ':',
    ensures
        cli::after_last(s, ':') == s.subrange(i, s.len() as int),
    decreases s.len(),
{
    if i < s.len() {
        let t = s.drop_last();
        lemma_behind(t, i);
        assert(t.subrange(i, t.len() as int).push(s.last()) =~= s.subrange(i, s.len() as int));
    } else {
        assert(s.subrange(i, s.len() as int) =~= Seq::empty());
    }
}

/// The probe goes to this machine, to the port that the environment serves, and says what it cannot
/// read.
pub proof fn law_probe_address(vars: &EnvVars, r: Result<String, String>, bind: String, port: Option<u16>)
    requires
        call_ensures(probe_address, (vars,), r),
        call_ensures(bind_text, (&None::<String>, vars), bind),
        port == cli::port_of(bind@),
    ensures
        port matches Some(n) ==> r is Ok && r->Ok_0@ == "127.0.0.1:"@ + text::decimal(n as nat),
        port is None ==> r is Err && r->Err_0@
            == "healthcheck: cannot parse port from REPUBLISHER_BIND '"@ + bind@ + "'"@,
{
}

/// A response is healthy exactly when it starts with the status line of a success; of any other the
/// first line is told.
pub proof fn law_probe_report(response: &str, r: Option<String>, line: Seq<char>, rest: Seq<char>)
    requires
        call_ensures(probe_report, (response,), r),
        forall|i: int| 0 <= i < line.len() ==> #[trigger] line[i] != '\n' && line[i] != '\r',
    ensures
        r is None <==> text::begins(response@, "HTTP/1.0 200"@) || text::begins(
            response@,
            "HTTP/1.1 200"@,
        ),
        r is Some && response@.len() == 0 ==> r->Some_0@
            == "healthcheck: unexpected response: "@ + "<empty>"@,
        r is Some && response@.len() > 0 && (response@ == line || response@ == line + "\n"@ + rest
            || response@ == line + "\r\n"@ + rest) ==> r->Some_0@
            == "healthcheck: unexpected response: "@ + line,
{
    reveal_strlit("\n");
    reveal_strlit("\r\n");
    if response@ == line {
        lemma_line(response@, line.len() as int);
        assert(response@.take(line.len() as int) =~= line);
    }
    if response@ == line + "\n"@ + rest {
        lemma_line(response@, line.len() as int);
        assert(response@.take(line.len() as int) =~= line);
        if line.len() > 0 {
            assert(response@[line.len() - 1] == line[line.len() - 1]);
        }
    }
    if response@ == line + "\r\n"@ + rest {
        assert(response@[line.len() as int] == '\r');
        assert(response@[line.len() as int + 1] == '\n');
        lemma_line(response@, line.len() as int + 1);
        assert(response@.take(line.len() as int) =~= line);
    }
}

/// Where the first line ends.
proof fn lemma_line(s: Seq<char>, i: int)
    requires
        0 <= i <= s.len(),
        forall|k: int| 0 <= k < i ==> s[k] != '\n',
        i < s.len() ==> s[i] == '\n',
    ensures
        cli::line_end(s) == i,
    decreases s.len(),
{
    if i > 0 {
        let t = s.skip(1);
        assert forall|k: int| 0 <= k < i - 1 implies t[k] != '\n' by {
            assert(t[k] == s[k + 1]);
        }
        lemma_line(t, i - 1);
    }
}

/// The daemon is up where its port is known, it takes a connection, and it has a certificate or
/// answers well. The first of these that fails is the reason.
pub proof fn law_health(
    vars: &EnvVars,
    connected: Result<(), String>,
    exchange: Exchange,
    r: Result<(), String>,
    address: Result<String, String>,
    enough: bool,
    verdict: Option<String>,
)
    requires
        call_ensures(healthcheck, (vars, connected, exchange), r),
        call_ensures(probe_address, (vars,), address),
        call_ensures(connection_suffices, (vars,), enough),
        exchange matches Exchange::Replied(response) ==> text::opt(verdict) == cli::probe_verdict(
            response@,
        ),
    ensures
        enough <==> vars@.dom().contains("REPUBLISHER_TLS_CERT"@),
        address matches Err(e) ==> r is Err && r->Err_0@ == e@,
        address is Ok && connected is Err ==> r is Err && r->Err_0@ == "healthcheck: connect "@
            + address->Ok_0@ + ": "@ + connected->Err_0@,
        address is Ok && connected is Ok && enough ==> r is Ok,
        address is Ok && connected is Ok && !enough ==> match exchange {
            Exchange::WriteFailed(e) => r is Err && r->Err_0@ == "healthcheck: write: "@ + e@,
            Exchange::ReadFailed(e) => r is Err && r->Err_0@ == "healthcheck: read: "@ + e@,
            Exchange::Replied(_) => match verdict {
                None => r is Ok,
                Some(v) => r is Err && r->Err_0@ == v@,
            },
        },
{
}

/// The command line wins over the environment, and that over what is served otherwise.
pub proof fn law_bind(cli_bind: &Option<String>, vars: &EnvVars, r: String)
    requires
        call_ensures(bind_text, (cli_bind, vars), r),
    ensures
        *cli_bind matches Some(b) ==> r@ == b@,
        *cli_bind is None && vars@.dom().contains("REPUBLISHER_BIND"@) ==> r@
            == vars@["REPUBLISHER_BIND"@],
        *cli_bind is None && !vars@.dom().contains("REPUBLISHER_BIND"@) ==> r@ == "0.0.0.0:8080"@,
{
}

/// The options are the address as the system reads it, the configuration's place from the command
/// line, else from the environment, else where the system keeps it, and a certificate with its key.
/// An address that cannot be read, a place that is not known, and a certificate without its key or
/// the other way round, are refused in this order.
pub proof fn law_server_options(
    cli_config: Option<String>,
    cli_bind: Option<String>,
    vars: &EnvVars,
    address: Result<String, String>,
    default_path: Result<String, String>,
    r: Result<ServerOptions, BootError>,
)
    requires
        call_ensures(
            ServerOptions::from_env,
            (cli_config, cli_bind, vars, address, default_path),
            r,
        ),
    ensures
        ({
            let named = vars@.dom().contains("REPUBLISHER_CONFIG"@);
            let cert = vars@.dom().contains("REPUBLISHER_TLS_CERT"@);
            let key = vars@.dom().contains("REPUBLISHER_TLS_KEY"@);
            let placed = cli_config is Some || named || default_path is Ok;
            &&& r is Ok <==> address is Ok && placed && cert == key
            &&& address matches Err(e) ==> r is Err && text::opt(r->Err_0.cause) == Some(e@)
            &&& address is Ok && !placed ==> r is Err && r->Err_0.message@ == default_path->Err_0@
            &&& address is Ok && placed && cert != key ==> r is Err && r->Err_0.message@
                == "REPUBLISHER_TLS_CERT and REPUBLISHER_TLS_KEY must be set together"@
            &&& r matches Ok(o) ==> {
                &&& o.bind@ == address->Ok_0@
                &&& cli_config matches Some(p) ==> o.config_path@ == p@
                &&& cli_config is None && named ==> o.config_path@ == vars@["REPUBLISHER_CONFIG"@]
                &&& cli_config is None && !named ==> o.config_path@ == default_path->Ok_0@
                &&& o.tls is Some <==> cert
                &&& o.tls matches Some(t) ==> t.cert@ == vars@["REPUBLISHER_TLS_CERT"@] && t.key@
                    == vars@["REPUBLISHER_TLS_KEY"@]
            }
        }),
{
}

/// The daemon starts with the stored configuration where it could be read, and else with the
/// defaults, and the environment over it; its status says which, and everything that the
/// environment changed. A bad variable keeps it from starting.
pub proof fn law_boot_config(
    loaded: LoadOutcome,
    defaults: AppConfig,
    vars: &EnvVars,
    secret: Option<String>,
    import: Result<MergedPoints, String>,
    r: Result<(AppConfig, String), BootError>,
    c: &mut AppConfig,
    notes: Result<Vec<String>, BootError>,
)
    requires
        call_ensures(boot_config, (loaded, defaults, vars, secret, import), r),
        call_ensures(apply_env_overrides, (c, vars, secret, import), notes),
        match loaded {
            LoadOutcome::Loaded(stored) => old(c)@ == stored@,
            _ => old(c)@ == defaults@,
        },
    ensures
        r is Ok <==> notes is Ok,
        notes matches Err(e) ==> r is Err && r->Err_0@ == e@,
        r matches Ok((config, status)) ==> {
            let said = match loaded {
                LoadOutcome::Missing => "Using default configuration"@,
                LoadOutcome::Loaded(_) => "Loaded saved configuration"@,
                LoadOutcome::Failed(e) => "Using defaults; config load failed: "@ + e@,
            };
            &&& config@ == final(c)@
            &&& notes->Ok_0@.len() == 0 ==> status@ == said
            &&& notes->Ok_0@.len() > 0 ==> status@ == said + "; env overrides: "@ + text::joined(
                text::views(notes->Ok_0@),
                ", "@,
            )
        },
{
}

/// Where no protocol is configured the first one that there is an adapter for is taken; a
/// configured one stays, and nothing else changes.
pub proof fn law_choose_protocol(c: &mut AppConfig, ids: &Vec<String>)
    requires
        call_ensures(choose_protocol, (c, ids), ()),
    ensures
        old(c)@.protocol.len() > 0 || ids@.len() == 0 ==> final(c)@ == old(c)@,
        old(c)@.protocol.len() == 0 && ids@.len() > 0 ==> final(c)@.protocol == ids@[0]@,
        final(c)@ == (config::ConfigModel { protocol: final(c)@.protocol, ..old(c)@ }),
{
}

/// A daemon that starts has the configuration and the status of the start, with a protocol; the
/// authentication of the environment; and it starts the republisher at once where the configuration
/// says so. What keeps the configuration or the authentication from starting keeps the daemon.
pub proof fn law_boot(
    options: &ServerOptions,
    loopback: bool,
    loaded: LoadOutcome,
    defaults: AppConfig,
    vars: &EnvVars,
    secret: Option<String>,
    import: Result<MergedPoints, String>,
    capabilities: Vec<Capabilities>,
    ids: Vec<String>,
    now_ms: i64,
    r: Result<Booted, BootError>,
    configured: Result<(AppConfig, String), BootError>,
    bind: &str,
    authed: Result<(Auth, AuthNotice), BootError>,
    w: WebState,
    chosen: AppConfig,
)
    requires
        call_ensures(
            boot,
            (
                options, loopback, loaded, defaults, vars, secret, import, capabilities, ids, now_ms,
            ),
            r,
        ),
        call_ensures(boot_config, (loaded, defaults, vars, secret, import), configured),
        bind@ == options.bind@,
        call_ensures(Auth::from_env, (bind, loopback, options.tls is Some, vars), authed),
        configured matches Ok((c, status)) ==> chosen@ == (config::ConfigModel {
            protocol: if c@.protocol.len() == 0 && ids@.len() > 0 {
                ids@[0]@
            } else {
                c@.protocol
            },
            ..c@
        }) && call_ensures(
            WebState::new,
            (capabilities, ids, chosen, options.config_path, status, now_ms),
            w,
        ),
    ensures
        r is Ok <==> configured is Ok && authed is Ok,
        configured matches Err(e) ==> r is Err && r->Err_0@ == e@,
        configured is Ok && authed is Err ==> r is Err && r->Err_0@ == authed->Err_0@,
        r matches Ok(b) ==> {
            &&& b.auth@.required == authed->Ok_0.0@.required
            &&& b.auth@.cookie_secure == authed->Ok_0.0@.cookie_secure
            &&& b.notice !is Generated ==> b.auth@.credential == authed->Ok_0.0@.credential
            &&& b.notice matches AuthNotice::Generated(g) ==> b.auth@.credential == Some(
                auth::CredentialModel::Plain(g@),
            )
            &&& b.state@ == w@
            &&& b.status@ == configured->Ok_0.1@
            &&& b.autostart == chosen@.mqtt.autostart
            &&& b.state@.shared.config == chosen@
            &&& !b.auth@.required ==> loopback
            &&& b.auth@.required ==> b.auth@.credential is Some
            &&& options.tls is Some ==> b.auth@.cookie_secure
            &&& b.notice matches AuthNotice::Generated(g) ==> g@.len() == 24
        },
{
}

/// What is said once the daemon serves names the configuration's place, the address, and whether
/// the connection is secure.
pub proof fn law_listening(o: &ServerOptions, r: String, t: &TlsPaths, failure: String)
    requires
        call_ensures(listening_line, (o,), r),
        call_ensures(TlsPaths::load_failure, (t,), failure),
    ensures
        r@ == "config: "@ + o.config_path@ + " \u{b7} listening on "@ + (if o.tls is Some {
            "https://"@
        } else {
            "http://"@
        }) + o.bind@,
        failure@ == "failed to load TLS cert/key ("@ + t.cert@ + ", "@ + t.key@ + ")"@,
{
}

/// Where something is served.
pub open spec fn place(e: Endpoint) -> (Method, Seq<char>) {
    match e {
        Endpoint::Health => (Method::Get, "/healthz"@),
        Endpoint::Index => (Method::Get, "/"@),
        Endpoint::AppJs => (Method::Get, "/app.js"@),
        Endpoint::StyleCss => (Method::Get, "/style.css"@),
        Endpoint::Favicon => (Method::Get, "/favicon.svg"@),
        Endpoint::FaviconPng => (Method::Get, "/favicon.png"@),
        Endpoint::LogoPng => (Method::Get, "/logo.png"@),
        Endpoint::LogoDarkPng => (Method::Get, "/logo-dark.png"@),
        Endpoint::GlyphPng => (Method::Get, "/glyph.png"@),
        Endpoint::State => (Method::Get, "/api/state"@),
        Endpoint::Status => (Method::Get, "/api/status"@),
        Endpoint::Capabilities => (Method::Get, "/api/capabilities"@),
        Endpoint::Config => (Method::Get, "/api/config"@),
        Endpoint::Settings => (Method::Put, "/api/settings"@),
        Endpoint::Protocol => (Method::Post, "/api/protocol"@),
        Endpoint::Connection => (Method::Put, "/api/connection"@),
        Endpoint::Interfaces => (Method::Get, "/api/interfaces"@),
        Endpoint::Discover => (Method::Post, "/api/discover"@),
        Endpoint::Browse => (Method::Post, "/api/devices/{index}/browse"@),
        Endpoint::ScanAll => (Method::Post, "/api/scan-all"@),
        Endpoint::PollOnce => (Method::Post, "/api/poll-once"@),
        Endpoint::Points => (Method::Get, "/api/points"@),
        Endpoint::SavePoint => (Method::Post, "/api/points"@),
        Endpoint::ClearPoints => (Method::Delete, "/api/points"@),
        Endpoint::DeletePoint => (Method::Delete, "/api/points/{index}"@),
        Endpoint::TogglePoint => (Method::Patch, "/api/points/{index}"@),
        Endpoint::AddBrowsed => (Method::Post, "/api/browsed/{index}/add"@),
        Endpoint::Start => (Method::Post, "/api/republisher/start"@),
        Endpoint::Stop => (Method::Post, "/api/republisher/stop"@),
        Endpoint::Logs => (Method::Get, "/api/logs"@),
        Endpoint::Events => (Method::Get, "/api/events"@),
        Endpoint::SessionInfo => (Method::Get, "/api/session"@),
        Endpoint::Login => (Method::Post, "/api/session"@),
        Endpoint::Logout => (Method::Delete, "/api/session"@),
    }
}

/// Everything is served, each at its own place, and nothing twice.
pub proof fn law_routes(r: Vec<Route>, i: int, j: int, e: Endpoint)
    requires
        call_ensures(routes, (), r),
    ensures
        0 <= i < r@.len() ==> (r@[i].method, r@[i].path@) == place(r@[i].endpoint),
        0 <= i < j < r@.len() ==> r@[i].endpoint != r@[j].endpoint,
        exists|k: int| 0 <= k < r@.len() && (#[trigger] r@[k]).endpoint == e,
{
    let shown = text::views(r@);
    assert(shown == web::route_list());
    if 0 <= i < r@.len() {
        assert(shown[i] == (r@[i].method, r@[i].path@, r@[i].endpoint));
    }
    if 0 <= j < r@.len() {
        assert(shown[j].2 == r@[j].endpoint);
    }
    let k: int = match e {
        Endpoint::Health => 0,
        Endpoint::Index => 1,
        Endpoint::AppJs => 2,
        Endpoint::StyleCss => 3,
        Endpoint::Favicon => 4,
        Endpoint::FaviconPng => 5,
        Endpoint::LogoPng => 6,
        Endpoint::LogoDarkPng => 7,
        Endpoint::GlyphPng => 8,
        Endpoint::State => 9,
        Endpoint::Status => 10,
        Endpoint::Capabilities => 11,
        Endpoint::Config => 12,
        Endpoint::Settings => 13,
        Endpoint::Protocol => 14,
        Endpoint::Connection => 15,
        Endpoint::Interfaces => 16,
        Endpoint::Discover => 17,
        Endpoint::Browse => 18,
        Endpoint::ScanAll => 19,
        Endpoint::PollOnce => 20,
        Endpoint::Points => 21,
        Endpoint::SavePoint => 22,
        Endpoint::ClearPoints => 23,
        Endpoint::DeletePoint => 24,
        Endpoint::TogglePoint => 25,
        Endpoint::AddBrowsed => 26,
        Endpoint::Start => 27,
        Endpoint::Stop => 28,
        Endpoint::Logs => 29,
        Endpoint::Events => 30,
        Endpoint::SessionInfo => 31,
        Endpoint::Login => 32,
        Endpoint::Logout => 33,
    };
    assert(shown[k].2 == e);
    assert(r@[k].endpoint == e);
}

/// Each file is sent whole, under its own type, and asked for anew each time.
pub proof fn law_assets(
    body: &str,
    page: AssetReply,
    script: AssetReply,
    style: AssetReply,
    icon: AssetReply,
    bytes: Vec<u8>,
    image: ImageReply,
)
    requires
        call_ensures(assets::index, (body,), page),
        call_ensures(assets::app_js, (body,), script),
        call_ensures(assets::style_css, (body,), style),
        call_ensures(assets::favicon, (body,), icon),
        call_ensures(assets::png, (bytes,), image),
    ensures
        page.body@ == body@ && script.body@ == body@ && style.body@ == body@ && icon.body@ == body@,
        image.body@ == bytes@,
        page.status == 200 && script.status == 200 && style.status == 200 && icon.status == 200
            && image.status == 200,
        page.cache_control@ == "no-cache"@ && script.cache_control@ == "no-cache"@
            && style.cache_control@ == "no-cache"@ && icon.cache_control@ == "no-cache"@
            && image.cache_control@ == "no-cache"@,
        page.content_type@ == "text/html; charset=utf-8"@,
        script.content_type@ == "application/javascript; charset=utf-8"@,
        style.content_type@ == "text/css; charset=utf-8"@,
        icon.content_type@ == "image/svg+xml"@,
        image.content_type@ == "image/png"@,
{
    assert(page@.body == body@ && script@.body == body@ && style@.body == body@ && icon@.body
        == body@);
    assert(page@.content_type == "text/html; charset=utf-8"@);
    assert(script@.content_type == "application/javascript; charset=utf-8"@);
    assert(style@.content_type == "text/css; charset=utf-8"@);
    assert(icon@.content_type == "image/svg+xml"@);
    assert(page@.cache_control == "no-cache"@ && script@.cache_control == "no-cache"@);
    assert(style@.cache_control == "no-cache"@ && icon@.cache_control == "no-cache"@);
    assert(image@.content_type == "image/png"@ && image@.body == bytes@);
    assert(image@.cache_control == "no-cache"@);
    assert(page@.status == 200 && script@.status == 200 && style@.status == 200 && icon@.status
        == 200 && image@.status == 200);
}

/// A point of the simulator names its device and its object, and is read every ten seconds.
pub proof fn law_bacnet_point(
    device_key: &str,
    device_instance: u32,
    object_type: &str,
    object_instance: u32,
    tag_path: &str,
    r: PointConfig,
)
    requires
        call_ensures(
            bacnet_point,
            (device_key, device_instance, object_type, object_instance, tag_path),
            r,
        ),
    ensures
        r@.enabled,
        r@.device_key == device_key@,
        r@.tag_path == tag_path@,
        r@.poll_interval_secs == 10,
        r@.addressing.dom().contains("device_instance"@),
        r@.addressing["device_instance"@] == model::ValueModel::Number(
            text::decimal(device_instance as nat),
        ),
        r@.addressing.dom().contains("object_type"@),
        r@.addressing["object_type"@] == model::ValueModel::Text(object_type@),
        r@.addressing.dom().contains("object_instance"@),
        r@.addressing["object_instance"@] == model::ValueModel::Number(
            text::decimal(object_instance as nat),
        ),
        r@.addressing.dom().contains("property"@),
        r@.addressing["property"@] == model::ValueModel::Text("present_value"@),
{
    reveal_strlit("device_instance");
    reveal_strlit("object_type");
    reveal_strlit("object_instance");
    reveal_strlit("property");
    assert("device_instance"@.len() == 15);
    assert("object_type"@.len() == 11);
    assert("object_instance"@.len() == 15);
    assert("property"@.len() == 8);
    assert("device_instance"@[0] == 'd');
    assert("object_instance"@[0] == 'o');
}

/// The simulator has seven points: three of the air handler, two of the air volume box and two of
/// the meter, each tagged under its device.
pub proof fn law_simulator_points(r: Vec<PointConfig>, i: int)
    requires
        call_ensures(simulator_points, (), r),
        0 <= i < 7,
    ensures
        r@.len() == 7,
        r@[i]@.device_key == if i < 3 {
            "AHU-L-001"@
        } else if i < 5 {
            "VAV-OFC-001"@
        } else {
            "PLANT-MTR-001"@
        },
        r@[i]@.addressing["device_instance"@] == model::ValueModel::Number(
            text::decimal(
                if i < 3 {
                    10700
                } else if i < 5 {
                    10900
                } else {
                    10600
                },
            ),
        ),
        r@[i]@.tag_path == r@[i]@.device_key + seq![
            "/SupplyAirTemp"@, "/ReturnAirTemp"@, "/SupplyFanStatus"@, "/RoomTemp"@,
            "/DamperPosition"@, "/ActivePower"@, "/TotalEnergy"@,
        ][i],
        r@[i]@.addressing["object_instance"@] == model::ValueModel::Number(
            text::decimal(
                if i == 1 {
                    2
                } else if i == 6 {
                    9
                } else {
                    1
                },
            ),
        ),
        r@[i]@.addressing["object_type"@] == model::ValueModel::Text(
            if i == 2 {
                "binary_input"@
            } else if i == 4 {
                "analog_output"@
            } else {
                "analog_input"@
            },
        ),
        r@[i]@.enabled,
{
    reveal_strlit("device_instance");
    reveal_strlit("object_type");
    reveal_strlit("object_instance");
    reveal_strlit("property");
    assert("device_instance"@.len() == 15);
    assert("object_type"@.len() == 11);
    assert("object_instance"@.len() == 15);
    assert("property"@.len() == 8);
    assert("device_instance"@[0] == 'd');
    assert("object_instance"@[0] == 'o');
    let shown = text::views(r@);
    assert(shown == sample::simulated());
    assert(sample::simulated().len() == 7);
    assert(shown.len() == r@.len());
    assert(shown[i] == r@[i]@);
    reveal_strlit("AHU-L-001");
    reveal_strlit("VAV-OFC-001");
    reveal_strlit("PLANT-MTR-001");
    reveal_strlit("/SupplyAirTemp");
    reveal_strlit("/ReturnAirTemp");
    reveal_strlit("/SupplyFanStatus");
    reveal_strlit("/RoomTemp");
    reveal_strlit("/DamperPosition");
    reveal_strlit("/ActivePower");
    reveal_strlit("/TotalEnergy");
    reveal_strlit("AHU-L-001/SupplyAirTemp");
    reveal_strlit("AHU-L-001/ReturnAirTemp");
    reveal_strlit("AHU-L-001/SupplyFanStatus");
    reveal_strlit("VAV-OFC-001/RoomTemp");
    reveal_strlit("VAV-OFC-001/DamperPosition");
    reveal_strlit("PLANT-MTR-001/ActivePower");
    reveal_strlit("PLANT-MTR-001/TotalEnergy");
    assert("AHU-L-001"@ + "/SupplyAirTemp"@ =~= "AHU-L-001/SupplyAirTemp"@);
    assert("AHU-L-001"@ + "/ReturnAirTemp"@ =~= "AHU-L-001/ReturnAirTemp"@);
    assert("AHU-L-001"@ + "/SupplyFanStatus"@ =~= "AHU-L-001/SupplyFanStatus"@);
    assert("VAV-OFC-001"@ + "/RoomTemp"@ =~= "VAV-OFC-001/RoomTemp"@);
    assert("VAV-OFC-001"@ + "/DamperPosition"@ =~= "VAV-OFC-001/DamperPosition"@);
    assert("PLANT-MTR-001"@ + "/ActivePower"@ =~= "PLANT-MTR-001/ActivePower"@);
    assert("PLANT-MTR-001"@ + "/TotalEnergy"@ =~= "PLANT-MTR-001/TotalEnergy"@);
}

/// The sample configuration talks to the simulator over BACnet and to a broker without encryption;
/// it uses the first bridge, else the first interface, and says which. What it does not set stays
/// as it was.
pub proof fn law_sample(
    defaults: AppConfig,
    interfaces: &Vec<Interface>,
    r: (AppConfig, Option<String>),
    points: Vec<PointConfig>,
    k: int,
)
    requires
        call_ensures(sample_config, (defaults, interfaces), r),
        call_ensures(simulator_points, (), points),
    ensures
        ({
            let c = r.0@;
            let bacnet = c.connections["bacnet"@];
            let bridge = "bridge"@;
            &&& c.protocol == "bacnet"@
            &&& c.points == text::views(points@)
            &&& c.mqtt == (config::MqttModel { use_tls: false, port: 1883, ..defaults@.mqtt })
            &&& c.discover_on_start == defaults@.discover_on_start
            &&& c.theme == defaults@.theme
            &&& c.connections.dom().contains("bacnet"@)
            &&& forall|other: Seq<char>|
                other != "bacnet"@ ==> (#[trigger] c.connections.dom().contains(other))
                    == defaults@.connections.dom().contains(other) && c.connections[other]
                    == defaults@.connections[other]
            &&& bacnet["discover_all_interfaces"@] == model::ValueModel::Bool(false)
            &&& bacnet["port"@] == model::ValueModel::Number(text::decimal(0))
            &&& bacnet["broadcast_address"@] == model::ValueModel::Text("255.255.255.255"@)
            &&& bacnet["bind_failure_policy"@] == model::ValueModel::Text("skip"@)
            &&& interfaces@.len() == 0 ==> r.1 is None && !bacnet.dom().contains("interface"@)
            &&& 0 <= k < interfaces@.len() && text::begins(interfaces@[k].name@, bridge) && (
            forall|j: int| 0 <= j < k ==> !text::begins((#[trigger] interfaces@[j]).name@, bridge))
                ==> {
                &&& bacnet["interface"@] == model::ValueModel::Text(interfaces@[k].addr@)
                &&& r.1 is Some
                &&& r.1->Some_0@ == "Set bacnet interface to "@ + interfaces@[k].addr@ + " ("@
                    + interfaces@[k].name@ + ") for Docker/OrbStack reachability"@
            }
            &&& interfaces@.len() > 0 && (forall|j: int|
                0 <= j < interfaces@.len() ==> !text::begins(
                    (#[trigger] interfaces@[j]).name@,
                    bridge,
                )) ==> {
                &&& bacnet["interface"@] == model::ValueModel::Text(interfaces@[0].addr@)
                &&& r.1 is Some
                &&& r.1->Some_0@ == "No bridge NIC found; using first interface "@
                    + interfaces@[0].addr@ + " ("@ + interfaces@[0].name@ + ")"@
            }
        }),
{
    reveal_strlit("discover_all_interfaces");
    reveal_strlit("port");
    reveal_strlit("broadcast_address");
    reveal_strlit("bind_failure_policy");
    reveal_strlit("interface");
    assert("discover_all_interfaces"@.len() == 23);
    assert("port"@.len() == 4);
    assert("broadcast_address"@.len() == 17);
    assert("bind_failure_policy"@.len() == 19);
    assert("interface"@.len() == 9);
    let listed = sample::named(interfaces@);
    let bridge = "bridge"@;
    if 0 <= k < interfaces@.len() && text::begins(interfaces@[k].name@, bridge) && (forall|j: int|
        0 <= j < k ==> !text::begins((#[trigger] interfaces@[j]).name@, bridge)) {
        assert forall|j: int| 0 <= j < k implies !sample::is_bridge((#[trigger] listed[j]).0) by {
            assert(!text::begins(interfaces@[j].name@, bridge));
        }
        lemma_bridge(listed, 0, k);
    }
    if interfaces@.len() > 0 && (forall|j: int|
        0 <= j < interfaces@.len() ==> !text::begins((#[trigger] interfaces@[j]).name@, bridge)) {
        assert forall|j: int| 0 <= j < listed.len() implies !sample::is_bridge(
            (#[trigger] listed[j]).0,
        ) by {
            assert(!text::begins(interfaces@[j].name@, bridge));
        }
        lemma_bridge(listed, 0, listed.len() as int);
    }
}

/// The first bridge.
proof fn lemma_bridge(interfaces: Seq<(Seq<char>, Seq<char>)>, from: int, k: int)
    requires
        0 <= from <= k <= interfaces.len(),
        forall|j: int| from <= j < k ==> !sample::is_bridge((#[trigger] interfaces[j]).0),
        k < interfaces.len() ==> sample::is_bridge(interfaces[k].0),
    ensures
        k < interfaces.len() ==> sample::bridge_from(interfaces, from) == Some(k),
        k == interfaces.len() ==> sample::bridge_from(interfaces, from) is None,
    decreases k - from,
{
    if from < k {
        lemma_bridge(interfaces, from + 1, k);
    }
}

/// What is said once the configuration was written names its place and counts its points.
pub proof fn law_written(path: &str, c: &AppConfig, r: String)
    requires
        call_ensures(written_line, (path, c), r),
    ensures
        r@ == "Wrote "@ + path@ + " with "@ + text::decimal(c@.points.len())
            + " simulator point(s)"@,
{
}

} // verus!
