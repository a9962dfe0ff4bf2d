//! The daemon's command line and its health probe.

use vstd::prelude::*;
use vstd::string::*;

use crate::text;
use crate::text::{chars_of, decimal_text, parse_u16, same, starts_with};
use crate::web;
use crate::web::auth;
use crate::web::auth::{env_var, EnvVars};
use crate::web::bind_text;

verus! {

/// How the daemon is used.
pub const USAGE: &'static str =
    "republisherd \u{2014} NETIX republisher web daemon\n\nUSAGE:\n    republisherd [--config <path>] [--bind <addr:port>]\n    republisherd healthcheck\n    republisherd --help | --version\n\nENVIRONMENT:\n    REPUBLISHER_BIND                 listen address (default 0.0.0.0:8080)\n    REPUBLISHER_CONFIG               config.toml path (default: OS config dir)\n    REPUBLISHER_TLS_CERT/_TLS_KEY    serve HTTPS from this PEM cert/key pair\n    REPUBLISHER_ADMIN_PASSWORD       web GUI admin password (plain)\n    REPUBLISHER_ADMIN_PASSWORD_HASH  web GUI admin password (argon2 PHC)\n    REPUBLISHER_AUTH=disabled        disable auth (loopback binds only)\n    REPUBLISHER_AUTOSTART            start republishing at boot (true/false)\n    REPUBLISHER_PROTOCOL             active protocol (bacnet/modbus/opcua)\n    REPUBLISHER_MQTT_*               broker overrides (HOST, PORT, TLS,\n                                     USERNAME, PASSWORD, CLIENT_ID,\n                                     TOPIC_PREFIX, HEALTH_TOPIC, RETAIN,\n                                     KEEP_ALIVE_SECS, PAYLOAD_FORMAT,\n                                     DEVICE_TOPIC_PREFIX, CA_CERT,\n                                     CLIENT_CERT, CLIENT_KEY,\n                                     CLIENT_KEY_PASSPHRASE)\n    REPUBLISHER_CONNECTION_JSON      JSON object merged into the active\n                                     protocol's connection settings\n    REPUBLISHER_POINTS_JSON          JSON array of points merged at boot\n";

/// What the command line asks for.
#[derive(Debug)]
pub enum Action {
    /// To serve.
    Serve { config: Option<String>, bind: Option<String> },
    /// To probe a daemon that serves.
    Healthcheck,
    /// To show how the daemon is used.
    Help,
    /// To show the version.
    Version,
    /// Nothing that makes sense.
    Misuse(String),
}

/// What an [`Action`] stands for.
pub enum ActionModel {
    Serve { config: Option<Seq<char>>, bind: Option<Seq<char>> },
    Healthcheck,
    Help,
    Version,
    Misuse(Seq<char>),
}

impl View for Action {
    type V = ActionModel;

    open spec fn view(&self) -> ActionModel {
        match self {
            Action::Serve { config, bind } => ActionModel::Serve {
                config: text::opt(*config),
                bind: text::opt(*bind),
            },
            Action::Healthcheck => ActionModel::Healthcheck,
            Action::Help => ActionModel::Help,
            Action::Version => ActionModel::Version,
            Action::Misuse(message) => ActionModel::Misuse(message@),
        }
    }
}

/// What the arguments ask for, read from the first to the last; the first one that is not an
/// option with a value decides, and of an option given twice the last value holds.
pub open spec fn asked(
    args: Seq<Seq<char>>,
    config: Option<Seq<char>>,
    bind: Option<Seq<char>>,
) -> ActionModel
    decreases args.len(),
{
    if args.len() == 0 {
        ActionModel::Serve { config, bind }
    } else if args[0] == "healthcheck"@ {
        ActionModel::Healthcheck
    } else if args[0] == "--config"@ {
        if args.len() >= 2 {
            asked(args.skip(2), Some(args[1]), bind)
        } else {
            ActionModel::Misuse("--config requires a path"@)
        }
    } else if args[0] == "--bind"@ {
        if args.len() >= 2 {
            asked(args.skip(2), config, Some(args[1]))
        } else {
            ActionModel::Misuse("--bind requires an address"@)
        }
    } else if args[0] == "--help"@ || args[0] == "-h"@ {
        ActionModel::Help
    } else if args[0] == "--version"@ || args[0] == "-V"@ {
        ActionModel::Version
    } else {
        ActionModel::Misuse("unknown argument '"@ + args[0] + "'"@)
    }
}

/// What the arguments, without the program's own name, ask for.
pub fn parse_args(args: &Vec<String>) -> (r: Action)
    ensures
        r@ == asked(text::views(args@), None, None),
{
    let mut config: Option<String> = None;
    let mut bind: Option<String> = None;
    let mut i: usize = 0;
    let ghost all = text::views(args@);
    assert(all.skip(0) =~= all);
    while i < args.len()
        invariant
            i <= args@.len(),
            all == text::views(args@),
            asked(all, None, None) == asked(all.skip(i as int), text::opt(config), text::opt(bind)),
        decreases args@.len() - i,
    {
        let ghost rest = all.skip(i as int);
        let arg: &str = args[i].as_str();
        assert(rest[0] == arg@);
        if same(arg, "healthcheck") {
            return Action::Healthcheck;
        } else if same(arg, "--config") {
            if i + 1 >= args.len() {
                return Action::Misuse("--config requires a path".to_string());
            }
            assert(rest.skip(2) =~= all.skip(i + 2));
            config = Some(args[i + 1].clone());
            i = i + 2;
        } else if same(arg, "--bind") {
            if i + 1 >= args.len() {
                return Action::Misuse("--bind requires an address".to_string());
            }
            assert(rest.skip(2) =~= all.skip(i + 2));
            bind = Some(args[i + 1].clone());
            i = i + 2;
        } else if same(arg, "--help") || same(arg, "-h") {
            return Action::Help;
        } else if same(arg, "--version") || same(arg, "-V") {
            return Action::Version;
        } else {
            let mut message = "unknown argument '".to_string();
            message.append(arg);
            message.append("'");
            return Action::Misuse(message);
        }
    }
    Action::Serve { config, bind }
}

/// What is said of a command line that makes no sense.
pub open spec fn usage_text(message: Seq<char>) -> Seq<char> {
    "republisherd: "@ + message + "\n\n"@ + USAGE@
}

/// What is said of a command line that makes no sense.
pub fn usage_error(message: &str) -> (r: String)
    ensures
        r@ == usage_text(message@),
{
    let mut out = "republisherd: ".to_string();
    out.append(message);
    out.append("\n\n");
    out.append(USAGE);
    out
}

/// What follows the last `c` in `s`; all of it where there is none.
pub open spec fn after_last(s: Seq<char>, c: char) -> Seq<char>
    decreases s.len(),
{
    if s.len() == 0 || s.last() == c {
        Seq::empty()
    } else {
        after_last(s.drop_last(), c).push(s.last())
    }
}

/// The port in an address to serve.
pub open spec fn port_of(bind: Seq<char>) -> Option<u16> {
    match text::number(after_last(bind, ':'), u16::MAX as nat) {
        Some(n) => Some(n as u16),
        None => None,
    }
}

proof fn lemma_after_last(s: Seq<char>, c: char, i: int)
    requires
        0 <= i <= s.len(),
        i > 0 ==> s[i - 1] == c,
        forall|k: int| i <= k < s.len() ==> s[k] != c,
    ensures
        after_last(s, c) == s.subrange(i, s.len() as int),
    decreases s.len(),
{
    if i < s.len() {
        let t = s.drop_last();
        lemma_after_last(t, c, i);
        assert(t.subrange(i, t.len() as int).push(s.last()) =~= s.subrange(i, s.len() as int));
    } else {
        assert(s.subrange(i, s.len() as int) =~= Seq::empty());
    }
}

/// The port in an address to serve.
pub fn probe_port(bind: &str) -> (r: Option<u16>)
    ensures
        r == port_of(bind@),
{
    let cs = chars_of(bind);
    let n: usize = cs.len();
    let mut i: usize = n;
    while i > 0 && cs[i - 1] != ':'
        invariant
            i <= n,
            n == cs.len(),
            cs@ == bind@,
            forall|k: int| i <= k < n ==> bind@[k] != ':',
        decreases i,
    {
        i = i - 1;
    }
    proof {
        lemma_after_last(bind@, ':', i as int);
    }
    match parse_u16(bind.substring_char(i, n)) {
        Ok(port) => Some(port),
        Err(_) => None,
    }
}

/// What the probe finds before it goes out: where to connect, or what is wrong.
pub open spec fn probe_plan(vars: Map<Seq<char>, Seq<char>>) -> Result<Seq<char>, Seq<char>> {
    let bind = web::bind_choice(None, vars);
    match port_of(bind) {
        Some(port) => Ok("127.0.0.1:"@ + text::decimal(port as nat)),
        None => Err("healthcheck: cannot parse port from REPUBLISHER_BIND '"@ + bind + "'"@),
    }
}

/// Where the probe is to connect on this machine, or what is wrong.
pub fn probe_address(vars: &EnvVars) -> (r: Result<String, String>)
    ensures
        web::text_result(r) == probe_plan(vars@),
{
    let bind = bind_text(&None, vars);
    match probe_port(&bind) {
        Some(port) => {
            let mut out = "127.0.0.1:".to_string();
            out.append(&decimal_text(port as u64));
            Ok(out)
        },
        None => {
            let mut out = "healthcheck: cannot parse port from REPUBLISHER_BIND '".to_string();
            out.append(&bind);
            out.append("'");
            Err(out)
        },
    }
}

/// Whether a connection is proof enough: with a certificate the probe does not speak to the daemon.
pub fn connection_suffices(vars: &EnvVars) -> (r: bool)
    ensures
        r == (auth::var(vars@, "REPUBLISHER_TLS_CERT"@) is Some),
{
    env_var(vars, "REPUBLISHER_TLS_CERT").is_some()
}

/// What the probe sends.
pub const PROBE_REQUEST: &'static str =
    "GET /healthz HTTP/1.0\r\nHost: 127.0.0.1\r\nConnection: close\r\n\r\n";

/// Whether a response says that all is well.
pub open spec fn is_healthy(response: Seq<char>) -> bool {
    text::begins(response, "HTTP/1.0 200"@) || text::begins(response, "HTTP/1.1 200"@)
}

/// Where the first line ends: before its line feed, or at the end of the text.
pub open spec fn line_end(s: Seq<char>) -> int
    decreases s.len(),
{
    if s.len() == 0 || s[0] == '\n' {
        0
    } else {
        1 + line_end(s.skip(1))
    }
}

/// The first line, without its line feed and a carriage return before that.
pub open spec fn first_line(s: Seq<char>) -> Seq<char> {
    let e = line_end(s);
    if e < s.len() && e > 0 && s[e - 1] == '\r' {
        s.take(e - 1)
    } else {
        s.take(e)
    }
}

/// What the probe says of a response; nothing where all is well.
pub open spec fn probe_verdict(response: Seq<char>) -> Option<Seq<char>> {
    if is_healthy(response) {
        None
    } else {
        Some(
            "healthcheck: unexpected response: "@ + if response.len() == 0 {
                "<empty>"@
            } else {
                first_line(response)
            },
        )
    }
}

/// What the probe says of a response; nothing where all is well.
pub fn probe_report(response: &str) -> (r: Option<String>)
    ensures
        text::opt(r) == probe_verdict(response@),
{
    if starts_with(response, "HTTP/1.0 200") || starts_with(response, "HTTP/1.1 200") {
        return None;
    }
    let cs = chars_of(response);
    let n: usize = cs.len();
    let mut out = "healthcheck: unexpected response: ".to_string();
    if n == 0 {
        out.append("<empty>");
        return Some(out);
    }
    let mut e: usize = 0;
    assert(response@.skip(0) =~= response@);
    while e < n && cs[e] != '\n'
        invariant
            e <= n,
            n == cs.len(),
            cs@ == response@,
            line_end(response@) == e + line_end(response@.skip(e as int)),
        decreases n - e,
    {
        assert(response@.skip(e as int).skip(1) =~= response@.skip(e + 1));
        e = e + 1;
    }
    let end: usize = if e < n && e > 0 && cs[e - 1] == '\r' {
        e - 1
    } else {
        e
    };
    assert(response@.take(end as int) =~= response@.subrange(0, end as int));
    out.append(response.substring_char(0, end));
    Some(out)
}

/// What came of sending the request and reading the response.
#[derive(Debug)]
pub enum Exchange {
    /// The request could not be sent.
    WriteFailed(String),
    /// The response could not be read.
    ReadFailed(String),
    /// This was read: all of the response, or nothing where there was no need to ask.
    Replied(String),
}

/// What an [`Exchange`] stands for.
pub enum ExchangeModel {
    WriteFailed(Seq<char>),
    ReadFailed(Seq<char>),
    Replied(Seq<char>),
}

impl View for Exchange {
    type V = ExchangeModel;

    open spec fn view(&self) -> ExchangeModel {
        match self {
            Exchange::WriteFailed(e) => ExchangeModel::WriteFailed(e@),
            Exchange::ReadFailed(e) => ExchangeModel::ReadFailed(e@),
            Exchange::Replied(response) => ExchangeModel::Replied(response@),
        }
    }
}

/// The view of a success or of the reason that there is none.
pub open spec fn done(r: Result<(), String>) -> Result<(), Seq<char>> {
    match r {
        Ok(_) => Ok(()),
        Err(e) => Err(e@),
    }
}

/// Whether a daemon is up: the port is known, it takes a connection there, and it either has a
/// certificate or answers well. Otherwise the first of these that fails is the reason.
pub open spec fn health(
    vars: Map<Seq<char>, Seq<char>>,
    connected: Result<(), Seq<char>>,
    exchange: ExchangeModel,
) -> Result<(), Seq<char>> {
    match probe_plan(vars) {
        Err(reason) => Err(reason),
        Ok(address) => match connected {
            Err(e) => Err("healthcheck: connect "@ + address + ": "@ + e),
            Ok(_) => if auth::var(vars, "REPUBLISHER_TLS_CERT"@) is Some {
                Ok(())
            } else {
                match exchange {
                    ExchangeModel::WriteFailed(e) => Err("healthcheck: write: "@ + e),
                    ExchangeModel::ReadFailed(e) => Err("healthcheck: read: "@ + e),
                    ExchangeModel::Replied(response) => match probe_verdict(response) {
                        None => Ok(()),
                        Some(reason) => Err(reason),
                    },
                }
            },
        },
    }
}

/// Says whether the daemon is up, from what came of connecting to it and of asking it. Where a step
/// was not made because an earlier one settled the matter, what is given for it does not count.
pub fn healthcheck(vars: &EnvVars, connected: Result<(), String>, exchange: Exchange) -> (r: Result<
    (),
    String,
>)
    ensures
        done(r) == health(vars@, done(connected), exchange@),
        r is Ok <==> {
            &&& port_of(web::bind_choice(None, vars@)) is Some
            &&& connected is Ok
            &&& {
                ||| auth::var(vars@, "REPUBLISHER_TLS_CERT"@) is Some
                ||| exchange@ matches ExchangeModel::Replied(response) && is_healthy(response)
            }
        },
{
    let address: String = match probe_address(vars) {
        Ok(address) => address,
        Err(reason) => return Err(reason),
    };
    match connected {
        Ok(()) => {},
        Err(e) => {
            let mut out = "healthcheck: connect ".to_string();
            out.append(&address);
            out.append(": ");
            out.append(&e);
            return Err(out);
        },
    }
    if connection_suffices(vars) {
        return Ok(());
    }
    match exchange {
        Exchange::WriteFailed(e) => {
            let mut out = "healthcheck: write: ".to_string();
            out.append(&e);
            Err(out)
        },
        Exchange::ReadFailed(e) => {
            let mut out = "healthcheck: read: ".to_string();
            out.append(&e);
            Err(out)
        },
        Exchange::Replied(response) => match probe_report(&response) {
            None => Ok(()),
            Some(reason) => Err(reason),
        },
    }
}

} // verus!
