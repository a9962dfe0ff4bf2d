//! Session authentication for the web interface.
//!
//! There is one administrator credential: a plain password or an argon2 PHC string. Where none is
//! configured, a random password is made at start. Authentication can be switched off on loopback
//! binds only. Moments are nanoseconds of a clock that never runs backwards.

use vstd::prelude::*;
use vstd::string::*;

use argon2::password_hash::PasswordHash;
use argon2::{Argon2, PasswordVerifier};
use rand::distributions::Alphanumeric;
use rand::rngs::OsRng;
use rand::Rng;
use subtle::ConstantTimeEq;

use crate::error;
use crate::error::BootError;
use crate::model;
use crate::table;
use crate::table::{Keep, Table, TableKey};
use crate::text;
use crate::text::{chars_of, lower, parse_u64, same, trim};

verus! {

/// The name of the session cookie.
pub const SESSION_COOKIE: &'static str = "republisher_sid";

/// How long a session lasts: a day.
pub const SESSION_TTL: u64 = 86_400_000_000_000;

/// How long a failed login counts: a minute.
pub const LOGIN_WINDOW: u64 = 60_000_000_000;

/// How many failed logins one address has within the window before it is turned away.
pub const LOGIN_MAX_FAILURES: usize = 10;

/// The environment: each variable that is set and its value.
pub type EnvVars = Table<String, String>;

/// The value of a variable.
pub open spec fn var(vars: Map<Seq<char>, Seq<char>>, name: Seq<char>) -> Option<Seq<char>> {
    if vars.dom().contains(name) {
        Some(vars[name])
    } else {
        None
    }
}

/// The value of a variable.
pub fn env_var(vars: &EnvVars, name: &str) -> (r: Option<String>)
    ensures
        text::opt(r) == var(vars@, name@),
{
    match vars.get(&name.to_string()) {
        Some(value) => Some(value.clone()),
        None => None,
    }
}

/// Where a login comes from.
#[derive(Debug, Clone, Copy, PartialEq, Eq, Structural)]
pub enum ClientIp {
    V4(u32),
    V6(u128),
}

impl TableKey for ClientIp {
    type Model = ClientIp;

    open spec fn key(&self) -> ClientIp {
        *self
    }

    fn same(&self, other: &Self) -> (r: bool) {
        *self == *other
    }

    fn copy_key(&self) -> (r: Self) {
        *self
    }
}

/// What a password is checked against.
#[derive(Debug)]
pub enum Credential {
    /// The password itself.
    Plain(String),
    /// An argon2 PHC string.
    Hash(String),
}

/// What a [`Credential`] stands for.
pub enum CredentialModel {
    Plain(Seq<char>),
    Hash(Seq<char>),
}

impl View for Credential {
    type V = CredentialModel;

    open spec fn view(&self) -> CredentialModel {
        match self {
            Credential::Plain(s) => CredentialModel::Plain(s@),
            Credential::Hash(s) => CredentialModel::Hash(s@),
        }
    }
}

/// The credential, the open sessions, and the failed logins of late.
#[derive(Debug)]
pub struct Auth {
    /// False only when switched off on a loopback bind.
    required: bool,
    /// Whether the session cookie is for secure connections only.
    cookie_secure: bool,
    credential: Option<Credential>,
    sessions: Table<String, u64>,
    failures: Table<ClientIp, Vec<u64>>,
}

/// What an [`Auth`] stands for: `sessions` gives each session's end, `failures` the moments of
/// each address's failed logins.
pub struct AuthModel {
    pub required: bool,
    pub cookie_secure: bool,
    pub credential: Option<CredentialModel>,
    pub sessions: Map<Seq<char>, u64>,
    pub failures: Map<ClientIp, Seq<u64>>,
}

impl View for Auth {
    type V = AuthModel;

    closed spec fn view(&self) -> AuthModel {
        AuthModel {
            required: self.required,
            cookie_secure: self.cookie_secure,
            credential: text::opt(self.credential),
            sessions: self.sessions@,
            failures: self.failures@,
        }
    }
}

/// What `PasswordHash::new` of the argon2 crate objects to in a text; `None` where the text is a
/// PHC string.
pub uninterp spec fn phc_error(s: Seq<char>) -> Option<Seq<char>>;

/// The parameters of a PHC string, name and value, in the order in which `ParamsString::iter` of
/// the argon2 crate's PHC parser gives them.
pub uninterp spec fn phc_params(s: Seq<char>) -> Seq<(Seq<char>, Seq<char>)>;

/// Whether `Argon2::verify_password` accepts a candidate for a PHC string.
pub uninterp spec fn argon2_accepts(hash: Seq<char>, candidate: Seq<char>) -> bool;

/// `PasswordHash::new` of the argon2 crate: what it objects to in `s`, which depends on `s` alone.
/// What a PHC string looks like is not stated.
#[verifier::external_body]
fn check_phc(s: &str) -> (r: Option<String>)
    ensures
        text::opt(r) == phc_error(s@),
{
    PasswordHash::new(s).err().map(|e| e.to_string())
}

/// `ParamsString::iter` on the parameters of the PHC string `s`, as the argon2 crate parses it:
/// each name and value as text. They depend on `s` alone; where they stand in it is not stated.
#[verifier::external_body]
fn read_params(s: &str) -> (r: Vec<(String, String)>)
    requires
        phc_error(s@) is None,
    ensures
        model::pair_views(r@) == phc_params(s@),
{
    match PasswordHash::new(s) {
        Ok(parsed) => parsed.params.iter().map(|(name, value)| {
            (name.as_str().to_string(), value.as_str().to_string())
        }).collect(),
        Err(_) => Vec::new(),
    }
}

/// The largest degree of parallelism that argon2 has.
pub const MAX_LANES: u64 = 16_777_215;

/// The bytes in one unit of argon2's memory cost.
pub const BLOCK_BYTES: u64 = 1024;

/// The value of a parameter; where it is given more than once, the last one.
pub open spec fn param(params: Seq<(Seq<char>, Seq<char>)>, name: Seq<char>) -> Option<Seq<char>>
    decreases params.len(),
{
    if params.len() == 0 {
        None
    } else if params.last().0 == name {
        Some(params.last().1)
    } else {
        param(params.drop_last(), name)
    }
}

/// Whether a value is left to its default, or is a number that is no larger than `max`.
pub open spec fn within(value: Option<Seq<char>>, max: nat) -> bool {
    match value {
        Some(v) => text::number(v, max) is Some,
        None => true,
    }
}

/// Whether argon2 can compute with these parameters at all: no more lanes than it has, and no more
/// memory than a machine of this word size can address.
pub open spec fn computable(params: Seq<(Seq<char>, Seq<char>)>) -> bool {
    &&& within(param(params, "p"@), MAX_LANES as nat)
    &&& within(param(params, "m"@), isize::MAX as nat / BLOCK_BYTES as nat)
}

/// The value of a parameter; where it is given more than once, the last one.
fn find_param<'a>(params: &'a Vec<(String, String)>, name: &str) -> (r: Option<&'a str>)
    ensures
        text::opt(r) == param(model::pair_views(params@), name@),
{
    let ghost all = model::pair_views(params@);
    let mut i: usize = params.len();
    assert(all.take(i as int) =~= all);
    while i > 0
        invariant
            i <= params@.len(),
            all == model::pair_views(params@),
            param(all, name@) == param(all.take(i as int), name@),
        decreases i,
    {
        assert(all.take(i as int).drop_last() =~= all.take(i - 1));
        if same(&params[i - 1].0, name) {
            return Some(params[i - 1].1.as_str());
        }
        i = i - 1;
    }
    None
}

/// Whether a value is left to its default, or is a number that is no larger than `max`.
fn is_within(value: Option<&str>, max: u64) -> (r: bool)
    ensures
        r == within(text::opt(value), max as nat),
{
    match value {
        Some(v) => match parse_u64(v) {
            Ok(n) => n <= max,
            Err(_) => false,
        },
        None => true,
    }
}

/// Whether argon2 can compute with these parameters at all.
pub fn can_compute(params: &Vec<(String, String)>) -> (r: bool)
    ensures
        r == computable(model::pair_views(params@)),
{
    let memory: u64 = isize::MAX as u64 / BLOCK_BYTES;
    is_within(find_param(params, "p"), MAX_LANES) && is_within(find_param(params, "m"), memory)
}

/// `Argon2::verify_password` of the argon2 crate, with its default instance, on the parsed PHC
/// string `hash`: whether it accepts depends on the two texts alone. It multiplies the lanes
/// without a test, and takes the memory that the string's parameters ask for, so parameters beyond
/// what it can compute with are left out. What argon2 computes is not stated, nor whether the
/// machine has the memory that is asked for.
#[verifier::external_body]
fn argon2_verify(hash: &str, candidate: &str) -> (r: bool)
    requires
        phc_error(hash@) is None,
        computable(phc_params(hash@)),
    ensures
        r == argon2_accepts(hash@, candidate@),
{
    match PasswordHash::new(hash) {
        Ok(parsed) => Argon2::default().verify_password(candidate.as_bytes(), &parsed).is_ok(),
        Err(_) => false,
    }
}

/// `ConstantTimeEq::ct_eq` of the subtle crate on the bytes of two texts: 1 when they are the same
/// bytes, and so the same text, and 0 otherwise.
#[verifier::external_body]
fn constant_time_same(a: &str, b: &str) -> (r: bool)
    ensures
        r == (a@ == b@),
{
    a.as_bytes().ct_eq(b.as_bytes()).unwrap_u8() == 1
}

/// Whether every character is an ASCII letter or digit.
pub open spec fn alphanumeric(s: Seq<char>) -> bool {
    forall|i: int| 0 <= i < s.len() ==> {
        ||| 'A' <= #[trigger] s[i] <= 'Z'
        ||| 'a' <= s[i] <= 'z'
        ||| '0' <= s[i] <= '9'
    }
}

/// `n` characters drawn by rand's `OsRng` from its `Alphanumeric` distribution, which holds the
/// ASCII letters and digits. Which ones come is chance; the call fails only where the operating
/// system gives no random numbers.
#[verifier::external_body]
fn random_alphanumeric(n: usize) -> (r: String)
    ensures
        r@.len() == n,
        alphanumeric(r@),
{
    OsRng.sample_iter(&Alphanumeric).take(n).map(char::from).collect()
}

/// A random session token.
pub(crate) fn new_token() -> (r: String)
    ensures
        r@.len() == 48,
        alphanumeric(r@),
{
    random_alphanumeric(48)
}

/// Whether authentication is switched off.
pub open spec fn auth_disabled(vars: Map<Seq<char>, Seq<char>>) -> bool {
    match var(vars, "REPUBLISHER_AUTH"@) {
        Some(v) => text::lowered(v) == text::lowered("disabled"@),
        None => false,
    }
}

/// Whether the session cookie is for secure connections only.
pub open spec fn secure_cookie(vars: Map<Seq<char>, Seq<char>>, tls_enabled: bool) -> bool {
    tls_enabled || match var(vars, "REPUBLISHER_COOKIE_SECURE"@) {
        Some(v) => v == "1"@ || text::lowered(v) == text::lowered("true"@),
        None => false,
    }
}

/// Why the daemon refuses to start on this environment. `phc` is what is wrong with the configured
/// hash, if anything is.
pub open spec fn auth_refusal(
    vars: Map<Seq<char>, Seq<char>>,
    bind: Seq<char>,
    loopback: bool,
    phc: Option<Seq<char>>,
) -> Option<error::BootErrorModel> {
    if auth_disabled(vars) {
        if loopback {
            None
        } else {
            Some(
                error::plain(
                    "REPUBLISHER_AUTH=disabled is only allowed for loopback binds; refusing to serve an unauthenticated GUI on "@
                        + bind,
                ),
            )
        }
    } else {
        match (var(vars, "REPUBLISHER_ADMIN_PASSWORD_HASH"@), phc) {
            (Some(_), Some(e)) => Some(
                error::caused("REPUBLISHER_ADMIN_PASSWORD_HASH is not a valid PHC string"@, e),
            ),
            _ => None,
        }
    }
}

/// What is wrong with the configured hash, if one is configured and anything is.
pub open spec fn hash_error(vars: Map<Seq<char>, Seq<char>>) -> Option<Seq<char>> {
    match var(vars, "REPUBLISHER_ADMIN_PASSWORD_HASH"@) {
        Some(hash) => phc_error(hash),
        None => None,
    }
}

/// The credential that the environment names; `None` where one has to be made.
pub open spec fn named_credential(vars: Map<Seq<char>, Seq<char>>) -> Option<CredentialModel> {
    match (
        var(vars, "REPUBLISHER_ADMIN_PASSWORD_HASH"@),
        var(vars, "REPUBLISHER_ADMIN_PASSWORD"@),
    ) {
        (Some(hash), _) => Some(CredentialModel::Hash(hash)),
        (None, Some(plain)) => if text::trimmed(plain).len() > 0 {
            Some(CredentialModel::Plain(plain))
        } else {
            None
        },
        (None, None) => None,
    }
}

/// What is to be told to the operator at start.
#[derive(Debug)]
pub enum AuthNotice {
    /// Nothing.
    Quiet,
    /// Authentication is switched off.
    Disabled,
    /// A password was made, and this is it.
    Generated(String),
}

/// Whether `candidate` is the password. A hash that argon2 cannot compute with has none.
pub open spec fn is_password(a: AuthModel, candidate: Seq<char>) -> bool {
    match a.credential {
        None => false,
        Some(CredentialModel::Plain(expected)) => expected == candidate,
        Some(CredentialModel::Hash(hash)) => phc_error(hash) is None && computable(
            phc_params(hash),
        ) && argon2_accepts(hash, candidate),
    }
}

/// A fresh state: no session, no failed login.
pub open spec fn fresh(
    required: bool,
    cookie_secure: bool,
    credential: Option<CredentialModel>,
) -> AuthModel {
    AuthModel {
        required,
        cookie_secure,
        credential,
        sessions: Map::empty(),
        failures: Map::empty(),
    }
}

/// What the environment starts the authentication with: nothing to check where it is switched off,
/// the credential that it names, or else a password that is told to the operator.
pub open spec fn begun(
    vars: Map<Seq<char>, Seq<char>>,
    tls_enabled: bool,
    a: AuthModel,
    notice: AuthNotice,
) -> bool {
    let secure = secure_cookie(vars, tls_enabled);
    if auth_disabled(vars) {
        a == fresh(false, secure, None) && notice is Disabled
    } else {
        match named_credential(vars) {
            Some(c) => a == fresh(true, secure, Some(c)) && notice is Quiet,
            None => match notice {
                AuthNotice::Generated(g) => a == fresh(
                    true,
                    secure,
                    Some(CredentialModel::Plain(g@)),
                ),
                _ => false,
            },
        }
    }
}

/// The sessions that have not ended.
pub open spec fn alive(sessions: Map<Seq<char>, u64>, now: u64) -> Map<Seq<char>, u64> {
    table::kept(sessions, |end: u64| if end > now { Some(end) } else { None::<u64> })
}

/// After a session with this token was opened: ended sessions are gone, and this one lasts a day.
pub open spec fn session_opened(a: AuthModel, token: Seq<char>, now: u64) -> AuthModel {
    AuthModel {
        sessions: alive(a.sessions, now).insert(token, (now + SESSION_TTL) as u64),
        ..a
    }
}

/// Whether the token names a session that has not ended.
pub open spec fn session_valid(a: AuthModel, token: Seq<char>, now: u64) -> bool {
    a.sessions.dom().contains(token) && a.sessions[token] > now
}

/// After the session was closed.
pub open spec fn session_closed(a: AuthModel, token: Seq<char>) -> AuthModel {
    AuthModel { sessions: a.sessions.remove(token), ..a }
}

/// The time from `at` to `now`; none where `at` lies ahead.
pub open spec fn elapsed(now: u64, at: u64) -> int {
    if now >= at {
        now - at
    } else {
        0
    }
}

/// The moments within the login window, in their order.
pub open spec fn recent(attempts: Seq<u64>, now: u64) -> Seq<u64>
    decreases attempts.len(),
{
    if attempts.len() == 0 {
        Seq::empty()
    } else {
        let rest = recent(attempts.drop_last(), now);
        if elapsed(now, attempts.last()) < LOGIN_WINDOW {
            rest.push(attempts.last())
        } else {
            rest
        }
    }
}

/// The moments of an address's failed logins.
pub open spec fn attempts_of(a: AuthModel, ip: ClientIp) -> Seq<u64> {
    if a.failures.dom().contains(ip) {
        a.failures[ip]
    } else {
        Seq::empty()
    }
}

/// Whether an address has used up its failed logins.
pub open spec fn is_throttled(a: AuthModel, ip: ClientIp, now: u64) -> bool {
    recent(attempts_of(a, ip), now).len() >= LOGIN_MAX_FAILURES
}

/// After an address was looked up: its moments outside the window are forgotten.
pub open spec fn looked_up(a: AuthModel, ip: ClientIp, now: u64) -> AuthModel {
    if a.failures.dom().contains(ip) {
        AuthModel { failures: a.failures.insert(ip, recent(a.failures[ip], now)), ..a }
    } else {
        a
    }
}

/// What is kept of an address's moments: those in the window, and no address without any.
pub open spec fn kept_attempts(now: u64) -> spec_fn(Seq<u64>) -> Option<Seq<u64>> {
    |attempts: Seq<u64>|
        if recent(attempts, now).len() > 0 {
            Some(recent(attempts, now))
        } else {
            None
        }
}

/// After a failed login.
pub open spec fn failure_recorded(a: AuthModel, ip: ClientIp, now: u64) -> AuthModel {
    AuthModel {
        failures: table::kept(
            a.failures.insert(ip, attempts_of(a, ip).push(now)),
            kept_attempts(now),
        ),
        ..a
    }
}

/// What the secure attribute adds to a cookie.
pub open spec fn secure_suffix(secure: bool) -> Seq<char> {
    if secure {
        "; Secure"@
    } else {
        ""@
    }
}

/// The cookie that hands out a session.
pub open spec fn session_cookie_text(token: Seq<char>, secure: bool) -> Seq<char> {
    SESSION_COOKIE@ + "="@ + token + "; Path=/; HttpOnly; SameSite=Strict"@ + secure_suffix(secure)
}

/// The cookie that takes a session back.
pub open spec fn clear_cookie_text(secure: bool) -> Seq<char> {
    SESSION_COOKIE@ + "=; Path=/; HttpOnly; SameSite=Strict; Max-Age=0"@ + secure_suffix(secure)
}

/// The moments within the login window, in their order.
fn prune(attempts: Vec<u64>, now: u64) -> (r: Vec<u64>)
    ensures
        r@ == recent(attempts@, now),
{
    let mut out: Vec<u64> = Vec::new();
    let mut i: usize = 0;
    while i < attempts.len()
        invariant
            i <= attempts.len(),
            out@ == recent(attempts@.take(i as int), now),
        decreases attempts.len() - i,
    {
        let at: u64 = attempts[i];
        let gone: u64 = if now >= at {
            now - at
        } else {
            0
        };
        proof {
            assert(attempts@.take(i + 1).drop_last() =~= attempts@.take(i as int));
        }
        if gone < LOGIN_WINDOW {
            out.push(at);
        }
        i = i + 1;
    }
    assert(attempts@.take(i as int) =~= attempts@);
    out
}

/// Keeps the sessions that have not ended.
struct Unended {
    now: u64,
}

impl Keep<u64> for Unended {
    closed spec fn kept(&self, end: u64) -> Option<u64> {
        if end > self.now {
            Some(end)
        } else {
            None
        }
    }

    fn keep(&self, end: u64) -> (r: Option<u64>) {
        if end > self.now {
            Some(end)
        } else {
            None
        }
    }
}

/// Keeps the moments within the login window.
struct InWindow {
    now: u64,
}

impl Keep<Vec<u64>> for InWindow {
    closed spec fn kept(&self, attempts: Seq<u64>) -> Option<Seq<u64>> {
        kept_attempts(self.now)(attempts)
    }

    fn keep(&self, attempts: Vec<u64>) -> (r: Option<Vec<u64>>) {
        let left = prune(attempts, self.now);
        if left.len() > 0 {
            Some(left)
        } else {
            None
        }
    }
}

/// Whether authentication is switched off.
fn disabled(vars: &EnvVars) -> (r: bool)
    ensures
        r == auth_disabled(vars@),
{
    match env_var(vars, "REPUBLISHER_AUTH") {
        Some(v) => same(&lower(&v), &lower("disabled")),
        None => false,
    }
}

impl Auth {
    /// A fresh state with this credential.
    pub fn new(required: bool, cookie_secure: bool, credential: Option<Credential>) -> (r: Self)
        ensures
            r@ == fresh(required, cookie_secure, text::opt(credential)),
    {
        Auth {
            required,
            cookie_secure,
            credential,
            sessions: Table::new(),
            failures: Table::new(),
        }
    }

    /// Takes the way to authenticate from the environment. `bind` is the address that is served,
    /// and `loopback` whether only this machine reaches it. `phc` is what is wrong with the
    /// configured hash, if anything is, and `generated` the password to use where none is
    /// configured.
    pub fn configured(
        bind: &str,
        loopback: bool,
        tls_enabled: bool,
        vars: &EnvVars,
        phc: Option<String>,
        generated: String,
    ) -> (r: Result<(Self, AuthNotice), BootError>)
        ensures
            match r {
                Err(e) => auth_refusal(vars@, bind@, loopback, text::opt(phc)) == Some(e@),
                Ok((auth, notice)) => {
                    &&& auth_refusal(vars@, bind@, loopback, text::opt(phc)) is None
                    &&& begun(vars@, tls_enabled, auth@, notice)
                    &&& notice matches AuthNotice::Generated(g) ==> g@ == generated@
                },
            },
    {
        let cookie_secure: bool = tls_enabled || match env_var(vars, "REPUBLISHER_COOKIE_SECURE") {
            Some(v) => same(&v, "1") || same(&lower(&v), &lower("true")),
            None => false,
        };
        if disabled(vars) {
            if !loopback {
                let mut message =
                    "REPUBLISHER_AUTH=disabled is only allowed for loopback binds; refusing to serve an unauthenticated GUI on ".to_string();
                message.append(bind);
                return Err(BootError::new(message));
            }
            return Ok((Auth::new(false, cookie_secure, None), AuthNotice::Disabled));
        }
        match env_var(vars, "REPUBLISHER_ADMIN_PASSWORD_HASH") {
            Some(hash) => {
                match phc {
                    Some(cause) => {
                        return Err(
                            BootError {
                                message:
                                    "REPUBLISHER_ADMIN_PASSWORD_HASH is not a valid PHC string".to_string(),
                                cause: Some(cause),
                            },
                        );
                    },
                    None => {},
                }
                return Ok(
                    (Auth::new(true, cookie_secure, Some(Credential::Hash(hash))), AuthNotice::Quiet),
                );
            },
            None => {},
        }
        match env_var(vars, "REPUBLISHER_ADMIN_PASSWORD") {
            Some(plain) => {
                if !trim(&plain).is_empty() {
                    return Ok(
                        (
                            Auth::new(true, cookie_secure, Some(Credential::Plain(plain))),
                            AuthNotice::Quiet,
                        ),
                    );
                }
            },
            None => {},
        }
        Ok(
            (
                Auth::new(true, cookie_secure, Some(Credential::Plain(generated.clone()))),
                AuthNotice::Generated(generated),
            ),
        )
    }

    /// Takes the way to authenticate from the environment, and makes a random password where it
    /// is needed.
    pub fn from_env(bind: &str, loopback: bool, tls_enabled: bool, vars: &EnvVars) -> (r: Result<
        (Self, AuthNotice),
        BootError,
    >)
        ensures
            match r {
                Err(e) => auth_refusal(vars@, bind@, loopback, hash_error(vars@)) == Some(e@),
                Ok((auth, notice)) => {
                    &&& auth_refusal(vars@, bind@, loopback, hash_error(vars@)) is None
                    &&& begun(vars@, tls_enabled, auth@, notice)
                    &&& notice matches AuthNotice::Generated(g) ==> g@.len() == 24 && alphanumeric(
                        g@,
                    )
                },
            },
    {
        if disabled(vars) {
            return Auth::configured(bind, loopback, tls_enabled, vars, None, String::new());
        }
        match env_var(vars, "REPUBLISHER_ADMIN_PASSWORD_HASH") {
            Some(hash) => {
                let phc = check_phc(&hash);
                return Auth::configured(bind, loopback, tls_enabled, vars, phc, String::new());
            },
            None => {},
        }
        let blank: bool = match env_var(vars, "REPUBLISHER_ADMIN_PASSWORD") {
            Some(plain) => trim(&plain).is_empty(),
            None => true,
        };
        let generated = if blank {
            random_alphanumeric(24)
        } else {
            String::new()
        };
        Auth::configured(bind, loopback, tls_enabled, vars, None, generated)
    }

    /// Whether a session is asked for.
    pub fn asks_for_session(&self) -> (r: bool)
        ensures
            r == self@.required,
    {
        self.required
    }

    /// Whether the session cookie is for secure connections only.
    pub fn has_secure_cookie(&self) -> (r: bool)
        ensures
            r == self@.cookie_secure,
    {
        self.cookie_secure
    }

    /// Whether `candidate` is the password.
    pub fn verify_password(&self, candidate: &str) -> (r: bool)
        ensures
            r == is_password(self@, candidate@),
    {
        match &self.credential {
            None => false,
            Some(Credential::Plain(expected)) => constant_time_same(expected, candidate),
            Some(Credential::Hash(hash)) => match check_phc(hash) {
                None => can_compute(&read_params(hash)) && argon2_verify(hash, candidate),
                Some(_) => false,
            },
        }
    }

    /// Opens a session with this token.
    pub fn open_session(&mut self, token: &str, now: u64)
        requires
            now + SESSION_TTL <= u64::MAX,
        ensures
            final(self)@ == session_opened(old(self)@, token@, now),
    {
        self.sessions.rebuild(&Unended { now });
        assert(self.sessions@ =~= alive(old(self).sessions@, now));
        self.sessions.insert(token.to_string(), now + SESSION_TTL);
    }

    /// Opens a session with a random token, and hands the token out.
    pub fn create_session(&mut self, now: u64) -> (token: String)
        requires
            now + SESSION_TTL <= u64::MAX,
        ensures
            token@.len() == 48,
            alphanumeric(token@),
            final(self)@ == session_opened(old(self)@, token@, now),
    {
        let token = new_token();
        self.open_session(&token, now);
        token
    }

    /// Whether the token names a session that has not ended. One that has ended is forgotten.
    pub fn check_session(&mut self, token: &str, now: u64) -> (r: bool)
        ensures
            r == session_valid(old(self)@, token@, now),
            final(self)@ == if r {
                old(self)@
            } else {
                session_closed(old(self)@, token@)
            },
    {
        let key = token.to_string();
        let end: Option<u64> = match self.sessions.get(&key) {
            Some(end) => Some(*end),
            None => None,
        };
        match end {
            Some(end) => {
                if end > now {
                    true
                } else {
                    self.sessions.remove(&key);
                    false
                }
            },
            None => {
                assert(self.sessions@.remove(token@) =~= self.sessions@);
                false
            },
        }
    }

    /// Closes a session.
    pub fn remove_session(&mut self, token: &str)
        ensures
            final(self)@ == session_closed(old(self)@, token@),
    {
        self.sessions.remove(&token.to_string());
    }

    /// Whether an address has used up its failed logins.
    pub fn throttled(&mut self, ip: ClientIp, now: u64) -> (r: bool)
        ensures
            r == is_throttled(old(self)@, ip, now),
            final(self)@ == looked_up(old(self)@, ip, now),
    {
        let attempts: Option<Vec<u64>> = match self.failures.get(&ip) {
            Some(attempts) => Some(copy_moments(attempts)),
            None => None,
        };
        match attempts {
            Some(attempts) => {
                let left = prune(attempts, now);
                let full: bool = left.len() >= LOGIN_MAX_FAILURES;
                self.failures.insert(ip, left);
                full
            },
            None => false,
        }
    }

    /// Notes a failed login.
    pub fn record_failure(&mut self, ip: ClientIp, now: u64)
        ensures
            final(self)@ == failure_recorded(old(self)@, ip, now),
    {
        let mut attempts: Vec<u64> = match self.failures.get(&ip) {
            Some(attempts) => copy_moments(attempts),
            None => Vec::new(),
        };
        attempts.push(now);
        self.failures.insert(ip, attempts);
        let ghost noted = self.failures@;
        self.failures.rebuild(&InWindow { now });
        assert(self.failures@ =~= table::kept(noted, kept_attempts(now)));
    }

    /// The cookie that hands out a session.
    pub fn session_cookie(&self, token: &str) -> (r: String)
        ensures
            r@ == session_cookie_text(token@, self@.cookie_secure),
    {
        let mut out = SESSION_COOKIE.to_string();
        out.append("=");
        out.append(token);
        out.append("; Path=/; HttpOnly; SameSite=Strict");
        out.append(if self.cookie_secure { "; Secure" } else { "" });
        out
    }

    /// The cookie that takes a session back.
    pub fn clear_cookie(&self) -> (r: String)
        ensures
            r@ == clear_cookie_text(self@.cookie_secure),
    {
        let mut out = SESSION_COOKIE.to_string();
        out.append("=; Path=/; HttpOnly; SameSite=Strict; Max-Age=0");
        out.append(if self.cookie_secure { "; Secure" } else { "" });
        out
    }
}

/// A copy of moments.
fn copy_moments(v: &Vec<u64>) -> (r: Vec<u64>)
    ensures
        r@ == v@,
{
    let mut r: Vec<u64> = Vec::new();
    let mut i: usize = 0;
    while i < v.len()
        invariant
            i <= v.len(),
            r@ =~= v@.take(i as int),
        decreases v.len() - i,
    {
        r.push(v[i]);
        i = i + 1;
    }
    assert(v@.take(i as int) =~= v@);
    r
}

/// Where `c` first stands in `s`; its length where it does not.
pub open spec fn first(s: Seq<char>, c: char) -> int
    decreases s.len(),
{
    if s.len() == 0 || s[0] == c {
        0
    } else {
        1 + first(s.subrange(1, s.len() as int), c)
    }
}

/// The session token in one `name=value` pair.
pub open spec fn pair_token(pair: Seq<char>) -> Option<Seq<char>> {
    let p = text::trimmed(pair);
    let j = first(p, '=');
    if j < p.len() && p.subrange(0, j) == SESSION_COOKIE@ {
        Some(p.subrange(j + 1, p.len() as int))
    } else {
        None
    }
}

/// The session token in the first pair of a cookie header that holds one; pairs stand between
/// semicolons.
pub open spec fn cookie_token(s: Seq<char>) -> Option<Seq<char>>
    decreases s.len(),
{
    let i = first(s, ';');
    if 0 <= i <= s.len() {
        match pair_token(s.subrange(0, i)) {
            Some(token) => Some(token),
            None => if i < s.len() {
                cookie_token(s.subrange(i + 1, s.len() as int))
            } else {
                None
            },
        }
    } else {
        None
    }
}

/// Where `c` first stands in `s`; its length where it does not.
fn find_char(s: &str, c: char) -> (r: usize)
    ensures
        r == first(s@, c),
        r <= s@.len(),
        r < s@.len() ==> s@[r as int] == c,
{
    let cs = chars_of(s);
    let n: usize = cs.len();
    let mut i: usize = 0;
    assert(s@.subrange(0, n as int) =~= s@);
    while i < n && cs[i] != c
        invariant
            i <= n,
            n == cs.len(),
            cs@ == s@,
            first(s@, c) == i + first(s@.subrange(i as int, n as int), c),
        decreases n - i,
    {
        assert(s@.subrange(i as int, n as int).subrange(1, n - i) =~= s@.subrange(i + 1, n as int));
        i = i + 1;
    }
    i
}

/// The session token in a cookie header.
pub fn session_from_cookie_header<'a>(header: &'a str) -> (r: Option<&'a str>)
    ensures
        text::opt(r) == cookie_token(header@),
{
    let mut rest: &'a str = header;
    loop
        invariant
            cookie_token(header@) == cookie_token(rest@),
        decreases rest@.len(),
    {
        let i: usize = find_char(rest, ';');
        let n: usize = rest.unicode_len();
        let pair: &'a str = trim(rest.substring_char(0, i));
        let j: usize = find_char(pair, '=');
        let m: usize = pair.unicode_len();
        if j < m && same(pair.substring_char(0, j), SESSION_COOKIE) {
            return Some(pair.substring_char(j + 1, m));
        }
        if i >= n {
            return None;
        }
        rest = rest.substring_char(i + 1, n);
    }
}

/// The session token that a request presents. `cookie` is its cookie header, where it has one.
pub open spec fn presented(cookie: Option<Seq<char>>) -> Option<Seq<char>> {
    match cookie {
        Some(header) => cookie_token(header),
        None => None,
    }
}

/// Whether a request presents a session that has not ended.
pub open spec fn holds_session(a: AuthModel, cookie: Option<Seq<char>>, now: u64) -> bool {
    match presented(cookie) {
        Some(token) => session_valid(a, token, now),
        None => false,
    }
}

/// After a request's session was looked up: one that has ended is forgotten.
pub open spec fn session_checked(a: AuthModel, cookie: Option<Seq<char>>, now: u64) -> AuthModel {
    match presented(cookie) {
        Some(token) => if session_valid(a, token, now) {
            a
        } else {
            session_closed(a, token)
        },
        None => a,
    }
}

/// The session token that a request presents.
pub fn presented_token<'a>(cookie: Option<&'a str>) -> (r: Option<&'a str>)
    ensures
        text::opt(r) == presented(text::opt(cookie)),
{
    match cookie {
        Some(header) => session_from_cookie_header(header),
        None => None,
    }
}

impl Auth {
    /// Whether a request presents a session that has not ended. One that has ended is forgotten.
    pub fn check_cookie(&mut self, cookie: Option<&str>, now: u64) -> (r: bool)
        ensures
            r == holds_session(old(self)@, text::opt(cookie), now),
            final(self)@ == session_checked(old(self)@, text::opt(cookie), now),
    {
        match presented_token(cookie) {
            Some(token) => self.check_session(token, now),
            None => false,
        }
    }
}

/// A session is good from its opening on and for a day, and no longer.
pub proof fn law_session_lasts(a: AuthModel, token: Seq<char>, now: u64, t: u64)
    requires
        now + SESSION_TTL <= u64::MAX,
    ensures
        session_valid(session_opened(a, token, now), token, t) <==> t < now + SESSION_TTL,
{
}

/// Opening a session leaves the others as they were.
pub proof fn law_opening_keeps_others(
    a: AuthModel,
    token: Seq<char>,
    other: Seq<char>,
    now: u64,
    t: u64,
)
    requires
        other != token,
        now <= t,
    ensures
        session_valid(session_opened(a, token, now), other, t) == session_valid(a, other, t),
{
}

/// A closed session is refused at every moment, and the others stay as they were.
pub proof fn law_logout(a: AuthModel, token: Seq<char>, other: Seq<char>, t: u64)
    ensures
        !session_valid(session_closed(a, token), token, t),
        other != token ==> session_valid(session_closed(a, token), other, t) == session_valid(
            a,
            other,
            t,
        ),
{
}

/// A token that was never handed out is refused.
pub proof fn law_forged_token(
    required: bool,
    cookie_secure: bool,
    credential: Option<CredentialModel>,
    token: Seq<char>,
    t: u64,
)
    ensures
        !session_valid(fresh(required, cookie_secure, credential), token, t),
{
}

proof fn lemma_recent_again(attempts: Seq<u64>, now: u64, t: u64)
    requires
        now <= t,
    ensures
        recent(recent(attempts, now), t) == recent(attempts, t),
    decreases attempts.len(),
{
    if attempts.len() > 0 {
        lemma_recent_again(attempts.drop_last(), now, t);
        if elapsed(now, attempts.last()) < LOGIN_WINDOW {
            let kept = recent(attempts, now);
            assert(kept.drop_last() =~= recent(attempts.drop_last(), now));
        }
    }
}

proof fn lemma_recent_push(attempts: Seq<u64>, at: u64, now: u64)
    ensures
        recent(attempts.push(at), now) == if elapsed(now, at) < LOGIN_WINDOW {
            recent(attempts, now).push(at)
        } else {
            recent(attempts, now)
        },
{
    assert(attempts.push(at).drop_last() =~= attempts);
}

/// A failed login counts against its address for a minute, beside those that counted before.
pub proof fn law_failure_counts(a: AuthModel, ip: ClientIp, now: u64, t: u64)
    requires
        now <= t,
    ensures
        recent(attempts_of(failure_recorded(a, ip, now), ip), t) == if t - now < LOGIN_WINDOW {
            recent(attempts_of(a, ip), t).push(now)
        } else {
            recent(attempts_of(a, ip), t)
        },
{
    let noted = attempts_of(a, ip).push(now);
    lemma_recent_push(attempts_of(a, ip), now, now);
    lemma_recent_again(noted, now, t);
    lemma_recent_push(attempts_of(a, ip), now, t);
}

/// A failed login does not count against any other address.
pub proof fn law_failure_elsewhere(a: AuthModel, ip: ClientIp, other: ClientIp, now: u64, t: u64)
    requires
        other != ip,
        now <= t,
    ensures
        is_throttled(failure_recorded(a, ip, now), other, t) == is_throttled(a, other, t),
{
    lemma_recent_again(attempts_of(a, other), now, t);
}

/// Asking whether an address is turned away changes no later answer.
pub proof fn law_asking_changes_nothing(
    a: AuthModel,
    ip: ClientIp,
    other: ClientIp,
    now: u64,
    t: u64,
)
    requires
        now <= t,
    ensures
        is_throttled(looked_up(a, ip, now), other, t) == is_throttled(a, other, t),
{
    lemma_recent_again(attempts_of(a, ip), now, t);
}

/// After failed logins from one address at these moments.
pub open spec fn failures_recorded(a: AuthModel, ip: ClientIp, times: Seq<u64>) -> AuthModel
    decreases times.len(),
{
    if times.len() == 0 {
        a
    } else {
        failure_recorded(failures_recorded(a, ip, times.drop_last()), ip, times.last())
    }
}

proof fn lemma_failures_add_up(a: AuthModel, ip: ClientIp, times: Seq<u64>, t: u64)
    requires
        forall|i: int|
            0 <= i < times.len() ==> #[trigger] times[i] <= t && t - times[i] < LOGIN_WINDOW,
    ensures
        recent(attempts_of(failures_recorded(a, ip, times), ip), t) == recent(attempts_of(a, ip), t)
            + times,
    decreases times.len(),
{
    if times.len() == 0 {
        assert(recent(attempts_of(a, ip), t) + times =~= recent(attempts_of(a, ip), t));
    } else {
        lemma_failures_add_up(a, ip, times.drop_last(), t);
        law_failure_counts(failures_recorded(a, ip, times.drop_last()), ip, times.last(), t);
        assert((recent(attempts_of(a, ip), t) + times.drop_last()).push(times.last()) =~= recent(
            attempts_of(a, ip),
            t,
        ) + times);
    }
}

/// An address without failed logins of late is turned away once ten have come within the window,
/// and not before.
pub proof fn law_throttle_budget(a: AuthModel, ip: ClientIp, times: Seq<u64>, t: u64)
    requires
        recent(attempts_of(a, ip), t).len() == 0,
        forall|i: int|
            0 <= i < times.len() ==> #[trigger] times[i] <= t && t - times[i] < LOGIN_WINDOW,
    ensures
        is_throttled(failures_recorded(a, ip, times), ip, t) <==> times.len() >= LOGIN_MAX_FAILURES,
{
    lemma_failures_add_up(a, ip, times, t);
}

/// An address is let in again once its failed logins lie outside the window.
pub proof fn law_throttle_ends(a: AuthModel, ip: ClientIp, t: u64)
    requires
        forall|i: int|
            0 <= i < attempts_of(a, ip).len() ==> #[trigger] attempts_of(a, ip)[i] <= t && t
                - attempts_of(a, ip)[i] >= LOGIN_WINDOW,
    ensures
        !is_throttled(a, ip, t),
{
    lemma_none_recent(attempts_of(a, ip), t);
}

proof fn lemma_none_recent(attempts: Seq<u64>, t: u64)
    requires
        forall|i: int|
            0 <= i < attempts.len() ==> #[trigger] attempts[i] <= t && t - attempts[i]
                >= LOGIN_WINDOW,
    ensures
        recent(attempts, t).len() == 0,
    decreases attempts.len(),
{
    if attempts.len() > 0 {
        lemma_none_recent(attempts.drop_last(), t);
    }
}

proof fn lemma_first(s: Seq<char>, c: char, i: int)
    requires
        0 <= i <= s.len(),
        forall|k: int| 0 <= k < i ==> s[k] != c,
        i < s.len() ==> s[i] == c,
    ensures
        first(s, c) == i,
    decreases s.len(),
{
    if i > 0 {
        let rest = s.subrange(1, s.len() as int);
        assert forall|k: int| 0 <= k < i - 1 implies rest[k] != c by {
            assert(rest[k] == s[k + 1]);
        }
        lemma_first(rest, c, i - 1);
    }
}

/// Whether a token stands in a cookie as it is: it holds no semicolon and does not end in white
/// space.
pub open spec fn cookie_safe(token: Seq<char>) -> bool {
    &&& forall|i: int| 0 <= i < token.len() ==> #[trigger] token[i] != ';'
    &&& token.len() > 0 ==> !text::is_white(token.last())
}

/// Tokens of letters and digits, as sessions are given, stand in a cookie as they are.
pub proof fn law_drawn_tokens_are_cookie_safe(token: Seq<char>)
    requires
        alphanumeric(token),
    ensures
        cookie_safe(token),
{
}

proof fn lemma_own_pair(token: Seq<char>)
    requires
        cookie_safe(token),
    ensures
        pair_token(SESSION_COOKIE@ + "="@ + token) == Some(token),
        forall|k: int|
            0 <= k < (SESSION_COOKIE@ + "="@ + token).len() ==> (SESSION_COOKIE@ + "="@
                + token)[k] != ';',
{
    reveal_strlit("republisher_sid");
    reveal_strlit("=");
    let p = SESSION_COOKIE@ + "="@ + token;
    let n = SESSION_COOKIE@.len() as int;
    assert(p[0] == 'r');
    assert(p.last() == if token.len() > 0 {
        token.last()
    } else {
        '='
    });
    assert(text::trim_start(p) == p);
    assert(text::trim_end(p) == p);
    assert forall|k: int| 0 <= k < n implies p[k] != '=' && p[k] != ';' by {
        assert(p[k] == SESSION_COOKIE@[k]);
    }
    assert(p[n] == '=');
    lemma_first(p, '=', n);
    assert(p.subrange(0, n) =~= SESSION_COOKIE@);
    assert(p.subrange(n + 1, p.len() as int) =~= token);
    assert forall|k: int| 0 <= k < p.len() implies p[k] != ';' by {
        if k > n {
            assert(p[k] == token[k - n - 1]);
        }
    }
}

/// Every token that stands in a cookie as it is is found again in the cookie header that a browser
/// makes of the session cookie, and in the session cookie itself.
pub proof fn law_cookie_round_trip(token: Seq<char>, secure: bool)
    requires
        cookie_safe(token),
    ensures
        cookie_token(SESSION_COOKIE@ + "="@ + token) == Some(token),
        cookie_token(session_cookie_text(token, secure)) == Some(token),
{
    lemma_own_pair(token);
    let p = SESSION_COOKIE@ + "="@ + token;
    lemma_first(p, ';', p.len() as int);
    assert(p.subrange(0, p.len() as int) =~= p);
    let c = session_cookie_text(token, secure);
    reveal_strlit("; Path=/; HttpOnly; SameSite=Strict");
    assert(c.subrange(0, p.len() as int) =~= p);
    assert forall|k: int| 0 <= k < p.len() implies c[k] != ';' by {
        assert(c[k] == p[k]);
    }
    assert(c[p.len() as int] == ';');
    lemma_first(c, ';', p.len() as int);
}

/// The cookie that takes a session back holds an empty token.
pub proof fn law_cleared_cookie(secure: bool)
    ensures
        cookie_token(clear_cookie_text(secure)) == Some(Seq::<char>::empty()),
{
    let token = Seq::<char>::empty();
    lemma_own_pair(token);
    let p = SESSION_COOKIE@ + "="@ + token;
    let c = clear_cookie_text(secure);
    reveal_strlit("=; Path=/; HttpOnly; SameSite=Strict; Max-Age=0");
    reveal_strlit("=");
    assert(c.subrange(0, p.len() as int) =~= p);
    assert forall|k: int| 0 <= k < p.len() implies c[k] != ';' by {
        assert(c[k] == p[k]);
    }
    assert(c[p.len() as int] == ';');
    lemma_first(c, ';', p.len() as int);
}

/// Where the daemon starts without asking for a session, only this machine reaches it.
pub proof fn law_open_only_on_loopback(
    vars: Map<Seq<char>, Seq<char>>,
    bind: Seq<char>,
    loopback: bool,
    phc: Option<Seq<char>>,
)
    requires
        auth_disabled(vars),
        auth_refusal(vars, bind, loopback, phc) is None,
    ensures
        loopback,
{
}

/// A configured hash wins over a configured password.
pub proof fn law_hash_wins(vars: Map<Seq<char>, Seq<char>>)
    requires
        var(vars, "REPUBLISHER_ADMIN_PASSWORD_HASH"@) is Some,
    ensures
        named_credential(vars) == Some(
            CredentialModel::Hash(var(vars, "REPUBLISHER_ADMIN_PASSWORD_HASH"@)->Some_0),
        ),
{
}

/// After a failed login no address is remembered without a failed login of late, so that what is
/// remembered does not grow without end.
pub proof fn law_failures_are_pruned(a: AuthModel, ip: ClientIp, now: u64, other: ClientIp)
    requires
        failure_recorded(a, ip, now).failures.dom().contains(other),
    ensures
        recent(attempts_of(failure_recorded(a, ip, now), other), now).len() > 0,
        attempts_of(failure_recorded(a, ip, now), other) == recent(
            attempts_of(failure_recorded(a, ip, now), other),
            now,
        ),
{
    let noted = a.failures.insert(ip, attempts_of(a, ip).push(now));
    lemma_recent_again(noted[other], now, now);
}

/// Opening a session leaves no session that has ended.
pub proof fn law_ended_sessions_go(a: AuthModel, token: Seq<char>, now: u64, other: Seq<char>)
    requires
        now + SESSION_TTL <= u64::MAX,
        session_opened(a, token, now).sessions.dom().contains(other),
    ensures
        session_valid(session_opened(a, token, now), other, now),
{
}

} // verus!
