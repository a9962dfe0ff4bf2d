//! Laws of passwords, sessions, and which requests are let through.

use vstd::prelude::*;
use vstd::string::*;

use crate::error::BootError;
use crate::json::{Json, JsonModel};
use crate::laws::texts::law_decimal_reads_back;
use crate::laws::{member, says};
use crate::model;
use crate::text;
use crate::web;
use crate::web::api;
use crate::web::api::{login, logout, session_info, settle_login, LoginReq, SessionReply};
use crate::web::auth;
use crate::web::auth::{
    can_compute, env_var, presented_token, session_from_cookie_header, Auth, AuthNotice, ClientIp,
    Credential, EnvVars,
};
use crate::web::{
    cross_origin_reply, is_public, lets_through, origin_allowed, screen, security_headers,
    unauthorized_reply, Method, Refusal, Screening,
};

verus! {

/// How long a session lasts, in nanoseconds: a day.
pub open spec fn day() -> int {
    24int * 60 * 60 * 1_000_000_000
}

/// How long a failed login counts, in nanoseconds: a minute.
pub open spec fn minute() -> int {
    60int * 1_000_000_000
}

/// Whether what the environment fixed is as it was: whether a session is asked for, how the cookie
/// is made, and the credential.
pub open spec fn same_rules(a: auth::AuthModel, b: auth::AuthModel) -> bool {
    &&& a.required == b.required
    &&& a.cookie_secure == b.cookie_secure
    &&& a.credential == b.credential
}

/// A variable that is set has its value, and one that is not has none.
pub proof fn law_variables(vars: &EnvVars, name: &str, r: Option<String>)
    requires
        call_ensures(env_var, (vars, name), r),
    ensures
        r is Some <==> vars@.dom().contains(name@),
        r matches Some(v) ==> v@ == vars@[name@],
{
}

/// The password is exactly the configured one, every character of it; without a credential there is
/// none; and of a hash it is what argon2 accepts, where the hash is a PHC string that argon2 can
/// compute with.
pub proof fn law_password(a: &Auth, candidate: &str, r: bool)
    requires
        call_ensures(Auth::verify_password, (a, candidate), r),
    ensures
        a@.credential is None ==> !r,
        a@.credential matches Some(auth::CredentialModel::Plain(p)) ==> (r <==> candidate@ == p),
        a@.credential matches Some(auth::CredentialModel::Hash(h)) ==> (r ==> auth::phc_error(
            h,
        ) is None && auth::argon2_accepts(h, candidate@)),
        a@.credential matches Some(auth::CredentialModel::Hash(h)) ==> (auth::phc_error(h) is None
            && auth::phc_params(h).len() == 0 && auth::argon2_accepts(h, candidate@) ==> r),
{
}

/// Argon2 can compute with parameters unless the last `p` is more than it has lanes, the last `m`
/// is more than the machine can address, or one of them is no number.
pub proof fn law_parameters(params: &Vec<(String, String)>, r: bool, i: int, n: nat)
    requires
        call_ensures(can_compute, (params,), r),
        0 <= i < params@.len(),
        params@[i].1@ == text::decimal(n),
        forall|j: int| i < j < params@.len() ==> (#[trigger] params@[j]).0@ != params@[i].0@,
    ensures
        params@[i].0@ == "p"@ && n > 0xff_ffff ==> !r,
        params@[i].0@ == "m"@ && 1024 * n > isize::MAX ==> !r,
        params@[i].0@ == "p"@ && n <= 0xff_ffff && (forall|j: int|
            0 <= j < params@.len() ==> (#[trigger] params@[j]).0@ != "m"@) ==> r,
        params@[i].0@ == "m"@ && 1024 * n <= isize::MAX && (forall|j: int|
            0 <= j < params@.len() ==> (#[trigger] params@[j]).0@ != "p"@) ==> r,
{
    let all = model::pair_views(params@);
    assert forall|j: int| i < j < all.len() implies (#[trigger] all[j]).0 != all[i].0 by {
        assert(params@[j].0@ != params@[i].0@);
    }
    lemma_param(all, i);
    law_decimal_reads_back(n, n);
    if n <= 0xff_ffff {
        law_decimal_reads_back(n, auth::MAX_LANES as nat);
    }
    if forall|j: int| 0 <= j < params@.len() ==> (#[trigger] params@[j]).0@ != "m"@ {
        assert forall|j: int| 0 <= j < all.len() implies (#[trigger] all[j]).0 != "m"@ by {
            assert(params@[j].0@ != "m"@);
        }
        lemma_no_param(all, "m"@);
    }
    if forall|j: int| 0 <= j < params@.len() ==> (#[trigger] params@[j]).0@ != "p"@ {
        assert forall|j: int| 0 <= j < all.len() implies (#[trigger] all[j]).0 != "p"@ by {
            assert(params@[j].0@ != "p"@);
        }
        lemma_no_param(all, "p"@);
    }
    if 1024 * n <= isize::MAX {
        law_decimal_reads_back(n, isize::MAX as nat / 1024);
    }
    assert(text::digits_value(text::without_plus(text::decimal(n))) == n);
    assert(1024 * n > isize::MAX ==> n > isize::MAX as nat / 1024);
}

/// Argon2 cannot compute with lanes or memory that are given and are no number.
pub proof fn law_parameters_are_numbers(params: &Vec<(String, String)>, r: bool, i: int)
    requires
        call_ensures(can_compute, (params,), r),
        0 <= i < params@.len(),
        params@[i].0@ == "p"@ || params@[i].0@ == "m"@,
        forall|j: int| i < j < params@.len() ==> (#[trigger] params@[j]).0@ != params@[i].0@,
        text::number(params@[i].1@, isize::MAX as nat) is None,
    ensures
        !r,
{
    let all = model::pair_views(params@);
    assert forall|j: int| i < j < all.len() implies (#[trigger] all[j]).0 != all[i].0 by {
        assert(params@[j].0@ != params@[i].0@);
    }
    lemma_param(all, i);
}

/// The last value of a parameter counts.
proof fn lemma_param(params: Seq<(Seq<char>, Seq<char>)>, i: int)
    requires
        0 <= i < params.len(),
        forall|j: int| i < j < params.len() ==> (#[trigger] params[j]).0 != params[i].0,
    ensures
        auth::param(params, params[i].0) == Some(params[i].1),
    decreases params.len(),
{
    let n = params.len() - 1;
    assert(params[n] == params.last());
    if i < n {
        let rest = params.drop_last();
        assert forall|j: int| i < j < rest.len() implies (#[trigger] rest[j]).0 != rest[i].0 by {
            assert(rest[j] == params[j]);
        }
        lemma_param(rest, i);
    }
}

/// A parameter that is not given has no value.
proof fn lemma_no_param(params: Seq<(Seq<char>, Seq<char>)>, name: Seq<char>)
    requires
        forall|j: int| 0 <= j < params.len() ==> (#[trigger] params[j]).0 != name,
    ensures
        auth::param(params, name) is None,
    decreases params.len(),
{
    if params.len() > 0 {
        let rest = params.drop_last();
        assert(params[params.len() - 1] == params.last());
        assert forall|j: int| 0 <= j < rest.len() implies (#[trigger] rest[j]).0 != name by {
            assert(rest[j] == params[j]);
        }
        lemma_no_param(rest, name);
    }
}

/// A session that was opened is good for a day, to the nanosecond; one that was open and has not
/// ended stays so; and nothing but the sessions changes. The same holds of a session with a drawn
/// token, which has forty-eight letters and digits.
pub proof fn law_open_session(a: &mut Auth, token: &str, now: u64, other: Seq<char>)
    requires
        call_ensures(Auth::open_session, (a, token, now), ()),
        now + day() <= u64::MAX,
    ensures
        same_rules(old(a)@, final(a)@),
        final(a)@.failures == old(a)@.failures,
        final(a)@.sessions.dom().contains(token@),
        final(a)@.sessions[token@] == now + day(),
        other != token@ ==> (final(a)@.sessions.dom().contains(other) <==> old(
            a,
        )@.sessions.dom().contains(other) && old(a)@.sessions[other] > now),
        other != token@ && final(a)@.sessions.dom().contains(other) ==> final(a)@.sessions[other]
            == old(a)@.sessions[other],
{
}

/// A session that is opened with a drawn token is as any other.
pub proof fn law_create_session(a: &mut Auth, now: u64, token: String, other: Seq<char>)
    requires
        call_ensures(Auth::create_session, (a, now), token),
        now + day() <= u64::MAX,
    ensures
        same_rules(old(a)@, final(a)@),
        final(a)@.failures == old(a)@.failures,
        token@.len() == 48,
        forall|i: int|
            0 <= i < token@.len() ==> {
                ||| 'A' <= #[trigger] token@[i] <= 'Z'
                ||| 'a' <= token@[i] <= 'z'
                ||| '0' <= token@[i] <= '9'
            },
        final(a)@.sessions.dom().contains(token@),
        final(a)@.sessions[token@] == now + day(),
        other != token@ && old(a)@.sessions.dom().contains(other) && old(a)@.sessions[other] > now
            ==> final(a)@.sessions.dom().contains(other) && final(a)@.sessions[other] == old(
            a,
        )@.sessions[other],
{
}

/// A session is good exactly while it is open and has not ended. Looking one up changes nothing
/// where it is good; where it is not, it is forgotten, and no other is.
pub proof fn law_check_session(a: &mut Auth, token: &str, now: u64, r: bool, other: Seq<char>)
    requires
        call_ensures(Auth::check_session, (a, token, now), r),
    ensures
        r <==> old(a)@.sessions.dom().contains(token@) && old(a)@.sessions[token@] > now,
        r ==> final(a)@ == old(a)@,
        !r ==> !final(a)@.sessions.dom().contains(token@),
        same_rules(old(a)@, final(a)@),
        final(a)@.failures == old(a)@.failures,
        other != token@ ==> final(a)@.sessions.dom().contains(other) == old(
            a,
        )@.sessions.dom().contains(other),
        other != token@ && final(a)@.sessions.dom().contains(other) ==> final(a)@.sessions[other]
            == old(a)@.sessions[other],
{
}

/// Closing a session closes it and no other.
pub proof fn law_remove_session(a: &mut Auth, token: &str, other: Seq<char>)
    requires
        call_ensures(Auth::remove_session, (a, token), ()),
    ensures
        !final(a)@.sessions.dom().contains(token@),
        same_rules(old(a)@, final(a)@),
        final(a)@.failures == old(a)@.failures,
        other != token@ ==> final(a)@.sessions.dom().contains(other) == old(
            a,
        )@.sessions.dom().contains(other),
        other != token@ && final(a)@.sessions.dom().contains(other) ==> final(a)@.sessions[other]
            == old(a)@.sessions[other],
{
}

/// How many of some moments lie within a minute of `now`.
pub open spec fn within_a_minute(moments: Seq<u64>, now: u64) -> nat
    decreases moments.len(),
{
    if moments.len() == 0 {
        0
    } else if now - moments.last() < minute() {
        within_a_minute(moments.drop_last(), now) + 1
    } else {
        within_a_minute(moments.drop_last(), now)
    }
}

/// The moments that are kept are those within the minute, in their order.
proof fn lemma_recent(moments: Seq<u64>, now: u64)
    ensures
        auth::recent(moments, now).len() == within_a_minute(moments, now),
        within_a_minute(auth::recent(moments, now), now) == within_a_minute(moments, now),
        forall|i: int|
            0 <= i < auth::recent(moments, now).len() ==> now - #[trigger] auth::recent(
                moments,
                now,
            )[i] < minute(),
    decreases moments.len(),
{
    if moments.len() > 0 {
        lemma_recent(moments.drop_last(), now);
        if now - moments.last() < minute() {
            let kept = auth::recent(moments, now);
            assert(kept.drop_last() =~= auth::recent(moments.drop_last(), now));
        }
    }
}

/// An address is turned away exactly when ten or more of its failed logins lie within the last
/// minute. Asking changes nothing but which older moments are remembered of that address.
pub proof fn law_throttle(a: &mut Auth, ip: ClientIp, now: u64, r: bool, other: ClientIp)
    requires
        call_ensures(Auth::throttled, (a, ip, now), r),
    ensures
        r <==> old(a)@.failures.dom().contains(ip) && within_a_minute(
            old(a)@.failures[ip],
            now,
        ) >= 10,
        same_rules(old(a)@, final(a)@),
        final(a)@.sessions == old(a)@.sessions,
        other != ip ==> final(a)@.failures.dom().contains(other) == old(
            a,
        )@.failures.dom().contains(other) && final(a)@.failures[other] == old(a)@.failures[other],
        old(a)@.failures.dom().contains(ip) ==> final(a)@.failures.dom().contains(ip)
            && within_a_minute(final(a)@.failures[ip], now) == within_a_minute(
            old(a)@.failures[ip],
            now,
        ),
{
    if old(a)@.failures.dom().contains(ip) {
        lemma_recent(old(a)@.failures[ip], now);
    }
}

/// A failed login is one more within the minute for its address and none for another; nothing else
/// changes, and nothing is remembered that lies further back.
pub proof fn law_record_failure(a: &mut Auth, ip: ClientIp, now: u64, other: ClientIp)
    requires
        call_ensures(Auth::record_failure, (a, ip, now), ()),
    ensures
        same_rules(old(a)@, final(a)@),
        final(a)@.sessions == old(a)@.sessions,
        final(a)@.failures.dom().contains(ip),
        within_a_minute(final(a)@.failures[ip], now) == 1 + if old(a)@.failures.dom().contains(
            ip,
        ) {
            within_a_minute(old(a)@.failures[ip], now)
        } else {
            0
        },
        other != ip && final(a)@.failures.dom().contains(other) ==> old(
            a,
        )@.failures.dom().contains(other) && within_a_minute(final(a)@.failures[other], now)
            == within_a_minute(old(a)@.failures[other], now),
        other != ip && old(a)@.failures.dom().contains(other) && within_a_minute(
            old(a)@.failures[other],
            now,
        ) > 0 ==> final(a)@.failures.dom().contains(other),
        final(a)@.failures.dom().contains(other) ==> final(a)@.failures[other].len()
            == within_a_minute(final(a)@.failures[other], now),
{
    let moments = auth::attempts_of(old(a)@, ip);
    let noted = moments.push(now);
    assert(noted.drop_last() =~= moments);
    lemma_recent(noted, now);
    lemma_recent(moments, now);
    if old(a)@.failures.dom().contains(other) {
        lemma_recent(old(a)@.failures[other], now);
    }
    assert(within_a_minute(noted, now) == within_a_minute(moments, now) + 1);
}

/// The session cookie holds the token, is for the whole site, is kept from scripts and from other
/// sites, and is for secure connections only where that was asked; the cookie that takes it back
/// holds no token and ends at once.
pub proof fn law_cookies(a: &Auth, token: &str, r: String, cleared: String)
    requires
        call_ensures(Auth::session_cookie, (a, token), r),
        call_ensures(Auth::clear_cookie, (a,), cleared),
    ensures
        ({
            let ending = if a@.cookie_secure {
                "; Secure"@
            } else {
                ""@
            };
            &&& r@ == "republisher_sid"@ + "="@ + token@ + "; Path=/; HttpOnly; SameSite=Strict"@
                + ending
            &&& cleared@ == "republisher_sid"@
                + "=; Path=/; HttpOnly; SameSite=Strict; Max-Age=0"@ + ending
        }),
{
}

/// A cookie header holds a session where one of its pairs is named after it: pairs that hold none
/// do not matter, and of two that do the first counts.
pub proof fn law_cookie_header(
    header: &str,
    r: Option<&str>,
    before: Seq<char>,
    token: Seq<char>,
    behind: Seq<char>,
    blank: Seq<char>,
)
    requires
        call_ensures(session_from_cookie_header, (header,), r),
        auth::cookie_safe(token),
        forall|i: int| 0 <= i < blank.len() ==> text::is_white(#[trigger] blank[i]),
        forall|i: int| 0 <= i < before.len() ==> #[trigger] before[i] != ';',
        auth::pair_token(before) is None,
    ensures
        header@ == "republisher_sid"@ + "="@ + token ==> text::opt(r) == Some(token),
        header@ == blank + ("republisher_sid"@ + "="@ + token) ==> text::opt(r) == Some(token),
        header@ == blank + ("republisher_sid"@ + "="@ + token) + ";"@ + behind ==> text::opt(r)
            == Some(token),
        header@ == before + ";"@ + behind ==> text::opt(r) == auth::cookie_token(behind),
        header@ == before ==> r is None,
{
    auth::law_cookie_round_trip(token, false);
    let pair = "republisher_sid"@ + "="@ + token;
    lemma_spaced_pair(blank, token);
    if header@ == blank + pair {
        lemma_first(header@, ';', header@.len() as int);
        assert(header@.subrange(0, header@.len() as int) =~= blank + pair);
    }
    if header@ == blank + pair + ";"@ + behind {
        reveal_strlit(";");
        let n = (blank + pair).len() as int;
        assert forall|k: int| 0 <= k < n implies header@[k] != ';' by {
            assert(header@[k] == (blank + pair)[k]);
        }
        lemma_first(header@, ';', n);
        assert(header@.subrange(0, n) =~= blank + pair);
    }
    if header@ == before + ";"@ + behind {
        reveal_strlit(";");
        lemma_first(header@, ';', before.len() as int);
        assert(header@.subrange(0, before.len() as int) =~= before);
        assert(header@.subrange(before.len() as int + 1, header@.len() as int) =~= behind);
    }
    if header@ == before {
        lemma_first(header@, ';', before.len() as int);
        assert(header@.subrange(0, before.len() as int) =~= before);
    }
}

/// White space before a pair does not count.
proof fn lemma_spaced_pair(blank: Seq<char>, token: Seq<char>)
    requires
        auth::cookie_safe(token),
        forall|i: int| 0 <= i < blank.len() ==> text::is_white(#[trigger] blank[i]),
    ensures
        auth::pair_token(blank + ("republisher_sid"@ + "="@ + token)) == Some(token),
        forall|k: int|
            0 <= k < (blank + ("republisher_sid"@ + "="@ + token)).len() ==> (blank + (
            "republisher_sid"@ + "="@ + token))[k] != ';',
    decreases blank.len(),
{
    let p = "republisher_sid"@ + "="@ + token;
    reveal_strlit("republisher_sid");
    reveal_strlit("=");
    assert forall|k: int| 0 <= k < (blank + p).len() implies (blank + p)[k] != ';' by {
        if k >= blank.len() {
            let j = k - blank.len();
            assert((blank + p)[k] == p[j]);
            if j > 15 {
                assert(p[j] == token[j - 16]);
            }
        }
    }
    lemma_leading(blank, p);
    assert(p[0] == 'r');
    assert(text::trim_start(p) == p);
    assert(p.last() == if token.len() > 0 {
        token.last()
    } else {
        '='
    });
    assert(text::trim_end(p) == p);
    assert forall|k: int| 0 <= k < 15 implies p[k] != '=' by {
        assert(p[k] == "republisher_sid"@[k]);
    }
    assert(p[15] == '=');
    lemma_first(p, '=', 15);
    assert(p.subrange(0, 15) =~= "republisher_sid"@);
    assert(p.subrange(16, p.len() as int) =~= token);
}

/// White space before a text is trimmed away.
proof fn lemma_leading(blank: Seq<char>, p: Seq<char>)
    requires
        forall|i: int| 0 <= i < blank.len() ==> text::is_white(#[trigger] blank[i]),
    ensures
        text::trim_start(blank + p) == text::trim_start(p),
    decreases blank.len(),
{
    if blank.len() > 0 {
        let rest = blank.skip(1);
        assert((blank + p)[0] == blank[0]);
        assert((blank + p).subrange(1, (blank + p).len() as int) =~= rest + p);
        lemma_leading(rest, p);
    } else {
        assert(blank + p =~= p);
    }
}

/// Where a character first stands.
proof fn lemma_first(s: Seq<char>, c: char, i: int)
    requires
        0 <= i <= s.len(),
        forall|k: int| 0 <= k < i ==> s[k] != c,
        i < s.len() ==> s[i] == c,
    ensures
        auth::first(s, c) == i,
    decreases s.len(),
{
    if i > 0 {
        let rest = s.subrange(1, s.len() as int);
        assert forall|k: int| 0 <= k < i - 1 implies rest[k] != c by {
            assert(rest[k] == s[k + 1]);
        }
        lemma_first(rest, c, i - 1);
    }
}

/// A pair whose name is another holds no session, whatever its value is.
pub proof fn law_other_cookies(name: Seq<char>, value: Seq<char>)
    requires
        name.len() > 0,
        forall|i: int| 0 <= i < name.len() ==> #[trigger] name[i] != '=' && !text::is_white(name[i]),
        value.len() > 0 ==> !text::is_white(value.last()),
        name != "republisher_sid"@,
    ensures
        auth::pair_token(name + "="@ + value) is None,
{
    reveal_strlit("=");
    let p = name + "="@ + value;
    assert(p[0] == name[0]);
    assert(text::trim_start(p) == p);
    assert(p.last() == if value.len() > 0 {
        value.last()
    } else {
        '='
    });
    assert(text::trim_end(p) == p);
    assert forall|k: int| 0 <= k < name.len() implies p[k] != '=' by {
        assert(p[k] == name[k]);
    }
    lemma_first(p, '=', name.len() as int);
    assert(p.subrange(0, name.len() as int) =~= name);
}

/// A request without a cookie presents nothing, and so has no session.
pub proof fn law_no_cookie(a: &mut Auth, now: u64, r: bool, token: Option<&str>)
    requires
        call_ensures(presented_token, (None::<&str>,), token),
        call_ensures(Auth::check_cookie, (a, None::<&str>, now), r),
    ensures
        token is None,
        !r,
        final(a)@ == old(a)@,
{
}

/// A request has a session exactly when its cookie holds the token of one that has not ended; to
/// look it up never changes who has a session.
pub proof fn law_check_cookie(
    a: &mut Auth,
    cookie: Option<&str>,
    now: u64,
    r: bool,
    token: Option<&str>,
    other: Seq<char>,
)
    requires
        call_ensures(presented_token, (cookie,), token),
        call_ensures(Auth::check_cookie, (a, cookie, now), r),
    ensures
        r <==> token is Some && old(a)@.sessions.dom().contains(token->Some_0@) && old(
            a,
        )@.sessions[token->Some_0@] > now,
        same_rules(old(a)@, final(a)@),
        final(a)@.failures == old(a)@.failures,
        (final(a)@.sessions.dom().contains(other) && final(a)@.sessions[other] > now) <==> (old(
            a,
        )@.sessions.dom().contains(other) && old(a)@.sessions[other] > now),
{
}

/// What the environment starts the authentication with. Switched off, whatever the case of the
/// word, it asks for no session and needs the address to be this machine's own. Otherwise a session
/// is asked for: the hash is the credential where one is set and is a PHC string, else the password
/// that is set to more than white space, else one that is drawn and told to the operator. The
/// cookie is for secure connections only with a certificate, or where the environment says so.
pub proof fn law_configured(
    bind: &str,
    loopback: bool,
    tls: bool,
    vars: &EnvVars,
    r: Result<(Auth, AuthNotice), BootError>,
)
    requires
        call_ensures(Auth::from_env, (bind, loopback, tls, vars), r),
    ensures
        ({
            let off = vars@.dom().contains("REPUBLISHER_AUTH"@) && text::lowered(
                vars@["REPUBLISHER_AUTH"@],
            ) == "disabled"@;
            let hashed = vars@.dom().contains("REPUBLISHER_ADMIN_PASSWORD_HASH"@);
            let hash = vars@["REPUBLISHER_ADMIN_PASSWORD_HASH"@];
            let plain = vars@["REPUBLISHER_ADMIN_PASSWORD"@];
            let named = vars@.dom().contains("REPUBLISHER_ADMIN_PASSWORD"@) && text::trimmed(
                plain,
            ).len() > 0;
            let secure = vars@["REPUBLISHER_COOKIE_SECURE"@];
            &&& r is Ok <==> if off {
                loopback
            } else {
                hashed ==> auth::phc_error(hash) is None
            }
            &&& r matches Err(e) ==> {
                &&& off ==> e.cause is None && e.message@
                    == "REPUBLISHER_AUTH=disabled is only allowed for loopback binds; refusing to serve an unauthenticated GUI on "@
                    + bind@
                &&& !off ==> text::opt(e.cause) == auth::phc_error(hash) && e.message@
                    == "REPUBLISHER_ADMIN_PASSWORD_HASH is not a valid PHC string"@
            }
            &&& r matches Ok((a, notice)) ==> {
                &&& a@.sessions.dom() =~= Set::empty()
                &&& a@.failures.dom() =~= Set::empty()
                &&& a@.required == !off
                &&& a@.cookie_secure == (tls || vars@.dom().contains("REPUBLISHER_COOKIE_SECURE"@)
                    && (secure == "1"@ || text::lowered(secure) == "true"@))
                &&& off ==> notice is Disabled && a@.credential is None
                &&& !off && hashed ==> notice is Quiet && a@.credential == Some(
                    auth::CredentialModel::Hash(hash),
                )
                &&& !off && !hashed && named ==> notice is Quiet && a@.credential == Some(
                    auth::CredentialModel::Plain(plain),
                )
                &&& !off && !hashed && !named ==> {
                    &&& notice is Generated
                    &&& notice->Generated_0@.len() == 24
                    &&& a@.credential == Some(
                        auth::CredentialModel::Plain(notice->Generated_0@),
                    )
                }
            }
        }),
{
    reveal_strlit("disabled");
    reveal_strlit("true");
    assert(text::lowered("disabled"@) =~= "disabled"@);
    assert(text::lowered("true"@) =~= "true"@);
}

/// A password that is drawn beforehand is the credential only where none is configured, and then it
/// is told as it is; what is wrong with a configured hash is the reason not to start.
pub proof fn law_configured_with(
    bind: &str,
    loopback: bool,
    tls: bool,
    vars: &EnvVars,
    phc: Option<String>,
    drawn: String,
    r: Result<(Auth, AuthNotice), BootError>,
)
    requires
        call_ensures(Auth::configured, (bind, loopback, tls, vars, phc, drawn), r),
    ensures
        ({
            let off = vars@.dom().contains("REPUBLISHER_AUTH"@) && text::lowered(
                vars@["REPUBLISHER_AUTH"@],
            ) == "disabled"@;
            let hashed = vars@.dom().contains("REPUBLISHER_ADMIN_PASSWORD_HASH"@);
            &&& r is Ok <==> if off {
                loopback
            } else {
                !(hashed && phc is Some)
            }
            &&& r matches Err(e) ==> (!off ==> text::opt(e.cause) == text::opt(phc)) && (off
                ==> e.cause is None)
        }),
        r matches Ok((a, notice)) ==> {
            &&& notice matches AuthNotice::Generated(g) ==> g@ == drawn@ && a@.credential == Some(
                auth::CredentialModel::Plain(drawn@),
            )
            &&& vars@.dom().contains("REPUBLISHER_ADMIN_PASSWORD_HASH"@) && a@.required ==> phc
                is None && a@.credential == Some(
                auth::CredentialModel::Hash(vars@["REPUBLISHER_ADMIN_PASSWORD_HASH"@]),
            )
            &&& a@.required == !(notice is Disabled)
            &&& !a@.required ==> loopback
        },
{
    reveal_strlit("disabled");
    assert(text::lowered("disabled"@) =~= "disabled"@);
}

/// A new state has what it was given, no session and no failed login, and tells what it was given.
pub proof fn law_new_auth(
    required: bool,
    cookie_secure: bool,
    credential: Option<Credential>,
    a: Auth,
    asks: bool,
    secure: bool,
)
    requires
        call_ensures(Auth::new, (required, cookie_secure, credential), a),
        call_ensures(Auth::asks_for_session, (&a,), asks),
        call_ensures(Auth::has_secure_cookie, (&a,), secure),
    ensures
        asks == required,
        secure == cookie_secure,
        a@.credential == text::opt(credential),
        a@.sessions.dom() =~= Set::empty(),
        a@.failures.dom() =~= Set::empty(),
{
}

/// Where no session is asked for a login is a success and changes nothing. An address with ten
/// failed logins within the minute is turned away, right password or not. A wrong password is
/// refused and counts against the address. The right one opens a session for a day, and the reply
/// carries its cookie.
pub proof fn law_login(a: &mut Auth, ip: ClientIp, req: &LoginReq, now: u64, r: SessionReply)
    requires
        call_ensures(login, (a, ip, req, now), r),
        now + day() <= u64::MAX,
    ensures
        ({
            let before = old(a)@;
            let after = final(a)@;
            let failed = if before.failures.dom().contains(ip) {
                within_a_minute(before.failures[ip], now)
            } else {
                0
            };
            let right = match before.credential {
                None => false,
                Some(auth::CredentialModel::Plain(p)) => p == req.password@,
                Some(auth::CredentialModel::Hash(_)) => auth::is_password(before, req.password@),
            };
            &&& same_rules(before, after)
            &&& !before.required ==> after == before && r@.status == 200 && r@.cookie is None
                && member(r@.body, "ok"@) == Some(JsonModel::Bool(true))
            &&& before.required && failed >= 10 ==> {
                &&& r@.status == 429
                &&& r@.cookie is None
                &&& says(r@.body, "error"@, "too many attempts; retry later"@)
                &&& after.sessions == before.sessions
            }
            &&& before.required && failed < 10 && !right ==> {
                &&& r@.status == 401
                &&& r@.cookie is None
                &&& says(r@.body, "error"@, "invalid password"@)
                &&& after.sessions == before.sessions
                &&& after.failures.dom().contains(ip)
                &&& within_a_minute(after.failures[ip], now) == failed + 1
            }
            &&& before.required && failed < 10 && right ==> {
                &&& r@.status == 200
                &&& member(r@.body, "ok"@) == Some(JsonModel::Bool(true))
                &&& exists|token: Seq<char>| #[trigger]
                    after.sessions.dom().contains(token) && {
                        &&& after.sessions[token] == now + day()
                        &&& token.len() == 48
                        &&& auth::cookie_safe(token)
                        &&& r@.cookie is Some
                        &&& auth::cookie_token(r@.cookie->Some_0) == Some(token)
                    }
                &&& after.failures.dom().contains(ip) == before.failures.dom().contains(ip)
            }
        }),
{
    let before = old(a)@;
    let moments = auth::attempts_of(before, ip);
    lemma_recent(moments, now);
    let looked = auth::looked_up(before, ip, now);
    if before.required && !auth::is_throttled(before, ip, now) {
        if auth::is_password(before, req.password@) {
            let token = choose|token: Seq<char>|
                #![trigger auth::session_opened(looked, token, now)]
                token.len() == 48 && auth::alphanumeric(token) && r@ == api::login_granted(
                    looked,
                    token,
                ) && final(a)@ == auth::session_opened(looked, token, now);
            assert(final(a)@ == auth::session_opened(looked, token, now));
            auth::law_cookie_round_trip(token, before.cookie_secure);
            assert(final(a)@.sessions.dom().contains(token));
        } else {
            let kept = auth::attempts_of(looked, ip);
            let noted = kept.push(now);
            assert(noted.drop_last() =~= kept);
            lemma_recent(noted, now);
            assert(within_a_minute(noted, now) == within_a_minute(kept, now) + 1);
            assert(within_a_minute(Seq::<u64>::empty(), now) == 0);
        }
    }
}

/// Ending a login without a token is a failed one, and with a token it opens that session.
pub proof fn law_settle_login(
    a: &mut Auth,
    ip: ClientIp,
    token: Option<String>,
    now: u64,
    r: SessionReply,
)
    requires
        call_ensures(settle_login, (a, ip, token, now), r),
        now + day() <= u64::MAX,
    ensures
        same_rules(old(a)@, final(a)@),
        token is None ==> r@.status == 401 && r@.cookie is None && final(a)@.sessions == old(
            a,
        )@.sessions && final(a)@.failures.dom().contains(ip) && says(
            r@.body,
            "error"@,
            "invalid password"@,
        ),
        token matches Some(t) ==> {
            &&& r@.status == 200
            &&& final(a)@.sessions.dom().contains(t@)
            &&& final(a)@.sessions[t@] == now + day()
            &&& final(a)@.failures == old(a)@.failures
            &&& member(r@.body, "ok"@) == Some(JsonModel::Bool(true))
            &&& auth::cookie_safe(t@) ==> r@.cookie is Some && auth::cookie_token(
                r@.cookie->Some_0,
            ) == Some(t@)
        },
{
    if let Some(t) = token {
        if auth::cookie_safe(t@) {
            auth::law_cookie_round_trip(t@, old(a)@.cookie_secure);
        }
    } else {
        let moments = auth::attempts_of(old(a)@, ip);
        let noted = moments.push(now);
        assert(noted.drop_last() =~= moments);
        lemma_recent(noted, now);
        assert(within_a_minute(noted, now) == within_a_minute(moments, now) + 1);
    }
}

/// Logging out closes the session that the cookie holds and no other, and takes the cookie back.
pub proof fn law_logout(
    a: &mut Auth,
    cookie: Option<&str>,
    r: SessionReply,
    token: Option<&str>,
    other: Seq<char>,
)
    requires
        call_ensures(logout, (a, cookie), r),
        call_ensures(presented_token, (cookie,), token),
    ensures
        r@.status == 200,
        member(r@.body, "ok"@) == Some(JsonModel::Bool(true)),
        r@.cookie matches Some(c) && auth::cookie_token(c) == Some(Seq::<char>::empty()),
        same_rules(old(a)@, final(a)@),
        final(a)@.failures == old(a)@.failures,
        token is None ==> final(a)@ == old(a)@,
        token matches Some(t) ==> !final(a)@.sessions.dom().contains(t@),
        token is None || other != token->Some_0@ ==> final(a)@.sessions.dom().contains(other)
            == old(a)@.sessions.dom().contains(other),
        (token is None || other != token->Some_0@) && final(a)@.sessions.dom().contains(other)
            ==> final(a)@.sessions[other] == old(a)@.sessions[other],
{
    auth::law_cleared_cookie(old(a)@.cookie_secure);
}

/// What is said of a request's session: whether one is asked for, and whether the request has one
/// or needs none.
pub proof fn law_session_info(
    a: &mut Auth,
    cookie: Option<&str>,
    now: u64,
    r: Json,
    token: Option<&str>,
)
    requires
        call_ensures(session_info, (a, cookie, now), r),
        call_ensures(presented_token, (cookie,), token),
    ensures
        member(r@, "auth_required"@) == Some(JsonModel::Bool(old(a)@.required)),
        member(r@, "authenticated"@) == Some(
            JsonModel::Bool(
                !old(a)@.required || token is Some && old(a)@.sessions.dom().contains(
                    token->Some_0@,
                ) && old(a)@.sessions[token->Some_0@] > now,
            ),
        ),
        same_rules(old(a)@, final(a)@),
        final(a)@.failures == old(a)@.failures,
{
    reveal_strlit("auth_required");
    reveal_strlit("authenticated");
    assert("auth_required"@.len() == 13);
    assert("authenticated"@.len() == 13);
    assert("auth_required"@[4] == '_');
    assert("authenticated"@[4] == 'e');
}

/// Without a session a browser gets the login page, its files, the health probe and the session
/// itself, and nothing else.
pub proof fn law_public(path: &str, method: Method, r: bool)
    requires
        call_ensures(is_public, (path, method), r),
    ensures
        r <==> seq![
            "/"@, "/app.js"@, "/style.css"@, "/favicon.svg"@, "/favicon.png"@, "/logo.png"@,
            "/logo-dark.png"@, "/glyph.png"@, "/healthz"@,
        ].contains(path@) || path@ == "/api/session"@ && (method is Get || method is Post || method
            is Delete),
{
    let shell = seq![
        "/"@, "/app.js"@, "/style.css"@, "/favicon.svg"@, "/favicon.png"@, "/logo.png"@,
        "/logo-dark.png"@, "/glyph.png"@, "/healthz"@,
    ];
    assert(shell.len() == 9);
    assert(shell[0] == "/"@ && shell[1] == "/app.js"@ && shell[2] == "/style.css"@);
    assert(shell[3] == "/favicon.svg"@ && shell[4] == "/favicon.png"@ && shell[5] == "/logo.png"@);
    assert(shell[6] == "/logo-dark.png"@ && shell[7] == "/glyph.png"@ && shell[8] == "/healthz"@);
    if shell.contains(path@) {
        let i = choose|i: int| 0 <= i < shell.len() && shell[i] == path@;
        assert(shell[i] == path@);
    }
}

/// A request is let through exactly when no session is asked for, it needs none, or it has one.
pub proof fn law_let_through(
    a: &mut Auth,
    path: &str,
    method: Method,
    cookie: Option<&str>,
    now: u64,
    r: bool,
    open: bool,
    token: Option<&str>,
    other: Seq<char>,
)
    requires
        call_ensures(lets_through, (a, path, method, cookie, now), r),
        call_ensures(is_public, (path, method), open),
        call_ensures(presented_token, (cookie,), token),
    ensures
        r <==> !old(a)@.required || open || token is Some && old(a)@.sessions.dom().contains(
            token->Some_0@,
        ) && old(a)@.sessions[token->Some_0@] > now,
        same_rules(old(a)@, final(a)@),
        final(a)@.failures == old(a)@.failures,
        (final(a)@.sessions.dom().contains(other) && final(a)@.sessions[other] > now) <==> (old(
            a,
        )@.sessions.dom().contains(other) && old(a)@.sessions[other] > now),
{
}

/// What only reads comes from anywhere. What changes something comes from no page, or from a page
/// of the very host that it addresses, over either scheme.
pub proof fn law_origin(
    method: Method,
    host: Option<&str>,
    origin: Option<&str>,
    r: bool,
    named: Seq<char>,
)
    requires
        call_ensures(origin_allowed, (method, host, origin), r),
    ensures
        method is Get || method is Head || method is Options ==> r,
        origin is None ==> r,
        !(method is Get || method is Head || method is Options) && origin is Some && host is None
            ==> !r,
        !(method is Get || method is Head || method is Options) && origin is Some && !text::begins(
            origin->Some_0@,
            "https://"@,
        ) && !text::begins(origin->Some_0@, "http://"@) && host is Some ==> (r <==> host->Some_0@
            == origin->Some_0@),
        !(method is Get || method is Head || method is Options) && origin is Some && (
        origin->Some_0@ == "https://"@ + named || origin->Some_0@ == "http://"@ + named) && host
            is Some ==> (r <==> host->Some_0@ == named),
{
    if let Some(h) = host {
        if h@ != named {
            web::law_cross_origin(method, h@, named, None);
        } else {
            let elsewhere = named.push('x');
            assert(elsewhere.len() != named.len());
            web::law_cross_origin(method, h@, elsewhere, None);
        }
    }
}

/// Every reply forbids sniffing, framing and referrers, and takes scripts and styles from the
/// daemon alone.
pub proof fn law_headers(r: Vec<(&'static str, &'static str)>)
    requires
        call_ensures(security_headers, (), r),
    ensures
        r@.len() == 4,
        r@[0].0@ == "content-security-policy"@,
        r@[0].1@
            == "default-src 'self'; img-src 'self' data:; style-src 'self'; script-src 'self'; connect-src 'self'; frame-ancestors 'none'; base-uri 'none'; form-action 'self'"@,
        r@[1].0@ == "x-content-type-options"@,
        r@[1].1@ == "nosniff"@,
        r@[2].0@ == "x-frame-options"@,
        r@[2].1@ == "DENY"@,
        r@[3].0@ == "referrer-policy"@,
        r@[3].1@ == "no-referrer"@,
{
    let shown = web::header_views(r@);
    assert(shown.len() == 4);
    assert(shown[0] == (r@[0].0@, r@[0].1@));
    assert(shown[1] == (r@[1].0@, r@[1].1@));
    assert(shown[2] == (r@[2].0@, r@[2].1@));
    assert(shown[3] == (r@[3].0@, r@[3].1@));
}

/// A request is turned away at the door exactly when its origin is not allowed; every reply has the
/// same headers, a refusal too, and each refusal says why.
pub proof fn law_screen(
    method: Method,
    host: Option<&str>,
    origin: Option<&str>,
    r: Screening,
    allowed: bool,
    headers: Vec<(&'static str, &'static str)>,
    elsewhere: Refusal,
    nobody: Refusal,
)
    requires
        call_ensures(screen, (method, host, origin), r),
        call_ensures(origin_allowed, (method, host, origin), allowed),
        call_ensures(security_headers, (), headers),
        call_ensures(cross_origin_reply, (), elsewhere),
        call_ensures(unauthorized_reply, (), nobody),
    ensures
        r is Passed <==> allowed,
        r matches Screening::Passed(h) ==> web::header_views(h@) == web::header_views(headers@),
        r matches Screening::Refused(refusal) ==> refusal@ == elsewhere@,
        elsewhere@.status == 403,
        elsewhere@.headers == web::header_views(headers@),
        says(elsewhere@.body, "error"@, "cross-origin request rejected"@),
        nobody@.status == 401,
        nobody@.headers == web::header_views(headers@),
        says(nobody@.body, "error"@, "authentication required"@),
{
}

} // verus!
