//! Who may use the service: one password, and sessions that it opens.
use vstd::hash_map::StringHashMap;
use vstd::prelude::*;
use vstd::string::*;

use crate::config::RuntimeConfig;
use crate::error::{refusal, AppError, Refusal, FORBIDDEN, INTERNAL_SERVER_ERROR, UNAUTHORIZED};
use crate::headers::{auth_token, get_auth_token, Headers, RequestHeaders};
use crate::outside::{alphanumeric, header_safe, is_header_value, unix_now, LAST_SECOND};
use crate::parts::fits_i64;
use crate::stamp::{create_token, is_token};
use crate::step::outcome;
use crate::text::{decimal, decimal_int, decimal_writes, is_digit, push_i64, same_text};

verus! {

/// The open sessions: when each ends, in seconds since the start of 1970, by
/// its token.
pub struct Sessions {
    ends: StringHashMap<i64>,
}

impl View for Sessions {
    type V = Map<Seq<char>, i64>;

    closed spec fn view(&self) -> Map<Seq<char>, i64> {
        self.ends@
    }
}

/// The session is open at the time `now`.
pub open spec fn is_open(sessions: Map<Seq<char>, i64>, token: Seq<char>, now: i64) -> bool {
    sessions.contains_key(token) && sessions[token] > now
}

/// The request is let in at the time `now`: it has the token of an open session.
pub open spec fn let_in(headers: Headers, sessions: Map<Seq<char>, i64>, now: i64) -> bool {
    auth_token(headers) matches Some(token) && is_open(sessions, token, now)
}

/// The sessions after a request came at the time `now`: that of its token goes
/// on for `ttl` seconds if it is open, and is forgotten if it is not.
pub open spec fn sessions_after(
    headers: Headers,
    sessions: Map<Seq<char>, i64>,
    ttl: i64,
    now: i64,
) -> Map<Seq<char>, i64> {
    match auth_token(headers) {
        Some(token) => if is_open(sessions, token, now) {
            sessions.insert(token, (now + ttl) as i64)
        } else {
            sessions.remove(token)
        },
        None => sessions,
    }
}

/// The answer to a request that is not let in.
pub open spec fn unauthorized() -> Refusal {
    refusal(UNAUTHORIZED, "未授权"@)
}

/// The value of the header that hands the token to the client.
pub open spec fn session_cookie(token: Seq<char>, ttl: i64) -> Seq<char> {
    "fastfile_token="@ + token + "; Max-Age="@ + decimal_int(ttl as int)
        + "; HttpOnly; SameSite=Strict; Path=/"@
}

/// The answer to the right password: the token, and the value of the header
/// that hands it to the client.
#[derive(Debug, PartialEq, Eq)]
pub struct AuthReply<S> {
    pub token: S,
    pub cookie: S,
}

impl<S: DeepView> DeepView for AuthReply<S> {
    type V = AuthReply<S::V>;

    open spec fn deep_view(&self) -> Self::V {
        AuthReply { token: self.token.deep_view(), cookie: self.cookie.deep_view() }
    }
}

/// The answer to a password, if a session under `token` is opened for it.
pub open spec fn auth_answer(
    password: Seq<char>,
    config: RuntimeConfig<Seq<char>>,
    token: Seq<char>,
) -> Result<AuthReply<Seq<char>>, Refusal> {
    let cookie = session_cookie(token, config.session_ttl_seconds);
    if password != config.password {
        Err(refusal(FORBIDDEN, "密码错误"@))
    } else if !header_safe(cookie) {
        Err(refusal(INTERNAL_SERVER_ERROR, "Cookie 设置失败"@))
    } else {
        Ok(AuthReply { token, cookie })
    }
}

/// The sessions after a password was given at the time `now`.
pub open spec fn sessions_after_auth(
    password: Seq<char>,
    config: RuntimeConfig<Seq<char>>,
    token: Seq<char>,
    sessions: Map<Seq<char>, i64>,
    now: i64,
) -> Map<Seq<char>, i64> {
    if password != config.password {
        sessions
    } else {
        sessions.insert(token, (now + config.session_ttl_seconds) as i64)
    }
}

/// The sessions after the request to end a session.
pub open spec fn sessions_after_logout(
    headers: Headers,
    sessions: Map<Seq<char>, i64>,
) -> Map<Seq<char>, i64> {
    match auth_token(headers) {
        Some(token) => sessions.remove(token),
        None => sessions,
    }
}

/// A time that sessions may last, whatever the clock says: their ends are
/// numbers of an `i64`.
pub open spec fn ttl_fits(ttl: i64) -> bool {
    LAST_SECOND + ttl <= i64::MAX
}

/// Whether sessions may last `ttl` seconds, whatever the clock says.
pub fn is_ttl(ttl: i64) -> (r: bool)
    ensures
        r == ttl_fits(ttl),
{
    ttl <= i64::MAX - LAST_SECOND
}

impl Sessions {
    /// No sessions.
    pub fn new() -> (r: Sessions)
        ensures
            r@ == Map::<Seq<char>, i64>::empty(),
    {
        Sessions { ends: StringHashMap::new() }
    }

    /// When the session ends, if there is one under the token.
    pub fn end_of(&self, token: &str) -> (r: Option<i64>)
        ensures
            r is Some <==> self@.contains_key(token@),
            r matches Some(end) ==> end == self@[token@],
    {
        match self.ends.get(token) {
            Some(end) => Some(*end),
            None => None,
        }
    }

    /// Whether the request is let in at the time `now`.
    pub fn require_auth_at(
        &mut self,
        headers: &RequestHeaders<Vec<u8>>,
        ttl: i64,
        now: i64,
    ) -> (r: Result<(), AppError>)
        requires
            let_in(headers.deep_view(), old(self)@, now) ==> fits_i64(now + ttl),
        ensures
            r is Ok <==> let_in(headers.deep_view(), old(self)@, now),
            r matches Err(error) ==> error.deep_view() == unauthorized(),
            final(self)@ == sessions_after(headers.deep_view(), old(self)@, ttl, now),
    {
        let token = match get_auth_token(headers) {
            Some(token) => token,
            None => {
                return Err(AppError::new(UNAUTHORIZED, "未授权"));
            },
        };
        let open = match self.end_of(token.as_str()) {
            Some(end) => end > now,
            None => false,
        };
        if open {
            self.ends.insert(token, now + ttl);
            Ok(())
        } else {
            self.ends.remove(token.as_str());
            Err(AppError::new(UNAUTHORIZED, "未授权"))
        }
    }

    /// Whether the request is let in now.
    pub fn require_auth(&mut self, headers: &RequestHeaders<Vec<u8>>, ttl: i64) -> (r: Result<
        (),
        AppError,
    >)
        requires
            auth_token(headers.deep_view()) matches Some(token) && old(self)@.contains_key(token)
                ==> ttl_fits(ttl),
        ensures
            exists|now: i64|
                0 <= now <= LAST_SECOND && (r is Ok <==> let_in(
                    headers.deep_view(),
                    old(self)@,
                    now,
                )) && final(self)@ == #[trigger] sessions_after(
                    headers.deep_view(),
                    old(self)@,
                    ttl,
                    now,
                ),
            r matches Err(error) ==> error.deep_view() == unauthorized(),
    {
        let now = unix_now();
        self.require_auth_at(headers, ttl, now)
    }

    /// The answer to a password given at the time `now`, for which a session
    /// under `token` is opened.
    pub fn auth_as(
        &mut self,
        password: &str,
        config: &RuntimeConfig<String>,
        token: String,
        now: i64,
    ) -> (r: Result<AuthReply<String>, AppError>)
        requires
            password@ == config.password@ ==> fits_i64(now + config.session_ttl_seconds),
        ensures
            outcome(r) == auth_answer(password@, config.deep_view(), token@),
            final(self)@ == sessions_after_auth(
                password@,
                config.deep_view(),
                token@,
                old(self)@,
                now,
            ),
    {
        if !same_text(password, config.password.as_str()) {
            return Err(AppError::new(FORBIDDEN, "密码错误"));
        }
        self.ends.insert(token.clone(), now + config.session_ttl_seconds);
        let mut cookie = "fastfile_token=".to_owned();
        cookie.append(token.as_str());
        cookie.append("; Max-Age=");
        push_i64(&mut cookie, config.session_ttl_seconds);
        cookie.append("; HttpOnly; SameSite=Strict; Path=/");
        if !is_header_value(cookie.as_str()) {
            return Err(AppError::new(INTERNAL_SERVER_ERROR, "Cookie 设置失败"));
        }
        Ok(AuthReply { token, cookie })
    }

    /// The answer to a password given now; a session gets a random token. The
    /// right password always opens one.
    pub fn auth(&mut self, password: &str, config: &RuntimeConfig<String>) -> (r: Result<
        AuthReply<String>,
        AppError,
    >)
        requires
            password@ == config.password@ ==> ttl_fits(config.session_ttl_seconds),
        ensures
            r is Ok <==> password@ == config.password@,
            r matches Err(error) ==> error.deep_view() == refusal(FORBIDDEN, "密码错误"@)
                && final(self)@ == old(self)@,
            r matches Ok(reply) ==> is_token(reply.token@) && reply.cookie@ == session_cookie(
                reply.token@,
                config.session_ttl_seconds,
            ) && exists|now: i64|
                0 <= now <= LAST_SECOND && final(self)@ == #[trigger] sessions_after_auth(
                    password@,
                    config.deep_view(),
                    reply.token@,
                    old(self)@,
                    now,
                ),
    {
        let token = create_token();
        let now = unix_now();
        proof {
            cookie_is_header_safe(token@, config.session_ttl_seconds);
        }
        self.auth_as(password, config, token, now)
    }

    /// Ends the session of the request, if there is one; the result is the
    /// value of the header that takes the token from the client.
    pub fn logout(&mut self, headers: &RequestHeaders<Vec<u8>>) -> (r: String)
        ensures
            final(self)@ == sessions_after_logout(headers.deep_view(), old(self)@),
            r@ == "fastfile_token=; Max-Age=0; HttpOnly; SameSite=Strict; Path=/"@,
    {
        match get_auth_token(headers) {
            Some(token) => self.ends.remove(token.as_str()),
            None => {},
        }
        "fastfile_token=; Max-Age=0; HttpOnly; SameSite=Strict; Path=/".to_owned()
    }
}

/// The header that hands a token to the client can always be sent.
pub proof fn cookie_is_header_safe(token: Seq<char>, ttl: i64)
    requires
        is_token(token),
    ensures
        header_safe(session_cookie(token, ttl)),
{
    let a = "fastfile_token="@;
    let b = "; Max-Age="@;
    let c = decimal_int(ttl as int);
    let d = "; HttpOnly; SameSite=Strict; Path=/"@;
    reveal_strlit("fastfile_token=");
    reveal_strlit("; Max-Age=");
    reveal_strlit("; HttpOnly; SameSite=Strict; Path=/");
    let m = if ttl < 0 {
        (-ttl) as nat
    } else {
        ttl as nat
    };
    decimal_writes(m);
    assert(header_safe(a));
    assert(header_safe(b));
    assert(header_safe(d));
    assert(header_safe(token)) by {
        assert forall|i: int| 0 <= i < token.len() implies (#[trigger] token[i] >= ' ' && token[i]
            != '\u{7f}') || token[i] == '\u{9}' by {
            assert(alphanumeric(token[i]));
        }
    }
    assert(header_safe(c)) by {
        assert forall|i: int| 0 <= i < c.len() implies (#[trigger] c[i] >= ' ' && c[i]
            != '\u{7f}') || c[i] == '\u{9}' by {
            if ttl < 0 {
                if i > 0 {
                    assert(is_digit(decimal(m)[i - 1]));
                }
            } else {
                assert(is_digit(decimal(m)[i]));
            }
        }
    }
}

} // verus!
