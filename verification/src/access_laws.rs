//! What can be relied on about who is let in.
use vstd::prelude::*;

use crate::access::{permitted, sessions_after_asking, Operation};
use crate::admin::{no_cache, restart_answer};
use crate::config::RuntimeConfig;
use crate::error::Refusal;
use crate::headers::{auth_token, cookie_token, first_token, header_text, Headers};
use crate::outside::alphanumeric;
use crate::session::{auth_answer, cookie_is_header_safe, is_open, let_in, session_cookie};
use crate::session::{sessions_after, sessions_after_auth, sessions_after_logout, ttl_fits};
use crate::session::unauthorized;
use crate::stamp::is_token;
use crate::text::{after_prefix, decimal_int, has_prefix, split_first, trimmed};
use crate::text_laws::{bare, blank, cut_at_the_first, joined_by, joined_parts_are_the_pieces};
use crate::text_laws::{padding_is_trimmed_away, prefix_and_rest};

verus! {

/// The name of the cookie with the sign behind it.
pub open spec fn token_name() -> Seq<char> {
    "fastfile_token="@
}

/// The cookie is no token: white space aside, it begins with something else.
pub open spec fn other_cookie(part: Seq<char>) -> bool {
    !has_prefix(trimmed(part), token_name())
}

proof fn first_of_the_tokens(parts: Seq<Seq<char>>, k: int, token: Seq<char>)
    requires
        0 <= k <= parts.len(),
        forall|i: int| 0 <= i < k ==> other_cookie(#[trigger] parts[i]),
        k < parts.len() ==> trimmed(parts[k]) == token_name() + token,
    ensures
        k < parts.len() ==> first_token(parts) == Some(token),
        k == parts.len() ==> first_token(parts) is None,
    decreases parts.len(),
{
    if parts.len() > 0 {
        if k == 0 {
            prefix_and_rest(trimmed(parts[0]), token_name(), token);
        } else {
            assert(other_cookie(parts[0]));
            let rest = parts.skip(1);
            assert forall|i: int| 0 <= i < k - 1 implies other_cookie(#[trigger] rest[i]) by {
                assert(rest[i] == parts[i + 1]);
            }
            first_of_the_tokens(rest, k - 1, token);
        }
    }
}

/// A client is known by the first cookie of that name, wherever it stands among
/// other cookies, and by none where there is no such cookie.
pub proof fn the_token_is_found_among_cookies(
    headers: Headers,
    parts: Seq<Seq<char>>,
    k: int,
    token: Seq<char>,
)
    requires
        headers.authorization is None,
        parts.len() > 0,
        forall|i: int| 0 <= i < parts.len() ==> !(#[trigger] parts[i]).contains(';'),
        header_text(headers.cookie) == Some(joined_by(parts, ';')),
        0 <= k <= parts.len(),
        forall|i: int| 0 <= i < k ==> other_cookie(#[trigger] parts[i]),
        k < parts.len() ==> trimmed(parts[k]) == token_name() + token,
    ensures
        k < parts.len() ==> auth_token(headers) == Some(token),
        k == parts.len() ==> auth_token(headers) is None,
{
    joined_parts_are_the_pieces(parts, ';');
    first_of_the_tokens(parts, k, token);
}

/// A token in the `Authorization` header counts whatever the cookies are, white
/// space around it aside. Without one there the cookies count.
pub proof fn the_bearer_comes_first(
    headers: Headers,
    before: Seq<char>,
    token: Seq<char>,
    after: Seq<char>,
)
    requires
        blank(before),
        blank(after),
        bare(token),
    ensures
        header_text(headers.authorization) == Some("Bearer "@ + (before + token + after))
            && token.len() > 0 ==> auth_token(headers) == Some(token),
        header_text(headers.authorization) == Some("Bearer "@ + (before + token + after))
            && token.len() == 0 ==> auth_token(headers) == cookie_token(headers),
        header_text(headers.authorization) is None ==> auth_token(headers) == cookie_token(headers),
        header_text(headers.authorization) matches Some(text) ==> !has_prefix(text, "Bearer "@)
            ==> auth_token(headers) == cookie_token(headers),
        header_text(headers.cookie) is None ==> cookie_token(headers) is None,
{
    padding_is_trimmed_away(before, token, after);
    let rest = before + token + after;
    prefix_and_rest("Bearer "@ + rest, "Bearer "@, rest);
}

/// The cookie that is set holds the token up to the first `;`, for as many
/// seconds as sessions last, and is not to be read by scripts or sent from other
/// sites.
pub proof fn the_cookie_holds_the_token(token: Seq<char>, ttl: i64)
    requires
        is_token(token),
    ensures
        split_first(session_cookie(token, ttl), ';') matches Some((pair, attributes))
            && after_prefix(pair, "fastfile_token="@) == Some(token) && attributes == " Max-Age="@
            + decimal_int(ttl as int) + "; HttpOnly; SameSite=Strict; Path=/"@,
{
    reveal_strlit("fastfile_token=");
    reveal_strlit("; Max-Age=");
    reveal_strlit(" Max-Age=");
    let pair = "fastfile_token="@ + token;
    let attributes = " Max-Age="@ + decimal_int(ttl as int)
        + "; HttpOnly; SameSite=Strict; Path=/"@;
    let cookie = session_cookie(token, ttl);
    assert("; Max-Age="@ =~= seq![';'] + " Max-Age="@);
    assert(cookie =~= pair + seq![';'] + attributes);
    assert forall|i: int| 0 <= i < pair.len() implies pair[i] != ';' by {
        if i >= "fastfile_token="@.len() {
            assert(alphanumeric(token[i - "fastfile_token="@.len()]));
        }
    }
    cut_at_the_first(cookie, ';', pair, attributes);
    prefix_and_rest(pair, "fastfile_token="@, token);
}

/// The password that is set, all of it and no other, is answered with the token;
/// every other one is refused.
pub proof fn exactly_the_password_is_accepted(
    password: Seq<char>,
    config: RuntimeConfig<Seq<char>>,
    token: Seq<char>,
)
    requires
        is_token(token),
    ensures
        password == config.password <==> auth_answer(password, config, token) is Ok,
        auth_answer(password, config, token) matches Ok(reply) ==> reply.token == token
            && reply.cookie == session_cookie(token, config.session_ttl_seconds),
        auth_answer(password, config, token) matches Err(refused) ==> refused == (Refusal {
            status: 403,
            message: "密码错误"@,
        }),
{
    cookie_is_header_safe(token, config.session_ttl_seconds);
}

/// A session is open exactly until the second at which it ends, for the client
/// that brings its token.
pub proof fn sessions_are_open_until_they_end(
    headers: Headers,
    sessions: Map<Seq<char>, i64>,
    token: Seq<char>,
    end: i64,
    now: i64,
)
    ensures
        is_open(sessions.insert(token, end), token, now) <==> now < end,
        !is_open(sessions.remove(token), token, now),
        auth_token(headers) == Some(token) ==> (let_in(headers, sessions.insert(token, end), now)
            <==> now < end),
        auth_token(headers) == Some(token) ==> !let_in(headers, sessions.remove(token), now),
        auth_token(headers) is None ==> !let_in(headers, sessions, now),
{
}

/// The sessions that are stored: a right password adds one that ends after the set
/// time, a request that is let in puts its own off by the set time, one that is
/// not drops its own, and leaving drops it. No other session is touched.
pub proof fn sessions_are_kept_one_by_one(
    headers: Headers,
    password: Seq<char>,
    config: RuntimeConfig<Seq<char>>,
    fresh: Seq<char>,
    sessions: Map<Seq<char>, i64>,
    now: i64,
)
    requires
        i64::MIN <= now + config.session_ttl_seconds <= i64::MAX,
    ensures
        ({
            let ttl = config.session_ttl_seconds;
            let asked = sessions_after(headers, sessions, ttl, now);
            let left = sessions_after_logout(headers, sessions);
            let entered = sessions_after_auth(password, config, fresh, sessions, now);
            &&& password == config.password ==> entered.contains_key(fresh) && entered[fresh] == now
                + ttl && entered.remove(fresh) == sessions.remove(fresh)
            &&& password != config.password ==> entered == sessions
            &&& auth_token(headers) is None ==> asked == sessions && left == sessions
            &&& auth_token(headers) matches Some(token) ==> {
                &&& sessions.contains_key(token) && now < sessions[token] ==> asked.contains_key(
                    token,
                ) && asked[token] == now + ttl
                &&& !(sessions.contains_key(token) && now < sessions[token])
                    ==> !asked.contains_key(token)
                &&& asked.remove(token) == sessions.remove(token)
                &&& !left.contains_key(token)
                &&& left.remove(token) == sessions.remove(token)
            }
        }),
{
    let ttl = config.session_ttl_seconds;
    let asked = sessions_after(headers, sessions, ttl, now);
    let left = sessions_after_logout(headers, sessions);
    let entered = sessions_after_auth(password, config, fresh, sessions, now);
    assert(entered.remove(fresh) =~= sessions.remove(fresh));
    if let Some(token) = auth_token(headers) {
        assert(asked.remove(token) =~= sessions.remove(token));
        assert(left.remove(token) =~= sessions.remove(token));
    }
}

/// The page, the sign of life, coming, going and the links are for all. All else
/// is for those alone whose session is open, and puts its end off.
pub proof fn what_needs_a_session(
    operation: Operation,
    headers: Headers,
    sessions: Map<Seq<char>, i64>,
    ttl: i64,
    now: i64,
)
    ensures
        ({
            let free = match operation {
                Operation::IndexPage => true,
                Operation::Healthz => true,
                Operation::Auth => true,
                Operation::Logout => true,
                Operation::DirectFile => true,
                Operation::GetUiState => false,
                Operation::UpdateUiState => false,
                Operation::ResetUiState => false,
                Operation::GetVideoProgress => false,
                Operation::UpdateVideoProgress => false,
                Operation::ListMessages => false,
                Operation::DeleteMessages => false,
                Operation::CreateTextMessage => false,
                Operation::CreateFileMessage => false,
                Operation::InitUpload => false,
                Operation::UploadChunk => false,
                Operation::CompleteUpload => false,
                Operation::CancelUpload => false,
                Operation::RestartService => false,
            };
            let after = sessions_after_asking(operation, headers, sessions, ttl, now);
            &&& free ==> permitted(operation, headers, sessions, now) && after == sessions
            &&& !free ==> (permitted(operation, headers, sessions, now) <==> (auth_token(
                headers,
            ) matches Some(token) && sessions.contains_key(token) && now < sessions[token]))
            &&& !free ==> after == sessions_after(headers, sessions, ttl, now)
        }),
        unauthorized() == (Refusal { status: 401, message: "未授权"@ }),
{
}

/// Sessions can be made to last for any time that does not lead past the last
/// second that can be counted.
pub proof fn sessions_may_last_long(ttl: i64)
    ensures
        ttl_fits(ttl) <==> ttl <= i64::MAX - 8_210_266_876_799,
{
}

/// The service is restarted exactly if that is allowed and something starts it
/// again. The refusal says which of the two is missing.
pub proof fn restarting_needs_both(allowed: bool, supervised: bool)
    ensures
        restart_answer(allowed, supervised) is Ok <==> allowed && supervised,
        restart_answer(allowed, supervised) matches Ok(answer) ==> answer.accepted
            && answer.message == "重启请求已接受，服务即将重启"@,
        !allowed ==> restart_answer(allowed, supervised)->Err_0 == (Refusal {
            status: 403,
            message: "已禁用网页重启，请设置 FASTFILE_ALLOW_WEB_RESTART=1 并重启服务"@,
        }),
        allowed && !supervised ==> restart_answer(allowed, supervised)->Err_0 == (Refusal {
            status: 409,
            message: "当前非 systemd 托管环境。为避免重启后拉不起来，拒绝网页重启"@,
        }),
{
}

/// No answer is to be kept by a cache.
pub proof fn caches_keep_nothing()
    ensures
        no_cache().contains(("cache-control"@, "no-store, no-cache, must-revalidate, max-age=0"@)),
        no_cache().contains(("pragma"@, "no-cache"@)),
        no_cache().contains(("expires"@, "0"@)),
        no_cache().len() == 3,
{
    assert(no_cache()[0] == ("cache-control"@, "no-store, no-cache, must-revalidate, max-age=0"@));
    assert(no_cache()[1] == ("pragma"@, "no-cache"@));
    assert(no_cache()[2] == ("expires"@, "0"@));
}

} // verus!
