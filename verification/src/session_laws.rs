//! What can be relied on about sessions.
use vstd::prelude::*;

use crate::config::RuntimeConfig;
use crate::headers::{auth_token, cookie_prefix, header_text, visible};
use crate::headers::Headers;
use crate::outside::alphanumeric;
use crate::session::{is_open, let_in, sessions_after, sessions_after_auth};
use crate::session::sessions_after_logout;
use crate::stamp::is_token;
use crate::text::{first_index_is_first, pieces, trimmed, white_space};

verus! {

/// The bytes of a text of ASCII.
pub open spec fn ascii_bytes(text: Seq<char>) -> Seq<u8> {
    Seq::new(text.len(), |i: int| text[i] as u8)
}

/// A text of visible characters of ASCII is what its bytes are read as.
pub proof fn visible_text_is_read_back(text: Seq<char>)
    requires
        forall|i: int| 0 <= i < text.len() ==> ' ' <= #[trigger] text[i] <= '~',
    ensures
        header_text(Some(ascii_bytes(text))) == Some(text),
{
    let bytes = ascii_bytes(text);
    assert forall|i: int| 0 <= i < bytes.len() implies visible(#[trigger] bytes[i]) && bytes[i]
        as char == text[i] by {
        assert(' ' <= text[i] <= '~');
    }
    assert(Seq::new(bytes.len(), |i: int| bytes[i] as char) =~= text);
}

proof fn trimming_keeps(text: Seq<char>)
    requires
        text.len() > 0,
        !white_space(text[0]),
        !white_space(text.last()),
    ensures
        trimmed(text) == text,
{
}

/// A client that sends the cookie back as it got it is known by its token.
pub proof fn cookie_gives_the_token_back(headers: Headers, token: Seq<char>)
    requires
        is_token(token),
        headers.authorization is None,
        headers.cookie == Some(ascii_bytes(cookie_prefix() + token)),
    ensures
        auth_token(headers) == Some(token),
{
    let text = cookie_prefix() + token;
    reveal_strlit("fastfile_token=");
    assert forall|i: int| 0 <= i < text.len() implies ' ' <= #[trigger] text[i] <= '~' && text[i]
        != ';' by {
        if i >= cookie_prefix().len() {
            assert(alphanumeric(token[i - cookie_prefix().len()]));
        }
    }
    visible_text_is_read_back(text);
    first_index_is_first(text, ';');
    assert(pieces(text, ';') =~= seq![text]);
    assert(text[0] == 'f');
    assert(alphanumeric(token[token.len() - 1]));
    assert(text.last() == token[token.len() - 1]);
    trimming_keeps(text);
    assert(text.take(cookie_prefix().len() as int) =~= cookie_prefix());
    assert(text.skip(cookie_prefix().len() as int) =~= token);
}

/// A client that sends the token in the `Authorization` header is known by it,
/// whatever its cookies are.
pub proof fn bearer_gives_the_token_back(headers: Headers, token: Seq<char>)
    requires
        is_token(token),
        headers.authorization == Some(ascii_bytes("Bearer "@ + token)),
    ensures
        auth_token(headers) == Some(token),
{
    let text = "Bearer "@ + token;
    reveal_strlit("Bearer ");
    assert forall|i: int| 0 <= i < text.len() implies ' ' <= #[trigger] text[i] <= '~' by {
        if i >= "Bearer "@.len() {
            assert(alphanumeric(token[i - "Bearer "@.len()]));
        }
    }
    visible_text_is_read_back(text);
    assert(text.take("Bearer "@.len() as int) =~= "Bearer "@);
    assert(text.skip("Bearer "@.len() as int) =~= token);
    assert(alphanumeric(token[0]));
    assert(alphanumeric(token[token.len() - 1]));
    trimming_keeps(token);
}

/// The right password opens a session that lasts for the set time, and leaves
/// the others alone.
pub proof fn right_password_opens_a_session(
    config: RuntimeConfig<Seq<char>>,
    token: Seq<char>,
    sessions: Map<Seq<char>, i64>,
    then: i64,
    headers: Headers,
    now: i64,
)
    requires
        then + config.session_ttl_seconds <= i64::MAX,
        i64::MIN <= then + config.session_ttl_seconds,
        auth_token(headers) == Some(token),
    ensures
        ({
            let after = sessions_after_auth(config.password, config, token, sessions, then);
            &&& let_in(headers, after, now) <==> now < then + config.session_ttl_seconds
            &&& forall|other: Seq<char>|
                other != token ==> (#[trigger] is_open(after, other, now) <==> is_open(
                    sessions,
                    other,
                    now,
                ))
        }),
{
}

/// A wrong password opens no session.
pub proof fn wrong_password_opens_nothing(
    password: Seq<char>,
    config: RuntimeConfig<Seq<char>>,
    token: Seq<char>,
    sessions: Map<Seq<char>, i64>,
    now: i64,
)
    requires
        password != config.password,
    ensures
        sessions_after_auth(password, config, token, sessions, now) == sessions,
{
}

/// Every request that is let in makes its session last for the set time from
/// then on; one that comes too late is refused, and so is every one after it.
pub proof fn use_keeps_a_session_open(
    headers: Headers,
    sessions: Map<Seq<char>, i64>,
    ttl: i64,
    then: i64,
    now: i64,
)
    requires
        i64::MIN <= then + ttl <= i64::MAX,
        auth_token(headers) is Some,
    ensures
        ({
            let after = sessions_after(headers, sessions, ttl, then);
            &&& let_in(headers, sessions, then) ==> (let_in(headers, after, now) <==> now < then
                + ttl)
            &&& !let_in(headers, sessions, then) ==> !let_in(headers, after, now)
        }),
{
}

/// A request says nothing about sessions other than its own.
pub proof fn use_leaves_other_sessions(
    headers: Headers,
    sessions: Map<Seq<char>, i64>,
    ttl: i64,
    then: i64,
    other: Seq<char>,
    now: i64,
)
    requires
        auth_token(headers) != Some(other),
    ensures
        is_open(sessions_after(headers, sessions, ttl, then), other, now) <==> is_open(
            sessions,
            other,
            now,
        ),
        is_open(sessions_after_logout(headers, sessions), other, now) <==> is_open(
            sessions,
            other,
            now,
        ),
{
}

/// Once a session was ended by its user, its token is refused, whatever the
/// time.
pub proof fn logout_ends_the_session(
    headers: Headers,
    sessions: Map<Seq<char>, i64>,
    request: Headers,
    now: i64,
)
    requires
        auth_token(headers) is Some,
        auth_token(request) == auth_token(headers),
    ensures
        !let_in(request, sessions_after_logout(headers, sessions), now),
{
}

} // verus!
