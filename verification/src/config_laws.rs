//! What can be relied on about the settings.
use vstd::prelude::*;

use crate::config::{runtime_config, says_yes, settings_of, startup_config, Line, DEFAULT_PORT};
use crate::config::{DEFAULT_SESSION_TTL_SECONDS, RELOAD_SECONDS};
use crate::text::{decimal, parsed_i64, parsed_u16};
use crate::text_laws::{decimal_is_read_back, same_but_for_case};

verus! {

/// None of the lines sets the name.
pub open spec fn sets_nothing(lines: Seq<Line>, name: Seq<char>) -> bool {
    forall|i: int|
        0 <= i < lines.len() ==> (#[trigger] lines[i] matches Some(entry) ==> entry.0 != name)
}

/// A name has the value of the last line that sets it, and none where no line
/// does.
pub proof fn the_last_line_counts(
    before: Seq<Line>,
    name: Seq<char>,
    value: Seq<char>,
    after: Seq<Line>,
)
    requires
        sets_nothing(after, name),
    ensures
        ({
            let settings = settings_of(before.push(Some((name, value))) + after);
            settings.contains_key(name) && settings[name] == value
        }),
        !settings_of(after).contains_key(name),
    decreases after.len(),
{
    let first = before.push(Some((name, value)));
    let all = first + after;
    if after.len() == 0 {
        assert(all =~= first);
        assert(first.drop_last() =~= before);
    } else {
        let rest = after.drop_last();
        assert forall|i: int| 0 <= i < rest.len() implies (
        #[trigger] rest[i] matches Some(entry) ==> entry.0 != name) by {
            assert(rest[i] == after[i]);
        }
        the_last_line_counts(before, name, value, rest);
        assert(all.drop_last() =~= first + rest);
        assert(all.last() == after[after.len() - 1]);
    }
}

/// The password is that of the settings file, else that of the environment, else
/// the one that is built in, each as it is written.
pub proof fn the_password_is_taken_as_it_is(
    settings: Map<Seq<char>, Seq<char>>,
    env_password: Option<Seq<char>>,
    env_ttl: Option<Seq<char>>,
)
    ensures
        ({
            let password = runtime_config(settings, env_password, env_ttl).password;
            let set = settings.contains_key("FASTFILE_PASSWORD"@);
            &&& set ==> password == settings["FASTFILE_PASSWORD"@]
            &&& !set && env_password is Some ==> password == env_password->0
            &&& !set && env_password is None ==> password == "REDACTED_PASSWORD"@
        }),
{
}

/// How long sessions last is the number in the settings file or, where there is
/// none that can be read, in the environment. A number that is not positive, and
/// none at all, stand for a day.
pub proof fn sessions_last_as_long_as_set(
    settings: Map<Seq<char>, Seq<char>>,
    env_password: Option<Seq<char>>,
    env_ttl: Option<Seq<char>>,
    n: int,
)
    ensures
        ({
            let ttl = runtime_config(settings, env_password, env_ttl).session_ttl_seconds;
            let name = "FASTFILE_SESSION_TTL_SECONDS"@;
            let set = settings.contains_key(name) && parsed_i64(settings[name]) is Some;
            let env = env_ttl is Some && parsed_i64(env_ttl->0) is Some;
            let day: int = 86_400;
            &&& settings.contains_key(name) && parsed_i64(settings[name]) == Some(n) && n > 0
                ==> ttl == n
            &&& settings.contains_key(name) && parsed_i64(settings[name]) == Some(n) && n <= 0
                ==> ttl == day
            &&& !set && env_ttl is Some && parsed_i64(env_ttl->0) == Some(n) && n > 0 ==> ttl == n
            &&& !set && env_ttl is Some && parsed_i64(env_ttl->0) == Some(n) && n <= 0 ==> ttl
                == day
            &&& !set && !env ==> ttl == day
            &&& ttl > 0
            &&& settings.contains_key(name) && settings[name] == decimal(n as nat) && 0 < n
                <= i64::MAX ==> ttl == n
        }),
{
    if n >= 0 {
        decimal_is_read_back(n as nat);
    }
    let name = "FASTFILE_SESSION_TTL_SECONDS"@;
    if settings.contains_key(name) {
        parsed_i64_fits(settings[name]);
    }
    if let Some(text) = env_ttl {
        parsed_i64_fits(text);
    }
}

proof fn parsed_i64_fits(text: Seq<char>)
    ensures
        parsed_i64(text) matches Some(n) ==> i64::MIN <= n <= i64::MAX,
{
}

/// The port is the number in the settings file or, where there is none that can be
/// read, in the environment, and else 8000.
pub proof fn the_port_is_the_one_that_is_set(
    settings: Map<Seq<char>, Seq<char>>,
    env_storage: Option<Seq<char>>,
    env_port: Option<Seq<char>>,
    env_allow: Option<Seq<char>>,
    n: int,
)
    ensures
        ({
            let port = startup_config(settings, env_storage, env_port, env_allow).port;
            let name = "FASTFILE_PORT"@;
            let set = settings.contains_key(name) && parsed_u16(settings[name]) is Some;
            let env = env_port is Some && parsed_u16(env_port->0) is Some;
            &&& settings.contains_key(name) && parsed_u16(settings[name]) == Some(n) ==> port == n
            &&& !set && env_port is Some && parsed_u16(env_port->0) == Some(n) ==> port == n
            &&& !set && !env ==> port == 8000
            &&& settings.contains_key(name) && settings[name] == decimal(n as nat) && 0 <= n < 65536
                ==> port == n
        }),
{
    if n >= 0 {
        decimal_is_read_back(n as nat);
    }
}

/// The place of the stored files is that of the settings file, else that of the
/// environment.
pub proof fn the_storage_is_the_one_that_is_set(
    settings: Map<Seq<char>, Seq<char>>,
    env_storage: Option<Seq<char>>,
    env_port: Option<Seq<char>>,
    env_allow: Option<Seq<char>>,
)
    ensures
        ({
            let storage = startup_config(settings, env_storage, env_port, env_allow).storage;
            &&& settings.contains_key("FASTFILE_STORAGE"@) ==> storage == Some(
                settings["FASTFILE_STORAGE"@],
            )
            &&& !settings.contains_key("FASTFILE_STORAGE"@) ==> storage == env_storage
        }),
{
}

/// The text is `1`, or the word `true` in letters of either case.
pub open spec fn is_yes(text: Seq<char>) -> bool {
    ||| text == seq!['1']
    ||| {
        &&& text.len() == 4
        &&& text[0] == 't' || text[0] == 'T'
        &&& text[1] == 'r' || text[1] == 'R'
        &&& text[2] == 'u' || text[2] == 'U'
        &&& text[3] == 'e' || text[3] == 'E'
    }
}

/// The service can be restarted from the web unless the settings file or, where
/// it says nothing, the environment says otherwise: all but `1` and `true` is no.
pub proof fn restarting_is_allowed_unless_it_is_not(
    settings: Map<Seq<char>, Seq<char>>,
    env_storage: Option<Seq<char>>,
    env_port: Option<Seq<char>>,
    env_allow: Option<Seq<char>>,
)
    ensures
        ({
            let allow = startup_config(settings, env_storage, env_port, env_allow);
            let name = "FASTFILE_ALLOW_WEB_RESTART"@;
            let set = settings.contains_key(name);
            &&& set ==> (allow.allow_web_restart <==> is_yes(settings[name]))
            &&& !set && env_allow is Some ==> (allow.allow_web_restart <==> is_yes(env_allow->0))
            &&& !set && env_allow is None ==> allow.allow_web_restart
        }),
{
    let name = "FASTFILE_ALLOW_WEB_RESTART"@;
    if settings.contains_key(name) {
        yes_is_one_or_true(settings[name]);
    }
    if let Some(text) = env_allow {
        yes_is_one_or_true(text);
    }
}

proof fn yes_is_one_or_true(text: Seq<char>)
    ensures
        says_yes(text) <==> is_yes(text),
{
    reveal_strlit("1");
    reveal_strlit("true");
    assert("1"@ =~= seq!['1']);
    let word = "true"@;
    same_but_for_case(text, word);
    assert(word.len() == 4);
    assert(word[0] == 't' && word[1] == 'r' && word[2] == 'u' && word[3] == 'e');
    if text.len() == 4 && is_yes(text) {
        assert forall|i: int| 0 <= i < text.len() implies {
            ||| #[trigger] text[i] == word[i]
            ||| 'A' <= text[i] <= 'Z' && word[i] as u32 == text[i] as u32 + 32
            ||| 'A' <= word[i] <= 'Z' && text[i] as u32 == word[i] as u32 + 32
        } by {
            assert(i == 0 || i == 1 || i == 2 || i == 3);
        }
    }
    if text.len() == 4 && says_yes(text) {
        assert(text[0] == word[0] || text[0] == 'T');
        assert(text[1] == word[1] || text[1] == 'R');
        assert(text[2] == word[2] || text[2] == 'U');
        assert(text[3] == word[3] || text[3] == 'E');
    }
}

/// The numbers that are built in: the port, a day, and the seconds after which the
/// settings file is read again.
pub proof fn numbers_that_are_built_in()
    ensures
        DEFAULT_PORT == 8000,
        DEFAULT_SESSION_TTL_SECONDS == 24 * 60 * 60,
        RELOAD_SECONDS == 3,
{
}

} // verus!
