//! Settings: from the settings file, else from the environment, else a default.
use vstd::hash_map::StringHashMap;
use vstd::prelude::*;

use crate::outside::{dotenv_lines, read_dotenv, same_names, setting_name};
use crate::text::{parse_i64, parse_u16, parsed_i64, parsed_u16, same_ignoring_ascii_case};
use crate::text::{same_text, same_text_ignoring_ascii_case};

verus! {

/// The port that the service listens on where no other is set.
pub const DEFAULT_PORT: u16 = 8000;

/// How many seconds a session lasts where nothing else is set.
pub const DEFAULT_SESSION_TTL_SECONDS: i64 = 86_400;

/// After how many seconds the settings are read again, each time.
pub const RELOAD_SECONDS: u64 = 3;

/// The settings of a settings file: values by their names.
pub struct Settings {
    values: StringHashMap<String>,
}

/// A line of a settings file as a mathematical value: a name and a value, or
/// nothing.
pub type Line = Option<(Seq<char>, Seq<char>)>;

/// The settings that the lines make, the last of several values of one name
/// counting.
pub open spec fn settings_of(lines: Seq<Line>) -> Map<Seq<char>, Seq<char>>
    decreases lines.len(),
{
    if lines.len() == 0 {
        Map::empty()
    } else {
        match lines.last() {
            Some((name, value)) => settings_of(lines.drop_last()).insert(name, value),
            None => settings_of(lines.drop_last()),
        }
    }
}

impl DeepView for Settings {
    type V = Map<Seq<char>, Seq<char>>;

    closed spec fn deep_view(&self) -> Map<Seq<char>, Seq<char>> {
        self.values@.map_values(|value: String| value@)
    }
}

/// The setting `name`, if there is one.
pub open spec fn setting(settings: Map<Seq<char>, Seq<char>>, name: Seq<char>) -> Option<
    Seq<char>,
> {
    if settings.contains_key(name) {
        Some(settings[name])
    } else {
        None
    }
}

impl Settings {
    /// No settings.
    pub fn new() -> (r: Settings)
        ensures
            r.deep_view() == Map::<Seq<char>, Seq<char>>::empty(),
    {
        let values: StringHashMap<String> = StringHashMap::new();
        let settings = Settings { values };
        assert(settings.deep_view() =~= Map::<Seq<char>, Seq<char>>::empty());
        settings
    }

    /// Sets `name` to `value`.
    fn set(&mut self, name: String, value: String)
        ensures
            final(self).deep_view() == old(self).deep_view().insert(name@, value@),
    {
        self.values.insert(name, value);
        assert(self.deep_view() =~= old(self).deep_view().insert(name@, value@));
    }

    /// The setting `name`, if there is one.
    pub fn get(&self, name: &str) -> (r: Option<String>)
        ensures
            r.deep_view() == setting(self.deep_view(), name@),
    {
        match self.values.get(name) {
            Some(value) => Some(value.clone()),
            None => None,
        }
    }
}

/// The settings that the lines make, the last of several values of one name
/// counting.
pub fn config_map(lines: Vec<Option<(String, String)>>) -> (r: Settings)
    ensures
        r.deep_view() == settings_of(lines.deep_view()),
{
    let ghost all = lines.deep_view();
    let mut settings = Settings::new();
    let mut i: usize = 0;
    assert(all.take(0) =~= Seq::<Line>::empty());
    while i < lines.len()
        invariant
            all == lines.deep_view(),
            i <= all.len() == lines@.len(),
            settings.deep_view() == settings_of(all.take(i as int)),
        decreases lines.len() - i,
    {
        proof {
            let next = all.take(i + 1);
            assert(next.drop_last() =~= all.take(i as int));
            assert(next.last() == lines@[i as int].deep_view());
        }
        match &lines[i] {
            Some(entry) => settings.set(entry.0.clone(), entry.1.clone()),
            None => {},
        }
        i += 1;
    }
    assert(all.take(all.len() as int) =~= all);
    settings
}

/// The names in the settings are names that a line can assign to.
proof fn names_of_lines(lines: Seq<Line>)
    requires
        forall|i: int|
            0 <= i < lines.len() ==> (#[trigger] lines[i] matches Some(entry) ==> setting_name(
                entry.0,
            )),
    ensures
        forall|name: Seq<char>| #[trigger]
            settings_of(lines).contains_key(name) ==> setting_name(name),
    decreases lines.len(),
{
    if lines.len() > 0 {
        let head = lines.drop_last();
        assert forall|i: int| 0 <= i < head.len() implies (
        #[trigger] head[i] matches Some(entry) ==> setting_name(entry.0)) by {
            assert(lines[i] == head[i]);
        }
        names_of_lines(head);
        let last = lines[lines.len() - 1];
        assert forall|name: Seq<char>| #[trigger] settings_of(lines).contains_key(
            name,
        ) implies setting_name(name) by {
            match last {
                Some((set, value)) => {
                    if name != set {
                        assert(settings_of(head).contains_key(name));
                    }
                },
                None => {},
            }
        }
    }
}

/// Entries with the same names set the same names.
proof fn same_names_set(a: Seq<Line>, b: Seq<Line>)
    requires
        same_names(a, b),
    ensures
        settings_of(a).dom() == settings_of(b).dom(),
    decreases a.len(),
{
    if a.len() > 0 {
        let (x, y) = (a.drop_last(), b.drop_last());
        assert forall|i: int| 0 <= i < x.len() implies match (#[trigger] x[i], #[trigger] y[i]) {
            (Some(x), Some(y)) => x.0 == y.0,
            (None, None) => true,
            _ => false,
        } by {
            assert(x[i] == a[i] && y[i] == b[i]);
        }
        same_names_set(x, y);
        let n = a.len() - 1;
        assert(a[n] is Some == b[n] is Some);
        assert(settings_of(a).dom() =~= settings_of(b).dom());
    } else {
        assert(a =~= b);
    }
}

/// The settings in a settings file, `None` where there is no such file: those that
/// its lines make, where a `$` may stand for a variable of the environment. Which
/// names are set depends on the file alone, and so does everything where the file
/// holds no `$`.
pub fn load_config_map(content: Option<&[u8]>) -> (r: Settings)
    ensures
        content is None ==> r.deep_view() == Map::<Seq<char>, Seq<char>>::empty(),
        content matches Some(bytes) ==> exists|answers: Seq<Option<Seq<char>>>|
            r.deep_view() == settings_of(#[trigger] dotenv_lines(bytes@, answers)),
        content matches Some(bytes) ==> forall|answers: Seq<Option<Seq<char>>>|
            r.deep_view().dom() == settings_of(#[trigger] dotenv_lines(bytes@, answers)).dom(),
        content matches Some(bytes) ==> !bytes@.contains(36u8) ==> forall|
            answers: Seq<Option<Seq<char>>>,
        |
            r.deep_view() == settings_of(#[trigger] dotenv_lines(bytes@, answers)),
        forall|name: Seq<char>| #[trigger] r.deep_view().contains_key(name) ==> setting_name(name),
{
    match content {
        Some(bytes) => {
            let lines = read_dotenv(bytes);
            proof {
                let all = lines.deep_view();
                assert forall|i: int| 0 <= i < all.len() implies (
                #[trigger] all[i] matches Some(entry) ==> setting_name(entry.0)) by {
                    assert(all[i] == lines@[i].deep_view());
                }
                names_of_lines(all);
                assert forall|answers: Seq<Option<Seq<char>>>|
                    settings_of(all).dom() == settings_of(
                        #[trigger] dotenv_lines(bytes@, answers),
                    ).dom() by {
                    same_names_set(all, dotenv_lines(bytes@, answers));
                }
            }
            config_map(lines)
        },
        None => Settings::new(),
    }
}

/// What can be changed while the service runs.
#[derive(Debug, Clone, PartialEq, Eq)]
pub struct RuntimeConfig<S> {
    pub password: S,
    pub session_ttl_seconds: i64,
}

impl<S: DeepView> DeepView for RuntimeConfig<S> {
    type V = RuntimeConfig<S::V>;

    open spec fn deep_view(&self) -> Self::V {
        RuntimeConfig {
            password: self.password.deep_view(),
            session_ttl_seconds: self.session_ttl_seconds,
        }
    }
}

/// `first`, else `second`.
pub open spec fn first_of<T>(first: Option<T>, second: Option<T>) -> Option<T> {
    match first {
        Some(value) => Some(value),
        None => second,
    }
}

/// The number in the text, if the text is there and is a number.
pub open spec fn number_in(text: Option<Seq<char>>) -> Option<int> {
    match text {
        Some(text) => parsed_i64(text),
        None => None,
    }
}

/// The password and the time that sessions last: from the settings, else from
/// the environment, else a default. A time that is not positive is replaced by
/// the default.
pub open spec fn runtime_config(
    settings: Map<Seq<char>, Seq<char>>,
    env_password: Option<Seq<char>>,
    env_ttl: Option<Seq<char>>,
) -> RuntimeConfig<Seq<char>> {
    let password = match first_of(setting(settings, "FASTFILE_PASSWORD"@), env_password) {
        Some(password) => password,
        None => "REDACTED_PASSWORD"@,
    };
    let ttl = first_of(
        number_in(setting(settings, "FASTFILE_SESSION_TTL_SECONDS"@)),
        number_in(env_ttl),
    );
    RuntimeConfig {
        password,
        session_ttl_seconds: match ttl {
            Some(seconds) => if seconds > 0 {
                seconds as i64
            } else {
                DEFAULT_SESSION_TTL_SECONDS
            },
            None => DEFAULT_SESSION_TTL_SECONDS,
        },
    }
}

/// The number in the text, if the text is there and is a number.
fn read_number(text: &Option<String>) -> (r: Option<i64>)
    ensures
        r matches Some(n) ==> number_in(text.deep_view()) == Some(n as int),
        r is None ==> number_in(text.deep_view()) is None,
{
    match text {
        Some(text) => parse_i64(text.as_str()),
        None => None,
    }
}

/// The password and the time that sessions last: from the settings, else from
/// the environment, else a default.
pub fn load_runtime_config(
    settings: &Settings,
    env_password: Option<String>,
    env_ttl: Option<String>,
) -> (r: RuntimeConfig<String>)
    ensures
        r.deep_view() == runtime_config(
            settings.deep_view(),
            env_password.deep_view(),
            env_ttl.deep_view(),
        ),
        r.session_ttl_seconds > 0,
{
    let password = match settings.get("FASTFILE_PASSWORD") {
        Some(password) => password,
        None => match env_password {
            Some(password) => password,
            None => "REDACTED_PASSWORD".to_owned(),
        },
    };
    let ttl = match read_number(&settings.get("FASTFILE_SESSION_TTL_SECONDS")) {
        Some(seconds) => Some(seconds),
        None => read_number(&env_ttl),
    };
    let session_ttl_seconds: i64 = match ttl {
        Some(seconds) => if seconds > 0 {
            seconds
        } else {
            DEFAULT_SESSION_TTL_SECONDS
        },
        None => DEFAULT_SESSION_TTL_SECONDS,
    };
    RuntimeConfig { password, session_ttl_seconds }
}

/// What is fixed when the service starts. `storage` is the directory for
/// everything that is stored, where one is set.
#[derive(Debug, Clone, PartialEq, Eq)]
pub struct StartupConfig<S> {
    pub storage: Option<S>,
    pub port: u16,
    pub allow_web_restart: bool,
}

impl<S: DeepView> DeepView for StartupConfig<S> {
    type V = StartupConfig<S::V>;

    open spec fn deep_view(&self) -> Self::V {
        StartupConfig {
            storage: self.storage.deep_view(),
            port: self.port,
            allow_web_restart: self.allow_web_restart,
        }
    }
}

/// The port in the text, if the text is there and is a port.
pub open spec fn port_in(text: Option<Seq<char>>) -> Option<int> {
    match text {
        Some(text) => parsed_u16(text),
        None => None,
    }
}

/// The text says yes: `1` or `true`, in whatever case.
pub open spec fn says_yes(text: Seq<char>) -> bool {
    text == "1"@ || same_ignoring_ascii_case(text, "true"@)
}

/// The directory, the port and whether the service may be restarted from the
/// web: from the settings, else from the environment, else a default.
pub open spec fn startup_config(
    settings: Map<Seq<char>, Seq<char>>,
    env_storage: Option<Seq<char>>,
    env_port: Option<Seq<char>>,
    env_allow: Option<Seq<char>>,
) -> StartupConfig<Seq<char>> {
    let port = first_of(port_in(setting(settings, "FASTFILE_PORT"@)), port_in(env_port));
    let allow = first_of(setting(settings, "FASTFILE_ALLOW_WEB_RESTART"@), env_allow);
    StartupConfig {
        storage: first_of(setting(settings, "FASTFILE_STORAGE"@), env_storage),
        port: match port {
            Some(port) => port as u16,
            None => DEFAULT_PORT,
        },
        allow_web_restart: match allow {
            Some(text) => says_yes(text),
            None => true,
        },
    }
}

/// The port in the text, if the text is there and is a port.
fn read_port(text: &Option<String>) -> (r: Option<u16>)
    ensures
        r matches Some(n) ==> port_in(text.deep_view()) == Some(n as int),
        r is None ==> port_in(text.deep_view()) is None,
{
    match text {
        Some(text) => parse_u16(text.as_str()),
        None => None,
    }
}

/// The directory, the port and whether the service may be restarted from the
/// web: from the settings, else from the environment, else a default.
pub fn load_startup_config(
    settings: &Settings,
    env_storage: Option<String>,
    env_port: Option<String>,
    env_allow: Option<String>,
) -> (r: StartupConfig<String>)
    ensures
        r.deep_view() == startup_config(
            settings.deep_view(),
            env_storage.deep_view(),
            env_port.deep_view(),
            env_allow.deep_view(),
        ),
{
    let storage = match settings.get("FASTFILE_STORAGE") {
        Some(storage) => Some(storage),
        None => env_storage,
    };
    let port: u16 = match read_port(&settings.get("FASTFILE_PORT")) {
        Some(port) => port,
        None => match read_port(&env_port) {
            Some(port) => port,
            None => DEFAULT_PORT,
        },
    };
    let allow = match settings.get("FASTFILE_ALLOW_WEB_RESTART") {
        Some(text) => Some(text),
        None => env_allow,
    };
    let allow_web_restart = match allow {
        Some(text) => same_text(text.as_str(), "1") || same_text_ignoring_ascii_case(
            text.as_str(),
            "true",
        ),
        None => true,
    };
    StartupConfig { storage, port, allow_web_restart }
}

/// The configuration of a service that runs.
#[derive(Debug, Clone, PartialEq, Eq)]
pub struct RunningConfig<S> {
    pub startup: StartupConfig<S>,
    pub runtime: RuntimeConfig<S>,
}

impl<S: DeepView> DeepView for RunningConfig<S> {
    type V = RunningConfig<S::V>;

    open spec fn deep_view(&self) -> Self::V {
        RunningConfig {
            startup: self.startup.deep_view(),
            runtime: self.runtime.deep_view(),
        }
    }
}

/// The configuration after the settings were read again: the password and the time
/// that sessions last are those of the settings now, and what was fixed when the
/// service started stays.
pub fn reload(
    current: RunningConfig<String>,
    settings: &Settings,
    env_password: Option<String>,
    env_ttl: Option<String>,
) -> (r: RunningConfig<String>)
    ensures
        r.deep_view().startup == current.deep_view().startup,
        r.deep_view().runtime == runtime_config(
            settings.deep_view(),
            env_password.deep_view(),
            env_ttl.deep_view(),
        ),
        r.runtime.session_ttl_seconds > 0,
{
    RunningConfig {
        startup: current.startup,
        runtime: load_runtime_config(settings, env_password, env_ttl),
    }
}

} // verus!
