use fastfile::config::{
    config_map, load_config_map, load_runtime_config, load_startup_config, reload, RunningConfig,
    RuntimeConfig, Settings, StartupConfig, RELOAD_SECONDS,
};

fn text(s: &str) -> Option<String> {
    Some(s.to_string())
}

#[test]
fn settings_file_is_read() {
    let content = b"# comment\nFASTFILE_PASSWORD=one\nexport FASTFILE_STORAGE=\"/data/a b\"\n\
        no assignment here\nFASTFILE_PASSWORD='two'\n";
    let settings = load_config_map(Some(content));
    assert_eq!(settings.get("FASTFILE_PASSWORD"), text("two"));
    assert_eq!(settings.get("FASTFILE_STORAGE"), text("/data/a b"));
    assert_eq!(settings.get("FASTFILE_PORT"), None);
}

#[test]
fn dollar_signs_in_the_settings_file() {
    let content = b"# costs $5\nFASTFILE_PASSWORD='a$b'\nQUOTED=\"c\\$d\"\n\
        FASTFILETESTROOT=/data\nFASTFILE_STORAGE=${FASTFILETESTROOT}/files\n\
        PLAIN=$FASTFILETESTROOT\nUNKNOWN=x$FASTFILETESTNOTHING\nBROKEN=${\n";
    let settings = load_config_map(Some(content));
    assert_eq!(settings.get("FASTFILE_PASSWORD"), text("a$b"));
    assert_eq!(settings.get("QUOTED"), text("c$d"));
    assert_eq!(settings.get("FASTFILE_STORAGE"), text("/data/files"));
    assert_eq!(settings.get("PLAIN"), text("/data"));
    assert_eq!(settings.get("UNKNOWN"), text("x"));
    assert_eq!(settings.get("BROKEN"), None);
}

#[test]
fn missing_file_gives_no_settings() {
    assert_eq!(load_config_map(None).get("FASTFILE_PASSWORD"), None);
    assert_eq!(load_config_map(Some(b"")).get("FASTFILE_PASSWORD"), None);
}

#[test]
fn last_value_of_a_name_counts() {
    let lines = vec![
        Some(("A".to_string(), "1".to_string())),
        None,
        Some(("A".to_string(), "2".to_string())),
        Some(("B".to_string(), "3".to_string())),
    ];
    let settings = config_map(lines);
    assert_eq!(settings.get("A"), text("2"));
    assert_eq!(settings.get("B"), text("3"));
    assert_eq!(settings.get("C"), None);
}

#[test]
fn defaults_where_nothing_is_set() {
    let none = Settings::new();
    assert_eq!(
        load_runtime_config(&none, None, None),
        RuntimeConfig { password: "REDACTED_PASSWORD".to_string(), session_ttl_seconds: 86_400 }
    );
    assert_eq!(
        load_startup_config(&none, None, None, None),
        StartupConfig { storage: None, port: 8000, allow_web_restart: true }
    );
}

#[test]
fn file_goes_before_the_environment() {
    let file = load_config_map(Some(
        b"FASTFILE_PASSWORD=file\nFASTFILE_SESSION_TTL_SECONDS=60\nFASTFILE_STORAGE=/s\n\
          FASTFILE_PORT=9000\nFASTFILE_ALLOW_WEB_RESTART=0\n",
    ));
    assert_eq!(
        load_runtime_config(&file, text("env"), text("70")),
        RuntimeConfig { password: "file".to_string(), session_ttl_seconds: 60 }
    );
    assert_eq!(
        load_startup_config(&file, text("/e"), text("9001"), text("1")),
        StartupConfig { storage: text("/s"), port: 9000, allow_web_restart: false }
    );
    let none = Settings::new();
    assert_eq!(
        load_runtime_config(&none, text("env"), text("70")),
        RuntimeConfig { password: "env".to_string(), session_ttl_seconds: 70 }
    );
    assert_eq!(
        load_startup_config(&none, text("/e"), text("9001"), text("no")),
        StartupConfig { storage: text("/e"), port: 9001, allow_web_restart: false }
    );
}

#[test]
fn numbers_that_are_none_are_passed_over() {
    let file = load_config_map(Some(
        b"FASTFILE_SESSION_TTL_SECONDS=soon\nFASTFILE_PORT=70000\n",
    ));
    assert_eq!(load_runtime_config(&file, None, text("70")).session_ttl_seconds, 70);
    assert_eq!(load_startup_config(&file, None, text("81"), None).port, 81);
    assert_eq!(load_startup_config(&file, None, text("x"), None).port, 8000);
}

#[test]
fn ttl_that_is_not_positive_is_the_default() {
    let file = load_config_map(Some(b"FASTFILE_SESSION_TTL_SECONDS=0\n"));
    assert_eq!(load_runtime_config(&file, None, text("70")).session_ttl_seconds, 86_400);
    let none = Settings::new();
    assert_eq!(load_runtime_config(&none, None, text("-1")).session_ttl_seconds, 86_400);
}

#[test]
fn restart_is_allowed_by_one_or_true() {
    let none = Settings::new();
    for (value, allowed) in
        [("1", true), ("true", true), ("TRUE", true), ("yes", false), ("", false), ("01", false)]
    {
        let config = load_startup_config(&none, None, None, text(value));
        assert_eq!(config.allow_web_restart, allowed, "{value}");
    }
}

#[test]
fn reload_changes_only_what_may_change() {
    assert_eq!(RELOAD_SECONDS, 3);
    let first = load_config_map(Some(
        b"FASTFILE_PASSWORD=old\nFASTFILE_STORAGE=/old\nFASTFILE_PORT=9000\n",
    ));
    let running = RunningConfig {
        startup: load_startup_config(&first, None, None, None),
        runtime: load_runtime_config(&first, None, None),
    };
    let second = load_config_map(Some(
        b"FASTFILE_PASSWORD=new\nFASTFILE_SESSION_TTL_SECONDS=60\nFASTFILE_STORAGE=/new\n\
          FASTFILE_PORT=9001\nFASTFILE_ALLOW_WEB_RESTART=0\n",
    ));
    let running = reload(running, &second, None, None);
    assert_eq!(
        running,
        RunningConfig {
            startup: StartupConfig { storage: text("/old"), port: 9000, allow_web_restart: true },
            runtime: RuntimeConfig { password: "new".to_string(), session_ttl_seconds: 60 },
        }
    );
    let running = reload(running, &load_config_map(None), text("env"), None);
    assert_eq!(running.startup.port, 9000);
    assert_eq!(
        running.runtime,
        RuntimeConfig { password: "env".to_string(), session_ttl_seconds: 86_400 }
    );
}
