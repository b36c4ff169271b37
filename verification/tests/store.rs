use netx::config::{
    Config, ConfigManager, FileRead, LoadStep, LogConfig, LogLevel, Platform, Profile,
    ProfileType, Reality, StoreError, Transport, WriteStep, TLS, UTLS,
};
use netx::text::is_blank;

fn profile(name: &str, server: &str, port: u16) -> Profile {
    Profile {
        name: name.to_string(),
        uuid: "6ba7b810-9dad-11d1-80b4-00c04fd430c8".to_string(),
        kind: ProfileType::Vless,
        server: server.to_string(),
        server_port: port,
        tls: TLS {
            server_name: "example.org".to_string(),
            utls: UTLS { fingerprint: "chrome".to_string() },
            reality: Reality { public_key: "pk".to_string(), short_id: "0a".to_string() },
            transport: Transport { service_name: "grpc".to_string() },
        },
    }
}

#[test]
fn default_config_on_linux() {
    let c = Config::default_for(Platform::Linux);
    assert_eq!(c.version, 1);
    assert_eq!(c.terminal, "alacritty");
    assert_eq!(c.singbox, "/usr/bin/sing-box");
    assert_eq!(c.log, LogConfig { level: LogLevel::Warn });
    assert!(c.profiles.is_empty());
}

#[test]
fn default_config_on_windows() {
    let c = Config::default_for(Platform::Windows);
    assert_eq!(c.version, 1);
    assert_eq!(c.terminal, "cmd");
    assert_eq!(c.singbox, "C:\\Program Files\\sing-box\\sing-box.exe");
    assert_eq!(c.log.level, LogLevel::Warn);
    assert!(c.profiles.is_empty());
}

#[test]
fn missing_document_loads_the_default() {
    let step = ConfigManager::load_config(FileRead::Missing, Platform::Linux);
    assert_eq!(step, LoadStep::WriteDefault(Config::default_for(Platform::Linux)));
}

#[test]
fn empty_document_loads_the_default() {
    let read = FileRead::Text { content: String::new() };
    let step = ConfigManager::load_config(read, Platform::Windows);
    assert_eq!(step, LoadStep::WriteDefault(Config::default_for(Platform::Windows)));
}

#[test]
fn white_space_document_loads_the_default() {
    let read = FileRead::Text { content: " \t\r\n\u{3000}\u{a0}".to_string() };
    let step = ConfigManager::load_config(read, Platform::Linux);
    assert_eq!(step, LoadStep::WriteDefault(Config::default_for(Platform::Linux)));
}

#[test]
fn other_text_is_to_be_decoded() {
    let read = FileRead::Text { content: "  version = 1\n".to_string() };
    let step = ConfigManager::load_config(read, Platform::Linux);
    assert_eq!(step, LoadStep::Decode("  version = 1\n".to_string()));
}

#[test]
fn unreadable_document_is_an_io_error() {
    let read = FileRead::Unreadable { message: "permission denied".to_string() };
    let step = ConfigManager::load_config(read, Platform::Linux);
    assert_eq!(
        step,
        LoadStep::Fail(StoreError::Io { message: "permission denied".to_string() })
    );
}

#[test]
fn decoding_failure_is_a_parse_error() {
    let r = ConfigManager::decoded(Err("expected `=`".to_string()));
    assert_eq!(r, Err(StoreError::Parse { message: "expected `=`".to_string() }));
    let c = Config::default_for(Platform::Linux);
    assert_eq!(ConfigManager::decoded(Ok(c.clone())), Ok(c));
}

#[test]
fn blank_texts() {
    assert!(is_blank(""));
    assert!(is_blank("   "));
    assert!(is_blank("\n\t \u{2003}\u{85}"));
    assert!(!is_blank(" a "));
    assert!(!is_blank("\u{200b}"));
    assert!(!is_blank("0"));
}

#[test]
fn add_profile_appends_last() {
    let mut c = Config::default_for(Platform::Linux);
    ConfigManager::add_profile(&mut c, profile("home", "1.2.3.4", 443));
    assert_eq!(c.profiles.len(), 1);
    ConfigManager::add_profile(&mut c, profile("work", "5.6.7.8", 8443));
    assert_eq!(c.profiles.len(), 2);
    assert_eq!(c.profiles[0], profile("home", "1.2.3.4", 443));
    assert_eq!(c.profiles[1], profile("work", "5.6.7.8", 8443));
    assert_eq!(c.terminal, "alacritty");
    assert_eq!(c.version, 1);
}

#[test]
fn delete_profile_keeps_the_order_of_the_rest() {
    let mut c = Config::default_for(Platform::Linux);
    ConfigManager::add_profile(&mut c, profile("a", "h1", 1));
    ConfigManager::add_profile(&mut c, profile("b", "h2", 2));
    ConfigManager::add_profile(&mut c, profile("c", "h3", 3));
    assert_eq!(ConfigManager::delete_profile(&mut c, 1), Ok(()));
    assert_eq!(c.profiles, vec![profile("a", "h1", 1), profile("c", "h3", 3)]);
    assert_eq!(ConfigManager::delete_profile(&mut c, 0), Ok(()));
    assert_eq!(c.profiles, vec![profile("c", "h3", 3)]);
}

#[test]
fn delete_profile_refuses_an_index_out_of_range() {
    let mut c = Config::default_for(Platform::Linux);
    ConfigManager::add_profile(&mut c, profile("a", "h1", 1));
    let before = c.clone();
    assert_eq!(
        ConfigManager::delete_profile(&mut c, 1),
        Err(StoreError::Index { index: 1, len: 1 })
    );
    assert_eq!(c, before);
    assert_eq!(
        ConfigManager::delete_profile(&mut c, usize::MAX),
        Err(StoreError::Index { index: usize::MAX, len: 1 })
    );
    assert_eq!(c, before);
}

#[test]
fn log_levels_are_ordered() {
    assert!(LogLevel::Trace < LogLevel::Debug);
    assert!(LogLevel::Debug < LogLevel::Info);
    assert!(LogLevel::Info < LogLevel::Warn);
    assert!(LogLevel::Warn < LogLevel::Error);
}

#[test]
fn saving_goes_through_a_new_file() {
    let steps = ConfigManager::write_config("version = 1\n".to_string());
    assert_eq!(
        steps,
        vec![
            WriteStep::CreateDir { path: "config".to_string() },
            WriteStep::WriteFile {
                path: "config/config.toml.new".to_string(),
                content: "version = 1\n".to_string()
            },
            WriteStep::Rename {
                from: "config/config.toml.new".to_string(),
                to: "config/config.toml".to_string()
            },
        ]
    );
    assert_eq!(netx::config::NETX_CONFIG_TOML, "config/config.toml");
}

#[test]
fn failed_save_is_an_io_error() {
    assert_eq!(ConfigManager::written(Ok(())), Ok(()));
    assert_eq!(
        ConfigManager::written(Err("disk full".to_string())),
        Err(StoreError::Io { message: "disk full".to_string() })
    );
}

#[test]
fn errors_in_words() {
    assert_eq!(
        StoreError::Parse { message: "line 3".to_string() }.describe(),
        "malformed configuration: line 3"
    );
    assert_eq!(
        StoreError::Io { message: "denied".to_string() }.describe(),
        "configuration not accessible: denied"
    );
    assert_eq!(StoreError::Index { index: 42, len: 3 }.describe(), "no profile at index 42");
}
