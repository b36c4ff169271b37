use netx::config::{Platform, Profile, ProfileType, Reality, Transport, TLS, UTLS};
use netx::state::RealStatus;
use netx::tray::{load_icon, open_tui_action, ICON_HEIGHT, ICON_WIDTH};
use netx::text::{decimal, is_space_char, join};
use netx::tui::{
    details, log_panel, log_row, on_key, profile_details, status_line, Intent, Key, Step,
};
use netx::vpn::CommandLine;

fn sample() -> Profile {
    Profile {
        name: "home".to_string(),
        uuid: "u".to_string(),
        kind: ProfileType::Vless,
        server: "1.2.3.4".to_string(),
        server_port: 443,
        tls: TLS {
            server_name: "sni.example".to_string(),
            utls: UTLS { fingerprint: "chrome".to_string() },
            reality: Reality { public_key: "PK".to_string(), short_id: "01".to_string() },
            transport: Transport { service_name: "grpc".to_string() },
        },
    }
}

#[test]
fn icon_is_opaque_blue() {
    let rgba = load_icon();
    assert_eq!(rgba.len(), 16 * 16 * 4);
    assert_eq!(rgba.len(), (ICON_WIDTH * ICON_HEIGHT * 4) as usize);
    for px in rgba.chunks(4) {
        assert_eq!(px, [0u8, 0, 255, 255]);
    }
}

#[test]
fn terminal_commands() {
    assert_eq!(
        open_tui_action(Platform::Linux, "alacritty"),
        CommandLine {
            program: "alacritty".to_string(),
            args: vec!["-e".to_string(), "./tui".to_string()],
        }
    );
    assert_eq!(
        open_tui_action(Platform::Windows, "wt"),
        CommandLine {
            program: "cmd".to_string(),
            args: vec![
                "/c".to_string(),
                "start".to_string(),
                "wt".to_string(),
                "/k".to_string(),
                "./tui".to_string()
            ],
        }
    );
}

#[test]
fn down_wraps_and_up_stops() {
    assert_eq!(on_key(Key::Down, 0, 3), Step { selected: 1, intent: Intent::Nothing });
    assert_eq!(on_key(Key::Down, 2, 3), Step { selected: 0, intent: Intent::Nothing });
    assert_eq!(on_key(Key::Down, 5, 0), Step { selected: 5, intent: Intent::Nothing });
    assert_eq!(on_key(Key::Down, 7, 3), Step { selected: 2, intent: Intent::Nothing });
    assert_eq!(on_key(Key::Down, usize::MAX, 4), Step { selected: 0, intent: Intent::Nothing });
    assert_eq!(on_key(Key::Down, 0, 1), Step { selected: 0, intent: Intent::Nothing });
    assert_eq!(on_key(Key::Up, 2, 3), Step { selected: 1, intent: Intent::Nothing });
    assert_eq!(on_key(Key::Up, 0, 3), Step { selected: 0, intent: Intent::Nothing });
}

#[test]
fn keys_become_intents() {
    assert_eq!(on_key(Key::Quit, 1, 3), Step { selected: 1, intent: Intent::Quit });
    assert_eq!(on_key(Key::Stop, 1, 3), Step { selected: 1, intent: Intent::Stop });
    assert_eq!(on_key(Key::Other, 1, 3), Step { selected: 1, intent: Intent::Nothing });
    assert_eq!(
        on_key(Key::Enter, 1, 3),
        Step { selected: 1, intent: Intent::Start { index: 1 } }
    );
    assert_eq!(on_key(Key::Enter, 3, 3), Step { selected: 3, intent: Intent::Nothing });
    assert_eq!(
        on_key(Key::Delete, 2, 3),
        Step { selected: 2, intent: Intent::Delete { index: 2 } }
    );
    assert_eq!(on_key(Key::Delete, 0, 0), Step { selected: 0, intent: Intent::Nothing });
}

#[test]
fn status_lines() {
    assert_eq!(status_line(&RealStatus::Disconnected), "🔴 Disconnected");
    assert_eq!(
        status_line(&RealStatus::Connecting { profile: "home".to_string() }),
        "🟡 Connecting to home"
    );
    assert_eq!(
        status_line(&RealStatus::Connected { profile: "home".to_string(), pid: 4711 }),
        "🟢 Connected to home (pid 4711)"
    );
    assert_eq!(
        status_line(&RealStatus::Connected { profile: "x".to_string(), pid: u32::MAX }),
        "🟢 Connected to x (pid 4294967295)"
    );
    assert_eq!(status_line(&RealStatus::Error { message: "boom".to_string() }), "❌ boom");
}

#[test]
fn profile_panel() {
    assert_eq!(profile_details(None), "No profile selected");
    let expected = "Name: home\nType: \"VLESS\"\nServer: 1.2.3.4:443\nTLS Server Name: sni.example\nUTLS Fingerprint: chrome\nReality PK: PK\nTransport: grpc";
    assert_eq!(profile_details(Some(&sample())), expected);
    assert_eq!(details(&sample()), expected);
    let mut other = sample();
    other.server_port = 65535;
    other.name = String::new();
    assert_eq!(
        details(&other),
        "Name: \nType: \"VLESS\"\nServer: 1.2.3.4:65535\nTLS Server Name: sni.example\nUTLS Fingerprint: chrome\nReality PK: PK\nTransport: grpc"
    );
}

#[test]
fn log_panel_shows_the_newest_row_first() {
    assert_eq!(log_row("12:00:01", "sing-box stopped"), "12:00:01 sing-box stopped");
    assert_eq!(log_panel(&vec![]), "");
    assert_eq!(log_panel(&vec!["a".to_string()]), "a");
    assert_eq!(
        log_panel(&vec!["a".to_string(), "b".to_string(), "c".to_string()]),
        "c\nb\na"
    );
}

#[test]
fn numbers_in_decimal() {
    assert_eq!(decimal(0), "0");
    assert_eq!(decimal(7), "7");
    assert_eq!(decimal(10), "10");
    assert_eq!(decimal(1234567890), "1234567890");
    assert_eq!(decimal(usize::MAX), usize::MAX.to_string());
    for n in 0..2000usize {
        assert_eq!(decimal(n), n.to_string());
    }
}

#[test]
fn white_space_is_what_std_calls_so() {
    for n in 0..=0x10FFFFu32 {
        if let Some(c) = char::from_u32(n) {
            assert_eq!(is_space_char(c), c.is_whitespace());
        }
    }
}

#[test]
fn joined_texts() {
    assert_eq!(join("", ""), "");
    assert_eq!(join("ab", "cd"), "abcd");
    assert_eq!(join("", "x"), "x");
}
