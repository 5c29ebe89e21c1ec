use jvlauncher::strutil::parse_i32;
use jvlauncher::types::{ai_settings_from_raw, settings_from_raw, AISettings, AppType, Settings, WindowState};

#[test]
fn test_window_state_serialization() {
    let state = WindowState { x: 100, y: 200, width: 1200, height: 800 };

    assert_eq!(state.x, 100);
    assert_eq!(state.y, 200);
    assert_eq!(state.width, 1200);
    assert_eq!(state.height, 800);
}

#[test]
fn test_window_state_clone() {
    let state1 = WindowState { x: 100, y: 200, width: 1200, height: 800 };

    let state2 = state1.clone();

    assert_eq!(state1.x, state2.x);
    assert_eq!(state1.y, state2.y);
    assert_eq!(state1.width, state2.width);
    assert_eq!(state1.height, state2.height);
}

#[test]
fn test_app_type_as_str() {
    assert_eq!(AppType::App.as_str(), "app");
    assert_eq!(AppType::Webapp.as_str(), "webapp");
    assert_eq!(AppType::Tui.as_str(), "tui");
    assert_eq!(AppType::Agent.as_str(), "agent");
}

#[test]
fn test_app_type_from_str() {
    assert_eq!(AppType::from_str("webapp"), AppType::Webapp);
    assert_eq!(AppType::from_str("WEBAPP"), AppType::Webapp);
    assert_eq!(AppType::from_str("Tui"), AppType::Tui);
    assert_eq!(AppType::from_str("agent"), AppType::Agent);
    assert_eq!(AppType::from_str("app"), AppType::App);
    assert_eq!(AppType::from_str("something else"), AppType::App);
}

#[test]
fn test_settings_default() {
    let s = Settings::default();
    assert_eq!(s.global_shortcut, "CommandOrControl+Shift+Space");
    assert_eq!(s.theme, "system");
    assert_eq!(s.grid_cols, 4);
    assert_eq!(s.grid_rows, 3);
    assert!(!s.start_at_login);
    assert!(s.terminal_command.is_none());
    assert!(!s.hide_app_names);
    assert!(!s.separate_agent_apps);
}

#[test]
fn test_ai_settings_default() {
    let s = AISettings::default();
    assert!(!s.enabled);
    assert_eq!(s.endpoint_url, "http://192.168.1.113:1234");
    assert_eq!(s.api_key, "");
    assert!(s.default_model.is_none());
    assert_eq!(s.max_concurrent_agents, 1);
}

#[test]
fn test_parse_i32() {
    assert_eq!(parse_i32("0"), Some(0));
    assert_eq!(parse_i32("42"), Some(42));
    assert_eq!(parse_i32("-17"), Some(-17));
    assert_eq!(parse_i32("+5"), Some(5));
    assert_eq!(parse_i32("2147483647"), Some(2147483647));
    assert_eq!(parse_i32("-2147483648"), Some(-2147483648));
    assert_eq!(parse_i32("2147483648"), None);
    assert_eq!(parse_i32("-2147483649"), None);
    assert_eq!(parse_i32("99999999999999999999"), None);
    assert_eq!(parse_i32(""), None);
    assert_eq!(parse_i32("-"), None);
    assert_eq!(parse_i32("12a"), None);
    assert_eq!(parse_i32(" 3"), None);
}

#[test]
fn test_ai_settings_from_raw() {
    let s = ai_settings_from_raw(
        Some("true".to_string()),
        Some("http://box:9/".to_string()),
        None,
        Some("m1".to_string()),
        Some("3".to_string()),
    );
    assert!(s.enabled);
    assert_eq!(s.endpoint_url, "http://box:9/");
    assert_eq!(s.api_key, "");
    assert_eq!(s.default_model.as_deref(), Some("m1"));
    assert_eq!(s.max_concurrent_agents, 3);

    let d = ai_settings_from_raw(Some("yes".to_string()), None, None, None, Some("x".to_string()));
    assert!(!d.enabled);
    assert_eq!(d.endpoint_url, "http://192.168.1.113:1234");
    assert_eq!(d.max_concurrent_agents, 1);
}

#[test]
fn test_settings_from_raw_defaults() {
    let s = settings_from_raw(None, None, Some("6".to_string()), Some("oops".to_string()), Some("true".to_string()), None, None, Some("false".to_string()));
    assert_eq!(s.global_shortcut, "CommandOrControl+Shift+Space");
    assert_eq!(s.theme, "system");
    assert_eq!(s.grid_cols, 6);
    assert_eq!(s.grid_rows, 3);
    assert!(s.start_at_login);
    assert!(s.terminal_command.is_none());
    assert!(!s.hide_app_names);
    assert!(!s.separate_agent_apps);
}
