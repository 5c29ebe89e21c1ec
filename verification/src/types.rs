//! Data model shared by the launcher: applications, settings, agent
//! configurations, queue rows and notifications, and the assembly of
//! settings from the raw values of the settings store.

use vstd::prelude::*;

verus! {

/// The kind of application stored in the launcher.
#[derive(Debug, Clone, PartialEq, Eq, Structural)]
pub enum AppType {
    App,
    Webapp,
    Tui,
    Agent,
}

impl AppType {
    /// The canonical lower-case name of the application kind.
    pub fn as_str(&self) -> (r: &'static str)
        ensures
            self is App ==> r@ == "app"@,
            self is Webapp ==> r@ == "webapp"@,
            self is Tui ==> r@ == "tui"@,
            self is Agent ==> r@ == "agent"@,
    {
        match self {
            AppType::App => "app",
            AppType::Webapp => "webapp",
            AppType::Tui => "tui",
            AppType::Agent => "agent",
        }
    }

    /// Parse an application kind from its stored name, case-insensitively
    /// over ASCII; every unknown name is the plain `App` kind.
    pub fn from_str(s: &str) -> (r: Self)
        ensures
            r == Self::from_str_spec(s@),
    {
        let lower = ascii_lowercase(s);
        if str_eq(lower.as_str(), "webapp") {
            AppType::Webapp
        } else if str_eq(lower.as_str(), "tui") {
            AppType::Tui
        } else if str_eq(lower.as_str(), "agent") {
            AppType::Agent
        } else {
            AppType::App
        }
    }

    /// What `from_str` returns for a given name.
    pub open spec fn from_str_spec(s: Seq<char>) -> AppType {
        let lower = ascii_lowercase_seq(s);
        if lower == "webapp"@ {
            AppType::Webapp
        } else if lower == "tui"@ {
            AppType::Tui
        } else if lower == "agent"@ {
            AppType::Agent
        } else {
            AppType::App
        }
    }
}

/// ASCII lower-casing of one character; other characters are unchanged.
pub open spec fn ascii_lower_char(c: char) -> char {
    if 'A' <= c && c <= 'Z' {
        (((c as u8) + 32) as u8) as char
    } else {
        c
    }
}

/// ASCII lower-casing of a character sequence.
pub open spec fn ascii_lowercase_seq(s: Seq<char>) -> Seq<char> {
    s.map_values(|c: char| ascii_lower_char(c))
}

/// Lower-case the ASCII letters of a string.
pub fn ascii_lowercase(s: &str) -> (r: String)
    ensures
        r@ == ascii_lowercase_seq(s@),
{
    let n = s.unicode_len();
    let mut out = String::new();
    let mut i: usize = 0;
    while i < n
        invariant
            n == s@.len(),
            i <= n,
            out@ == ascii_lowercase_seq(s@).take(i as int),
        decreases n - i,
    {
        let c = s.get_char(i);
        let lc: char = if 'A' <= c && c <= 'Z' {
            (((c as u8) + 32) as u8) as char
        } else {
            c
        };
        assert(lc == ascii_lower_char(s@[i as int]));
        out.push(lc);
        assert(out@ =~= ascii_lowercase_seq(s@).take(i as int + 1));
        i = i + 1;
    }
    assert(ascii_lowercase_seq(s@).take(n as int) =~= ascii_lowercase_seq(s@));
    out
}

/// Whether two string slices hold the same characters.
pub fn str_eq(a: &str, b: &str) -> (r: bool)
    ensures
        r == (a@ == b@),
{
    let sa: String = a.to_owned();
    let sb: String = b.to_owned();
    sa == sb
}

/// Position and size of a window.
#[derive(Debug, Clone)]
pub struct WindowState {
    pub x: i32,
    pub y: i32,
    pub width: i32,
    pub height: i32,
}

/// An application stored in the launcher.
#[derive(Debug, Clone)]
pub struct App {
    pub id: i64,
    pub app_type: AppType,
    pub name: String,
    pub icon_path: Option<String>,
    pub position: i32,
    pub shortcut: Option<String>,
    pub global_shortcut: Option<String>,
    pub binary_path: Option<String>,
    pub cli_params: Option<String>,
    pub url: Option<String>,
    pub session_data_path: Option<String>,
    pub show_nav_controls: Option<bool>,
    pub open_external_links: Option<bool>,
    pub enable_oauth: Option<bool>,
    pub auto_close_timeout: Option<i32>,
    pub always_on_top: Option<bool>,
    pub hide_on_shortcut: Option<bool>,
}

/// The data needed to create a new application entry.
#[derive(Debug, Clone)]
pub struct NewApp {
    pub app_type: AppType,
    pub name: String,
    pub icon_path: Option<String>,
    pub shortcut: Option<String>,
    pub global_shortcut: Option<String>,
    pub binary_path: Option<String>,
    pub cli_params: Option<String>,
    pub url: Option<String>,
    pub show_nav_controls: Option<bool>,
    pub open_external_links: Option<bool>,
    pub enable_oauth: Option<bool>,
    pub auto_close_timeout: Option<i32>,
    pub always_on_top: Option<bool>,
    pub hide_on_shortcut: Option<bool>,
}

/// Global launcher settings.
#[derive(Debug, Clone)]
pub struct Settings {
    pub global_shortcut: String,
    pub theme: String,
    pub grid_cols: i32,
    pub grid_rows: i32,
    pub start_at_login: bool,
    pub terminal_command: Option<String>,
    pub hide_app_names: bool,
    pub separate_agent_apps: bool,
}

impl Default for Settings {
    /// The settings used before the user has stored any.
    fn default() -> (r: Self)
        ensures
            r.global_shortcut@ == "CommandOrControl+Shift+Space"@,
            r.theme@ == "system"@,
            r.grid_cols == 4,
            r.grid_rows == 3,
            !r.start_at_login,
            r.terminal_command is None,
            !r.hide_app_names,
            !r.separate_agent_apps,
    {
        Settings {
            global_shortcut: "CommandOrControl+Shift+Space".to_owned(),
            theme: "system".to_owned(),
            grid_cols: 4,
            grid_rows: 3,
            start_at_login: false,
            terminal_command: None,
            hide_app_names: false,
            separate_agent_apps: false,
        }
    }
}

/// Global AI settings: the master switch, the backend endpoint and the
/// admission cap for concurrently processing agents.
#[derive(Debug, Clone)]
pub struct AISettings {
    pub enabled: bool,
    pub endpoint_url: String,
    pub api_key: String,
    pub default_model: Option<String>,
    pub max_concurrent_agents: i32,
}

impl Default for AISettings {
    /// The AI settings used before the user has stored any: AI disabled,
    /// a local default endpoint, and one processing slot.
    fn default() -> (r: Self)
        ensures
            !r.enabled,
            r.endpoint_url@ == "http://192.168.1.113:1234"@,
            r.api_key@ == ""@,
            r.default_model is None,
            r.max_concurrent_agents == 1,
    {
        proof {
            reveal_strlit("");
        }
        AISettings {
            enabled: false,
            endpoint_url: "http://192.168.1.113:1234".to_owned(),
            api_key: String::new(),
            default_model: None,
            max_concurrent_agents: 1,
        }
    }
}

/// How a stored flag reads: only the literal `true` enables it.
pub open spec fn raw_flag(o: Option<String>) -> bool {
    o matches Some(v) && v@ == "true"@
}

/// How a stored number reads: a value that does not parse as a decimal
/// integer falls back to the default.
pub open spec fn raw_i32(o: Option<String>, default: i32) -> i32 {
    match o {
        Option::Some(v) => match crate::strutil::parse_i32_spec(v@) {
            Option::Some(x) => x,
            Option::None => default,
        },
        Option::None => default,
    }
}

fn flag_value(o: Option<String>) -> (r: bool)
    ensures
        r == raw_flag(o),
{
    match o {
        Some(v) => str_eq(v.as_str(), "true"),
        None => false,
    }
}

fn i32_value(o: Option<String>, default: i32) -> (r: i32)
    ensures
        r == raw_i32(o, default),
{
    match o {
        Some(v) => match crate::strutil::parse_i32(v.as_str()) {
            Some(x) => x,
            None => default,
        },
        None => default,
    }
}

/// Assemble the launcher settings from the raw values of the settings
/// store; a missing or unreadable value falls back to its default.
pub fn settings_from_raw(
    global_shortcut: Option<String>,
    theme: Option<String>,
    grid_cols: Option<String>,
    grid_rows: Option<String>,
    start_at_login: Option<String>,
    terminal_command: Option<String>,
    hide_app_names: Option<String>,
    separate_agent_apps: Option<String>,
) -> (r: Settings)
    ensures
        global_shortcut matches Some(v) ==> r.global_shortcut@ == v@,
        global_shortcut is None ==> r.global_shortcut@ == "CommandOrControl+Shift+Space"@,
        theme matches Some(v) ==> r.theme@ == v@,
        theme is None ==> r.theme@ == "system"@,
        r.grid_cols == raw_i32(grid_cols, 4),
        r.grid_rows == raw_i32(grid_rows, 3),
        r.start_at_login == raw_flag(start_at_login),
        r.terminal_command == terminal_command,
        r.hide_app_names == raw_flag(hide_app_names),
        r.separate_agent_apps == raw_flag(separate_agent_apps),
{
    Settings {
        global_shortcut: match global_shortcut {
            Some(v) => v,
            None => "CommandOrControl+Shift+Space".to_owned(),
        },
        theme: match theme {
            Some(v) => v,
            None => "system".to_owned(),
        },
        grid_cols: i32_value(grid_cols, 4),
        grid_rows: i32_value(grid_rows, 3),
        start_at_login: flag_value(start_at_login),
        terminal_command,
        hide_app_names: flag_value(hide_app_names),
        separate_agent_apps: flag_value(separate_agent_apps),
    }
}

/// Assemble the AI settings from the raw values of the settings store; a
/// missing or unreadable value falls back to its default.
pub fn ai_settings_from_raw(
    enabled: Option<String>,
    endpoint_url: Option<String>,
    api_key: Option<String>,
    default_model: Option<String>,
    max_concurrent_agents: Option<String>,
) -> (r: AISettings)
    ensures
        r.enabled == raw_flag(enabled),
        endpoint_url matches Some(v) ==> r.endpoint_url@ == v@,
        endpoint_url is None ==> r.endpoint_url@ == "http://192.168.1.113:1234"@,
        api_key matches Some(v) ==> r.api_key@ == v@,
        api_key is None ==> r.api_key@ == Seq::<char>::empty(),
        r.default_model == default_model,
        r.max_concurrent_agents == raw_i32(max_concurrent_agents, 1),
{
    AISettings {
        enabled: flag_value(enabled),
        endpoint_url: match endpoint_url {
            Some(v) => v,
            None => "http://192.168.1.113:1234".to_owned(),
        },
        api_key: match api_key {
            Some(v) => v,
            None => String::new(),
        },
        default_model,
        max_concurrent_agents: i32_value(max_concurrent_agents, 1),
    }
}

/// A model offered by the chat backend.
#[derive(Debug, Clone)]
pub struct AIModel {
    pub id: String,
    pub created: Option<i64>,
}

/// The stored configuration of one agent: its prompt, its model override
/// and the capabilities it may use.
#[derive(Debug, Clone)]
pub struct AgentApp {
    pub app_id: i64,
    pub model: Option<String>,
    pub prompt: String,
    pub tool_notification: bool,
    pub tool_website_scrape: bool,
    pub tool_run_command: bool,
    pub website_url: Option<String>,
    pub website_scrape_mode: Option<String>,
    pub command: Option<String>,
}

/// A persisted queue row as read back by callers; `status` is one of
/// `pending`, `processing`, `completed`, `failed`.
#[derive(Debug, Clone)]
pub struct AIQueueItem {
    pub id: i64,
    pub status: String,
    pub message: String,
    pub response: Option<String>,
    pub created_at: i64,
    pub completed_at: Option<i64>,
    pub agent_name: Option<String>,
}

/// A notification raised by an agent.
#[derive(Debug, Clone)]
pub struct Notification {
    pub id: i64,
    pub text: String,
    pub created_at: i64,
    pub dismissed: bool,
}

/// The outcome of an update check.
#[derive(Debug, Clone)]
pub struct UpdateInfo {
    pub available: bool,
    pub current_version: String,
    pub latest_version: Option<String>,
    pub body: Option<String>,
    pub date: Option<String>,
}

} // verus!
