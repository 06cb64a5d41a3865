use stock_engine::cache::{CacheClient, CacheResource, ResourceModule};
use stock_engine::commands::{
    export_logs, init, log, on_new_wfm_message, open_logs_folder, show_notification,
    starts_log_parser, update_settings, ChatMessage, InitStep, LogLine,
};
use stock_engine::enums::LogLevel;
use stock_engine::error::{ApiResult, AppError, ErrorApiResponse, ErrorKind};
use stock_engine::settings::{
    AuthState, LiveScraperSettings, NotificationSetting, Notifications, SettingsState,
};
use stock_engine::wfm_client::{Item, ItemDetails, WFMClient};

fn api_error(status_code: i64) -> ErrorApiResponse {
    ErrorApiResponse {
        status_code,
        error: "ApiError".to_string(),
        messages: vec!["app.errors.oops".to_string()],
    }
}

fn item(id: &str) -> Item {
    Item {
        id: id.to_string(),
        url_name: "lex_prime".to_string(),
        item_name: "Lex Prime".to_string(),
        thumb: "lex.png".to_string(),
    }
}

fn wfm() -> WFMClient {
    WFMClient { endpoint: "https://api.example.invalid/v1/".to_string() }
}

fn notification(system: bool, discord: bool, webhook: Option<&str>) -> NotificationSetting {
    NotificationSetting {
        discord_notify: discord,
        system_notify: system,
        content: "From: <WFM_MESSAGE>!".to_string(),
        title: "New message".to_string(),
        webhook: webhook.map(|w| w.to_string()),
        user_ids: vec!["42".to_string()],
    }
}

fn auth() -> AuthState {
    AuthState { id: "me-id".to_string(), ingame_name: "me".to_string() }
}

fn chat(from: &str, text: Option<&str>) -> ChatMessage {
    ChatMessage { message_from: from.to_string(), raw_message: text.map(|t| t.to_string()) }
}

#[test]
fn error_kinds_map_to_log_levels() {
    assert_eq!(AppError::new("c", "x", ErrorKind::Critical).log_level(), LogLevel::Critical);
    assert_eq!(AppError::new("c", "x", ErrorKind::Transient).log_level(), LogLevel::Warning);
    assert_eq!(AppError::new("c", "x", ErrorKind::Malformed).log_level(), LogLevel::Error);
    assert_eq!(AppError::new("c", "x", ErrorKind::Precondition).log_level(), LogLevel::Error);
}

#[test]
fn only_critical_errors_are_critical() {
    assert!(AppError::new("c", "x", ErrorKind::Critical).is_critical());
    assert!(!AppError::new("c", "x", ErrorKind::Transient).is_critical());
    assert!(!AppError::new("c", "x", ErrorKind::Malformed).is_critical());
    assert!(!AppError::new("c", "x", ErrorKind::Precondition).is_critical());
}

#[test]
fn app_error_new_keeps_component_and_cause() {
    let e = AppError::new("Comp", "because", ErrorKind::Malformed);
    assert_eq!(e.component, "Comp");
    assert_eq!(e.cause, "because");
    assert_eq!(e.kind, ErrorKind::Malformed);
    assert_eq!(e.extra, None);
    let a = AppError::new_api("Comp", api_error(500), "because", ErrorKind::Transient);
    assert_eq!(a.extra, Some(api_error(500)));
}

#[test]
fn api_errors_are_transient_unless_unauthorized() {
    assert_eq!(api_error(401).kind(), ErrorKind::Critical);
    assert_eq!(api_error(500).kind(), ErrorKind::Transient);
    assert_eq!(api_error(429).kind(), ErrorKind::Transient);
    assert_eq!(api_error(404).kind(), ErrorKind::Transient);
}

#[test]
fn get_all_items_hands_the_catalogue_through() {
    let client = wfm();
    let got = client.items().get_all_items(Ok(ApiResult::Success(vec![item("1"), item("2")])));
    assert_eq!(got, Ok(vec![item("1"), item("2")]));
    assert_eq!(client.items().all_items_path(), "items");
}

#[test]
fn get_all_items_wraps_a_marketplace_error() {
    let client = wfm();
    let got = client.items().get_all_items(Ok(ApiResult::Error(api_error(500))));
    let failure = got.unwrap_err();
    assert_eq!(failure.component, "Item:GetAllItems");
    assert_eq!(failure.cause, "There was an error fetching items");
    assert_eq!(failure.kind, ErrorKind::Transient);
    assert_eq!(failure.extra, Some(api_error(500)));
}

#[test]
fn get_all_items_passes_a_transport_failure_on() {
    let client = wfm();
    let failure = AppError::new("WFMClient", "timeout", ErrorKind::Transient);
    assert_eq!(client.items().get_all_items(Err(failure.clone())), Err(failure));
}

#[test]
fn get_item_hands_the_details_through() {
    let client = wfm();
    let details = ItemDetails { id: "1".to_string(), items_in_set: vec![item("1")] };
    let got = client.items().get_item("lex_prime".to_string(), Ok(ApiResult::Success(details.clone())));
    assert_eq!(got, Ok(details));
    assert_eq!(client.items().item_path("lex_prime"), "items/lex_prime");
}

#[test]
fn get_item_names_the_item_in_the_failure() {
    let client = wfm();
    let got = client.items().get_item("lex_prime".to_string(), Ok(ApiResult::Error(api_error(401))));
    let failure = got.unwrap_err();
    assert_eq!(failure.component, "Item:GetItem");
    assert_eq!(failure.cause, "There was an error fetching item lex_prime");
    assert_eq!(failure.kind, ErrorKind::Critical);
    assert_eq!(failure.extra, Some(api_error(401)));
    let transport = AppError::new("WFMClient", "timeout", ErrorKind::Transient);
    assert_eq!(
        client.items().get_item("lex_prime".to_string(), Err(transport.clone())),
        Err(transport)
    );
}

#[test]
fn resource_module_starts_empty() {
    let client = CacheClient { base_path: "cache".to_string(), resources: vec![] };
    let module = ResourceModule::new(client.clone());
    assert_eq!(module.client, client);
    assert_eq!(module.component, "Resource");
    assert_eq!(module.path, "item/Resources.json");
    assert!(module.items.is_empty());
    assert_eq!(module.get_component("Load"), "Resource:Load");
}

#[test]
fn resource_module_load_takes_over_and_publishes() {
    let client = CacheClient { base_path: "cache".to_string(), resources: vec![] };
    let mut module = ResourceModule::new(client);
    let items = vec![
        CacheResource { unique_name: "/Lotus/A".to_string(), name: "A".to_string() },
        CacheResource { unique_name: "/Lotus/B".to_string(), name: "B".to_string() },
    ];
    assert_eq!(module.load(Ok(items.clone())), Ok(()));
    assert_eq!(module.items, items);
    assert_eq!(module.client.resources, items);
    assert_eq!(module.client.base_path, "cache");
}

#[test]
fn resource_module_load_reports_a_parse_failure() {
    let client = CacheClient { base_path: "cache".to_string(), resources: vec![] };
    let mut module = ResourceModule::new(client);
    module.items = vec![CacheResource { unique_name: "/Lotus/A".to_string(), name: "A".to_string() }];
    let failure = module.load(Err("expected value at line 1 column 1".to_string())).unwrap_err();
    assert_eq!(failure.component, "Resource:Load");
    assert_eq!(
        failure.cause,
        "Failed to parse ResourceModule from file: expected value at line 1 column 1"
    );
    assert_eq!(failure.kind, ErrorKind::Malformed);
    assert_eq!(module.items.len(), 1);
    assert!(module.client.resources.is_empty());
}

#[test]
fn resource_module_update_state_publishes_the_items() {
    let client = CacheClient { base_path: "cache".to_string(), resources: vec![] };
    let mut module = ResourceModule::new(client);
    module.items = vec![CacheResource { unique_name: "/Lotus/A".to_string(), name: "A".to_string() }];
    module.update_state();
    assert_eq!(module.client.resources, module.items);
}

#[test]
fn init_runs_every_stage_with_valid_credentials() {
    let mut step = init();
    let mut seen = vec![step];
    while step != InitStep::Done && step != InitStep::Failed {
        step = step.next(true, true);
        seen.push(step);
    }
    assert_eq!(
        seen,
        vec![
            InitStep::Database,
            InitStep::Cache,
            InitStep::Credentials,
            InitStep::StockItems,
            InitStep::StockRivens,
            InitStep::Transactions,
            InitStep::Orders,
            InitStep::Auctions,
            InitStep::Chats,
            InitStep::AppInfo,
            InitStep::Done,
        ]
    );
}

#[test]
fn init_skips_the_users_data_without_valid_credentials() {
    assert_eq!(InitStep::Transactions.next(true, false), InitStep::AppInfo);
    assert_eq!(InitStep::Transactions.next(true, true), InitStep::Orders);
}

#[test]
fn init_is_abandoned_at_the_first_failure() {
    assert_eq!(InitStep::Database.next(false, true), InitStep::Failed);
    assert_eq!(InitStep::Chats.next(false, true), InitStep::Failed);
    assert_eq!(InitStep::Failed.next(true, true), InitStep::Failed);
    assert_eq!(InitStep::Done.next(false, true), InitStep::Done);
}

#[test]
fn init_announces_its_stages() {
    assert_eq!(InitStep::Database.status_message(), Some("Loading Database..."));
    assert_eq!(InitStep::Cache.status_message(), Some("Loading Cache..."));
    assert_eq!(InitStep::Credentials.status_message(), Some("Validating Credentials..."));
    assert_eq!(InitStep::StockItems.status_message(), Some("Loading Stock..."));
    assert_eq!(InitStep::StockRivens.status_message(), None);
    assert_eq!(InitStep::Transactions.status_message(), Some("Loading Transactions..."));
    assert_eq!(InitStep::Orders.status_message(), Some("Loading Your Orders..."));
    assert_eq!(InitStep::Auctions.status_message(), Some("Loading Your Auctions..."));
    assert_eq!(InitStep::Chats.status_message(), Some("Loading Your Chats..."));
    assert_eq!(InitStep::AppInfo.status_message(), Some("Checking for updates..."));
    assert_eq!(InitStep::Done.status_message(), None);
}

#[test]
fn init_logs_failures_of_all_but_the_update_check() {
    assert!(InitStep::Database.logs_failure());
    assert!(InitStep::Chats.logs_failure());
    assert!(!InitStep::AppInfo.logs_failure());
    assert!(!InitStep::Done.logs_failure());
}

#[test]
fn log_parser_is_started_only_when_idle() {
    assert!(starts_log_parser(false));
    assert!(!starts_log_parser(true));
}

#[test]
fn update_settings_overwrites_the_editable_parts() {
    let notifications = Notifications {
        on_new_conversation: notification(true, false, None),
        on_wfm_chat_message: notification(false, true, Some("hook")),
    };
    let mut current = SettingsState {
        debug: vec![],
        dev_mode: true,
        live_scraper: LiveScraperSettings::default(),
        notifications: notifications.clone(),
    };
    let incoming = SettingsState {
        debug: vec!["*".to_string()],
        dev_mode: false,
        live_scraper: LiveScraperSettings { undercut: 5, interval_secs: 30 },
        notifications: Notifications {
            on_new_conversation: notification(false, false, None),
            on_wfm_chat_message: notification(true, true, None),
        },
    };
    update_settings(&mut current, incoming.clone());
    assert_eq!(current.debug, incoming.debug);
    assert_eq!(current.live_scraper, incoming.live_scraper);
    assert_eq!(current.notifications, incoming.notifications);
    assert!(current.dev_mode);
}

#[test]
fn default_loop_settings_undercut_by_one_every_second() {
    let s = LiveScraperSettings::default();
    assert_eq!(s.undercut, 1);
    assert_eq!(s.interval_secs, 1);
}

#[test]
fn own_chat_messages_are_not_announced() {
    let notices = on_new_wfm_message(
        chat("me-id", Some("hi")),
        &auth(),
        notification(true, true, Some("hook")),
    );
    assert_eq!(notices.system, None);
    assert_eq!(notices.discord, None);
}

#[test]
fn chat_message_fills_the_placeholder() {
    let notices = on_new_wfm_message(
        chat("other", Some("WTB lex")),
        &auth(),
        notification(true, true, Some("hook")),
    );
    let system = notices.system.unwrap();
    assert_eq!(system.title, "New message");
    assert_eq!(system.content, "From: WTB lex!");
    assert_eq!(system.icon, Some("https://i.imgur.com/UggEVVI.jpeg".to_string()));
    assert_eq!(system.sound, Some("Default".to_string()));
    let discord = notices.discord.unwrap();
    assert_eq!(discord.webhook, "hook");
    assert_eq!(discord.title, "New message");
    assert_eq!(discord.content, "From: WTB lex!");
    assert_eq!(discord.user_ids, vec!["42".to_string()]);
}

#[test]
fn chat_message_without_text_leaves_the_placeholder_empty() {
    let notices = on_new_wfm_message(chat("other", None), &auth(), notification(true, false, None));
    assert_eq!(notices.system.unwrap().content, "From: !");
    assert_eq!(notices.discord, None);
}

#[test]
fn chat_message_needs_a_webhook_for_the_chat_post() {
    let notices = on_new_wfm_message(chat("other", Some("x")), &auth(), notification(false, true, None));
    assert_eq!(notices.system, None);
    assert_eq!(notices.discord, None);
    let off = on_new_wfm_message(chat("other", Some("x")), &auth(), notification(false, false, Some("h")));
    assert_eq!(off.discord, None);
}

#[test]
fn log_goes_to_the_console_only_on_request() {
    let line = log("Comp".to_string(), "hello".to_string(), LogLevel::Info, Some(true), Some("a.log"));
    assert_eq!(
        line,
        LogLine {
            level: LogLevel::Info,
            component: "Comp".to_string(),
            msg: "hello".to_string(),
            console: true,
            file: Some("a.log".to_string()),
        }
    );
    assert!(!log("c".to_string(), "m".to_string(), LogLevel::Error, Some(false), None).console);
    let quiet = log("c".to_string(), "m".to_string(), LogLevel::Error, None, Some("a.log"));
    assert!(!quiet.console);
    assert_eq!(quiet.file, Some("a.log".to_string()));
    let bare = log("c".to_string(), "m".to_string(), LogLevel::Debug, None, None);
    assert!(!bare.console);
    assert_eq!(bare.file, None);
}

#[test]
fn show_notification_always_uses_the_application_icon() {
    let n = show_notification(
        "T".to_string(),
        "M".to_string(),
        Some("other.png".to_string()),
        Some("Ping".to_string()),
    );
    assert_eq!(n.title, "T");
    assert_eq!(n.content, "M");
    assert_eq!(n.icon, Some("https://i.imgur.com/UggEVVI.jpeg".to_string()));
    assert_eq!(n.sound, Some("Ping".to_string()));
}

#[test]
fn export_logs_announces_the_export() {
    let n = export_logs();
    assert_eq!(n.title, "Logs Exported");
    assert_eq!(n.content, "Logs exported to desktop");
    assert_eq!(n.icon, Some("https://i.imgur.com/UggEVVI.jpeg".to_string()));
    assert_eq!(n.sound, None);
}

#[test]
fn open_logs_folder_selects_the_folder_in_the_explorer() {
    let launch = open_logs_folder("C:\\logs".to_string());
    assert_eq!(launch.program, "explorer");
    assert_eq!(launch.args, vec!["/select,".to_string(), "C:\\logs".to_string()]);
}
