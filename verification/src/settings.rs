//! User settings and the signed-in identity, as far as the engine reads them.

use vstd::prelude::*;

verus! {

/// Knobs of the synchronisation loop.
#[derive(Clone, Copy, Debug, PartialEq, Eq, Structural)]
pub struct LiveScraperSettings {
    /// How far below the lowest competitor the engine prices.
    pub undercut: u64,
    /// Pause between two cycles, in seconds.
    pub interval_secs: u64,
}

impl Default for LiveScraperSettings {
    /// Undercut by one unit and pause for one second.
    fn default() -> (r: Self)
        ensures
            r.undercut == 1,
            r.interval_secs == 1,
    {
        LiveScraperSettings { undercut: 1, interval_secs: 1 }
    }
}

/// How one kind of happening is announced to the user.
#[derive(Clone, Debug, PartialEq, Eq)]
pub struct NotificationSetting {
    /// Whether to post to the chat webhook.
    pub discord_notify: bool,
    /// Whether to raise a desktop notification.
    pub system_notify: bool,
    /// Text of the announcement; may hold placeholders.
    pub content: String,
    pub title: String,
    /// Address of the chat webhook, if one is configured.
    pub webhook: Option<String>,
    /// Chat users to mention.
    pub user_ids: Vec<String>,
}

/// The announcements the user configured.
#[derive(Clone, Debug, PartialEq, Eq)]
pub struct Notifications {
    pub on_new_conversation: NotificationSetting,
    pub on_wfm_chat_message: NotificationSetting,
}

/// Everything the user configured.
#[derive(Clone, Debug, PartialEq, Eq)]
pub struct SettingsState {
    /// Names of the components whose debug output is wanted.
    pub debug: Vec<String>,
    /// Whether the application runs against the development services.
    pub dev_mode: bool,
    pub live_scraper: LiveScraperSettings,
    pub notifications: Notifications,
}

/// The signed-in trader.
#[derive(Clone, Debug, PartialEq, Eq)]
pub struct AuthState {
    /// Identifier the marketplace knows the trader by.
    pub id: String,
    /// Name under which the trader's listings appear.
    pub ingame_name: String,
}

} // verus!
