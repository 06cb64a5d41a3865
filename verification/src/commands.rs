//! Decisions behind the commands the user interface sends: the order of
//! start-up, what a settings update overwrites, whom a chat message is
//! announced to, and where a log line goes.

use vstd::prelude::*;
use vstd::string::StringExecFns;
use crate::enums::LogLevel;
use crate::settings::{AuthState, NotificationSetting, SettingsState};
use crate::text::{replace_all, replaced};

verus! {

/// One stage of start-up.
#[derive(Clone, Copy, Debug, PartialEq, Eq, Structural)]
pub enum InitStep {
    Database,
    Cache,
    Credentials,
    StockItems,
    StockRivens,
    Transactions,
    Orders,
    Auctions,
    Chats,
    AppInfo,
    /// Start-up went through.
    Done,
    /// A stage failed; start-up was abandoned.
    Failed,
}

impl InitStep {
    /// Position of the stage in the order of start-up.
    pub open spec fn rank(self) -> int {
        match self {
            InitStep::Database => 0,
            InitStep::Cache => 1,
            InitStep::Credentials => 2,
            InitStep::StockItems => 3,
            InitStep::StockRivens => 4,
            InitStep::Transactions => 5,
            InitStep::Orders => 6,
            InitStep::Auctions => 7,
            InitStep::Chats => 8,
            InitStep::AppInfo => 9,
            InitStep::Done => 10,
            InitStep::Failed => 11,
        }
    }

    /// Whether start-up is over at this stage.
    pub open spec fn terminal(self) -> bool {
        self is Done || self is Failed
    }

    /// The stage that follows. A failed stage abandons start-up. Otherwise
    /// the stages follow one another as declared, except that the user's
    /// orders, auctions and chats are only loaded with valid credentials:
    /// without them the application information follows the transactions.
    pub open spec fn following(self, succeeded: bool, credentials_valid: bool) -> InitStep {
        if self.terminal() {
            self
        } else if !succeeded {
            InitStep::Failed
        } else {
            match self {
                InitStep::Database => InitStep::Cache,
                InitStep::Cache => InitStep::Credentials,
                InitStep::Credentials => InitStep::StockItems,
                InitStep::StockItems => InitStep::StockRivens,
                InitStep::StockRivens => InitStep::Transactions,
                InitStep::Transactions => if credentials_valid {
                    InitStep::Orders
                } else {
                    InitStep::AppInfo
                },
                InitStep::Orders => InitStep::Auctions,
                InitStep::Auctions => InitStep::Chats,
                InitStep::Chats => InitStep::AppInfo,
                _ => InitStep::Done,
            }
        }
    }

    /// Decides [`InitStep::following`].
    pub fn next(self, succeeded: bool, credentials_valid: bool) -> (r: InitStep)
        ensures
            r == self.following(succeeded, credentials_valid),
    {
        match self {
            InitStep::Done => InitStep::Done,
            InitStep::Failed => InitStep::Failed,
            _ => if !succeeded {
                InitStep::Failed
            } else {
                match self {
                    InitStep::Database => InitStep::Cache,
                    InitStep::Cache => InitStep::Credentials,
                    InitStep::Credentials => InitStep::StockItems,
                    InitStep::StockItems => InitStep::StockRivens,
                    InitStep::StockRivens => InitStep::Transactions,
                    InitStep::Transactions => if credentials_valid {
                        InitStep::Orders
                    } else {
                        InitStep::AppInfo
                    },
                    InitStep::Orders => InitStep::Auctions,
                    InitStep::Auctions => InitStep::Chats,
                    InitStep::Chats => InitStep::AppInfo,
                    _ => InitStep::Done,
                }
            },
        }
    }

    /// What the user is told when the stage begins; stages that begin
    /// silently have no message.
    pub open spec fn announcement(self) -> Option<Seq<char>> {
        match self {
            InitStep::Database => Some("Loading Database..."@),
            InitStep::Cache => Some("Loading Cache..."@),
            InitStep::Credentials => Some("Validating Credentials..."@),
            InitStep::StockItems => Some("Loading Stock..."@),
            InitStep::Transactions => Some("Loading Transactions..."@),
            InitStep::Orders => Some("Loading Your Orders..."@),
            InitStep::Auctions => Some("Loading Your Auctions..."@),
            InitStep::Chats => Some("Loading Your Chats..."@),
            InitStep::AppInfo => Some("Checking for updates..."@),
            _ => None,
        }
    }

    /// Decides [`InitStep::announcement`].
    pub fn status_message(self) -> (r: Option<&'static str>)
        ensures
            match r {
                Some(text) => self.announcement() == Some(text@),
                None => self.announcement() is None,
            },
    {
        match self {
            InitStep::Database => Some("Loading Database..."),
            InitStep::Cache => Some("Loading Cache..."),
            InitStep::Credentials => Some("Validating Credentials..."),
            InitStep::StockItems => Some("Loading Stock..."),
            InitStep::Transactions => Some("Loading Transactions..."),
            InitStep::Orders => Some("Loading Your Orders..."),
            InitStep::Auctions => Some("Loading Your Auctions..."),
            InitStep::Chats => Some("Loading Your Chats..."),
            InitStep::AppInfo => Some("Checking for updates..."),
            _ => None,
        }
    }

    /// Whether a failure of the stage is written to the command log: every
    /// stage but the look-up of the application information.
    pub fn logs_failure(self) -> (r: bool)
        ensures
            r == (!self.terminal() && !(self is AppInfo)),
    {
        match self {
            InitStep::AppInfo => false,
            InitStep::Done => false,
            InitStep::Failed => false,
            _ => true,
        }
    }
}

/// Begins start-up: the database is the first thing to load.
pub fn init() -> (r: InitStep)
    ensures
        r == InitStep::Database,
{
    InitStep::Database
}

/// Start-up always moves forward: every stage that is not the last leads to
/// a later one, so start-up is over after at most ten stages.
pub proof fn lemma_init_moves_forward(step: InitStep, succeeded: bool, credentials_valid: bool)
    requires
        !step.terminal(),
    ensures
        step.following(succeeded, credentials_valid).rank() > step.rank(),
        !succeeded ==> step.following(succeeded, credentials_valid) is Failed,
{
}

/// Whether start-up has to start the log watcher: only when it is not
/// running yet.
pub fn starts_log_parser(parser_running: bool) -> (r: bool)
    ensures
        r == !parser_running,
{
    !parser_running
}

/// Takes over the parts of the settings that the user interface edits: the
/// debug components, the loop's knobs and the announcements. Everything
/// else stays.
pub fn update_settings(current: &mut SettingsState, settings: SettingsState)
    ensures
        final(current).debug == settings.debug,
        final(current).live_scraper == settings.live_scraper,
        final(current).notifications == settings.notifications,
        final(current).dev_mode == old(current).dev_mode,
{
    current.debug = settings.debug;
    current.live_scraper = settings.live_scraper;
    current.notifications = settings.notifications;
}

/// A chat message received from the marketplace.
#[derive(Clone, Debug, PartialEq, Eq)]
pub struct ChatMessage {
    /// Identifier of the sender.
    pub message_from: String,
    /// Text as the sender typed it, if any.
    pub raw_message: Option<String>,
}

/// A desktop notification to raise.
#[derive(Clone, Debug, PartialEq, Eq)]
pub struct SystemNotice {
    pub title: String,
    pub content: String,
    /// Address of the picture shown beside the text.
    pub icon: Option<String>,
    /// Name of the sound played, if any.
    pub sound: Option<String>,
}

/// A program to launch, with its arguments.
#[derive(Clone, Debug, PartialEq, Eq)]
pub struct Launch {
    pub program: String,
    pub args: Vec<String>,
}

/// A line for the log, with where it goes.
#[derive(Clone, Debug, PartialEq, Eq)]
pub struct LogLine {
    pub level: LogLevel,
    pub component: String,
    pub msg: String,
    /// Whether the line is also written to the console.
    pub console: bool,
    /// Name of the log file the line is written to, if any.
    pub file: Option<String>,
}

/// Address of the picture every desktop notification carries.
pub open spec fn notice_icon() -> Seq<char> {
    "https://i.imgur.com/UggEVVI.jpeg"@
}

/// The desktop notification for a title and a message. The picture is
/// always the application's own, whatever the caller proposes; the sound
/// is the caller's.
pub fn show_notification(
    title: String,
    message: String,
    _icon: Option<String>,
    sound: Option<String>,
) -> (r: SystemNotice)
    ensures
        r.title == title,
        r.content == message,
        r.icon matches Some(icon) && icon@ == notice_icon(),
        r.sound == sound,
{
    SystemNotice {
        title,
        content: message,
        icon: Some(String::from_str("https://i.imgur.com/UggEVVI.jpeg")),
        sound,
    }
}

/// The desktop notification that tells the user the logs were exported.
pub fn export_logs() -> (r: SystemNotice)
    ensures
        r.title@ == "Logs Exported"@,
        r.content@ == "Logs exported to desktop"@,
        r.icon matches Some(icon) && icon@ == notice_icon(),
        r.sound is None,
{
    show_notification(
        String::from_str("Logs Exported"),
        String::from_str("Logs exported to desktop"),
        None,
        None,
    )
}

/// The program that shows the log folder to the user: the file explorer,
/// asked to select the folder.
pub fn open_logs_folder(log_folder: String) -> (r: Launch)
    ensures
        r.program@ == "explorer"@,
        r.args@.len() == 2,
        r.args@[0]@ == "/select,"@,
        r.args@[1] == log_folder,
{
    let mut args: Vec<String> = Vec::new();
    args.push(String::from_str("/select,"));
    args.push(log_folder);
    Launch { program: String::from_str("explorer"), args }
}

/// The log line for a message of a component. The line goes to the console
/// only when that was asked for, and to the file that was named, if any.
pub fn log(component: String, msg: String, level: LogLevel, console: Option<bool>, file: Option<&str>) -> (r:
    LogLine)
    ensures
        r.level == level,
        r.component == component,
        r.msg == msg,
        r.console == (console == Some(true)),
        file is None ==> r.file is None,
        file matches Some(name) ==> (r.file matches Some(kept) && kept@ == name@),
{
    let console = match console {
        Some(wanted) => wanted,
        None => false,
    };
    let file = match file {
        Some(name) => Some(String::from_str(name)),
        None => None,
    };
    LogLine { level, component, msg, console, file }
}

/// A post to make on the chat webhook.
#[derive(Clone, Debug, PartialEq, Eq)]
pub struct DiscordNotice {
    pub webhook: String,
    pub title: String,
    pub content: String,
    pub user_ids: Vec<String>,
}

/// The announcements one chat message gives rise to.
#[derive(Clone, Debug, PartialEq, Eq)]
pub struct MessageNotices {
    pub system: Option<SystemNotice>,
    pub discord: Option<DiscordNotice>,
}

/// Text of a chat message, empty when there is none.
pub open spec fn message_text(message: ChatMessage) -> Seq<char> {
    match message.raw_message {
        Some(text) => text@,
        None => Seq::empty(),
    }
}

/// Text of the announcement of a chat message: the configured text with
/// the message in place of every `<WFM_MESSAGE>`.
pub open spec fn notice_text(settings: NotificationSetting, message: ChatMessage) -> Seq<char> {
    replaced(settings.content@, "<WFM_MESSAGE>"@, message_text(message))
}

/// Decides whom a chat message is announced to. The user's own messages
/// are not announced. Any other message raises a desktop notification when
/// that is switched on, and is posted to the chat webhook when that is
/// switched on and a webhook is configured.
pub fn on_new_wfm_message(message: ChatMessage, auth: &AuthState, settings: NotificationSetting) -> (r:
    MessageNotices)
    ensures
        auth.id@ == message.message_from@ ==> r.system is None && r.discord is None,
        auth.id@ != message.message_from@ ==> {
            &&& r.system is Some == settings.system_notify
            &&& r.system matches Some(notice) ==> notice.title@ == settings.title@
                && notice.content@ == notice_text(settings, message) && (notice.icon matches Some(
                icon,
            ) && icon@ == notice_icon()) && (notice.sound matches Some(sound) && sound@
                == "Default"@)
            &&& r.discord is Some == (settings.discord_notify && settings.webhook is Some)
            &&& r.discord matches Some(post) ==> post.webhook == settings.webhook->0
                && post.title == settings.title && post.content@ == notice_text(settings, message)
                && post.user_ids == settings.user_ids
        },
{
    if auth.id == message.message_from {
        return MessageNotices { system: None, discord: None };
    }
    let content = match &message.raw_message {
        Some(text) => replace_all(settings.content.as_str(), "<WFM_MESSAGE>", text.as_str()),
        None => {
            proof {
                reveal_strlit("");
            }
            assert(""@ =~= Seq::<char>::empty());
            replace_all(settings.content.as_str(), "<WFM_MESSAGE>", "")
        },
    };
    let system = if settings.system_notify {
        Some(
            show_notification(
                settings.title.clone(),
                content.clone(),
                None,
                Some(String::from_str("Default")),
            ),
        )
    } else {
        None
    };
    let discord = if settings.discord_notify {
        match settings.webhook {
            Some(webhook) => Some(
                DiscordNotice {
                    webhook,
                    title: settings.title,
                    content,
                    user_ids: settings.user_ids,
                },
            ),
            None => None,
        }
    } else {
        None
    };
    MessageNotices { system, discord }
}

} // verus!
