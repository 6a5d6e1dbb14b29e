//! The bot's configuration and the defaults filled in after it is read.
use vstd::prelude::*;

use crate::text::{trim_end, trim_end_str};
use vstd::string::StrSliceExecFns;
use vstd::string::StringExecFns;

verus! {

/// The whole configuration.
pub struct Config {
    pub handler: HandlerConfig,
    pub transport: TransportConfig,
}

/// Configuration of the message handlers.
pub struct HandlerConfig {
    pub reminder: ReminderHandlerConfig,
}

/// Configuration of the reminder handler.
pub struct ReminderHandlerConfig {
    pub enabled: bool,
    pub data_dir: Option<String>,
}

/// Configuration of the chat transport.
pub struct TransportConfig {
    pub xmpp: XmppConfig,
}

/// XMPP account and rooms.
pub struct XmppConfig {
    pub jid: String,
    pub nick: String,
    pub password_file: String,
    pub rooms: Option<Vec<String>>,
    pub room_status: Option<String>,
}

/// The value of `enabled` when a reminder section leaves it out.
pub fn default_true() -> (r: bool)
    ensures
        r,
{
    true
}

impl Default for ReminderHandlerConfig {
    fn default() -> (r: Self)
        ensures
            !r.enabled,
            r.data_dir is None,
    {
        ReminderHandlerConfig { enabled: false, data_dir: None }
    }
}

impl Default for HandlerConfig {
    fn default() -> (r: Self)
        ensures
            !r.reminder.enabled,
            r.reminder.data_dir is None,
    {
        HandlerConfig { reminder: ReminderHandlerConfig::default() }
    }
}

/// `base` joined with the relative path `name`, as `PathBuf::join` does it with `/` as the
/// separator: a separator goes between them unless `base` is empty or already ends in one.
pub open spec fn path_join(base: Seq<char>, name: Seq<char>) -> Seq<char> {
    if base.len() == 0 || base.last() == '/' {
        base + name
    } else {
        base + seq!['/'] + name
    }
}

/// Joins a relative path onto a directory.
pub fn join_path(base: &str, name: &str) -> (r: String)
    requires
        !(name@.len() > 0 && name@[0] == '/'),
    ensures
        r@ == path_join(base@, name@),
{
    let n = base.unicode_len();
    let mut s = String::from_str(base);
    if n > 0 && base.get_char(n - 1) != '/' {
        proof {
            reveal_strlit("/");
        }
        s.append("/");
    }
    s.append(name);
    s
}

/// The reminder data directory that applies when the configuration names none: `reminder`
/// under the application's data directory.
pub open spec fn default_reminder_dir(app_data_dir: Seq<char>) -> Seq<char> {
    path_join(app_data_dir, "reminder"@)
}

/// Fills in the defaults that the configuration file may leave out: an unset reminder data
/// directory becomes `reminder` under the application's data directory. Nothing else changes.
pub fn set_defaults(app_data_dir: &str, config: &mut Config)
    ensures
        final(config).transport == old(config).transport,
        final(config).handler.reminder.enabled == old(config).handler.reminder.enabled,
        old(config).handler.reminder.data_dir is Some ==> final(config).handler.reminder.data_dir
            == old(config).handler.reminder.data_dir,
        old(config).handler.reminder.data_dir is None ==> (final(config).handler.reminder.data_dir matches Some(d)
            && d@ == default_reminder_dir(app_data_dir@)),
{
    if config.handler.reminder.data_dir.is_none() {
        proof {
            reveal_strlit("reminder");
        }
        config.handler.reminder.data_dir = Some(join_path(app_data_dir, "reminder"));
    }
}

/// The configuration once read: when the file was read and parsed (`parsed` is `Ok`), it with
/// its defaults filled in; otherwise the error.
pub fn load(app_data_dir: &str, parsed: Result<Config, String>) -> (r: Result<Config, String>)
    ensures
        match parsed {
            Err(e) => r matches Err(x) && x == e,
            Ok(c) => r matches Ok(x) && x.transport == c.transport && x.handler.reminder.enabled
                == c.handler.reminder.enabled && (c.handler.reminder.data_dir is Some
                ==> x.handler.reminder.data_dir == c.handler.reminder.data_dir) && (
            c.handler.reminder.data_dir is None ==> (x.handler.reminder.data_dir matches Some(d)
                && d@ == default_reminder_dir(app_data_dir@))),
        },
{
    match parsed {
        Ok(mut config) => {
            set_defaults(app_data_dir, &mut config);
            Ok(config)
        },
        Err(e) => Err(e),
    }
}

/// The password, given the outcome of reading the password file: its contents without
/// trailing white space, or the read error prefixed with the file's path.
pub fn resolve_password(config: &Config, contents: Result<String, String>) -> (r: Result<
    String,
    String,
>)
    ensures
        match contents {
            Ok(s) => r matches Ok(p) && p@ == trim_end(s@),
            Err(e) => r matches Err(x) && x@ == config.transport.xmpp.password_file@ + ": "@ + e@,
        },
{
    match contents {
        Ok(s) => Ok(String::from_str(trim_end_str(s.as_str()))),
        Err(e) => {
            let mut x = config.transport.xmpp.password_file.clone();
            x.append(": ");
            x.append(e.as_str());
            Err(x)
        },
    }
}

} // verus!
