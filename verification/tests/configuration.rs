use hest::config::{default_true, join_path, load, resolve_password, set_defaults};
use hest::{Config, HandlerConfig, ReminderHandlerConfig, TransportConfig, XmppConfig};

fn config(data_dir: Option<&str>) -> Config {
    Config {
        handler: HandlerConfig {
            reminder: ReminderHandlerConfig { enabled: true, data_dir: data_dir.map(|s| s.to_string()) },
        },
        transport: TransportConfig {
            xmpp: XmppConfig {
                jid: "bot@example.org".to_string(),
                nick: "bot".to_string(),
                password_file: "/etc/bot/pw".to_string(),
                rooms: Some(vec!["room@muc.example.org".to_string()]),
                room_status: None,
            },
        },
    }
}

#[test]
fn enabled_defaults_to_true() {
    assert!(default_true());
}

#[test]
fn handler_config_default_disables_reminders() {
    let h = HandlerConfig::default();
    assert!(!h.reminder.enabled);
    assert!(h.reminder.data_dir.is_none());
}

#[test]
fn joins_paths_with_one_separator() {
    assert_eq!(join_path("/home/u/.local/share/hest", "reminder"), "/home/u/.local/share/hest/reminder");
    assert_eq!(join_path("/data/", "reminders.jsonl"), "/data/reminders.jsonl");
    assert_eq!(join_path("", "reminder"), "reminder");
}

#[test]
fn default_data_dir_is_filled_in() {
    let mut c = config(None);
    set_defaults("/home/u/.local/share/hest", &mut c);
    assert_eq!(c.handler.reminder.data_dir.as_deref(), Some("/home/u/.local/share/hest/reminder"));
    assert!(c.handler.reminder.enabled);
    assert_eq!(c.transport.xmpp.jid, "bot@example.org");
}

#[test]
fn configured_data_dir_is_kept_and_defaults_are_idempotent() {
    let mut c = config(Some("/srv/reminders"));
    set_defaults("/home/u/.local/share/hest", &mut c);
    assert_eq!(c.handler.reminder.data_dir.as_deref(), Some("/srv/reminders"));
    let mut d = config(None);
    set_defaults("/a", &mut d);
    set_defaults("/b", &mut d);
    assert_eq!(d.handler.reminder.data_dir.as_deref(), Some("/a/reminder"));
}

#[test]
fn load_passes_errors_through() {
    match load("/x", Err("config.toml: not found".to_string())) {
        Err(e) => assert_eq!(e, "config.toml: not found"),
        Ok(_) => panic!("expected an error"),
    }
    let c = load("/x", Ok(config(None))).ok().unwrap();
    assert_eq!(c.handler.reminder.data_dir.as_deref(), Some("/x/reminder"));
}

#[test]
fn password_loses_trailing_white_space_only() {
    let c = config(None);
    assert_eq!(resolve_password(&c, Ok("  s3cret \n".to_string())), Ok("  s3cret".to_string()));
    assert_eq!(resolve_password(&c, Ok("pw".to_string())), Ok("pw".to_string()));
    assert_eq!(
        resolve_password(&c, Err("No such file or directory (os error 2)".to_string())),
        Err("/etc/bot/pw: No such file or directory (os error 2)".to_string())
    );
}
