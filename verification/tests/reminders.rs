use hest::command::assemble_add;
use hest::reminder::{id_from_samples, random_id};
use hest::reminder_handler::REMINDER_HANDLER_PREFIX;
use hest::{
    parse_command, Action, Due, Message, Reminder, ReminderCommand, ReminderHandler, ReminderRecord,
    ReminderStep, ReminderStore,
};

fn due(year: i32, month: u32, day: u32, hour: u32, minute: u32) -> Due {
    Due { year, month, day, hour, minute, second: 0, nanosecond: 0, offset_seconds: 0 }
}

fn reminder(id: &str, message: &str) -> Reminder {
    Reminder {
        id: id.to_string(),
        due: due(2024, 5, 17, 9, 30),
        to: "alice@example.org".to_string(),
        message: message.to_string(),
        cron: None,
    }
}

fn tombstone(id: &str) -> ReminderRecord {
    ReminderRecord::Tombstone { id: id.to_string(), deleted: true }
}

fn msg(body: &str) -> Message {
    Message { body: body.to_string(), from: "alice@example.org".to_string() }
}

fn texts(actions: Vec<Action>) -> Vec<String> {
    actions
        .into_iter()
        .map(|a| match a {
            Action::Reply(t) => t,
        })
        .collect()
}

fn reply_of(step: ReminderStep) -> Vec<String> {
    match step {
        ReminderStep::Reply(a) => texts(a),
        ReminderStep::Append(_) => panic!("expected a reply"),
    }
}

fn ids(store: &ReminderStore) -> Vec<String> {
    store.list().iter().map(|r| r.id.clone()).collect()
}

#[test]
fn random_ids_are_seven_alphanumerics() {
    for _ in 0..20 {
        let id = random_id();
        assert_eq!(id.chars().count(), 7);
        assert!(id.chars().all(|c| c.is_ascii_alphanumeric()));
    }
}

#[test]
fn ids_spell_the_sampled_bytes() {
    assert_eq!(id_from_samples(&b"aB3zZ09".to_vec()), "aB3zZ09");
    assert_eq!(id_from_samples(&b"AAAAAAA".to_vec()), "AAAAAAA");
}

#[test]
fn new_reminder_keeps_its_fields() {
    let r = Reminder::new(due(2025, 1, 2, 3, 4), "tea".to_string(), "bob".to_string(), None).ok().unwrap();
    assert_eq!(r.message, "tea");
    assert_eq!(r.to, "bob");
    assert_eq!(r.due.year, 2025);
    assert!(r.cron.is_none());
    match r.tombstone() {
        ReminderRecord::Tombstone { id, deleted } => {
            assert_eq!(id, r.id);
            assert!(deleted);
        }
        ReminderRecord::Reminder(_) => panic!("expected a tombstone"),
    }
}

#[test]
fn loading_replays_the_journal() {
    let records = vec![
        ReminderRecord::Reminder(reminder("aaaaaaa", "one")),
        ReminderRecord::Reminder(reminder("bbbbbbb", "two")),
        tombstone("aaaaaaa"),
        tombstone("zzzzzzz"),
        ReminderRecord::Reminder(reminder("bbbbbbb", "two again")),
    ];
    let store = ReminderStore::load("/tmp/r.jsonl", records);
    assert_eq!(store.path(), "/tmp/r.jsonl");
    assert_eq!(ids(&store), vec!["bbbbbbb"]);
    assert_eq!(store.get("bbbbbbb").unwrap().message, "two again");
    assert!(!store.contains("aaaaaaa"));
    assert!(!store.is_empty());
    assert!(ReminderStore::load("/tmp/r.jsonl", Vec::new()).is_empty());
}

#[test]
fn add_refuses_taken_ids_and_failed_writes() {
    let mut store = ReminderStore::new("/tmp/r.jsonl");
    assert_eq!(store.add(reminder("aaaaaaa", "one"), Ok(())), Ok(()));
    assert_eq!(
        store.add(reminder("aaaaaaa", "again"), Err("not written".to_string())),
        Err("reminder for aaaaaaa already exists".to_string())
    );
    assert_eq!(store.add(reminder("bbbbbbb", "two"), Err("disk full".to_string())), Err("disk full".to_string()));
    assert_eq!(ids(&store), vec!["aaaaaaa"]);
    assert_eq!(store.get("aaaaaaa").unwrap().message, "one");
}

#[test]
fn remove_refuses_unknown_ids_and_failed_writes() {
    let mut store = ReminderStore::load("/tmp/r.jsonl", vec![ReminderRecord::Reminder(reminder("aaaaaaa", "one"))]);
    assert_eq!(store.remove("nope", Err("not written".to_string())), Err("reminder for nope does not exist".to_string()));
    assert_eq!(store.remove("aaaaaaa", Err("read-only".to_string())), Err("read-only".to_string()));
    assert!(store.contains("aaaaaaa"));
    assert_eq!(store.remove("aaaaaaa", Ok(())), Ok(()));
    assert!(store.is_empty());
}

fn expect_err(args: &str, text: &str) {
    match parse_command(args) {
        Err(e) => assert_eq!(e, text),
        Ok(_) => panic!("expected an error for {:?}", args),
    }
}

#[test]
fn command_errors() {
    expect_err("", "Invalid argument");
    expect_err("remind", "Invalid argument");
    expect_err("add", "add requires <date> <time> <message>");
    expect_err("add 2024-05-17", "missing time");
    expect_err("add 2024-05-17 09:30", "missing message");
    expect_err("add 2024-13-01 09:30 x", "invalid date: input is out of range");
    expect_err("add tomorrow 09:30 x", "invalid date: input contains invalid characters");
    expect_err("add 2024-05-17 25:00 x", "invalid time: input is out of range");
    expect_err("add 2024-05-17 9 x", "invalid time: premature end of input");
    expect_err("delete", "missing id");
}

#[test]
fn list_and_delete_commands() {
    assert!(matches!(parse_command("list"), Ok(ReminderCommand::List)));
    assert!(matches!(parse_command("list everything"), Ok(ReminderCommand::List)));
    match parse_command("delete abc1234") {
        Ok(ReminderCommand::Delete { id }) => assert_eq!(id, "abc1234"),
        _ => panic!("expected delete"),
    }
    match parse_command("delete  x") {
        Ok(ReminderCommand::Delete { id }) => assert_eq!(id, " x"),
        _ => panic!("expected delete"),
    }
}

#[test]
fn add_command_reads_date_time_and_message() {
    match parse_command("add 2024-05-17 09:30 call the dentist") {
        Ok(ReminderCommand::Add { due, message }) => {
            assert_eq!(message, "call the dentist");
            assert_eq!((due.year, due.month, due.day, due.hour, due.minute, due.second), (2024, 5, 17, 9, 30, 0));
            assert!(due.offset_seconds > -86400 && due.offset_seconds < 86400);
        }
        Err(e) => assert_eq!(e, "ambiguous local time"),
        Ok(_) => panic!("expected add"),
    }
}

#[test]
fn assembling_an_add_command() {
    match assemble_add(Ok((2024, 5, 17)), Ok((9, 30, 0, 0)), Some(7200), "tea") {
        Ok(ReminderCommand::Add { due, message }) => {
            assert_eq!(message, "tea");
            assert_eq!(due.offset_seconds, 7200);
            assert_eq!((due.year, due.month, due.day, due.hour, due.minute), (2024, 5, 17, 9, 30));
        }
        _ => panic!("expected add"),
    }
    let e = assemble_add(Err("trailing input".to_string()), Err("x".to_string()), None, "tea");
    assert!(matches!(e, Err(ref t) if t == "invalid date: trailing input"));
    let e = assemble_add(Ok((2024, 5, 17)), Err("trailing input".to_string()), None, "tea");
    assert!(matches!(e, Err(ref t) if t == "invalid time: trailing input"));
    let e = assemble_add(Ok((2024, 5, 17)), Ok((9, 30, 0, 0)), None, "tea");
    assert!(matches!(e, Err(ref t) if t == "ambiguous local time"));
}

#[test]
fn handler_names_its_journal_and_prefix() {
    assert_eq!(REMINDER_HANDLER_PREFIX, "@reminder");
    assert_eq!(ReminderHandler::journal_path("/data/reminder"), "/data/reminder/reminders.jsonl");
    let h = ReminderHandler::new("/data/reminder", Vec::new());
    assert_eq!(h.name(), "ReminderHandler");
    assert_eq!(h.store().path(), "/data/reminder/reminders.jsonl");
    assert!(h.wants(&msg("@reminder list")));
    assert!(!h.wants(&msg("@echo hi")));
    assert!(!h.is_waiting());
}

#[test]
fn handler_answers_errors_at_once() {
    let mut h = ReminderHandler::new("/data", Vec::new());
    assert_eq!(reply_of(h.process(&msg("@reminder"))), vec!["Invalid argument"]);
    assert_eq!(reply_of(h.process(&msg("@reminder   list  "))), vec!["no reminders"]);
    assert_eq!(reply_of(h.process(&msg("@reminder delete abc"))), vec!["reminder for abc does not exist"]);
    assert_eq!(reply_of(h.process(&msg("@reminder add 2024-02-30 10:00 x"))), vec!["invalid date: input is out of range"]);
    assert!(!h.is_waiting());
}

#[test]
fn handler_adds_lists_and_deletes_through_the_journal() {
    let mut h = ReminderHandler::new("/data", Vec::new());
    let step = h.process(&msg("@reminder add 2024-05-17 09:30 call the dentist"));
    let id = match step {
        ReminderStep::Append(ReminderRecord::Reminder(r)) => {
            assert_eq!(r.message, "call the dentist");
            assert_eq!(r.to, "alice@example.org");
            r.id
        }
        ReminderStep::Reply(a) => {
            assert_eq!(texts(a), vec!["ambiguous local time"]);
            return;
        }
        ReminderStep::Append(_) => panic!("expected a reminder record"),
    };
    assert!(h.is_waiting());
    assert_eq!(texts(h.complete(Ok(()))), vec![format!("Reminder {} created.", id)]);
    assert!(!h.is_waiting());
    assert_eq!(
        reply_of(h.process(&msg("@reminder list"))),
        vec![format!("- {} call the dentist 2024-05-17 09:30\n\n", id)]
    );

    match h.process(&msg(&format!("@reminder delete {}", id))) {
        ReminderStep::Append(ReminderRecord::Tombstone { id: t, deleted }) => {
            assert_eq!(t, id);
            assert!(deleted);
        }
        _ => panic!("expected a tombstone"),
    }
    assert_eq!(texts(h.complete(Err("No space left on device".to_string()))), vec!["No space left on device"]);
    assert!(h.store().contains(&id));

    assert!(matches!(h.process(&msg(&format!("@reminder delete {}", id))), ReminderStep::Append(_)));
    assert_eq!(texts(h.complete(Ok(()))), vec![format!("Reminder {} deleted.", id)]);
    assert_eq!(reply_of(h.process(&msg("@reminder list"))), vec!["no reminders"]);
}

#[test]
fn failed_add_write_leaves_no_reminder() {
    let mut h = ReminderHandler::new("/data", Vec::new());
    match h.process(&msg("@reminder add 2024-05-17 09:30 tea")) {
        ReminderStep::Append(_) => {
            assert_eq!(texts(h.complete(Err("Permission denied".to_string()))), vec!["Permission denied"]);
            assert_eq!(reply_of(h.process(&msg("@reminder list"))), vec!["no reminders"]);
        }
        ReminderStep::Reply(a) => assert_eq!(texts(a), vec!["ambiguous local time"]),
    }
}

#[test]
fn restart_on_the_journal_gives_back_the_reminders() {
    let mut journal: Vec<ReminderRecord> = Vec::new();
    let mut h = ReminderHandler::new("/data", Vec::new());
    for text in ["one", "two", "three"] {
        if let ReminderStep::Append(rec) = h.process(&msg(&format!("@reminder add 2030-01-01 12:00 {}", text))) {
            journal.push(rec);
            h.complete(Ok(()));
        }
    }
    let first = ids(h.store())[0].clone();
    if let ReminderStep::Append(rec) = h.process(&msg(&format!("@reminder delete {}", first))) {
        journal.push(rec);
        h.complete(Ok(()));
    }
    let restarted = ReminderHandler::new("/data", journal);
    let mut a = ids(h.store());
    let mut b = ids(restarted.store());
    a.sort();
    b.sort();
    assert_eq!(a, b);
}
