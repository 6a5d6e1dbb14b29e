//! The reminder handler. Processing a command that changes the reminders needs a record appended
//! to the journal before the change takes effect, so the handler works in two steps: `process`
//! reads the message and either answers at once or asks for a record to be appended; `complete`
//! is then handed the outcome of that write and gives the answer.
use vstd::prelude::*;

use crate::command::{command_shape, parse_command, CommandShape, CommandView, ReminderCommand};
use crate::command::{add_result, command_result_view, DATE_FORMAT, TIME_FORMAT};
use crate::due::{due_text, due_valid, format_due, naive_date_from_str, naive_time_from_str};
use crate::handler::{actions_view, Action, ActionView, Message, MessageView};
use crate::reminder::{valid_id, RecordView, Reminder, ReminderRecord, ReminderView};
use crate::store::{
    apply_record, duplicate_message, entries_view, missing_message, records_valid, records_view,
    replay, to_map, ReminderStore,
};
use crate::text::{has_prefix, skip_chars, starts_with, trim, trim_str};
use vstd::string::StrSliceExecFns;
use vstd::string::StringExecFns;

verus! {

/// The prefix that addresses the reminder handler.
pub const REMINDER_HANDLER_PREFIX: &'static str = "@reminder";

/// The command text of a message addressed to the reminder handler.
pub open spec fn reminder_args(body: Seq<char>) -> Seq<char> {
    trim(body.skip(REMINDER_HANDLER_PREFIX@.len() as int))
}

/// One line of the reminder list.
pub open spec fn list_line(r: ReminderView) -> Seq<char> {
    "- "@ + r.id + " "@ + r.message + " "@ + due_text(r.due) + "\n\n"@
}

/// The lines of the reminder list, in listing order.
pub open spec fn list_text(entries: Seq<ReminderView>) -> Seq<char>
    decreases entries.len(),
{
    if entries.len() == 0 {
        Seq::empty()
    } else {
        list_text(entries.drop_last()) + list_line(entries.last())
    }
}

/// The list of no reminders is empty, and listing one more reminder at the end adds exactly
/// its line `- <id> <message> <due>` followed by an empty line.
pub proof fn law_list_text_appends(s: Seq<ReminderView>, r: ReminderView)
    ensures
        list_text(Seq::<ReminderView>::empty()) == Seq::<char>::empty(),
        list_text(s.push(r)) == list_text(s) + ("- "@ + r.id + " "@ + r.message + " "@ + due_text(
            r.due,
        ) + "\n\n"@),
{
    assert(s.push(r).drop_last() =~= s);
}

/// The list shows every reminder: the line `- <id> <message> <due>` (and an empty line) of
/// each reminder stands in the list text, after the lines of the reminders before it, and the
/// text is no longer than those lines together.
pub proof fn law_list_shows_every_reminder(s: Seq<ReminderView>, i: int)
    requires
        0 <= i < s.len(),
    ensures
        ({
            let line = "- "@ + s[i].id + " "@ + s[i].message + " "@ + due_text(s[i].due)
                + "\n\n"@;
            let off = list_text(s.take(i)).len() as int;
            &&& off + line.len() <= list_text(s).len()
            &&& list_text(s).subrange(off, off + line.len()) == line
        }),
    decreases s.len(),
{
    let t = s.drop_last();
    law_list_text_appends(t, s.last());
    assert(t.push(s.last()) =~= s);
    if i == s.len() - 1 {
        assert(s.take(i) =~= t);
    } else {
        law_list_shows_every_reminder(t, i);
        assert(t.take(i) =~= s.take(i));
        assert(t[i] == s[i]);
        let line = "- "@ + s[i].id + " "@ + s[i].message + " "@ + due_text(s[i].due) + "\n\n"@;
        let off = list_text(s.take(i)).len() as int;
        assert(list_text(s).subrange(off, off + line.len()) =~= list_text(t).subrange(
            off,
            off + line.len(),
        ));
    }
}

/// The answer to `list`.
pub open spec fn list_reply(entries: Seq<ReminderView>) -> Seq<char> {
    if entries.len() == 0 {
        "no reminders"@
    } else {
        list_text(entries)
    }
}

/// The answer once a reminder has been added.
pub open spec fn created_message(id: Seq<char>) -> Seq<char> {
    "Reminder "@ + id + " created."@
}

/// The answer once a reminder has been deleted.
pub open spec fn deleted_message(id: Seq<char>) -> Seq<char> {
    "Reminder "@ + id + " deleted."@
}

/// A change that waits for its journal record to be written.
pub enum PendingChange {
    Add(Reminder),
    Delete(String),
}

/// The content of a waiting change.
pub enum PendingView {
    Add(ReminderView),
    Delete(Seq<char>),
}

impl View for PendingChange {
    type V = PendingView;

    open spec fn view(&self) -> PendingView {
        match self {
            PendingChange::Add(r) => PendingView::Add(r@),
            PendingChange::Delete(id) => PendingView::Delete(id@),
        }
    }
}

/// What processing a message asks of the caller.
pub enum ReminderStep {
    /// Send these actions; nothing is to be written.
    Reply(Vec<Action>),
    /// Append this record to the journal, then call `complete` with the outcome.
    Append(ReminderRecord),
}

/// The content of a step.
pub enum StepView {
    Reply(Seq<ActionView>),
    Append(RecordView),
}

impl View for ReminderStep {
    type V = StepView;

    open spec fn view(&self) -> StepView {
        match self {
            ReminderStep::Reply(a) => StepView::Reply(actions_view(a@)),
            ReminderStep::Append(rec) => StepView::Append(rec@),
        }
    }
}

/// The state of the reminder handler: the stored reminders in listing order, the change that
/// waits for its record to be written, and the journal's path.
pub struct HandlerView {
    pub entries: Seq<ReminderView>,
    pub pending: Option<PendingView>,
    pub path: Seq<char>,
}

/// A single reply.
pub open spec fn reply(text: Seq<char>) -> Seq<ActionView> {
    seq![ActionView::Reply(text)]
}

/// What `parse_command` may give for these arguments (for an `add` whose date and time read,
/// the local time zone's answer for that date and time decides).
pub open spec fn command_outcome(args: Seq<char>, cmd: Result<CommandView, Seq<char>>) -> bool {
    match command_shape(args) {
        CommandShape::Fail(e) => cmd == Err::<CommandView, Seq<char>>(e),
        CommandShape::List => cmd == Ok::<CommandView, Seq<char>>(CommandView::List),
        CommandShape::Delete { id } => cmd == Ok::<CommandView, Seq<char>>(
            CommandView::Delete { id },
        ),
        CommandShape::Add { date, time, message } => add_result(
            naive_date_from_str(date, DATE_FORMAT@),
            naive_time_from_str(time, TIME_FORMAT@),
            message,
            cmd,
        ),
    }
}

/// The step that a read command gives from the stored reminders, for a message from `from`,
/// and the change left waiting.
pub open spec fn command_step(
    entries: Seq<ReminderView>,
    from: Seq<char>,
    cmd: Result<CommandView, Seq<char>>,
    step: StepView,
    pending: Option<PendingView>,
) -> bool {
    match cmd {
        Err(e) => step == StepView::Reply(reply(e)) && pending is None,
        Ok(CommandView::List) => step == StepView::Reply(reply(list_reply(entries)))
            && pending is None,
        Ok(CommandView::Delete { id }) => if to_map(entries).dom().contains(id) {
            step == StepView::Append(RecordView::Tombstone { id, deleted: true }) && pending
                == Some(PendingView::Delete(id))
        } else {
            step == StepView::Reply(reply(missing_message(id))) && pending is None
        },
        Ok(CommandView::Add { due, message }) => exists|id: Seq<char>|
            #![trigger valid_id(id)]
            valid_id(id) && {
                let rv = ReminderView { id, due, to: from, message, cron: None };
                if to_map(entries).dom().contains(id) {
                    step == StepView::Reply(reply(duplicate_message(id))) && pending is None
                } else {
                    step == StepView::Append(RecordView::Reminder(rv)) && pending == Some(
                        PendingView::Add(rv),
                    )
                }
            },
    }
}

/// How `process` takes the handler from `before` to `after` on a message, asking `step`.
pub open spec fn process_post(
    before: HandlerView,
    msg: MessageView,
    step: StepView,
    after: HandlerView,
) -> bool {
    &&& after.entries == before.entries
    &&& after.path == before.path
    &&& exists|cmd: Result<CommandView, Seq<char>>|
        #[trigger] command_outcome(reminder_args(msg.body), cmd) && command_step(
            before.entries,
            msg.from,
            cmd,
            step,
            after.pending,
        )
}

/// How `complete` takes the handler from `before` to `after` given whether the journal write
/// succeeded (`written`; `failure` is the write's error text), answering `out`.
pub open spec fn complete_post(
    before: HandlerView,
    written: bool,
    failure: Seq<char>,
    out: Seq<ActionView>,
    after: HandlerView,
) -> bool {
    &&& after.pending is None
    &&& after.path == before.path
    &&& match before.pending {
        Some(PendingView::Add(rv)) => if written {
            to_map(after.entries) == apply_record(to_map(before.entries), RecordView::Reminder(rv))
                && out == reply(created_message(rv.id))
        } else {
            after.entries == before.entries && out == reply(failure)
        },
        Some(PendingView::Delete(id)) => if written {
            to_map(after.entries) == apply_record(
                to_map(before.entries),
                RecordView::Tombstone { id, deleted: true },
            ) && out == reply(deleted_message(id))
        } else {
            after.entries == before.entries && out == reply(failure)
        },
        None => false,
    }
}

/// The reminder handler: the store, and the change that waits for its journal record.
pub struct ReminderHandler {
    store: ReminderStore,
    pending: Option<PendingChange>,
}

impl View for ReminderHandler {
    type V = HandlerView;

    closed spec fn view(&self) -> HandlerView {
        HandlerView {
            entries: self.store.entries(),
            pending: match self.pending {
                Some(p) => Some(p@),
                None => None,
            },
            path: self.store.journal_path(),
        }
    }
}

/// The journal file in the reminder data directory.
pub open spec fn journal_path_of(data_dir: Seq<char>) -> Seq<char> {
    crate::config::path_join(data_dir, "reminders.jsonl"@)
}

impl ReminderHandler {
    /// The store is well formed and a waiting change fits it: an addition's id is free, a
    /// deletion's id is stored.
    pub closed spec fn wf(&self) -> bool {
        &&& self.store.wf()
        &&& match self.pending {
            Some(PendingChange::Add(r)) => !self.store@.dom().contains(r.id@) && due_valid(r.due),
            Some(PendingChange::Delete(id)) => self.store@.dom().contains(id@),
            None => true,
        }
    }

    /// The journal that a handler for this data directory keeps.
    pub fn journal_path(data_dir: &str) -> (r: String)
        ensures
            r@ == journal_path_of(data_dir@),
    {
        proof {
            reveal_strlit("reminders.jsonl");
        }
        crate::config::join_path(data_dir, "reminders.jsonl")
    }

    /// A handler for the data directory, given the records read from its journal in order.
    pub fn new(data_dir: &str, records: Vec<ReminderRecord>) -> (h: Self)
        requires
            records_valid(records_view(records@)),
        ensures
            h.wf(),
            h@.pending is None,
            to_map(h@.entries) == replay(records_view(records@)),
            h@.path == journal_path_of(data_dir@),
    {
        let path = Self::journal_path(data_dir);
        ReminderHandler { store: ReminderStore::load(path.as_str(), records), pending: None }
    }

    /// The stored reminders.
    pub fn store(&self) -> (r: &ReminderStore)
        ensures
            r.entries() == self@.entries,
            r.journal_path() == self@.path,
            self.wf() ==> r.wf(),
    {
        &self.store
    }

    /// Whether a change waits for its journal record.
    pub fn is_waiting(&self) -> (r: bool)
        ensures
            r == self@.pending is Some,
    {
        self.pending.is_some()
    }

    /// The name of the handler.
    pub fn name(&self) -> (r: &str)
        ensures
            r@ == "ReminderHandler"@,
    {
        "ReminderHandler"
    }

    /// Whether the message is addressed to this handler.
    pub fn wants(&self, msg: &Message) -> (r: bool)
        ensures
            r == has_prefix(msg.body@, REMINDER_HANDLER_PREFIX@),
    {
        starts_with(msg.body.as_str(), REMINDER_HANDLER_PREFIX)
    }

    fn list_reply_text(&self) -> (r: String)
        requires
            self.store.wf(),
        ensures
            r@ == list_reply(self.store.entries()),
    {
        if self.store.is_empty() {
            return String::from_str("no reminders");
        }
        let items = self.store.list();
        let n = items.len();
        proof {
            self.store.law_listing_matches_store();
        }
        let mut text = String::new();
        let mut i: usize = 0;
        proof {
            reveal_strlit("- ");
            reveal_strlit(" ");
            reveal_strlit("\n\n");
        }
        while i < n
            invariant
                n == items@.len(),
                i <= n,
                entries_view(items@) == self.store.entries(),
                crate::store::dues_valid(entries_view(items@)),
                text@ == list_text(entries_view(items@).take(i as int)),
            decreases n - i,
        {
            let r = &items[i];
            assert(entries_view(items@)[i as int] == r@);
            assert(due_valid(entries_view(items@)[i as int].due));
            text.append("- ");
            text.append(r.id.as_str());
            text.append(" ");
            text.append(r.message.as_str());
            text.append(" ");
            text.append(format_due(&r.due).as_str());
            text.append("\n\n");
            let ghost es = entries_view(items@);
            assert(es.take(i + 1).drop_last() =~= es.take(i as int));
            assert(es.take(i + 1).last() == es[i as int]);
            i = i + 1;
        }
        assert(entries_view(items@).take(n as int) =~= entries_view(items@));
        text
    }

    /// Reads a message addressed to this handler and answers it, or asks for a journal record
    /// to be appended before the change it asks for takes effect.
    pub fn process(&mut self, msg: &Message) -> (r: ReminderStep)
        requires
            old(self).wf(),
            old(self)@.pending is None,
            has_prefix(msg.body@, REMINDER_HANDLER_PREFIX@),
        ensures
            final(self).wf(),
            process_post(old(self)@, msg@, r@, final(self)@),
    {
        let args = trim_str(skip_chars(msg.body.as_str(), REMINDER_HANDLER_PREFIX.unicode_len()));
        let cmd = parse_command(args);
        let ghost cv = command_result_view(cmd);
        assert(command_outcome(reminder_args(msg@.body), cv));
        match cmd {
            Err(e) => {
                let ghost ev = e@;
                let actions = vec![Action::Reply(e)];
                assert(actions_view(actions@) =~= reply(ev));
                ReminderStep::Reply(actions)
            },
            Ok(ReminderCommand::List) => {
                let text = self.list_reply_text();
                let ghost tv = text@;
                let actions = vec![Action::Reply(text)];
                assert(actions_view(actions@) =~= reply(tv));
                ReminderStep::Reply(actions)
            },
            Ok(ReminderCommand::Delete { id }) => {
                if self.store.contains(id.as_str()) {
                    let rec = ReminderRecord::Tombstone { id: id.clone(), deleted: true };
                    self.pending = Some(PendingChange::Delete(id));
                    ReminderStep::Append(rec)
                } else {
                    let mut e = String::from_str("reminder for ");
                    e.append(id.as_str());
                    e.append(" does not exist");
                    let ghost ev = e@;
                    let actions = vec![Action::Reply(e)];
                    assert(actions_view(actions@) =~= reply(ev));
                    ReminderStep::Reply(actions)
                }
            },
            Ok(ReminderCommand::Add { due, message }) => {
                let made = Reminder::new(due, message, msg.from.clone(), None);
                let reminder = match made {
                    Ok(r) => r,
                    Err(e) => {
                        let actions = vec![Action::Reply(e)];
                        return ReminderStep::Reply(actions);
                    },
                };
                assert(valid_id(reminder.id@));
                self.add_step(reminder)
            },
        }
    }

    /// What adding a reminder asks: the duplicate error when its id is stored (nothing is
    /// written), otherwise its record, with the addition left waiting for that write.
    pub fn add_step(&mut self, reminder: Reminder) -> (r: ReminderStep)
        requires
            old(self).wf(),
            old(self)@.pending is None,
            due_valid(reminder.due),
        ensures
            final(self).wf(),
            final(self)@.entries == old(self)@.entries,
            final(self)@.path == old(self)@.path,
            if to_map(old(self)@.entries).dom().contains(reminder.id@) {
                r@ == StepView::Reply(reply(duplicate_message(reminder.id@)))
                    && final(self)@.pending is None
            } else {
                r@ == StepView::Append(RecordView::Reminder(reminder@)) && final(self)@.pending
                    == Some(PendingView::Add(reminder@))
            },
    {
        if self.store.contains(reminder.id.as_str()) {
            let mut e = String::from_str("reminder for ");
            e.append(reminder.id.as_str());
            e.append(" already exists");
            let ghost ev = e@;
            let actions = vec![Action::Reply(e)];
            assert(actions_view(actions@) =~= reply(ev));
            ReminderStep::Reply(actions)
        } else {
            let rec = ReminderRecord::Reminder(reminder.copy());
            self.pending = Some(PendingChange::Add(reminder));
            ReminderStep::Append(rec)
        }
    }

    /// Completes the waiting change, given the outcome of appending its journal record: on
    /// success the change takes effect and is confirmed; on failure nothing changes and the
    /// answer is the write's error.
    pub fn complete(&mut self, written: Result<(), String>) -> (r: Vec<Action>)
        requires
            old(self).wf(),
            old(self)@.pending is Some,
        ensures
            final(self).wf(),
            complete_post(
                old(self)@,
                written is Ok,
                match written {
                    Ok(_) => Seq::empty(),
                    Err(e) => e@,
                },
                actions_view(r@),
                final(self)@,
            ),
    {
        let pending = self.pending.take();
        match pending {
            Some(PendingChange::Add(reminder)) => {
                let mut confirm = String::from_str("Reminder ");
                confirm.append(reminder.id.as_str());
                confirm.append(" created.");
                let outcome = self.store.add(reminder, written);
                let text = match outcome {
                    Ok(()) => confirm,
                    Err(e) => e,
                };
                let ghost tv = text@;
                let actions = vec![Action::Reply(text)];
                assert(actions_view(actions@) =~= reply(tv));
                actions
            },
            Some(PendingChange::Delete(id)) => {
                let mut confirm = String::from_str("Reminder ");
                confirm.append(id.as_str());
                confirm.append(" deleted.");
                let outcome = self.store.remove(id.as_str(), written);
                let text = match outcome {
                    Ok(()) => confirm,
                    Err(e) => e,
                };
                let ghost tv = text@;
                let actions = vec![Action::Reply(text)];
                assert(actions_view(actions@) =~= reply(tv));
                actions
            },
            None => Vec::new(),
        }
    }
}

/// The stored reminders follow the journal: if before a message they are what the journal
/// replays to, then a message answered at once leaves them so, and a message that asks for a
/// record leaves them, once the change is completed, what the journal replays to with that
/// record appended exactly when the write succeeded. Restarting the handler on its journal
/// (`ReminderHandler::new`) therefore gives back the reminders it had.
pub proof fn law_store_follows_journal(
    journal: Seq<RecordView>,
    before: HandlerView,
    msg: MessageView,
    step: StepView,
    mid: HandlerView,
    written: bool,
    failure: Seq<char>,
    out: Seq<ActionView>,
    after: HandlerView,
)
    requires
        to_map(before.entries) == replay(journal),
        process_post(before, msg, step, mid),
        step is Append ==> complete_post(mid, written, failure, out, after),
    ensures
        step is Reply ==> to_map(mid.entries) == replay(journal) && mid.pending is None,
        step matches StepView::Append(rec) ==> to_map(after.entries) == replay(
            if written {
                journal.push(rec)
            } else {
                journal
            },
        ),
{
    let cmd = choose|cmd: Result<CommandView, Seq<char>>|
        #[trigger] command_outcome(reminder_args(msg.body), cmd) && command_step(
            before.entries,
            msg.from,
            cmd,
            step,
            mid.pending,
        );
    if let StepView::Append(rec) = step {
        match cmd {
            Ok(CommandView::Add { due, message }) => {
                let id = choose|id: Seq<char>|
                    #![trigger valid_id(id)]
                    valid_id(id) && {
                        let rv = ReminderView { id, due, to: msg.from, message, cron: None };
                        if to_map(before.entries).dom().contains(id) {
                            step == StepView::Reply(reply(duplicate_message(id)))
                                && mid.pending is None
                        } else {
                            step == StepView::Append(RecordView::Reminder(rv)) && mid.pending
                                == Some(PendingView::Add(rv))
                        }
                    };
                assert(valid_id(id));
            },
            _ => {},
        }
        if written {
            crate::store::law_replay_push(journal, rec);
        }
    }
}

/// No message is addressed to both the echo handler and the reminder handler, so the order in
/// which the two are asked does not matter.
pub proof fn law_prefixes_exclusive(body: Seq<char>)
    ensures
        !(has_prefix(body, crate::echo::ECHO_HANDLER_PREFIX@) && has_prefix(
            body,
            REMINDER_HANDLER_PREFIX@,
        )),
{
    reveal_strlit("@echo");
    reveal_strlit("@reminder");
    if has_prefix(body, crate::echo::ECHO_HANDLER_PREFIX@) && has_prefix(
        body,
        REMINDER_HANDLER_PREFIX@,
    ) {
        assert(body.take(5)[1] == body[1]);
        assert(body.take(9)[1] == body[1]);
    }
}

} // verus!
