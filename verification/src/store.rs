//! The reminder store: the reminders by id, kept in step with an append-only journal of records.
use vstd::prelude::*;

use crate::due::due_valid;
use crate::reminder::{RecordView, Reminder, ReminderRecord, ReminderView};
use crate::text::str_eq;
use vstd::string::StringExecFns;

verus! {

/// The reminders of a sequence, by content.
pub open spec fn entries_view(v: Seq<Reminder>) -> Seq<ReminderView> {
    v.map_values(|r: Reminder| r@)
}

/// The records of a sequence, by content.
pub open spec fn records_view(v: Seq<ReminderRecord>) -> Seq<RecordView> {
    v.map_values(|r: ReminderRecord| r@)
}

/// No two reminders share an id.
pub open spec fn ids_distinct(s: Seq<ReminderView>) -> bool {
    forall|i: int, j: int| 0 <= i < j < s.len() ==> #[trigger] s[i].id != #[trigger] s[j].id
}

/// Every reminder's due time is one `chrono` can hold.
pub open spec fn dues_valid(s: Seq<ReminderView>) -> bool {
    forall|i: int| 0 <= i < s.len() ==> due_valid(#[trigger] s[i].due)
}

/// Every reminder record's due time is one `chrono` can hold.
pub open spec fn records_valid(s: Seq<RecordView>) -> bool {
    forall|i: int|
        0 <= i < s.len() ==> match #[trigger] s[i] {
            RecordView::Reminder(r) => due_valid(r.due),
            RecordView::Tombstone { .. } => true,
        }
}

/// The reminders of a sequence keyed by id (a later reminder with the same id wins).
pub open spec fn to_map(s: Seq<ReminderView>) -> Map<Seq<char>, ReminderView>
    decreases s.len(),
{
    if s.len() == 0 {
        Map::empty()
    } else {
        to_map(s.drop_last()).insert(s.last().id, s.last())
    }
}

/// The effect of one journal record on the reminders: a reminder is put under its id (replacing
/// any reminder with that id); a tombstone removes the reminder with its id, if there is one.
pub open spec fn apply_record(m: Map<Seq<char>, ReminderView>, rec: RecordView) -> Map<
    Seq<char>,
    ReminderView,
> {
    match rec {
        RecordView::Reminder(r) => m.insert(r.id, r),
        RecordView::Tombstone { id, .. } => m.remove(id),
    }
}

/// The reminders that a journal describes: its records applied in order to no reminders.
pub open spec fn replay(recs: Seq<RecordView>) -> Map<Seq<char>, ReminderView>
    decreases recs.len(),
{
    if recs.len() == 0 {
        Map::empty()
    } else {
        apply_record(replay(recs.drop_last()), recs.last())
    }
}

/// The error text for adding a reminder whose id is taken.
pub open spec fn duplicate_message(id: Seq<char>) -> Seq<char> {
    "reminder for "@ + id + " already exists"@
}

/// The error text for removing a reminder that does not exist.
pub open spec fn missing_message(id: Seq<char>) -> Seq<char> {
    "reminder for "@ + id + " does not exist"@
}

/// With distinct ids, a key is in the map exactly when some reminder has it, and it maps to
/// that reminder.
pub proof fn lemma_to_map(s: Seq<ReminderView>)
    requires
        ids_distinct(s),
    ensures
        forall|k: Seq<char>|
            #![trigger to_map(s).dom().contains(k)]
            to_map(s).dom().contains(k) <==> exists|i: int| 0 <= i < s.len() && s[i].id == k,
        forall|i: int| #![trigger s[i]] 0 <= i < s.len() ==> to_map(s)[s[i].id] == s[i],
        to_map(s).dom().finite(),
    decreases s.len(),
{
    if s.len() > 0 {
        let t = s.drop_last();
        assert(ids_distinct(t)) by {
            assert forall|i: int, j: int| 0 <= i < j < t.len() implies #[trigger] t[i].id
                != #[trigger] t[j].id by {
                assert(t[i] == s[i] && t[j] == s[j]);
            }
        }
        lemma_to_map(t);
        assert forall|k: Seq<char>| #![trigger to_map(s).dom().contains(k)] to_map(s).dom().contains(
            k,
        ) <==> exists|i: int| 0 <= i < s.len() && s[i].id == k by {
            if to_map(s).dom().contains(k) && k != s.last().id {
                let i = choose|i: int| 0 <= i < t.len() && t[i].id == k;
                assert(s[i] == t[i]);
            }
            if exists|i: int| 0 <= i < s.len() && s[i].id == k {
                let i = choose|i: int| 0 <= i < s.len() && s[i].id == k;
                if i < t.len() {
                    assert(t[i] == s[i]);
                    assert(to_map(t).dom().contains(k));
                }
            }
        }
        assert forall|i: int| #![trigger s[i]] 0 <= i < s.len() implies to_map(s)[s[i].id]
            == s[i] by {
            if i < t.len() {
                assert(t[i] == s[i]);
                assert(s[i].id != s[s.len() - 1].id);
            }
        }
    }
}

/// Replacing the reminder at `i` by one with the same id puts it under that id.
proof fn lemma_to_map_update(s: Seq<ReminderView>, i: int, r: ReminderView)
    requires
        ids_distinct(s),
        0 <= i < s.len(),
        s[i].id == r.id,
    ensures
        ids_distinct(s.update(i, r)),
        to_map(s.update(i, r)) == to_map(s).insert(r.id, r),
{
    let u = s.update(i, r);
    assert(ids_distinct(u)) by {
        assert forall|a: int, b: int| 0 <= a < b < u.len() implies #[trigger] u[a].id
            != #[trigger] u[b].id by {
            assert(u[a].id == s[a].id && u[b].id == s[b].id);
        }
    }
    lemma_to_map(s);
    lemma_to_map(u);
    assert forall|k: Seq<char>| #[trigger]
        to_map(u).dom().contains(k) <==> to_map(s).insert(r.id, r).dom().contains(k) by {
        if exists|j: int| 0 <= j < u.len() && u[j].id == k {
            let j = choose|j: int| 0 <= j < u.len() && u[j].id == k;
            assert(s[j].id == k);
        }
        if exists|j: int| 0 <= j < s.len() && s[j].id == k {
            let j = choose|j: int| 0 <= j < s.len() && s[j].id == k;
            assert(u[j].id == k);
        }
    }
    assert forall|k: Seq<char>| #[trigger] to_map(u).dom().contains(k) implies to_map(u)[k]
        == to_map(s).insert(r.id, r)[k] by {
        let j = choose|j: int| 0 <= j < u.len() && u[j].id == k;
        if j != i {
            assert(s[j] == u[j]);
        }
    }
    assert(to_map(u) =~= to_map(s).insert(r.id, r));
}

/// Removing the reminder at `i` removes its id.
proof fn lemma_to_map_remove(s: Seq<ReminderView>, i: int)
    requires
        ids_distinct(s),
        0 <= i < s.len(),
    ensures
        ids_distinct(s.remove(i)),
        to_map(s.remove(i)) == to_map(s).remove(s[i].id),
{
    let u = s.remove(i);
    let id = s[i].id;
    assert(forall|j: int| 0 <= j < u.len() ==> #[trigger] u[j] == if j < i { s[j] } else { s[j + 1] });
    assert(ids_distinct(u)) by {
        assert forall|a: int, b: int| 0 <= a < b < u.len() implies #[trigger] u[a].id
            != #[trigger] u[b].id by {
            let sa = if a < i { a } else { a + 1 };
            let sb = if b < i { b } else { b + 1 };
            assert(u[a] == s[sa] && u[b] == s[sb]);
        }
    }
    lemma_to_map(s);
    lemma_to_map(u);
    assert forall|k: Seq<char>| #[trigger]
        to_map(u).dom().contains(k) <==> to_map(s).remove(id).dom().contains(k) by {
        if exists|j: int| 0 <= j < u.len() && u[j].id == k {
            let j = choose|j: int| 0 <= j < u.len() && u[j].id == k;
            let sj = if j < i { j } else { j + 1 };
            assert(u[j] == s[sj]);
        }
        if exists|j: int| 0 <= j < s.len() && s[j].id == k && k != id {
            let j = choose|j: int| 0 <= j < s.len() && s[j].id == k && k != id;
            let uj = if j < i { j } else { j - 1 };
            assert(u[uj] == s[j]);
        }
    }
    assert forall|k: Seq<char>| #[trigger] to_map(u).dom().contains(k) implies to_map(u)[k]
        == to_map(s).remove(id)[k] by {
        let j = choose|j: int| 0 <= j < u.len() && u[j].id == k;
        let sj = if j < i { j } else { j + 1 };
        assert(u[j] == s[sj]);
    }
    assert(to_map(u) =~= to_map(s).remove(id));
}

/// Appending a reminder with a fresh id puts it under that id.
proof fn lemma_to_map_push(s: Seq<ReminderView>, r: ReminderView)
    requires
        ids_distinct(s),
        !to_map(s).dom().contains(r.id),
    ensures
        ids_distinct(s.push(r)),
        to_map(s.push(r)) == to_map(s).insert(r.id, r),
{
    lemma_to_map(s);
    let u = s.push(r);
    assert(u.drop_last() =~= s);
    assert forall|a: int, b: int| 0 <= a < b < u.len() implies #[trigger] u[a].id
        != #[trigger] u[b].id by {
        if b == s.len() {
            assert(u[a] == s[a]);
        } else {
            assert(u[a] == s[a] && u[b] == s[b]);
        }
    }
}

/// The reminders, by id, with the path of the journal that records them.
pub struct ReminderStore {
    path: String,
    reminders: Vec<Reminder>,
}

impl View for ReminderStore {
    type V = Map<Seq<char>, ReminderView>;

    open spec fn view(&self) -> Map<Seq<char>, ReminderView> {
        to_map(self.entries())
    }
}

impl ReminderStore {
    /// The stored reminders in listing order.
    pub closed spec fn entries(&self) -> Seq<ReminderView> {
        entries_view(self.reminders@)
    }

    /// The path of the journal.
    pub closed spec fn journal_path(&self) -> Seq<char> {
        self.path@
    }

    /// No two stored reminders share an id, and every due time is one `chrono` can hold.
    pub closed spec fn wf(&self) -> bool {
        ids_distinct(self.entries()) && dues_valid(self.entries())
    }

    /// The listing holds each stored reminder exactly once: the ids of the listing are
    /// distinct, a reminder is stored under an id exactly when the listing has a reminder with
    /// that id, and it is that reminder.
    pub proof fn law_listing_matches_store(&self)
        requires
            self.wf(),
        ensures
            ids_distinct(self.entries()),
            dues_valid(self.entries()),
            forall|k: Seq<char>|
                #![trigger self@.dom().contains(k)]
                self@.dom().contains(k) <==> exists|i: int|
                    0 <= i < self.entries().len() && self.entries()[i].id == k,
            forall|i: int|
                #![trigger self.entries()[i]]
                0 <= i < self.entries().len() ==> self@[self.entries()[i].id]
                    == self.entries()[i],
            self@.dom().finite(),
    {
        lemma_to_map(self.entries());
    }

    /// An empty store whose journal is at `path`.
    pub fn new(path: &str) -> (s: Self)
        ensures
            s.wf(),
            s@ == Map::<Seq<char>, ReminderView>::empty(),
            s.entries().len() == 0,
            s.journal_path() == path@,
    {
        let s = ReminderStore { path: String::from_str(path), reminders: Vec::new() };
        assert(s.entries() =~= Seq::<ReminderView>::empty());
        s
    }

    /// The path of the journal.
    pub fn path(&self) -> (r: &str)
        ensures
            r@ == self.journal_path(),
    {
        self.path.as_str()
    }

    /// The stored reminders in listing order.
    pub fn list(&self) -> (r: &Vec<Reminder>)
        ensures
            entries_view(r@) == self.entries(),
    {
        &self.reminders
    }

    /// Whether no reminder is stored.
    pub fn is_empty(&self) -> (r: bool)
        requires
            self.wf(),
        ensures
            r == (self@ == Map::<Seq<char>, ReminderView>::empty()),
            r == (self.entries().len() == 0),
    {
        proof {
            lemma_to_map(self.entries());
            if self.entries().len() > 0 {
                assert(self@.dom().contains(self.entries()[0].id));
            } else {
                assert(self@ =~= Map::<Seq<char>, ReminderView>::empty());
            }
        }
        self.reminders.len() == 0
    }

    /// The position of the reminder with this id.
    fn find(&self, id: &str) -> (r: Option<usize>)
        requires
            self.wf(),
        ensures
            match r {
                Some(i) => i < self.entries().len() && self.entries()[i as int].id == id@,
                None => !self@.dom().contains(id@),
            },
    {
        let n = self.reminders.len();
        let mut i: usize = 0;
        while i < n
            invariant
                n == self.reminders@.len(),
                i <= n,
                forall|j: int| 0 <= j < i ==> self.entries()[j].id != id@,
            decreases n - i,
        {
            if str_eq(self.reminders[i].id.as_str(), id) {
                return Some(i);
            }
            i = i + 1;
        }
        proof {
            lemma_to_map(self.entries());
        }
        None
    }

    /// Whether a reminder with this id is stored.
    pub fn contains(&self, id: &str) -> (r: bool)
        requires
            self.wf(),
        ensures
            r == self@.dom().contains(id@),
    {
        proof {
            lemma_to_map(self.entries());
        }
        self.find(id).is_some()
    }

    /// The reminder stored under this id.
    pub fn get(&self, id: &str) -> (r: Option<&Reminder>)
        requires
            self.wf(),
        ensures
            r is Some == self@.dom().contains(id@),
            r matches Some(x) ==> x@ == self@[id@],
    {
        proof {
            lemma_to_map(self.entries());
        }
        match self.find(id) {
            Some(i) => Some(&self.reminders[i]),
            None => None,
        }
    }

    /// Puts a reminder under its id, replacing any reminder with that id.
    fn put(&mut self, reminder: Reminder)
        requires
            old(self).wf(),
            due_valid(reminder.due),
        ensures
            final(self).wf(),
            final(self)@ == old(self)@.insert(reminder.id@, reminder@),
            final(self).journal_path() == old(self).journal_path(),
    {
        let ghost r = reminder@;
        match self.find(reminder.id.as_str()) {
            Some(i) => {
                proof {
                    lemma_to_map_update(self.entries(), i as int, r);
                }
                self.reminders.set(i, reminder);
                assert(self.entries() =~= old(self).entries().update(i as int, r));
            },
            None => {
                proof {
                    lemma_to_map_push(self.entries(), r);
                }
                self.reminders.push(reminder);
                assert(self.entries() =~= old(self).entries().push(r));
            },
        }
    }

    /// Removes the reminder with this id, if there is one.
    fn delete(&mut self, id: &str)
        requires
            old(self).wf(),
        ensures
            final(self).wf(),
            final(self)@ == old(self)@.remove(id@),
            final(self).journal_path() == old(self).journal_path(),
    {
        match self.find(id) {
            Some(i) => {
                proof {
                    lemma_to_map_remove(self.entries(), i as int);
                }
                self.reminders.remove(i);
                assert(self.entries() =~= old(self).entries().remove(i as int));
            },
            None => {
                assert(self@ =~= old(self)@.remove(id@));
            },
        }
    }

    /// Applies one journal record.
    fn apply(&mut self, rec: &ReminderRecord)
        requires
            old(self).wf(),
            rec@ matches RecordView::Reminder(r) ==> due_valid(r.due),
        ensures
            final(self).wf(),
            final(self)@ == apply_record(old(self)@, rec@),
            final(self).journal_path() == old(self).journal_path(),
    {
        match rec {
            ReminderRecord::Reminder(r) => self.put(r.copy()),
            ReminderRecord::Tombstone { id, .. } => self.delete(id.as_str()),
        }
    }

    /// The store that the journal at `path` describes, given the records read from it in order
    /// (lines that did not parse as records left out; none if the journal could not be read).
    pub fn load(path: &str, records: Vec<ReminderRecord>) -> (s: Self)
        requires
            records_valid(records_view(records@)),
        ensures
            s.wf(),
            s@ == replay(records_view(records@)),
            s.journal_path() == path@,
    {
        let mut s = ReminderStore::new(path);
        let n = records.len();
        let mut i: usize = 0;
        while i < n
            invariant
                n == records@.len(),
                i <= n,
                records_valid(records_view(records@)),
                s.wf(),
                s@ == replay(records_view(records@).take(i as int)),
                s.journal_path() == path@,
            decreases n - i,
        {
            assert(records_view(records@)[i as int] == records@[i as int]@);
            s.apply(&records[i]);
            assert(records_view(records@).take(i + 1).drop_last() =~= records_view(
                records@,
            ).take(i as int));
            i = i + 1;
        }
        assert(records_view(records@).take(n as int) =~= records_view(records@));
        s
    }

    /// Adds a reminder, given the outcome of appending its record to the journal: an error if
    /// its id is taken or if the write failed, and the store unchanged; otherwise the reminder is
    /// stored. The id is checked before the record is written, so a successful write never comes
    /// with a taken id.
    pub fn add(&mut self, reminder: Reminder, written: Result<(), String>) -> (r: Result<
        (),
        String,
    >)
        requires
            old(self).wf(),
            due_valid(reminder.due),
            written is Ok ==> !old(self)@.dom().contains(reminder.id@),
        ensures
            final(self).wf(),
            final(self).journal_path() == old(self).journal_path(),
            old(self)@.dom().contains(reminder.id@) ==> (r matches Err(e) && e@ == duplicate_message(
                reminder.id@,
            ) && final(self).entries() == old(self).entries()),
            !old(self)@.dom().contains(reminder.id@) ==> match written {
                Ok(_) => r is Ok && final(self)@ == apply_record(
                    old(self)@,
                    RecordView::Reminder(reminder@),
                ),
                Err(w) => r matches Err(e) && e@ == w@ && final(self).entries() == old(
                    self,
                ).entries(),
            },
    {
        if self.contains(reminder.id.as_str()) {
            let mut e = String::from_str("reminder for ");
            e.append(reminder.id.as_str());
            e.append(" already exists");
            return Err(e);
        }
        match written {
            Ok(()) => {
                self.put(reminder);
                Ok(())
            },
            Err(w) => Err(w),
        }
    }

    /// Removes the reminder with this id, given the outcome of appending its tombstone to the
    /// journal: an error if there is no such reminder or if the write failed, and the store
    /// unchanged; otherwise the reminder is removed. The id is checked before the tombstone is
    /// written, so a successful write never comes with a missing id.
    pub fn remove(&mut self, id: &str, written: Result<(), String>) -> (r: Result<(), String>)
        requires
            old(self).wf(),
            written is Ok ==> old(self)@.dom().contains(id@),
        ensures
            final(self).wf(),
            final(self).journal_path() == old(self).journal_path(),
            !old(self)@.dom().contains(id@) ==> (r matches Err(e) && e@ == missing_message(id@)
                && final(self).entries() == old(self).entries()),
            old(self)@.dom().contains(id@) ==> match written {
                Ok(_) => r is Ok && final(self)@ == apply_record(
                    old(self)@,
                    RecordView::Tombstone { id: id@, deleted: true },
                ),
                Err(w) => r matches Err(e) && e@ == w@ && final(self).entries() == old(
                    self,
                ).entries(),
            },
    {
        if !self.contains(id) {
            let mut e = String::from_str("reminder for ");
            e.append(id);
            e.append(" does not exist");
            return Err(e);
        }
        match written {
            Ok(()) => {
                self.delete(id);
                Ok(())
            },
            Err(w) => Err(w),
        }
    }
}

/// Records applied in order.
pub open spec fn apply_all(m: Map<Seq<char>, ReminderView>, recs: Seq<RecordView>) -> Map<
    Seq<char>,
    ReminderView,
>
    decreases recs.len(),
{
    if recs.len() == 0 {
        m
    } else {
        apply_record(apply_all(m, recs.drop_last()), recs.last())
    }
}

/// Replaying a journal extended by more records applies them, in order, to the replay of the
/// journal.
pub proof fn law_replay_extend(journal: Seq<RecordView>, more: Seq<RecordView>)
    ensures
        replay(journal + more) == apply_all(replay(journal), more),
    decreases more.len(),
{
    if more.len() == 0 {
        assert(journal + more =~= journal);
    } else {
        law_replay_extend(journal, more.drop_last());
        assert((journal + more).drop_last() =~= journal + more.drop_last());
        assert((journal + more).last() == more.last());
    }
}

/// A store that starts as what its journal replays to, and from then on changes only by
/// applying each record as that record is written (a failed write changes nothing and adds no
/// record), is at every point what the journal with the written records appended replays to:
/// loading that journal again gives back the same reminders.
pub proof fn law_store_follows_journal_steps(
    journal: Seq<RecordView>,
    states: Seq<Map<Seq<char>, ReminderView>>,
    written: Seq<RecordView>,
)
    requires
        states.len() == written.len() + 1,
        states[0] == replay(journal),
        forall|k: int|
            0 <= k < written.len() ==> #[trigger] states[k + 1] == apply_record(
                states[k],
                written[k],
            ),
    ensures
        states.last() == replay(journal + written),
    decreases written.len(),
{
    if written.len() == 0 {
        assert(journal + written =~= journal);
    } else {
        let n = written.len() - 1;
        let prev = states.drop_last();
        assert forall|k: int| 0 <= k < written.drop_last().len() implies #[trigger] prev[k + 1]
            == apply_record(prev[k], written.drop_last()[k]) by {
            assert(states[k + 1] == apply_record(states[k], written[k]));
        }
        law_store_follows_journal_steps(journal, prev, written.drop_last());
        assert(states[n + 1] == apply_record(states[n], written[n]));
        law_replay_push(journal + written.drop_last(), written.last());
        assert((journal + written.drop_last()).push(written.last()) =~= journal + written);
    }
}

/// Replaying a journal extended by one record applies that record to the replay of the rest.
pub proof fn law_replay_push(recs: Seq<RecordView>, rec: RecordView)
    ensures
        replay(recs.push(rec)) == apply_record(replay(recs), rec),
{
    assert(recs.push(rec).drop_last() =~= recs);
}

} // verus!
