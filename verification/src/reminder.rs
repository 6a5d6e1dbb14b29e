//! Reminders, the records of the reminder journal, and the random ids reminders get.
use vstd::prelude::*;

use crate::due::Due;
use crate::text::push_char;
use rand::RngExt;

verus! {

/// A reminder: who gets what message when.
pub struct Reminder {
    pub id: String,
    pub due: Due,
    pub to: String,
    pub message: String,
    pub cron: Option<String>,
}

/// The content of a reminder.
pub struct ReminderView {
    pub id: Seq<char>,
    pub due: Due,
    pub to: Seq<char>,
    pub message: Seq<char>,
    pub cron: Option<Seq<char>>,
}

/// The content of an optional string.
pub open spec fn opt_view(s: Option<String>) -> Option<Seq<char>> {
    match s {
        Some(t) => Some(t@),
        None => None,
    }
}

impl View for Reminder {
    type V = ReminderView;

    open spec fn view(&self) -> ReminderView {
        ReminderView {
            id: self.id@,
            due: self.due,
            to: self.to@,
            message: self.message@,
            cron: opt_view(self.cron),
        }
    }
}

/// Each journal line is either a true reminder or a tombstone (a deleted reminder).
pub enum ReminderRecord {
    Reminder(Reminder),
    Tombstone { id: String, deleted: bool },
}

/// The content of a journal record.
pub enum RecordView {
    Reminder(ReminderView),
    Tombstone { id: Seq<char>, deleted: bool },
}

impl View for ReminderRecord {
    type V = RecordView;

    open spec fn view(&self) -> RecordView {
        match self {
            ReminderRecord::Reminder(r) => RecordView::Reminder(r@),
            ReminderRecord::Tombstone { id, deleted } => RecordView::Tombstone {
                id: id@,
                deleted: *deleted,
            },
        }
    }
}

/// The number of characters in a reminder id.
pub const ID_LEN: usize = 7;

/// An ASCII letter or digit.
pub open spec fn is_alphanumeric_byte(b: u8) -> bool {
    (48 <= b <= 57) || (65 <= b <= 90) || (97 <= b <= 122)
}

/// An ASCII letter or digit.
pub open spec fn is_alphanumeric_char(c: char) -> bool {
    let n = c as u32;
    (48 <= n <= 57) || (65 <= n <= 90) || (97 <= n <= 122)
}

/// A reminder id as `Reminder::new` makes them: seven ASCII letters and digits.
pub open spec fn valid_id(id: Seq<char>) -> bool {
    &&& id.len() == ID_LEN
    &&& forall|i: int| 0 <= i < id.len() ==> is_alphanumeric_char(#[trigger] id[i])
}

#[verifier::external_type_specification]
#[verifier::external_body]
pub struct ExThreadRng(rand::rngs::ThreadRng);

/// `rand::rng()`: the thread-local random generator. Nothing is claimed of it; it panics only
/// when the operating system's random source fails, which no precondition can rule out.
#[verifier::external_body]
fn thread_rng() -> rand::rngs::ThreadRng {
    rand::rng()
}

/// `rng.sample(rand::distr::Alphanumeric)`. The value is random; the contract claims what every
/// outcome satisfies: it is one of the 62 bytes `A-Z`, `a-z`, `0-9`.
#[verifier::external_body]
fn sample_alphanumeric(rng: &mut rand::rngs::ThreadRng) -> (b: u8)
    ensures
        is_alphanumeric_byte(b),
{
    rng.sample(rand::distr::Alphanumeric)
}

/// A fresh random reminder id.
pub fn random_id() -> (id: String)
    ensures
        valid_id(id@),
{
    let mut rng = thread_rng();
    let mut samples: Vec<u8> = Vec::new();
    let mut k: usize = 0;
    while k < ID_LEN
        invariant
            k <= ID_LEN,
            samples@.len() == k,
            forall|i: int| 0 <= i < k ==> is_alphanumeric_byte(#[trigger] samples@[i]),
        decreases ID_LEN - k,
    {
        let b = sample_alphanumeric(&mut rng);
        samples.push(b);
        k = k + 1;
    }
    id_from_samples(&samples)
}

/// The id spelled by the sampled bytes, each taken as the ASCII character it encodes.
pub fn id_from_samples(bytes: &Vec<u8>) -> (id: String)
    requires
        bytes@.len() == ID_LEN,
        forall|i: int| 0 <= i < ID_LEN ==> is_alphanumeric_byte(#[trigger] bytes@[i]),
    ensures
        id@ == bytes@.map_values(|b: u8| b as char),
        valid_id(id@),
{
    let mut id = String::new();
    let mut k: usize = 0;
    while k < bytes.len()
        invariant
            k <= bytes@.len(),
            bytes@.len() == ID_LEN,
            forall|i: int| 0 <= i < ID_LEN ==> is_alphanumeric_byte(#[trigger] bytes@[i]),
            id@ == bytes@.take(k as int).map_values(|b: u8| b as char),
            forall|i: int| 0 <= i < k ==> is_alphanumeric_char(#[trigger] id@[i]),
        decreases bytes@.len() - k,
    {
        let b = bytes[k];
        let c = b as char;
        assert(c as u32 == b as u32);
        push_char(&mut id, c);
        assert(bytes@.take(k + 1).map_values(|b: u8| b as char) =~= bytes@.take(k as int).map_values(
            |b: u8| b as char,
        ).push(c));
        k = k + 1;
    }
    assert(bytes@.take(ID_LEN as int) =~= bytes@);
    id
}

/// A copy of an optional string.
pub fn copy_opt(s: &Option<String>) -> (r: Option<String>)
    ensures
        opt_view(r) == opt_view(*s),
{
    match s {
        Some(t) => Some(t.clone()),
        None => None,
    }
}

impl Reminder {
    /// A reminder with a fresh random id; creating one always succeeds.
    pub fn new(due: Due, message: String, to: String, cron: Option<String>) -> (r: Result<
        Self,
        String,
    >)
        ensures
            r matches Ok(rem) && valid_id(rem.id@) && rem.due == due && rem.message@ == message@
                && rem.to@ == to@ && opt_view(rem.cron) == opt_view(cron),
    {
        let id = random_id();
        Ok(Reminder { id, due, message, to, cron })
    }

    /// The record that marks this reminder deleted.
    pub fn tombstone(&self) -> (r: ReminderRecord)
        ensures
            r@ == (RecordView::Tombstone { id: self.id@, deleted: true }),
    {
        ReminderRecord::Tombstone { id: self.id.clone(), deleted: true }
    }

    /// A copy of this reminder.
    pub fn copy(&self) -> (r: Reminder)
        ensures
            r@ == self@,
    {
        Reminder {
            id: self.id.clone(),
            due: self.due,
            to: self.to.clone(),
            message: self.message.clone(),
            cron: copy_opt(&self.cron),
        }
    }
}

} // verus!
