//! The reminder commands and how they are read from the text after the reminder prefix:
//! `add <date> <time> <message>`, `delete <id>` and `list`.
use vstd::prelude::*;

use crate::due::{
    due_valid, local_offset, local_offset_outcome, naive_date_from_str, naive_time_from_str, parse_naive_date,
    parse_naive_time, Due,
};
use crate::text::{head, split_once_space, str_eq, tail};
use vstd::string::StringExecFns;

verus! {

/// The format of the date of an `add` command.
pub const DATE_FORMAT: &'static str = "%Y-%m-%d";

/// The format of the time of an `add` command.
pub const TIME_FORMAT: &'static str = "%H:%M";

/// A reminder command.
pub enum ReminderCommand {
    Add { due: Due, message: String },
    List,
    Delete { id: String },
}

/// The content of a command.
pub enum CommandView {
    Add { due: Due, message: Seq<char> },
    List,
    Delete { id: Seq<char> },
}

impl View for ReminderCommand {
    type V = CommandView;

    open spec fn view(&self) -> CommandView {
        match self {
            ReminderCommand::Add { due, message } => CommandView::Add { due: *due, message: message@ },
            ReminderCommand::List => CommandView::List,
            ReminderCommand::Delete { id } => CommandView::Delete { id: id@ },
        }
    }
}

/// The words of a command, before the date and time are read: what `splitn(2, ' ')` and, for
/// `add`, `splitn(3, ' ')` of the rest give.
pub enum CommandShape {
    Add { date: Seq<char>, time: Seq<char>, message: Seq<char> },
    List,
    Delete { id: Seq<char> },
    Fail(Seq<char>),
}

/// How the arguments split into a command.
pub open spec fn command_shape(args: Seq<char>) -> CommandShape {
    let first = head(args);
    if first == "add"@ {
        match tail(args) {
            None => CommandShape::Fail("add requires <date> <time> <message>"@),
            Some(rest) => match tail(rest) {
                None => CommandShape::Fail("missing time"@),
                Some(rest2) => match tail(rest2) {
                    None => CommandShape::Fail("missing message"@),
                    Some(message) => CommandShape::Add {
                        date: head(rest),
                        time: head(rest2),
                        message,
                    },
                },
            },
        }
    } else if first == "list"@ {
        CommandShape::List
    } else if first == "delete"@ {
        match tail(args) {
            None => CommandShape::Fail("missing id"@),
            Some(id) => CommandShape::Delete { id },
        }
    } else {
        CommandShape::Fail("Invalid argument"@)
    }
}

/// The due time made of a parsed date, a parsed time and a UTC offset.
pub open spec fn due_of(
    date: (int, int, int),
    time: (int, int, int, int),
    offset: int,
) -> Due {
    Due {
        year: date.0 as i32,
        month: date.1 as u32,
        day: date.2 as u32,
        hour: time.0 as u32,
        minute: time.1 as u32,
        second: time.2 as u32,
        nanosecond: time.3 as u32,
        offset_seconds: offset as i32,
    }
}

/// What an `add` command with this message gives once its date and time have been read and, if
/// both were read, the local time zone has given the offset of that local time (`None` when the
/// local time is ambiguous or does not exist).
pub open spec fn add_outcome(
    date: Result<(int, int, int), Seq<char>>,
    time: Result<(int, int, int, int), Seq<char>>,
    offset: Option<int>,
    message: Seq<char>,
) -> Result<CommandView, Seq<char>> {
    match date {
        Err(e) => Err("invalid date: "@ + e),
        Ok(d) => match time {
            Err(e) => Err("invalid time: "@ + e),
            Ok(t) => match offset {
                None => Err("ambiguous local time"@),
                Some(o) => Ok(CommandView::Add { due: due_of(d, t, o), message }),
            },
        },
    }
}

/// Whether `cmd` is a possible result of an `add` command with this message, given what reading
/// its date and time gave: when both were read, the local time zone was asked about exactly
/// that local date and time, and the command carries the offset it gave (or the error that the
/// local time is ambiguous when it gave none).
pub open spec fn add_result(
    d: Result<(int, int, int), Seq<char>>,
    t: Result<(int, int, int, int), Seq<char>>,
    message: Seq<char>,
    cmd: Result<CommandView, Seq<char>>,
) -> bool {
    match (d, t) {
        (Ok(dd), Ok(tt)) => exists|o: Option<int>|
            #[trigger] local_offset_outcome(dd.0, dd.1, dd.2, tt.0, tt.1, tt.2, tt.3, o) && (
            o matches Some(x) ==> -86400 < x < 86400) && cmd == add_outcome(d, t, o, message),
        _ => cmd == add_outcome(d, t, None, message),
    }
}

/// An `add` whose date and time were read asks the local time zone about exactly that local
/// date and time and keeps its answer: the command is due at that date and time, to the
/// nanosecond, with the offset the time zone gave for it, and carries the message; when the
/// time zone gave no single offset, the answer is the ambiguity error.
pub proof fn law_add_keeps_the_zone_answer(
    d: (int, int, int),
    t: (int, int, int, int),
    message: Seq<char>,
    cmd: Result<CommandView, Seq<char>>,
)
    requires
        crate::due::valid_date(d.0, d.1, d.2),
        crate::due::valid_time(t.0, t.1, t.2, t.3),
        add_result(Ok(d), Ok(t), message, cmd),
    ensures
        cmd is Ok ==> cmd->Ok_0 is Add,
        cmd matches Ok(CommandView::Add { due, message: m }) ==> {
            &&& m == message
            &&& due.year == d.0 && due.month == d.1 && due.day == d.2
            &&& due.hour == t.0 && due.minute == t.1 && due.second == t.2 && due.nanosecond == t.3
            &&& local_offset_outcome(d.0, d.1, d.2, t.0, t.1, t.2, t.3, Some(due.offset_seconds as int))
        },
        cmd matches Err(e) ==> e == "ambiguous local time"@ && local_offset_outcome(
            d.0,
            d.1,
            d.2,
            t.0,
            t.1,
            t.2,
            t.3,
            None,
        ),
{
}

/// The content of a command result.
pub open spec fn command_result_view(r: Result<ReminderCommand, String>) -> Result<
    CommandView,
    Seq<char>,
> {
    match r {
        Ok(c) => Ok(c@),
        Err(e) => Err(e@),
    }
}

fn prefixed(prefix: &str, text: &str) -> (r: String)
    ensures
        r@ == prefix@ + text@,
{
    let mut s = String::from_str(prefix);
    s.append(text);
    s
}

/// The `add` command from the outcomes of reading its date and time and of placing that local
/// time in the time zone (`offset` is looked at only when both were read).
pub fn assemble_add(
    date: Result<(i32, u32, u32), String>,
    time: Result<(u32, u32, u32, u32), String>,
    offset: Option<i32>,
    message: &str,
) -> (r: Result<ReminderCommand, String>)
    ensures
        command_result_view(r) == add_outcome(
            match date {
                Ok((y, m, d)) => Ok((y as int, m as int, d as int)),
                Err(e) => Err(e@),
            },
            match time {
                Ok((h, mi, s, ns)) => Ok((h as int, mi as int, s as int, ns as int)),
                Err(e) => Err(e@),
            },
            match offset {
                Some(o) => Some(o as int),
                None => None,
            },
            message@,
        ),
{
    match date {
        Err(e) => Err(prefixed("invalid date: ", e.as_str())),
        Ok((y, mo, d)) => match time {
            Err(e) => Err(prefixed("invalid time: ", e.as_str())),
            Ok((h, mi, s, ns)) => match offset {
                None => Err(String::from_str("ambiguous local time")),
                Some(o) => {
                    let due = Due {
                        year: y,
                        month: mo,
                        day: d,
                        hour: h,
                        minute: mi,
                        second: s,
                        nanosecond: ns,
                        offset_seconds: o,
                    };
                    Ok(ReminderCommand::Add { due, message: String::from_str(message) })
                },
            },
        },
    }
}

/// Reads a reminder command. The outcome of an `add` command whose date and time both read
/// rests on what the machine's time zone answers for that local date and time: the command, due
/// then with the offset it gave, or the error that the local time is ambiguous when it gave
/// none.
pub fn parse_command(args: &str) -> (r: Result<ReminderCommand, String>)
    ensures
        r matches Ok(ReminderCommand::Add { due, .. }) ==> due_valid(due),
        match command_shape(args@) {
            CommandShape::Fail(e) => command_result_view(r) == Err::<CommandView, Seq<char>>(e),
            CommandShape::List => command_result_view(r) == Ok::<CommandView, Seq<char>>(
                CommandView::List,
            ),
            CommandShape::Delete { id } => command_result_view(r) == Ok::<
                CommandView,
                Seq<char>,
            >(CommandView::Delete { id }),
            CommandShape::Add { date, time, message } => {
                add_result(
                    naive_date_from_str(date, DATE_FORMAT@),
                    naive_time_from_str(time, TIME_FORMAT@),
                    message,
                    command_result_view(r),
                )
            },
        },
{
    let (first, rest) = split_once_space(args);
    if str_eq(first, "add") {
        let rest = match rest {
            None => {
                return Err(String::from_str("add requires <date> <time> <message>"));
            },
            Some(x) => x,
        };
        let (date, rest2) = split_once_space(rest);
        let rest2 = match rest2 {
            None => {
                return Err(String::from_str("missing time"));
            },
            Some(x) => x,
        };
        let (time, message) = split_once_space(rest2);
        let message = match message {
            None => {
                return Err(String::from_str("missing message"));
            },
            Some(x) => x,
        };
        let date_parts = parse_naive_date(date, DATE_FORMAT);
        let time_parts = parse_naive_time(time, TIME_FORMAT);
        let offset = match (&date_parts, &time_parts) {
            (Ok((y, mo, d)), Ok((h, mi, s, ns))) => local_offset(*y, *mo, *d, *h, *mi, *s, *ns),
            _ => None,
        };
        assemble_add(date_parts, time_parts, offset, message)
    } else if str_eq(first, "list") {
        Ok(ReminderCommand::List)
    } else if str_eq(first, "delete") {
        match rest {
            None => Err(String::from_str("missing id")),
            Some(id) => Ok(ReminderCommand::Delete { id: String::from_str(id) }),
        }
    } else {
        Err(String::from_str("Invalid argument"))
    }
}

} // verus!
