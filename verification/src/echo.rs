//! The echo handler: replies with the text that follows its prefix.
use vstd::prelude::*;

use crate::handler::{actions_view, Action, ActionView, Handler, Message, MessageView};
use crate::text::{has_prefix, skip_chars, starts_with, trim, trim_str};
use vstd::string::StrSliceExecFns;
use vstd::string::StringExecFns;

verus! {

/// The prefix that addresses the echo handler.
pub const ECHO_HANDLER_PREFIX: &'static str = "@echo";

/// The reply text for a message body that starts with the echo prefix.
pub open spec fn echo_reply(body: Seq<char>) -> Seq<char> {
    "echo: "@ + trim(body.skip(ECHO_HANDLER_PREFIX@.len() as int))
}

/// The echo reply repeats the text after the prefix unchanged when that text starts and ends
/// with a visible ASCII character (a letter, digit or punctuation mark): `"@echo hello!"` is
/// answered `"echo: hello!"`.
pub proof fn law_echo_repeats_visible_text(rest: Seq<char>)
    requires
        rest.len() > 0,
        0x21 <= (rest[0] as u32) <= 0x7e,
        0x21 <= (rest.last() as u32) <= 0x7e,
    ensures
        echo_reply(ECHO_HANDLER_PREFIX@ + rest) == "echo: "@ + rest,
{
    let body = ECHO_HANDLER_PREFIX@ + rest;
    assert(body.skip(ECHO_HANDLER_PREFIX@.len() as int) =~= rest);
    crate::text::law_ascii_white_space(rest[0]);
    crate::text::law_ascii_white_space(rest.last());
    crate::text::law_trim_keeps_unpadded(rest);
}

/// Replies with the message text after the prefix, trimmed.
pub struct EchoHandler;

impl Handler for EchoHandler {
    open spec fn wants_spec(&self, msg: MessageView) -> bool {
        has_prefix(msg.body, ECHO_HANDLER_PREFIX@)
    }

    open spec fn process_spec(&self, msg: MessageView, out: Seq<ActionView>) -> bool {
        out == seq![ActionView::Reply(echo_reply(msg.body))]
    }

    fn name(&self) -> (r: &str)
        ensures
            r@ == "EchoHandler"@,
    {
        "EchoHandler"
    }

    fn wants(&self, msg: &Message) -> (r: bool) {
        starts_with(msg.body.as_str(), ECHO_HANDLER_PREFIX)
    }

    fn process(&self, msg: &Message) -> (r: Vec<Action>) {
        let rest = skip_chars(msg.body.as_str(), ECHO_HANDLER_PREFIX.unicode_len());
        let mut text = String::from_str("echo: ");
        text.append(trim_str(rest));
        let ghost t = text@;
        let r = vec![Action::Reply(text)];
        assert(actions_view(r@) =~= seq![ActionView::Reply(t)]);
        r
    }
}

} // verus!
