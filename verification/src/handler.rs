//! Messages, the actions that handlers request, and the router that picks a handler.
use vstd::prelude::*;

verus! {

/// A message.
pub struct Message {
    pub body: String,
    pub from: String,
}

/// The content of a message.
pub struct MessageView {
    pub body: Seq<char>,
    pub from: Seq<char>,
}

impl View for Message {
    type V = MessageView;

    open spec fn view(&self) -> MessageView {
        MessageView { body: self.body@, from: self.from@ }
    }
}

/// The requested action given a processed message.
pub enum Action {
    /// The handler wants to reply directly to the received message.
    Reply(String),
}

/// The content of an action.
pub enum ActionView {
    Reply(Seq<char>),
}

impl View for Action {
    type V = ActionView;

    open spec fn view(&self) -> ActionView {
        match self {
            Action::Reply(s) => ActionView::Reply(s@),
        }
    }
}

/// The contents of a list of actions.
pub open spec fn actions_view(actions: Seq<Action>) -> Seq<ActionView> {
    actions.map_values(|a: Action| a@)
}

/// A message handler.
pub trait Handler {
    /// Whether this handler takes a message with this content.
    spec fn wants_spec(&self, msg: MessageView) -> bool;

    /// Whether `out` is a possible outcome of processing a message with this content.
    spec fn process_spec(&self, msg: MessageView, out: Seq<ActionView>) -> bool;

    /// Return the name of the handler. Useful for logging.
    fn name(&self) -> &str;

    /// Returns true if this handler wants to process this message.
    fn wants(&self, msg: &Message) -> (r: bool)
        ensures
            r == self.wants_spec(msg@),
    ;

    /// Process a message that this handler wants into actions.
    fn process(&self, msg: &Message) -> (r: Vec<Action>)
        requires
            self.wants_spec(msg@),
        ensures
            self.process_spec(msg@, actions_view(r@)),
    ;
}

/// The message router.
pub struct Router {
    /// The dispatch table.
    pub handlers: Vec<Box<dyn Handler>>,
}

/// Handler `i` of `hs` is the first one that wants `msg`.
pub open spec fn first_taker(hs: Seq<Box<dyn Handler>>, msg: MessageView, i: int) -> bool {
    &&& 0 <= i < hs.len()
    &&& hs[i].wants_spec(msg)
    &&& forall|j: int| 0 <= j < i ==> !(#[trigger] hs[j].wants_spec(msg))
}

/// `hs2` is `hs` with one more handler put at position `j`.
pub open spec fn inserted_at(hs: Seq<Box<dyn Handler>>, hs2: Seq<Box<dyn Handler>>, j: int) -> bool {
    &&& 0 <= j <= hs.len()
    &&& hs2.len() == hs.len() + 1
    &&& forall|i: int| 0 <= i < j ==> #[trigger] hs2[i] == hs[i]
    &&& forall|i: int| j <= i < hs.len() ==> #[trigger] hs2[i + 1] == hs[i]
}

/// Putting a handler at position `j` does not change which handler takes a message when the
/// new handler does not want it, or when a handler before position `j` wants it: the same
/// handler (now perhaps one place later) takes it, and no handler takes it exactly when none
/// did before. Since `dispatch` answers with what the taking handler gives, its outcomes stay
/// the same.
pub proof fn law_dispatch_insert(
    hs: Seq<Box<dyn Handler>>,
    hs2: Seq<Box<dyn Handler>>,
    j: int,
    msg: MessageView,
)
    requires
        inserted_at(hs, hs2, j),
        !hs2[j].wants_spec(msg) || exists|k: int| 0 <= k < j && #[trigger] hs[k].wants_spec(msg),
    ensures
        (forall|i: int| 0 <= i < hs.len() ==> !(#[trigger] hs[i].wants_spec(msg))) <==> (forall|
            i: int,
        | 0 <= i < hs2.len() ==> !(#[trigger] hs2[i].wants_spec(msg))),
        forall|i: int|
            #![trigger first_taker(hs, msg, i)]
            first_taker(hs, msg, i) ==> first_taker(
                hs2,
                msg,
                if i < j {
                    i
                } else {
                    i + 1
                },
            ),
        forall|i2: int|
            #![trigger first_taker(hs2, msg, i2)]
            first_taker(hs2, msg, i2) ==> i2 != j && first_taker(
                hs,
                msg,
                if i2 < j {
                    i2
                } else {
                    i2 - 1
                },
            ),
{
    assert forall|i: int| j < i < hs2.len() implies #[trigger] hs2[i] == hs[i - 1] by {
        assert(hs2[(i - 1) + 1] == hs[i - 1]);
    }
    if forall|i: int| 0 <= i < hs.len() ==> !(#[trigger] hs[i].wants_spec(msg)) {
        assert forall|i: int| 0 <= i < hs2.len() implies !(#[trigger] hs2[i].wants_spec(msg)) by {
            if i < j {
                assert(hs2[i] == hs[i]);
            } else if i > j {
                assert(hs2[i] == hs[i - 1]);
            } else if hs2[j].wants_spec(msg) {
                let k = choose|k: int| 0 <= k < j && #[trigger] hs[k].wants_spec(msg);
                assert(!hs[k].wants_spec(msg));
            }
        }
    }
    if forall|i: int| 0 <= i < hs2.len() ==> !(#[trigger] hs2[i].wants_spec(msg)) {
        assert forall|i: int| 0 <= i < hs.len() implies !(#[trigger] hs[i].wants_spec(msg)) by {
            if i < j {
                assert(hs2[i] == hs[i]);
            } else {
                assert(hs2[i + 1] == hs[i]);
            }
        }
    }
    assert forall|i: int| #![trigger first_taker(hs, msg, i)] first_taker(hs, msg, i) implies first_taker(
        hs2,
        msg,
        if i < j {
            i
        } else {
            i + 1
        },
    ) by {
        let i2 = if i < j {
            i
        } else {
            i + 1
        };
        if i < j {
            assert(hs2[i] == hs[i]);
        } else {
            assert(hs2[i + 1] == hs[i]);
            assert(!hs2[j].wants_spec(msg)) by {
                if hs2[j].wants_spec(msg) {
                    let k = choose|k: int| 0 <= k < j && #[trigger] hs[k].wants_spec(msg);
                    assert(!hs[k].wants_spec(msg));
                }
            }
        }
        assert forall|k: int| 0 <= k < i2 implies !(#[trigger] hs2[k].wants_spec(msg)) by {
            if k < j {
                assert(hs2[k] == hs[k]);
            } else if k > j {
                assert(hs2[k] == hs[k - 1]);
            }
        }
    }
    assert forall|i2: int| #![trigger first_taker(hs2, msg, i2)] first_taker(hs2, msg, i2) implies i2
        != j && first_taker(
        hs,
        msg,
        if i2 < j {
            i2
        } else {
            i2 - 1
        },
    ) by {
        if i2 == j {
            let k = choose|k: int| 0 <= k < j && #[trigger] hs[k].wants_spec(msg);
            assert(hs2[k] == hs[k]);
            assert(!hs2[k].wants_spec(msg));
        }
        let i = if i2 < j {
            i2
        } else {
            i2 - 1
        };
        if i2 < j {
            assert(hs2[i2] == hs[i]);
        } else {
            assert(hs2[i + 1] == hs[i]);
        }
        assert forall|k: int| 0 <= k < i implies !(#[trigger] hs[k].wants_spec(msg)) by {
            if k < j {
                assert(hs2[k] == hs[k]);
            } else {
                assert(hs2[k + 1] == hs[k]);
            }
        }
    }
}

impl Router {
    /// Hands the message to the first handler that wants it and returns that handler's actions;
    /// no actions when no handler wants it.
    pub fn dispatch(&self, msg: &Message) -> (r: Vec<Action>)
        ensures
            (forall|i: int| 0 <= i < self.handlers@.len() ==> !(#[trigger] self.handlers@[i].wants_spec(msg@)))
                ==> r@.len() == 0,
            (exists|i: int| 0 <= i < self.handlers@.len() && #[trigger] self.handlers@[i].wants_spec(msg@))
                ==> exists|i: int|
                #![trigger self.handlers@[i]]
                first_taker(self.handlers@, msg@, i) && self.handlers@[i].process_spec(
                    msg@,
                    actions_view(r@),
                ),
    {
        let mut i: usize = 0;
        while i < self.handlers.len()
            invariant
                i <= self.handlers@.len(),
                forall|j: int| 0 <= j < i ==> !(#[trigger] self.handlers@[j].wants_spec(msg@)),
            decreases self.handlers@.len() - i,
        {
            if self.handlers[i].wants(msg) {
                let r = self.handlers[i].process(msg);
                assert(first_taker(self.handlers@, msg@, i as int));
                return r;
            }
            i = i + 1;
        }
        Vec::new()
    }
}

} // verus!
