//! Which configured rooms the bot joins once it is online, with what status, and which room
//! messages it shows.
use vstd::prelude::*;


verus! {

/// Whether `xmpp::jid::BareJid::from_str` accepts `s`.
pub uninterp spec fn is_bare_jid(s: Seq<char>) -> bool;

/// `xmpp::jid::BareJid::from_str(s).is_ok()`. Claims that the answer is `is_bare_jid` of the
/// text.
#[verifier::external_body]
pub(crate) fn bare_jid_ok(s: &str) -> (r: bool)
    ensures
        r == is_bare_jid(s@),
{
    <xmpp::jid::BareJid as std::str::FromStr>::from_str(s).is_ok()
}

/// The positions `0, 1, .., n - 1`.
pub open spec fn positions(n: nat) -> Seq<usize> {
    Seq::new(n, |i: int| i as usize)
}

/// The positions of the rooms in `rooms` that name a room by its bare JID, in order.
pub open spec fn joinable(rooms: Seq<Seq<char>>) -> Seq<usize> {
    positions(rooms.len()).filter(|i: usize| is_bare_jid(rooms[i as int]))
}

/// The positions kept from `0, 1, .., n - 1` by any test lie below `n` and strictly increase.
proof fn lemma_positions_increase(n: nat, p: spec_fn(usize) -> bool)
    requires
        n <= usize::MAX,
    ensures
        forall|k: int|
            0 <= k < positions(n).filter(p).len() ==> (#[trigger] positions(n).filter(p)[k]) < n,
        forall|a: int, b: int|
            0 <= a < b < positions(n).filter(p).len() ==> (#[trigger] positions(n).filter(p)[a])
                < (#[trigger] positions(n).filter(p)[b]),
    decreases n,
{
    reveal_with_fuel(Seq::<usize>::filter, 1);
    if n > 0 {
        let m = (n - 1) as nat;
        lemma_positions_increase(m, p);
        let s = positions(n);
        assert(s.drop_last() =~= positions(m));
        assert(s.last() == m as usize);
        let f = s.filter(p);
        let sub = positions(m).filter(p);
        assert(f == if p(m as usize) {
            sub.push(m as usize)
        } else {
            sub
        });
        assert forall|k: int| 0 <= k < f.len() implies (#[trigger] f[k]) < n by {
            if k < sub.len() {
                assert(f[k] == sub[k]);
            }
        }
        assert forall|a: int, b: int| 0 <= a < b < f.len() implies (#[trigger] f[a]) < (
        #[trigger] f[b]) by {
            assert(f[a] == sub[a]);
            if b < sub.len() {
                assert(f[b] == sub[b]);
            }
        }
    }
}

/// The rooms joined are exactly the configured rooms named by a bare JID: a position is in the
/// list if and only if its room is a bare JID, every position is a room's, and the positions
/// keep the configured order.
pub proof fn law_joins_every_bare_jid_room(rooms: Seq<Seq<char>>)
    requires
        rooms.len() <= usize::MAX,
    ensures
        forall|i: int|
            0 <= i < rooms.len() ==> (joinable(rooms).contains(i as usize) <==> is_bare_jid(
                #[trigger] rooms[i],
            )),
        forall|k: int| 0 <= k < joinable(rooms).len() ==> (#[trigger] joinable(rooms)[k]) < rooms.len(),
        forall|a: int, b: int|
            0 <= a < b < joinable(rooms).len() ==> (#[trigger] joinable(rooms)[a]) < (
            #[trigger] joinable(rooms)[b]),
{
    let s = positions(rooms.len());
    let p = |i: usize| is_bare_jid(rooms[i as int]);
    lemma_positions_increase(rooms.len(), p);
    s.filter_lemma(p);
    assert forall|i: int| 0 <= i < rooms.len() implies (joinable(rooms).contains(i as usize)
        <==> is_bare_jid(#[trigger] rooms[i])) by {
        assert(s[i] == i as usize);
        if joinable(rooms).contains(i as usize) {
            let k = choose|k: int| 0 <= k < joinable(rooms).len() && joinable(rooms)[k] == i as usize;
            assert(p(joinable(rooms)[k]));
        }
    }
}

/// The configured rooms, by content.
pub open spec fn rooms_view(rooms: Seq<String>) -> Seq<Seq<char>> {
    rooms.map_values(|r: String| r@)
}

/// The positions of the rooms to join, in configured order: exactly those that are bare JIDs
/// (the others are reported and skipped).
pub fn rooms_to_join(rooms: &Vec<String>) -> (r: Vec<usize>)
    ensures
        r@ == joinable(rooms_view(rooms@)),
{
    let ghost rv = rooms_view(rooms@);
    let ghost pred = |i: usize| is_bare_jid(rv[i as int]);
    let n = rooms.len();
    let mut r: Vec<usize> = Vec::new();
    let mut i: usize = 0;
    while i < n
        invariant
            n == rooms@.len(),
            rv == rooms_view(rooms@),
            pred == (|i: usize| is_bare_jid(rv[i as int])),
            i <= n,
            r@ == positions(i as nat).filter(pred),
        decreases n - i,
    {
        proof {
            reveal_with_fuel(Seq::<usize>::filter, 1);
        }
        let ok = bare_jid_ok(rooms[i].as_str());
        assert(rv[i as int] == rooms@[i as int]@);
        let ghost s = positions((i + 1) as nat);
        assert(s.drop_last() =~= positions(i as nat));
        assert(s.last() == i);
        if ok {
            r.push(i);
        }
        i = i + 1;
    }
    r
}

/// The status the bot announces when it joins a room: the configured one, or empty.
pub fn join_status(status: &Option<String>) -> (r: String)
    ensures
        r@ == match status {
            Some(x) => x@,
            None => ""@,
        },
{
    match status {
        Some(x) => x.clone(),
        None => {
            proof {
                reveal_strlit("");
            }
            String::new()
        },
    }
}

/// Whether a room message is shown: only messages that arrive live, not ones replayed with
/// delay information.
pub fn shows_room_message(delay_count: usize) -> (r: bool)
    ensures
        r == (delay_count == 0),
{
    delay_count == 0
}

} // verus!
