//! The mathematical model of dispatch: which slots respond when a signal
//! is emitted, and the laws that selection obeys.
//!
//! A registry is modelled as a sequence of connections, each a pair of a
//! signal name and a slot. Emitting pairs a name with a payload shape;
//! the slots selected are exactly those connected under that name whose
//! declared shape equals the payload's shape, in registry order.

use vstd::prelude::*;

use crate::slots::{Shape, Slot, SlotArgs, arg_shape, slot_shape};

verus! {

/// Whether one connection responds to an emit of `signal` carrying a
/// payload of shape `shape`.
pub open spec fn connection_matches(conn: (Seq<char>, Slot), signal: Seq<char>, shape: Shape) -> bool {
    conn.0 == signal && slot_shape(conn.1) == shape
}

/// The selection predicate for one emit, as a function value.
pub open spec fn match_pred(signal: Seq<char>, shape: Shape) -> spec_fn((Seq<char>, Slot)) -> bool {
    |conn: (Seq<char>, Slot)| connection_matches(conn, signal, shape)
}

/// The slot of a connection, as a function value.
pub open spec fn conn_slot() -> spec_fn((Seq<char>, Slot)) -> Slot {
    |conn: (Seq<char>, Slot)| conn.1
}

/// The slots a registry selects for one emit: those of the matching
/// connections, in registry order.
pub open spec fn selected_slots(conns: Seq<(Seq<char>, Slot)>, signal: Seq<char>, shape: Shape) -> Seq<Slot> {
    conns.filter(match_pred(signal, shape)).map_values(conn_slot())
}

/// How many connections of a registry match one emit.
pub open spec fn matching_count(conns: Seq<(Seq<char>, Slot)>, signal: Seq<char>, shape: Shape) -> nat {
    conns.filter(match_pred(signal, shape)).len()
}

/// Every element of a filtered sequence is an element of the sequence
/// it was filtered from.
proof fn lemma_filter_elems<A>(s: Seq<A>, pred: spec_fn(A) -> bool, k: int)
    requires
        0 <= k < s.filter(pred).len(),
    ensures
        s.contains(s.filter(pred)[k]),
    decreases s.len(),
{
    reveal(Seq::filter);
    if s.len() != 0 {
        let rest = s.drop_last();
        if k < rest.filter(pred).len() {
            lemma_filter_elems(rest, pred, k);
            let j = choose|j: int| 0 <= j < rest.len() && rest[j] == rest.filter(pred)[k];
            assert(s[j] == s.filter(pred)[k]);
        } else {
            assert(s[s.len() - 1] == s.filter(pred)[k]);
        }
    }
}

/// Appending a connection extends the selection by that connection's slot
/// when it matches the emit, and leaves the selection unchanged when it
/// does not: each connect call adds at most one invocation to a later
/// emit's fan-out.
pub proof fn lemma_selected_push(
    conns: Seq<(Seq<char>, Slot)>,
    conn: (Seq<char>, Slot),
    signal: Seq<char>,
    shape: Shape,
)
    ensures
        connection_matches(conn, signal, shape) ==> selected_slots(conns.push(conn), signal, shape)
            == selected_slots(conns, signal, shape).push(conn.1),
        !connection_matches(conn, signal, shape) ==> selected_slots(conns.push(conn), signal, shape)
            == selected_slots(conns, signal, shape),
{
    reveal(Seq::filter);
    let pred = match_pred(signal, shape);
    let grown = conns.push(conn);
    assert(grown.drop_last() =~= conns);
    assert(grown.last() == conn);
    if connection_matches(conn, signal, shape) {
        assert(grown.filter(pred) == conns.filter(pred).push(conn));
        assert(grown.filter(pred).map_values(conn_slot()) =~= conns.filter(pred).map_values(
            conn_slot(),
        ).push(conn.1));
    } else {
        assert(grown.filter(pred) == conns.filter(pred));
    }
}

/// Shape-matching law: a slot is among those selected for an emit of
/// `signal` carrying `args` exactly when some connection pairs `signal`
/// with that slot and the slot's declared shape equals the payload's
/// shape; a slot of any other shape is never selected.
pub proof fn lemma_shape_matching(
    conns: Seq<(Seq<char>, Slot)>,
    signal: Seq<char>,
    args: SlotArgs,
    slot: Slot,
)
    ensures
        selected_slots(conns, signal, arg_shape(args)).contains(slot) <==> ((exists|j: int|
            0 <= j < conns.len() && conns[j] == (signal, slot)) && slot_shape(slot) == arg_shape(
            args,
        )),
{
    let shape = arg_shape(args);
    let pred = match_pred(signal, shape);
    let picked = conns.filter(pred);
    let chosen = selected_slots(conns, signal, shape);
    if chosen.contains(slot) {
        let k = choose|k: int| 0 <= k < chosen.len() && chosen[k] == slot;
        assert(picked[k] == (picked[k].0, picked[k].1));
        assert(pred(picked[k])) by {
            conns.lemma_filter_pred(pred, k);
        }
        lemma_filter_elems(conns, pred, k);
        let j = choose|j: int| 0 <= j < conns.len() && conns[j] == picked[k];
        assert(conns[j] == (signal, slot));
    }
    if (exists|j: int| 0 <= j < conns.len() && conns[j] == (signal, slot)) && slot_shape(slot)
        == shape {
        let j = choose|j: int| 0 <= j < conns.len() && conns[j] == (signal, slot);
        assert(pred(conns[j]));
        assert(picked.contains(conns[j])) by {
            conns.lemma_filter_contains(pred, j);
        }
        let k = choose|k: int| 0 <= k < picked.len() && picked[k] == conns[j];
        assert(chosen[k] == slot);
    }
}

/// Fan-out law: one emit selects exactly one invocation per matching
/// connection, so the fan-out of an emit equals the number of matching
/// connections in the registry.
pub proof fn lemma_fanout_count(conns: Seq<(Seq<char>, Slot)>, signal: Seq<char>, shape: Shape)
    ensures
        selected_slots(conns, signal, shape).len() == matching_count(conns, signal, shape),
{
}

/// Unknown-signal law: emitting a name that no connection carries selects
/// nothing, whatever the payload.
pub proof fn lemma_unknown_signal(conns: Seq<(Seq<char>, Slot)>, signal: Seq<char>, shape: Shape)
    requires
        forall|j: int| 0 <= j < conns.len() ==> (#[trigger] conns[j]).0 != signal,
    ensures
        selected_slots(conns, signal, shape) == Seq::<Slot>::empty(),
{
    let pred = match_pred(signal, shape);
    let picked = conns.filter(pred);
    if picked.len() > 0 {
        conns.lemma_filter_pred(pred, 0);
        lemma_filter_elems(conns, pred, 0);
        let j = choose|j: int| 0 <= j < conns.len() && conns[j] == picked[0];
        assert(pred(conns[j]));
    }
    assert(selected_slots(conns, signal, shape) =~= Seq::<Slot>::empty());
}

} // verus!
