use vstd::prelude::*;

use crate::runtime::{Action, Event, RunModel, action_of, drawn, emitted, step};

verus! {

/// Dispatching any event keeps the state well formed, and a slot whose stream
/// has ended never becomes live again.
pub proof fn lemma_step_keeps_shape<T, X, E>(m: RunModel<T>, ev: Event<T, X, E>, slot: usize)
    requires
        m.wf(),
    ensures
        step(m, ev).wf(),
        step(m, ev).contents.len() == m.contents.len(),
        !m.live(slot) ==> !step(m, ev).live(slot),
{
}

/// Once a slot is no longer live, nothing more is drawn into it.
pub proof fn lemma_nothing_drawn_after_end<T, X, E>(
    m: RunModel<T>,
    evs: Seq<Event<T, X, E>>,
    slot: usize,
)
    requires
        m.wf(),
        !m.live(slot),
    ensures
        drawn(m, evs, slot) == Seq::<Vec<T>>::empty(),
    decreases evs.len(),
{
    if evs.len() > 0 {
        lemma_step_keeps_shape(m, evs[0], slot);
        lemma_nothing_drawn_after_end(step(m, evs[0]), evs.drop_first(), slot);
        assert(action_of(m, evs[0]) != Action::<X, E>::Redraw(slot));
        assert(drawn(m, evs, slot) =~= Seq::<Vec<T>>::empty());
    }
}

/// Per-widget order: for any interleaving of widget items, stream ends and
/// system events, the batches drawn into a live slot are exactly the
/// successful batches its widget emitted, in the order it emitted them, up to
/// the end of its stream.
pub proof fn lemma_slot_updates_in_emission_order<T, X, E>(
    m: RunModel<T>,
    evs: Seq<Event<T, X, E>>,
    slot: usize,
)
    requires
        m.wf(),
        m.live(slot),
    ensures
        drawn(m, evs, slot) == emitted(evs, slot),
    decreases evs.len(),
{
    if evs.len() > 0 {
        let ev = evs[0];
        let next = step(m, ev);
        let rest = evs.drop_first();
        lemma_step_keeps_shape(m, ev, slot);
        match ev {
            Event::Ended(s) => {
                if s == slot {
                    lemma_nothing_drawn_after_end(next, rest, slot);
                    assert(drawn(m, evs, slot) =~= Seq::<Vec<T>>::empty());
                } else {
                    lemma_slot_updates_in_emission_order(next, rest, slot);
                    assert(drawn(m, evs, slot) =~= drawn(next, rest, slot));
                }
            },
            Event::Item(s, Ok(batch)) => {
                lemma_slot_updates_in_emission_order(next, rest, slot);
                if s == slot {
                    assert(next.contents[slot as int] == batch);
                } else {
                    assert(drawn(m, evs, slot) =~= drawn(next, rest, slot));
                }
            },
            _ => {
                lemma_slot_updates_in_emission_order(next, rest, slot);
                assert(drawn(m, evs, slot) =~= drawn(next, rest, slot));
            },
        }
    }
}

/// Isolation: a failing item from the widget at `slot` changes no slot's
/// content, leaves every stream live that was live (its own included, so its
/// later items are still applied), and is reported for that slot alone.
pub proof fn lemma_failed_item_is_isolated<T, X, E>(m: RunModel<T>, slot: usize, err: E)
    requires
        m.wf(),
    ensures
        step(m, Event::<T, X, E>::Item(slot, Err(err))) == m,
        forall|s: usize| #[trigger]
            m.live(s) ==> step(m, Event::<T, X, E>::Item(slot, Err(err))).live(s),
        m.live(slot) ==> action_of(m, Event::<T, X, E>::Item(slot, Err(err))) == Action::<
            X,
            E,
        >::WidgetFailed(slot, err),
{
}

/// Replacing a slot's content twice with the same batch leaves the same state
/// as replacing it once: an update overwrites and never accumulates.
pub proof fn lemma_update_is_idempotent<T, X, E>(m: RunModel<T>, slot: usize, batch: Vec<T>)
    requires
        m.wf(),
    ensures
        step(
            step(m, Event::<T, X, E>::Item(slot, Ok(batch))),
            Event::<T, X, E>::Item(slot, Ok(batch)),
        ) == step(m, Event::<T, X, E>::Item(slot, Ok(batch))),
{
    if m.live(slot) {
        let once = step(m, Event::<T, X, E>::Item(slot, Ok(batch)));
        assert(once.contents.update(slot as int, batch) =~= once.contents);
    }
}

/// A system event and a widget event that are ready together are each
/// handled exactly once, with the same actions and the same final state,
/// whichever of the two is serviced first.
pub proof fn lemma_system_event_commutes<T, X, E>(
    m: RunModel<T>,
    x: X,
    ev: Event<T, X, E>,
)
    requires
        m.wf(),
        !(ev is System),
    ensures
        step(step(m, Event::<T, X, E>::System(x)), ev) == step(
            step(m, ev),
            Event::<T, X, E>::System(x),
        ),
        action_of(m, Event::<T, X, E>::System(x)) == Action::<X, E>::Process(x),
        action_of(step(m, ev), Event::<T, X, E>::System(x)) == Action::<X, E>::Process(x),
        action_of(step(m, Event::<T, X, E>::System(x)), ev) == action_of(m, ev),
{
}

} // verus!
