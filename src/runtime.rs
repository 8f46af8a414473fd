use vstd::prelude::*;

verus! {

/// One thing that became ready for the run loop: a window-system event, an
/// item emitted by the widget at a slot, or the end of that widget's stream.
pub enum Event<T, X, E> {
    System(X),
    Item(usize, Result<Vec<T>, E>),
    Ended(usize),
}

/// What the caller carries out after an event was dispatched.
pub enum Action<X, E> {
    /// Hand the window-system event to the render surface.
    Process(X),
    /// The slot's content was replaced: draw it again.
    Redraw(usize),
    /// The widget at the slot emitted an error: report it; nothing changed.
    WidgetFailed(usize, E),
    /// The widget's stream ended: the slot left the active set, and its
    /// content stays as it was last drawn.
    Dropped(usize),
    /// The event named no active slot and changed nothing.
    Ignored,
}

/// The state of the run loop: the content of each slot of the render
/// surface, and which slots still have a live widget stream.
pub struct RunModel<T> {
    pub contents: Seq<Vec<T>>,
    pub active: Seq<bool>,
}

impl<T> RunModel<T> {
    pub open spec fn wf(self) -> bool {
        self.contents.len() == self.active.len()
    }

    /// The slot exists and its widget's stream has not ended.
    pub open spec fn live(self, slot: usize) -> bool {
        slot < self.active.len() && self.active[slot as int]
    }
}

/// The state after dispatching one event: a successful item overwrites its
/// slot's content, the end of a stream removes its slot from the active set,
/// and everything else leaves the state as it was.
pub open spec fn step<T, X, E>(m: RunModel<T>, ev: Event<T, X, E>) -> RunModel<T> {
    match ev {
        Event::Item(slot, Ok(batch)) => if m.live(slot) {
            RunModel { contents: m.contents.update(slot as int, batch), active: m.active }
        } else {
            m
        },
        Event::Ended(slot) => if m.live(slot) {
            RunModel { contents: m.contents, active: m.active.update(slot as int, false) }
        } else {
            m
        },
        _ => m,
    }
}

/// The action that dispatching one event asks of the caller.
pub open spec fn action_of<T, X, E>(m: RunModel<T>, ev: Event<T, X, E>) -> Action<X, E> {
    match ev {
        Event::System(x) => Action::Process(x),
        Event::Item(slot, Ok(_)) => if m.live(slot) {
            Action::Redraw(slot)
        } else {
            Action::Ignored
        },
        Event::Item(slot, Err(e)) => if m.live(slot) {
            Action::WidgetFailed(slot, e)
        } else {
            Action::Ignored
        },
        Event::Ended(slot) => if m.live(slot) {
            Action::Dropped(slot)
        } else {
            Action::Ignored
        },
    }
}

/// The state after dispatching a sequence of events in order.
pub open spec fn run<T, X, E>(m: RunModel<T>, evs: Seq<Event<T, X, E>>) -> RunModel<T>
    decreases evs.len(),
{
    if evs.len() == 0 {
        m
    } else {
        run(step(m, evs[0]), evs.drop_first())
    }
}

/// The batches drawn into `slot`, in order, while a sequence of events is
/// dispatched.
pub open spec fn drawn<T, X, E>(m: RunModel<T>, evs: Seq<Event<T, X, E>>, slot: usize) -> Seq<
    Vec<T>,
>
    decreases evs.len(),
{
    if evs.len() == 0 {
        Seq::empty()
    } else {
        let next = step(m, evs[0]);
        let here = if action_of(m, evs[0]) == Action::<X, E>::Redraw(slot) {
            seq![next.contents[slot as int]]
        } else {
            Seq::empty()
        };
        here + drawn(next, evs.drop_first(), slot)
    }
}

/// The successful batches that the widget at `slot` emitted in a sequence of
/// events, in order, up to the end of its stream.
pub open spec fn emitted<T, X, E>(evs: Seq<Event<T, X, E>>, slot: usize) -> Seq<Vec<T>>
    decreases evs.len(),
{
    if evs.len() == 0 {
        Seq::empty()
    } else {
        match evs[0] {
            Event::Item(s, Ok(batch)) => if s == slot {
                seq![batch] + emitted(evs.drop_first(), slot)
            } else {
                emitted(evs.drop_first(), slot)
            },
            Event::Ended(s) => if s == slot {
                Seq::empty()
            } else {
                emitted(evs.drop_first(), slot)
            },
            _ => emitted(evs.drop_first(), slot),
        }
    }
}

/// The run loop's state, owned by one thread of control: the content of each
/// render-surface slot and the set of slots whose widget stream is live.
pub struct Runtime<T> {
    contents: Vec<Vec<T>>,
    active: Vec<bool>,
}

impl<T> View for Runtime<T> {
    type V = RunModel<T>;

    closed spec fn view(&self) -> RunModel<T> {
        RunModel { contents: self.contents@, active: self.active@ }
    }
}

impl<T> Runtime<T> {
    /// A run loop with no slots.
    pub fn new() -> (r: Self)
        ensures
            r@.wf(),
            r@.contents == Seq::<Vec<T>>::empty(),
            r@.active == Seq::<bool>::empty(),
    {
        Runtime { contents: Vec::new(), active: Vec::new() }
    }

    /// Allocates the next slot, with empty content and a live stream, and
    /// returns its number.
    pub fn register(&mut self) -> (slot: usize)
        requires
            old(self)@.wf(),
            old(self)@.active.len() < usize::MAX,
        ensures
            final(self)@.wf(),
            slot == old(self)@.active.len(),
            final(self)@.contents.len() == old(self)@.contents.len() + 1,
            final(self)@.contents.drop_last() == old(self)@.contents,
            final(self)@.contents.last()@ == Seq::<T>::empty(),
            final(self)@.active == old(self)@.active.push(true),
    {
        let slot = self.active.len();
        self.contents.push(Vec::new());
        self.active.push(true);
        proof {
            assert(self@.contents.drop_last() =~= old(self)@.contents);
        }
        slot
    }

    /// Dispatches one event: applies it to the state and says what the caller
    /// must do.
    pub fn handle<X, E>(&mut self, event: Event<T, X, E>) -> (r: Action<X, E>)
        requires
            old(self)@.wf(),
        ensures
            final(self)@.wf(),
            final(self)@ == step(old(self)@, event),
            r == action_of(old(self)@, event),
    {
        match event {
            Event::System(x) => Action::Process(x),
            Event::Item(slot, Ok(batch)) => {
                if self.is_active(slot) {
                    self.contents[slot] = batch;
                    Action::Redraw(slot)
                } else {
                    Action::Ignored
                }
            },
            Event::Item(slot, Err(e)) => {
                if self.is_active(slot) {
                    Action::WidgetFailed(slot, e)
                } else {
                    Action::Ignored
                }
            },
            Event::Ended(slot) => {
                if self.is_active(slot) {
                    self.active[slot] = false;
                    Action::Dropped(slot)
                } else {
                    Action::Ignored
                }
            },
        }
    }

    /// Whether `slot` exists and its widget's stream is live.
    pub fn is_active(&self, slot: usize) -> (r: bool)
        requires
            self@.wf(),
        ensures
            r == self@.live(slot),
    {
        slot < self.active.len() && self.active[slot]
    }

    /// The number of slots allocated.
    pub fn slot_count(&self) -> (r: usize)
        requires
            self@.wf(),
        ensures
            r == self@.contents.len(),
    {
        self.contents.len()
    }

    /// The current content of a slot.
    pub fn content(&self, slot: usize) -> (r: &Vec<T>)
        requires
            self@.wf(),
            slot < self@.contents.len(),
        ensures
            *r == self@.contents[slot as int],
    {
        &self.contents[slot]
    }
}

} // verus!
