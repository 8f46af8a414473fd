use vstd::prelude::*;

use crate::config::{Offset, Position};
use crate::runtime::Runtime;

verus! {

/// The bar being configured: where it goes, how wide it is, and the widgets
/// it shows, from left to right in the order they were added.
///
/// Once configured, [`Cnx::launch`] hands over the widgets, each paired with
/// the slot it is drawn in, and the run loop's state.
pub struct Cnx<W> {
    position: Position,
    widgets: Vec<W>,
    offset: Offset,
    width: Option<u16>,
}

/// What a configured bar holds.
pub struct CnxModel<W> {
    pub position: Position,
    pub widgets: Seq<W>,
    pub offset: Offset,
    pub width: Option<u16>,
}

impl<W> View for Cnx<W> {
    type V = CnxModel<W>;

    closed spec fn view(&self) -> CnxModel<W> {
        CnxModel {
            position: self.position,
            widgets: self.widgets@,
            offset: self.offset,
            width: self.width,
        }
    }
}

/// A bar whose render surface is connected: the surface, the run loop's
/// state with one live slot per widget, and each widget with its slot.
pub struct Launch<W, S, T> {
    pub surface: S,
    pub runtime: Runtime<T>,
    pub widgets: Vec<(usize, W)>,
}

impl<W> Cnx<W> {
    /// A bar at the given edge of the screen, with no widgets, at offset
    /// zero and with no fixed width.
    pub fn new(position: Position) -> (r: Self)
        ensures
            r@.position == position,
            r@.widgets == Seq::<W>::empty(),
            r@.offset == (Offset { x: 0, y: 0 }),
            r@.width == None::<u16>,
    {
        let widgets = Vec::new();
        Cnx { position, widgets, offset: Offset::default(), width: None }
    }

    /// The same bar with the given width.
    pub fn with_width(self, width: Option<u16>) -> (r: Self)
        ensures
            r@ == (CnxModel { width, ..self@ }),
    {
        Cnx { width, ..self }
    }

    /// The same bar with the given offset.
    pub fn with_offset(self, x: i16, y: i16) -> (r: Self)
        ensures
            r@ == (CnxModel { offset: Offset { x, y }, ..self@ }),
    {
        Cnx { offset: Offset { x, y }, ..self }
    }

    /// Adds a widget to the right of those already added.
    pub fn add_widget(&mut self, widget: W)
        ensures
            final(self)@ == (CnxModel { widgets: old(self)@.widgets.push(widget), ..old(self)@ }),
    {
        self.widgets.push(widget);
    }

    /// The edge of the screen the bar is drawn along.
    pub fn position(&self) -> (r: Position)
        ensures
            r == self@.position,
    {
        self.position
    }

    /// The bar's offset from the screen's origin.
    pub fn offset(&self) -> (r: Offset)
        ensures
            r == self@.offset,
    {
        self.offset
    }

    /// The bar's fixed width, if it has one.
    pub fn width(&self) -> (r: Option<u16>)
        ensures
            r == self@.width,
    {
        self.width
    }

    /// The number of widgets added so far.
    pub fn widget_count(&self) -> (r: usize)
        ensures
            r == self@.widgets.len(),
    {
        self.widgets.len()
    }

    /// Starts the bar on the outcome of connecting its render surface.
    ///
    /// When the connection failed, its error is returned and no widget is
    /// handed out, so no widget stream is ever made or polled. Otherwise the
    /// widgets come back in the order they were added, the widget at index
    /// `i` paired with slot `i`, and the run loop has exactly one live slot
    /// per widget, each with empty content.
    pub fn launch<S, E, T>(self, surface: Result<S, E>) -> (r: Result<Launch<W, S, T>, E>)
        ensures
            surface is Err <==> r is Err,
            surface matches Err(e) ==> r == Err::<Launch<W, S, T>, E>(e),
            r matches Ok(l) ==> {
                &&& surface == Ok::<S, E>(l.surface)
                &&& l.runtime@.wf()
                &&& l.runtime@.contents.len() == self@.widgets.len()
                &&& l.widgets@.len() == self@.widgets.len()
                &&& forall|i: int|
                    0 <= i < self@.widgets.len() ==> #[trigger] l.widgets@[i] == (
                        i as usize,
                        self@.widgets[i],
                    )
                &&& forall|i: int|
                    0 <= i < self@.widgets.len() ==> #[trigger] l.runtime@.active[i]
                &&& forall|i: int|
                    0 <= i < self@.widgets.len() ==> (#[trigger] l.runtime@.contents[i])@
                        == Seq::<T>::empty()
            },
    {
        let surface = match surface {
            Ok(s) => s,
            Err(e) => {
                return Err(e);
            },
        };
        let ghost all = self@.widgets;
        let mut rest = self.widgets;
        let mut runtime: Runtime<T> = Runtime::new();
        let mut widgets: Vec<(usize, W)> = Vec::new();
        let n = rest.len();
        let mut i: usize = 0;
        while i < n
            invariant
                n == all.len(),
                i <= n,
                rest@ == all.subrange(i as int, n as int),
                runtime@.wf(),
                runtime@.contents.len() == i,
                widgets@.len() == i,
                forall|k: int| 0 <= k < i ==> #[trigger] widgets@[k] == (k as usize, all[k]),
                forall|k: int| 0 <= k < i ==> #[trigger] runtime@.active[k],
                forall|k: int| 0 <= k < i ==> (#[trigger] runtime@.contents[k])@ == Seq::<T>::empty(),
            decreases n - i,
        {
            let widget = rest.remove(0);
            let ghost before = runtime@;
            let slot = runtime.register();
            proof {
                assert(runtime@.contents[i as int] == runtime@.contents.last());
                assert forall|k: int| 0 <= k < i implies runtime@.contents[k] == before.contents[k] by {
                    assert(runtime@.contents.drop_last()[k] == runtime@.contents[k]);
                }
                assert forall|k: int| 0 <= k <= i implies (#[trigger] runtime@.contents[k])@
                    == Seq::<T>::empty() by {
                    if k < i {
                        assert(before.contents[k]@ == Seq::<T>::empty());
                    }
                }
            }
            widgets.push((slot, widget));
            i = i + 1;
            proof {
                assert(rest@ =~= all.subrange(i as int, n as int));
            }
        }
        Ok(Launch { surface, runtime, widgets })
    }
}

} // verus!
