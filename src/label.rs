//! A text label and the cache that keeps its shaped layout between calls.

use vstd::prelude::*;
use crate::backend::TextBackend;
use crate::event::{Coord, Event};
use crate::geometry::Size;
use crate::widget::{RenderedWidget, Widget};

verus! {

/// A label consisting of text.
///
/// This widget is the atomic unit used to render text. It is a descriptor: it borrows its text
/// and owns no render state.
pub struct Label<'a> {
    /// The text to display.
    text: &'a str,
    /// The maximum width of the label, if any.
    max_width: Option<Coord>,
}

/// A shaped layout together with the inputs that determined it.
pub struct CachedLayout<L> {
    /// The text that was shaped.
    pub text: String,
    /// The width constraint that was applied.
    pub max_width: Option<Coord>,
    /// The layout the backend produced.
    pub layout: L,
    /// The layout's extent.
    pub size: Size,
}

/// The persistent state of a label: its shaped layout, if one has been built.
///
/// The cache is either empty or holds a layout together with the text and width constraint it
/// was shaped from; a label whose text and constraint equal those is served from the cache.
pub struct LabelCache<L> {
    entry: Option<CachedLayout<L>>,
}

impl<'a> Label<'a> {
    /// The text of the label.
    pub closed spec fn text_view(&self) -> Seq<char> {
        self.text@
    }

    /// The width constraint of the label.
    pub closed spec fn max_width_view(&self) -> Option<Coord> {
        self.max_width
    }

    /// A label showing `text`, without a width constraint.
    pub fn new(text: &'a str) -> (r: Label<'a>)
        ensures
            r.text_view() == text@,
            r.max_width_view() is None,
    {
        Label { text, max_width: None }
    }

    /// This label, wrapped at `max_width`.
    pub fn with_max_width(self, max_width: Coord) -> (r: Label<'a>)
        ensures
            r.text_view() == self.text_view(),
            r.max_width_view() == Some(max_width),
    {
        Label { text: self.text, max_width: Some(max_width) }
    }

    /// This label, without a width constraint.
    pub fn without_max_width(self) -> (r: Label<'a>)
        ensures
            r.text_view() == self.text_view(),
            r.max_width_view() is None,
    {
        Label { text: self.text, max_width: None }
    }

    /// The text of the label.
    pub fn text(&self) -> (r: &'a str)
        ensures
            r@ == self.text_view(),
    {
        self.text
    }

    /// The width constraint of the label.
    pub fn max_width(&self) -> (r: Option<Coord>)
        ensures
            r == self.max_width_view(),
    {
        self.max_width
    }
}

impl<L> LabelCache<L> {
    /// The cached entry, if any.
    pub closed spec fn entry_view(&self) -> Option<CachedLayout<L>> {
        self.entry
    }

    /// Whether the cache holds a layout shaped from exactly this label's text and constraint.
    pub open spec fn fresh_for(&self, label: Label) -> bool {
        match self.entry_view() {
            Some(e) => e.text@ == label.text_view() && e.max_width == label.max_width_view(),
            None => false,
        }
    }

    /// The extent of the cached layout, if any.
    pub open spec fn cached_size(&self) -> Option<Size> {
        match self.entry_view() {
            Some(e) => Some(e.size),
            None => None,
        }
    }

    /// An empty cache.
    pub fn new() -> (r: LabelCache<L>)
        ensures
            r.entry_view() is None,
    {
        LabelCache { entry: None }
    }

    /// Whether a layout is cached.
    pub fn is_populated(&self) -> (r: bool)
        ensures
            r == self.entry_view() is Some,
    {
        self.entry.is_some()
    }

    /// The extent of the cached layout, if any.
    pub fn size(&self) -> (r: Option<Size>)
        ensures
            r == self.cached_size(),
    {
        match &self.entry {
            Some(e) => Some(e.size),
            None => None,
        }
    }

    /// The cached layout, if any.
    pub fn layout(&self) -> (r: Option<&L>)
        ensures
            match self.entry_view() {
                Some(e) => r == Some(&e.layout),
                None => r is None,
            },
    {
        match &self.entry {
            Some(e) => Some(&e.layout),
            None => None,
        }
    }

    /// Whether the cache is fresh for `label`: the stored text and width constraint equal the
    /// label's.
    pub fn is_fresh_for(&self, label: &Label) -> (r: bool)
        ensures
            r == self.fresh_for(*label),
    {
        match &self.entry {
            Some(e) => {
                let wanted = label.text.to_owned();
                e.text == wanted && same_width(e.max_width, label.max_width)
            },
            None => false,
        }
    }

    /// Record the outcome of shaping `label`: a layout is stored with the label's text and
    /// constraint; a failure empties the cache and is handed back unchanged.
    pub fn store<E>(&mut self, label: &Label, shaped: Result<(L, Size), E>) -> (r: Result<(), E>)
        ensures
            match shaped {
                Ok((layout, size)) => {
                    &&& r is Ok
                    &&& final(self).fresh_for(*label)
                    &&& final(self).cached_size() == Some(size)
                    &&& final(self).entry_view()->0.layout == layout
                },
                Err(e) => {
                    &&& r == Err::<(), E>(e)
                    &&& final(self).entry_view() is None
                },
            },
    {
        match shaped {
            Ok((layout, size)) => {
                self.entry = Some(
                    CachedLayout { text: label.text.to_owned(), max_width: label.max_width, layout, size },
                );
                Ok(())
            },
            Err(e) => {
                self.entry = None;
                Err(e)
            },
        }
    }

    /// Make the cache fresh for `label`, shaping its text only when the cache is not already
    /// fresh for it.
    pub fn populate<B: TextBackend<Layout = L>>(&mut self, label: &Label, backend: &mut B) -> (r:
        Result<(), B::Error>)
        ensures
            populated(*label, *old(self), *final(self), *old(backend), *final(backend), r),
    {
        if self.is_fresh_for(label) {
            return Ok(());
        }
        let shaped = backend.shape_text(label.text, label.max_width);
        self.store(label, shaped)
    }
}

impl<'a> Widget for Label<'a> {
    type Immediate = ();

    /// A label has no interest in events: nothing changes and no redraw is needed.
    fn handle_event(&mut self, immediate: &mut (), event: Event) -> (r: bool)
        ensures
            !r,
            *final(self) == *old(self),
            *final(immediate) == *old(immediate),
    {
        false
    }
}

impl<'a, B: TextBackend> RenderedWidget<B> for Label<'a> {
    type Cache = LabelCache<B::Layout>;

    /// The label's extent: the extent of its shaped layout. Shapes the text only when the
    /// cache is not fresh for this label; a shaping failure is returned as is.
    fn rectangle(&self, cache: &mut LabelCache<B::Layout>, backend: &mut B) -> (r:
        Result<Size, B::Error>)
        ensures
            measured(*self, *old(cache), *final(cache), *old(backend), *final(backend), r),
    {
        match cache.populate(self, backend) {
            Ok(()) => Ok(cache.size().unwrap()),
            Err(e) => Err(e),
        }
    }

    /// Draw the label at its own origin, from the layout that `rectangle` measures. Shapes the
    /// text only when the cache is not fresh for this label; a backend failure is returned as
    /// is.
    fn render(
        &self,
        immediate: &(),
        cache: &mut LabelCache<B::Layout>,
        backend: &mut B,
    ) -> (r: Result<B::Output, B::Error>)
        ensures
            rendered(*self, *old(cache), *final(cache), *old(backend), *final(backend), r),
    {
        match cache.populate(self, backend) {
            Ok(()) => {
                let layout = cache.layout().unwrap();
                backend.draw_layout(layout)
            },
            Err(e) => Err(e),
        }
    }
}

/// Whether two width constraints are the same.
fn same_width(a: Option<Coord>, b: Option<Coord>) -> (r: bool)
    ensures
        r == (a == b),
{
    match (a, b) {
        (Some(x), Some(y)) => x.bits == y.bits,
        (None, None) => true,
        _ => false,
    }
}

/// What a miss leaves behind: the label's text and constraint were shaped once, from `b0` to
/// `b1`, and the cache `c1` holds what that shaping produced, or is empty if it failed.
pub open spec fn reshaped<B: TextBackend>(label: Label, c1: LabelCache<B::Layout>, b0: B, b1: B) -> bool {
    &&& b1.shaped() == b0.shaped().push((label.text_view(), label.max_width_view()))
    &&& match b1.last_shape() {
        Some(Ok((layout, size))) => {
            &&& c1.fresh_for(label)
            &&& c1.entry_view()->0.layout == layout
            &&& c1.cached_size() == Some(size)
        },
        Some(Err(_)) => c1.entry_view() is None,
        None => false,
    }
}

/// What a call of `populate` leaves behind, from the cache `c0` and backend `b0` to `c1`, `b1`.
///
/// Nothing is drawn. A cache that was fresh for the label is a hit: nothing changes and the
/// call succeeds. Otherwise the label is shaped once, and the call returns `Ok` or the
/// shaping's error as it came.
pub open spec fn populated<B: TextBackend>(
    label: Label,
    c0: LabelCache<B::Layout>,
    c1: LabelCache<B::Layout>,
    b0: B,
    b1: B,
    r: Result<(), B::Error>,
) -> bool {
    if c0.fresh_for(label) {
        &&& r is Ok
        &&& c1 == c0
        &&& b1 == b0
    } else {
        &&& reshaped(label, c1, b0, b1)
        &&& b1.drawn() == b0.drawn()
        &&& b1.last_draw() == b0.last_draw()
        &&& match b1.last_shape() {
            Some(Ok(_)) => r is Ok,
            Some(Err(e)) => r == Err::<(), B::Error>(e),
            None => false,
        }
    }
}

/// What a call of `rectangle` leaves behind, from the cache `c0` and backend `b0` to `c1`, `b1`.
///
/// Nothing is drawn. A cache that was fresh for the label is a hit: the cached extent is
/// returned and nothing changes. Otherwise the label is shaped once; the new layout's extent is
/// returned, or the shaping's error as it came.
pub open spec fn measured<B: TextBackend>(
    label: Label,
    c0: LabelCache<B::Layout>,
    c1: LabelCache<B::Layout>,
    b0: B,
    b1: B,
    r: Result<Size, B::Error>,
) -> bool {
    if c0.fresh_for(label) {
        &&& r == Ok::<Size, B::Error>(c0.cached_size()->0)
        &&& c1 == c0
        &&& b1 == b0
    } else {
        &&& reshaped(label, c1, b0, b1)
        &&& b1.drawn() == b0.drawn()
        &&& b1.last_draw() == b0.last_draw()
        &&& match b1.last_shape() {
            Some(Ok((_, size))) => r == Ok::<Size, B::Error>(size),
            Some(Err(e)) => r == Err::<Size, B::Error>(e),
            None => false,
        }
    }
}

/// What a call of `render` leaves behind, from the cache `c0` and backend `b0` to `c1`, `b1`.
///
/// A cache that was fresh for the label is used as it is: nothing is shaped. Otherwise the
/// label is shaped once. If a layout is at hand, the cached one is drawn once and the drawing's
/// outcome returned; if the shaping failed, nothing is drawn and its error is returned.
pub open spec fn rendered<B: TextBackend>(
    label: Label,
    c0: LabelCache<B::Layout>,
    c1: LabelCache<B::Layout>,
    b0: B,
    b1: B,
    r: Result<B::Output, B::Error>,
) -> bool {
    let drew = {
        &&& c1.fresh_for(label)
        &&& b1.drawn() == b0.drawn().push(c1.entry_view()->0.layout)
        &&& b1.last_draw() == Some(r)
    };
    if c0.fresh_for(label) {
        &&& c1 == c0
        &&& b1.shaped() == b0.shaped()
        &&& b1.last_shape() == b0.last_shape()
        &&& drew
    } else {
        &&& reshaped(label, c1, b0, b1)
        &&& match b1.last_shape() {
            Some(Ok(_)) => drew,
            Some(Err(e)) => {
                &&& r == Err::<B::Output, B::Error>(e)
                &&& b1.drawn() == b0.drawn()
                &&& b1.last_draw() == b0.last_draw()
            },
            None => false,
        }
    }
}

/// Measuring twice in succession with an unchanged label gives the same extent both times, and
/// the second call is served from the cache: it leaves both the cache and the backend as the
/// first call left them, so it shapes nothing.
pub proof fn lemma_measure_twice<B: TextBackend>(
    label: Label,
    c0: LabelCache<B::Layout>,
    c1: LabelCache<B::Layout>,
    c2: LabelCache<B::Layout>,
    b0: B,
    b1: B,
    b2: B,
    r1: Result<Size, B::Error>,
    r2: Result<Size, B::Error>,
)
    requires
        measured(label, c0, c1, b0, b1, r1),
        measured(label, c1, c2, b1, b2, r2),
        r1 is Ok,
    ensures
        r2 == r1,
        c2 == c1,
        b2 == b1,
        b2.shaped() == b1.shaped(),
{
}

/// Rendering twice in succession with an unchanged label shapes nothing in the second call, and
/// both calls draw the same layout.
pub proof fn lemma_render_twice<B: TextBackend>(
    label: Label,
    c0: LabelCache<B::Layout>,
    c1: LabelCache<B::Layout>,
    c2: LabelCache<B::Layout>,
    b0: B,
    b1: B,
    b2: B,
    r1: Result<B::Output, B::Error>,
    r2: Result<B::Output, B::Error>,
)
    requires
        rendered(label, c0, c1, b0, b1, r1),
        rendered(label, c1, c2, b1, b2, r2),
        r1 is Ok,
    ensures
        c2 == c1,
        b2.shaped() == b1.shaped(),
        b1.drawn().len() > 0,
        b2.drawn() == b1.drawn().push(b1.drawn().last()),
{
}

/// Rendering after a successful measurement with the same label shapes nothing and draws the
/// layout that was measured.
pub proof fn lemma_render_after_measure<B: TextBackend>(
    label: Label,
    c0: LabelCache<B::Layout>,
    c1: LabelCache<B::Layout>,
    c2: LabelCache<B::Layout>,
    b0: B,
    b1: B,
    b2: B,
    r1: Result<Size, B::Error>,
    r2: Result<B::Output, B::Error>,
)
    requires
        measured(label, c0, c1, b0, b1, r1),
        rendered(label, c1, c2, b1, b2, r2),
        r1 is Ok,
    ensures
        c2 == c1,
        c1.cached_size() == Some(r1->Ok_0),
        b2.shaped() == b1.shaped(),
        b2.drawn() == b1.drawn().push(c1.entry_view()->0.layout),
{
}

/// Changing the label's text or width constraint between two measurements makes the second
/// one shape the new label once; its outcome is what the second call returns, and a layout it
/// produced is what the cache then holds.
pub proof fn lemma_changed_label_reshapes<B: TextBackend>(
    l1: Label,
    l2: Label,
    c0: LabelCache<B::Layout>,
    c1: LabelCache<B::Layout>,
    c2: LabelCache<B::Layout>,
    b0: B,
    b1: B,
    b2: B,
    r1: Result<Size, B::Error>,
    r2: Result<Size, B::Error>,
)
    requires
        measured(l1, c0, c1, b0, b1, r1),
        measured(l2, c1, c2, b1, b2, r2),
        r1 is Ok,
        l1.text_view() != l2.text_view() || l1.max_width_view() != l2.max_width_view(),
    ensures
        !c1.fresh_for(l2),
        b2.shaped() == b1.shaped().push((l2.text_view(), l2.max_width_view())),
        r2 is Ok ==> {
            &&& b2.last_shape() == Some(Ok::<(B::Layout, Size), B::Error>((c2.entry_view()->0.layout, r2->Ok_0)))
            &&& c2.fresh_for(l2)
            &&& !c2.fresh_for(l1)
        },
        r2 is Err ==> b2.last_shape() == Some(Err::<(B::Layout, Size), B::Error>(r2->Err_0)),
{
}

/// Changing the label's text or width constraint between two renders makes the second one
/// shape the new label once and, if that succeeds, draw the new layout.
pub proof fn lemma_changed_label_redraws<B: TextBackend>(
    l1: Label,
    l2: Label,
    c0: LabelCache<B::Layout>,
    c1: LabelCache<B::Layout>,
    c2: LabelCache<B::Layout>,
    b0: B,
    b1: B,
    b2: B,
    r1: Result<B::Output, B::Error>,
    r2: Result<B::Output, B::Error>,
)
    requires
        rendered(l1, c0, c1, b0, b1, r1),
        rendered(l2, c1, c2, b1, b2, r2),
        r1 is Ok,
        l1.text_view() != l2.text_view() || l1.max_width_view() != l2.max_width_view(),
    ensures
        b2.shaped() == b1.shaped().push((l2.text_view(), l2.max_width_view())),
        match b2.last_shape() {
            Some(Ok((layout, _))) => b2.drawn() == b1.drawn().push(layout),
            _ => b2.drawn() == b1.drawn(),
        },
{
}

/// A failed shaping leaves the cache empty and is returned as it came, so the next call with
/// the same label is no cache hit: it shapes the label again.
pub proof fn lemma_failed_shaping_retries<B: TextBackend>(
    label: Label,
    c0: LabelCache<B::Layout>,
    c1: LabelCache<B::Layout>,
    c2: LabelCache<B::Layout>,
    b0: B,
    b1: B,
    b2: B,
    r1: Result<(), B::Error>,
    r2: Result<(), B::Error>,
)
    requires
        populated(label, c0, c1, b0, b1, r1),
        populated(label, c1, c2, b1, b2, r2),
        r1 is Err,
    ensures
        b1.last_shape() == Some(Err::<(B::Layout, Size), B::Error>(r1->Err_0)),
        c1.entry_view() is None,
        b2.shaped() == b1.shaped().push((label.text_view(), label.max_width_view())),
{
}

} // verus!
