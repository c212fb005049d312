//! The backend contract that decouples widgets from a drawing engine.

use vstd::prelude::*;
use crate::event::Coord;
use crate::geometry::Size;

verus! {

/// The backend for rendering widgets.
pub trait Backend {
    /// The error type for rendering; it must be readable when reported.
    type Error: core::fmt::Debug + core::fmt::Display;

    /// The result of a rendering operation.
    type Output;
}

/// The text primitives that a drawing engine offers to text widgets.
pub trait TextEngine: Backend {
    /// A shaped text layout, ready to be drawn.
    type Layout;

    /// Shape `text`, wrapping it at `max_width` when one is given. Returns the layout with its
    /// extent in whole device units.
    fn shape_text(&mut self, text: &str, max_width: Option<Coord>) -> Result<
        (Self::Layout, Size),
        Self::Error,
    >;

    /// Draw a layout at the widget's own origin.
    fn draw_layout(&mut self, layout: &Self::Layout) -> Result<Self::Output, Self::Error>;
}

/// The text primitives that text widgets draw through, as their contracts see them.
///
/// Contracts speak of a backend through a log of what it was asked to do: every text shaped
/// (with its width constraint) and every layout drawn, in order, and the outcome of the last
/// shaping and of the last drawing. An implementation keeps that log as ghost state.
pub trait TextBackend: Backend {
    /// A shaped text layout, ready to be drawn.
    type Layout;

    /// The texts shaped so far, each with the width constraint it was shaped under.
    spec fn shaped(&self) -> Seq<(Seq<char>, Option<Coord>)>;

    /// What the last shaping returned, if any shaping happened.
    spec fn last_shape(&self) -> Option<Result<(Self::Layout, Size), Self::Error>>;

    /// The layouts drawn so far.
    spec fn drawn(&self) -> Seq<Self::Layout>;

    /// What the last drawing returned, if any drawing happened.
    spec fn last_draw(&self) -> Option<Result<Self::Output, Self::Error>>;

    /// Shape `text`, wrapping it at `max_width` when one is given. Returns the layout with its
    /// extent in whole device units.
    fn shape_text(&mut self, text: &str, max_width: Option<Coord>) -> (r: Result<
        (Self::Layout, Size),
        Self::Error,
    >)
        ensures
            final(self).shaped() == old(self).shaped().push((text@, max_width)),
            final(self).last_shape() == Some(r),
            final(self).drawn() == old(self).drawn(),
            final(self).last_draw() == old(self).last_draw(),
    ;

    /// Draw a layout at the widget's own origin.
    fn draw_layout(&mut self, layout: &Self::Layout) -> (r: Result<Self::Output, Self::Error>)
        ensures
            final(self).drawn() == old(self).drawn().push(*layout),
            final(self).last_draw() == Some(r),
            final(self).shaped() == old(self).shaped(),
            final(self).last_shape() == old(self).last_shape(),
    ;
}

/// A text engine together with the log of what it was asked to do.
pub struct LoggedBackend<E: TextEngine> {
    engine: E,
    shaped: Ghost<Seq<(Seq<char>, Option<Coord>)>>,
    last_shape: Ghost<Option<Result<(E::Layout, Size), E::Error>>>,
    drawn: Ghost<Seq<E::Layout>>,
    last_draw: Ghost<Option<Result<E::Output, E::Error>>>,
}

impl<E: TextEngine> LoggedBackend<E> {
    /// The engine that does the work.
    pub closed spec fn engine_view(&self) -> E {
        self.engine
    }

    /// A backend over `engine`, with an empty log.
    pub fn new(engine: E) -> (r: LoggedBackend<E>)
        ensures
            r.engine_view() == engine,
            r.shaped() == Seq::<(Seq<char>, Option<Coord>)>::empty(),
            r.last_shape() is None,
            r.drawn() == Seq::<E::Layout>::empty(),
            r.last_draw() is None,
    {
        LoggedBackend {
            engine,
            shaped: Ghost(Seq::empty()),
            last_shape: Ghost(None),
            drawn: Ghost(Seq::empty()),
            last_draw: Ghost(None),
        }
    }

    /// The engine that does the work.
    pub fn engine(&self) -> (r: &E)
        ensures
            *r == self.engine_view(),
    {
        &self.engine
    }

    /// The engine, giving up the log.
    pub fn into_engine(self) -> (r: E)
        ensures
            r == self.engine_view(),
    {
        self.engine
    }
}

impl<E: TextEngine> Backend for LoggedBackend<E> {
    type Error = E::Error;

    type Output = E::Output;
}

impl<E: TextEngine> TextBackend for LoggedBackend<E> {
    type Layout = E::Layout;

    closed spec fn shaped(&self) -> Seq<(Seq<char>, Option<Coord>)> {
        self.shaped@
    }

    closed spec fn last_shape(&self) -> Option<Result<(E::Layout, Size), E::Error>> {
        self.last_shape@
    }

    closed spec fn drawn(&self) -> Seq<E::Layout> {
        self.drawn@
    }

    closed spec fn last_draw(&self) -> Option<Result<E::Output, E::Error>> {
        self.last_draw@
    }

    fn shape_text(&mut self, text: &str, max_width: Option<Coord>) -> (r: Result<
        (E::Layout, Size),
        E::Error,
    >) {
        let r = self.engine.shape_text(text, max_width);
        self.shaped = Ghost(self.shaped@.push((text@, max_width)));
        self.last_shape = Ghost(Some(r));
        r
    }

    fn draw_layout(&mut self, layout: &E::Layout) -> (r: Result<E::Output, E::Error>) {
        let r = self.engine.draw_layout(layout);
        self.drawn = Ghost(self.drawn@.push(*layout));
        self.last_draw = Ghost(Some(r));
        r
    }
}

} // verus!
