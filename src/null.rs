//! The null context: renders nothing, receives no input, and exits after
//! one round.
use vstd::prelude::*;

use crate::engine::{as_unit, Context};
use crate::layouts::{Columns, Layers, Rows, Stacked};
use crate::output::{Error, Input, Outcome, Output};
use crate::wrappers::{Fixed, Max, Min, Offset};

verus! {

/// A widget that shows nothing and does nothing, but reports success.
#[derive(Clone, Copy, Debug, PartialEq, Eq, Structural)]
pub struct NullWidget;

impl Input<(), ()> for NullWidget {
    open spec fn handles(&self, after: Self, before: (), after_context: (), r: Outcome<Option<()>>) -> bool {
        r == Ok::<Option<()>, Error>(Some(())) && after == *self
    }

    fn handle(&mut self, context: &mut ()) -> (r: Outcome<Option<()>>) {
        Ok(Some(()))
    }
}

impl Output<(), ()> for NullWidget {
    open spec fn renders(&self, before: (), after: (), r: Outcome<Option<()>>) -> bool {
        r == Ok::<Option<()>, Error>(Some(()))
    }

    fn render(&self, context: &mut ()) -> (r: Outcome<Option<()>>) {
        Ok(Some(()))
    }
}

impl Output<(), ()> for String {
    open spec fn renders(&self, before: (), after: (), r: Outcome<Option<()>>) -> bool {
        r == Ok::<Option<()>, Error>(Some(()))
    }

    fn render(&self, context: &mut ()) -> (r: Outcome<Option<()>>) {
        Ok(Some(()))
    }
}

impl<'a> Output<(), ()> for &'a str {
    open spec fn renders(&self, before: (), after: (), r: Outcome<Option<()>>) -> bool {
        r == Ok::<Option<()>, Error>(Some(()))
    }

    fn render(&self, context: &mut ()) -> (r: Outcome<Option<()>>) {
        Ok(Some(()))
    }
}

impl<T, U> Input<T, U> for String {
    /// Text ignores input.
    open spec fn handles(&self, after: Self, before: T, after_context: T, r: Outcome<Option<U>>) -> bool {
        r == Ok::<Option<U>, Error>(None) && after == *self && after_context == before
    }

    fn handle(&mut self, context: &mut T) -> (r: Outcome<Option<U>>) {
        Ok(None)
    }
}

impl<'a, T, U> Input<T, U> for &'a str {
    /// Text ignores input.
    open spec fn handles(&self, after: Self, before: T, after_context: T, r: Outcome<Option<U>>) -> bool {
        r == Ok::<Option<U>, Error>(None) && after == *self && after_context == before
    }

    fn handle(&mut self, context: &mut T) -> (r: Outcome<Option<U>>) {
        Ok(None)
    }
}

impl<W: Output<(), ()>> Output<(), ()> for Fixed<W> {
    /// Layouts have nothing to arrange in the null context.
    open spec fn renders(&self, before: (), after: (), r: Outcome<Option<()>>) -> bool {
        r == Ok::<Option<()>, Error>(None)
    }

    fn render(&self, context: &mut ()) -> (r: Outcome<Option<()>>) {
        Ok(None)
    }
}

impl<W: Output<(), ()>> Output<(), ()> for Min<W> {
    /// Layouts have nothing to arrange in the null context.
    open spec fn renders(&self, before: (), after: (), r: Outcome<Option<()>>) -> bool {
        r == Ok::<Option<()>, Error>(None)
    }

    fn render(&self, context: &mut ()) -> (r: Outcome<Option<()>>) {
        Ok(None)
    }
}

impl<W: Output<(), ()>> Output<(), ()> for Max<W> {
    /// Layouts have nothing to arrange in the null context.
    open spec fn renders(&self, before: (), after: (), r: Outcome<Option<()>>) -> bool {
        r == Ok::<Option<()>, Error>(None)
    }

    fn render(&self, context: &mut ()) -> (r: Outcome<Option<()>>) {
        Ok(None)
    }
}

impl<W: Output<(), ()>> Output<(), ()> for Offset<W> {
    /// Layouts have nothing to arrange in the null context.
    open spec fn renders(&self, before: (), after: (), r: Outcome<Option<()>>) -> bool {
        r == Ok::<Option<()>, Error>(None)
    }

    fn render(&self, context: &mut ()) -> (r: Outcome<Option<()>>) {
        Ok(None)
    }
}

impl<'a> Output<(), ()> for Rows<'a, (), ()> {
    /// Layouts have nothing to arrange in the null context.
    open spec fn renders(&self, before: (), after: (), r: Outcome<Option<()>>) -> bool {
        r == Ok::<Option<()>, Error>(None)
    }

    fn render(&self, context: &mut ()) -> (r: Outcome<Option<()>>) {
        Ok(None)
    }
}

impl<'a> Output<(), ()> for Columns<'a, (), ()> {
    /// Layouts have nothing to arrange in the null context.
    open spec fn renders(&self, before: (), after: (), r: Outcome<Option<()>>) -> bool {
        r == Ok::<Option<()>, Error>(None)
    }

    fn render(&self, context: &mut ()) -> (r: Outcome<Option<()>>) {
        Ok(None)
    }
}

impl<'a> Output<(), ()> for Layers<'a, (), ()> {
    /// Layouts have nothing to arrange in the null context.
    open spec fn renders(&self, before: (), after: (), r: Outcome<Option<()>>) -> bool {
        r == Ok::<Option<()>, Error>(None)
    }

    fn render(&self, context: &mut ()) -> (r: Outcome<Option<()>>) {
        Ok(None)
    }
}

impl<'a> Output<(), ()> for Stacked<'a, (), ()> {
    /// Layouts have nothing to arrange in the null context.
    open spec fn renders(&self, before: (), after: (), r: Outcome<Option<()>>) -> bool {
        r == Ok::<Option<()>, Error>(None)
    }

    fn render(&self, context: &mut ()) -> (r: Outcome<Option<()>>) {
        Ok(None)
    }
}

impl Context for () {
    type Handled = ();
    type Rendered = ();

    open spec fn has_exited(&self) -> bool {
        true
    }

    open spec fn sets_up(before: (), after: (), r: Outcome<()>) -> bool {
        r == Ok::<(), Error>(())
    }

    open spec fn render_frame(before: (), after: (), ib: (), ia: (), inner: Outcome<Option<()>>, r: Outcome<()>) -> bool {
        r == as_unit(inner)
    }

    open spec fn handle_frame(before: (), after: (), ib: (), ia: (), inner: Outcome<Option<()>>, r: Outcome<()>) -> bool {
        r == as_unit(inner)
    }

    open spec fn handle_fails(before: (), after: (), r: Outcome<()>) -> bool {
        false
    }

    fn setup(&mut self) -> (r: Outcome<()>) {
        Ok(())
    }

    fn handle<W: Input<(), ()>>(&mut self, widget: &mut W) -> (r: Outcome<()>) {
        match widget.handle(self) {
            Ok(_) => Ok(()),
            Err(e) => Err(e),
        }
    }

    fn render<W: Output<(), ()>>(&mut self, widget: &W) -> (r: Outcome<()>) {
        match widget.render(self) {
            Ok(_) => Ok(()),
            Err(e) => Err(e),
        }
    }

    fn exited(&self) -> (r: bool) {
        true
    }
}

} // verus!
