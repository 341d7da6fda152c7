//! The main loop: set a context up, then render the widget tree into it and
//! let it handle the next input, until the context reports that it exited.
use vstd::prelude::*;

use crate::output::{Error, Input, Outcome, Output};

verus! {

/// Where a main loop stands.
#[derive(Clone, Copy, Debug, PartialEq, Eq, Structural)]
pub enum Phase {
    /// The context is not set up yet.
    Setup,
    /// The widget is to be rendered.
    Render,
    /// The widget is to handle the next input.
    Handle,
    /// The context reported that it exited; nothing more happens.
    Exited,
}

/// The phase after a successful step from `phase`, where the context then
/// reports `exited`.
pub open spec fn next_phase(phase: Phase, exited: bool) -> Phase {
    match phase {
        Phase::Setup => Phase::Render,
        Phase::Render => Phase::Handle,
        Phase::Handle => if exited { Phase::Exited } else { Phase::Render },
        Phase::Exited => Phase::Exited,
    }
}

/// A widget's result as the result of a context operation: success, or
/// the widget's error as it is.
pub open spec fn as_unit<T>(r: Outcome<Option<T>>) -> Outcome<()> {
    match r {
        Ok(_) => Ok(()),
        Err(e) => Err(e),
    }
}

/// A step's result after its context operation gave `r`: `next` on
/// success, the operation's error as it is otherwise.
pub open spec fn continue_with(r: Outcome<()>, next: Phase) -> Outcome<Phase> {
    match r {
        Ok(()) => Ok(next),
        Err(e) => Err(e),
    }
}

/// The phase after input was handled: exited where the context says so,
/// rendering again otherwise.
pub open spec fn after_handle(exited: bool) -> Phase {
    if exited { Phase::Exited } else { Phase::Render }
}

/// A backend that widgets render into and receive input from.
pub trait Context: Sized {
    /// What handling input reports.
    type Handled;
    /// What rendering reports.
    type Rendered;

    /// Whether the context has exited.
    spec fn has_exited(&self) -> bool;

    /// Whether setting up may turn `before` into `after` with the result `r`.
    spec fn sets_up(before: Self, after: Self, r: Outcome<()>) -> bool;

    /// Whether rendering may turn `before` into `after` with the result `r`,
    /// where the widget rendered from `inner_before` to `inner_after` with
    /// the result `inner`.
    spec fn render_frame(
        before: Self,
        after: Self,
        inner_before: Self,
        inner_after: Self,
        inner: Outcome<Option<Self::Rendered>>,
        r: Outcome<()>,
    ) -> bool;

    /// Whether handling may turn `before` into `after` with the result `r`,
    /// where the widget handled input from `inner_before` to `inner_after`
    /// with the result `inner`.
    spec fn handle_frame(
        before: Self,
        after: Self,
        inner_before: Self,
        inner_after: Self,
        inner: Outcome<Option<Self::Handled>>,
        r: Outcome<()>,
    ) -> bool;

    /// Whether handling may fail before any input reaches the widget,
    /// turning `before` into `after` with the result `r`.
    spec fn handle_fails(before: Self, after: Self, r: Outcome<()>) -> bool;

    /// One-time preparation before the first render.
    fn setup(&mut self) -> (r: Outcome<()>)
        ensures
            Self::sets_up(*old(self), *final(self), r),
    ;

    /// Wait for the next input and let `widget` handle it.
    fn handle<W: Input<Self, Self::Handled>>(&mut self, widget: &mut W) -> (r: Outcome<()>)
        ensures
            Self::handle_fails(*old(self), *final(self), r) && *final(widget) == *old(widget)
                || exists|ib: Self, ia: Self, ir: Outcome<Option<Self::Handled>>|
                #[trigger] old(widget).handles(*final(widget), ib, ia, ir) && Self::handle_frame(
                    *old(self),
                    *final(self),
                    ib,
                    ia,
                    ir,
                    r,
                ),
    ;

    /// Render `widget`.
    fn render<W: Output<Self, Self::Rendered>>(&mut self, widget: &W) -> (r: Outcome<()>)
        ensures
            exists|ib: Self, ia: Self, ir: Outcome<Option<Self::Rendered>>|
                #[trigger] widget.renders(ib, ia, ir) && Self::render_frame(
                    *old(self),
                    *final(self),
                    ib,
                    ia,
                    ir,
                    r,
                ),
    ;

    /// Whether the main loop should stop.
    fn exited(&self) -> (r: bool)
        ensures
            r == self.has_exited(),
    ;
}

/// Provides the steps of the UI's main loop: set up, then render and handle
/// input in turn until the context exits after handling. A driver starts at
/// `Phase::Setup`, calls `step` with the phase that the previous step
/// returned until that is `Phase::Exited` or a step fails, and then takes
/// the context back. Between steps it may do the context's outside work,
/// such as flushing what was rendered before input is awaited.
pub trait MainLoop<T> {
    /// Take one step of the main loop from `phase`, returning the next phase.
    fn step(&mut self, context: &mut T, phase: Phase) -> Outcome<Phase>;
}

impl<X, A> MainLoop<A> for X where A: Context, X: Input<A, A::Handled> + Output<A, A::Rendered> {
    /// From `Setup`, sets the context up; from `Render`, renders this
    /// widget; from `Handle`, lets it handle the next input and then asks
    /// the context whether it exited; from `Exited`, does nothing. A failure
    /// of the context operation is returned as it is.
    fn step(&mut self, context: &mut A, phase: Phase) -> (r: Outcome<Phase>)
        ensures
            phase == Phase::Setup ==> *final(self) == *old(self) && exists|s: Outcome<()>|
                #[trigger] A::sets_up(*old(context), *final(context), s) && r == continue_with(s, Phase::Render),
            phase == Phase::Render ==> *final(self) == *old(self) && exists|
                ib: A,
                ia: A,
                ir: Outcome<Option<A::Rendered>>,
                s: Outcome<()>,
            |
                old(self).renders(ib, ia, ir) && #[trigger] A::render_frame(*old(context), *final(context), ib, ia, ir, s)
                    && r == continue_with(s, Phase::Handle),
            phase == Phase::Handle ==> exists|s: Outcome<()>|
                #![trigger continue_with(s, after_handle(final(context).has_exited()))]
                (A::handle_fails(*old(context), *final(context), s) && *final(self) == *old(self)
                    || exists|ib: A, ia: A, ir: Outcome<Option<A::Handled>>|
                    #[trigger] old(self).handles(*final(self), ib, ia, ir) && A::handle_frame(
                        *old(context),
                        *final(context),
                        ib,
                        ia,
                        ir,
                        s,
                    )) && r == continue_with(s, after_handle(final(context).has_exited())),
            phase == Phase::Exited ==> r == Ok::<Phase, Error>(Phase::Exited) && *final(context) == *old(
                context,
            ) && *final(self) == *old(self),
    {
        match phase {
            Phase::Setup => {
                let s = context.setup();
                match s {
                    Ok(()) => Ok(Phase::Render),
                    Err(e) => Err(e),
                }
            },
            Phase::Render => {
                let s = context.render(&*self);
                match s {
                    Ok(()) => Ok(Phase::Handle),
                    Err(e) => Err(e),
                }
            },
            Phase::Handle => {
                let s = context.handle(self);
                let r = match s {
                    Ok(()) => if context.exited() {
                        Ok(Phase::Exited)
                    } else {
                        Ok(Phase::Render)
                    },
                    Err(e) => Err(e),
                };
                assert(r == continue_with(s, after_handle(context.has_exited())));
                r
            },
            Phase::Exited => Ok(Phase::Exited),
        }
    }
}

} // verus!
