//! Wrappers around a single widget that change the area it is offered.
use vstd::prelude::*;

use crate::layouts::{max16, reported, Size, Surface};
use crate::output::{Input, Outcome, Output};
use crate::space::{Align, Area};

verus! {

/// A widget that passes what it is given on to the widget it wraps.
pub trait Proxy<T> {
    /// The wrapped widget.
    spec fn proxied(&self) -> T;

    /// The wrapped widget.
    fn get(&self) -> (r: &T)
        ensures
            *r == self.proxied(),
    ;

    /// The wrapped widget, to change.
    fn get_mut(&mut self) -> (r: &mut T)
        ensures
            *r == old(self).proxied(),
            final(self).proxied() == *final(r),
    ;
}

/// The smaller of `a` and `b`.
pub open spec fn min16(a: u16, b: u16) -> u16 {
    if a <= b { a } else { b }
}

/// Whether rendering `widget` into `area` within the context `before`,
/// and then offering the earlier area again, may give `after` and the
/// widget's result `r`.
pub open spec fn renders_in<C: Surface, W: Output<C, Size>>(
    widget: W,
    area: Area,
    before: C,
    after: C,
    r: Outcome<Option<Size>>,
) -> bool {
    exists|mid: C|
        #[trigger] widget.renders(before.with_area(area), mid, r) && after == mid.with_area(
            before.surface_area(),
        )
}

/// The result reported for a wrapped widget whose own result was `inner`:
/// its measured size changed by `measure`, or its error as it is.
pub open spec fn remeasured(inner: Outcome<Option<Size>>, measured: Size) -> Outcome<Option<Size>> {
    match inner {
        Ok(_) => Ok(Some(measured)),
        Err(e) => Err(e),
    }
}

/// Renders `widget` into `area`, then offers `context` its earlier area again.
fn render_in<C: Surface, W: Output<C, Size>>(widget: &W, context: &mut C, area: Area) -> (r: Outcome<Option<Size>>)
    ensures
        renders_in(*widget, area, *old(context), *final(context), r),
        final(context).surface_area() == old(context).surface_area(),
{
    let outer = context.get_area();
    context.set_area(area);
    let r = widget.render(context);
    let ghost mid = *context;
    context.set_area(outer);
    assert(widget.renders(old(context).with_area(area), mid, r));
    r
}

/// Gives the wrapped widget an exact width, height, or both.
#[derive(Debug)]
pub enum Fixed<W> {
    /// The wrapped widget has a fixed width.
    X(u16, W),
    /// The wrapped widget has a fixed height.
    Y(u16, W),
    /// The wrapped widget has a fixed width and height.
    XY((u16, u16), W),
}

impl<W> Fixed<W> {
    /// `area` with the fixed extents put in.
    pub open spec fn fixed_area(&self, area: Area) -> Area {
        match self {
            Fixed::X(w, _) => Area(area.0, area.1, *w, area.3),
            Fixed::Y(h, _) => Area(area.0, area.1, area.2, *h),
            Fixed::XY((w, h), _) => Area(area.0, area.1, *w, *h),
        }
    }

    /// The size reported for a wrapped widget that measured `size`.
    pub open spec fn fixed_size(&self, size: Size) -> Size {
        match self {
            Fixed::X(w, _) => (*w, size.1),
            Fixed::Y(h, _) => (size.0, *h),
            Fixed::XY((w, h), _) => (*w, *h),
        }
    }

    /// The area offered to the wrapped widget within `area`.
    pub fn constrain(&self, area: Area) -> (r: Area)
        ensures
            r == self.fixed_area(area),
    {
        match self {
            Fixed::X(w, _) => Area(area.0, area.1, *w, area.3),
            Fixed::Y(h, _) => Area(area.0, area.1, area.2, *h),
            Fixed::XY((w, h), _) => Area(area.0, area.1, *w, *h),
        }
    }

    /// The size reported for a wrapped widget that measured `size`.
    pub fn measure(&self, size: Size) -> (r: Size)
        ensures
            r == self.fixed_size(size),
    {
        match self {
            Fixed::X(w, _) => (*w, size.1),
            Fixed::Y(h, _) => (size.0, *h),
            Fixed::XY((w, h), _) => (*w, *h),
        }
    }
}

impl<W> Proxy<W> for Fixed<W> {
    open spec fn proxied(&self) -> W {
        match self {
            Fixed::X(_, w) => *w,
            Fixed::Y(_, w) => *w,
            Fixed::XY(_, w) => *w,
        }
    }

    fn get(&self) -> (r: &W) {
        match self {
            Fixed::X(_, w) => w,
            Fixed::Y(_, w) => w,
            Fixed::XY(_, w) => w,
        }
    }

    fn get_mut(&mut self) -> (r: &mut W) {
        match self {
            Fixed::X(_, w) => w,
            Fixed::Y(_, w) => w,
            Fixed::XY(_, w) => w,
        }
    }
}

impl<C: Surface, W: Output<C, Size>> Output<C, Size> for Fixed<W> {
    /// Renders the wrapped widget into the fixed area and reports the fixed
    /// size; a wrapped widget that reports nothing counts as empty. Its
    /// error is returned as it is.
    open spec fn renders(&self, before: C, after: C, r: Outcome<Option<Size>>) -> bool {
        exists|inner: Outcome<Option<Size>>|
            #[trigger] renders_in(self.proxied(), self.fixed_area(before.surface_area()), before, after, inner)
            && r == remeasured(inner, self.fixed_size(reported(inner)))
    }

    fn render(&self, context: &mut C) -> (r: Outcome<Option<Size>>) {
        let area = self.constrain(context.get_area());
        let inner = render_in(self.get(), context, area);
        assert(renders_in(self.proxied(), self.fixed_area(old(context).surface_area()), *old(context), *context, inner));
        match inner {
            Ok(size) => {
                let size = match size {
                    Some(size) => size,
                    None => (0, 0),
                };
                Ok(Some(self.measure(size)))
            },
            Err(e) => Err(e),
        }
    }
}

/// Gives the wrapped widget at least a given width, height, or both.
#[derive(Debug)]
pub enum Min<W> {
    /// The wrapped widget is offered at least this width.
    X(u16, W),
    /// The wrapped widget is offered at least this height.
    Y(u16, W),
    /// The wrapped widget is offered at least this width and height.
    XY((u16, u16), W),
}

impl<W> Min<W> {
    /// `area` with its extents bounded.
    pub open spec fn bounded_area(&self, area: Area) -> Area {
        match self {
            Min::X(w, _) => Area(area.0, area.1, max16(area.2, *w), area.3),
            Min::Y(h, _) => Area(area.0, area.1, area.2, max16(area.3, *h)),
            Min::XY((w, h), _) => Area(area.0, area.1, max16(area.2, *w), max16(area.3, *h)),
        }
    }

    /// The area offered to the wrapped widget within `area`.
    pub fn constrain(&self, area: Area) -> (r: Area)
        ensures
            r == self.bounded_area(area),
    {
        match self {
            Min::X(w, _) => Area(area.0, area.1, area.2.max(*w), area.3),
            Min::Y(h, _) => Area(area.0, area.1, area.2, area.3.max(*h)),
            Min::XY((w, h), _) => Area(area.0, area.1, area.2.max(*w), area.3.max(*h)),
        }
    }
}

impl<W> Proxy<W> for Min<W> {
    open spec fn proxied(&self) -> W {
        match self {
            Min::X(_, w) => *w,
            Min::Y(_, w) => *w,
            Min::XY(_, w) => *w,
        }
    }

    fn get(&self) -> (r: &W) {
        match self {
            Min::X(_, w) => w,
            Min::Y(_, w) => w,
            Min::XY(_, w) => w,
        }
    }

    fn get_mut(&mut self) -> (r: &mut W) {
        match self {
            Min::X(_, w) => w,
            Min::Y(_, w) => w,
            Min::XY(_, w) => w,
        }
    }
}

impl<C: Surface, W: Output<C, Size>> Output<C, Size> for Min<W> {
    /// Renders the wrapped widget into the bounded area and returns its
    /// result as it is.
    open spec fn renders(&self, before: C, after: C, r: Outcome<Option<Size>>) -> bool {
        renders_in(self.proxied(), self.bounded_area(before.surface_area()), before, after, r)
    }

    fn render(&self, context: &mut C) -> (r: Outcome<Option<Size>>) {
        let area = self.constrain(context.get_area());
        render_in(self.get(), context, area)
    }
}

impl<C, H, W: Input<C, H>> Input<C, H> for Min<W> {
    /// Passes the input on to the wrapped widget.
    fn handle(&mut self, context: &mut C) -> (r: Outcome<Option<H>>) {
        self.get_mut().handle(context)
    }
}

/// Gives the wrapped widget at most a given width, height, or both.
#[derive(Debug)]
pub enum Max<W> {
    /// The wrapped widget is offered at most this width.
    X(u16, W),
    /// The wrapped widget is offered at most this height.
    Y(u16, W),
    /// The wrapped widget is offered at most this width and height.
    XY((u16, u16), W),
}

impl<W> Max<W> {
    /// `area` with its extents bounded.
    pub open spec fn bounded_area(&self, area: Area) -> Area {
        match self {
            Max::X(w, _) => Area(area.0, area.1, min16(area.2, *w), area.3),
            Max::Y(h, _) => Area(area.0, area.1, area.2, min16(area.3, *h)),
            Max::XY((w, h), _) => Area(area.0, area.1, min16(area.2, *w), min16(area.3, *h)),
        }
    }

    /// The area offered to the wrapped widget within `area`.
    pub fn constrain(&self, area: Area) -> (r: Area)
        ensures
            r == self.bounded_area(area),
    {
        match self {
            Max::X(w, _) => Area(area.0, area.1, area.2.min(*w), area.3),
            Max::Y(h, _) => Area(area.0, area.1, area.2, area.3.min(*h)),
            Max::XY((w, h), _) => Area(area.0, area.1, area.2.min(*w), area.3.min(*h)),
        }
    }
}

impl<W> Proxy<W> for Max<W> {
    open spec fn proxied(&self) -> W {
        match self {
            Max::X(_, w) => *w,
            Max::Y(_, w) => *w,
            Max::XY(_, w) => *w,
        }
    }

    fn get(&self) -> (r: &W) {
        match self {
            Max::X(_, w) => w,
            Max::Y(_, w) => w,
            Max::XY(_, w) => w,
        }
    }

    fn get_mut(&mut self) -> (r: &mut W) {
        match self {
            Max::X(_, w) => w,
            Max::Y(_, w) => w,
            Max::XY(_, w) => w,
        }
    }
}

impl<C: Surface, W: Output<C, Size>> Output<C, Size> for Max<W> {
    /// Renders the wrapped widget into the bounded area and returns its
    /// result as it is.
    open spec fn renders(&self, before: C, after: C, r: Outcome<Option<Size>>) -> bool {
        renders_in(self.proxied(), self.bounded_area(before.surface_area()), before, after, r)
    }

    fn render(&self, context: &mut C) -> (r: Outcome<Option<Size>>) {
        let area = self.constrain(context.get_area());
        render_in(self.get(), context, area)
    }
}

impl<C, H, W: Input<C, H>> Input<C, H> for Max<W> {
    /// Passes the input on to the wrapped widget.
    fn handle(&mut self, context: &mut C) -> (r: Outcome<Option<H>>) {
        self.get_mut().handle(context)
    }
}

impl<C, H, W: Input<C, H>> Input<C, H> for Fixed<W> {
    /// Passes the input on to the wrapped widget.
    fn handle(&mut self, context: &mut C) -> (r: Outcome<Option<H>>) {
        self.get_mut().handle(context)
    }
}

/// Renders the wrapped widget (the third field) in the area moved right by
/// the first field and down by the second, and shrunk by as much.
#[derive(Debug)]
pub struct Offset<W>(pub u16, pub u16, pub W);

impl<W> Proxy<W> for Offset<W> {
    open spec fn proxied(&self) -> W {
        self.2
    }

    fn get(&self) -> (r: &W) {
        &self.2
    }

    fn get_mut(&mut self) -> (r: &mut W) {
        &mut self.2
    }
}

impl<W> Offset<W> {
    /// The area offered to the wrapped widget within `area`: its size stops
    /// at zero, never wrapping around.
    pub fn constrain(&self, area: Area) -> (r: Area)
        ensures
            r == area.offset_spec(self.0, self.1),
    {
        area.offset(self.0, self.1)
    }
}

/// Moving an area never grows it, and an area of zero width and height
/// stays that size instead of wrapping around.
pub proof fn lemma_offset_saturates(area: Area, dx: u16, dy: u16)
    ensures
        area.offset_spec(dx, dy).2 <= area.2,
        area.offset_spec(dx, dy).3 <= area.3,
        area.2 == 0 ==> area.offset_spec(dx, dy).2 == 0,
        area.3 == 0 ==> area.offset_spec(dx, dy).3 == 0,
{
}

impl<C: Surface, W: Output<C, Size>> Output<C, Size> for Offset<W> {
    /// Renders the wrapped widget into the moved area and returns its
    /// result as it is.
    open spec fn renders(&self, before: C, after: C, r: Outcome<Option<Size>>) -> bool {
        renders_in(self.2, before.surface_area().offset_spec(self.0, self.1), before, after, r)
    }

    fn render(&self, context: &mut C) -> (r: Outcome<Option<Size>>) {
        let area = self.constrain(context.get_area());
        render_in(&self.2, context, area)
    }
}

impl<C, H, W: Input<C, H>> Input<C, H> for Offset<W> {
    /// Passes the input on to the wrapped widget.
    fn handle(&mut self, context: &mut C) -> (r: Outcome<Option<H>>) {
        self.get_mut().handle(context)
    }
}

/// Wraps a widget, applying alignment to it. The alignment is recorded; the
/// wrapped widget is offered the whole area.
#[derive(Debug)]
pub struct Aligned<W>(pub Align, pub W);

impl<W> Proxy<W> for Aligned<W> {
    open spec fn proxied(&self) -> W {
        self.1
    }

    fn get(&self) -> (r: &W) {
        &self.1
    }

    fn get_mut(&mut self) -> (r: &mut W) {
        &mut self.1
    }
}

impl<T, U, W: Output<T, U>> Output<T, U> for Aligned<W> {
    /// Renders the wrapped widget as it is.
    open spec fn renders(&self, before: T, after: T, r: Outcome<Option<U>>) -> bool {
        self.1.renders(before, after, r)
    }

    fn render(&self, context: &mut T) -> (r: Outcome<Option<U>>) {
        self.1.render(context)
    }
}

impl<C, H, W: Input<C, H>> Input<C, H> for Aligned<W> {
    /// Passes the input on to the wrapped widget.
    fn handle(&mut self, context: &mut C) -> (r: Outcome<Option<H>>) {
        self.get_mut().handle(context)
    }
}

} // verus!
