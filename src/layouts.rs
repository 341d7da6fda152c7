//! Layout combinators: stacks of widgets along an axis, and wrappers that
//! fix, bound, move or align the area a single widget is offered.
use vstd::prelude::*;

use crate::collect::{Collected, Collection, Collectible, Collector};
use crate::focus::{selected_item, Focus, FocusState};
use crate::output::{Error, Input, Outcome, Output};
use crate::space::{fits, sat_add, sat_sub, Align, Area, Axis};

verus! {

broadcast use vstd::std_specs::vec::axiom_spec_len;

/// A measured size: width and height.
pub type Size = (u16, u16);

/// A context that offers a rectangular area to render into.
pub trait Surface: Sized {
    /// The area currently offered.
    spec fn surface_area(&self) -> Area;

    /// This context, offering `area` instead and otherwise unchanged.
    spec fn with_area(&self, area: Area) -> Self;

    /// The area currently offered.
    fn get_area(&self) -> (r: Area)
        ensures
            r == self.surface_area(),
    ;

    /// Offer another area.
    fn set_area(&mut self, area: Area)
        ensures
            *final(self) == old(self).with_area(area),
            final(self).surface_area() == area,
    ;
}

/// The larger of `a` and `b`.
pub open spec fn max16(a: u16, b: u16) -> u16 {
    if a >= b { a } else { b }
}

/// The extent of a stack after adding a child of measured size `size` to
/// a stack of extent `extent`: along the axis the sizes add up (stopping at
/// the largest `u16`), across it the larger one counts. Layers overlap.
pub open spec fn advance(axis: Axis, extent: Size, size: Size) -> Size {
    match axis {
        Axis::X => (sat_add(extent.0, size.0), max16(extent.1, size.1)),
        Axis::Y => (max16(extent.0, size.0), sat_add(extent.1, size.1)),
        Axis::Z => (max16(extent.0, size.0), max16(extent.1, size.1)),
    }
}

/// The extent of a stack whose children measured `sizes`, in render order.
pub open spec fn stack_extent(axis: Axis, sizes: Seq<Size>) -> Size
    decreases sizes.len(),
{
    if sizes.len() == 0 {
        (0, 0)
    } else {
        advance(axis, stack_extent(axis, sizes.drop_last()), sizes.last())
    }
}

/// The number of children, as far as a `u16` can count.
pub open spec fn count16(n: nat) -> u16 {
    if n <= u16::MAX { n as u16 } else { u16::MAX }
}

/// The least area that a stack of `n` children asks for, as an error
/// reports it: one cell per child along the axis, one across it; one cell
/// for layers.
pub open spec fn stack_min(axis: Axis, n: nat) -> Size {
    match axis {
        Axis::X => (count16(n), 1),
        Axis::Y => (1, count16(n)),
        Axis::Z => (1, 1),
    }
}

/// Whether `area` offers a stack of `n` children one cell per child along
/// the axis and one across it (one cell for layers).
pub open spec fn stack_fits(axis: Axis, area: Area, n: nat) -> bool {
    match axis {
        Axis::X => area.2 >= n && area.3 >= 1,
        Axis::Y => area.2 >= 1 && area.3 >= n,
        Axis::Z => area.2 >= 1 && area.3 >= 1,
    }
}

/// The area offered to a child of a stack whose earlier children extend to
/// `extent`: moved along the axis by as much; layers all get the whole area.
pub open spec fn child_area(axis: Axis, area: Area, extent: Size) -> Area {
    match axis {
        Axis::X => area.offset_spec(extent.0, 0),
        Axis::Y => area.offset_spec(0, extent.1),
        Axis::Z => area,
    }
}

/// Which child renders in step `i` of `n`: in declaration order along X
/// and Y, in reverse for layers, so that the first layer is painted last.
pub open spec fn render_index(axis: Axis, n: nat, i: nat) -> int {
    if axis == Axis::Z { n - 1 - i } else { i as int }
}

/// What a child's result counts as in the stack's extent: its report, or
/// nothing.
pub open spec fn reported(r: Outcome<Option<Size>>) -> Size {
    match r {
        Ok(Some(size)) => size,
        _ => (0, 0),
    }
}

/// One child's render: the context it was offered, the context after, and
/// the result.
pub type StackStep<C> = (C, C, Outcome<Option<Size>>);

/// What the children of `trace` reported, in render order.
pub open spec fn reports<C>(trace: Seq<StackStep<C>>) -> Seq<Size> {
    trace.map_values(|step: StackStep<C>| reported(step.2))
}

/// The context after the steps of `trace`, starting from `before`.
pub open spec fn trace_end<C>(before: C, trace: Seq<StackStep<C>>) -> C {
    if trace.len() == 0 { before } else { trace.last().1 }
}

/// Whether `trace` is how the first children of a stack of `items` along
/// `axis` in `area` may render, starting from the context `before`: each
/// in render order, after every earlier one succeeded, offered the area
/// moved along the axis by the extent of the earlier reports, and rendering
/// as that child renders.
pub open spec fn stack_trace<'a, C: Surface>(
    axis: Axis,
    items: Seq<Collected<'a, C, Size>>,
    area: Area,
    before: C,
    trace: Seq<StackStep<C>>,
) -> bool
    decreases trace.len(),
{
    if trace.len() == 0 {
        true
    } else {
        let prefix = trace.drop_last();
        let step = trace.last();
        &&& stack_trace(axis, items, area, before, prefix)
        &&& prefix.len() < items.len()
        &&& (prefix.len() > 0 ==> prefix.last().2 is Ok)
        &&& step.0 == trace_end(before, prefix).with_area(
            child_area(axis, area, stack_extent(axis, reports(prefix))),
        )
        &&& items[render_index(axis, items.len(), prefix.len())].renders(step.0, step.1, step.2)
    }
}

/// What rendering a stack of `items` along `axis` may do to the context
/// `before`, giving `after` and `r`. Where the area offered is too small,
/// nothing is rendered and the result is an insufficient-space error.
/// Otherwise the children render as `stack_trace` says, and either all
/// succeed and the result is the extent of their reports, or the last one
/// rendered failed and its error is the result; the area is offered again
/// at the end.
pub open spec fn stack_renders<'a, C: Surface>(
    axis: Axis,
    items: Seq<Collected<'a, C, Size>>,
    before: C,
    after: C,
    r: Outcome<Option<Size>>,
) -> bool {
    let area = before.surface_area();
    let min = stack_min(axis, items.len());
    if !stack_fits(axis, area, items.len()) {
        r == Err::<Option<Size>, Error>(Error::NoSpace(area, min.0, min.1)) && after == before
    } else {
        exists|trace: Seq<StackStep<C>>|
            #[trigger] stack_trace(axis, items, area, before, trace)
            && after == trace_end(before, trace).with_area(area)
            && (trace.len() == items.len() && (trace.len() == 0 || trace.last().2 is Ok)
                && r == Ok::<Option<Size>, Error>(Some(stack_extent(axis, reports(trace))))
            || trace.len() > 0 && trace.last().2 is Err && r == trace.last().2)
    }
}

/// Computes `advance`.
pub fn advance_extent(axis: Axis, extent: Size, size: Size) -> (r: Size)
    ensures
        r == advance(axis, extent, size),
{
    match axis {
        Axis::X => (extent.0.saturating_add(size.0), if extent.1 >= size.1 { extent.1 } else { size.1 }),
        Axis::Y => (if extent.0 >= size.0 { extent.0 } else { size.0 }, extent.1.saturating_add(size.1)),
        Axis::Z => (
            if extent.0 >= size.0 { extent.0 } else { size.0 },
            if extent.1 >= size.1 { extent.1 } else { size.1 },
        ),
    }
}

/// Computes `child_area`.
pub fn stack_child_area(axis: Axis, area: Area, extent: Size) -> (r: Area)
    ensures
        r == child_area(axis, area, extent),
{
    match axis {
        Axis::X => area.offset(extent.0, 0),
        Axis::Y => area.offset(0, extent.1),
        Axis::Z => area,
    }
}

/// Computes `render_index`.
pub fn stack_render_index(axis: Axis, n: usize, i: usize) -> (r: usize)
    requires
        i < n,
    ensures
        r == render_index(axis, n as nat, i as nat),
{
    if axis == Axis::Z { n - 1 - i } else { i }
}

/// Renders `items` stacked along `axis` into the area that `context` offers
/// (see `stack_renders`).
pub fn render_stack<'a, C: Surface>(
    axis: Axis,
    items: &Vec<Collected<'a, C, Size>>,
    context: &mut C,
) -> (r: Outcome<Option<Size>>)
    ensures
        stack_renders(axis, items@, *old(context), *final(context), r),
        final(context).surface_area() == old(context).surface_area(),
{
    let area = context.get_area();
    let n = items.len();
    let count: u16 = if n <= 65535 { n as u16 } else { 65535 };
    let fits = match axis {
        Axis::X => n <= area.2 as usize && area.3 >= 1,
        Axis::Y => area.2 >= 1 && n <= area.3 as usize,
        Axis::Z => area.2 >= 1 && area.3 >= 1,
    };
    if !fits {
        return Err(
            match axis {
                Axis::X => Error::NoSpace(area, count, 1),
                Axis::Y => Error::NoSpace(area, 1, count),
                Axis::Z => Error::NoSpace(area, 1, 1),
            },
        );
    }
    let ghost before = *context;
    let ghost mut trace: Seq<StackStep<C>> = Seq::empty();
    let mut extent: Size = (0, 0);
    let mut i: usize = 0;
    while i < n
        invariant
            n == items@.len(),
            i <= n,
            trace.len() == i,
            stack_trace(axis, items@, area, before, trace),
            i > 0 ==> trace.last().2 is Ok,
            *context == trace_end(before, trace),
            extent == stack_extent(axis, reports(trace)),
            area == before.surface_area(),
            before == *old(context),
            stack_fits(axis, area, n as nat),
        decreases n - i,
    {
        let k = stack_render_index(axis, n, i);
        context.set_area(stack_child_area(axis, area, extent));
        let ghost offered = *context;
        let result = items[k].render(context);
        proof {
            let next = trace.push((offered, *context, result));
            assert(next.drop_last() =~= trace);
            assert(reports(next) =~= reports(trace).push(reported(result)));
            assert(reports(next).drop_last() =~= reports(trace));
            trace = next;
        }
        let size = match result {
            Ok(Some(size)) => size,
            Ok(None) => (0, 0),
            Err(e) => {
                context.set_area(area);
                assert(stack_trace(axis, items@, area, before, trace));
                return Err(e);
            },
        };
        extent = advance_extent(axis, extent, size);
        i = i + 1;
    }
    context.set_area(area);
    assert(stack_trace(axis, items@, area, before, trace));
    Ok(Some(extent))
}

/// A number is an empty square spacer of that width and height.
impl<C> Output<C, Size> for u16 {
    open spec fn renders(&self, before: C, after: C, r: Outcome<Option<Size>>) -> bool {
        r == Ok::<Option<Size>, Error>(Some((*self, *self))) && after == before
    }

    fn render(&self, context: &mut C) -> (r: Outcome<Option<Size>>) {
        Ok(Some((*self, *self)))
    }
}

/// Where every slot of a stack is empty, each child rendered reports
/// nothing and succeeds, so the stack's extent stays zero.
proof fn lemma_empty_trace<'a, C: Surface>(
    axis: Axis,
    items: Seq<Collected<'a, C, Size>>,
    area: Area,
    before: C,
    trace: Seq<StackStep<C>>,
)
    requires
        stack_trace(axis, items, area, before, trace),
        forall|k: int| 0 <= k < items.len() ==> #[trigger] items[k] is Empty,
    ensures
        forall|i: int| 0 <= i < trace.len() ==> #[trigger] trace[i].2 == Ok::<Option<Size>, Error>(None),
        stack_extent(axis, reports(trace)) == (0u16, 0u16),
    decreases trace.len(),
{
    if trace.len() > 0 {
        let prefix = trace.drop_last();
        lemma_empty_trace(axis, items, area, before, prefix);
        let k = render_index(axis, items.len(), prefix.len());
        assert(items[k] is Empty);
        assert forall|i: int| 0 <= i < trace.len() implies #[trigger] trace[i].2 == Ok::<Option<Size>, Error>(None) by {
            if i < prefix.len() {
                assert(trace[i] == prefix[i]);
            }
        }
        assert(reports(trace).drop_last() =~= reports(prefix));
    }
}

/// A stack whose slots are all empty, offered enough area, renders
/// successfully and reports an extent of zero.
pub proof fn lemma_stack_of_empty_slots<'a, C: Surface>(
    axis: Axis,
    items: Seq<Collected<'a, C, Size>>,
    before: C,
    after: C,
    r: Outcome<Option<Size>>,
)
    requires
        stack_renders(axis, items, before, after, r),
        stack_fits(axis, before.surface_area(), items.len()),
        forall|k: int| 0 <= k < items.len() ==> #[trigger] items[k] is Empty,
    ensures
        r == Ok::<Option<Size>, Error>(Some((0u16, 0u16))),
{
    let trace = choose|trace: Seq<StackStep<C>>|
        #[trigger] stack_trace(axis, items, before.surface_area(), before, trace)
        && after == trace_end(before, trace).with_area(before.surface_area())
        && (trace.len() == items.len() && (trace.len() == 0 || trace.last().2 is Ok)
            && r == Ok::<Option<Size>, Error>(Some(stack_extent(axis, reports(trace))))
        || trace.len() > 0 && trace.last().2 is Err && r == trace.last().2);
    lemma_empty_trace(axis, items, before.surface_area(), before, trace);
    if trace.len() > 0 {
        assert(trace.last().2 == trace[trace.len() - 1].2);
    }
}

/// Every prefix of a stack trace is a stack trace.
proof fn lemma_trace_prefix<'a, C: Surface>(
    axis: Axis,
    items: Seq<Collected<'a, C, Size>>,
    area: Area,
    before: C,
    trace: Seq<StackStep<C>>,
    k: int,
)
    requires
        stack_trace(axis, items, area, before, trace),
        0 <= k <= trace.len(),
    ensures
        stack_trace(axis, items, area, before, trace.take(k)),
    decreases trace.len(),
{
    if k < trace.len() {
        lemma_trace_prefix(axis, items, area, before, trace.drop_last(), k);
        assert(trace.drop_last().take(k) =~= trace.take(k));
    } else {
        assert(trace.take(k) =~= trace);
    }
}

/// In a row whose children each report one cell of width, the child
/// rendered `k`-th is offered the area moved right by `k`, and the row is as
/// wide as there are children rendered.
pub proof fn lemma_row_of_unit_widths<'a, C: Surface>(
    items: Seq<Collected<'a, C, Size>>,
    area: Area,
    before: C,
    trace: Seq<StackStep<C>>,
)
    requires
        stack_trace(Axis::X, items, area, before, trace),
        trace.len() <= u16::MAX,
        forall|k: int| 0 <= k < trace.len() ==> #[trigger] reported(trace[k].2).0 == 1,
    ensures
        forall|k: int|
            0 <= k < trace.len() ==> #[trigger] trace[k].0 == trace_end(before, trace.take(k)).with_area(
                area.offset_spec(k as u16, 0),
            ),
        stack_extent(Axis::X, reports(trace)).0 == trace.len(),
{
    let sizes = reports(trace);
    assert forall|j: int| 0 <= j < sizes.len() implies #[trigger] sizes[j].0 == 1 by {
        assert(reported(trace[j].2).0 == 1);
    }
    assert forall|k: int| 0 <= k < trace.len() implies #[trigger] trace[k].0 == trace_end(
        before,
        trace.take(k),
    ).with_area(area.offset_spec(k as u16, 0)) by {
        lemma_trace_prefix(Axis::X, items, area, before, trace, k + 1);
        let t = trace.take(k + 1);
        assert(t.drop_last() =~= trace.take(k));
        assert(t.last() == trace[k]);
        assert(reports(trace.take(k)) =~= sizes.take(k));
        lemma_unit_prefix(sizes, k);
    }
    lemma_unit_prefix(sizes, sizes.len() as int);
    assert(sizes.take(sizes.len() as int) =~= sizes);
}

proof fn lemma_unit_prefix(sizes: Seq<Size>, k: int)
    requires
        sizes.len() <= u16::MAX,
        0 <= k <= sizes.len(),
        forall|j: int| 0 <= j < sizes.len() ==> #[trigger] sizes[j].0 == 1,
    ensures
        stack_extent(Axis::X, sizes.take(k)).0 == k,
    decreases k,
{
    if k > 0 {
        lemma_unit_prefix(sizes, k - 1);
        assert(sizes.take(k).drop_last() =~= sizes.take(k - 1));
    }
}

/// Order widgets along X (columns), Y (rows), or Z (layers).
#[verifier::reject_recursive_types(T)]
#[verifier::reject_recursive_types(U)]
pub struct Stacked<'a, T, U>(pub Axis, pub Vec<Collected<'a, T, U>>);

impl<'a, T, U> Stacked<'a, T, U> {
    /// Stacked left to right, with the items that `items` adds.
    pub fn x<F: Fn(&mut Collector<'a, T, U>)>(items: F) -> (r: Self)
        requires
            forall|c: &mut Collector<'a, T, U>| items.requires((c,)),
        ensures
            r.0 == Axis::X,
            exists|c: &mut Collector<'a, T, U>|
                #![trigger items.ensures((c,), ())]
                c.0@.len() == 0 && items.ensures((c,), ()) && (*final(c)).0@ == r.1@,
    {
        Stacked(Axis::X, Collector::collect_items(items).0)
    }

    /// Stacked top to bottom, with the items that `items` adds.
    pub fn y<F: Fn(&mut Collector<'a, T, U>)>(items: F) -> (r: Self)
        requires
            forall|c: &mut Collector<'a, T, U>| items.requires((c,)),
        ensures
            r.0 == Axis::Y,
            exists|c: &mut Collector<'a, T, U>|
                #![trigger items.ensures((c,), ())]
                c.0@.len() == 0 && items.ensures((c,), ()) && (*final(c)).0@ == r.1@,
    {
        Stacked(Axis::Y, Collector::collect_items(items).0)
    }

    /// Stacked back to front, with the items that `items` adds.
    pub fn z<F: Fn(&mut Collector<'a, T, U>)>(items: F) -> (r: Self)
        requires
            forall|c: &mut Collector<'a, T, U>| items.requires((c,)),
        ensures
            r.0 == Axis::Z,
            exists|c: &mut Collector<'a, T, U>|
                #![trigger items.ensures((c,), ())]
                c.0@.len() == 0 && items.ensures((c,), ()) && (*final(c)).0@ == r.1@,
    {
        Stacked(Axis::Z, Collector::collect_items(items).0)
    }
}

impl<'a, C: Surface> Output<C, Size> for Stacked<'a, C, Size> {
    /// Renders the items along the stack's axis (see `render_stack`).
    open spec fn renders(&self, before: C, after: C, r: Outcome<Option<Size>>) -> bool {
        stack_renders(self.0, self.1@, before, after, r)
    }

    fn render(&self, context: &mut C) -> (r: Outcome<Option<Size>>) {
        render_stack(self.0, &self.1, context)
    }
}

/// Widgets below each other.
#[verifier::reject_recursive_types(T)]
#[verifier::reject_recursive_types(U)]
pub struct Rows<'a, T, U>(pub Vec<Collected<'a, T, U>>);

/// Widgets next to each other.
#[verifier::reject_recursive_types(T)]
#[verifier::reject_recursive_types(U)]
pub struct Columns<'a, T, U>(pub Vec<Collected<'a, T, U>>);

/// Widgets on top of each other; the first one added is painted last.
#[verifier::reject_recursive_types(T)]
#[verifier::reject_recursive_types(U)]
pub struct Layers<'a, T, U>(pub Vec<Collected<'a, T, U>>);

impl<'a, T, U> Rows<'a, T, U> {
    /// No rows yet.
    pub fn new() -> (r: Self)
        ensures
            r.0@.len() == 0,
    {
        Rows(Vec::new())
    }
}

impl<'a, T, U> Columns<'a, T, U> {
    /// No columns yet.
    pub fn new() -> (r: Self)
        ensures
            r.0@.len() == 0,
    {
        Columns(Vec::new())
    }
}

impl<'a, T, U> Layers<'a, T, U> {
    /// No layers yet.
    pub fn new() -> (r: Self)
        ensures
            r.0@.len() == 0,
    {
        Layers(Vec::new())
    }
}

impl<'a, T, U> Collection<'a, T, U> for Rows<'a, T, U> {
    open spec fn collected(&self) -> Seq<Collected<'a, T, U>> {
        self.0@
    }

    /// Add a row below the others.
    fn add<V: Collectible<'a, T, U>>(&mut self, widget: V) -> (r: &mut Self) {
        self.0.push(widget.collected());
        self
    }
}

impl<'a, T, U> Collection<'a, T, U> for Columns<'a, T, U> {
    open spec fn collected(&self) -> Seq<Collected<'a, T, U>> {
        self.0@
    }

    /// Add a column right of the others.
    fn add<V: Collectible<'a, T, U>>(&mut self, widget: V) -> (r: &mut Self) {
        self.0.push(widget.collected());
        self
    }
}

impl<'a, T, U> Collection<'a, T, U> for Layers<'a, T, U> {
    open spec fn collected(&self) -> Seq<Collected<'a, T, U>> {
        self.0@
    }

    /// Add a layer behind the others.
    fn add<V: Collectible<'a, T, U>>(&mut self, widget: V) -> (r: &mut Self) {
        self.0.push(widget.collected());
        self
    }
}

impl<'a, C: Surface> Output<C, Size> for Rows<'a, C, Size> {
    /// Renders the rows top to bottom (see `render_stack`).
    open spec fn renders(&self, before: C, after: C, r: Outcome<Option<Size>>) -> bool {
        stack_renders(Axis::Y, self.0@, before, after, r)
    }

    fn render(&self, context: &mut C) -> (r: Outcome<Option<Size>>) {
        render_stack(Axis::Y, &self.0, context)
    }
}

impl<'a, C: Surface> Output<C, Size> for Columns<'a, C, Size> {
    /// Renders the columns left to right (see `render_stack`).
    open spec fn renders(&self, before: C, after: C, r: Outcome<Option<Size>>) -> bool {
        stack_renders(Axis::X, self.0@, before, after, r)
    }

    fn render(&self, context: &mut C) -> (r: Outcome<Option<Size>>) {
        render_stack(Axis::X, &self.0, context)
    }
}

impl<'a, C: Surface> Output<C, Size> for Layers<'a, C, Size> {
    /// Renders the layers back to front (see `render_stack`).
    open spec fn renders(&self, before: C, after: C, r: Outcome<Option<Size>>) -> bool {
        stack_renders(Axis::Z, self.0@, before, after, r)
    }

    fn render(&self, context: &mut C) -> (r: Outcome<Option<Size>>) {
        render_stack(Axis::Z, &self.0, context)
    }
}

/// Like `Stacked`, but keeps track of which item is selected.
#[verifier::reject_recursive_types(T)]
#[verifier::reject_recursive_types(U)]
pub struct FocusStack<'a, T, U>(pub Stacked<'a, T, U>, pub FocusState<usize>);

impl<'a, T, U> FocusStack<'a, T, U> {
    /// `stack`, unfocused and with nothing selected.
    pub fn new(stack: Stacked<'a, T, U>) -> (r: Self)
        ensures
            r.0 == stack,
            r.1 == FocusState(false, None::<usize>),
    {
        FocusStack(stack, FocusState(false, None))
    }

    /// Stacked left to right, with the items that `items` adds.
    pub fn x<F: Fn(&mut Collector<'a, T, U>)>(items: F) -> (r: Self)
        requires
            forall|c: &mut Collector<'a, T, U>| items.requires((c,)),
        ensures
            r.0.0 == Axis::X,
            exists|c: &mut Collector<'a, T, U>|
                #![trigger items.ensures((c,), ())]
                c.0@.len() == 0 && items.ensures((c,), ()) && (*final(c)).0@ == r.0.1@,
            r.1 == FocusState(false, None::<usize>),
    {
        FocusStack(Stacked::x(items), FocusState(false, None))
    }

    /// Stacked top to bottom, with the items that `items` adds.
    pub fn y<F: Fn(&mut Collector<'a, T, U>)>(items: F) -> (r: Self)
        requires
            forall|c: &mut Collector<'a, T, U>| items.requires((c,)),
        ensures
            r.0.0 == Axis::Y,
            exists|c: &mut Collector<'a, T, U>|
                #![trigger items.ensures((c,), ())]
                c.0@.len() == 0 && items.ensures((c,), ()) && (*final(c)).0@ == r.0.1@,
            r.1 == FocusState(false, None::<usize>),
    {
        FocusStack(Stacked::y(items), FocusState(false, None))
    }

    /// Stacked back to front, with the items that `items` adds.
    pub fn z<F: Fn(&mut Collector<'a, T, U>)>(items: F) -> (r: Self)
        requires
            forall|c: &mut Collector<'a, T, U>| items.requires((c,)),
        ensures
            r.0.0 == Axis::Z,
            exists|c: &mut Collector<'a, T, U>|
                #![trigger items.ensures((c,), ())]
                c.0@.len() == 0 && items.ensures((c,), ()) && (*final(c)).0@ == r.0.1@,
            r.1 == FocusState(false, None::<usize>),
    {
        FocusStack(Stacked::z(items), FocusState(false, None))
    }
}

impl<'a, T, U> Focus<Collected<'a, T, U>> for FocusStack<'a, T, U> {
    open spec fn focus_items(&self) -> Seq<Collected<'a, T, U>> {
        self.0.1@
    }

    open spec fn focus_state(&self) -> FocusState<usize> {
        self.1
    }

    fn items(&self) -> (r: &Vec<Collected<'a, T, U>>) {
        assert(self.0.1.len() == self.0.1@.len());
        &self.0.1
    }

    fn items_mut(&mut self) -> (r: &mut Vec<Collected<'a, T, U>>) {
        &mut self.0.1
    }

    fn state(&self) -> (r: &FocusState<usize>) {
        &self.1
    }

    fn state_mut(&mut self) -> (r: &mut FocusState<usize>) {
        &mut self.1
    }
}

impl<'a, T, U> Output<T, U> for FocusStack<'a, T, U> {
    /// Renders the selected item alone; nothing where none is selected.
    open spec fn renders(&self, before: T, after: T, r: Outcome<Option<U>>) -> bool {
        match selected_item(self.0.1@, self.1.1) {
            Some(item) => item.renders(before, after, r),
            None => r == Ok::<Option<U>, Error>(None) && after == before,
        }
    }

    fn render(&self, context: &mut T) -> (r: Outcome<Option<U>>) {
        match self.get() {
            Some(item) => item.render(context),
            None => Ok(None),
        }
    }
}

} // verus!
