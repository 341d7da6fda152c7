//! Ordered collections of widgets of mixed ownership, built in place.
use vstd::prelude::*;

use crate::output::{Error, Outcome, Output};

verus! {

/// One slot of a widget collection: a widget owned in a box, a borrowed
/// widget, or nothing.
#[verifier::reject_recursive_types(T)]
#[verifier::reject_recursive_types(U)]
pub enum Collected<'a, T, U> {
    /// An owned widget.
    Box(Box<dyn Output<T, U> + 'a>),
    /// A borrowed widget.
    Ref(&'a dyn Output<T, U>),
    /// An empty slot: renders nothing.
    Empty,
}

impl<'a, T, U> Output<T, U> for Collected<'a, T, U> {
    /// A slot renders as the widget in it; an empty slot leaves the context
    /// as it is and reports nothing.
    open spec fn renders(&self, before: T, after: T, r: Outcome<Option<U>>) -> bool {
        match self {
            Collected::Box(item) => item.renders(before, after, r),
            Collected::Ref(item) => item.renders(before, after, r),
            Collected::Empty => r == Ok::<Option<U>, Error>(None) && after == before,
        }
    }

    fn render(&self, context: &mut T) -> (r: Outcome<Option<U>>) {
        match self {
            Collected::Box(item) => item.render(context),
            Collected::Ref(item) => item.render(context),
            Collected::Empty => Ok(None),
        }
    }
}

/// A collection of widgets.
pub trait Collection<'a, T, U>: Sized {
    /// The widgets collected so far, in order.
    spec fn collected(&self) -> Seq<Collected<'a, T, U>>;

    /// Add a widget at the end, wrapped into the slot that fits how it was
    /// passed.
    fn add<V: Collectible<'a, T, U>>(&mut self, widget: V) -> (r: &mut Self)
        ensures
            r.collected() == old(self).collected().push(widget.slot()),
            *final(self) == *final(r),
    ;
}

/// Gathers widgets into an ordered sequence while a layout is declared.
#[verifier::reject_recursive_types(T)]
#[verifier::reject_recursive_types(U)]
pub struct Collector<'a, T, U>(pub Vec<Collected<'a, T, U>>);

impl<'a, T, U> Collector<'a, T, U> {
    /// Pass an empty collector to `collect`, which adds items to it, and
    /// return the collector as `collect` left it.
    pub fn collect_items<F: Fn(&mut Collector<'a, T, U>)>(collect: F) -> (r: Self)
        requires
            forall|c: &mut Collector<'a, T, U>| collect.requires((c,)),
        ensures
            exists|c: &mut Collector<'a, T, U>|
                #![trigger collect.ensures((c,), ())]
                c.0@.len() == 0 && collect.ensures((c,), ()) && (*final(c)).0@ == r.0@,
    {
        let mut items = Collector(Vec::new());
        collect(&mut items);
        items
    }
}

impl<'a, T, U> Collection<'a, T, U> for Collector<'a, T, U> {
    open spec fn collected(&self) -> Seq<Collected<'a, T, U>> {
        self.0@
    }

    fn add<V: Collectible<'a, T, U>>(&mut self, widget: V) -> (r: &mut Self) {
        self.0.push(widget.collected());
        self
    }
}

/// A widget that can be added to a collection.
pub trait Collectible<'a, T, U>: Sized {
    /// The slot that holds this widget.
    spec fn slot(self) -> Collected<'a, T, U>;

    /// Wrap this widget into a collection slot.
    fn collected(self) -> (r: Collected<'a, T, U>)
        ensures
            r == self.slot(),
    ;
}

/// A slot is added as it is.
impl<'a, T, U> Collectible<'a, T, U> for Collected<'a, T, U> {
    open spec fn slot(self) -> Collected<'a, T, U> {
        self
    }

    fn collected(self) -> (r: Collected<'a, T, U>) {
        self
    }
}

/// References to widgets are added as `Collected::Ref`.
impl<'a, T, U, V: Output<T, U>> Collectible<'a, T, U> for &'a V {
    open spec fn slot(self) -> Collected<'a, T, U> {
        Collected::Ref(self)
    }

    fn collected(self) -> (r: Collected<'a, T, U>) {
        Collected::Ref(self)
    }
}

/// Boxed widgets are added as `Collected::Box`.
impl<'a, T, U> Collectible<'a, T, U> for Box<dyn Output<T, U> + 'a> {
    open spec fn slot(self) -> Collected<'a, T, U> {
        Collected::Box(self)
    }

    fn collected(self) -> (r: Collected<'a, T, U>) {
        Collected::Box(self)
    }
}

/// Owned strings are added as `Collected::Box`.
impl<'a, T: 'a, U: 'a> Collectible<'a, T, U> for String where String: Output<T, U> {
    open spec fn slot(self) -> Collected<'a, T, U> {
        Collected::Box(Box::new(self))
    }

    fn collected(self) -> (r: Collected<'a, T, U>) {
        Collected::Box(Box::new(self))
    }
}

/// String slices are added as `Collected::Box`.
impl<'a, T: 'a, U: 'a> Collectible<'a, T, U> for &'a str where &'a str: Output<T, U> {
    open spec fn slot(self) -> Collected<'a, T, U> {
        Collected::Box(Box::new(self))
    }

    fn collected(self) -> (r: Collected<'a, T, U>) {
        Collected::Box(Box::new(self))
    }
}

/// Widgets work the same when passed as references.
impl<'b, T, U, V: Output<T, U>> Output<T, U> for &'b V {
    open spec fn renders(&self, before: T, after: T, r: Outcome<Option<U>>) -> bool {
        (**self).renders(before, after, r)
    }

    fn render(&self, context: &mut T) -> (r: Outcome<Option<U>>) {
        (**self).render(context)
    }
}

/// Widgets work the same when boxed.
impl<'a, T, U> Output<T, U> for Box<dyn Output<T, U> + 'a> {
    open spec fn renders(&self, before: T, after: T, r: Outcome<Option<U>>) -> bool {
        (**self).renders(before, after, r)
    }

    fn render(&self, context: &mut T) -> (r: Outcome<Option<U>>) {
        (**self).render(context)
    }
}

/// Optional widgets render nothing when absent.
impl<T, U, V: Output<T, U>> Output<T, U> for Option<V> {
    open spec fn renders(&self, before: T, after: T, r: Outcome<Option<U>>) -> bool {
        match self {
            Some(widget) => widget.renders(before, after, r),
            None => r == Ok::<Option<U>, Error>(None) && after == before,
        }
    }

    fn render(&self, context: &mut T) -> (r: Outcome<Option<U>>) {
        match self {
            Some(widget) => widget.render(context),
            None => Ok(None),
        }
    }
}

} // verus!
