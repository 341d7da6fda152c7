//! Tabbed widgets: a row or column of tab labels beside the active page.
use vstd::prelude::*;

use crate::collect::{Collected, Collection, Collectible};
use crate::layouts::{Columns, Rows};
use crate::output::Output;

verus! {

/// On which side of the page the tabs are shown.
#[derive(Clone, Copy, Debug, PartialEq, Eq, Structural)]
pub enum TabSide {
    Top,
    Right,
    Bottom,
    Left,
}

/// A set of named pages, one of which may be shown.
#[derive(Debug)]
pub struct Tabbed<T> {
    /// On which side to render the tabs; without one, only the page shows.
    pub side: Option<TabSide>,
    /// The named pages.
    pub pages: Vec<(String, T)>,
    /// The index of the page shown.
    pub focus: Option<usize>,
    /// The first label shown, and the index after which no more are.
    pub range: Option<(usize, usize)>,
}

/// Where the labels that `layout_tabs_in` adds end, where they start at
/// `skip` and stop after index `last`, in a list of `len` pages.
pub open spec fn labels_end(skip: usize, last: usize, len: nat) -> nat {
    if skip >= len {
        skip as nat
    } else if last < skip {
        (skip + 1) as nat
    } else if last + 1 <= len {
        (last + 1) as nat
    } else {
        len
    }
}

impl<T> Tabbed<T> {
    /// The first label shown and the index after which none is.
    pub open spec fn label_range(&self) -> (usize, usize) {
        match self.range {
            Some(range) => range,
            None => (0usize, usize::MAX),
        }
    }

    /// The slots of the labels shown, in order.
    pub open spec fn label_slots<'a, U: 'a, V: 'a>(&self) -> Seq<Collected<'a, U, V>> where String: Output<U, V> {
        let (skip, last) = self.label_range();
        let end = labels_end(skip, last, self.pages@.len());
        Seq::new(
            (end - skip) as nat,
            |j: int| <String as Collectible<'a, U, V>>::slot(self.pages@[skip + j].0),
        )
    }

    /// Pages with tabs on `side`, none of them shown yet.
    pub fn new(side: Option<TabSide>, pages: Vec<(String, T)>) -> (r: Self)
        ensures
            r.side == side,
            r.pages@ == pages@,
            r.focus is None,
            r.range is None,
    {
        Tabbed { side, pages, focus: None, range: None }
    }

    /// Pages with tabs on the left.
    pub fn left(pages: Vec<(String, T)>) -> (r: Self)
        ensures
            r.side == Some(TabSide::Left),
            r.pages@ == pages@,
            r.focus is None,
            r.range is None,
    {
        Self::new(Some(TabSide::Left), pages)
    }

    /// Pages with tabs on the right.
    pub fn right(pages: Vec<(String, T)>) -> (r: Self)
        ensures
            r.side == Some(TabSide::Right),
            r.pages@ == pages@,
            r.focus is None,
            r.range is None,
    {
        Self::new(Some(TabSide::Right), pages)
    }

    /// Pages with tabs on top.
    pub fn top(pages: Vec<(String, T)>) -> (r: Self)
        ensures
            r.side == Some(TabSide::Top),
            r.pages@ == pages@,
            r.focus is None,
            r.range is None,
    {
        Self::new(Some(TabSide::Top), pages)
    }

    /// Pages with tabs at the bottom.
    pub fn bottom(pages: Vec<(String, T)>) -> (r: Self)
        ensures
            r.side == Some(TabSide::Bottom),
            r.pages@ == pages@,
            r.focus is None,
            r.range is None,
    {
        Self::new(Some(TabSide::Bottom), pages)
    }

    /// The shown page, where `focus` names one that exists.
    pub open spec fn shown(&self) -> Option<T> {
        match self.focus {
            Some(f) => if f < self.pages@.len() { Some(self.pages@[f as int].1) } else { None },
            None => None,
        }
    }

    /// The tab labels, in `Columns` for tabs on the left or right and in
    /// `Rows` for tabs on top or at the bottom; nothing without a side.
    pub fn layout_tabs<'a, U: 'a, V: 'a>(&'a self) -> (r: Option<Box<dyn Output<U, V> + 'a>>)
        where String: Output<U, V>, Columns<'a, U, V>: Output<U, V>, Rows<'a, U, V>: Output<U, V>,
        ensures
            r is Some <==> self.side is Some,
    {
        match self.side {
            None => None,
            Some(side) => Some(match side {
                TabSide::Left | TabSide::Right => Box::new(self.layout_tabs_in(Columns::new())),
                TabSide::Top | TabSide::Bottom => Box::new(self.layout_tabs_in(Rows::new())),
            }),
        }
    }

    /// The tabs beside the shown page: tabs, a one-cell space and the page,
    /// in that order left to right or top to bottom, or in the reverse order
    /// for tabs on the right or at the bottom; the space is empty where no
    /// page is shown. Without a side, the shown page alone, or nothing.
    pub fn layout<'a, U: 'a, V: 'a>(&'a self) -> (r: Collected<'a, U, V>)
        where
            T: Output<U, V>,
            String: Output<U, V>,
            Columns<'a, U, V>: Output<U, V>,
            Rows<'a, U, V>: Output<U, V>,
            u16: Output<U, V>,
        ensures
            self.side is Some ==> r is Box,
            self.side is None && self.shown() is Some ==> r is Ref,
            self.side is None && self.shown() is None ==> r is Empty,
    {
        let page: Option<&'a T> = match self.focus {
            Some(focus) => if focus < self.pages.len() {
                Some(&self.pages[focus].1)
            } else {
                None
            },
            None => None,
        };
        match self.side {
            None => match page {
                Some(page) => Collected::Ref(page),
                None => Collected::Empty,
            },
            Some(side) => {
                let tabs = self.layout_tabs();
                let space: u16 = if page.is_some() { 1 } else { 0 };
                let tabs: Box<dyn Output<U, V> + 'a> = Box::new(tabs);
                let space: Box<dyn Output<U, V> + 'a> = Box::new(space);
                let page: Box<dyn Output<U, V> + 'a> = Box::new(page);
                match side {
                    TabSide::Left => {
                        let mut c = Columns::new();
                        c.add(tabs).add(space).add(page);
                        Collected::Box(Box::new(c))
                    },
                    TabSide::Top => {
                        let mut c = Rows::new();
                        c.add(tabs).add(space).add(page);
                        Collected::Box(Box::new(c))
                    },
                    TabSide::Right => {
                        let mut c = Columns::new();
                        c.add(page).add(space).add(tabs);
                        Collected::Box(Box::new(c))
                    },
                    TabSide::Bottom => {
                        let mut c = Rows::new();
                        c.add(page).add(space).add(tabs);
                        Collected::Box(Box::new(c))
                    },
                }
            },
        }
    }

    /// Add a label for each page shown to `container`: from the first page
    /// of `range` on, up to and including its last index (all pages where
    /// there is no range), and always at least the first.
    pub fn layout_tabs_in<'a, U, V, W: Output<U, V> + Collection<'a, U, V>>(
        &'a self,
        container: W,
    ) -> (r: W)
        where String: Output<U, V>, U: 'a, V: 'a,
        ensures
            r.collected() == container.collected() + self.label_slots::<U, V>(),
    {
        let mut container = container;
        let (skip, last) = match self.range {
            Some(range) => range,
            None => (0, usize::MAX),
        };
        let ghost start = container.collected();
        let ghost end = labels_end(skip, last, self.pages@.len());
        let mut index = skip;
        while index < self.pages.len()
            invariant_except_break
                skip <= index,
                index <= self.pages@.len() || index == skip,
                index == skip || index <= last,
                container.collected().len() == start.len() + (index - skip),
                end == labels_end(skip, last, self.pages@.len()),
            invariant
                container.collected().subrange(0, start.len() as int) == start,
                start.len() <= container.collected().len(),
                forall|j: int| start.len() <= j < container.collected().len() ==>
                    (#[trigger] container.collected()[j]) == <String as Collectible<'a, U, V>>::slot(
                        self.pages@[skip + j - start.len()].0,
                    ),
            ensures
                container.collected().len() == start.len() + (end - skip),
            decreases self.pages@.len() - index,
        {
            let label = self.pages[index].0.clone();
            let ghost before = container.collected();
            container.add(label);
            assert(container.collected().subrange(0, start.len() as int) =~= before.subrange(0, start.len() as int));
            if index >= last {
                break;
            }
            index = index + 1;
        }
        assert(container.collected() =~= start + self.label_slots::<U, V>());
        container
    }
}

} // verus!
