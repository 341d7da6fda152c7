//! Focus-based navigation: which item of an ordered list is selected, and
//! whether the list itself has the input focus.
use vstd::prelude::*;
use vstd::std_specs::slice::into_iter_elts;

verus! {

broadcast use vstd::std_specs::vec::axiom_spec_len;

/// The focus state of an item: whether it has the input focus, and which of
/// the items it owns is selected.
#[derive(Debug, PartialEq, Eq, Structural)]
pub struct FocusState<T>(pub bool, pub Option<T>);

/// The item at the selected index, if an index is selected and it is in range.
pub open spec fn selected_item<T>(items: Seq<T>, selected: Option<usize>) -> Option<T> {
    match selected {
        Some(i) => if i < items.len() { Some(items[i as int]) } else { None },
        None => None,
    }
}

/// The selection after selecting `index` in a list of `len` items: `index`
/// where it is in range, the previous selection otherwise.
pub open spec fn after_select(selected: Option<usize>, len: nat, index: usize) -> Option<usize> {
    if index < len { Some(index) } else { selected }
}

/// The index that selecting the next item tries: the first one where nothing
/// is selected or the last one is, the following one otherwise.
pub open spec fn next_index(selected: Option<usize>, len: nat) -> usize {
    match selected {
        Some(i) => if i + 1 >= len { 0 } else { (i + 1) as usize },
        None => 0,
    }
}

/// The index that selecting the previous item tries: the first one where
/// nothing is selected, the last one where the first one is, the preceding
/// one otherwise.
pub open spec fn prev_index(selected: Option<usize>, len: nat) -> usize {
    match selected {
        Some(i) => if i == 0 {
            if len == 0 { 0 } else { (len - 1) as usize }
        } else {
            (i - 1) as usize
        },
        None => 0,
    }
}

/// The selection after `count` steps forward in a list of `len` items.
pub open spec fn after_nexts(selected: Option<usize>, len: nat, count: nat) -> Option<usize>
    decreases count,
{
    if count == 0 {
        selected
    } else {
        let before = after_nexts(selected, len, (count - 1) as nat);
        after_select(before, len, next_index(before, len))
    }
}

/// The Focus API: a list of items, one of which may be selected.
pub trait Focus<T> {
    /// The items, in order.
    spec fn focus_items(&self) -> Seq<T>;

    /// The focus state.
    spec fn focus_state(&self) -> FocusState<usize>;

    /// Get an immutable reference to the list of items.
    fn items(&self) -> (r: &Vec<T>)
        ensures
            r@ == self.focus_items(),
            self.focus_items().len() <= usize::MAX,
    ;

    /// Get a mutable reference to the list of items.
    fn items_mut(&mut self) -> (r: &mut Vec<T>)
        ensures
            r@ == old(self).focus_items(),
            final(self).focus_items() == final(r)@,
            final(self).focus_state() == old(self).focus_state(),
    ;

    /// Get an immutable reference to the focus state.
    fn state(&self) -> (r: &FocusState<usize>)
        ensures
            *r == self.focus_state(),
    ;

    /// Get a mutable reference to the focus state.
    fn state_mut(&mut self) -> (r: &mut FocusState<usize>)
        ensures
            *r == old(self).focus_state(),
            final(self).focus_state() == *final(r),
            final(self).focus_items() == old(self).focus_items(),
    ;

    /// Add an item at the end, keeping the selection.
    fn push(&mut self, item: T)
        ensures
            final(self).focus_items() == old(self).focus_items().push(item),
            final(self).focus_state() == old(self).focus_state(),
    {
        self.items_mut().push(item);
    }

    /// Replace the list of items, clearing the selection.
    fn replace(&mut self, items: Vec<T>)
        ensures
            final(self).focus_items() == items@,
            final(self).focus_state() == FocusState(old(self).focus_state().0, None::<usize>),
    {
        *self.items_mut() = items;
        self.state_mut().1 = None;
    }

    /// Count the contained items.
    fn len(&self) -> (r: usize)
        ensures
            r == self.focus_items().len(),
    {
        self.items().len()
    }

    /// Iterate over the items, in order.
    fn iter(&self) -> (r: std::slice::Iter<'_, T>)
        ensures
            into_iter_elts(r) == self.focus_items(),
    {
        proof {
            broadcast use vstd::std_specs::slice::axiom_spec_slice_iter;
        }
        self.items().as_slice().iter()
    }

    /// Get an immutable reference to the selected item, if any.
    fn get(&self) -> (r: Option<&T>)
        ensures
            r is Some <==> selected_item(self.focus_items(), self.focus_state().1) is Some,
            r is Some ==> r->0 == selected_item(self.focus_items(), self.focus_state().1)->0,
    {
        match self.state().1 {
            Some(i) => if i < self.items().len() {
                Some(&self.items()[i])
            } else {
                None
            },
            None => None,
        }
    }

    /// Get a mutable reference to the selected item, if any.
    fn get_mut(&mut self) -> (r: Option<&mut T>)
        ensures
            r is Some <==> selected_item(old(self).focus_items(), old(self).focus_state().1) is Some,
            r is Some ==> *r->0 == selected_item(old(self).focus_items(), old(self).focus_state().1)->0
                && final(self).focus_items() == old(self).focus_items().update(
                    old(self).focus_state().1->0 as int,
                    *final(r->0),
                ),
            r is None ==> final(self).focus_items() == old(self).focus_items(),
            final(self).focus_state() == old(self).focus_state(),
    {
        match self.state().1 {
            Some(i) => if i < self.items().len() {
                Some(&mut self.items_mut()[i])
            } else {
                None
            },
            None => None,
        }
    }

    /// Give the list the input focus.
    fn focus(&mut self) -> (r: bool)
        ensures
            r,
            final(self).focus_state() == FocusState(true, old(self).focus_state().1),
            final(self).focus_items() == old(self).focus_items(),
    {
        self.state_mut().0 = true;
        true
    }

    /// Take the input focus from the list.
    fn unfocus(&mut self) -> (r: bool)
        ensures
            r,
            final(self).focus_state() == FocusState(false, old(self).focus_state().1),
            final(self).focus_items() == old(self).focus_items(),
    {
        self.state_mut().0 = false;
        true
    }

    /// The index of the selected item, if any.
    fn selected(&self) -> (r: Option<usize>)
        ensures
            r == self.focus_state().1,
    {
        self.state().1
    }

    /// Clear the selection.
    fn unselect(&mut self) -> (r: bool)
        ensures
            r,
            final(self).focus_state() == FocusState(old(self).focus_state().0, None::<usize>),
            final(self).focus_items() == old(self).focus_items(),
    {
        self.state_mut().1 = None;
        true
    }

    /// Select the item at `index`. Succeeds if and only if `index` is in
    /// range; on failure nothing changes.
    fn select(&mut self, index: usize) -> (r: bool)
        ensures
            r == (index < old(self).focus_items().len()),
            final(self).focus_state() == FocusState(
                old(self).focus_state().0,
                after_select(old(self).focus_state().1, old(self).focus_items().len(), index),
            ),
            final(self).focus_items() == old(self).focus_items(),
    {
        if index < self.items().len() {
            self.unselect();
            self.state_mut().1 = Some(index);
            true
        } else {
            false
        }
    }

    /// Select the next item, wrapping around after the last one; selects the
    /// first one where nothing is selected. Fails only on an empty list.
    fn select_next(&mut self) -> (r: bool)
        ensures
            ({
                let len = old(self).focus_items().len();
                let sel = old(self).focus_state().1;
                &&& r == (next_index(sel, len) < len)
                &&& final(self).focus_state() == FocusState(
                    old(self).focus_state().0,
                    after_select(sel, len, next_index(sel, len)),
                )
            }),
            final(self).focus_items() == old(self).focus_items(),
    {
        let index = match self.state().1 {
            Some(index) => if index >= self.items().len().saturating_sub(1) {
                0
            } else {
                index + 1
            },
            None => 0,
        };
        self.select(index)
    }

    /// Select the previous item, wrapping around before the first one;
    /// selects the first one where nothing is selected. Fails on an empty
    /// list, and where a stale selection leaves no previous item.
    fn select_prev(&mut self) -> (r: bool)
        ensures
            ({
                let len = old(self).focus_items().len();
                let sel = old(self).focus_state().1;
                &&& r == (prev_index(sel, len) < len)
                &&& final(self).focus_state() == FocusState(
                    old(self).focus_state().0,
                    after_select(sel, len, prev_index(sel, len)),
                )
            }),
            final(self).focus_items() == old(self).focus_items(),
    {
        let index = match self.state().1 {
            Some(index) => if index == 0 {
                self.items().len().saturating_sub(1)
            } else {
                index - 1
            },
            None => 0,
        };
        self.select(index)
    }
}

/// A list of sequentially selectable items.
#[derive(Debug)]
pub struct FocusList<T> {
    /// The list of items.
    items: Vec<T>,
    /// The focus state.
    pub state: FocusState<usize>,
}

impl<T> FocusList<T> {
    /// Create a focus list that owns `items`, unfocused and with nothing selected.
    pub fn new(items: Vec<T>) -> (r: Self)
        ensures
            r.focus_items() == items@,
            r.focus_state() == FocusState(false, None::<usize>),
    {
        FocusList { items, state: FocusState(false, None) }
    }
}

impl<T> Default for FocusList<T> {
    /// Create an empty focus list.
    fn default() -> (r: Self)
        ensures
            r.focus_items() == Seq::<T>::empty(),
            r.focus_state() == FocusState(false, None::<usize>),
    {
        FocusList { items: Vec::new(), state: FocusState(false, None) }
    }
}

impl<T> Focus<T> for FocusList<T> {
    closed spec fn focus_items(&self) -> Seq<T> {
        self.items@
    }

    closed spec fn focus_state(&self) -> FocusState<usize> {
        self.state
    }

    fn items(&self) -> (r: &Vec<T>) {
        assert(self.items.len() == self.items@.len());
        &self.items
    }

    fn items_mut(&mut self) -> (r: &mut Vec<T>) {
        &mut self.items
    }

    fn state(&self) -> (r: &FocusState<usize>) {
        &self.state
    }

    fn state_mut(&mut self) -> (r: &mut FocusState<usize>) {
        &mut self.state
    }
}

/// Where `start` is in range, `count` steps forward land `count` places
/// further on, wrapping around once past the end.
proof fn lemma_after_nexts_offset(len: nat, start: usize, count: nat)
    requires
        start < len,
        count <= len,
        len <= usize::MAX,
    ensures
        after_nexts(Some(start), len, count) == if start + count < len {
            Some((start + count) as usize)
        } else {
            Some((start + count - len) as usize)
        },
    decreases count,
{
    if count > 0 {
        lemma_after_nexts_offset(len, start, (count - 1) as nat);
    }
}

/// In a non-empty list whose selection is in range, selecting the next item
/// as many times as there are items comes back to the selection it started from.
pub proof fn lemma_select_next_cycle<T>(list: FocusList<T>)
    requires
        list.focus_state().1 is Some,
        list.focus_state().1->0 < list.focus_items().len(),
    ensures
        after_nexts(list.focus_state().1, list.focus_items().len(), list.focus_items().len())
            == list.focus_state().1,
{
    let len = list.focus_items().len();
    assert(list.items.len() == list.items@.len());
    lemma_after_nexts_offset(len, list.focus_state().1->0, len);
}

/// Selecting an index in range and then reading the selected item gives the
/// item at that index, whatever was selected before.
pub proof fn lemma_select_then_get<T>(list: FocusList<T>, index: usize)
    requires
        index < list.focus_items().len(),
    ensures
        selected_item(
            list.focus_items(),
            after_select(list.focus_state().1, list.focus_items().len(), index),
        ) == Some(list.focus_items()[index as int]),
{
}

} // verus!
