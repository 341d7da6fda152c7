//! Which part of a long list is visible.
use vstd::prelude::*;

verus! {

/// The scroll state of a scrollable list.
#[derive(Clone, Copy, Debug, Default, PartialEq, Eq, Structural)]
pub struct ScrollState {
    /// The size of the visible area.
    pub size: usize,
    /// How far into the list the first visible item is.
    pub offset: usize,
    /// How many items there are in total.
    pub total: usize,
}

/// The offset that shows item `index`: unchanged where the item is visible
/// already; the item itself where it lies before the visible part; where it
/// lies after, the least offset that shows it, at most `total`.
pub open spec fn scroll_offset(offset: usize, size: usize, total: usize, index: usize) -> usize {
    if index < offset {
        index
    } else if index - offset >= size {
        if index - size + 1 <= total { (index - size + 1) as usize } else { total }
    } else {
        offset
    }
}

impl ScrollState {
    /// Scroll so that item `index` is visible.
    pub fn to(&mut self, index: usize)
        ensures
            final(self).offset == scroll_offset(old(self).offset, old(self).size, old(self).total, index),
            final(self).size == old(self).size,
            final(self).total == old(self).total,
    {
        let offset = self.offset;
        let size = self.size;
        let total = self.total;
        self.offset = if index < offset {
            index
        } else if index - offset >= size {
            let first = index - size;
            if first < total { first + 1 } else { total }
        } else {
            offset
        };
    }
}

} // verus!
