//! The bounded, ordered buffer of materialised items.

use vstd::prelude::*;
use crate::item::Item;

verus! {

/// The items that are materialised, in display order: index 0 is the topmost.
///
/// Items enter only at either end and leave only as a prefix or a suffix.
#[derive(Debug)]
pub struct ItemWindow {
    items: Vec<Item>,
}

/// How many items a trim of `count` removes from a window of `len` items.
pub open spec fn trimmed_count(len: nat, count: nat) -> nat {
    if count <= len {
        count
    } else {
        len
    }
}

/// `items` without its first `count` items, or empty if it has no more than that.
pub open spec fn without_prefix(items: Seq<Item>, count: nat) -> Seq<Item> {
    items.skip(trimmed_count(items.len(), count) as int)
}

/// `items` without its last `count` items, or empty if it has no more than that.
pub open spec fn without_suffix(items: Seq<Item>, count: nat) -> Seq<Item> {
    items.take(items.len() - trimmed_count(items.len(), count))
}

impl View for ItemWindow {
    type V = Seq<Item>;

    closed spec fn view(&self) -> Seq<Item> {
        self.items@
    }
}

impl ItemWindow {
    /// An empty window.
    pub fn new() -> (window: ItemWindow)
        ensures
            window@ == Seq::<Item>::empty(),
    {
        ItemWindow { items: Vec::new() }
    }

    /// A window that holds `items`, the first of them topmost.
    pub fn from_items(items: Vec<Item>) -> (window: ItemWindow)
        ensures
            window@ == items@,
    {
        ItemWindow { items }
    }

    /// The number of items in the window.
    pub fn len(&self) -> (n: usize)
        ensures
            n == self@.len(),
    {
        self.items.len()
    }

    /// Whether the window holds no item.
    pub fn is_empty(&self) -> (empty: bool)
        ensures
            empty == (self@.len() == 0),
    {
        self.items.len() == 0
    }

    /// The items in display order.
    pub fn items(&self) -> (items: &Vec<Item>)
        ensures
            items@ == self@,
    {
        &self.items
    }

    /// Inserts `items` at the top, keeping their order.
    pub fn prepend(&mut self, items: Vec<Item>)
        ensures
            final(self)@ == items@ + old(self)@,
    {
        let mut front = items;
        front.append(&mut self.items);
        self.items = front;
    }

    /// Inserts `items` at the bottom, keeping their order.
    pub fn append(&mut self, items: Vec<Item>)
        ensures
            final(self)@ == old(self)@ + items@,
    {
        let mut back = items;
        self.items.append(&mut back);
    }

    /// Removes the first `count` items, or all of them if there are fewer.
    pub fn trim_prefix(&mut self, count: usize)
        ensures
            final(self)@ == without_prefix(old(self)@, count as nat),
    {
        let len = self.items.len();
        let removed: usize = if count <= len { count } else { len };
        let rest = self.items.split_off(removed);
        self.items = rest;
    }

    /// Removes the last `count` items, or all of them if there are fewer.
    pub fn trim_suffix(&mut self, count: usize)
        ensures
            final(self)@ == without_suffix(old(self)@, count as nat),
    {
        let len = self.items.len();
        let removed: usize = if count <= len { count } else { len };
        self.items.truncate(len - removed);
    }
}

} // verus!
