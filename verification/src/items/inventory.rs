//! The items that a body carries.
use crate::items::descriptor::{descriptions, ItemDescriptor, ItemDescriptorView};
use vstd::prelude::*;

verus! {

/// The inventory of a body.
#[derive(Clone, Debug)]
pub struct Inventory {
    /// How many items can be added.
    pub capacity: usize,
    /// The items, in the order in which they are shown.
    pub items: Vec<ItemDescriptor>,
}

/// An inventory as a mathematical value.
pub struct InventoryView {
    pub capacity: nat,
    pub items: Seq<ItemDescriptorView>,
}

impl View for Inventory {
    type V = InventoryView;

    open spec fn view(&self) -> InventoryView {
        InventoryView { capacity: self.capacity as nat, items: descriptions(self.items@) }
    }
}

impl InventoryView {
    /// Whether another item can be added.
    pub open spec fn has_room(self) -> bool {
        self.items.len() < self.capacity
    }

    /// The inventory with `item` added at the end, or unchanged if it is
    /// full.
    pub open spec fn added(self, item: ItemDescriptorView) -> InventoryView {
        if self.has_room() {
            InventoryView { items: self.items.push(item), ..self }
        } else {
            self
        }
    }
}

impl Inventory {
    /// Creates an empty inventory with the given capacity.
    pub fn with_capacity(capacity: usize) -> (inventory: Inventory)
        ensures
            inventory@ == (InventoryView { capacity: capacity as nat, items: Seq::empty() }),
    {
        let inventory = Inventory { capacity, items: Vec::with_capacity(capacity) };
        assert(inventory@.items =~= Seq::empty());
        inventory
    }

    /// Adds an item at the end, unless the inventory is full.
    ///
    /// Returns `Some` if the item was added, `None` if the inventory was
    /// full and is unchanged.
    pub fn add_item(&mut self, item: ItemDescriptor) -> (added: Option<()>)
        ensures
            added is Some == old(self)@.has_room(),
            final(self)@ == old(self)@.added(item@),
    {
        if self.items.len() < self.capacity {
            let ghost before = self@;
            self.items.push(item);
            assert(self@.items =~= before.items.push(item@));
            return Some(());
        }
        None
    }

    /// Removes the item at `index`; the items behind it move up by one.
    ///
    /// Returns `Some` if there was such an item, `None` if `index` is past
    /// the end and the inventory is unchanged.
    pub fn remove_item(&mut self, index: usize) -> (removed: Option<()>)
        ensures
            removed is Some == (index < old(self)@.items.len()),
            removed is Some ==> final(self)@ == (InventoryView {
                items: old(self)@.items.remove(index as int),
                ..old(self)@
            }),
            removed is None ==> final(self)@ == old(self)@,
    {
        if index < self.items.len() {
            let ghost before = self@;
            self.items.remove(index);
            assert(self@.items =~= before.items.remove(index as int));
            return Some(());
        }
        None
    }

    /// The item at `index`, if there is one.
    pub fn get_item(&self, index: usize) -> (item: Option<&ItemDescriptor>)
        ensures
            item is Some == (index < self@.items.len()),
            item is Some ==> item->0@ == self@.items[index as int],
    {
        if index < self.items.len() {
            Some(&self.items[index])
        } else {
            None
        }
    }

    /// Puts an item before the item at `index`; that item and those behind
    /// it move back by one. The capacity is not looked at.
    ///
    /// Returns `Some` if there was an item at `index`, `None` if `index` is
    /// past the end and the inventory is unchanged.
    pub fn insert_item(&mut self, index: usize, item: ItemDescriptor) -> (inserted: Option<()>)
        ensures
            inserted is Some == (index < old(self)@.items.len()),
            inserted is Some ==> final(self)@ == (InventoryView {
                items: old(self)@.items.insert(index as int, item@),
                ..old(self)@
            }),
            inserted is None ==> final(self)@ == old(self)@,
    {
        if index < self.items.len() {
            let ghost before = self@;
            self.items.insert(index, item);
            assert(self@.items =~= before.items.insert(index as int, item@));
            return Some(());
        }
        None
    }
}

impl Default for Inventory {
    /// An empty inventory with room for ten items.
    fn default() -> (inventory: Inventory)
        ensures
            inventory@ == (InventoryView { capacity: 10, items: Seq::empty() }),
    {
        Inventory::with_capacity(10)
    }
}

} // verus!
