//! The description of an item.
use vstd::prelude::*;

verus! {

/// The category of an item.
#[derive(Clone, Copy, Debug, PartialEq, Eq, Structural)]
pub enum ItemCategory {
    Misc,
    Food,
    PowerUp,
    Weapon,
    Key,
}

impl Default for ItemCategory {
    /// Miscellaneous.
    fn default() -> (category: ItemCategory)
        ensures
            category == ItemCategory::Misc,
    {
        ItemCategory::Misc
    }
}

/// Describes an item.
#[derive(Clone, Debug, PartialEq, Eq)]
pub struct ItemDescriptor {
    pub name: String,
    pub description: String,
    /// Where the item's picture is found among the assets.
    pub icon: String,
    pub category: ItemCategory,
}

/// An item's description as a mathematical value.
pub struct ItemDescriptorView {
    pub name: Seq<char>,
    pub description: Seq<char>,
    pub icon: Seq<char>,
    pub category: ItemCategory,
}

impl View for ItemDescriptor {
    type V = ItemDescriptorView;

    open spec fn view(&self) -> ItemDescriptorView {
        ItemDescriptorView {
            name: self.name@,
            description: self.description@,
            icon: self.icon@,
            category: self.category,
        }
    }
}

impl ItemDescriptor {
    /// A description with the given texts.
    pub fn new(name: &str, description: &str, icon: &str, category: ItemCategory) -> (item:
        ItemDescriptor)
        ensures
            item@ == (ItemDescriptorView {
                name: name@,
                description: description@,
                icon: icon@,
                category,
            }),
    {
        ItemDescriptor {
            name: name.to_owned(),
            description: description.to_owned(),
            icon: icon.to_owned(),
            category,
        }
    }

    /// A copy of this description.
    pub fn duplicate(&self) -> (copy: ItemDescriptor)
        ensures
            copy@ == self@,
    {
        ItemDescriptor {
            name: self.name.clone(),
            description: self.description.clone(),
            icon: self.icon.clone(),
            category: self.category,
        }
    }
}

/// The item that a body in the world stands for.
#[derive(Clone, Debug, PartialEq, Eq)]
pub struct RepresentingItem(pub ItemDescriptor);

impl View for RepresentingItem {
    type V = ItemDescriptorView;

    open spec fn view(&self) -> ItemDescriptorView {
        self.0@
    }
}

/// The descriptions of a list of items as mathematical values.
pub open spec fn descriptions(items: Seq<ItemDescriptor>) -> Seq<ItemDescriptorView> {
    Seq::new(items.len(), |k: int| items[k]@)
}

} // verus!
