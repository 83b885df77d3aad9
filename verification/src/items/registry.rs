//! The kinds of item that exist, by name.
use crate::items::descriptor::{ItemCategory, ItemDescriptor, ItemDescriptorView};
use vstd::prelude::*;

verus! {

/// The registry of items: the description of each kind of item under the name
/// by which it is spawned.
///
/// The descriptions are kept in a `hashbrown::HashMap`. What the map holds is
/// taken on trust from the map's own methods: nothing in this library looks
/// inside it.
#[verifier::external_body]
pub struct ItemRegistry {
    items: hashbrown::HashMap<String, ItemDescriptor>,
}

/// The descriptions that a registry holds, by name: the pairs of key and
/// value of its map, each taken as a mathematical value.
pub uninterp spec fn registered(registry: ItemRegistry) -> Map<Seq<char>, ItemDescriptorView>;

/// The contents of a registry without items.
pub open spec fn nothing_registered() -> Map<Seq<char>, ItemDescriptorView> {
    Map::empty()
}

impl ItemRegistry {
    /// `hashbrown::HashMap::new`: makes a map that holds nothing.
    #[verifier::external_body]
    pub(crate) fn create() -> (registry: ItemRegistry)
        ensures
            registered(registry) == nothing_registered(),
    {
        ItemRegistry { items: hashbrown::HashMap::new() }
    }

    /// `hashbrown::HashMap::insert`: afterwards the map holds the value under
    /// the key and is otherwise as before. What is returned is `Some` exactly
    /// when the map held a value under the key before, and is then that
    /// value.
    #[verifier::external_body]
    pub(crate) fn put(&mut self, name: String, item: ItemDescriptor) -> (replaced: Option<
        ItemDescriptor,
    >)
        ensures
            registered(*final(self)) == registered(*old(self)).insert(name@, item@),
            replaced is Some == registered(*old(self)).contains_key(name@),
            replaced is Some ==> replaced->0@ == registered(*old(self))[name@],
    {
        self.items.insert(name, item)
    }

    /// `hashbrown::HashMap::get`: what is returned is `Some` exactly when the
    /// map holds a value under the key, and is then that value.
    #[verifier::external_body]
    pub(crate) fn lookup(&self, name: &String) -> (found: Option<&ItemDescriptor>)
        ensures
            found is Some == registered(*self).contains_key(name@),
            found is Some ==> found->0@ == registered(*self)[name@],
    {
        self.items.get(name)
    }

    /// A registry without items.
    pub fn new() -> (registry: ItemRegistry)
        ensures
            registered(registry) == nothing_registered(),
    {
        ItemRegistry::create()
    }

    /// Registers an item under a name. An item registered under that name
    /// before is replaced.
    pub fn register(&mut self, name: String, item: ItemDescriptor)
        ensures
            registered(*final(self)) == registered(*old(self)).insert(name@, item@),
    {
        let _ = self.put(name, item);
    }

    /// The item registered under a name, if there is one.
    pub fn find(&self, name: &String) -> (found: Option<&ItemDescriptor>)
        ensures
            found is Some == registered(*self).contains_key(name@),
            found is Some ==> found->0@ == registered(*self)[name@],
    {
        self.lookup(name)
    }
}

impl Default for ItemRegistry {
    /// A registry without items.
    fn default() -> (registry: ItemRegistry)
        ensures
            registered(registry) == nothing_registered(),
    {
        ItemRegistry::create()
    }
}

/// The mirror.
pub open spec fn spec_mirror() -> ItemDescriptorView {
    ItemDescriptorView {
        name: "Mirror"@,
        description: "A cute little mirror, in the impractical shape of a circle"@,
        icon: "sprites/items/misc/mirror.png"@,
        category: ItemCategory::Misc,
    }
}

/// The monocle.
pub open spec fn spec_monocle() -> ItemDescriptorView {
    ItemDescriptorView {
        name: "Monocle"@,
        description: "For people who are only half sightless."@,
        icon: "sprites/items/misc/monocle.png"@,
        category: ItemCategory::Misc,
    }
}

/// The bean.
pub open spec fn spec_bean() -> ItemDescriptorView {
    ItemDescriptorView {
        name: "Bean"@,
        description: "A bean, for those who like beans."@,
        icon: "sprites/items/food/bean.png"@,
        category: ItemCategory::Food,
    }
}

/// Registers the items of the game: the mirror, the monocle and the bean.
pub fn register_items(registry: &mut ItemRegistry)
    ensures
        registered(*final(registry)) == registered(*old(registry)).insert(
            "mirror"@,
            spec_mirror(),
        ).insert("monocle"@, spec_monocle()).insert("bean"@, spec_bean()),
{
    registry.register(
        "mirror".to_owned(),
        ItemDescriptor::new(
            "Mirror",
            "A cute little mirror, in the impractical shape of a circle",
            "sprites/items/misc/mirror.png",
            ItemCategory::Misc,
        ),
    );
    registry.register(
        "monocle".to_owned(),
        ItemDescriptor::new(
            "Monocle",
            "For people who are only half sightless.",
            "sprites/items/misc/monocle.png",
            ItemCategory::Misc,
        ),
    );
    registry.register(
        "bean".to_owned(),
        ItemDescriptor::new(
            "Bean",
            "A bean, for those who like beans.",
            "sprites/items/food/bean.png",
            ItemCategory::Food,
        ),
    );
}

} // verus!
