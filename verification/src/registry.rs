//! The item definitions the UI logic consults: keys, names, groups and the
//! block an item places. Item id `n` is the definition at index `n`; id 0 is
//! "no item" and has no definition.
use vstd::prelude::*;
use crate::slots::ItemId;
use crate::text::text_equals;

verus! {

pub struct ItemDef {
    /// Short key, e.g. `hammer`.
    pub key: String,
    /// Namespaced name, e.g. `oplexa:hammer`.
    pub localized_name: String,
    /// Groups the item belongs to (recipes may ask for "any item of group g").
    pub groups: Vec<String>,
    /// The block this item places, if it is a block item.
    pub block: Option<u16>,
    /// How many of the item one slot may hold.
    pub stack_limit: u16,
}

/// One entry of the table of related items: within `group`, the item that
/// goes with `item` (the log that goes with a kind of plank, say).
pub struct RelatedItem {
    pub item: ItemId,
    pub group: String,
    pub related: ItemId,
}

pub struct ItemRegistry {
    pub defs: Vec<ItemDef>,
    pub related_items: Vec<RelatedItem>,
}

/// Index of the first definition at or after `i` whose name is `name`.
pub open spec fn first_named_from(defs: Seq<ItemDef>, name: Seq<char>, i: int) -> Option<int>
    decreases defs.len() - i,
{
    if i < 1 || i >= defs.len() {
        None
    } else if defs[i].localized_name@ == name {
        Some(i)
    } else {
        first_named_from(defs, name, i + 1)
    }
}

/// Index of the first related-item entry at or after `i` for `item` in `group`.
pub open spec fn first_related_from(rel: Seq<RelatedItem>, item: ItemId, group: Seq<char>, i: int) -> Option<int>
    decreases rel.len() - i,
{
    if i < 0 || i >= rel.len() {
        None
    } else if rel[i].item == item && rel[i].group@ == group {
        Some(i)
    } else {
        first_related_from(rel, item, group, i + 1)
    }
}

impl ItemRegistry {
    pub open spec fn spec_has_def(&self, id: ItemId) -> bool {
        1 <= id && (id as int) < self.defs@.len()
    }

    pub open spec fn def_at(&self, id: ItemId) -> ItemDef {
        self.defs@[id as int]
    }

    /// Whether item `id` belongs to group `group`.
    pub open spec fn spec_has_group(&self, id: ItemId, group: Seq<char>) -> bool {
        self.spec_has_def(id) && exists|k: int|
            0 <= k < self.def_at(id).groups@.len() && #[trigger] self.def_at(id).groups@[k]@
                == group
    }

    pub fn has_def(&self, id: ItemId) -> (r: bool)
        ensures
            r == self.spec_has_def(id),
    {
        1 <= id && (id as usize) < self.defs.len()
    }

    pub fn has_group(&self, id: ItemId, group: &str) -> (r: bool)
        ensures
            r == self.spec_has_group(id, group@),
    {
        if !self.has_def(id) {
            return false;
        }
        let groups = &self.defs[id as usize].groups;
        let mut k: usize = 0;
        while k < groups.len()
            invariant
                self.spec_has_def(id),
                groups == &self.def_at(id).groups,
                k <= groups@.len(),
                forall|j: int| 0 <= j < k ==> groups@[j]@ != group@,
            decreases groups.len() - k,
        {
            if text_equals(groups[k].as_str(), group) {
                return true;
            }
            k = k + 1;
        }
        false
    }

    /// The stack limit of item `id`; an id without a definition has no limit
    /// of its own.
    pub open spec fn spec_stack_limit(&self, id: ItemId) -> u16 {
        if self.spec_has_def(id) {
            self.def_at(id).stack_limit
        } else {
            u16::MAX
        }
    }

    #[verifier::when_used_as_spec(spec_stack_limit)]
    pub fn stack_limit(&self, id: ItemId) -> (r: u16)
        ensures
            r == self.spec_stack_limit(id),
    {
        if self.has_def(id) {
            self.defs[id as usize].stack_limit
        } else {
            u16::MAX
        }
    }

    /// Whether the registry's ids fit in an item id.
    pub open spec fn wf(&self) -> bool {
        self.defs@.len() <= u16::MAX as nat + 1
    }

    /// The id of the item named `name`: the first definition with that name.
    pub open spec fn spec_id_opt(&self, name: Seq<char>) -> Option<ItemId> {
        match first_named_from(self.defs@, name, 1) {
            Some(i) => Some(i as ItemId),
            None => None,
        }
    }

    /// The item of `group` related to `item`, from the table of related items.
    pub open spec fn spec_related_item_in_group(&self, item: ItemId, group: Seq<char>) -> Option<ItemId> {
        match first_related_from(self.related_items@, item, group, 0) {
            Some(i) => Some(self.related_items@[i].related),
            None => None,
        }
    }

    pub fn id_opt(&self, name: &str) -> (r: Option<ItemId>)
        requires
            self.wf(),
        ensures
            r == self.spec_id_opt(name@),
    {
        let mut i: usize = 1;
        while i < self.defs.len()
            invariant
                1 <= i,
                self.defs@.len() <= u16::MAX as nat + 1,
                first_named_from(self.defs@, name@, 1) == first_named_from(self.defs@, name@, i as int),
            decreases self.defs.len() - i,
        {
            if text_equals(self.defs[i].localized_name.as_str(), name) {
                return Some(i as ItemId);
            }
            i = i + 1;
        }
        None
    }

    pub fn related_item_in_group(&self, item: ItemId, group: &str) -> (r: Option<ItemId>)
        ensures
            r == self.spec_related_item_in_group(item, group@),
    {
        let mut i: usize = 0;
        while i < self.related_items.len()
            invariant
                first_related_from(self.related_items@, item, group@, 0) == first_related_from(
                    self.related_items@,
                    item,
                    group@,
                    i as int,
                ),
            decreases self.related_items.len() - i,
        {
            let entry = &self.related_items[i];
            if entry.item == item && text_equals(entry.group.as_str(), group) {
                return Some(entry.related);
            }
            i = i + 1;
        }
        None
    }

    /// The block placed by item `id`, if any.
    pub fn block_for_item(&self, id: ItemId) -> (r: Option<u16>)
        ensures
            r == if self.spec_has_def(id) {
                self.def_at(id).block
            } else {
                None
            },
    {
        if self.has_def(id) {
            self.defs[id as usize].block
        } else {
            None
        }
    }
}

} // verus!
