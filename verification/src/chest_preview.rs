//! The HUD card of the looked-at block or structure: what it shows of the
//! target, whether it is a chest, and the preview of a chest's saved contents.
use vstd::prelude::*;
use crate::slots::{ItemId, InventorySlot, empty_slot};
use crate::registry::ItemRegistry;
use crate::text::{
    to_owned_string, eq_ignore_ascii_case, equals_ignore_ascii_case, to_ascii_lowercase, to_ascii_uppercase,
    ascii_lower, ascii_upper, is_prefix, starts_with, text_equals, trim, trim_seq,
};

verus! {

/// The registration a placed structure was built from.
pub struct StructureRegistration {
    /// Its name's translation key.
    pub name: String,
    pub localized_name: String,
    /// The block that stands for it, if any.
    pub block_id: Option<u16>,
}

/// What the world keeps about a placed structure.
pub struct PlacedStructureMetadata {
    pub recipe_name: String,
    pub registration: Option<StructureRegistration>,
    /// Its mining level.
    pub level: u8,
    pub place_origin: (i32, i32, i32),
}

pub open spec fn chest_meta(meta: PlacedStructureMetadata) -> bool {
    eq_ignore_ascii_case(meta.recipe_name@, "chest"@) || match meta.registration {
        Some(reg) => eq_ignore_ascii_case(reg.localized_name@, "chest_block"@),
        None => false,
    }
}

/// A structure is a chest when its recipe is `chest`, or its registration is
/// `chest_block`, ignoring ASCII case.
pub fn is_chest_structure_meta(meta: &PlacedStructureMetadata) -> (r: bool)
    ensures
        r == chest_meta(*meta),
{
    if equals_ignore_ascii_case(meta.recipe_name.as_str(), "chest") {
        return true;
    }
    match &meta.registration {
        Some(reg) => equals_ignore_ascii_case(reg.localized_name.as_str(), "chest_block"),
        None => false,
    }
}

/// One block definition: its namespaced name, its translation key and its
/// mining level.
pub struct BlockDef {
    pub localized_name: String,
    pub name: String,
    pub level: u8,
}

/// Block definitions; block id `n` is the definition at index `n`.
pub struct BlockRegistry {
    pub defs: Vec<BlockDef>,
}

pub open spec fn chest_block_def(def: BlockDef) -> bool {
    let localized = ascii_lower(def.localized_name@);
    let key = ascii_upper(def.name@);
    ||| localized == "chest_block"@
    ||| is_prefix("chest_block_r"@, localized)
    ||| key == "KEY_CHEST_BLOCK"@
    ||| is_prefix("KEY_CHEST_BLOCK_R"@, key)
}

pub open spec fn chest_block(block_id: u16, registry: BlockRegistry) -> bool {
    block_id != 0 && (block_id as int) < registry.defs@.len() && chest_block_def(
        registry.defs@[block_id as int],
    )
}

/// A block is a chest when its name is `chest_block` or one of its rotations
/// (`chest_block_r..`), or its key is `KEY_CHEST_BLOCK` or a rotation of it,
/// ignoring ASCII case; air (id 0) and unknown ids are not.
pub fn is_chest_block_id(block_id: u16, registry: &BlockRegistry) -> (r: bool)
    ensures
        r == chest_block(block_id, *registry),
{
    if block_id == 0 {
        return false;
    }
    if block_id as usize >= registry.defs.len() {
        return false;
    }
    let def = &registry.defs[block_id as usize];
    let localized = to_ascii_lowercase(def.localized_name.as_str());
    let key = to_ascii_uppercase(def.name.as_str());
    text_equals(localized.as_str(), "chest_block") || starts_with(localized.as_str(), "chest_block_r")
        || text_equals(key.as_str(), "KEY_CHEST_BLOCK") || starts_with(
        key.as_str(),
        "KEY_CHEST_BLOCK_R",
    )
}

/// One saved slot of a chest: its slot number, item name and count.
pub struct SavedChestSlot {
    pub slot: u32,
    pub item: String,
    pub count: u16,
}

/// A placed structure with the world position it was placed at and its
/// saved inventory.
pub struct StructureRecord {
    pub place_origin: (i32, i32, i32),
    pub inventory_slots: Vec<SavedChestSlot>,
}

/// What the HUD shows of a chest's contents.
pub struct ChestHudPreview {
    pub total_count: u32,
    pub slots: Vec<InventorySlot>,
    pub non_empty_count: usize,
}

/// The preview slot a saved slot fills, if it is usable: its number is a
/// slot of the chest, its count is not zero, and its (trimmed) item name
/// names an item.
pub open spec fn saved_slot_value(s: SavedChestSlot, reg: ItemRegistry, chest_slots: nat) -> Option<
    InventorySlot,
> {
    if s.slot as nat >= chest_slots || s.count == 0 || trim_seq(s.item@).len() == 0 {
        None
    } else {
        match reg.spec_id_opt(trim_seq(s.item@)) {
            Some(id) => Some(InventorySlot { item_id: id, count: s.count }),
            None => None,
        }
    }
}

/// The preview slots after the first `n` saved slots: each slot shows the
/// last usable saved slot with its number.
pub open spec fn preview_slots_upto(saved: Seq<SavedChestSlot>, reg: ItemRegistry, chest_slots: nat, n: int) -> Seq<
    InventorySlot,
>
    decreases n,
{
    if n <= 0 {
        Seq::new(chest_slots, |_i: int| empty_slot())
    } else {
        let prev = preview_slots_upto(saved, reg, chest_slots, n - 1);
        match saved_slot_value(saved[n - 1], reg, chest_slots) {
            Some(v) => prev.update(saved[n - 1].slot as int, v),
            None => prev,
        }
    }
}

/// The sum of the counts of the slots.
pub open spec fn count_sum(s: Seq<InventorySlot>) -> nat
    decreases s.len(),
{
    if s.len() == 0 {
        0
    } else {
        count_sum(s.drop_last()) + s.last().count as nat
    }
}

/// How many slots are not empty.
pub open spec fn non_empty(s: Seq<InventorySlot>) -> nat
    decreases s.len(),
{
    if s.len() == 0 {
        0
    } else {
        non_empty(s.drop_last()) + if s.last().spec_is_empty() {
            0nat
        } else {
            1nat
        }
    }
}

/// The index of the first record placed at `origin`.
pub open spec fn record_at(records: Seq<StructureRecord>, origin: (i32, i32, i32), i: int) -> Option<int>
    decreases records.len() - i,
{
    if i < 0 || i >= records.len() {
        None
    } else if records[i].place_origin == origin {
        Some(i)
    } else {
        record_at(records, origin, i + 1)
    }
}

proof fn lemma_count_sum_bound(s: Seq<InventorySlot>)
    ensures
        count_sum(s) <= s.len() * 65535,
        non_empty(s) <= s.len(),
    decreases s.len(),
{
    if s.len() > 0 {
        lemma_count_sum_bound(s.drop_last());
    }
}

fn find_record(records: &Vec<StructureRecord>, origin: (i32, i32, i32)) -> (r: Option<usize>)
    ensures
        match record_at(records@, origin, 0) {
            Some(k) => r == Some(k as usize),
            None => r is None,
        },
        r matches Some(k) ==> k < records@.len() && record_at(records@, origin, 0) == Some(k as int),
{
    let mut k: usize = 0;
    while k < records.len()
        invariant
            k <= records@.len(),
            record_at(records@, origin, 0) == record_at(records@, origin, k as int),
        decreases records.len() - k,
    {
        if records[k].place_origin.0 == origin.0 && records[k].place_origin.1 == origin.1
            && records[k].place_origin.2 == origin.2 {
            return Some(k);
        }
        k = k + 1;
    }
    None
}

/// The preview of the chest placed at `world_pos`, found among the structure
/// records of its chunk; `None` without records or without a chest there.
/// Each preview slot shows the last usable saved slot with its number (the
/// saved slots are taken in slot order, so that is the last one in their
/// order); totals count items and non-empty slots.
pub fn build_chest_hud_preview(
    world_pos: (i32, i32, i32),
    chunk_records: Option<&Vec<StructureRecord>>,
    chest_slots: usize,
    item_registry: &ItemRegistry,
) -> (r: Option<ChestHudPreview>)
    requires
        item_registry.wf(),
        chest_slots <= 65536,
    ensures
        match chunk_records {
            None => r is None,
            Some(recs) => match record_at(recs@, world_pos, 0) {
                None => r is None,
                Some(k) => r matches Some(p) && p.slots@ == preview_slots_upto(
                    recs@[k].inventory_slots@,
                    *item_registry,
                    chest_slots as nat,
                    recs@[k].inventory_slots@.len() as int,
                ) && p.total_count as nat == count_sum(p.slots@) && p.non_empty_count as nat
                    == non_empty(p.slots@),
            },
        },
{
    let records = match chunk_records {
        Some(recs) => recs,
        None => {
            return None;
        },
    };
    let k = match find_record(records, world_pos) {
        Some(k) => k,
        None => {
            return None;
        },
    };
    let saved = &records[k].inventory_slots;
    let mut slots: Vec<InventorySlot> = Vec::new();
    let mut i: usize = 0;
    while i < chest_slots
        invariant
            i <= chest_slots,
            slots@ == Seq::new(i as nat, |_i: int| empty_slot()),
        decreases chest_slots - i,
    {
        slots.push(InventorySlot::empty());
        assert(slots@ =~= Seq::new((i + 1) as nat, |_i: int| empty_slot()));
        i = i + 1;
    }
    let mut j: usize = 0;
    while j < saved.len()
        invariant
            item_registry.wf(),
            j <= saved@.len(),
            slots@ == preview_slots_upto(saved@, *item_registry, chest_slots as nat, j as int),
            slots@.len() == chest_slots,
        decreases saved.len() - j,
    {
        let s = &saved[j];
        if (s.slot as u64) < (chest_slots as u64) && s.count != 0 {
            let name = trim(s.item.as_str());
            if name.unicode_len() > 0 {
                match item_registry.id_opt(name) {
                    Some(item_id) => {
                        slots.set(s.slot as usize, InventorySlot { item_id, count: s.count });
                    },
                    None => {},
                }
            }
        }
        j = j + 1;
    }
    let mut total: u32 = 0;
    let mut filled: usize = 0;
    let mut m: usize = 0;
    while m < slots.len()
        invariant
            slots@.len() == chest_slots,
            chest_slots <= 65536,
            m <= slots@.len(),
            total as nat == count_sum(slots@.subrange(0, m as int)),
            filled as nat == non_empty(slots@.subrange(0, m as int)),
        decreases slots.len() - m,
    {
        proof {
            let p = slots@.subrange(0, m + 1);
            assert(p.drop_last() =~= slots@.subrange(0, m as int));
            lemma_count_sum_bound(slots@.subrange(0, m as int));
        }
        total = total + slots[m].count as u32;
        if !slots[m].is_empty() {
            filled = filled + 1;
        }
        m = m + 1;
    }
    assert(slots@.subrange(0, slots@.len() as int) =~= slots@);
    Some(ChestHudPreview { total_count: total, slots, non_empty_count: filled })
}

/// Stacks the compact chest preview shows.
pub const HUD_CHEST_PREVIEW_COMPACT_SLOTS: usize = 5;

/// The non-empty slots, in order.
pub open spec fn non_empty_slots(s: Seq<InventorySlot>) -> Seq<InventorySlot>
    decreases s.len(),
{
    if s.len() == 0 {
        s
    } else {
        let t = non_empty_slots(s.drop_last());
        if s.last().spec_is_empty() {
            t
        } else {
            t.push(s.last())
        }
    }
}

/// The first `k` elements (all of them where there are fewer).
pub open spec fn first_k(s: Seq<InventorySlot>, k: nat) -> Seq<InventorySlot> {
    if s.len() <= k {
        s
    } else {
        s.subrange(0, k as int)
    }
}

/// How the chest preview row lays out.
pub struct ChestHudLayout {
    /// The first non-empty stacks, as the compact row shows them.
    pub compact_items: Vec<InventorySlot>,
    /// More non-empty stacks than the compact row shows.
    pub compact_has_more: bool,
    pub row_visible: bool,
    /// The "more" marker of the compact row.
    pub more_visible: bool,
}

/// The chest preview's layout: expanded (while the sneak key is held) it
/// shows every slot in a grid; compact it shows the first non-empty stacks
/// and a marker when there are more, and hides while there is nothing.
pub fn chest_hud_layout(preview: &ChestHudPreview, show_expanded: bool) -> (r: ChestHudLayout)
    ensures
        r.compact_items@ == first_k(
            non_empty_slots(preview.slots@),
            HUD_CHEST_PREVIEW_COMPACT_SLOTS as nat,
        ),
        r.compact_has_more == (preview.non_empty_count > HUD_CHEST_PREVIEW_COMPACT_SLOTS),
        r.row_visible == (show_expanded || r.compact_items@.len() > 0 || r.compact_has_more),
        r.more_visible == (!show_expanded && r.compact_has_more),
{
    let mut compact: Vec<InventorySlot> = Vec::new();
    let mut i: usize = 0;
    while i < preview.slots.len()
        invariant
            i <= preview.slots@.len(),
            compact@ == first_k(
                non_empty_slots(preview.slots@.subrange(0, i as int)),
                HUD_CHEST_PREVIEW_COMPACT_SLOTS as nat,
            ),
        decreases preview.slots.len() - i,
    {
        let slot = preview.slots[i];
        let ghost t = non_empty_slots(preview.slots@.subrange(0, i as int));
        assert(preview.slots@.subrange(0, i + 1).drop_last() =~= preview.slots@.subrange(0, i as int));
        if !slot.is_empty() {
            if compact.len() < HUD_CHEST_PREVIEW_COMPACT_SLOTS {
                compact.push(slot);
            } else {
                assert(t.push(slot).subrange(0, HUD_CHEST_PREVIEW_COMPACT_SLOTS as int) =~= first_k(
                    t,
                    HUD_CHEST_PREVIEW_COMPACT_SLOTS as nat,
                ));
            }
        }
        i = i + 1;
    }
    assert(preview.slots@.subrange(0, i as int) =~= preview.slots@);
    let compact_has_more = preview.non_empty_count > HUD_CHEST_PREVIEW_COMPACT_SLOTS;
    let row_visible = show_expanded || compact.len() > 0 || compact_has_more;
    ChestHudLayout {
        compact_items: compact,
        compact_has_more,
        row_visible,
        more_visible: !show_expanded && compact_has_more,
    }
}

/// Whether preview slot `index` shows: every chest slot while expanded, the
/// compact row's stacks otherwise.
pub fn chest_hud_slot_shown(layout: &ChestHudLayout, show_expanded: bool, index: usize, chest_slots: usize) -> (r:
    bool)
    ensures
        r == if show_expanded {
            index < chest_slots
        } else {
            index < layout.compact_items@.len()
        },
{
    if show_expanded {
        index < chest_slots
    } else {
        index < layout.compact_items.len()
    }
}

/// The stack preview slot `index` shows (empty past the end).
pub fn chest_hud_slot_source(
    preview: &ChestHudPreview,
    layout: &ChestHudLayout,
    show_expanded: bool,
    index: usize,
) -> (r: InventorySlot)
    ensures
        ({
            let s = if show_expanded {
                preview.slots@
            } else {
                layout.compact_items@
            };
            r == if index < s.len() {
                s[index as int]
            } else {
                empty_slot()
            }
        }),
{
    let s = if show_expanded {
        &preview.slots
    } else {
        &layout.compact_items
    };
    if index < s.len() {
        s[index]
    } else {
        InventorySlot::empty()
    }
}

/// A block the player looks at, and where.
#[derive(Clone, Copy, Debug)]
pub struct BlockHit {
    pub block_id: u16,
    pub block_pos: (i32, i32, i32),
}

/// Where the card's title comes from: a block's localized name, a
/// translation key, or a plain name.
#[derive(Clone, PartialEq, Eq, Debug)]
pub enum LookedTitle {
    Block(u16),
    Key(String),
    Plain(String),
}

/// What the card shows of the looked-at target.
pub struct LookedCard {
    pub title: LookedTitle,
    pub localized_name: String,
    pub level: u8,
    /// The block whose item icon the card shows.
    pub icon_block_id: Option<u16>,
    /// The block whose mining progress the card shows, and where.
    pub progress_target: Option<((i32, i32, i32), u16)>,
    /// Where the chest preview looks for saved contents.
    pub world_pos: Option<(i32, i32, i32)>,
    pub is_chest: bool,
}

pub open spec fn title_view(t: LookedTitle) -> (int, Seq<char>) {
    match t {
        LookedTitle::Block(id) => (id as int, Seq::empty()),
        LookedTitle::Key(k) => (-1, k@),
        LookedTitle::Plain(p) => (-2, p@),
    }
}

pub open spec fn has_block_def(registry: BlockRegistry, id: u16) -> bool {
    (id as int) < registry.defs@.len()
}

/// The structure's block: its registration's block, unless that is air.
pub open spec fn structure_block(meta: PlacedStructureMetadata) -> Option<u16> {
    match meta.registration {
        Some(reg) => match reg.block_id {
            Some(id) => if id != 0 {
                Some(id)
            } else {
                None
            },
            None => None,
        },
        None => None,
    }
}

/// The card of a looked-at block, when the block is known.
pub open spec fn block_card_ok(c: LookedCard, hit: BlockHit, registry: BlockRegistry) -> bool {
    &&& title_view(c.title) == title_view(LookedTitle::Block(hit.block_id))
    &&& c.localized_name@ == registry.defs@[hit.block_id as int].localized_name@
    &&& c.level == registry.defs@[hit.block_id as int].level
    &&& c.icon_block_id == Some(hit.block_id)
    &&& c.progress_target == Some((hit.block_pos, hit.block_id))
    &&& c.world_pos == Some(hit.block_pos)
    &&& c.is_chest == chest_block(hit.block_id, registry)
}

/// The card of a looked-at structure: titled by its block, else by its
/// registration's key, else by its recipe; named by its block's localized
/// name (its recipe where the block is unknown), else by its registration's
/// key, else by its recipe.
pub open spec fn structure_card_ok(c: LookedCard, meta: PlacedStructureMetadata, registry: BlockRegistry) -> bool {
    &&& title_view(c.title) == match structure_block(meta) {
        Some(id) => title_view(LookedTitle::Block(id)),
        None => match meta.registration {
            Some(reg) => (-1int, reg.name@),
            None => (-2int, meta.recipe_name@),
        },
    }
    &&& c.localized_name@ == match structure_block(meta) {
        Some(id) => if has_block_def(registry, id) {
            registry.defs@[id as int].localized_name@
        } else {
            meta.recipe_name@
        },
        None => match meta.registration {
            Some(reg) => reg.name@,
            None => meta.recipe_name@,
        },
    }
    &&& c.level == meta.level
    &&& c.icon_block_id == structure_block(meta)
    &&& c.progress_target is None
    &&& c.world_pos == Some(meta.place_origin)
    &&& c.is_chest == chest_meta(meta)
}

fn copy_text(s: &String) -> (r: String)
    ensures
        r@ == s@,
{
    to_owned_string(s.as_str())
}

/// The card for what the player looks at: a (non-air) block hit first, whose
/// block must be known; else a looked-at structure, whose metadata must be
/// found (`structure` is `None` where it was not); else no card.
pub fn looked_card(
    hit: Option<BlockHit>,
    structure_hit: bool,
    structure: Option<&PlacedStructureMetadata>,
    registry: &BlockRegistry,
) -> (r: Option<LookedCard>)
    ensures
        match hit {
            Some(h) if h.block_id != 0 => if has_block_def(*registry, h.block_id) {
                r matches Some(c) && block_card_ok(c, h, *registry)
            } else {
                r is None
            },
            _ => if structure_hit {
                match structure {
                    Some(meta) => r matches Some(c) && structure_card_ok(c, *meta, *registry),
                    None => r is None,
                }
            } else {
                r is None
            },
        },
{
    match hit {
        Some(h) => {
            if h.block_id != 0 {
                if (h.block_id as usize) >= registry.defs.len() {
                    return None;
                }
                let def = &registry.defs[h.block_id as usize];
                return Some(
                    LookedCard {
                        title: LookedTitle::Block(h.block_id),
                        localized_name: copy_text(&def.localized_name),
                        level: def.level,
                        icon_block_id: Some(h.block_id),
                        progress_target: Some((h.block_pos, h.block_id)),
                        world_pos: Some(h.block_pos),
                        is_chest: is_chest_block_id(h.block_id, registry),
                    },
                );
            }
        },
        None => {},
    }
    if !structure_hit {
        return None;
    }
    let meta = match structure {
        Some(m) => m,
        None => return None,
    };
    let block_id: Option<u16> = match &meta.registration {
        Some(reg) => match reg.block_id {
            Some(id) => if id != 0 {
                Some(id)
            } else {
                None
            },
            None => None,
        },
        None => None,
    };
    let (title, localized_name) = match block_id {
        Some(id) => {
            let name = if (id as usize) < registry.defs.len() {
                copy_text(&registry.defs[id as usize].localized_name)
            } else {
                copy_text(&meta.recipe_name)
            };
            (LookedTitle::Block(id), name)
        },
        None => match &meta.registration {
            Some(reg) => (LookedTitle::Key(copy_text(&reg.name)), copy_text(&reg.name)),
            None => (LookedTitle::Plain(copy_text(&meta.recipe_name)), copy_text(&meta.recipe_name)),
        },
    };
    Some(
        LookedCard {
            title,
            localized_name,
            level: meta.level,
            icon_block_id: block_id,
            progress_target: None,
            world_pos: Some(meta.place_origin),
            is_chest: is_chest_structure_meta(meta),
        },
    )
}

} // verus!
