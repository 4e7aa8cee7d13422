//! The variants the recipe preview dialog offers for one item, how variants
//! that differ only in interchangeable items of one group merge into one, and
//! the dialog's state: which variant is shown, on which tab page.
use vstd::prelude::*;
use crate::slots::{ItemId, InventorySlot, empty_slot};
use crate::registry::ItemRegistry;
use crate::recipe_preview::{RecipePreviewCraftingType, share_group};
use crate::css_ids::{RECIPE_PREVIEW_INPUT_SLOTS, RECIPE_PREVIEW_TABS_PER_PAGE};
use crate::text::push_decimal;

verus! {

/// One way to craft the previewed item, as the dialog shows it.
pub struct RecipePreviewVariant {
    pub crafting_type: RecipePreviewCraftingType,
    pub input_slot_count: usize,
    /// One slot per preview input slot.
    pub input_slots: Vec<InventorySlot>,
    /// Per input slot, the items that may stand in it (empty: only the one shown).
    pub input_slot_alternatives: Vec<Vec<ItemId>>,
    pub result_slot: InventorySlot,
}

/// A variant as plain values.
pub struct VariantView {
    pub crafting_type: RecipePreviewCraftingType,
    pub input_slot_count: usize,
    pub input_slots: Seq<InventorySlot>,
    pub alternatives: Seq<Seq<ItemId>>,
    pub result_slot: InventorySlot,
}

pub open spec fn alternatives_view(a: Seq<Vec<ItemId>>) -> Seq<Seq<ItemId>> {
    Seq::new(a.len(), |i: int| a[i]@)
}

impl View for RecipePreviewVariant {
    type V = VariantView;

    open spec fn view(&self) -> VariantView {
        VariantView {
            crafting_type: self.crafting_type,
            input_slot_count: self.input_slot_count,
            input_slots: self.input_slots@,
            alternatives: alternatives_view(self.input_slot_alternatives@),
            result_slot: self.result_slot,
        }
    }
}

impl VariantView {
    /// One input slot and one list of alternatives per preview input slot.
    pub open spec fn wf(&self) -> bool {
        self.input_slots.len() == RECIPE_PREVIEW_INPUT_SLOTS && self.alternatives.len()
            == RECIPE_PREVIEW_INPUT_SLOTS
    }
}

pub open spec fn views_of(v: Seq<RecipePreviewVariant>) -> Seq<VariantView> {
    Seq::new(v.len(), |i: int| v[i]@)
}

fn copy_ids(v: &Vec<ItemId>) -> (r: Vec<ItemId>)
    ensures
        r@ == v@,
{
    let mut out: Vec<ItemId> = Vec::new();
    let mut i: usize = 0;
    while i < v.len()
        invariant
            i <= v@.len(),
            out@ == v@.subrange(0, i as int),
        decreases v.len() - i,
    {
        out.push(v[i]);
        assert(v@.subrange(0, i + 1) =~= v@.subrange(0, i as int).push(v@[i as int]));
        i = i + 1;
    }
    assert(v@.subrange(0, v@.len() as int) =~= v@);
    out
}

fn copy_slots(v: &Vec<InventorySlot>) -> (r: Vec<InventorySlot>)
    ensures
        r@ == v@,
{
    let mut out: Vec<InventorySlot> = Vec::new();
    let mut i: usize = 0;
    while i < v.len()
        invariant
            i <= v@.len(),
            out@ == v@.subrange(0, i as int),
        decreases v.len() - i,
    {
        out.push(v[i]);
        assert(v@.subrange(0, i + 1) =~= v@.subrange(0, i as int).push(v@[i as int]));
        i = i + 1;
    }
    assert(v@.subrange(0, v@.len() as int) =~= v@);
    out
}

impl RecipePreviewVariant {
    /// A copy of the variant.
    pub fn duplicate(&self) -> (r: RecipePreviewVariant)
        ensures
            r@ == self@,
    {
        let mut alts: Vec<Vec<ItemId>> = Vec::new();
        let mut i: usize = 0;
        while i < self.input_slot_alternatives.len()
            invariant
                i <= self.input_slot_alternatives@.len(),
                alts@.len() == i,
                forall|k: int| 0 <= k < i ==> (#[trigger] alts@[k])@ == self.input_slot_alternatives@[k]@,
            decreases self.input_slot_alternatives.len() - i,
        {
            alts.push(copy_ids(&self.input_slot_alternatives[i]));
            i = i + 1;
        }
        assert(alternatives_view(alts@) =~= alternatives_view(self.input_slot_alternatives@));
        RecipePreviewVariant {
            crafting_type: self.crafting_type,
            input_slot_count: self.input_slot_count,
            input_slots: copy_slots(&self.input_slots),
            input_slot_alternatives: alts,
            result_slot: self.result_slot,
        }
    }
}

// ---------------------------------------------------------------------------
// Sorted lists of distinct item ids
// ---------------------------------------------------------------------------

/// `x` inserted into an ascending list after every element not larger than it.
pub open spec fn insert_ascending(s: Seq<ItemId>, x: ItemId) -> Seq<ItemId>
    decreases s.len(),
{
    if s.len() == 0 || s.last() <= x {
        s.push(x)
    } else {
        insert_ascending(s.drop_last(), x).push(s.last())
    }
}

/// The distinct elements of `s` in ascending order (`sort_unstable` then `dedup`).
pub open spec fn sorted_distinct(s: Seq<ItemId>) -> Seq<ItemId>
    decreases s.len(),
{
    if s.len() == 0 {
        s
    } else {
        let t = sorted_distinct(s.drop_last());
        if t.contains(s.last()) {
            t
        } else {
            insert_ascending(t, s.last())
        }
    }
}

pub open spec fn strictly_ascending(s: Seq<ItemId>) -> bool {
    forall|i: int, j: int| 0 <= i < j < s.len() ==> #[trigger] s[i] < #[trigger] s[j]
}

proof fn lemma_insert_ascending_at(s: Seq<ItemId>, x: ItemId, j: int)
    requires
        0 <= j <= s.len(),
        j == 0 || s[j - 1] <= x,
        forall|k: int| j <= k < s.len() ==> #[trigger] s[k] > x,
    ensures
        insert_ascending(s, x) == s.insert(j, x),
    decreases s.len() - j,
{
    if j == s.len() {
        assert(s.insert(j, x) =~= s.push(x));
    } else {
        lemma_insert_ascending_at(s.drop_last(), x, j);
        assert(s.insert(j, x) =~= s.drop_last().insert(j, x).push(s.last()));
    }
}

proof fn lemma_insert_ascending(s: Seq<ItemId>, x: ItemId)
    requires
        strictly_ascending(s),
        !s.contains(x),
    ensures
        strictly_ascending(insert_ascending(s, x)),
        forall|y: ItemId| #[trigger] insert_ascending(s, x).contains(y) <==> (s.contains(y) || y == x),
    decreases s.len(),
{
    if s.len() == 0 || s.last() <= x {
        let t = s.push(x);
        if s.len() > 0 {
            assert(s.last() != x);
        }
        assert forall|i: int, j: int| 0 <= i < j < t.len() implies #[trigger] t[i] < #[trigger] t[j] by {
            if j == s.len() && i < s.len() {
                assert(s[i] <= s[s.len() - 1]);
            }
        }
        assert forall|y: ItemId| #[trigger] t.contains(y) <==> (s.contains(y) || y == x) by {
            if t.contains(y) {
                let k = choose|k: int| 0 <= k < t.len() && t[k] == y;
                if k < s.len() {
                    assert(s[k] == y);
                }
            }
            if s.contains(y) {
                let k = choose|k: int| 0 <= k < s.len() && s[k] == y;
                assert(t[k] == y);
            }
            if y == x {
                assert(t[s.len() as int] == x);
            }
        }
    } else {
        let p = s.drop_last();
        assert(strictly_ascending(p));
        assert(!p.contains(x)) by {
            if p.contains(x) {
                let k = choose|k: int| 0 <= k < p.len() && p[k] == x;
                assert(s[k] == x);
            }
        }
        lemma_insert_ascending(p, x);
        let u = insert_ascending(p, x);
        let t = u.push(s.last());
        assert forall|i: int, j: int| 0 <= i < j < t.len() implies #[trigger] t[i] < #[trigger] t[j] by {
            if j == u.len() && i < u.len() {
                let e = u[i];
                assert(u.contains(e));
                if e != x {
                    assert(p.contains(e));
                    let k = choose|k: int| 0 <= k < p.len() && p[k] == e;
                    assert(s[k] < s[s.len() - 1]);
                }
            }
        }
        assert forall|y: ItemId| #[trigger] t.contains(y) <==> (s.contains(y) || y == x) by {
            if t.contains(y) {
                let k = choose|k: int| 0 <= k < t.len() && t[k] == y;
                if k < u.len() {
                    assert(u.contains(y));
                    if y != x {
                        assert(p.contains(y));
                        let m = choose|m: int| 0 <= m < p.len() && p[m] == y;
                        assert(s[m] == y);
                    }
                } else {
                    assert(s[s.len() - 1] == y);
                }
            }
            if s.contains(y) {
                let k = choose|k: int| 0 <= k < s.len() && s[k] == y;
                if k < p.len() {
                    assert(p[k] == y);
                    assert(u.contains(y));
                    let m = choose|m: int| 0 <= m < u.len() && u[m] == y;
                    assert(t[m] == y);
                } else {
                    assert(t[u.len() as int] == y);
                }
            }
            if y == x {
                assert(u.contains(x));
                let m = choose|m: int| 0 <= m < u.len() && u[m] == x;
                assert(t[m] == x);
            }
        }
    }
}

/// The merged list of alternatives is ascending, holds no item twice, and
/// holds exactly the items of the input.
pub proof fn lemma_sorted_distinct(s: Seq<ItemId>)
    ensures
        strictly_ascending(sorted_distinct(s)),
        forall|y: ItemId| #[trigger] sorted_distinct(s).contains(y) <==> s.contains(y),
    decreases s.len(),
{
    if s.len() > 0 {
        let p = s.drop_last();
        lemma_sorted_distinct(p);
        let t = sorted_distinct(p);
        if !t.contains(s.last()) {
            lemma_insert_ascending(t, s.last());
        }
        assert forall|y: ItemId| #[trigger] sorted_distinct(s).contains(y) <==> s.contains(y) by {
            if s.contains(y) {
                let k = choose|k: int| 0 <= k < s.len() && s[k] == y;
                if k < p.len() {
                    assert(p[k] == y);
                }
            }
            if p.contains(y) {
                let k = choose|k: int| 0 <= k < p.len() && p[k] == y;
                assert(s[k] == y);
            }
        }
    }
}

/// The distinct ids of `v`, ascending.
pub fn sort_dedup_ids(v: &Vec<ItemId>) -> (r: Vec<ItemId>)
    ensures
        r@ == sorted_distinct(v@),
{
    let mut out: Vec<ItemId> = Vec::new();
    let mut i: usize = 0;
    while i < v.len()
        invariant
            i <= v@.len(),
            out@ == sorted_distinct(v@.subrange(0, i as int)),
        decreases v.len() - i,
    {
        let x = v[i];
        proof {
            let p = v@.subrange(0, i + 1);
            assert(p.drop_last() =~= v@.subrange(0, i as int));
            assert(p.last() == x);
        }
        let mut present = false;
        let mut k: usize = 0;
        while k < out.len()
            invariant
                k <= out@.len(),
                present == out@.subrange(0, k as int).contains(x),
            decreases out.len() - k,
        {
            if out[k] == x {
                present = true;
            }
            proof {
                let q = out@.subrange(0, k + 1);
                if q.contains(x) && !out@.subrange(0, k as int).contains(x) {
                    let m = choose|m: int| 0 <= m < q.len() && q[m] == x;
                    assert(m == k);
                }
                if out@.subrange(0, k as int).contains(x) {
                    let m = choose|m: int| 0 <= m < k && out@.subrange(0, k as int)[m] == x;
                    assert(q[m] == x);
                }
                if out@[k as int] == x {
                    assert(q[k as int] == x);
                }
            }
            k = k + 1;
        }
        assert(out@.subrange(0, out@.len() as int) =~= out@);
        if !present {
            let mut j: usize = out.len();
            while j > 0 && out[j - 1] > x
                invariant
                    j <= out@.len(),
                    forall|m: int| j <= m < out@.len() ==> #[trigger] out@[m] > x,
                decreases j,
            {
                j = j - 1;
            }
            proof {
                lemma_insert_ascending_at(out@, x, j as int);
            }
            out.insert(j, x);
        }
        i = i + 1;
    }
    assert(v@.subrange(0, v@.len() as int) =~= v@);
    out
}

// ---------------------------------------------------------------------------
// Merging variants
// ---------------------------------------------------------------------------

/// Whether two input slots can be shown as one: both empty, or both holding
/// the same count of the same item or of two items sharing a group.
pub open spec fn slots_mergeable(l: InventorySlot, r: InventorySlot, reg: ItemRegistry) -> bool {
    &&& l.spec_is_empty() == r.spec_is_empty()
    &&& l.count == r.count
    &&& (l.spec_is_empty() || l.item_id == r.item_id || share_group(reg, l.item_id, r.item_id))
}

/// Whether two variants can be shown as one.
pub open spec fn variants_mergeable(l: VariantView, r: VariantView, reg: ItemRegistry) -> bool {
    &&& l.crafting_type == r.crafting_type
    &&& l.input_slot_count == r.input_slot_count
    &&& l.result_slot == r.result_slot
    &&& forall|i: int|
        0 <= i < RECIPE_PREVIEW_INPUT_SLOTS ==> slots_mergeable(
            #[trigger] l.input_slots[i],
            r.input_slots[i],
            reg,
        )
}

/// Whether two variants differ only in items that share a group, slot by slot.
pub fn can_merge_recipe_preview_variants(
    left: &RecipePreviewVariant,
    right: &RecipePreviewVariant,
    item_registry: &ItemRegistry,
) -> (r: bool)
    requires
        left@.wf(),
        right@.wf(),
    ensures
        r == variants_mergeable(left@, right@, *item_registry),
{
    if left.crafting_type != right.crafting_type || left.input_slot_count != right.input_slot_count
        || left.result_slot != right.result_slot {
        return false;
    }
    let mut i: usize = 0;
    while i < RECIPE_PREVIEW_INPUT_SLOTS
        invariant
            left@.wf(),
            right@.wf(),
            i <= RECIPE_PREVIEW_INPUT_SLOTS,
            forall|k: int|
                0 <= k < i ==> slots_mergeable(
                    #[trigger] left@.input_slots[k],
                    right@.input_slots[k],
                    *item_registry,
                ),
        decreases RECIPE_PREVIEW_INPUT_SLOTS - i,
    {
        let l = left.input_slots[i];
        let r = right.input_slots[i];
        if l.is_empty() != r.is_empty() || l.count != r.count {
            assert(!slots_mergeable(left@.input_slots[i as int], right@.input_slots[i as int], *item_registry));
            return false;
        }
        if !l.is_empty() && l.item_id != r.item_id {
            if !crate::recipe_preview::items_share_any_group(item_registry, l.item_id, r.item_id) {
                assert(!slots_mergeable(left@.input_slots[i as int], right@.input_slots[i as int], *item_registry));
                return false;
            }
        }
        i = i + 1;
    }
    true
}

/// The alternatives of a merged slot: the target's own (or its item, if it
/// had none), the source's item and the source's alternatives, distinct and
/// ascending.
pub open spec fn merged_alternatives(t_alts: Seq<ItemId>, t_id: ItemId, s_id: ItemId, s_alts: Seq<ItemId>) -> Seq<ItemId> {
    let base = if t_alts.len() == 0 {
        seq![t_id]
    } else {
        t_alts
    };
    sorted_distinct(base.push(s_id) + s_alts)
}

/// Whether slot `i` of the two variants holds different items.
pub open spec fn slots_differ(t: VariantView, s: VariantView, i: int) -> bool {
    !t.input_slots[i].spec_is_empty() && !s.input_slots[i].spec_is_empty() && t.input_slots[i].item_id
        != s.input_slots[i].item_id
}

/// The target variant with the source merged in: where the two show different
/// items, the slot lists both as alternatives and shows the smallest.
pub open spec fn merged_view(t: VariantView, s: VariantView) -> VariantView {
    VariantView {
        input_slots: Seq::new(
            t.input_slots.len(),
            |i: int|
                if slots_differ(t, s, i) {
                    InventorySlot {
                        item_id: merged_alternatives(
                            t.alternatives[i],
                            t.input_slots[i].item_id,
                            s.input_slots[i].item_id,
                            s.alternatives[i],
                        )[0],
                        count: t.input_slots[i].count,
                    }
                } else {
                    t.input_slots[i]
                },
        ),
        alternatives: Seq::new(
            t.alternatives.len(),
            |i: int|
                if slots_differ(t, s, i) {
                    merged_alternatives(
                        t.alternatives[i],
                        t.input_slots[i].item_id,
                        s.input_slots[i].item_id,
                        s.alternatives[i],
                    )
                } else {
                    t.alternatives[i]
                },
        ),
        ..t
    }
}

/// Merges `source` into `target`, slot by slot.
pub fn merge_recipe_preview_variant(target: &mut RecipePreviewVariant, source: &RecipePreviewVariant)
    requires
        old(target)@.wf(),
        source@.wf(),
    ensures
        final(target)@ == merged_view(old(target)@, source@),
        final(target)@.wf(),
{
    let ghost t0 = target@;
    let mut i: usize = 0;
    while i < RECIPE_PREVIEW_INPUT_SLOTS
        invariant
            t0 == old(target)@,
            t0.wf(),
            source@.wf(),
            i <= RECIPE_PREVIEW_INPUT_SLOTS,
            target.input_slots@.len() == RECIPE_PREVIEW_INPUT_SLOTS,
            target.input_slot_alternatives@.len() == RECIPE_PREVIEW_INPUT_SLOTS,
            target.crafting_type == t0.crafting_type,
            target.input_slot_count == t0.input_slot_count,
            target.result_slot == t0.result_slot,
            forall|k: int|
                0 <= k < i ==> #[trigger] target.input_slots@[k] == merged_view(t0, source@).input_slots[k],
            forall|k: int|
                0 <= k < i ==> (#[trigger] target.input_slot_alternatives@[k])@ == merged_view(
                    t0,
                    source@,
                ).alternatives[k],
            forall|k: int|
                i <= k < RECIPE_PREVIEW_INPUT_SLOTS ==> #[trigger] target.input_slots@[k]
                    == t0.input_slots[k],
            forall|k: int|
                i <= k < RECIPE_PREVIEW_INPUT_SLOTS ==> (#[trigger] target.input_slot_alternatives@[k])@
                    == t0.alternatives[k],
        decreases RECIPE_PREVIEW_INPUT_SLOTS - i,
    {
        let target_slot = target.input_slots[i];
        let source_slot = source.input_slots[i];
        if !(target_slot.is_empty() || source_slot.is_empty() || target_slot.item_id
            == source_slot.item_id) {
            let mut list: Vec<ItemId> = if target.input_slot_alternatives[i].len() == 0 {
                let mut v: Vec<ItemId> = Vec::new();
                v.push(target_slot.item_id);
                v
            } else {
                copy_ids(&target.input_slot_alternatives[i])
            };
            list.push(source_slot.item_id);
            let mut k: usize = 0;
            let ghost base = list@;
            while k < source.input_slot_alternatives[i].len()
                invariant
                    source@.wf(),
                    i < RECIPE_PREVIEW_INPUT_SLOTS,
                    k <= source@.alternatives[i as int].len(),
                    list@ == base + source@.alternatives[i as int].subrange(0, k as int),
                decreases source@.alternatives[i as int].len() - k,
            {
                list.push(source.input_slot_alternatives[i][k]);
                assert(base + source@.alternatives[i as int].subrange(0, k + 1) =~= (base
                    + source@.alternatives[i as int].subrange(0, k as int)).push(
                    source@.alternatives[i as int][k as int],
                ));
                k = k + 1;
            }
            assert(source@.alternatives[i as int].subrange(
                0,
                source@.alternatives[i as int].len() as int,
            ) =~= source@.alternatives[i as int]);
            let merged = sort_dedup_ids(&list);
            proof {
                let m = merged_alternatives(
                    t0.alternatives[i as int],
                    t0.input_slots[i as int].item_id,
                    source@.input_slots[i as int].item_id,
                    source@.alternatives[i as int],
                );
                assert(merged@ == m);
                lemma_sorted_distinct(base + source@.alternatives[i as int]);
                assert(base.contains(target_slot.item_id) || base.len() > 0);
                assert((base + source@.alternatives[i as int])[base.len() - 1] == source_slot.item_id);
                assert(m.contains(source_slot.item_id));
            }
            let first = merged[0];
            target.input_slot_alternatives.set(i, merged);
            target.input_slots.set(i, InventorySlot { item_id: first, count: target_slot.count });
        }
        proof {
            assert(target.input_slots@[i as int] == merged_view(t0, source@).input_slots[i as int]);
            assert(target.input_slot_alternatives@[i as int]@ == merged_view(
                t0,
                source@,
            ).alternatives[i as int]);
        }
        i = i + 1;
    }
    assert(target@.input_slots =~= merged_view(t0, source@).input_slots);
    assert(target@.alternatives =~= merged_view(t0, source@).alternatives);
}

/// Index of the first variant at or after `i` that the candidate merges into.
pub open spec fn first_mergeable_from(vs: Seq<VariantView>, cand: VariantView, reg: ItemRegistry, i: int) -> Option<int>
    decreases vs.len() - i,
{
    if i < 0 || i >= vs.len() {
        None
    } else if variants_mergeable(vs[i], cand, reg) {
        Some(i)
    } else {
        first_mergeable_from(vs, cand, reg, i + 1)
    }
}

/// The variants after offering a candidate: merged into the first variant it
/// merges with, or appended.
pub open spec fn pushed_or_merged(vs: Seq<VariantView>, cand: VariantView, reg: ItemRegistry) -> Seq<VariantView> {
    match first_mergeable_from(vs, cand, reg, 0) {
        Some(k) => vs.update(k, merged_view(vs[k], cand)),
        None => vs.push(cand),
    }
}

pub open spec fn all_wf(vs: Seq<VariantView>) -> bool {
    forall|i: int| 0 <= i < vs.len() ==> (#[trigger] vs[i]).wf()
}

proof fn lemma_first_mergeable_from(vs: Seq<VariantView>, cand: VariantView, reg: ItemRegistry, i: int)
    requires
        0 <= i,
    ensures
        first_mergeable_from(vs, cand, reg, i) matches Some(k) ==> i <= k < vs.len(),
    decreases vs.len() - i,
{
    if i < vs.len() && !variants_mergeable(vs[i], cand, reg) {
        lemma_first_mergeable_from(vs, cand, reg, i + 1);
    }
}

/// Adds a candidate variant: merged into the first existing variant it can be
/// merged with, else appended.
pub fn push_or_merge_recipe_preview_variant(
    variants: &mut Vec<RecipePreviewVariant>,
    candidate: RecipePreviewVariant,
    item_registry: &ItemRegistry,
)
    requires
        all_wf(views_of(old(variants)@)),
        candidate@.wf(),
    ensures
        views_of(final(variants)@) == pushed_or_merged(
            views_of(old(variants)@),
            candidate@,
            *item_registry,
        ),
        all_wf(views_of(final(variants)@)),
{
    let ghost vs0 = views_of(variants@);
    let mut i: usize = 0;
    while i < variants.len()
        invariant
            vs0 == views_of(old(variants)@),
            variants@ == old(variants)@,
            all_wf(vs0),
            candidate@.wf(),
            i <= variants@.len(),
            first_mergeable_from(vs0, candidate@, *item_registry, 0) == first_mergeable_from(
                vs0,
                candidate@,
                *item_registry,
                i as int,
            ),
        decreases variants.len() - i,
    {
        assert(vs0[i as int] == variants@[i as int]@);
        assert(vs0[i as int].wf());
        if can_merge_recipe_preview_variants(&variants[i], &candidate, item_registry) {
            let mut merged = variants[i].duplicate();
            merge_recipe_preview_variant(&mut merged, &candidate);
            variants.set(i, merged);
            proof {
                assert(views_of(variants@) =~= vs0.update(i as int, merged_view(vs0[i as int], candidate@)));
            }
            return;
        }
        i = i + 1;
    }
    variants.push(candidate);
    assert(views_of(variants@) =~= vs0.push(candidate@));
}

// ---------------------------------------------------------------------------
// Dialog state
// ---------------------------------------------------------------------------

/// The state of the recipe preview dialog.
pub struct RecipePreviewDialogState {
    pub open: bool,
    pub variants: Vec<RecipePreviewVariant>,
    pub selected_variant_index: usize,
    pub tab_page: usize,
    pub crafting_type: Option<RecipePreviewCraftingType>,
    pub input_slot_count: usize,
    /// One slot per preview input slot.
    pub input_slots: Vec<InventorySlot>,
    pub result_slot: InventorySlot,
}

impl RecipePreviewDialogState {
    pub open spec fn wf(&self) -> bool {
        &&& self.input_slots@.len() == RECIPE_PREVIEW_INPUT_SLOTS
        &&& all_wf(views_of(self.variants@))
    }

    /// Whether the dialog shows variant `k` of its variants: its grid, slot
    /// count (at most the number of preview slots), inputs and result.
    pub open spec fn shows_variant(&self, k: int) -> bool {
        let v = self.variants@[k]@;
        &&& self.crafting_type == Some(v.crafting_type)
        &&& self.input_slot_count == if v.input_slot_count < RECIPE_PREVIEW_INPUT_SLOTS {
            v.input_slot_count
        } else {
            RECIPE_PREVIEW_INPUT_SLOTS
        }
        &&& self.input_slots@ == v.input_slots
        &&& self.result_slot == v.result_slot
    }

    /// Whether the dialog shows nothing.
    pub open spec fn shows_nothing(&self) -> bool {
        &&& self.crafting_type is None
        &&& self.input_slot_count == 0
        &&& self.input_slots@ == Seq::new(RECIPE_PREVIEW_INPUT_SLOTS as nat, |_i: int| empty_slot())
        &&& self.result_slot == empty_slot()
    }

    /// Whether the dialog shows its selected variant, or nothing where the
    /// selection is out of range.
    pub open spec fn shows_selection(&self) -> bool {
        if self.selected_variant_index < self.variants@.len() {
            self.shows_variant(self.selected_variant_index as int)
        } else {
            self.shows_nothing()
        }
    }

    /// The empty, closed dialog.
    pub fn new() -> (r: Self)
        ensures
            !r.open,
            r.variants@.len() == 0,
            r.selected_variant_index == 0,
            r.tab_page == 0,
            r.shows_nothing(),
            r.wf(),
    {
        RecipePreviewDialogState {
            open: false,
            variants: Vec::new(),
            selected_variant_index: 0,
            tab_page: 0,
            crafting_type: None,
            input_slot_count: 0,
            input_slots: empty_preview_slots(),
            result_slot: InventorySlot::empty(),
        }
    }
}

fn empty_preview_slots() -> (r: Vec<InventorySlot>)
    ensures
        r@ == Seq::new(RECIPE_PREVIEW_INPUT_SLOTS as nat, |_i: int| empty_slot()),
{
    let mut v: Vec<InventorySlot> = Vec::new();
    let mut i: usize = 0;
    while i < RECIPE_PREVIEW_INPUT_SLOTS
        invariant
            i <= RECIPE_PREVIEW_INPUT_SLOTS,
            v@ == Seq::new(i as nat, |_i: int| empty_slot()),
        decreases RECIPE_PREVIEW_INPUT_SLOTS - i,
    {
        v.push(InventorySlot::empty());
        assert(v@ =~= Seq::new((i + 1) as nat, |_i: int| empty_slot()));
        i = i + 1;
    }
    v
}

/// Shows the selected variant in the dialog, or nothing if the selection is
/// out of range; the variants, selection and tab page stay.
pub fn sync_selected_recipe_preview_variant(recipe_preview: &mut RecipePreviewDialogState)
    requires
        old(recipe_preview).wf(),
    ensures
        final(recipe_preview).shows_selection(),
        final(recipe_preview).wf(),
        final(recipe_preview).open == old(recipe_preview).open,
        final(recipe_preview).variants == old(recipe_preview).variants,
        final(recipe_preview).selected_variant_index == old(recipe_preview).selected_variant_index,
        final(recipe_preview).tab_page == old(recipe_preview).tab_page,
{
    if recipe_preview.selected_variant_index >= recipe_preview.variants.len() {
        recipe_preview.crafting_type = None;
        recipe_preview.input_slot_count = 0;
        recipe_preview.input_slots = empty_preview_slots();
        recipe_preview.result_slot = InventorySlot::empty();
        return;
    }
    let k = recipe_preview.selected_variant_index;
    let crafting_type = recipe_preview.variants[k].crafting_type;
    let count = recipe_preview.variants[k].input_slot_count;
    let slots = copy_slots(&recipe_preview.variants[k].input_slots);
    let result = recipe_preview.variants[k].result_slot;
    proof {
        assert(views_of(recipe_preview.variants@)[k as int] == recipe_preview.variants@[k as int]@);
    }
    recipe_preview.crafting_type = Some(crafting_type);
    recipe_preview.input_slot_count = if count < RECIPE_PREVIEW_INPUT_SLOTS {
        count
    } else {
        RECIPE_PREVIEW_INPUT_SLOTS
    };
    recipe_preview.input_slots = slots;
    recipe_preview.result_slot = result;
}

/// The variant at `variant_index`, if there is one.
pub fn recipe_preview_variant_at(recipe_preview: &RecipePreviewDialogState, variant_index: usize) -> (r:
    Option<&RecipePreviewVariant>)
    ensures
        variant_index < recipe_preview.variants@.len() ==> r == Some(
            &recipe_preview.variants@[variant_index as int],
        ),
        variant_index >= recipe_preview.variants@.len() ==> r is None,
{
    if variant_index < recipe_preview.variants.len() {
        Some(&recipe_preview.variants[variant_index])
    } else {
        None
    }
}

/// Selects variant `variant_index` and turns to the tab page that holds it;
/// an index out of range changes nothing.
pub fn select_recipe_preview_variant(recipe_preview: &mut RecipePreviewDialogState, variant_index: usize) -> (r:
    bool)
    requires
        old(recipe_preview).wf(),
    ensures
        r == (variant_index < old(recipe_preview).variants@.len()),
        !r ==> *final(recipe_preview) == *old(recipe_preview),
        r ==> final(recipe_preview).selected_variant_index == variant_index && final(recipe_preview).tab_page == variant_index / RECIPE_PREVIEW_TABS_PER_PAGE && final(recipe_preview).shows_variant(
            variant_index as int,
        ) && final(recipe_preview).variants == old(recipe_preview).variants && final(recipe_preview).open == old(recipe_preview).open,
        final(recipe_preview).wf(),
{
    if variant_index >= recipe_preview.variants.len() {
        return false;
    }
    recipe_preview.selected_variant_index = variant_index;
    recipe_preview.tab_page = variant_index / RECIPE_PREVIEW_TABS_PER_PAGE;
    sync_selected_recipe_preview_variant(recipe_preview);
    true
}

/// Closes the dialog and forgets its variants.
pub fn clear_recipe_preview_state(recipe_preview: &mut RecipePreviewDialogState)
    ensures
        !final(recipe_preview).open,
        final(recipe_preview).variants@.len() == 0,
        final(recipe_preview).selected_variant_index == 0,
        final(recipe_preview).tab_page == 0,
        final(recipe_preview).shows_nothing(),
        final(recipe_preview).wf(),
{
    recipe_preview.open = false;
    recipe_preview.variants.clear();
    recipe_preview.selected_variant_index = 0;
    recipe_preview.tab_page = 0;
    recipe_preview.crafting_type = None;
    recipe_preview.input_slot_count = 0;
    recipe_preview.input_slots = empty_preview_slots();
    recipe_preview.result_slot = InventorySlot::empty();
    assert(views_of(recipe_preview.variants@) =~= Seq::<VariantView>::empty());
}

/// Opens the dialog on the given variants, showing the first.
pub fn apply_recipe_preview_state(
    recipe_preview: &mut RecipePreviewDialogState,
    variants: Vec<RecipePreviewVariant>,
)
    requires
        old(recipe_preview).input_slots@.len() == RECIPE_PREVIEW_INPUT_SLOTS,
        all_wf(views_of(variants@)),
    ensures
        final(recipe_preview).open,
        final(recipe_preview).variants@ == variants@,
        final(recipe_preview).selected_variant_index == 0,
        final(recipe_preview).tab_page == 0,
        final(recipe_preview).shows_selection(),
        final(recipe_preview).wf(),
{
    recipe_preview.open = true;
    recipe_preview.variants = variants;
    recipe_preview.selected_variant_index = 0;
    recipe_preview.tab_page = 0;
    sync_selected_recipe_preview_variant(recipe_preview);
}

/// How many tab pages the variants fill: `ceil(len / tabs per page)`.
pub open spec fn tab_pages(n: nat) -> nat {
    if n % (RECIPE_PREVIEW_TABS_PER_PAGE as nat) == 0 {
        n / (RECIPE_PREVIEW_TABS_PER_PAGE as nat)
    } else {
        n / (RECIPE_PREVIEW_TABS_PER_PAGE as nat) + 1
    }
}

/// The number of tab pages of the dialog (0 without variants).
pub fn recipe_preview_tab_page_count(recipe_preview: &RecipePreviewDialogState) -> (r: usize)
    ensures
        r as nat == tab_pages(recipe_preview.variants@.len()),
{
    let n = recipe_preview.variants.len();
    if n == 0 {
        return 0;
    }
    let q = n / RECIPE_PREVIEW_TABS_PER_PAGE;
    if n % RECIPE_PREVIEW_TABS_PER_PAGE == 0 {
        q
    } else {
        q + 1
    }
}

/// The pages are just enough: every variant's tab lies on a page, and the
/// last page holds at least one tab.
pub proof fn lemma_tab_pages(n: nat, index: nat)
    requires
        index < n,
    ensures
        index / (RECIPE_PREVIEW_TABS_PER_PAGE as nat) < tab_pages(n),
        (tab_pages(n) - 1) * (RECIPE_PREVIEW_TABS_PER_PAGE as nat) < n,
        n <= tab_pages(n) * (RECIPE_PREVIEW_TABS_PER_PAGE as nat),
{
}

/// How many variants of type `t` are among the first `n`.
pub open spec fn count_of_type(vs: Seq<RecipePreviewVariant>, t: RecipePreviewCraftingType, n: int) -> nat
    decreases n,
{
    if n <= 0 || vs.len() == 0 {
        0
    } else {
        let m = if n > vs.len() {
            vs.len() as int
        } else {
            n
        };
        count_of_type(vs, t, m - 1) + if vs[m - 1].crafting_type == t {
            1nat
        } else {
            0nat
        }
    }
}

fn count_type_upto(vs: &Vec<RecipePreviewVariant>, t: RecipePreviewCraftingType, n: usize) -> (r: usize)
    requires
        n <= vs@.len(),
    ensures
        r as nat == count_of_type(vs@, t, n as int),
        r <= n,
{
    let mut c: usize = 0;
    let mut i: usize = 0;
    while i < n
        invariant
            n <= vs@.len(),
            i <= n,
            c as nat == count_of_type(vs@, t, i as int),
            c <= i,
        decreases n - i,
    {
        if vs[i].crafting_type == t {
            c = c + 1;
        }
        i = i + 1;
    }
    c
}

/// The label of a variant's tab: the grid's name (`base`), followed by the
/// variant's number among those of its grid where the grid has more than one.
pub open spec fn tab_label(vs: Seq<RecipePreviewVariant>, t: RecipePreviewCraftingType, index: int, base: Seq<char>) -> Seq<char> {
    if count_of_type(vs, t, vs.len() as int) <= 1 {
        base
    } else {
        base + seq![' '] + crate::text::decimal_chars(count_of_type(vs, t, index + 1))
    }
}

/// The tab label of `variant`, the variant at `variant_index`; `base` is the
/// localized name of its grid.
pub fn recipe_preview_variant_tab_label(
    recipe_preview: &RecipePreviewDialogState,
    variant: &RecipePreviewVariant,
    variant_index: usize,
    base: &str,
) -> (r: String)
    ensures
        r@ == tab_label(recipe_preview.variants@, variant.crafting_type, variant_index as int, base@),
{
    let n = recipe_preview.variants.len();
    let type_total = count_type_upto(&recipe_preview.variants, variant.crafting_type, n);
    let mut label = crate::text::to_owned_string(base);
    if type_total <= 1 {
        return label;
    }
    let upto: usize = if variant_index < n {
        variant_index + 1
    } else {
        n
    };
    let ordinal = count_type_upto(&recipe_preview.variants, variant.crafting_type, upto);
    proof {
        if variant_index >= n {
            assert(count_of_type(recipe_preview.variants@, variant.crafting_type, variant_index + 1)
                == count_of_type(recipe_preview.variants@, variant.crafting_type, n as int));
        }
    }
    crate::text::push_char(&mut label, ' ');
    push_decimal(&mut label, ordinal as u64);
    label
}

/// The icon of a grid's tab.
pub fn recipe_preview_tab_icon_path(crafting_type: RecipePreviewCraftingType) -> (r: &'static str)
    ensures
        crafting_type == RecipePreviewCraftingType::HandCrafted ==> r@
            == "assets/textures/icons/hand_crafted_icon.png"@,
        crafting_type == RecipePreviewCraftingType::WorkTable ==> r@
            == "assets/textures/icons/workbench_icon.png"@,
{
    match crafting_type {
        RecipePreviewCraftingType::HandCrafted => "assets/textures/icons/hand_crafted_icon.png",
        RecipePreviewCraftingType::WorkTable => "assets/textures/icons/workbench_icon.png",
    }
}

/// Two variants fold into one tab exactly when they are made in the same
/// grid with the same input count and result, and at every input slot both
/// are empty, or both hold the same count of items that are the same item or
/// two items with an item group in common.
pub proof fn lemma_mergeable_slots_share_groups(l: VariantView, r: VariantView, reg: ItemRegistry)
    ensures
        variants_mergeable(l, r, reg) <==> {
            &&& l.crafting_type == r.crafting_type
            &&& l.input_slot_count == r.input_slot_count
            &&& l.result_slot == r.result_slot
            &&& forall|i: int|
                0 <= i < RECIPE_PREVIEW_INPUT_SLOTS ==> {
                    let a = #[trigger] l.input_slots[i];
                    let b = r.input_slots[i];
                    &&& a.spec_is_empty() == b.spec_is_empty()
                    &&& a.count == b.count
                    &&& (a.spec_is_empty() || a.item_id == b.item_id || exists|g: Seq<char>|
                        reg.spec_has_group(a.item_id, g) && reg.spec_has_group(b.item_id, g))
                }
        },
{
    assert forall|a: ItemId, b: ItemId|
        share_group(reg, a, b) <==> (exists|g: Seq<char>| reg.spec_has_group(a, g) && reg.spec_has_group(b, g))
        by {
        if share_group(reg, a, b) {
            let (i, j) = choose|i: int, j: int|
                0 <= i < reg.def_at(a).groups@.len() && 0 <= j < reg.def_at(b).groups@.len()
                    && #[trigger] reg.def_at(a).groups@[i]@ == #[trigger] reg.def_at(b).groups@[j]@;
            let g = reg.def_at(a).groups@[i]@;
            assert(reg.spec_has_group(a, g));
            assert(reg.spec_has_group(b, g));
        }
        if exists|g: Seq<char>| reg.spec_has_group(a, g) && reg.spec_has_group(b, g) {
            let g = choose|g: Seq<char>| reg.spec_has_group(a, g) && reg.spec_has_group(b, g);
            let i = choose|k: int| 0 <= k < reg.def_at(a).groups@.len() && #[trigger] reg.def_at(a).groups@[k]@ == g;
            let j = choose|k: int| 0 <= k < reg.def_at(b).groups@.len() && #[trigger] reg.def_at(b).groups@[k]@ == g;
            assert(reg.def_at(a).groups@[i]@ == reg.def_at(b).groups@[j]@);
        }
    }
}

} // verus!
