//! Reading the requirements of a recipe's crafting data in slot order:
//! shaped recipes name their slots; shapeless ones list ingredients, one
//! slot per item.
use vstd::prelude::*;
use crate::recipe_preview::{CraftEntry, CraftData, at_least_one};
use crate::text::{parse_unsigned, parse_usize};

verus! {

/// One ingredient of a shapeless recipe as it fills a single slot.
pub open spec fn unit_entry(e: CraftEntry) -> CraftEntry {
    CraftEntry { item: e.item, group: e.group, count: 1 }
}

/// Shapeless ingredients spread out one per slot: an ingredient with count
/// `n` (at least one) becomes `n` entries of count one, in order.
pub open spec fn expanded(s: Seq<CraftEntry>) -> Seq<CraftEntry>
    decreases s.len(),
{
    if s.len() == 0 {
        Seq::empty()
    } else {
        expanded(s.drop_last()) + Seq::new(
            at_least_one(s.last().count) as nat,
            |_i: int| unit_entry(s.last()),
        )
    }
}

/// Each ingredient repeated as many times as its count, with count one.
pub fn expand_shapeless_preview_ingredients(ingredients: Vec<CraftEntry>) -> (r: Vec<CraftEntry>)
    ensures
        r@ == expanded(ingredients@),
{
    let mut out: Vec<CraftEntry> = Vec::new();
    let mut i: usize = 0;
    while i < ingredients.len()
        invariant
            i <= ingredients@.len(),
            out@ == expanded(ingredients@.subrange(0, i as int)),
        decreases ingredients.len() - i,
    {
        let ing = &ingredients[i];
        let repeats: u16 = if ing.count < 1 {
            1
        } else {
            ing.count
        };
        let unit = CraftEntry { item: ing.item.clone(), group: ing.group.clone(), count: 1 };
        assert(unit == unit_entry(ingredients@[i as int]));
        let ghost base = out@;
        let mut k: u16 = 0;
        while k < repeats
            invariant
                k <= repeats,
                unit == unit_entry(ingredients@[i as int]),
                out@ == base + Seq::new(k as nat, |_i: int| unit_entry(ingredients@[i as int])),
            decreases repeats - k,
        {
            out.push(unit.duplicate());
            proof {
                assert(base + Seq::new((k + 1) as nat, |_i: int| unit_entry(ingredients@[i as int]))
                    =~= (base + Seq::new(k as nat, |_i: int| unit_entry(ingredients@[i as int]))).push(
                    unit_entry(ingredients@[i as int]),
                ));
            }
            k = k + 1;
        }
        proof {
            let p = ingredients@.subrange(0, i + 1);
            assert(p.drop_last() =~= ingredients@.subrange(0, i as int));
            assert(p.last() == ingredients@[i as int]);
        }
        i = i + 1;
    }
    assert(ingredients@.subrange(0, ingredients@.len() as int) =~= ingredients@);
    out
}

// ---------------------------------------------------------------------------
// Stable sort by slot number
// ---------------------------------------------------------------------------

/// `x` inserted after every entry whose slot number is not larger than its own,
/// scanning from the back.
pub open spec fn insert_by_slot(s: Seq<(usize, CraftEntry)>, x: (usize, CraftEntry)) -> Seq<
    (usize, CraftEntry),
>
    decreases s.len(),
{
    if s.len() == 0 || s.last().0 <= x.0 {
        s.push(x)
    } else {
        insert_by_slot(s.drop_last(), x).push(s.last())
    }
}

/// The entries sorted by slot number, entries with equal numbers keeping
/// their order (`sort_by_key`, which is stable).
pub open spec fn sort_by_slot(s: Seq<(usize, CraftEntry)>) -> Seq<(usize, CraftEntry)>
    decreases s.len(),
{
    if s.len() == 0 {
        s
    } else {
        insert_by_slot(sort_by_slot(s.drop_last()), s.last())
    }
}

pub open spec fn slots_sorted(s: Seq<(usize, CraftEntry)>) -> bool {
    forall|i: int, j: int| 0 <= i <= j < s.len() ==> #[trigger] s[i].0 <= #[trigger] s[j].0
}

proof fn lemma_insert_at(s: Seq<(usize, CraftEntry)>, x: (usize, CraftEntry), j: int)
    requires
        0 <= j <= s.len(),
        j == 0 || s[j - 1].0 <= x.0,
        forall|k: int| j <= k < s.len() ==> #[trigger] s[k].0 > x.0,
    ensures
        insert_by_slot(s, x) == s.insert(j, x),
    decreases s.len() - j,
{
    if j == s.len() {
        assert(s.insert(j, x) =~= s.push(x));
    } else {
        assert(s.last().0 > x.0);
        lemma_insert_at(s.drop_last(), x, j);
        assert(s.insert(j, x) =~= s.drop_last().insert(j, x).push(s.last()));
    }
}

proof fn lemma_insert_keeps(s: Seq<(usize, CraftEntry)>, x: (usize, CraftEntry))
    ensures
        insert_by_slot(s, x).len() == s.len() + 1,
        insert_by_slot(s, x).to_multiset() == s.to_multiset().insert(x),
        slots_sorted(s) ==> slots_sorted(insert_by_slot(s, x)),
    decreases s.len(),
{
    broadcast use vstd::seq_lib::group_to_multiset_ensures;
    if s.len() == 0 || s.last().0 <= x.0 {
    } else {
        lemma_insert_keeps(s.drop_last(), x);
        assert(s.drop_last().push(s.last()) =~= s);
        let t = insert_by_slot(s.drop_last(), x);
        if slots_sorted(s) {
            assert forall|i: int, j: int| 0 <= i <= j < t.push(s.last()).len() implies #[trigger] t.push(
                s.last(),
            )[i].0 <= #[trigger] t.push(s.last())[j].0 by {
                if j == t.len() && i < t.len() {
                    let e = t[i];
                    assert(t.to_multiset().count(e) > 0);
                    assert(t.contains(e));
                    assert(s.drop_last().to_multiset().insert(x).count(e) > 0);
                    if e != x {
                        assert(s.drop_last().to_multiset().count(e) > 0);
                        assert(s.drop_last().contains(e));
                        let k = choose|k: int| 0 <= k < s.drop_last().len() && s.drop_last()[k] == e;
                        assert(s[k].0 <= s[s.len() - 1].0);
                    }
                }
            }
        }
    }
}

/// Sorting keeps the entries and orders them by slot number.
pub proof fn lemma_sort_by_slot(s: Seq<(usize, CraftEntry)>)
    ensures
        sort_by_slot(s).len() == s.len(),
        sort_by_slot(s).to_multiset() == s.to_multiset(),
        slots_sorted(sort_by_slot(s)),
    decreases s.len(),
{
    broadcast use vstd::seq_lib::group_to_multiset_ensures;
    if s.len() > 0 {
        lemma_sort_by_slot(s.drop_last());
        lemma_insert_keeps(sort_by_slot(s.drop_last()), s.last());
        assert(s.drop_last().push(s.last()) =~= s);
    }
}

fn copy_pair(p: &(usize, CraftEntry)) -> (r: (usize, CraftEntry))
    ensures
        r == *p,
{
    (p.0, p.1.duplicate())
}

/// A stable insertion sort by slot number.
fn sort_requirements(v: &Vec<(usize, CraftEntry)>) -> (r: Vec<(usize, CraftEntry)>)
    ensures
        r@ == sort_by_slot(v@),
{
    let mut out: Vec<(usize, CraftEntry)> = Vec::new();
    let mut i: usize = 0;
    while i < v.len()
        invariant
            i <= v@.len(),
            out@ == sort_by_slot(v@.subrange(0, i as int)),
        decreases v.len() - i,
    {
        let x = copy_pair(&v[i]);
        let mut j: usize = out.len();
        while j > 0 && out[j - 1].0 > x.0
            invariant
                j <= out@.len(),
                forall|k: int| j <= k < out@.len() ==> #[trigger] out@[k].0 > x.0,
            decreases j,
        {
            j = j - 1;
        }
        proof {
            lemma_insert_at(out@, x, j as int);
            let p = v@.subrange(0, i + 1);
            assert(p.drop_last() =~= v@.subrange(0, i as int));
            assert(p.last() == v@[i as int]);
        }
        out.insert(j, x);
        i = i + 1;
    }
    assert(v@.subrange(0, v@.len() as int) =~= v@);
    out
}

// ---------------------------------------------------------------------------
// Requirements
// ---------------------------------------------------------------------------

/// The craft entries whose key is a slot number, with that number, in order;
/// the others are skipped.
pub open spec fn numbered_entries(craft: Seq<(String, CraftEntry)>) -> Seq<(usize, CraftEntry)>
    decreases craft.len(),
{
    if craft.len() == 0 {
        Seq::empty()
    } else {
        let prev = numbered_entries(craft.drop_last());
        match parse_unsigned(craft.last().0@, usize::MAX as nat) {
            Some(n) => prev.push((n as usize, craft.last().1)),
            None => prev,
        }
    }
}

/// Whether every craft key is a slot number below `slot_count`.
pub open spec fn keys_in_range(craft: Seq<(String, CraftEntry)>, slot_count: usize) -> bool {
    forall|i: int|
        0 <= i < craft.len() ==> (#[trigger] parse_unsigned(craft[i].0@, usize::MAX as nat) matches Some(
            n,
        ) && n < slot_count)
}

/// The ingredients of a shapeless recipe: its ingredient list, or, where
/// that is empty, the craft entries with numeric keys in slot order.
pub open spec fn shapeless_ingredients(parsed: CraftData) -> Seq<CraftEntry> {
    if parsed.ingredients@.len() == 0 {
        sort_by_slot(numbered_entries(parsed.craft@)).map_values(|p: (usize, CraftEntry)| p.1)
    } else {
        parsed.ingredients@
    }
}

/// Entries paired with their positions.
pub open spec fn numbered(s: Seq<CraftEntry>) -> Seq<(usize, CraftEntry)> {
    Seq::new(s.len(), |i: int| (i as usize, s[i]))
}

/// The requirements of a recipe, each with its slot, in slot order; `None`
/// where the data does not describe a usable recipe for a grid of
/// `slot_count` slots: a shapeless recipe with no ingredient or more than
/// fit, a shaped one with no entry or with a key that is not a slot number
/// of the grid.
pub open spec fn preview_requirements(parsed: CraftData, is_shapeless: bool, slot_count: usize) -> Option<
    Seq<(usize, CraftEntry)>,
> {
    if is_shapeless {
        let e = expanded(shapeless_ingredients(parsed));
        if e.len() == 0 || e.len() > slot_count {
            None
        } else {
            Some(numbered(e))
        }
    } else if parsed.craft@.len() == 0 || !keys_in_range(parsed.craft@, slot_count) {
        None
    } else {
        Some(sort_by_slot(numbered_entries(parsed.craft@)))
    }
}

/// The craft entries with numeric keys, with their numbers, in order.
fn numbered_craft_entries(craft: &Vec<(String, CraftEntry)>) -> (r: Vec<(usize, CraftEntry)>)
    ensures
        r@ == numbered_entries(craft@),
{
    let mut out: Vec<(usize, CraftEntry)> = Vec::new();
    let mut i: usize = 0;
    while i < craft.len()
        invariant
            i <= craft@.len(),
            out@ == numbered_entries(craft@.subrange(0, i as int)),
        decreases craft.len() - i,
    {
        proof {
            let p = craft@.subrange(0, i + 1);
            assert(p.drop_last() =~= craft@.subrange(0, i as int));
            assert(p.last() == craft@[i as int]);
        }
        match parse_usize(craft[i].0.as_str()) {
            Some(n) => {
                out.push((n, craft[i].1.duplicate()));
            },
            None => {},
        }
        i = i + 1;
    }
    assert(craft@.subrange(0, craft@.len() as int) =~= craft@);
    out
}

/// The requirements of a recipe's crafting data, each with its slot, in slot
/// order.
pub fn collect_preview_requirements(parsed: &CraftData, is_shapeless: bool, slot_count: usize) -> (r:
    Option<Vec<(usize, CraftEntry)>>)
    ensures
        match preview_requirements(*parsed, is_shapeless, slot_count) {
            Some(s) => r matches Some(v) && v@ == s,
            None => r is None,
        },
        r matches Some(v) ==> v@.len() > 0 && forall|i: int| 0 <= i < v@.len() ==> (#[trigger] v@[i]).0
            < slot_count,
{
    if is_shapeless {
        let ingredients: Vec<CraftEntry> = if parsed.ingredients.len() == 0 {
            let numbered_list = numbered_craft_entries(&parsed.craft);
            let sorted = sort_requirements(&numbered_list);
            let mut list: Vec<CraftEntry> = Vec::new();
            let mut i: usize = 0;
            while i < sorted.len()
                invariant
                    i <= sorted@.len(),
                    list@ == sorted@.subrange(0, i as int).map_values(|p: (usize, CraftEntry)| p.1),
                decreases sorted.len() - i,
            {
                list.push(sorted[i].1.duplicate());
                proof {
                    assert(sorted@.subrange(0, i + 1).map_values(|p: (usize, CraftEntry)| p.1)
                        =~= sorted@.subrange(0, i as int).map_values(|p: (usize, CraftEntry)| p.1).push(
                        sorted@[i as int].1,
                    ));
                }
                i = i + 1;
            }
            assert(sorted@.subrange(0, sorted@.len() as int) =~= sorted@);
            list
        } else {
            let mut list: Vec<CraftEntry> = Vec::new();
            let mut i: usize = 0;
            while i < parsed.ingredients.len()
                invariant
                    i <= parsed.ingredients@.len(),
                    list@ == parsed.ingredients@.subrange(0, i as int),
                decreases parsed.ingredients.len() - i,
            {
                list.push(parsed.ingredients[i].duplicate());
                assert(list@ =~= parsed.ingredients@.subrange(0, i + 1));
                i = i + 1;
            }
            assert(list@ =~= parsed.ingredients@);
            list
        };
        let expanded_list = expand_shapeless_preview_ingredients(ingredients);
        if expanded_list.len() == 0 || expanded_list.len() > slot_count {
            return None;
        }
        let mut requirements: Vec<(usize, CraftEntry)> = Vec::new();
        let mut i: usize = 0;
        while i < expanded_list.len()
            invariant
                i <= expanded_list@.len(),
                expanded_list@.len() <= slot_count,
                requirements@ == numbered(expanded_list@).subrange(0, i as int),
            decreases expanded_list.len() - i,
        {
            requirements.push((i, expanded_list[i].duplicate()));
            proof {
                assert(numbered(expanded_list@).subrange(0, i + 1) =~= numbered(
                    expanded_list@,
                ).subrange(0, i as int).push((i, expanded_list@[i as int])));
            }
            i = i + 1;
        }
        assert(numbered(expanded_list@).subrange(0, expanded_list@.len() as int) =~= numbered(
            expanded_list@,
        ));
        return Some(requirements);
    }
    if parsed.craft.len() == 0 {
        return None;
    }
    let mut i: usize = 0;
    while i < parsed.craft.len()
        invariant
            !is_shapeless,
            parsed.craft@.len() > 0,
            i <= parsed.craft@.len(),
            forall|k: int|
                0 <= k < i ==> (#[trigger] parse_unsigned(parsed.craft@[k].0@, usize::MAX as nat) matches Some(
                    n,
                ) && n < slot_count),
        decreases parsed.craft.len() - i,
    {
        let ghost key = parsed.craft@[i as int].0@;
        match parse_usize(parsed.craft[i].0.as_str()) {
            Some(n) => {
                if n >= slot_count {
                    assert(!(parse_unsigned(key, usize::MAX as nat) matches Some(m) && m < slot_count));
                    assert(!keys_in_range(parsed.craft@, slot_count));
                    return None;
                }
            },
            None => {
                assert(!keys_in_range(parsed.craft@, slot_count));
                return None;
            },
        }
        i = i + 1;
    }
    let numbered_list = numbered_craft_entries(&parsed.craft);
    let sorted = sort_requirements(&numbered_list);
    proof {
        lemma_numbered_entries_all(parsed.craft@, slot_count);
        lemma_sort_by_slot(numbered_list@);
        assert forall|i: int| 0 <= i < sorted@.len() implies (#[trigger] sorted@[i]).0 < slot_count by {
            let e = sorted@[i];
            assert(sorted@.to_multiset().count(e) > 0) by {
                broadcast use vstd::seq_lib::group_to_multiset_ensures;
                assert(sorted@.contains(e));
            }
            assert(numbered_list@.to_multiset().count(e) > 0);
            assert(numbered_list@.contains(e)) by {
                broadcast use vstd::seq_lib::group_to_multiset_ensures;
            }
        }
    }
    Some(sorted)
}

/// With every key a slot number below `slot_count`, every entry is kept and
/// every number is below `slot_count`.
proof fn lemma_numbered_entries_all(craft: Seq<(String, CraftEntry)>, slot_count: usize)
    requires
        keys_in_range(craft, slot_count),
    ensures
        numbered_entries(craft).len() == craft.len(),
        forall|i: int| 0 <= i < craft.len() ==> (#[trigger] numbered_entries(craft)[i]).0 < slot_count,
    decreases craft.len(),
{
    if craft.len() > 0 {
        let p = craft.drop_last();
        assert forall|i: int| 0 <= i < p.len() implies (#[trigger] parse_unsigned(p[i].0@, usize::MAX as nat) matches Some(
            n,
        ) && n < slot_count) by {
            assert(p[i] == craft[i]);
        }
        lemma_numbered_entries_all(p, slot_count);
        assert(parse_unsigned(craft[craft.len() - 1].0@, usize::MAX as nat) matches Some(n) && n
            < slot_count);
    }
}

} // verus!
