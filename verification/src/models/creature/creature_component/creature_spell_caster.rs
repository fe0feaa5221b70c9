use crate::models::creature::creature_component::creature_spellcaster::{convert_spells, pwl_delta, pwl_modifier};
use crate::models::creature::creature_metadata::variant_enum::{adjustment, dmg_adjustment, CreatureVariant};
use crate::models::creature::items::spell_caster_entry::{SpellcasterData, SpellcasterEntry};
use crate::models::creature::items::spell::{spell_dmg_fits, spell_shifted, Spell};
use std::collections::BTreeMap;
use vstd::std_specs::btree::spec_keys_iter;
use vstd::std_specs::iter::IteratorSpec;
use vstd::prelude::*;

verus! {

/// The spellcasting of a creature, with spells grouped by rank in each entry.
#[derive(Clone, Debug)]
pub struct CreatureSpellcasterData {
    pub spell_caster_entries: Vec<SpellcasterEntry>,
}

/// The number of spell ranks over the first `n` entries.
pub open spec fn ranks_in(entries: Seq<SpellcasterEntry>, n: int) -> int
    decreases n,
{
    if n <= 0 { 0 } else { ranks_in(entries, n - 1) + entries[n - 1].spells.len() }
}

/// The larger of two optional modifiers, where a known modifier beats an unknown one.
pub open spec fn opt_max(a: Option<i64>, b: Option<i64>) -> Option<i64> {
    match (a, b) {
        (Some(x), Some(y)) => Some(if x >= y { x } else { y }),
        (Some(x), None) => Some(x),
        (None, Some(y)) => Some(y),
        (None, None) => None,
    }
}

/// The highest known spell DC modifier over the first `n` entries.
pub open spec fn max_known_dc_in(entries: Seq<SpellcasterEntry>, n: int) -> Option<i64>
    decreases n,
{
    if n <= 0 {
        None
    } else {
        opt_max(max_known_dc_in(entries, n - 1), entries[n - 1].spellcaster_data.spell_casting_dc_mod)
    }
}

/// A known modifier plus `m` stays within `i64`.
pub open spec fn opt_fits(o: Option<i64>, m: int) -> bool {
    match o {
        Some(x) => i64::MIN <= x + m <= i64::MAX,
        None => true,
    }
}

/// A known modifier, shifted by `m`.
pub open spec fn opt_shift(o: Option<i64>, m: int) -> Option<i64> {
    match o {
        Some(x) => Some((x + m) as i64),
        None => None,
    }
}

pub open spec fn entries_fit(entries: Seq<SpellcasterEntry>, m: int) -> bool {
    forall|i: int| 0 <= i < entries.len() ==> {
        &&& opt_fits((#[trigger] entries[i]).spellcaster_data.spell_casting_dc_mod, m)
        &&& opt_fits(entries[i].spellcaster_data.spell_casting_atk_mod, m)
    }
}

/// `new` is `old` with `m` added to its known DC and attack modifiers.
pub open spec fn entry_dc_atk_shifted(old: SpellcasterEntry, new: SpellcasterEntry, m: int) -> bool {
    &&& new.spells == old.spells
    &&& new.spellcaster_data == (SpellcasterData {
        spell_casting_dc_mod: opt_shift(old.spellcaster_data.spell_casting_dc_mod, m),
        spell_casting_atk_mod: opt_shift(old.spellcaster_data.spell_casting_atk_mod, m),
        ..old.spellcaster_data
    })
}

/// Adding `m` to the damage of every spell of every rank does not overflow.
pub open spec fn ranks_fit(spells: Map<i64, Vec<Spell>>, m: int) -> bool {
    forall|k: i64, j: int|
        #![trigger spells[k]@[j]]
        spells.contains_key(k) && 0 <= j < spells[k]@.len() ==> spell_dmg_fits(spells[k]@[j], m)
}

/// The spells of every rank of `new` are those of `old`, with `m` added to their damage.
pub open spec fn ranks_shifted(old: Map<i64, Vec<Spell>>, new: Map<i64, Vec<Spell>>, m: int) -> bool {
    &&& new.dom() == old.dom()
    &&& forall|k: i64| #[trigger] old.contains_key(k) ==> new[k]@.len() == old[k]@.len()
    &&& forall|k: i64, j: int|
        #![trigger new[k]@[j]]
        old.contains_key(k) && 0 <= j < old[k]@.len() ==> spell_shifted(old[k]@[j], new[k]@[j], m)
}

/// Adding `m` to the damage of every spell of every entry does not overflow.
pub open spec fn entries_spells_fit(entries: Seq<SpellcasterEntry>, m: int) -> bool {
    forall|i: int| 0 <= i < entries.len() ==> ranks_fit((#[trigger] entries[i]).spells@, m)
}

/// `new` is `old` with `d` added to the known DC and attack modifiers and `s` to the
/// damage of every spell.
pub open spec fn entry_variant_shifted(old: SpellcasterEntry, new: SpellcasterEntry, d: int, s: int) -> bool {
    &&& new.spellcaster_data == (SpellcasterData {
        spell_casting_dc_mod: opt_shift(old.spellcaster_data.spell_casting_dc_mod, d),
        spell_casting_atk_mod: opt_shift(old.spellcaster_data.spell_casting_atk_mod, d),
        ..old.spellcaster_data
    })
    &&& ranks_shifted(old.spells@, new.spells@, s)
}

fn shift_opt(o: Option<i64>, m: i64) -> (r: Option<i64>)
    requires
        opt_fits(o, m as int),
    ensures
        r == opt_shift(o, m as int),
{
    match o {
        Some(x) => Some(x + m),
        None => None,
    }
}

impl CreatureSpellcasterData {
    /// The number of spell ranks (groups of spells) over all entries.
    pub fn get_total_n_of_spells(&self) -> (r: usize)
        requires
            ranks_in(self.spell_caster_entries@, self.spell_caster_entries@.len() as int) <= usize::MAX,
        ensures
            r == ranks_in(self.spell_caster_entries@, self.spell_caster_entries@.len() as int),
    {
        let mut total: usize = 0;
        let mut i: usize = 0;
        while i < self.spell_caster_entries.len()
            invariant
                i <= self.spell_caster_entries@.len(),
                total == ranks_in(self.spell_caster_entries@, i as int),
                ranks_in(self.spell_caster_entries@, self.spell_caster_entries@.len() as int) <= usize::MAX,
            decreases self.spell_caster_entries@.len() - i,
        {
            proof {
                lemma_ranks_in_monotone(self.spell_caster_entries@, i as int + 1, self.spell_caster_entries@.len() as int);
            }
            total = total + self.spell_caster_entries[i].spells.len();
            i = i + 1;
        }
        total
    }

    /// The highest known spell DC modifier; none when no entry has one.
    pub fn get_highest_spell_dc_mod(&self) -> (r: Option<i64>)
        ensures
            r == max_known_dc_in(self.spell_caster_entries@, self.spell_caster_entries@.len() as int),
    {
        let mut best: Option<i64> = None;
        let mut i: usize = 0;
        while i < self.spell_caster_entries.len()
            invariant
                i <= self.spell_caster_entries@.len(),
                best == max_known_dc_in(self.spell_caster_entries@, i as int),
            decreases self.spell_caster_entries@.len() - i,
        {
            let d = self.spell_caster_entries[i].spellcaster_data.spell_casting_dc_mod;
            best = match (best, d) {
                (Some(x), Some(y)) => Some(if x >= y { x } else { y }),
                (Some(x), None) => Some(x),
                (None, Some(y)) => Some(y),
                (None, None) => None,
            };
            i = i + 1;
        }
        best
    }

    /// Adds `modifier` to the known spellcasting DC and attack modifiers.
    pub fn add_mod_to_spellcaster_atk_and_dc(self, modifier: i64) -> (r: Self)
        requires
            entries_fit(self.spell_caster_entries@, modifier as int),
        ensures
            r.spell_caster_entries@.len() == self.spell_caster_entries@.len(),
            forall|i: int| 0 <= i < self.spell_caster_entries@.len() ==> entry_dc_atk_shifted(
                #[trigger] self.spell_caster_entries@[i], r.spell_caster_entries@[i], modifier as int),
    {
        let ghost oe = self.spell_caster_entries@;
        let mut rest = self.spell_caster_entries;
        let mut out: Vec<SpellcasterEntry> = Vec::new();
        while rest.len() > 0
            invariant
                rest@.len() + out@.len() == oe.len(),
                forall|k: int| 0 <= k < rest@.len() ==> #[trigger] rest@[k] == oe[out@.len() + k],
                entries_fit(oe, modifier as int),
                forall|k: int| 0 <= k < out@.len() ==> entry_dc_atk_shifted(oe[k], #[trigger] out@[k], modifier as int),
            decreases rest@.len(),
        {
            let entry = rest.remove(0);
            let ghost idx = out@.len() as int;
            assert(entry == oe[idx]);
            let sce = entry.spellcaster_data;
            let data = SpellcasterData {
                id: sce.id,
                spell_casting_name: sce.spell_casting_name,
                is_spell_casting_flexible: sce.is_spell_casting_flexible,
                type_of_spell_caster: sce.type_of_spell_caster,
                spell_casting_dc_mod: shift_opt(sce.spell_casting_dc_mod, modifier),
                spell_casting_atk_mod: shift_opt(sce.spell_casting_atk_mod, modifier),
                spell_casting_tradition: sce.spell_casting_tradition,
            };
            out.push(SpellcasterEntry { spellcaster_data: data, spells: entry.spells });
        }
        CreatureSpellcasterData { spell_caster_entries: out }
    }

    /// Lowers the known spellcasting DC and attack modifiers by the level (`pwl_mod`).
    pub fn convert_from_base_to_pwl(self, pwl_mod: u64) -> (r: Self)
        requires
            entries_fit(self.spell_caster_entries@, pwl_delta(pwl_mod)),
        ensures
            r.spell_caster_entries@.len() == self.spell_caster_entries@.len(),
            forall|i: int| 0 <= i < self.spell_caster_entries@.len() ==> entry_dc_atk_shifted(
                #[trigger] self.spell_caster_entries@[i], r.spell_caster_entries@[i], pwl_delta(pwl_mod)),
    {
        self.add_mod_to_spellcaster_atk_and_dc(pwl_modifier(pwl_mod))
    }

    /// Adjusts a weak or elite creature's spellcasting: the known DC and attack
    /// modifiers change by 2, and the damage of every spell (an ability of limited
    /// use) by 4.
    pub fn convert_from_base_to_variant(self, variant: CreatureVariant) -> (r: Self)
        requires
            entries_fit(self.spell_caster_entries@, adjustment(variant)),
            entries_spells_fit(self.spell_caster_entries@, dmg_adjustment(variant, true)),
        ensures
            r.spell_caster_entries@.len() == self.spell_caster_entries@.len(),
            forall|i: int| 0 <= i < self.spell_caster_entries@.len() ==> entry_variant_shifted(
                #[trigger] self.spell_caster_entries@[i], r.spell_caster_entries@[i],
                adjustment(variant), dmg_adjustment(variant, true)),
    {
        let ghost oe = self.spell_caster_entries@;
        let step = self.add_mod_to_spellcaster_atk_and_dc(variant.to_adjustment_modifier());
        let ghost se = step.spell_caster_entries@;
        let mut rest = step.spell_caster_entries;
        let mut out: Vec<SpellcasterEntry> = Vec::new();
        while rest.len() > 0
            invariant
                se.len() == oe.len(),
                forall|k: int| 0 <= k < oe.len() ==> entry_dc_atk_shifted(oe[k], #[trigger] se[k], adjustment(variant)),
                entries_spells_fit(oe, dmg_adjustment(variant, true)),
                rest@.len() + out@.len() == se.len(),
                forall|k: int| 0 <= k < rest@.len() ==> #[trigger] rest@[k] == se[out@.len() + k],
                forall|k: int| 0 <= k < out@.len() ==> entry_variant_shifted(oe[k], #[trigger] out@[k],
                    adjustment(variant), dmg_adjustment(variant, true)),
            decreases rest@.len(),
        {
            let entry = rest.remove(0);
            let ghost idx = out@.len() as int;
            proof {
                assert(entry == se[idx]);
                assert(entry_dc_atk_shifted(oe[idx], se[idx], adjustment(variant)));
                assert(ranks_fit(oe[idx].spells@, dmg_adjustment(variant, true)));
            }
            let spells = convert_ranks(entry.spells, variant);
            out.push(SpellcasterEntry { spellcaster_data: entry.spellcaster_data, spells });
        }
        CreatureSpellcasterData { spell_caster_entries: out }
    }
}

proof fn lemma_ranks_in_monotone(entries: Seq<SpellcasterEntry>, a: int, b: int)
    requires
        0 <= a <= b,
    ensures
        ranks_in(entries, a) <= ranks_in(entries, b),
    decreases b - a,
{
    if a < b {
        lemma_ranks_in_monotone(entries, a, b - 1);
    }
}

/// The ranks of the spells, each once.
fn rank_keys(spells: &BTreeMap<i64, Vec<Spell>>) -> (r: Vec<i64>)
    ensures
        r@.to_set() == spells@.dom(),
        r@.no_duplicates(),
{
    broadcast use vstd::std_specs::btree::group_btree_axioms;
    let ghost all_keys: Seq<i64> = spec_keys_iter(spells).remaining().unref();
    let mut out: Vec<i64> = Vec::new();
    for k in it: spells.keys()
        invariant
            it.seq().unref() == all_keys,
            out@ == all_keys.take(it.index()),
    {
        out.push(*k);
    }
    assert(out@ == all_keys);
    assert(all_keys.to_set() == spells@.dom());
    assert(all_keys.no_duplicates());
    out
}

/// The spells of every rank, their damage changed for the variant (±4, or none for
/// the base creature).
fn convert_ranks(spells: BTreeMap<i64, Vec<Spell>>, variant: CreatureVariant) -> (r: BTreeMap<i64, Vec<Spell>>)
    requires
        ranks_fit(spells@, dmg_adjustment(variant, true)),
    ensures
        ranks_shifted(spells@, r@, dmg_adjustment(variant, true)),
{
    broadcast use vstd::std_specs::btree::group_btree_axioms;
    proof {
        lemma_ranks_totally_ordered();
    }
    let keys = rank_keys(&spells);
    let ghost old_m = spells@;
    let ghost m = dmg_adjustment(variant, true);
    let mut rest = spells;
    let mut out: BTreeMap<i64, Vec<Spell>> = BTreeMap::new();
    let mut i: usize = 0;
    while i < keys.len()
        invariant
            keys@.to_set() == old_m.dom(),
            keys@.no_duplicates(),
            i <= keys@.len(),
            m == dmg_adjustment(variant, true),
            ranks_fit(old_m, m),
            forall|k: i64| #[trigger] rest@.contains_key(k) <==> (old_m.contains_key(k) && !keys@.take(i as int).contains(k)),
            forall|k: i64| #[trigger] rest@.contains_key(k) ==> rest@[k] == old_m[k],
            forall|k: i64| #[trigger] out@.contains_key(k) <==> keys@.take(i as int).contains(k),
            forall|k: i64| #[trigger] out@.contains_key(k) ==> out@[k]@.len() == old_m[k]@.len(),
            forall|k: i64, j: int|
                #![trigger out@[k]@[j]]
                out@.contains_key(k) && 0 <= j < old_m[k]@.len() ==> spell_shifted(old_m[k]@[j], out@[k]@[j], m),
        decreases keys@.len() - i,
    {
        let k = keys[i];
        let ghost n1: int = i + 1;
        proof {
            assert(keys@.to_set().contains(k));
            assert(!keys@.take(i as int).contains(k)) by {
                if keys@.take(i as int).contains(k) {
                    let j = choose|j: int| 0 <= j < i && keys@.take(i as int)[j] == k;
                    assert(keys@[j] == keys@[i as int]);
                }
            }
            assert forall|x: i64| keys@.take(n1).contains(x) <==> (keys@.take(i as int).contains(x) || x == k) by {
                if keys@.take(n1).contains(x) {
                    let j = choose|j: int| 0 <= j < i + 1 && keys@.take(n1)[j] == x;
                    if j < i {
                        assert(keys@.take(i as int)[j] == x);
                    }
                }
                if keys@.take(i as int).contains(x) {
                    let j = choose|j: int| 0 <= j < i && keys@.take(i as int)[j] == x;
                    assert(keys@.take(n1)[j] == x);
                }
                if x == k {
                    assert(keys@.take(n1)[i as int] == x);
                }
            }
        }
        let removed = rest.remove(&k);
        match removed {
            Some(rank_spells) => {
                proof {
                    assert(rank_spells == old_m[k]);
                    assert forall|j: int| 0 <= j < rank_spells@.len() implies spell_dmg_fits(
                        #[trigger] rank_spells@[j],
                        dmg_adjustment(variant, true),
                    ) by {
                        assert(spell_dmg_fits(old_m[k]@[j], m));
                    }
                }
                let converted = convert_spells(rank_spells, variant);
                out.insert(k, converted);
            },
            None => {
                assert(false);
            },
        }
        i = i + 1;
    }
    proof {
        assert(keys@.take(keys@.len() as int) =~= keys@);
        assert(out@.dom() =~= old_m.dom());
    }
    out
}

/// Spell ranks are compared as integers, so maps keyed by them behave as maps.
proof fn lemma_ranks_totally_ordered()
    ensures
        vstd::laws_cmp::obeys_cmp::<i64>(),
{
    broadcast use vstd::laws_cmp::group_laws_cmp;
}

} // verus!
