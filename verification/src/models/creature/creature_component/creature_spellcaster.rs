use crate::models::creature::creature_metadata::variant_enum::{adjustment, dmg_adjustment, CreatureVariant};
use crate::models::creature::items::spell::{spell_dmg_fits, spell_shifted, Spell};
use crate::models::creature::items::spellcaster_entry::{SpellcasterData, SpellcasterEntry};
use vstd::prelude::*;

verus! {

/// The spellcasting of a creature: its spellcasting entries.
#[derive(Clone, Debug)]
pub struct CreatureSpellcasterData {
    pub spellcaster_entries: Vec<SpellcasterEntry>,
}

/// The number of spells over the first `n` entries.
pub open spec fn spells_in(entries: Seq<SpellcasterEntry>, n: int) -> int
    decreases n,
{
    if n <= 0 { 0 } else { spells_in(entries, n - 1) + entries[n - 1].spells@.len() }
}

/// The highest spell DC modifier over the first `n` entries (`n > 0`).
pub open spec fn max_dc_in(entries: Seq<SpellcasterEntry>, n: int) -> i64
    decreases n,
{
    if n <= 1 {
        entries[0].spellcaster_data.spellcasting_dc_mod
    } else {
        let m = max_dc_in(entries, n - 1);
        let d = entries[n - 1].spellcaster_data.spellcasting_dc_mod;
        if d > m { d } else { m }
    }
}

/// Adding `m` to the DC and attack modifiers of every entry does not overflow.
pub open spec fn dc_atk_fit(entries: Seq<SpellcasterEntry>, m: int) -> bool {
    forall|i: int| 0 <= i < entries.len() ==> {
        &&& i64::MIN <= (#[trigger] entries[i]).spellcaster_data.spellcasting_dc_mod + m <= i64::MAX
        &&& i64::MIN <= entries[i].spellcaster_data.spellcasting_atk_mod + m <= i64::MAX
    }
}

/// `new` is `old` with `m` added to the DC and attack modifiers.
pub open spec fn entry_dc_atk_shifted(old: SpellcasterEntry, new: SpellcasterEntry, m: int) -> bool {
    &&& new.spells == old.spells
    &&& new.spellcaster_data == (SpellcasterData {
        spellcasting_dc_mod: (old.spellcaster_data.spellcasting_dc_mod + m) as i64,
        spellcasting_atk_mod: (old.spellcaster_data.spellcasting_atk_mod + m) as i64,
        ..old.spellcaster_data
    })
}

/// Adding `m` to the damage of every spell does not overflow.
pub open spec fn spells_dmg_fit(entries: Seq<SpellcasterEntry>, m: int) -> bool {
    forall|i: int, j: int| 0 <= i < entries.len() && 0 <= j < entries[i].spells@.len()
        ==> spell_dmg_fits(#[trigger] entries[i].spells@[j], m)
}

/// `new` is `old` with `m` added to the damage of every spell.
pub open spec fn entry_dmg_shifted(old: SpellcasterEntry, new: SpellcasterEntry, m: int) -> bool {
    &&& new.spellcaster_data == old.spellcaster_data
    &&& new.spells@.len() == old.spells@.len()
    &&& forall|j: int| 0 <= j < old.spells@.len() ==> spell_shifted(#[trigger] old.spells@[j], new.spells@[j], m)
}

/// Both shifts: `d` to the DC and attack modifiers, `s` to the spell damage.
pub open spec fn entry_shifted(old: SpellcasterEntry, new: SpellcasterEntry, d: int, s: int) -> bool {
    &&& new.spellcaster_data == (SpellcasterData {
        spellcasting_dc_mod: (old.spellcaster_data.spellcasting_dc_mod + d) as i64,
        spellcasting_atk_mod: (old.spellcaster_data.spellcasting_atk_mod + d) as i64,
        ..old.spellcaster_data
    })
    &&& new.spells@.len() == old.spells@.len()
    &&& forall|j: int| 0 <= j < old.spells@.len() ==> spell_shifted(#[trigger] old.spells@[j], new.spells@[j], s)
}

/// The level-without-proficiency conversion subtracts `pwl_mod` (kept within `i64`).
pub open spec fn pwl_delta(pwl_mod: u64) -> int {
    if pwl_mod <= i64::MAX as u64 { -(pwl_mod as int) } else { -(i64::MAX as int) }
}

pub fn pwl_modifier(pwl_mod: u64) -> (r: i64)
    ensures
        r == pwl_delta(pwl_mod),
{
    if pwl_mod <= i64::MAX as u64 {
        -(pwl_mod as i64)
    } else {
        -i64::MAX
    }
}

pub(crate) fn convert_spells(spells: Vec<Spell>, variant: CreatureVariant) -> (r: Vec<Spell>)
    requires
        forall|j: int| 0 <= j < spells@.len() ==> spell_dmg_fits(#[trigger] spells@[j], dmg_adjustment(variant, true)),
    ensures
        r@.len() == spells@.len(),
        forall|j: int| 0 <= j < spells@.len() ==> spell_shifted(#[trigger] spells@[j], r@[j], dmg_adjustment(variant, true)),
{
    let ghost os = spells@;
    let mut rest = spells;
    let mut out: Vec<Spell> = Vec::new();
    while rest.len() > 0
        invariant
            rest@.len() + out@.len() == os.len(),
            forall|k: int| 0 <= k < rest@.len() ==> #[trigger] rest@[k] == os[out@.len() + k],
            forall|j: int| 0 <= j < os.len() ==> spell_dmg_fits(#[trigger] os[j], dmg_adjustment(variant, true)),
            forall|k: int| 0 <= k < out@.len() ==> spell_shifted(os[k], #[trigger] out@[k], dmg_adjustment(variant, true)),
        decreases rest@.len(),
    {
        let s = rest.remove(0);
        assert(spell_dmg_fits(os[out@.len() as int], dmg_adjustment(variant, true)));
        out.push(s.convert_from_base_to_variant(variant));
    }
    out
}

impl CreatureSpellcasterData {
    /// The number of spells over all entries.
    pub fn get_total_n_of_spells(&self) -> (r: usize)
        requires
            spells_in(self.spellcaster_entries@, self.spellcaster_entries@.len() as int) <= usize::MAX,
        ensures
            r == spells_in(self.spellcaster_entries@, self.spellcaster_entries@.len() as int),
    {
        let mut total: usize = 0;
        let mut i: usize = 0;
        while i < self.spellcaster_entries.len()
            invariant
                i <= self.spellcaster_entries@.len(),
                total == spells_in(self.spellcaster_entries@, i as int),
                spells_in(self.spellcaster_entries@, self.spellcaster_entries@.len() as int) <= usize::MAX,
            decreases self.spellcaster_entries@.len() - i,
        {
            proof {
                lemma_spells_in_monotone(self.spellcaster_entries@, i as int + 1, self.spellcaster_entries@.len() as int);
            }
            total = total + self.spellcaster_entries[i].spells.len();
            i = i + 1;
        }
        total
    }

    /// The highest spell DC modifier over the entries; none without entries.
    pub fn get_highest_spell_dc_mod(&self) -> (r: Option<i64>)
        ensures
            r == (if self.spellcaster_entries@.len() == 0 {
                None::<i64>
            } else {
                Some(max_dc_in(self.spellcaster_entries@, self.spellcaster_entries@.len() as int))
            }),
    {
        let n = self.spellcaster_entries.len();
        if n == 0 {
            return None;
        }
        let mut best = self.spellcaster_entries[0].spellcaster_data.spellcasting_dc_mod;
        let mut i: usize = 1;
        while i < n
            invariant
                n == self.spellcaster_entries@.len(),
                1 <= i <= n,
                best == max_dc_in(self.spellcaster_entries@, i as int),
            decreases n - i,
        {
            let d = self.spellcaster_entries[i].spellcaster_data.spellcasting_dc_mod;
            if d > best {
                best = d;
            }
            i = i + 1;
        }
        Some(best)
    }

    /// Adds `modifier` to the spellcasting DC and attack modifier of every entry.
    pub fn add_mod_to_spellcaster_atk_and_dc(self, modifier: i64) -> (r: Self)
        requires
            dc_atk_fit(self.spellcaster_entries@, modifier as int),
        ensures
            r.spellcaster_entries@.len() == self.spellcaster_entries@.len(),
            forall|i: int| 0 <= i < self.spellcaster_entries@.len() ==> entry_dc_atk_shifted(
                #[trigger] self.spellcaster_entries@[i], r.spellcaster_entries@[i], modifier as int),
    {
        let ghost oe = self.spellcaster_entries@;
        let mut rest = self.spellcaster_entries;
        let mut out: Vec<SpellcasterEntry> = Vec::new();
        while rest.len() > 0
            invariant
                rest@.len() + out@.len() == oe.len(),
                forall|k: int| 0 <= k < rest@.len() ==> #[trigger] rest@[k] == oe[out@.len() + k],
                dc_atk_fit(oe, modifier as int),
                forall|k: int| 0 <= k < out@.len() ==> entry_dc_atk_shifted(oe[k], #[trigger] out@[k], modifier as int),
            decreases rest@.len(),
        {
            let entry = rest.remove(0);
            assert(rest@.len() + out@.len() + 1 == oe.len());
            let ghost idx = out@.len() as int;
            assert(entry == oe[idx]);
            let sce = entry.spellcaster_data;
            let data = SpellcasterData {
                id: sce.id,
                spellcasting_name: sce.spellcasting_name,
                is_spellcasting_flexible: sce.is_spellcasting_flexible,
                type_of_spellcaster: sce.type_of_spellcaster,
                spellcasting_dc_mod: sce.spellcasting_dc_mod + modifier,
                spellcasting_atk_mod: sce.spellcasting_atk_mod + modifier,
                spellcasting_tradition: sce.spellcasting_tradition,
                heighten_level: sce.heighten_level,
            };
            out.push(SpellcasterEntry { spellcaster_data: data, spells: entry.spells });
        }
        CreatureSpellcasterData { spellcaster_entries: out }
    }

    /// Adjusts the damage of every spell for the variant (spells are abilities of
    /// limited use: ±4).
    fn add_mod_to_spell_dmg(self, variant: CreatureVariant) -> (r: Self)
        requires
            spells_dmg_fit(self.spellcaster_entries@, dmg_adjustment(variant, true)),
        ensures
            r.spellcaster_entries@.len() == self.spellcaster_entries@.len(),
            forall|i: int| 0 <= i < self.spellcaster_entries@.len() ==> entry_dmg_shifted(
                #[trigger] self.spellcaster_entries@[i], r.spellcaster_entries@[i], dmg_adjustment(variant, true)),
    {
        let ghost oe = self.spellcaster_entries@;
        let mut rest = self.spellcaster_entries;
        let mut out: Vec<SpellcasterEntry> = Vec::new();
        while rest.len() > 0
            invariant
                rest@.len() + out@.len() == oe.len(),
                forall|k: int| 0 <= k < rest@.len() ==> #[trigger] rest@[k] == oe[out@.len() + k],
                spells_dmg_fit(oe, dmg_adjustment(variant, true)),
                forall|k: int| 0 <= k < out@.len() ==> entry_dmg_shifted(oe[k], #[trigger] out@[k], dmg_adjustment(variant, true)),
            decreases rest@.len(),
        {
            let entry = rest.remove(0);
            let ghost idx = out@.len() as int;
            assert(entry == oe[idx]);
            assert forall|j: int| 0 <= j < entry.spells@.len() implies spell_dmg_fits(#[trigger] entry.spells@[j], dmg_adjustment(variant, true)) by {
                assert(spell_dmg_fits(oe[idx].spells@[j], dmg_adjustment(variant, true)));
            }
            let spells = convert_spells(entry.spells, variant);
            out.push(SpellcasterEntry { spellcaster_data: entry.spellcaster_data, spells });
        }
        CreatureSpellcasterData { spellcaster_entries: out }
    }

    /// Lowers the spellcasting DC and attack modifier by the level (`pwl_mod`).
    pub fn convert_from_base_to_pwl(self, pwl_mod: u64) -> (r: Self)
        requires
            dc_atk_fit(self.spellcaster_entries@, pwl_delta(pwl_mod)),
        ensures
            r.spellcaster_entries@.len() == self.spellcaster_entries@.len(),
            forall|i: int| 0 <= i < self.spellcaster_entries@.len() ==> entry_dc_atk_shifted(
                #[trigger] self.spellcaster_entries@[i], r.spellcaster_entries@[i], pwl_delta(pwl_mod)),
    {
        self.add_mod_to_spellcaster_atk_and_dc(pwl_modifier(pwl_mod))
    }

    /// Adjusts a weak or elite creature's spellcasting: the DC and attack modifier
    /// change by 2, the damage of its spells (abilities of limited use) by 4.
    pub fn convert_from_base_to_variant(self, variant: CreatureVariant) -> (r: Self)
        requires
            dc_atk_fit(self.spellcaster_entries@, adjustment(variant)),
            spells_dmg_fit(self.spellcaster_entries@, dmg_adjustment(variant, true)),
        ensures
            r.spellcaster_entries@.len() == self.spellcaster_entries@.len(),
            forall|i: int| 0 <= i < self.spellcaster_entries@.len() ==> entry_shifted(
                #[trigger] self.spellcaster_entries@[i], r.spellcaster_entries@[i],
                adjustment(variant), dmg_adjustment(variant, true)),
    {
        let ghost oe = self.spellcaster_entries@;
        let step = self.add_mod_to_spellcaster_atk_and_dc(variant.to_dmg_adjustment_modifier(false));
        proof {
            assert forall|i: int, j: int| 0 <= i < step.spellcaster_entries@.len() && 0 <= j < step.spellcaster_entries@[i].spells@.len()
                implies spell_dmg_fits(#[trigger] step.spellcaster_entries@[i].spells@[j], dmg_adjustment(variant, true)) by {
                assert(entry_dc_atk_shifted(oe[i], step.spellcaster_entries@[i], adjustment(variant)));
                assert(spell_dmg_fits(oe[i].spells@[j], dmg_adjustment(variant, true)));
            }
        }
        let r = step.add_mod_to_spell_dmg(variant);
        proof {
            assert forall|i: int| 0 <= i < oe.len() implies entry_shifted(
                #[trigger] oe[i], r.spellcaster_entries@[i], adjustment(variant), dmg_adjustment(variant, true)) by {
                assert(entry_dc_atk_shifted(oe[i], step.spellcaster_entries@[i], adjustment(variant)));
                assert(entry_dmg_shifted(step.spellcaster_entries@[i], r.spellcaster_entries@[i], dmg_adjustment(variant, true)));
            }
        }
        r
    }
}

proof fn lemma_spells_in_monotone(entries: Seq<SpellcasterEntry>, a: int, b: int)
    requires
        0 <= a <= b,
    ensures
        spells_in(entries, a) <= spells_in(entries, b),
    decreases b - a,
{
    if a < b {
        lemma_spells_in_monotone(entries, a, b - 1);
    }
}

} // verus!
