use crate::models::creature::creature_component::creature_spellcaster::{pwl_delta, pwl_modifier};
use crate::models::creature::creature_metadata::variant_enum::{adjustment, CreatureVariant};
use crate::models::item::armor_struct::Armor;
use crate::models::item::shield_struct::Shield;
use crate::models::item::weapon_struct::{DamageData, Weapon, WeaponData};
use std::collections::BTreeMap;
use vstd::prelude::*;

verus! {

/// A creature's saving throw modifiers and their notes.
#[derive(Clone, Debug)]
pub struct SavingThrows {
    pub fortitude: i64,
    pub reflex: i64,
    pub will: i64,
    pub fortitude_detail: Option<String>,
    pub reflex_detail: Option<String>,
    pub will_detail: Option<String>,
}

/// What a creature fights with and how it defends.
#[derive(Clone, Debug)]
pub struct CreatureCombatData {
    pub weapons: Vec<Weapon>,
    pub armors: Vec<Armor>,
    pub shields: Vec<Shield>,
    pub resistances: BTreeMap<String, i16>,
    pub immunities: Vec<String>,
    pub weaknesses: BTreeMap<String, i16>,
    pub saving_throws: SavingThrows,
    pub ac: i8,
}

pub open spec fn fits(x: int) -> bool {
    i64::MIN <= x <= i64::MAX
}

/// `x + m` for a known value.
pub open spec fn shift_known(o: Option<i64>, m: int) -> Option<i64> {
    match o {
        Some(x) => Some((x + m) as i64),
        None => None,
    }
}

pub open spec fn known_fits(o: Option<i64>, m: int) -> bool {
    match o {
        Some(x) => fits(x + m),
        None => true,
    }
}

/// The AC after adding `m`: computed in `i64`, then kept to its low 8 bits as an `i8`.
pub open spec fn shifted_ac(ac: i8, m: int) -> i8 {
    (ac as int + m) as i8
}

/// Adding `m` to the saving throws and to every known attack bonus stays in `i64`.
pub open spec fn defense_fits(c: CreatureCombatData, m: int) -> bool {
    &&& fits(c.saving_throws.fortitude + m)
    &&& fits(c.saving_throws.reflex + m)
    &&& fits(c.saving_throws.will + m)
    &&& fits(c.ac + m)
    &&& forall|i: int| 0 <= i < c.weapons@.len() ==> known_fits((#[trigger] c.weapons@[i]).weapon_data.to_hit_bonus, m)
}

/// `new` is `old` with `m` added to the attack bonus.
pub open spec fn weapon_to_hit_shifted(old: Weapon, new: Weapon, m: int) -> bool {
    new == (Weapon {
        weapon_data: WeaponData { to_hit_bonus: shift_known(old.weapon_data.to_hit_bonus, m), ..old.weapon_data },
        ..old
    })
}

/// `new` is `old` with `m` added to the saving throws and the AC; all but the weapons.
pub open spec fn defense_fields_shifted(old: CreatureCombatData, new: CreatureCombatData, m: int) -> bool {
    &&& new.saving_throws.fortitude == old.saving_throws.fortitude + m
    &&& new.saving_throws.reflex == old.saving_throws.reflex + m
    &&& new.saving_throws.will == old.saving_throws.will + m
    &&& new.saving_throws.fortitude_detail == old.saving_throws.fortitude_detail
    &&& new.saving_throws.reflex_detail == old.saving_throws.reflex_detail
    &&& new.saving_throws.will_detail == old.saving_throws.will_detail
    &&& new.ac == shifted_ac(old.ac, m)
    &&& new.armors == old.armors
    &&& new.shields == old.shields
    &&& new.resistances == old.resistances
    &&& new.immunities == old.immunities
    &&& new.weaknesses == old.weaknesses
}

/// The weapon `w` with `m` added to its attack bonus.
pub open spec fn to_hit_shifted(w: Weapon, m: int) -> Weapon {
    Weapon { weapon_data: WeaponData { to_hit_bonus: shift_known(w.weapon_data.to_hit_bonus, m), ..w.weapon_data }, ..w }
}

/// `new` is `old` with `m` added to the saving throws, the AC and the attack bonuses.
pub open spec fn defense_shifted(old: CreatureCombatData, new: CreatureCombatData, m: int) -> bool {
    &&& defense_fields_shifted(old, new, m)
    &&& new.weapons@.len() == old.weapons@.len()
    &&& forall|i: int| 0 <= i < old.weapons@.len() ==> weapon_to_hit_shifted(#[trigger] old.weapons@[i], new.weapons@[i], m)
}

/// Adding `m` to a weapon's splash and damage bonuses stays in `i64`.
pub open spec fn weapon_dmg_fits(w: Weapon, m: int) -> bool {
    &&& known_fits(w.weapon_data.splash_dmg, m)
    &&& forall|j: int| 0 <= j < w.weapon_data.damage_data@.len() ==> fits((#[trigger] w.weapon_data.damage_data@[j]).bonus_dmg + m)
}

/// `new` is `old` with `m` added to its splash damage and to each damage bonus.
pub open spec fn weapon_dmg_shifted(old: Weapon, new: Weapon, m: int) -> bool {
    &&& new.item_core == old.item_core
    &&& new.weapon_data == (WeaponData {
        splash_dmg: shift_known(old.weapon_data.splash_dmg, m),
        damage_data: new.weapon_data.damage_data,
        ..old.weapon_data
    })
    &&& new.weapon_data.damage_data@.len() == old.weapon_data.damage_data@.len()
    &&& forall|j: int| 0 <= j < old.weapon_data.damage_data@.len() ==> #[trigger] new.weapon_data.damage_data@[j] == (DamageData {
        bonus_dmg: (old.weapon_data.damage_data@[j].bonus_dmg + m) as i64,
        ..old.weapon_data.damage_data@[j]
    })
}

pub open spec fn dmg_fits(c: CreatureCombatData, m: int) -> bool {
    forall|i: int| 0 <= i < c.weapons@.len() ==> weapon_dmg_fits(#[trigger] c.weapons@[i], m)
}

/// `new` is `old` with `m` added to the damage of every weapon.
pub open spec fn dmg_shifted(old: CreatureCombatData, new: CreatureCombatData, m: int) -> bool {
    &&& new == (CreatureCombatData { weapons: new.weapons, ..old })
    &&& new.weapons@.len() == old.weapons@.len()
    &&& forall|i: int| 0 <= i < old.weapons@.len() ==> weapon_dmg_shifted(#[trigger] old.weapons@[i], new.weapons@[i], m)
}

/// The variant conversion: defenses and attack bonuses, then damage, all by `m`.
pub open spec fn combat_shifted(old: CreatureCombatData, new: CreatureCombatData, m: int) -> bool {
    &&& defense_fields_shifted(old, new, m)
    &&& new.weapons@.len() == old.weapons@.len()
    &&& forall|i: int| 0 <= i < old.weapons@.len() ==> weapon_dmg_shifted(to_hit_shifted(old.weapons@[i], m), #[trigger] new.weapons@[i], m)
}

fn shift_known_exec(o: Option<i64>, m: i64) -> (r: Option<i64>)
    requires
        known_fits(o, m as int),
    ensures
        r == shift_known(o, m as int),
{
    match o {
        Some(x) => Some(x + m),
        None => None,
    }
}

fn shift_damage_data(dd: Vec<DamageData>, m: i64) -> (r: Vec<DamageData>)
    requires
        forall|j: int| 0 <= j < dd@.len() ==> fits((#[trigger] dd@[j]).bonus_dmg + m),
    ensures
        r@.len() == dd@.len(),
        forall|j: int| 0 <= j < dd@.len() ==> #[trigger] r@[j] == (DamageData { bonus_dmg: (dd@[j].bonus_dmg + m) as i64, ..dd@[j] }),
{
    let ghost od = dd@;
    let mut rest = dd;
    let mut out: Vec<DamageData> = Vec::new();
    while rest.len() > 0
        invariant
            rest@.len() + out@.len() == od.len(),
            forall|k: int| 0 <= k < rest@.len() ==> #[trigger] rest@[k] == od[out@.len() + k],
            forall|j: int| 0 <= j < od.len() ==> fits((#[trigger] od[j]).bonus_dmg + m),
            forall|k: int| 0 <= k < out@.len() ==> #[trigger] out@[k] == (DamageData { bonus_dmg: (od[k].bonus_dmg + m) as i64, ..od[k] }),
        decreases rest@.len(),
    {
        let d = rest.remove(0);
        assert(fits(od[out@.len() as int].bonus_dmg + m));
        out.push(DamageData { id: d.id, bonus_dmg: d.bonus_dmg + m, dmg_type: d.dmg_type, dice: d.dice });
    }
    out
}

impl CreatureCombatData {
    fn add_mod_to_saving_throws_and_ac_and_wp_to_hit(self, modifier: i64) -> (r: CreatureCombatData)
        requires
            defense_fits(self, modifier as int),
        ensures
            defense_shifted(self, r, modifier as int),
    {
        let ghost old_self = self;
        let mut com_data = self;
        let mut weapons = Vec::new();
        std::mem::swap(&mut weapons, &mut com_data.weapons);
        let ghost ow = weapons@;
        let mut rest = weapons;
        let mut out: Vec<Weapon> = Vec::new();
        while rest.len() > 0
            invariant
                ow == old_self.weapons@,
                defense_fits(old_self, modifier as int),
                rest@.len() + out@.len() == ow.len(),
                forall|k: int| 0 <= k < rest@.len() ==> #[trigger] rest@[k] == ow[out@.len() + k],
                forall|k: int| 0 <= k < out@.len() ==> weapon_to_hit_shifted(ow[k], #[trigger] out@[k], modifier as int),
            decreases rest@.len(),
        {
            let mut wp = rest.remove(0);
            assert(known_fits(ow[out@.len() as int].weapon_data.to_hit_bonus, modifier as int));
            wp.weapon_data.to_hit_bonus = shift_known_exec(wp.weapon_data.to_hit_bonus, modifier);
            out.push(wp);
        }
        let new_ac = com_data.ac as i64 + modifier;
        com_data.ac = new_ac as i8;
        com_data.saving_throws.fortitude = com_data.saving_throws.fortitude + modifier;
        com_data.saving_throws.reflex = com_data.saving_throws.reflex + modifier;
        com_data.saving_throws.will = com_data.saving_throws.will + modifier;
        com_data.weapons = out;
        com_data
    }

    fn add_mod_to_dmg(self, modifier: i64) -> (r: CreatureCombatData)
        requires
            dmg_fits(self, modifier as int),
        ensures
            dmg_shifted(self, r, modifier as int),
    {
        let ghost old_self = self;
        let mut com_data = self;
        let mut weapons = Vec::new();
        std::mem::swap(&mut weapons, &mut com_data.weapons);
        let ghost ow = weapons@;
        let mut rest = weapons;
        let mut out: Vec<Weapon> = Vec::new();
        while rest.len() > 0
            invariant
                ow == old_self.weapons@,
                dmg_fits(old_self, modifier as int),
                rest@.len() + out@.len() == ow.len(),
                forall|k: int| 0 <= k < rest@.len() ==> #[trigger] rest@[k] == ow[out@.len() + k],
                forall|k: int| 0 <= k < out@.len() ==> weapon_dmg_shifted(ow[k], #[trigger] out@[k], modifier as int),
            decreases rest@.len(),
        {
            let mut wp = rest.remove(0);
            assert(weapon_dmg_fits(ow[out@.len() as int], modifier as int));
            wp.weapon_data.splash_dmg = shift_known_exec(wp.weapon_data.splash_dmg, modifier);
            let mut dd = Vec::new();
            std::mem::swap(&mut dd, &mut wp.weapon_data.damage_data);
            wp.weapon_data.damage_data = shift_damage_data(dd, modifier);
            out.push(wp);
        }
        com_data.weapons = out;
        com_data
    }

    /// Lowers the saving throws, the attack bonuses and the AC by the level (`pwl_mod`).
    pub fn convert_from_base_to_pwl(self, pwl_mod: u64) -> (r: CreatureCombatData)
        requires
            defense_fits(self, pwl_delta(pwl_mod)),
        ensures
            defense_shifted(self, r, pwl_delta(pwl_mod)),
    {
        self.add_mod_to_saving_throws_and_ac_and_wp_to_hit(pwl_modifier(pwl_mod))
    }

    /// Adjusts a weak (-2) or elite (+2) creature's AC, saving throws, attack bonuses
    /// and weapon damage.
    pub fn convert_from_base_to_variant(self, variant: CreatureVariant) -> (r: CreatureCombatData)
        requires
            defense_fits(self, adjustment(variant)),
            dmg_fits(self, adjustment(variant)),
        ensures
            combat_shifted(self, r, adjustment(variant)),
    {
        let modifier = variant.to_adjustment_modifier();
        let ghost old_self = self;
        let step = self.add_mod_to_saving_throws_and_ac_and_wp_to_hit(modifier);
        proof {
            assert forall|i: int| 0 <= i < step.weapons@.len() implies weapon_dmg_fits(#[trigger] step.weapons@[i], modifier as int) by {
                assert(weapon_to_hit_shifted(old_self.weapons@[i], step.weapons@[i], modifier as int));
                assert(weapon_dmg_fits(old_self.weapons@[i], modifier as int));
            }
        }
        let r = step.add_mod_to_dmg(modifier);
        proof {
            assert forall|i: int| 0 <= i < old_self.weapons@.len() implies weapon_dmg_shifted(
                to_hit_shifted(old_self.weapons@[i], modifier as int), #[trigger] r.weapons@[i], modifier as int) by {
                assert(weapon_to_hit_shifted(old_self.weapons@[i], step.weapons@[i], modifier as int));
                assert(weapon_dmg_shifted(step.weapons@[i], r.weapons@[i], modifier as int));
            }
        }
        r
    }
}

/// A weak or elite conversion moves the AC exactly as it moves each saving throw: up by
/// 2 for an elite creature, down by 2 for a weak one, not at all for the base creature
/// (as long as the new AC is an `i8`).
pub proof fn lemma_variant_moves_ac_with_saves(old: CreatureCombatData, new: CreatureCombatData, v: CreatureVariant)
    requires
        combat_shifted(old, new, adjustment(v)),
        i8::MIN <= old.ac + adjustment(v) <= i8::MAX,
    ensures
        new.ac == old.ac + match v {
            CreatureVariant::Elite => 2int,
            CreatureVariant::Weak => -2int,
            CreatureVariant::Base => 0int,
        },
        new.ac - old.ac == new.saving_throws.will - old.saving_throws.will,
        new.ac - old.ac == new.saving_throws.fortitude - old.saving_throws.fortitude,
        new.ac - old.ac == new.saving_throws.reflex - old.saving_throws.reflex,
        new.weapons@.len() == old.weapons@.len(),
        forall|i: int|
            0 <= i < old.weapons@.len() && fits(old.weapons@[i].weapon_data.to_hit_bonus.unwrap() + adjustment(v))
                ==> (#[trigger] new.weapons@[i]).weapon_data.to_hit_bonus == match old.weapons@[i].weapon_data.to_hit_bonus {
                Some(t) => Some((t + (new.ac - old.ac)) as i64),
                None => None,
            },
{
    assert forall|i: int|
        0 <= i < old.weapons@.len() && fits(old.weapons@[i].weapon_data.to_hit_bonus.unwrap() + adjustment(v))
            implies (#[trigger] new.weapons@[i]).weapon_data.to_hit_bonus == match old.weapons@[i].weapon_data.to_hit_bonus {
            Some(t) => Some((t + (new.ac - old.ac)) as i64),
            None => None,
        } by {
        assert(weapon_dmg_shifted(to_hit_shifted(old.weapons@[i], adjustment(v)), new.weapons@[i], adjustment(v)));
    }
}

/// Without proficiency by level, the AC loses the level, as each saving throw does
/// (as long as the new AC is an `i8`).
pub proof fn lemma_pwl_lowers_ac_by_level(old: CreatureCombatData, new: CreatureCombatData, level: u64)
    requires
        defense_shifted(old, new, pwl_delta(level)),
        level <= i64::MAX,
        i8::MIN <= old.ac - level,
    ensures
        new.ac == old.ac - level,
        new.ac - old.ac == new.saving_throws.will - old.saving_throws.will,
        new.ac - old.ac == new.saving_throws.fortitude - old.saving_throws.fortitude,
        new.ac - old.ac == new.saving_throws.reflex - old.saving_throws.reflex,
{
}

} // verus!

