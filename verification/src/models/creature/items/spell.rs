use crate::models::creature::creature_metadata::variant_enum::{dmg_adjustment, CreatureVariant};
use crate::models::routers_validator_structs::Dice;
use crate::models::shared::range_data::RangeData;
use vstd::prelude::*;

verus! {

/// A spell a creature can cast, with the damage it deals.
#[derive(Clone, Debug)]
pub struct Spell {
    pub id: i64,
    pub name: String,
    pub area_type: Option<String>,
    pub area_value: Option<i32>,
    pub counteraction: bool,
    pub basic_saving_throw: Option<bool>,
    pub saving_throw: Option<String>,
    pub sustained: bool,
    pub duration: Option<String>,
    pub level: i64,
    pub range: Option<RangeData>,
    pub target: String,
    pub actions: String,
    pub license: String,
    pub remaster: bool,
    pub source: String,
    pub rarity: String,
    pub slot: i64,
    pub creature_id: i64,
    pub spellcasting_entry_id: i64,
    pub description: String,
    pub damage: Vec<SpellDamageData>,
}

/// One damage component of a spell.
#[derive(Clone, Debug)]
pub struct SpellDamageData {
    pub id: i64,
    pub bonus_dmg: i64,
    pub dmg_type: Option<String>,
    pub category: Option<String>,
    pub kinds: Vec<String>,
    pub dice: Option<Dice>,
}

/// Adding `m` to the bonus damage of `d` does not overflow.
pub open spec fn dmg_fits(d: SpellDamageData, m: int) -> bool {
    i64::MIN <= d.bonus_dmg + m <= i64::MAX
}

/// `new` is `old` with `m` added to its bonus damage.
pub open spec fn dmg_shifted(old: SpellDamageData, new: SpellDamageData, m: int) -> bool {
    new == (SpellDamageData { bonus_dmg: (old.bonus_dmg + m) as i64, ..old })
}

/// Adding `m` to every damage component of `s` does not overflow.
pub open spec fn spell_dmg_fits(s: Spell, m: int) -> bool {
    forall|i: int| 0 <= i < s.damage@.len() ==> dmg_fits(#[trigger] s.damage@[i], m)
}

/// `new` is `old` with `m` added to the bonus damage of each damage component.
pub open spec fn spell_shifted(old: Spell, new: Spell, m: int) -> bool {
    &&& new == (Spell { damage: new.damage, ..old })
    &&& new.damage@.len() == old.damage@.len()
    &&& forall|i: int| 0 <= i < old.damage@.len() ==> dmg_shifted(#[trigger] old.damage@[i], new.damage@[i], m)
}

impl SpellDamageData {
    /// Adds `modifier` to the bonus damage.
    pub fn add_mod(self, modifier: i64) -> (r: Self)
        requires
            dmg_fits(self, modifier as int),
        ensures
            dmg_shifted(self, r, modifier as int),
    {
        let mut d = self;
        d.bonus_dmg = d.bonus_dmg + modifier;
        d
    }
}

impl Spell {
    /// Adjusts the damage of the spell for a weak or elite creature: a spell is an
    /// ability of limited use, so the damage changes by 4 (none for the base creature).
    pub fn convert_from_base_to_variant(self, variant: CreatureVariant) -> (r: Self)
        requires
            spell_dmg_fits(self, dmg_adjustment(variant, true)),
        ensures
            spell_shifted(self, r, dmg_adjustment(variant, true)),
    {
        let modifier = variant.to_dmg_adjustment_modifier(true);
        let ghost old_self = self;
        let mut s = self;
        let mut old_damage = Vec::new();
        std::mem::swap(&mut old_damage, &mut s.damage);
        let ghost od = old_damage@;
        let mut new_damage: Vec<SpellDamageData> = Vec::new();
        let mut rest = old_damage;
        let n = rest.len();
        while rest.len() > 0
            invariant
                od == old_self.damage@,
                spell_dmg_fits(old_self, modifier as int),
                n == od.len(),
                rest@.len() + new_damage@.len() == n,
                forall|k: int| 0 <= k < rest@.len() ==> #[trigger] rest@[k] == od[new_damage@.len() + k],
                forall|k: int| 0 <= k < new_damage@.len() ==> dmg_shifted(od[k], #[trigger] new_damage@[k], modifier as int),
            decreases rest@.len(),
        {
            let d = rest.remove(0);
            assert(dmg_fits(od[new_damage@.len() as int], modifier as int));
            new_damage.push(d.add_mod(modifier));
        }
        s.damage = new_damage;
        s
    }
}

} // verus!
