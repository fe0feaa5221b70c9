pub mod creature_component;
pub mod creature_field_filter;
pub mod creature_filter_enum;
pub mod creature_metadata;
pub mod creature_struct;
pub mod items;
use crate::models::creature_component::creature_combat::CreatureCombatData;
use crate::models::creature_component::creature_core::CreatureCoreData;
use crate::models::creature_component::creature_extra::CreatureExtraData;
use crate::models::creature_component::creature_info::CreatureInfo;
use crate::models::creature_component::creature_spell_caster::CreatureSpellCasterData;
use crate::models::creature_component::creature_variant::CreatureVariantData;
use crate::models::routers_validator_structs::FieldFilters;
use crate::text::{spec_contains, str_contains, to_lowercase, to_uppercase, unicode_lower, unicode_upper, views};
use vstd::prelude::*;

verus! {

/// Where a creature was published, and under which license.
#[derive(Clone, Debug)]
pub struct PublicationInfo {
    pub license: String,
    pub remaster: bool,
    pub source: String,
}

/// A creature of the flat model, with all its components.
#[derive(Clone, Debug)]
pub struct Creature {
    pub core_data: CreatureCoreData,
    pub variant_data: CreatureVariantData,
    pub extra_data: CreatureExtraData,
    pub combat_data: CreatureCombatData,
    pub spell_caster_data: CreatureSpellCasterData,
    pub info: CreatureInfo,
}

/// The maximum hit points and level, where set, are not exceeded.
pub open spec fn passes_upper_bounds(c: Creature, f: FieldFilters) -> bool {
    &&& (match f.max_hp_filter { Some(m) => c.core_data.essential.hp <= m, None => true })
    &&& (match f.max_level_filter { Some(m) => c.variant_data.level <= m, None => true })
}

/// The minimum hit points and level, where set, are reached.
pub open spec fn passes_lower_bounds(c: Creature, f: FieldFilters) -> bool {
    &&& (match f.min_hp_filter { Some(m) => c.core_data.essential.hp >= m, None => true })
    &&& (match f.min_level_filter { Some(m) => c.variant_data.level >= m, None => true })
}

/// Rarity, size, alignment and the ways of attacking, where set, are the creature's.
pub open spec fn passes_equalities(c: Creature, f: FieldFilters) -> bool {
    let e = c.core_data.essential;
    let d = c.core_data.derived;
    &&& (match f.rarity_filter { Some(x) => e.rarity == x, None => true })
    &&& (match f.size_filter { Some(x) => e.size == x, None => true })
    &&& (match f.alignment_filter { Some(x) => e.alignment == x, None => true })
    &&& (match f.is_melee_filter { Some(x) => d.is_melee == x, None => true })
    &&& (match f.is_ranged_filter { Some(x) => d.is_ranged == x, None => true })
    &&& (match f.is_spell_caster_filter { Some(x) => d.is_spell_caster == x, None => true })
}

/// The name and family, once in lower case, contain the wanted texts (which are taken
/// as they are written).
pub open spec fn passes_texts(c: Creature, f: FieldFilters) -> bool {
    &&& (match f.name_filter {
        Some(n) => spec_contains(unicode_lower(c.core_data.essential.name@), n@),
        None => true,
    })
    &&& (match f.family_filter {
        Some(n) => spec_contains(unicode_lower(c.core_data.essential.family@), n@),
        None => true,
    })
}

/// The creature passes every filter that is set.
pub open spec fn passes_field_filters(c: Creature, f: FieldFilters) -> bool {
    &&& passes_equalities(c, f)
    &&& passes_upper_bounds(c, f)
    &&& passes_lower_bounds(c, f)
    &&& passes_texts(c, f)
}

impl Creature {
    /// Whether the creature passes every filter that is set (see `passes_field_filters`).
    pub fn is_passing_filters(&self, filters: &FieldFilters) -> (r: bool)
        ensures
            r == passes_field_filters(*self, *filters),
    {
        Creature::check_creature_pass_equality_filters(self, filters)
            && Creature::check_creature_pass_greater_filters(self, filters)
            && Creature::check_creature_pass_lesser_filters(self, filters)
            && Creature::check_creature_pass_string_filters(self, filters)
    }

    fn check_creature_pass_greater_filters(&self, filters: &FieldFilters) -> (r: bool)
        ensures
            r == passes_upper_bounds(*self, *filters),
    {
        let hp_pass = match filters.max_hp_filter {
            Some(m) => self.core_data.essential.hp <= m,
            None => true,
        };
        let level_pass = match filters.max_level_filter {
            Some(m) => self.variant_data.level <= m,
            None => true,
        };
        hp_pass && level_pass
    }

    fn check_creature_pass_lesser_filters(&self, filters: &FieldFilters) -> (r: bool)
        ensures
            r == passes_lower_bounds(*self, *filters),
    {
        let hp_pass = match filters.min_hp_filter {
            Some(m) => self.core_data.essential.hp >= m,
            None => true,
        };
        let level_pass = match filters.min_level_filter {
            Some(m) => self.variant_data.level >= m,
            None => true,
        };
        hp_pass && level_pass
    }

    fn check_creature_pass_equality_filters(&self, filters: &FieldFilters) -> (r: bool)
        ensures
            r == passes_equalities(*self, *filters),
    {
        let e = &self.core_data.essential;
        let d = &self.core_data.derived;
        let rarity_pass = match filters.rarity_filter {
            Some(x) => e.rarity == x,
            None => true,
        };
        let size_pass = match filters.size_filter {
            Some(x) => e.size == x,
            None => true,
        };
        let alignment_pass = match filters.alignment_filter {
            Some(x) => e.alignment == x,
            None => true,
        };
        let is_melee_pass = match filters.is_melee_filter {
            Some(x) => d.is_melee == x,
            None => true,
        };
        let is_ranged_pass = match filters.is_ranged_filter {
            Some(x) => d.is_ranged == x,
            None => true,
        };
        let is_spell_caster_pass = match filters.is_spell_caster_filter {
            Some(x) => d.is_spell_caster == x,
            None => true,
        };
        rarity_pass && size_pass && alignment_pass && is_melee_pass && is_ranged_pass && is_spell_caster_pass
    }

    fn check_creature_pass_string_filters(&self, filters: &FieldFilters) -> (r: bool)
        ensures
            r == passes_texts(*self, *filters),
    {
        let name_pass = match &filters.name_filter {
            Some(n) => {
                let lower = to_lowercase(self.core_data.essential.name.as_str());
                str_contains(lower.as_str(), n.as_str())
            },
            None => true,
        };
        let family_pass = match &filters.family_filter {
            Some(n) => {
                let lower = to_lowercase(self.core_data.essential.family.as_str());
                str_contains(lower.as_str(), n.as_str())
            },
            None => true,
        };
        name_pass && family_pass
    }
}

/// Some weapon's type, in upper case, is the given text.
pub open spec fn has_weapon_type(weapon_types: Seq<Seq<char>>, upper: Seq<char>) -> bool {
    exists|i: int| 0 <= i < weapon_types.len() && unicode_upper(#[trigger] weapon_types[i]) == upper
}

/// Whether some weapon's type, in upper case, is the given text.
fn some_weapon_of_type(weapon_types: &Vec<String>, upper: &str) -> (r: bool)
    ensures
        r == has_weapon_type(views(weapon_types@), upper@),
{
    let target = String::from_str(upper);
    let mut i: usize = 0;
    while i < weapon_types.len()
        invariant
            i <= weapon_types@.len(),
            target@ == upper@,
            forall|k: int| 0 <= k < i ==> unicode_upper(#[trigger] views(weapon_types@)[k]) != upper@,
        decreases weapon_types@.len() - i,
    {
        let u = to_uppercase(weapon_types[i].as_str());
        assert(views(weapon_types@)[i as int] == weapon_types@[i as int]@);
        if u.eq(&target) {
            return true;
        }
        i = i + 1;
    }
    false
}

/// Whether the creature has a melee weapon, given its weapons' types (in any letter case).
pub fn is_melee(weapon_types: &Vec<String>) -> (r: bool)
    ensures
        r == has_weapon_type(views(weapon_types@), "MELEE"@),
{
    some_weapon_of_type(weapon_types, "MELEE")
}

/// Whether the creature has a ranged weapon, given its weapons' types (in any letter case).
pub fn is_ranged(weapon_types: &Vec<String>) -> (r: bool)
    ensures
        r == has_weapon_type(views(weapon_types@), "RANGED"@),
{
    some_weapon_of_type(weapon_types, "RANGED")
}

} // verus!
