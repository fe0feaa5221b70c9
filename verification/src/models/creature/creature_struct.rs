use crate::models::creature::creature_component::creature_combat::{
    combat_shifted, defense_fits, defense_shifted, dmg_fits, CreatureCombatData,
};
use crate::models::creature::creature_component::creature_core::CreatureCoreData;
use crate::models::creature::creature_component::creature_extra::{extra_fits, extra_shifted, CreatureExtraData};
use crate::models::creature::creature_component::creature_spell_caster::{
    entries_fit, entries_spells_fit, entry_dc_atk_shifted, entry_variant_shifted, CreatureSpellcasterData,
};
use crate::models::creature::creature_component::creature_spellcaster::pwl_delta;
use crate::models::creature::creature_component::creature_variant::CreatureVariantData;
use crate::models::creature::creature_field_filter::{attack_kinds_in_key_order, no_creature_filters, CreatureFieldFilters};
use crate::models::creature::creature_metadata::creature_role::{role_key, CreatureRoleEnum};
use crate::models::creature::creature_metadata::type_enum::CreatureTypeEnum;
use crate::models::creature::creature_metadata::variant_enum::{
    adjustment, dmg_adjustment, hp_mod, variant_archive_link, variant_hp, variant_level, CreatureVariant,
};
use crate::models::creature_metadata::alignment_enum::AlignmentEnum;
use crate::models::creature_metadata::rarity_enum::RarityEnum;
use crate::models::creature_metadata::size_enum::SizeEnum;
use crate::models::shared::pf_version_enum::GameSystemVersionEnum;
use crate::services::url_calculator::opt_view;
use crate::text::{spec_contains, str_contains, to_lowercase, unicode_lower};
use vstd::prelude::*;

verus! {

/// A creature: its core data, the variant it is shown as, and the optional details.
#[derive(Clone, Debug)]
pub struct Creature {
    pub core_data: CreatureCoreData,
    pub variant_data: CreatureVariantData,
    pub extra_data: Option<CreatureExtraData>,
    pub combat_data: Option<CreatureCombatData>,
    pub spell_caster_data: Option<CreatureSpellcasterData>,
}

/// The variant's hit points and level stay within `i64`; always so for the base
/// creature, which changes neither.
pub open spec fn core_fits_variant(core: CreatureCoreData, v: CreatureVariant) -> bool {
    &&& i64::MIN <= core.essential.hp + hp_mod(v, core.essential.base_level as int) <= i64::MAX
    &&& i64::MIN <= variant_level(v, core.essential.base_level as int) <= i64::MAX
}

/// Every present detail can take the variant's adjustments without overflow.
pub open spec fn details_fit_variant(c: Creature, v: CreatureVariant) -> bool {
    &&& (match c.extra_data { Some(e) => extra_fits(e, dmg_adjustment(v, false)), None => true })
    &&& (match c.combat_data { Some(d) => defense_fits(d, adjustment(v)) && dmg_fits(d, adjustment(v)), None => true })
    &&& (match c.spell_caster_data {
        Some(s) => entries_fit(s.spell_caster_entries@, adjustment(v))
            && entries_spells_fit(s.spell_caster_entries@, dmg_adjustment(v, true)),
        None => true,
    })
}

/// The core data of the variant: only the hit points change.
pub open spec fn variant_core(core: CreatureCoreData, v: CreatureVariant) -> CreatureCoreData {
    CreatureCoreData {
        essential: crate::models::creature::creature_component::creature_core::EssentialData {
            hp: variant_hp(v, core.essential.hp as int, core.essential.base_level as int) as i64,
            ..core.essential
        },
        ..core
    }
}

/// `r` is the creature built from `core` as variant `v`, with no details.
pub open spec fn is_variant_of_core(r: Creature, core: CreatureCoreData, v: CreatureVariant) -> bool {
    &&& r.core_data == variant_core(core, v)
    &&& r.variant_data.variant == v
    &&& r.variant_data.level == variant_level(v, core.essential.base_level as int)
    &&& opt_view(r.variant_data.archive_link) == variant_archive_link(v, opt_view(core.derived.archive_link))
}

/// The spellcasting of `new` is that of `old` with `m` added to the known DC and
/// attack modifiers.
pub open spec fn spells_shifted(old: CreatureSpellcasterData, new: CreatureSpellcasterData, m: int) -> bool {
    &&& new.spell_caster_entries@.len() == old.spell_caster_entries@.len()
    &&& forall|i: int| 0 <= i < old.spell_caster_entries@.len() ==> entry_dc_atk_shifted(
        #[trigger] old.spell_caster_entries@[i], new.spell_caster_entries@[i], m)
}

/// The spellcasting of the variant: the known DC and attack modifiers change by the
/// variant's adjustment (±2), and the damage of every spell by twice it (±4).
pub open spec fn spells_variant_shifted(old: CreatureSpellcasterData, new: CreatureSpellcasterData, v: CreatureVariant) -> bool {
    &&& new.spell_caster_entries@.len() == old.spell_caster_entries@.len()
    &&& forall|i: int| 0 <= i < old.spell_caster_entries@.len() ==> entry_variant_shifted(
        #[trigger] old.spell_caster_entries@[i], new.spell_caster_entries@[i], adjustment(v), dmg_adjustment(v, true))
}

/// The level that the level-without-proficiency rule removes: the base level, or 0
/// for negative levels.
pub open spec fn pwl_of(core: CreatureCoreData) -> u64 {
    if core.essential.base_level >= 0 { core.essential.base_level as u64 } else { 0 }
}

/// Every present detail can lose the level without overflow.
pub open spec fn details_fit_pwl(c: Creature) -> bool {
    let d = pwl_delta(pwl_of(c.core_data));
    &&& (match c.extra_data { Some(e) => extra_fits(e, d), None => true })
    &&& (match c.combat_data { Some(x) => defense_fits(x, d), None => true })
    &&& (match c.spell_caster_data { Some(s) => entries_fit(s.spell_caster_entries@, d), None => true })
}

/// `r` is the `v` variant of `c`: the variant of its core data, with every present
/// detail adjusted (spell damage by the limited-use amount) and no detail added.
pub open spec fn variant_version_of(c: Creature, v: CreatureVariant, r: Creature) -> bool {
    &&& is_variant_of_core(r, c.core_data, v)
    &&& match (c.extra_data, r.extra_data) {
        (Some(o), Some(n)) => extra_shifted(o, n, dmg_adjustment(v, false)),
        (None, None) => true,
        _ => false,
    }
    &&& match (c.combat_data, r.combat_data) {
        (Some(o), Some(n)) => combat_shifted(o, n, adjustment(v)),
        (None, None) => true,
        _ => false,
    }
    &&& match (c.spell_caster_data, r.spell_caster_data) {
        (Some(o), Some(n)) => spells_variant_shifted(o, n, v),
        (None, None) => true,
        _ => false,
    }
}

/// `r` is `c` under the level-without-proficiency rule: the same core and variant
/// data, with the level taken off every present detail.
pub open spec fn pwl_version_of(c: Creature, r: Creature) -> bool {
    let d = pwl_delta(pwl_of(c.core_data));
    &&& r.core_data == c.core_data
    &&& r.variant_data == c.variant_data
    &&& match (c.extra_data, r.extra_data) {
        (Some(o), Some(n)) => extra_shifted(o, n, d),
        (None, None) => true,
        _ => false,
    }
    &&& match (c.combat_data, r.combat_data) {
        (Some(o), Some(n)) => defense_shifted(o, n, d),
        (None, None) => true,
        _ => false,
    }
    &&& match (c.spell_caster_data, r.spell_caster_data) {
        (Some(o), Some(n)) => spells_shifted(o, n, d),
        (None, None) => true,
        _ => false,
    }
}

/// The value the association list gives `key`: the first pair with that key.
pub open spec fn lookup<V>(list: Seq<(String, V)>, key: Seq<char>) -> Option<V>
    decreases list.len(),
{
    if list.len() == 0 {
        None
    } else if list[0].0@ == key {
        Some(list[0].1)
    } else {
        lookup(list.drop_first(), key)
    }
}

pub open spec fn hp_lvl_ub_pass(c: Creature, f: CreatureFieldFilters) -> bool {
    &&& (match f.max_hp_filter { Some(m) => c.core_data.essential.hp <= m, None => true })
    &&& (match f.max_level_filter { Some(m) => c.variant_data.level <= m, None => true })
}

pub open spec fn hp_lvl_lb_pass(c: Creature, f: CreatureFieldFilters) -> bool {
    &&& (match f.min_hp_filter { Some(m) => c.core_data.essential.hp >= m, None => true })
    &&& (match f.min_level_filter { Some(m) => c.variant_data.level >= m, None => true })
}

pub open spec fn in_list<T>(o: Option<Vec<T>>, x: T) -> bool {
    match o {
        Some(v) => v@.contains(x),
        None => true,
    }
}

/// Every wanted attack kind is as the creature has it.
pub open spec fn attacks_pass(c: Creature, f: CreatureFieldFilters) -> bool {
    match f.attack_data_filter {
        Some(a) => forall|i: int| 0 <= i < a@.len() ==> {
            let (attack, has) = #[trigger] a@[i];
            has is None || lookup(c.core_data.derived.attack_data@, attack@) == has
        },
        None => true,
    }
}

/// The role score a creature has for a role: 0 when it has none.
pub open spec fn role_score(c: Creature, r: CreatureRoleEnum) -> i64 {
    match lookup(c.core_data.derived.role_data@, role_key(r)) {
        Some(v) => v,
        None => 0,
    }
}

/// With a threshold, some wanted role has a score of at least the threshold.
pub open spec fn roles_pass(c: Creature, f: CreatureFieldFilters) -> bool {
    match (f.role_threshold, f.role_filter) {
        (Some(t), Some(roles)) => exists|i: int| 0 <= i < roles@.len() && role_score(c, #[trigger] roles@[i]) >= t,
        _ => true,
    }
}

pub open spec fn version_pass(c: Creature, f: CreatureFieldFilters) -> bool {
    match f.game_system_version {
        Some(GameSystemVersionEnum::Legacy) => !c.core_data.essential.remaster,
        Some(GameSystemVersionEnum::Remaster) => c.core_data.essential.remaster,
        _ => true,
    }
}

pub open spec fn equality_pass(c: Creature, f: CreatureFieldFilters) -> bool {
    &&& in_list(f.rarity_filter, c.core_data.essential.rarity)
    &&& in_list(f.size_filter, c.core_data.essential.size)
    &&& in_list(f.alignment_filter, c.core_data.essential.alignment)
    &&& attacks_pass(c, f)
    &&& in_list(f.type_filter, c.core_data.essential.cr_type)
    &&& roles_pass(c, f)
    &&& version_pass(c, f)
}

/// Case-insensitive substring test (Unicode lower case of both sides).
pub open spec fn ci_contains(hay: Seq<char>, needle: Seq<char>) -> bool {
    spec_contains(unicode_lower(hay), unicode_lower(needle))
}

pub open spec fn string_pass(c: Creature, f: CreatureFieldFilters) -> bool {
    let traits = c.core_data.traits@;
    &&& (match f.name_filter { Some(n) => ci_contains(c.core_data.essential.name@, n@), None => true })
    &&& (match f.family_filter {
        Some(v) => exists|i: int| 0 <= i < v@.len() && ci_contains(c.core_data.essential.family@, (#[trigger] v@[i])@),
        None => true,
    })
    &&& (match f.trait_whitelist_filter {
        Some(v) => exists|i: int, j: int| 0 <= i < v@.len() && 0 <= j < traits.len()
            && ci_contains((#[trigger] traits[j])@, (#[trigger] v@[i])@),
        None => true,
    })
    &&& (match f.trait_blacklist_filter {
        Some(v) => !exists|i: int, j: int| 0 <= i < v@.len() && 0 <= j < traits.len()
            && unicode_lower((#[trigger] traits[j])@) == unicode_lower((#[trigger] v@[i])@),
        None => true,
    })
}

/// A creature passes the listing filters.
pub open spec fn passes_filters(c: Creature, f: CreatureFieldFilters) -> bool {
    &&& equality_pass(c, f)
    &&& hp_lvl_ub_pass(c, f)
    &&& hp_lvl_lb_pass(c, f)
    &&& string_pass(c, f)
}

fn lookup_bool(list: &Vec<(String, bool)>, key: &str) -> (r: Option<bool>)
    ensures
        r == lookup(list@, key@),
{
    let mut i: usize = 0;
    assert(list@.skip(0) =~= list@);
    while i < list.len()
        invariant
            i <= list@.len(),
            lookup(list@, key@) == lookup(list@.skip(i as int), key@),
        decreases list@.len() - i,
    {
        let s = String::from_str(key);
        if list[i].0.eq(&s) {
            return Some(list[i].1);
        }
        assert(list@.skip(i as int).drop_first() =~= list@.skip(i + 1));
        i = i + 1;
    }
    None
}

fn lookup_i64(list: &Vec<(String, i64)>, key: &str) -> (r: Option<i64>)
    ensures
        r == lookup(list@, key@),
{
    let mut i: usize = 0;
    assert(list@.skip(0) =~= list@);
    while i < list.len()
        invariant
            i <= list@.len(),
            lookup(list@, key@) == lookup(list@.skip(i as int), key@),
        decreases list@.len() - i,
    {
        let s = String::from_str(key);
        if list[i].0.eq(&s) {
            return Some(list[i].1);
        }
        assert(list@.skip(i as int).drop_first() =~= list@.skip(i + 1));
        i = i + 1;
    }
    None
}

fn contains_rarity(v: &Vec<RarityEnum>, x: RarityEnum) -> (r: bool)
    ensures
        r == v@.contains(x),
{
    let mut i: usize = 0;
    while i < v.len()
        invariant
            i <= v@.len(),
            forall|k: int| 0 <= k < i ==> v@[k] != x,
        decreases v@.len() - i,
    {
        if v[i] == x {
            return true;
        }
        i = i + 1;
    }
    false
}

fn contains_size(v: &Vec<SizeEnum>, x: SizeEnum) -> (r: bool)
    ensures
        r == v@.contains(x),
{
    let mut i: usize = 0;
    while i < v.len()
        invariant
            i <= v@.len(),
            forall|k: int| 0 <= k < i ==> v@[k] != x,
        decreases v@.len() - i,
    {
        if v[i] == x {
            return true;
        }
        i = i + 1;
    }
    false
}

fn contains_alignment(v: &Vec<AlignmentEnum>, x: AlignmentEnum) -> (r: bool)
    ensures
        r == v@.contains(x),
{
    let mut i: usize = 0;
    while i < v.len()
        invariant
            i <= v@.len(),
            forall|k: int| 0 <= k < i ==> v@[k] != x,
        decreases v@.len() - i,
    {
        if v[i] == x {
            return true;
        }
        i = i + 1;
    }
    false
}

fn contains_type(v: &Vec<CreatureTypeEnum>, x: CreatureTypeEnum) -> (r: bool)
    ensures
        r == v@.contains(x),
{
    let mut i: usize = 0;
    while i < v.len()
        invariant
            i <= v@.len(),
            forall|k: int| 0 <= k < i ==> v@[k] != x,
        decreases v@.len() - i,
    {
        if v[i] == x {
            return true;
        }
        i = i + 1;
    }
    false
}

/// Case-insensitive substring test.
fn ci_contains_exec(hay: &str, needle: &str) -> (r: bool)
    ensures
        r == ci_contains(hay@, needle@),
{
    let h = to_lowercase(hay);
    let n = to_lowercase(needle);
    str_contains(h.as_str(), n.as_str())
}

/// The lower-case forms of the strings.
fn lower_all(v: &Vec<String>) -> (r: Vec<String>)
    ensures
        r@.len() == v@.len(),
        forall|i: int| 0 <= i < v@.len() ==> (#[trigger] r@[i])@ == unicode_lower(v@[i]@),
{
    let mut out: Vec<String> = Vec::new();
    let mut i: usize = 0;
    while i < v.len()
        invariant
            i <= v@.len(),
            out@.len() == i,
            forall|k: int| 0 <= k < i ==> (#[trigger] out@[k])@ == unicode_lower(v@[k]@),
        decreases v@.len() - i,
    {
        out.push(to_lowercase(v[i].as_str()));
        i = i + 1;
    }
    out
}

impl Creature {
    /// The creature as the given variant. The core's hit points, the level and the
    /// archive link become the variant's; the details (Perception and skills, AC,
    /// saves, attacks and damage, spell DCs and attack modifiers) are adjusted by 2.
    pub fn convert_creature_to_variant(self, variant: CreatureVariant) -> (r: Self)
        requires
            core_fits_variant(self.core_data, variant),
            details_fit_variant(self, variant),
        ensures
            variant_version_of(self, variant, r),
    {
        let mut cr = Creature::from_core_with_variant(self.core_data, variant);
        cr.extra_data = match self.extra_data {
            Some(x) => Some(x.convert_from_base_to_variant(variant)),
            None => None,
        };
        cr.combat_data = match self.combat_data {
            Some(x) => Some(x.convert_from_base_to_variant(variant)),
            None => None,
        };
        cr.spell_caster_data = match self.spell_caster_data {
            Some(x) => Some(x.convert_from_base_to_variant(variant)),
            None => None,
        };
        cr
    }

    /// The creature under the level-without-proficiency rule: the details lose the
    /// creature's level (0 for negative levels); the core and variant are kept.
    pub fn convert_creature_to_pwl(self) -> (r: Self)
        requires
            details_fit_pwl(self),
        ensures
            pwl_version_of(self, r),
    {
        let pwl_mod: u64 = if self.core_data.essential.base_level >= 0 {
            self.core_data.essential.base_level as u64
        } else {
            0
        };
        Creature {
            core_data: self.core_data,
            variant_data: self.variant_data,
            extra_data: match self.extra_data {
                Some(x) => Some(x.convert_from_base_to_pwl(pwl_mod)),
                None => None,
            },
            combat_data: match self.combat_data {
                Some(x) => Some(x.convert_from_base_to_pwl(pwl_mod)),
                None => None,
            },
            spell_caster_data: match self.spell_caster_data {
                Some(x) => Some(x.convert_from_base_to_pwl(pwl_mod)),
                None => None,
            },
        }
    }

    /// The base creature of the core data, with no details.
    pub fn from_core(core: CreatureCoreData) -> (r: Self)
        ensures
            r.core_data == core,
            r.variant_data.variant == CreatureVariant::Base,
            r.variant_data.level == core.essential.base_level,
            opt_view(r.variant_data.archive_link) == opt_view(core.derived.archive_link),
            r.extra_data is None,
            r.combat_data is None,
            r.spell_caster_data is None,
    {
        let level = core.essential.base_level;
        let archive_link = match &core.derived.archive_link {
            Some(l) => Some(l.clone()),
            None => None,
        };
        Creature {
            core_data: core,
            variant_data: CreatureVariantData { variant: CreatureVariant::Base, level, archive_link },
            extra_data: None,
            combat_data: None,
            spell_caster_data: None,
        }
    }

    /// The given variant of the creature of the core data, with no details: the hit
    /// points, level and archive link are the variant's.
    pub fn from_core_with_variant(core: CreatureCoreData, creature_variant: CreatureVariant) -> (r: Self)
        requires
            core_fits_variant(core, creature_variant),
        ensures
            is_variant_of_core(r, core, creature_variant),
            r.extra_data is None,
            r.combat_data is None,
            r.spell_caster_data is None,
    {
        let mut core = core;
        let variant_hp = creature_variant.get_variant_hp(core.essential.hp, core.essential.base_level);
        let link = match &core.derived.archive_link {
            Some(l) => Some(l.clone()),
            None => None,
        };
        let variant_archive_link = creature_variant.get_variant_archive_link(link);
        let variant_level = creature_variant.get_variant_level(core.essential.base_level);
        core.essential.hp = variant_hp;
        Creature {
            core_data: core,
            variant_data: CreatureVariantData {
                variant: creature_variant,
                level: variant_level,
                archive_link: variant_archive_link,
            },
            extra_data: None,
            combat_data: None,
            spell_caster_data: None,
        }
    }

    /// Whether the creature passes every filter of the listing (see `passes_filters`).
    pub fn is_passing_filters(&self, filters: &CreatureFieldFilters) -> (r: bool)
        requires
            attack_kinds_in_key_order(*filters),
        ensures
            r == passes_filters(*self, *filters),
    {
        self.check_creature_pass_equality_filters(filters) && self.check_creature_pass_ub_filters(filters)
            && self.check_creature_pass_lb_filters(filters) && self.check_creature_pass_string_filters(filters)
    }

    fn check_creature_pass_ub_filters(&self, filters: &CreatureFieldFilters) -> (r: bool)
        ensures
            r == hp_lvl_ub_pass(*self, *filters),
    {
        let hp_pass = match filters.max_hp_filter {
            Some(m) => self.core_data.essential.hp <= m,
            None => true,
        };
        let level_pass = match filters.max_level_filter {
            Some(m) => self.variant_data.level <= m,
            None => true,
        };
        hp_pass && level_pass
    }

    fn check_creature_pass_lb_filters(&self, filters: &CreatureFieldFilters) -> (r: bool)
        ensures
            r == hp_lvl_lb_pass(*self, *filters),
    {
        let hp_pass = match filters.min_hp_filter {
            Some(m) => self.core_data.essential.hp >= m,
            None => true,
        };
        let level_pass = match filters.min_level_filter {
            Some(m) => self.variant_data.level >= m,
            None => true,
        };
        hp_pass && level_pass
    }

    fn check_attacks(&self, filters: &CreatureFieldFilters) -> (r: bool)
        ensures
            r == attacks_pass(*self, *filters),
    {
        match &filters.attack_data_filter {
            None => true,
            Some(a) => {
                let mut i: usize = 0;
                while i < a.len()
                    invariant
                        filters.attack_data_filter == Some(*a),
                        i <= a@.len(),
                        forall|k: int| 0 <= k < i ==> {
                            let (attack, has) = #[trigger] a@[k];
                            has is None || lookup(self.core_data.derived.attack_data@, attack@) == has
                        },
                    decreases a@.len() - i,
                {
                    let has = a[i].1;
                    match has {
                        Some(_) => {
                            let found = lookup_bool(&self.core_data.derived.attack_data, a[i].0.as_str());
                            if found != has {
                                return false;
                            }
                        },
                        None => {},
                    }
                    i = i + 1;
                }
                true
            },
        }
    }

    fn check_roles(&self, filters: &CreatureFieldFilters) -> (r: bool)
        ensures
            r == roles_pass(*self, *filters),
    {
        match (filters.role_threshold, &filters.role_filter) {
            (Some(t), Some(roles)) => {
                let mut i: usize = 0;
                while i < roles.len()
                    invariant
                        filters.role_filter == Some(*roles),
                        filters.role_threshold == Some(t),
                        i <= roles@.len(),
                        forall|k: int| 0 <= k < i ==> role_score(*self, #[trigger] roles@[k]) < t,
                    decreases roles@.len() - i,
                {
                    let score = match lookup_i64(&self.core_data.derived.role_data, roles[i].to_role_key()) {
                        Some(v) => v,
                        None => 0,
                    };
                    if score >= t {
                        assert(filters.role_filter.unwrap()@[i as int] == roles@[i as int]);
                        assert(role_score(*self, filters.role_filter.unwrap()@[i as int]) >= t);
                        return true;
                    }
                    i = i + 1;
                }
                false
            },
            _ => true,
        }
    }

    fn check_creature_pass_equality_filters(&self, filters: &CreatureFieldFilters) -> (r: bool)
        ensures
            r == equality_pass(*self, *filters),
    {
        let rarity_pass = match &filters.rarity_filter {
            Some(v) => contains_rarity(v, self.core_data.essential.rarity),
            None => true,
        };
        let size_pass = match &filters.size_filter {
            Some(v) => contains_size(v, self.core_data.essential.size),
            None => true,
        };
        let alignment_pass = match &filters.alignment_filter {
            Some(v) => contains_alignment(v, self.core_data.essential.alignment),
            None => true,
        };
        let type_pass = match &filters.type_filter {
            Some(v) => contains_type(v, self.core_data.essential.cr_type),
            None => true,
        };
        let version_pass = match filters.game_system_version {
            Some(GameSystemVersionEnum::Legacy) => !self.core_data.essential.remaster,
            Some(GameSystemVersionEnum::Remaster) => self.core_data.essential.remaster,
            _ => true,
        };
        rarity_pass && size_pass && alignment_pass && self.check_attacks(filters) && type_pass
            && self.check_roles(filters) && version_pass
    }

    fn check_creature_pass_string_filters(&self, filters: &CreatureFieldFilters) -> (r: bool)
        ensures
            r == string_pass(*self, *filters),
    {
        let name_pass = match &filters.name_filter {
            Some(n) => ci_contains_exec(self.core_data.essential.name.as_str(), n.as_str()),
            None => true,
        };
        if !name_pass {
            return false;
        }
        let family_pass = match &filters.family_filter {
            Some(v) => {
                let mut found = false;
                let mut i: usize = 0;
                while i < v.len()
                    invariant
                        i <= v@.len(),
                        found == exists|k: int| 0 <= k < i && ci_contains(self.core_data.essential.family@, (#[trigger] v@[k])@),
                    decreases v@.len() - i,
                {
                    if ci_contains_exec(self.core_data.essential.family.as_str(), v[i].as_str()) {
                        found = true;
                    }
                    i = i + 1;
                }
                found
            },
            None => true,
        };
        if !family_pass {
            return false;
        }
        let traits = &self.core_data.traits;
        let whitelist_pass = match &filters.trait_whitelist_filter {
            Some(v) => {
                let mut found = false;
                let mut i: usize = 0;
                while i < v.len()
                    invariant
                        i <= v@.len(),
                        found == exists|k: int, j: int| 0 <= k < i && 0 <= j < traits@.len()
                            && ci_contains((#[trigger] traits@[j])@, (#[trigger] v@[k])@),
                    decreases v@.len() - i,
                {
                    let mut any_j = false;
                    let mut j: usize = 0;
                    while j < traits.len()
                        invariant
                            i < v@.len(),
                            j <= traits@.len(),
                            any_j == exists|jj: int| 0 <= jj < j && ci_contains((#[trigger] traits@[jj])@, v@[i as int]@),
                        decreases traits@.len() - j,
                    {
                        if ci_contains_exec(traits[j].as_str(), v[i].as_str()) {
                            any_j = true;
                        }
                        j = j + 1;
                    }
                    proof {
                        let a_next = exists|k: int, j: int| 0 <= k < i + 1 && 0 <= j < traits@.len()
                            && ci_contains((#[trigger] traits@[j])@, (#[trigger] v@[k])@);
                        if a_next {
                            let (k, jw) = choose|k: int, j: int| 0 <= k < i + 1 && 0 <= j < traits@.len()
                                && ci_contains((#[trigger] traits@[j])@, (#[trigger] v@[k])@);
                            if k == i {
                                assert(ci_contains(traits@[jw]@, v@[i as int]@));
                            }
                        }
                        if any_j {
                            let jw = choose|jj: int| 0 <= jj < traits@.len() && ci_contains((#[trigger] traits@[jj])@, v@[i as int]@);
                            assert(ci_contains(traits@[jw]@, v@[i as int]@));
                        }
                    }
                    found = found || any_j;
                    i = i + 1;
                }
                found
            },
            None => true,
        };
        if !whitelist_pass {
            return false;
        }
        match &filters.trait_blacklist_filter {
            Some(v) => {
                let lv = lower_all(v);
                let lt = lower_all(traits);
                let mut i: usize = 0;
                while i < lv.len()
                    invariant
                        filters.trait_blacklist_filter == Some(*v),
                        traits == &self.core_data.traits,
                        lv@.len() == v@.len(),
                        lt@.len() == traits@.len(),
                        forall|k: int| 0 <= k < v@.len() ==> (#[trigger] lv@[k])@ == unicode_lower(v@[k]@),
                        forall|k: int| 0 <= k < traits@.len() ==> (#[trigger] lt@[k])@ == unicode_lower(traits@[k]@),
                        i <= lv@.len(),
                        !exists|k: int, j: int| 0 <= k < i && 0 <= j < traits@.len()
                            && unicode_lower((#[trigger] traits@[j])@) == unicode_lower((#[trigger] v@[k])@),
                    decreases lv@.len() - i,
                {
                    let mut j: usize = 0;
                    while j < lt.len()
                        invariant
                            filters.trait_blacklist_filter == Some(*v),
                            traits == &self.core_data.traits,
                            lv@.len() == v@.len(),
                            lt@.len() == traits@.len(),
                            forall|k: int| 0 <= k < v@.len() ==> (#[trigger] lv@[k])@ == unicode_lower(v@[k]@),
                            forall|k: int| 0 <= k < traits@.len() ==> (#[trigger] lt@[k])@ == unicode_lower(traits@[k]@),
                            i < lv@.len(),
                            j <= lt@.len(),
                            forall|jj: int| 0 <= jj < j ==> unicode_lower((#[trigger] traits@[jj])@) != unicode_lower(v@[i as int]@),
                        decreases lt@.len() - j,
                    {
                        if lt[j].eq(&lv[i]) {
                            assert(unicode_lower(traits@[j as int]@) == unicode_lower(v@[i as int]@));
                            let ghost fv = filters.trait_blacklist_filter.unwrap();
                            let ghost ct = self.core_data.traits@;
                            assert(unicode_lower(ct[j as int]@) == unicode_lower(fv@[i as int]@));
                            return false;
                        }
                        j = j + 1;
                    }
                    i = i + 1;
                }
                true
            },
            None => true,
        }
    }
}

// ----- Laws --------------------------------------------------------------------------

/// With no filter set, every creature passes.
pub proof fn lemma_no_filters_pass_every_creature(c: Creature, f: CreatureFieldFilters)
    requires
        no_creature_filters(f),
    ensures
        passes_filters(c, f),
{
}

/// A minimum above the maximum, for the level or for the hit points, lets no creature
/// through.
pub proof fn lemma_crossed_bounds_reject_every_creature(c: Creature, f: CreatureFieldFilters)
    requires
        (f.min_level_filter is Some && f.max_level_filter is Some
            && f.min_level_filter.unwrap() > f.max_level_filter.unwrap())
        || (f.min_hp_filter is Some && f.max_hp_filter is Some
            && f.min_hp_filter.unwrap() > f.max_hp_filter.unwrap()),
    ensures
        !passes_filters(c, f),
{
}

/// For a creature with hit points, the base variant of its core data is that core data
/// itself, at the core's level and with the core's link; and any core can be made into
/// its base variant.
pub proof fn lemma_base_variant_keeps_core(core: CreatureCoreData)
    requires
        core.essential.hp >= 1,
    ensures
        core_fits_variant(core, CreatureVariant::Base),
        variant_core(core, CreatureVariant::Base) == core,
        variant_level(CreatureVariant::Base, core.essential.base_level as int) == core.essential.base_level,
        variant_archive_link(CreatureVariant::Base, opt_view(core.derived.archive_link)) == opt_view(core.derived.archive_link),
{
}

/// The level and hit point bounds of the listing are inclusive, and each acts on its
/// own: setting one of them to `m` keeps exactly the creatures that pass without it and
/// whose level (or hit points) is at most `m` for a maximum, at least `m` for a minimum.
pub proof fn lemma_level_and_hp_bounds_are_inclusive(c: Creature, f: CreatureFieldFilters, m: i64)
    ensures
        passes_filters(c, (CreatureFieldFilters { max_level_filter: Some(m), ..f })) == (passes_filters(
            c,
            (CreatureFieldFilters { max_level_filter: None, ..f }),
        ) && c.variant_data.level <= m),
        passes_filters(c, (CreatureFieldFilters { min_level_filter: Some(m), ..f })) == (passes_filters(
            c,
            (CreatureFieldFilters { min_level_filter: None, ..f }),
        ) && c.variant_data.level >= m),
        passes_filters(c, (CreatureFieldFilters { max_hp_filter: Some(m), ..f })) == (passes_filters(
            c,
            (CreatureFieldFilters { max_hp_filter: None, ..f }),
        ) && c.core_data.essential.hp <= m),
        passes_filters(c, (CreatureFieldFilters { min_hp_filter: Some(m), ..f })) == (passes_filters(
            c,
            (CreatureFieldFilters { min_hp_filter: None, ..f }),
        ) && c.core_data.essential.hp >= m),
{
}

/// A weak or elite creature's AC is 2 above (elite) or below (weak) the base creature's,
/// as long as it stays an `i8`.
pub proof fn lemma_variant_creature_ac(c: Creature, v: CreatureVariant, r: Creature)
    requires
        variant_version_of(c, v, r),
        c.combat_data is Some,
        i8::MIN + 2 <= c.combat_data.unwrap().ac <= i8::MAX - 2,
    ensures
        r.combat_data is Some,
        r.combat_data.unwrap().ac == c.combat_data.unwrap().ac + match v {
            CreatureVariant::Elite => 2int,
            CreatureVariant::Weak => -2int,
            CreatureVariant::Base => 0int,
        },
{
}

/// Each list filter of the listing keeps exactly the creatures whose value is in the
/// list, on top of what the other filters keep: rarity, size, alignment and type; and
/// the version filter keeps the legacy creatures for `Legacy`, the remastered ones for
/// `Remaster`, and everyone for `Any`.
pub proof fn lemma_list_filters_select_by_membership(
    c: Creature,
    f: CreatureFieldFilters,
    rarities: Vec<RarityEnum>,
    sizes: Vec<SizeEnum>,
    alignments: Vec<AlignmentEnum>,
    types: Vec<CreatureTypeEnum>,
    version: GameSystemVersionEnum,
)
    ensures
        passes_filters(c, (CreatureFieldFilters { rarity_filter: Some(rarities), ..f })) == (passes_filters(
            c,
            (CreatureFieldFilters { rarity_filter: None, ..f }),
        ) && rarities@.contains(c.core_data.essential.rarity)),
        passes_filters(c, (CreatureFieldFilters { size_filter: Some(sizes), ..f })) == (passes_filters(
            c,
            (CreatureFieldFilters { size_filter: None, ..f }),
        ) && sizes@.contains(c.core_data.essential.size)),
        passes_filters(c, (CreatureFieldFilters { alignment_filter: Some(alignments), ..f })) == (passes_filters(
            c,
            (CreatureFieldFilters { alignment_filter: None, ..f }),
        ) && alignments@.contains(c.core_data.essential.alignment)),
        passes_filters(c, (CreatureFieldFilters { type_filter: Some(types), ..f })) == (passes_filters(
            c,
            (CreatureFieldFilters { type_filter: None, ..f }),
        ) && types@.contains(c.core_data.essential.cr_type)),
        passes_filters(c, (CreatureFieldFilters { game_system_version: Some(version), ..f })) == (passes_filters(
            c,
            (CreatureFieldFilters { game_system_version: None, ..f }),
        ) && match version {
            GameSystemVersionEnum::Legacy => !c.core_data.essential.remaster,
            GameSystemVersionEnum::Remaster => c.core_data.essential.remaster,
            GameSystemVersionEnum::Any => true,
        }),
{
}

} // verus!

