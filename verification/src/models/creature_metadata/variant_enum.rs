use crate::models::creature_component::creature_core::CreatureCoreData;
use crate::services::url_calculator::{add_boolean_query, opt_view, spec_add_boolean_query};
use vstd::prelude::*;

verus! {

/// A creature as written (`Base`), or its weak or elite adjustment.
#[derive(Clone, Copy, Debug, PartialEq, Eq, Structural, Hash, PartialOrd, Ord)]
pub enum CreatureVariant {
    Weak,
    Elite,
    Base,
}

impl Default for CreatureVariant {
    fn default() -> (r: Self)
        ensures
            r == CreatureVariant::Base,
    {
        CreatureVariant::Base
    }
}

/// The display name: the variant's name.
pub open spec fn variant_name(v: CreatureVariant) -> Seq<char> {
    match v {
        CreatureVariant::Weak => "Weak"@,
        CreatureVariant::Elite => "Elite"@,
        CreatureVariant::Base => "Base"@,
    }
}

/// The level change of a variant.
pub open spec fn variant_level_delta(v: CreatureVariant) -> int {
    match v {
        CreatureVariant::Weak => -1,
        CreatureVariant::Elite => 1,
        CreatureVariant::Base => 0,
    }
}

/// The hit points a variant gains or loses, by level: 10 up to level 1, 15 from level
/// 2, 20 from level 5, 30 from level 20.
pub open spec fn hp_step_for_level(lvl: int) -> int {
    if lvl >= 20 { 30 } else if lvl >= 5 { 20 } else if lvl >= 2 { 15 } else { 10 }
}

/// The hit points of the variant: the base creature keeps its own; a variant gains
/// (elite) or loses (weak) the step of its level, keeping at least 1.
pub open spec fn variant_hit_points(v: CreatureVariant, hp: int, lvl: int) -> int {
    match v {
        CreatureVariant::Base => hp,
        _ => {
            let x = hp + hp_step_for_level(lvl) * variant_level_delta(v);
            if x > 1 { x } else { 1 }
        },
    }
}

/// The archive link of the variant: the base link, or the link with `&Weak=true` or
/// `&Elite=true` appended.
pub open spec fn variant_link(v: CreatureVariant, link: Option<Seq<char>>) -> Option<Seq<char>> {
    match v {
        CreatureVariant::Base => link,
        _ => spec_add_boolean_query(link, variant_name(v), true),
    }
}

fn hp_step(lvl: i64) -> (r: i64)
    ensures
        r == hp_step_for_level(lvl as int),
{
    if lvl >= 20 {
        30
    } else if lvl >= 5 {
        20
    } else if lvl >= 2 {
        15
    } else {
        10
    }
}

impl CreatureVariant {
    pub fn to_string(&self) -> (r: String)
        ensures
            r@ == variant_name(*self),
    {
        match self {
            CreatureVariant::Weak => String::from_str("Weak"),
            CreatureVariant::Elite => String::from_str("Elite"),
            CreatureVariant::Base => String::from_str("Base"),
        }
    }

    /// -1 for weak, +1 for elite, 0 for the base creature.
    pub fn to_level_delta(&self) -> (r: i64)
        ensures
            r == variant_level_delta(*self),
    {
        match self {
            CreatureVariant::Weak => -1,
            CreatureVariant::Elite => 1,
            CreatureVariant::Base => 0,
        }
    }

    /// The hit points and archive link of the variant of a creature.
    pub fn get_variant_hp_and_link(&self, core: &CreatureCoreData) -> (r: (i64, Option<String>))
        requires
            i64::MIN + 30 <= core.essential.hp <= i64::MAX - 30,
        ensures
            r.0 == variant_hit_points(*self, core.essential.hp as int, core.essential.level as int),
            opt_view(r.1) == variant_link(*self, opt_view(core.derived.archive_link)),
    {
        let link = match &core.derived.archive_link {
            Some(l) => Some(l.clone()),
            None => None,
        };
        match self {
            CreatureVariant::Base => (core.essential.hp, link),
            _ => {
                let name = self.to_string();
                let variant_archive_link = add_boolean_query(link.as_ref(), name.as_str(), true);
                let mut hp = core.essential.hp + hp_step(core.essential.level) * self.to_level_delta();
                if hp < 1 {
                    hp = 1;
                }
                (hp, variant_archive_link)
            },
        }
    }
}

/// A weak variant never has more hit points than the creature, an elite one never
/// fewer, and neither has fewer than 1.
pub proof fn lemma_variant_hit_points_order(hp: int, lvl: int)
    requires
        hp >= 1,
    ensures
        1 <= variant_hit_points(CreatureVariant::Weak, hp, lvl) <= hp,
        hp <= variant_hit_points(CreatureVariant::Elite, hp, lvl),
        variant_hit_points(CreatureVariant::Base, hp, lvl) == hp,
{
}

} // verus!
