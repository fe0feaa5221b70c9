use crate::models::creature::creature_component::creature_spellcaster::{pwl_delta, pwl_modifier};
use crate::models::creature::creature_metadata::variant_enum::{dmg_adjustment, CreatureVariant};
use crate::models::creature::items::action::Action;
use crate::models::creature::items::skill::Skill;
use crate::models::db::sense::Sense;
use crate::models::item::item_struct::Item;
use crate::models::shared::description::Description;
use vstd::prelude::*;

verus! {

/// A creature's six attribute modifiers.
#[derive(Clone, Debug)]
pub struct AbilityScores {
    pub charisma: i64,
    pub constitution: i64,
    pub dexterity: i64,
    pub intelligence: i64,
    pub strength: i64,
    pub wisdom: i64,
}

/// What a creature can do and perceive beyond its core data.
#[derive(Clone, Debug)]
pub struct CreatureExtraData {
    pub actions: Vec<Action>,
    pub skills: Vec<Skill>,
    pub items: Vec<Item>,
    pub languages: Vec<String>,
    pub senses: Vec<Sense>,
    /// Each kind of movement with its speed, one entry per kind.
    pub speeds: Vec<(String, i16)>,
    pub ability_scores: AbilityScores,
    pub hp_detail: Option<String>,
    pub ac_detail: Option<String>,
    pub language_detail: Option<String>,
    pub perception: i32,
    pub perception_detail: Option<String>,
    pub has_vision: bool,
    pub description: Description,
    pub blurb: String,
    pub speed_details: String,
}

/// Adding `m` to Perception (computed in `i64`) and to every skill modifier stays in `i64`.
pub open spec fn extra_fits(e: CreatureExtraData, m: int) -> bool {
    &&& i64::MIN <= e.perception + m <= i64::MAX
    &&& forall|i: int| 0 <= i < e.skills@.len() ==> i64::MIN <= (#[trigger] e.skills@[i]).modifier + m <= i64::MAX
}

/// `new` is `old` with `m` added to Perception (kept to an `i32`) and to every skill
/// modifier.
pub open spec fn extra_shifted(old: CreatureExtraData, new: CreatureExtraData, m: int) -> bool {
    &&& new == (CreatureExtraData { perception: ((old.perception + m) as i64) as i32, skills: new.skills, ..old })
    &&& new.skills@.len() == old.skills@.len()
    &&& forall|i: int| 0 <= i < old.skills@.len() ==> #[trigger] new.skills@[i] == (Skill {
        modifier: (old.skills@[i].modifier + m) as i64,
        ..old.skills@[i]
    })
}

impl CreatureExtraData {
    fn add_mod_to_perception_and_skill_mods(self, modifier: i64) -> (r: Self)
        requires
            extra_fits(self, modifier as int),
        ensures
            extra_shifted(self, r, modifier as int),
    {
        let ghost old_self = self;
        let mut ex_data = self;
        let p = ex_data.perception as i64 + modifier;
        ex_data.perception = p as i32;
        let mut skills = Vec::new();
        std::mem::swap(&mut skills, &mut ex_data.skills);
        let ghost os = skills@;
        let mut rest = skills;
        let mut out: Vec<Skill> = Vec::new();
        while rest.len() > 0
            invariant
                os == old_self.skills@,
                extra_fits(old_self, modifier as int),
                rest@.len() + out@.len() == os.len(),
                forall|k: int| 0 <= k < rest@.len() ==> #[trigger] rest@[k] == os[out@.len() + k],
                forall|k: int| 0 <= k < out@.len() ==> #[trigger] out@[k] == (Skill { modifier: (os[k].modifier + modifier) as i64, ..os[k] }),
            decreases rest@.len(),
        {
            let mut skill = rest.remove(0);
            assert(i64::MIN <= os[out@.len() as int].modifier + modifier <= i64::MAX);
            skill.modifier = skill.modifier + modifier;
            out.push(skill);
        }
        ex_data.skills = out;
        ex_data
    }

    /// Lowers Perception and the skill modifiers by the level (`pwl_mod`).
    pub fn convert_from_base_to_pwl(self, pwl_mod: u64) -> (r: Self)
        requires
            extra_fits(self, pwl_delta(pwl_mod)),
        ensures
            extra_shifted(self, r, pwl_delta(pwl_mod)),
    {
        self.add_mod_to_perception_and_skill_mods(pwl_modifier(pwl_mod))
    }

    /// Adjusts a weak (-2) or elite (+2) creature's Perception and skill modifiers.
    pub fn convert_from_base_to_variant(self, variant: CreatureVariant) -> (r: Self)
        requires
            extra_fits(self, dmg_adjustment(variant, false)),
        ensures
            extra_shifted(self, r, dmg_adjustment(variant, false)),
    {
        self.add_mod_to_perception_and_skill_mods(variant.to_dmg_adjustment_modifier(false))
    }
}

} // verus!
