use vstd::prelude::*;

verus! {

/// The combat roles a creature can fill.
#[derive(Clone, Copy, Debug, PartialEq, Eq, Structural, Hash)]
pub enum CreatureRole {
    Brute,
    MagicalStriker,
    SkillParagon,
    Skirmisher,
    Sniper,
    Soldier,
    SpellCaster,
}

/// The display name of a role, written in double quotes.
pub open spec fn creature_role_text(r: CreatureRole) -> Seq<char> {
    match r {
        CreatureRole::Brute => "\"Brute\""@,
        CreatureRole::MagicalStriker => "\"Magical Striker\""@,
        CreatureRole::SkillParagon => "\"Skill Paragon\""@,
        CreatureRole::Skirmisher => "\"Skirmisher\""@,
        CreatureRole::Sniper => "\"Sniper\""@,
        CreatureRole::Soldier => "\"Soldier\""@,
        CreatureRole::SpellCaster => "\"Spellcaster\""@,
    }
}

impl CreatureRole {
    pub fn to_string(&self) -> (r: String)
        ensures
            r@ == creature_role_text(*self),
    {
        match self {
            CreatureRole::Brute => String::from_str("\"Brute\""),
            CreatureRole::MagicalStriker => String::from_str("\"Magical Striker\""),
            CreatureRole::SkillParagon => String::from_str("\"Skill Paragon\""),
            CreatureRole::Skirmisher => String::from_str("\"Skirmisher\""),
            CreatureRole::Sniper => String::from_str("\"Sniper\""),
            CreatureRole::Soldier => String::from_str("\"Soldier\""),
            CreatureRole::SpellCaster => String::from_str("\"Spellcaster\""),
        }
    }
}

} // verus!
