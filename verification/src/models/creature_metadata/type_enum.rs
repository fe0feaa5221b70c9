use crate::text::{all_ascii, ascii_upper, to_uppercase, unicode_upper};
use vstd::prelude::*;

verus! {

/// Whether a creature is a monster or a non-player character.
#[derive(Clone, Copy, Debug, PartialEq, Eq, Structural, Hash, PartialOrd, Ord)]
pub enum CreatureTypeEnum {
    Monster,
    Npc,
}

impl Default for CreatureTypeEnum {
    fn default() -> (r: Self)
        ensures
            r == CreatureTypeEnum::Monster,
    {
        CreatureTypeEnum::Monster
    }
}

/// The display name: `Monster` or `NPC`.
pub open spec fn creature_type_text(t: CreatureTypeEnum) -> Seq<char> {
    match t {
        CreatureTypeEnum::Monster => "Monster"@,
        CreatureTypeEnum::Npc => "NPC"@,
    }
}

/// The creature type named by an upper-case text: `NPC` gives `Npc`, anything else `Monster`.
pub open spec fn creature_type_from_upper(u: Seq<char>) -> CreatureTypeEnum {
    if u == "NPC"@ {
        CreatureTypeEnum::Npc
    } else {
        CreatureTypeEnum::Monster
    }
}

/// The path segment of the archive's pages for a creature type.
pub open spec fn creature_type_url_text(t: CreatureTypeEnum) -> Seq<char> {
    match t {
        CreatureTypeEnum::Monster => "Monsters"@,
        CreatureTypeEnum::Npc => "NPCs"@,
    }
}

impl CreatureTypeEnum {
    pub fn to_string(&self) -> (r: String)
        ensures
            r@ == creature_type_text(*self),
    {
        match self {
            CreatureTypeEnum::Monster => String::from_str("Monster"),
            CreatureTypeEnum::Npc => String::from_str("NPC"),
        }
    }

    /// Parses a creature type in any letter case; `MONSTER`, `NPC`, and anything
    /// unknown (which counts as a monster) never fail.
    pub fn from_str(s: &str) -> (r: Result<CreatureTypeEnum, ()>)
        ensures
            r == Ok::<CreatureTypeEnum, ()>(creature_type_from_upper(unicode_upper(s@))),
            all_ascii(s@) ==> r == Ok::<CreatureTypeEnum, ()>(creature_type_from_upper(ascii_upper(s@))),
    {
        let u = to_uppercase(s);
        if u.eq(&String::from_str("MONSTER")) {
            proof {
                reveal_strlit("MONSTER");
                reveal_strlit("NPC");
                assert("MONSTER"@ != "NPC"@) by {
                    assert("MONSTER"@[0] != "NPC"@[0]);
                }
            }
            Ok(CreatureTypeEnum::Monster)
        } else if u.eq(&String::from_str("NPC")) {
            Ok(CreatureTypeEnum::Npc)
        } else {
            Ok(CreatureTypeEnum::Monster)
        }
    }

    /// The creature type of an optional text; none counts as a monster.
    pub fn from_opt_string(value: Option<String>) -> (r: CreatureTypeEnum)
        ensures
            r == (match value {
                Some(s) => creature_type_from_upper(unicode_upper(s@)),
                None => creature_type_from_upper(unicode_upper(Seq::<char>::empty())),
            }),
    {
        let s = match value {
            Some(s) => s,
            None => String::new(),
        };
        match CreatureTypeEnum::from_str(s.as_str()) {
            Ok(t) => t,
            Err(_) => CreatureTypeEnum::Monster,
        }
    }

    /// The path segment of the archive's pages: `Monsters` or `NPCs`.
    pub fn to_url_string(&self) -> (r: &'static str)
        ensures
            r@ == creature_type_url_text(*self),
    {
        match self {
            CreatureTypeEnum::Monster => "Monsters",
            CreatureTypeEnum::Npc => "NPCs",
        }
    }
}

/// Parsing the display name of a creature type gives the type back.
pub proof fn lemma_creature_type_text_parses_back(x: CreatureTypeEnum)
    ensures
        all_ascii(creature_type_text(x)),
        creature_type_from_upper(ascii_upper(creature_type_text(x))) == x,
{
    reveal_strlit("MONSTER");
    reveal_strlit("Monster");
    reveal_strlit("NPC");
    match x {
        CreatureTypeEnum::Monster => {
            assert(ascii_upper("Monster"@) =~= "MONSTER"@);
            assert("MONSTER"@ != "NPC"@);
        },
        CreatureTypeEnum::Npc => {
            assert(ascii_upper("NPC"@) =~= "NPC"@);
        },
    }
}

} // verus!
