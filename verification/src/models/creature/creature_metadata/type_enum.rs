use crate::text::{all_ascii, ascii_upper, to_uppercase, unicode_upper};
use vstd::prelude::*;

verus! {

/// Whether a creature is a monster or a non-player character.
#[derive(Clone, Copy, Debug, PartialEq, Eq, Structural, Hash, PartialOrd, Ord)]
pub enum CreatureTypeEnum {
    Monster,
    Npc,
}

impl Default for CreatureTypeEnum {
    fn default() -> (r: Self)
        ensures
            r == CreatureTypeEnum::Monster,
    {
        CreatureTypeEnum::Monster
    }
}

/// The display name: `Monster` or `NPC`.
pub open spec fn type_text(t: CreatureTypeEnum) -> Seq<char> {
    match t {
        CreatureTypeEnum::Monster => "Monster"@,
        CreatureTypeEnum::Npc => "NPC"@,
    }
}

/// `NPC` (in upper case) names a non-player character; every other text a monster.
pub open spec fn type_from_upper(u: Seq<char>) -> CreatureTypeEnum {
    if u == "NPC"@ {
        CreatureTypeEnum::Npc
    } else {
        CreatureTypeEnum::Monster
    }
}

impl CreatureTypeEnum {
    pub fn to_string(&self) -> (r: String)
        ensures
            r@ == type_text(*self),
    {
        match self {
            CreatureTypeEnum::Monster => String::from_str("Monster"),
            CreatureTypeEnum::Npc => String::from_str("NPC"),
        }
    }

    /// Parses a creature type in any letter case; it never fails, as anything but
    /// `NPC` is a monster.
    pub fn from_str(s: &str) -> (r: Result<CreatureTypeEnum, ()>)
        ensures
            r == Ok::<CreatureTypeEnum, ()>(type_from_upper(unicode_upper(s@))),
            all_ascii(s@) ==> r == Ok::<CreatureTypeEnum, ()>(type_from_upper(ascii_upper(s@))),
    {
        let u = to_uppercase(s);
        if u.eq(&String::from_str("NPC")) {
            Ok(CreatureTypeEnum::Npc)
        } else {
            Ok(CreatureTypeEnum::Monster)
        }
    }

    /// The creature type that a text names.
    pub fn from_string(value: String) -> (r: CreatureTypeEnum)
        ensures
            r == type_from_upper(unicode_upper(value@)),
    {
        match CreatureTypeEnum::from_str(value.as_str()) {
            Ok(t) => t,
            Err(_) => CreatureTypeEnum::Monster,
        }
    }

    /// The creature type that an optional text names; none counts as the empty text.
    pub fn from_opt_string(value: Option<String>) -> (r: CreatureTypeEnum)
        ensures
            r == type_from_upper(unicode_upper(match value {
                Some(s) => s@,
                None => Seq::<char>::empty(),
            })),
    {
        let s = match value {
            Some(s) => s,
            None => String::new(),
        };
        CreatureTypeEnum::from_string(s)
    }
}

/// Parsing the display name of a creature type gives the type back.
pub proof fn lemma_type_text_parses_back(x: CreatureTypeEnum)
    ensures
        all_ascii(type_text(x)),
        type_from_upper(ascii_upper(type_text(x))) == x,
{
    reveal_strlit("MONSTER");
    reveal_strlit("Monster");
    reveal_strlit("NPC");
    match x {
        CreatureTypeEnum::Monster => {
            assert(ascii_upper("Monster"@) =~= "MONSTER"@);
            assert("MONSTER"@ != "NPC"@);
        },
        CreatureTypeEnum::Npc => {
            assert(ascii_upper("NPC"@) =~= "NPC"@);
        },
    }
}

} // verus!
