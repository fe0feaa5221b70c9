//! The creature enumerations of the flat creature model, parsed by exact names.
use crate::text::{to_uppercase, unicode_upper};
use vstd::prelude::*;

verus! {

/// The legacy nine-point alignment, plus "no alignment" and "any alignment".
#[derive(Clone, Copy, Debug, PartialEq, Eq, Structural, Hash, PartialOrd, Ord)]
pub enum AlignmentEnum {
    Ce,
    Cn,
    Cg,
    Ne,
    N,
    Ng,
    Le,
    Ln,
    Lg,
    No,
    Any,
}

/// How rare a creature is.
#[derive(Clone, Copy, Debug, PartialEq, Eq, Structural, Hash, PartialOrd, Ord)]
pub enum RarityEnum {
    Common,
    Uncommon,
    Rare,
    Unique,
}

/// A creature's size.
#[derive(Clone, Copy, Debug, PartialEq, Eq, Structural, Hash, PartialOrd, Ord)]
pub enum SizeEnum {
    Tiny,
    Small,
    Medium,
    Large,
    Huge,
    Gargantuan,
}

/// Whether a creature is a monster or a non-player character.
#[derive(Clone, Copy, Debug, PartialEq, Eq, Structural, Hash, PartialOrd, Ord)]
pub enum CreatureTypeEnum {
    Monster,
    Npc,
}

/// A creature as written, or its weak or elite adjustment.
#[derive(Clone, Copy, Debug, PartialEq, Eq, Structural, Hash, PartialOrd, Ord)]
pub enum CreatureVariant {
    Weak,
    Elite,
    Base,
}

impl Default for AlignmentEnum {
    fn default() -> (r: Self)
        ensures
            r == AlignmentEnum::No,
    {
        AlignmentEnum::No
    }
}

impl Default for RarityEnum {
    fn default() -> (r: Self)
        ensures
            r == RarityEnum::Common,
    {
        RarityEnum::Common
    }
}

impl Default for SizeEnum {
    fn default() -> (r: Self)
        ensures
            r == SizeEnum::Medium,
    {
        SizeEnum::Medium
    }
}

impl Default for CreatureTypeEnum {
    fn default() -> (r: Self)
        ensures
            r == CreatureTypeEnum::Monster,
    {
        CreatureTypeEnum::Monster
    }
}

impl Default for CreatureVariant {
    fn default() -> (r: Self)
        ensures
            r == CreatureVariant::Base,
    {
        CreatureVariant::Base
    }
}

/// The alignment named by an upper-case abbreviation; anything else is `No`.
pub open spec fn alignment_of_upper(u: Seq<char>) -> AlignmentEnum {
    if u == "CE"@ {
        AlignmentEnum::Ce
    } else if u == "CN"@ {
        AlignmentEnum::Cn
    } else if u == "CG"@ {
        AlignmentEnum::Cg
    } else if u == "NE"@ {
        AlignmentEnum::Ne
    } else if u == "N"@ {
        AlignmentEnum::N
    } else if u == "NG"@ {
        AlignmentEnum::Ng
    } else if u == "LE"@ {
        AlignmentEnum::Le
    } else if u == "LN"@ {
        AlignmentEnum::Ln
    } else if u == "LG"@ {
        AlignmentEnum::Lg
    } else if u == "ANY"@ {
        AlignmentEnum::Any
    } else {
        AlignmentEnum::No
    }
}

impl AlignmentEnum {
    /// Parses an alignment abbreviation in any letter case; it never fails, as an
    /// unknown text means no alignment.
    pub fn from_str(s: &str) -> (r: Result<AlignmentEnum, ()>)
        ensures
            r == Ok::<AlignmentEnum, ()>(alignment_of_upper(unicode_upper(s@))),
    {
        let u = to_uppercase(s);
        let a = if u.eq(&String::from_str("CE")) {
            AlignmentEnum::Ce
        } else if u.eq(&String::from_str("CN")) {
            AlignmentEnum::Cn
        } else if u.eq(&String::from_str("CG")) {
            AlignmentEnum::Cg
        } else if u.eq(&String::from_str("NE")) {
            AlignmentEnum::Ne
        } else if u.eq(&String::from_str("N")) {
            AlignmentEnum::N
        } else if u.eq(&String::from_str("NG")) {
            AlignmentEnum::Ng
        } else if u.eq(&String::from_str("LE")) {
            AlignmentEnum::Le
        } else if u.eq(&String::from_str("LN")) {
            AlignmentEnum::Ln
        } else if u.eq(&String::from_str("LG")) {
            AlignmentEnum::Lg
        } else if u.eq(&String::from_str("ANY")) {
            AlignmentEnum::Any
        } else {
            AlignmentEnum::No
        };
        Ok(a)
    }
}

/// The rarity of a name written all in upper case or all in lower case.
pub open spec fn rarity_of_exact(s: Seq<char>) -> Option<RarityEnum> {
    if s == "COMMON"@ || s == "common"@ {
        Some(RarityEnum::Common)
    } else if s == "UNCOMMON"@ || s == "uncommon"@ {
        Some(RarityEnum::Uncommon)
    } else if s == "RARE"@ || s == "rare"@ {
        Some(RarityEnum::Rare)
    } else if s == "UNIQUE"@ || s == "unique"@ {
        Some(RarityEnum::Unique)
    } else {
        None
    }
}

fn str_is(s: &str, lit: &str) -> (r: bool)
    ensures
        r == (s@ == lit@),
{
    let a = String::from_str(s);
    a.eq(&String::from_str(lit))
}

impl RarityEnum {
    /// Parses a rarity name written all in upper case or all in lower case; anything
    /// else is an error.
    pub fn from_str(s: &str) -> (r: Result<RarityEnum, ()>)
        ensures
            r == (match rarity_of_exact(s@) {
                Some(v) => Ok::<RarityEnum, ()>(v),
                None => Err(()),
            }),
    {
        if str_is(s, "COMMON") || str_is(s, "common") {
            Ok(RarityEnum::Common)
        } else if str_is(s, "UNCOMMON") || str_is(s, "uncommon") {
            Ok(RarityEnum::Uncommon)
        } else if str_is(s, "RARE") || str_is(s, "rare") {
            Ok(RarityEnum::Rare)
        } else if str_is(s, "UNIQUE") || str_is(s, "unique") {
            Ok(RarityEnum::Unique)
        } else {
            Err(())
        }
    }
}

/// The size of a name written all in upper case or all in lower case.
pub open spec fn size_of_exact(s: Seq<char>) -> Option<SizeEnum> {
    if s == "TINY"@ || s == "tiny"@ {
        Some(SizeEnum::Tiny)
    } else if s == "SMALL"@ || s == "small"@ {
        Some(SizeEnum::Small)
    } else if s == "MEDIUM"@ || s == "medium"@ {
        Some(SizeEnum::Medium)
    } else if s == "LARGE"@ || s == "large"@ {
        Some(SizeEnum::Large)
    } else if s == "HUGE"@ || s == "huge"@ {
        Some(SizeEnum::Huge)
    } else if s == "GARGANTUAN"@ || s == "gargantuan"@ {
        Some(SizeEnum::Gargantuan)
    } else {
        None
    }
}

impl SizeEnum {
    /// Parses a size name written all in upper case or all in lower case; anything else
    /// is an error.
    pub fn from_str(s: &str) -> (r: Result<SizeEnum, ()>)
        ensures
            r == (match size_of_exact(s@) {
                Some(v) => Ok::<SizeEnum, ()>(v),
                None => Err(()),
            }),
    {
        if str_is(s, "TINY") || str_is(s, "tiny") {
            Ok(SizeEnum::Tiny)
        } else if str_is(s, "SMALL") || str_is(s, "small") {
            Ok(SizeEnum::Small)
        } else if str_is(s, "MEDIUM") || str_is(s, "medium") {
            Ok(SizeEnum::Medium)
        } else if str_is(s, "LARGE") || str_is(s, "large") {
            Ok(SizeEnum::Large)
        } else if str_is(s, "HUGE") || str_is(s, "huge") {
            Ok(SizeEnum::Huge)
        } else if str_is(s, "GARGANTUAN") || str_is(s, "gargantuan") {
            Ok(SizeEnum::Gargantuan)
        } else {
            Err(())
        }
    }
}

/// `NPC`, `Npc` and `npc` name a non-player character; every other text a monster.
pub open spec fn creature_type_of_exact(s: Seq<char>) -> CreatureTypeEnum {
    if s == "NPC"@ || s == "Npc"@ || s == "npc"@ {
        CreatureTypeEnum::Npc
    } else {
        CreatureTypeEnum::Monster
    }
}

impl CreatureTypeEnum {
    /// Parses a creature type; it never fails, as an unknown text means a monster.
    pub fn from_str(s: &str) -> (r: Result<CreatureTypeEnum, ()>)
        ensures
            r == Ok::<CreatureTypeEnum, ()>(creature_type_of_exact(s@)),
    {
        if str_is(s, "Monster") {
            proof {
                reveal_strlit("Monster");
                reveal_strlit("NPC");
                reveal_strlit("Npc");
                reveal_strlit("npc");
                assert(s@ == "Monster"@);
                assert(s@.len() == 7);
                assert("NPC"@.len() == 3);
            }
            Ok(CreatureTypeEnum::Monster)
        } else if str_is(s, "NPC") || str_is(s, "Npc") || str_is(s, "npc") {
            Ok(CreatureTypeEnum::Npc)
        } else {
            Ok(CreatureTypeEnum::Monster)
        }
    }
}

/// The level change of a variant: one down, one up, or none.
pub open spec fn level_delta(v: CreatureVariant) -> int {
    match v {
        CreatureVariant::Weak => -1,
        CreatureVariant::Elite => 1,
        CreatureVariant::Base => 0,
    }
}

/// The level change of a variant: one down for weak, one up for elite.
pub fn creature_variant_to_level_delta(creature_variant: CreatureVariant) -> (r: i8)
    ensures
        r == level_delta(creature_variant),
{
    match creature_variant {
        CreatureVariant::Weak => -1,
        CreatureVariant::Elite => 1,
        CreatureVariant::Base => 0,
    }
}

/// Where a variant's creatures are kept in the cache: base, weak, elite.
pub open spec fn cache_index(v: CreatureVariant) -> int {
    match v {
        CreatureVariant::Base => 0,
        CreatureVariant::Weak => 1,
        CreatureVariant::Elite => 2,
    }
}

/// The slot of the cache that holds a variant's creatures.
pub fn creature_variant_to_cache_index(creature_variant: CreatureVariant) -> (r: i32)
    ensures
        r == cache_index(creature_variant),
{
    match creature_variant {
        CreatureVariant::Base => 0,
        CreatureVariant::Weak => 1,
        CreatureVariant::Elite => 2,
    }
}

/// The path segment of the archive's pages for a creature type.
pub open spec fn type_url_text(t: CreatureTypeEnum) -> Seq<char> {
    match t {
        CreatureTypeEnum::Monster => "Monsters"@,
        CreatureTypeEnum::Npc => "NPCs"@,
    }
}

/// The archive's path segment for a creature type.
pub fn creature_type_to_url_string(creature_type: &CreatureTypeEnum) -> (r: &'static str)
    ensures
        r@ == type_url_text(*creature_type),
{
    match creature_type {
        CreatureTypeEnum::Monster => "Monsters",
        CreatureTypeEnum::Npc => "NPCs",
    }
}

/// Each variant has its own slot in the cache, and the base creature's is the first.
pub proof fn lemma_cache_slots_distinct(a: CreatureVariant, b: CreatureVariant)
    ensures
        cache_index(a) == cache_index(b) <==> a == b,
        cache_index(CreatureVariant::Base) == 0,
        0 <= cache_index(a) <= 2,
{
}

} // verus!
