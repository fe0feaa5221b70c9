use crate::text::{all_ascii, ascii_upper, to_uppercase, unicode_upper};
use vstd::prelude::*;

verus! {

/// How rare a creature or item is.
#[derive(Clone, Copy, Debug, PartialEq, Eq, Structural, Hash, PartialOrd, Ord)]
pub enum RarityEnum {
    Common,
    Uncommon,
    Rare,
    Unique,
}

impl Default for RarityEnum {
    fn default() -> (r: Self)
        ensures
            r == RarityEnum::Common,
    {
        RarityEnum::Common
    }
}

/// The display name of a rarity.
pub open spec fn rarity_text(r: RarityEnum) -> Seq<char> {
    match r {
        RarityEnum::Common => "Common"@,
        RarityEnum::Uncommon => "Uncommon"@,
        RarityEnum::Rare => "Rare"@,
        RarityEnum::Unique => "Unique"@,
    }
}

/// The rarity named by an upper-case text, if any.
pub open spec fn rarity_from_upper(u: Seq<char>) -> Option<RarityEnum> {
    if u == "COMMON"@ {
        Some(RarityEnum::Common)
    } else if u == "UNCOMMON"@ {
        Some(RarityEnum::Uncommon)
    } else if u == "RARE"@ {
        Some(RarityEnum::Rare)
    } else if u == "UNIQUE"@ {
        Some(RarityEnum::Unique)
    } else {
        None
    }
}

impl RarityEnum {
    /// The display name: the variant's name.
    pub fn to_string(&self) -> (r: String)
        ensures
            r@ == rarity_text(*self),
    {
        match self {
            RarityEnum::Common => String::from_str("Common"),
            RarityEnum::Uncommon => String::from_str("Uncommon"),
            RarityEnum::Rare => String::from_str("Rare"),
            RarityEnum::Unique => String::from_str("Unique"),
        }
    }

    /// Parses a rarity name in any letter case; anything else is an error.
    pub fn from_str(s: &str) -> (r: Result<RarityEnum, ()>)
        ensures
            r == (match rarity_from_upper(unicode_upper(s@)) {
                Some(v) => Ok::<RarityEnum, ()>(v),
                None => Err(()),
            }),
            all_ascii(s@) ==> r == (match rarity_from_upper(ascii_upper(s@)) {
                Some(v) => Ok::<RarityEnum, ()>(v),
                None => Err(()),
            }),
    {
        let u = to_uppercase(s);
        if u.eq(&String::from_str("COMMON")) {
            Ok(RarityEnum::Common)
        } else if u.eq(&String::from_str("UNCOMMON")) {
            Ok(RarityEnum::Uncommon)
        } else if u.eq(&String::from_str("RARE")) {
            Ok(RarityEnum::Rare)
        } else if u.eq(&String::from_str("UNIQUE")) {
            Ok(RarityEnum::Unique)
        } else {
            Err(())
        }
    }

    /// Parses a rarity name; an unknown name gives the default, `Common`.
    pub fn from_string(value: String) -> (r: RarityEnum)
        ensures
            r == (match rarity_from_upper(unicode_upper(value@)) {
                Some(v) => v,
                None => RarityEnum::Common,
            }),
    {
        match RarityEnum::from_str(value.as_str()) {
            Ok(v) => v,
            Err(_) => RarityEnum::Common,
        }
    }
}

/// Parsing the display name of a rarity gives the rarity back.
pub proof fn lemma_rarity_text_parses_back(r: RarityEnum)
    ensures
        all_ascii(rarity_text(r)),
        rarity_from_upper(ascii_upper(rarity_text(r))) == Some(r),
{
    reveal_strlit("Common");
    reveal_strlit("Uncommon");
    reveal_strlit("Rare");
    reveal_strlit("Unique");
    reveal_strlit("COMMON");
    reveal_strlit("UNCOMMON");
    reveal_strlit("RARE");
    reveal_strlit("UNIQUE");
    match r {
        RarityEnum::Common => {
            assert(ascii_upper("Common"@) =~= "COMMON"@);
        },
        RarityEnum::Uncommon => {
            assert(ascii_upper("Uncommon"@) =~= "UNCOMMON"@);
            assert("UNCOMMON"@ != "COMMON"@);
        },
        RarityEnum::Rare => {
            assert(ascii_upper("Rare"@) =~= "RARE"@);
            assert("RARE"@ != "COMMON"@);
            assert("RARE"@ != "UNCOMMON"@);
        },
        RarityEnum::Unique => {
            assert(ascii_upper("Unique"@) =~= "UNIQUE"@);
            assert("UNIQUE"@[0] != "COMMON"@[0]);
            assert("UNIQUE"@ != "UNCOMMON"@);
            assert("UNIQUE"@ != "RARE"@);
        },
    }
}

} // verus!
