use crate::text::{all_ascii, ascii_upper, to_uppercase, unicode_upper};
use vstd::prelude::*;

verus! {

/// The size category of a creature or item.
#[derive(Clone, Copy, Debug, PartialEq, Eq, Structural, Hash, PartialOrd, Ord)]
pub enum SizeEnum {
    Tiny,
    Small,
    Medium,
    Large,
    Huge,
    Gargantuan,
}

impl Default for SizeEnum {
    fn default() -> (r: Self)
        ensures
            r == SizeEnum::Medium,
    {
        SizeEnum::Medium
    }
}

/// The display name of a size.
pub open spec fn size_text(s: SizeEnum) -> Seq<char> {
    match s {
        SizeEnum::Tiny => "Tiny"@,
        SizeEnum::Small => "Small"@,
        SizeEnum::Medium => "Medium"@,
        SizeEnum::Large => "Large"@,
        SizeEnum::Huge => "Huge"@,
        SizeEnum::Gargantuan => "Gargantuan"@,
    }
}

/// The size named by an upper-case text, if any.
pub open spec fn size_from_upper(u: Seq<char>) -> Option<SizeEnum> {
    if u == "TINY"@ {
        Some(SizeEnum::Tiny)
    } else if u == "SMALL"@ {
        Some(SizeEnum::Small)
    } else if u == "MEDIUM"@ {
        Some(SizeEnum::Medium)
    } else if u == "LARGE"@ {
        Some(SizeEnum::Large)
    } else if u == "HUGE"@ {
        Some(SizeEnum::Huge)
    } else if u == "GARGANTUAN"@ {
        Some(SizeEnum::Gargantuan)
    } else {
        None
    }
}

impl SizeEnum {
    /// The display name: the variant's name.
    pub fn to_string(&self) -> (r: String)
        ensures
            r@ == size_text(*self),
    {
        match self {
            SizeEnum::Tiny => String::from_str("Tiny"),
            SizeEnum::Small => String::from_str("Small"),
            SizeEnum::Medium => String::from_str("Medium"),
            SizeEnum::Large => String::from_str("Large"),
            SizeEnum::Huge => String::from_str("Huge"),
            SizeEnum::Gargantuan => String::from_str("Gargantuan"),
        }
    }

    /// Parses a size name in any letter case; anything else is an error.
    pub fn from_str(s: &str) -> (r: Result<SizeEnum, ()>)
        ensures
            r == (match size_from_upper(unicode_upper(s@)) {
                Some(v) => Ok::<SizeEnum, ()>(v),
                None => Err(()),
            }),
            all_ascii(s@) ==> r == (match size_from_upper(ascii_upper(s@)) {
                Some(v) => Ok::<SizeEnum, ()>(v),
                None => Err(()),
            }),
    {
        let u = to_uppercase(s);
        if u.eq(&String::from_str("TINY")) {
            Ok(SizeEnum::Tiny)
        } else if u.eq(&String::from_str("SMALL")) {
            Ok(SizeEnum::Small)
        } else if u.eq(&String::from_str("MEDIUM")) {
            Ok(SizeEnum::Medium)
        } else if u.eq(&String::from_str("LARGE")) {
            Ok(SizeEnum::Large)
        } else if u.eq(&String::from_str("HUGE")) {
            Ok(SizeEnum::Huge)
        } else if u.eq(&String::from_str("GARGANTUAN")) {
            Ok(SizeEnum::Gargantuan)
        } else {
            Err(())
        }
    }

    /// Parses a size name; an unknown name gives the default, `Medium`.
    pub fn from_string(value: String) -> (r: SizeEnum)
        ensures
            r == (match size_from_upper(unicode_upper(value@)) {
                Some(v) => v,
                None => SizeEnum::Medium,
            }),
    {
        match SizeEnum::from_str(value.as_str()) {
            Ok(v) => v,
            Err(_) => SizeEnum::Medium,
        }
    }
}

/// Parsing the display name of a size gives the size back.
pub proof fn lemma_size_text_parses_back(x: SizeEnum)
    ensures
        all_ascii(size_text(x)),
        size_from_upper(ascii_upper(size_text(x))) == Some(x),
{
    reveal_strlit("Tiny");
    reveal_strlit("Small");
    reveal_strlit("Medium");
    reveal_strlit("Large");
    reveal_strlit("Huge");
    reveal_strlit("Gargantuan");
    reveal_strlit("TINY");
    reveal_strlit("SMALL");
    reveal_strlit("MEDIUM");
    reveal_strlit("LARGE");
    reveal_strlit("HUGE");
    reveal_strlit("GARGANTUAN");
    match x {
        SizeEnum::Tiny => {
            assert(ascii_upper("Tiny"@) =~= "TINY"@);
        },
        SizeEnum::Small => {
            assert(ascii_upper("Small"@) =~= "SMALL"@);
            assert("SMALL"@ != "TINY"@);
        },
        SizeEnum::Medium => {
            assert(ascii_upper("Medium"@) =~= "MEDIUM"@);
            assert("MEDIUM"@ != "TINY"@);
            assert("MEDIUM"@ != "SMALL"@);
        },
        SizeEnum::Large => {
            assert(ascii_upper("Large"@) =~= "LARGE"@);
            assert("LARGE"@ != "TINY"@);
            assert("LARGE"@[0] != "SMALL"@[0]);
            assert("LARGE"@ != "MEDIUM"@);
        },
        SizeEnum::Huge => {
            assert(ascii_upper("Huge"@) =~= "HUGE"@);
            assert("HUGE"@[0] != "TINY"@[0]);
            assert("HUGE"@ != "SMALL"@);
            assert("HUGE"@ != "MEDIUM"@);
            assert("HUGE"@ != "LARGE"@);
        },
        SizeEnum::Gargantuan => {
            assert(ascii_upper("Gargantuan"@) =~= "GARGANTUAN"@);
            assert("GARGANTUAN"@ != "TINY"@);
            assert("GARGANTUAN"@ != "SMALL"@);
            assert("GARGANTUAN"@ != "MEDIUM"@);
            assert("GARGANTUAN"@ != "LARGE"@);
            assert("GARGANTUAN"@ != "HUGE"@);
        },
    }
}

} // verus!
