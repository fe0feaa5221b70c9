use crate::text::{all_ascii, ascii_upper, to_uppercase, unicode_upper, views};
use vstd::prelude::*;

verus! {

/// The legacy nine-point alignment, plus "no alignment" and "any alignment".
#[derive(Clone, Copy, Debug, PartialEq, Eq, Structural, Hash, PartialOrd, Ord)]
pub enum AlignmentEnum {
    Ce,
    Cn,
    Cg,
    Ne,
    N,
    Ng,
    Le,
    Ln,
    Lg,
    No,
    Any,
}

impl Default for AlignmentEnum {
    fn default() -> (r: Self)
        ensures
            r == AlignmentEnum::No,
    {
        AlignmentEnum::No
    }
}

/// The traits that carry an alignment, in upper case.
pub const ALIGNMENT_TRAITS: [&'static str; 4] = ["GOOD", "EVIL", "CHAOTIC", "LAWFUL"];

/// The display name of an alignment.
pub open spec fn alignment_text(a: AlignmentEnum) -> Seq<char> {
    match a {
        AlignmentEnum::Ce => "CE"@,
        AlignmentEnum::Cn => "CN"@,
        AlignmentEnum::Cg => "CG"@,
        AlignmentEnum::Ne => "NE"@,
        AlignmentEnum::N => "N"@,
        AlignmentEnum::Ng => "NG"@,
        AlignmentEnum::Le => "LE"@,
        AlignmentEnum::Ln => "LN"@,
        AlignmentEnum::Lg => "LG"@,
        AlignmentEnum::No => "No Alignment"@,
        AlignmentEnum::Any => "Any"@,
    }
}

/// The alignment named by an upper-case abbreviation; anything else is `No`.
pub open spec fn alignment_from_upper(u: Seq<char>) -> AlignmentEnum {
    if u == "CE"@ {
        AlignmentEnum::Ce
    } else if u == "CN"@ {
        AlignmentEnum::Cn
    } else if u == "CG"@ {
        AlignmentEnum::Cg
    } else if u == "NE"@ {
        AlignmentEnum::Ne
    } else if u == "N"@ {
        AlignmentEnum::N
    } else if u == "NG"@ {
        AlignmentEnum::Ng
    } else if u == "LE"@ {
        AlignmentEnum::Le
    } else if u == "LN"@ {
        AlignmentEnum::Ln
    } else if u == "LG"@ {
        AlignmentEnum::Lg
    } else if u == "ANY"@ {
        AlignmentEnum::Any
    } else {
        AlignmentEnum::No
    }
}

/// Some trait, once in upper case, is `word`.
pub open spec fn has_upper_trait(traits: Seq<Seq<char>>, word: Seq<char>) -> bool {
    exists|i: int| 0 <= i < traits.len() && unicode_upper(#[trigger] traits[i]) == word
}

/// The alignment that the good/evil/chaotic/lawful traits give.
pub open spec fn alignment_from_flags(good: bool, evil: bool, chaotic: bool, lawful: bool) -> AlignmentEnum {
    if good {
        if chaotic { AlignmentEnum::Cg } else if lawful { AlignmentEnum::Lg } else { AlignmentEnum::Ng }
    } else if evil {
        if chaotic { AlignmentEnum::Ce } else if lawful { AlignmentEnum::Le } else { AlignmentEnum::Ne }
    } else if chaotic {
        AlignmentEnum::Cn
    } else if lawful {
        AlignmentEnum::Ln
    } else {
        AlignmentEnum::N
    }
}

/// The alignment of a creature with the given traits; remastered creatures have none.
pub open spec fn alignment_from_traits(traits: Seq<Seq<char>>, remaster: bool) -> AlignmentEnum {
    if remaster {
        AlignmentEnum::No
    } else {
        alignment_from_flags(
            has_upper_trait(traits, "GOOD"@),
            has_upper_trait(traits, "EVIL"@),
            has_upper_trait(traits, "CHAOTIC"@),
            has_upper_trait(traits, "LAWFUL"@),
        )
    }
}

fn has_trait_in_upper_case(uppers: &Vec<String>, word: &str) -> (r: bool)
    ensures
        r == exists|i: int| 0 <= i < uppers@.len() && (#[trigger] uppers@[i])@ == word@,
{
    let target = String::from_str(word);
    let mut i: usize = 0;
    while i < uppers.len()
        invariant
            i <= uppers@.len(),
            target@ == word@,
            forall|k: int| 0 <= k < i ==> (#[trigger] uppers@[k])@ != word@,
        decreases uppers@.len() - i,
    {
        if uppers[i].eq(&target) {
            return true;
        }
        i = i + 1;
    }
    false
}

impl AlignmentEnum {
    pub fn to_string(&self) -> (r: String)
        ensures
            r@ == alignment_text(*self),
    {
        match self {
            AlignmentEnum::Ce => String::from_str("CE"),
            AlignmentEnum::Cn => String::from_str("CN"),
            AlignmentEnum::Cg => String::from_str("CG"),
            AlignmentEnum::Ne => String::from_str("NE"),
            AlignmentEnum::N => String::from_str("N"),
            AlignmentEnum::Ng => String::from_str("NG"),
            AlignmentEnum::Le => String::from_str("LE"),
            AlignmentEnum::Ln => String::from_str("LN"),
            AlignmentEnum::Lg => String::from_str("LG"),
            AlignmentEnum::No => String::from_str("No Alignment"),
            AlignmentEnum::Any => String::from_str("Any"),
        }
    }

    /// Parses an alignment abbreviation in any letter case; anything unknown is `No`.
    /// It never fails.
    pub fn from_str(s: &str) -> (r: Result<AlignmentEnum, ()>)
        ensures
            r == Ok::<AlignmentEnum, ()>(alignment_from_upper(unicode_upper(s@))),
            all_ascii(s@) ==> r == Ok::<AlignmentEnum, ()>(alignment_from_upper(ascii_upper(s@))),
    {
        let u = to_uppercase(s);
        let r = if u.eq(&String::from_str("CE")) {
            AlignmentEnum::Ce
        } else if u.eq(&String::from_str("CN")) {
            AlignmentEnum::Cn
        } else if u.eq(&String::from_str("CG")) {
            AlignmentEnum::Cg
        } else if u.eq(&String::from_str("NE")) {
            AlignmentEnum::Ne
        } else if u.eq(&String::from_str("N")) {
            AlignmentEnum::N
        } else if u.eq(&String::from_str("NG")) {
            AlignmentEnum::Ng
        } else if u.eq(&String::from_str("LE")) {
            AlignmentEnum::Le
        } else if u.eq(&String::from_str("LN")) {
            AlignmentEnum::Ln
        } else if u.eq(&String::from_str("LG")) {
            AlignmentEnum::Lg
        } else if u.eq(&String::from_str("ANY")) {
            AlignmentEnum::Any
        } else {
            AlignmentEnum::No
        };
        Ok(r)
    }

    /// Parses an alignment abbreviation; see `from_str`.
    pub fn from_string(value: &String) -> (r: AlignmentEnum)
        ensures
            r == alignment_from_upper(unicode_upper(value@)),
    {
        match AlignmentEnum::from_str(value.as_str()) {
            Ok(a) => a,
            Err(_) => AlignmentEnum::No,
        }
    }

    /// The alignment given by a creature's traits (good/evil, chaotic/lawful, in any
    /// letter case). A remastered creature has no alignment.
    pub fn from_traits(traits: &Vec<String>, remaster: bool) -> (r: AlignmentEnum)
        ensures
            r == alignment_from_traits(views(traits@), remaster),
    {
        if remaster {
            return AlignmentEnum::No;
        }
        let mut uppers: Vec<String> = Vec::new();
        let mut i: usize = 0;
        while i < traits.len()
            invariant
                i <= traits@.len(),
                uppers@.len() == i,
                forall|k: int| 0 <= k < i ==> (#[trigger] uppers@[k])@ == unicode_upper(traits@[k]@),
            decreases traits@.len() - i,
        {
            let u = to_uppercase(traits[i].as_str());
            uppers.push(u);
            i = i + 1;
        }
        let ghost tv = views(traits@);
        let is_good = has_trait_in_upper_case(&uppers, "GOOD");
        let is_evil = has_trait_in_upper_case(&uppers, "EVIL");
        let is_chaos = has_trait_in_upper_case(&uppers, "CHAOTIC");
        let is_lawful = has_trait_in_upper_case(&uppers, "LAWFUL");
        proof {
            assert forall|w: Seq<char>| has_upper_trait(tv, w) == (exists|i: int| 0 <= i < uppers@.len() && (#[trigger] uppers@[i])@ == w) by {
                if has_upper_trait(tv, w) {
                    let i = choose|i: int| 0 <= i < tv.len() && unicode_upper(#[trigger] tv[i]) == w;
                    assert(uppers@[i]@ == w);
                }
                if exists|i: int| 0 <= i < uppers@.len() && (#[trigger] uppers@[i])@ == w {
                    let i = choose|i: int| 0 <= i < uppers@.len() && (#[trigger] uppers@[i])@ == w;
                    assert(unicode_upper(tv[i]) == w);
                }
            }
        }
        if is_good {
            if is_chaos {
                return AlignmentEnum::Cg;
            }
            if is_lawful {
                return AlignmentEnum::Lg;
            }
            return AlignmentEnum::Ng;
        }
        if is_evil {
            if is_chaos {
                return AlignmentEnum::Ce;
            }
            if is_lawful {
                return AlignmentEnum::Le;
            }
            return AlignmentEnum::Ne;
        }
        if is_chaos {
            return AlignmentEnum::Cn;
        }
        if is_lawful {
            return AlignmentEnum::Ln;
        }
        AlignmentEnum::N
    }
}

/// Parsing the display name of an alignment gives the alignment back.
pub proof fn lemma_alignment_text_parses_back(x: AlignmentEnum)
    ensures
        all_ascii(alignment_text(x)),
        alignment_from_upper(ascii_upper(alignment_text(x))) == x,
{
    reveal_strlit("NO ALIGNMENT");
    reveal_strlit("CE");
    reveal_strlit("CN");
    reveal_strlit("CG");
    reveal_strlit("NE");
    reveal_strlit("N");
    reveal_strlit("NG");
    reveal_strlit("LE");
    reveal_strlit("LN");
    reveal_strlit("LG");
    reveal_strlit("No Alignment");
    reveal_strlit("Any");
    reveal_strlit("ANY");
    match x {
        AlignmentEnum::Ce => {
            assert(ascii_upper("CE"@) =~= "CE"@);
        },
        AlignmentEnum::Cn => {
            assert(ascii_upper("CN"@) =~= "CN"@);
            assert("CN"@[1] != "CE"@[1]);
        },
        AlignmentEnum::Cg => {
            assert(ascii_upper("CG"@) =~= "CG"@);
            assert("CG"@[1] != "CE"@[1]);
            assert("CG"@[1] != "CN"@[1]);
        },
        AlignmentEnum::Ne => {
            assert(ascii_upper("NE"@) =~= "NE"@);
            assert("NE"@[0] != "CE"@[0]);
            assert("NE"@[0] != "CN"@[0]);
            assert("NE"@[0] != "CG"@[0]);
        },
        AlignmentEnum::N => {
            assert(ascii_upper("N"@) =~= "N"@);
            assert("N"@ != "CE"@);
            assert("N"@ != "CN"@);
            assert("N"@ != "CG"@);
            assert("N"@ != "NE"@);
        },
        AlignmentEnum::Ng => {
            assert(ascii_upper("NG"@) =~= "NG"@);
            assert("NG"@[0] != "CE"@[0]);
            assert("NG"@[0] != "CN"@[0]);
            assert("NG"@[0] != "CG"@[0]);
            assert("NG"@[1] != "NE"@[1]);
            assert("NG"@ != "N"@);
        },
        AlignmentEnum::Le => {
            assert(ascii_upper("LE"@) =~= "LE"@);
            assert("LE"@[0] != "CE"@[0]);
            assert("LE"@[0] != "CN"@[0]);
            assert("LE"@[0] != "CG"@[0]);
            assert("LE"@[0] != "NE"@[0]);
            assert("LE"@ != "N"@);
            assert("LE"@[0] != "NG"@[0]);
        },
        AlignmentEnum::Ln => {
            assert(ascii_upper("LN"@) =~= "LN"@);
            assert("LN"@[0] != "CE"@[0]);
            assert("LN"@[0] != "CN"@[0]);
            assert("LN"@[0] != "CG"@[0]);
            assert("LN"@[0] != "NE"@[0]);
            assert("LN"@ != "N"@);
            assert("LN"@[0] != "NG"@[0]);
            assert("LN"@[1] != "LE"@[1]);
        },
        AlignmentEnum::Lg => {
            assert(ascii_upper("LG"@) =~= "LG"@);
            assert("LG"@[0] != "CE"@[0]);
            assert("LG"@[0] != "CN"@[0]);
            assert("LG"@[0] != "CG"@[0]);
            assert("LG"@[0] != "NE"@[0]);
            assert("LG"@ != "N"@);
            assert("LG"@[0] != "NG"@[0]);
            assert("LG"@[1] != "LE"@[1]);
            assert("LG"@[1] != "LN"@[1]);
        },
        AlignmentEnum::No => {
            assert(ascii_upper("No Alignment"@) =~= "NO ALIGNMENT"@);
            assert("NO ALIGNMENT"@ != "CE"@);
            assert("NO ALIGNMENT"@ != "CN"@);
            assert("NO ALIGNMENT"@ != "CG"@);
            assert("NO ALIGNMENT"@ != "NE"@);
            assert("NO ALIGNMENT"@ != "N"@);
            assert("NO ALIGNMENT"@ != "NG"@);
            assert("NO ALIGNMENT"@ != "LE"@);
            assert("NO ALIGNMENT"@ != "LN"@);
            assert("NO ALIGNMENT"@ != "LG"@);
            assert("NO ALIGNMENT"@ != "ANY"@);
        },
        AlignmentEnum::Any => {
            assert(ascii_upper("Any"@) =~= "ANY"@);
            assert("ANY"@ != "CE"@);
            assert("ANY"@ != "CN"@);
            assert("ANY"@ != "CG"@);
            assert("ANY"@ != "NE"@);
            assert("ANY"@ != "N"@);
            assert("ANY"@ != "NG"@);
            assert("ANY"@ != "LE"@);
            assert("ANY"@ != "LN"@);
            assert("ANY"@ != "LG"@);
        },
    }
}

/// A trait that carries an alignment: good, evil, chaotic or lawful, in any letter case.
pub open spec fn is_alignment_trait(t: Seq<char>) -> bool {
    let u = unicode_upper(t);
    u == "GOOD"@ || u == "EVIL"@ || u == "CHAOTIC"@ || u == "LAWFUL"@
}

/// The traits that carry no alignment, in order.
pub open spec fn non_alignment_traits(traits: Seq<Seq<char>>) -> Seq<Seq<char>>
    decreases traits.len(),
{
    if traits.len() == 0 {
        Seq::empty()
    } else {
        let rest = non_alignment_traits(traits.drop_last());
        if is_alignment_trait(traits.last()) { rest } else { rest.push(traits.last()) }
    }
}

/// The traits without those that carry an alignment, in order.
pub fn without_alignment_traits(traits: &Vec<String>) -> (r: Vec<String>)
    ensures
        views(r@) == non_alignment_traits(views(traits@)),
{
    let mut out: Vec<String> = Vec::new();
    let mut i: usize = 0;
    while i < traits.len()
        invariant
            i <= traits@.len(),
            views(out@) == non_alignment_traits(views(traits@.take(i as int))),
        decreases traits@.len() - i,
    {
        let u = to_uppercase(traits[i].as_str());
        let carries = u.eq(&String::from_str("GOOD")) || u.eq(&String::from_str("EVIL"))
            || u.eq(&String::from_str("CHAOTIC")) || u.eq(&String::from_str("LAWFUL"));
        proof {
            assert(views(traits@.take(i + 1)).drop_last() =~= views(traits@.take(i as int)));
            assert(views(traits@.take(i + 1)).last() == traits@[i as int]@);
        }
        if !carries {
            let ghost before = views(out@);
            out.push(traits[i].clone());
            assert(views(out@) =~= before.push(traits@[i as int]@));
        }
        i = i + 1;
    }
    assert(traits@.take(traits@.len() as int) =~= traits@);
    out
}

/// No trait left carries an alignment, and every trait without one is kept.
pub proof fn lemma_alignment_traits_removed(traits: Seq<Seq<char>>)
    ensures
        forall|i: int| 0 <= i < non_alignment_traits(traits).len() ==> !is_alignment_trait(
            #[trigger] non_alignment_traits(traits)[i],
        ),
        forall|t: Seq<char>| #[trigger] non_alignment_traits(traits).contains(t) <==> (traits.contains(t) && !is_alignment_trait(t)),
    decreases traits.len(),
{
    if traits.len() > 0 {
        let init = traits.drop_last();
        lemma_alignment_traits_removed(init);
        let rest = non_alignment_traits(init);
        assert forall|t: Seq<char>| #[trigger] non_alignment_traits(traits).contains(t) <==> (traits.contains(t) && !is_alignment_trait(t)) by {
            if traits.contains(t) && !is_alignment_trait(t) {
                let k = choose|k: int| 0 <= k < traits.len() && traits[k] == t;
                let full = non_alignment_traits(traits);
                if k < traits.len() - 1 {
                    assert(init[k] == t);
                    assert(init.contains(t));
                    assert(rest.contains(t));
                    let j = choose|j: int| 0 <= j < rest.len() && rest[j] == t;
                    assert(full[j] == t);
                } else {
                    assert(traits.last() == t);
                    assert(full == rest.push(t));
                    assert(full[rest.len() as int] == t);
                }
            }
            if non_alignment_traits(traits).contains(t) {
                let full = non_alignment_traits(traits);
                let k = choose|k: int| 0 <= k < full.len() && full[k] == t;
                if k < rest.len() {
                    assert(rest[k] == t);
                    assert(rest.contains(t));
                    let j = choose|j: int| 0 <= j < init.len() && init[j] == t;
                    assert(traits[j] == t);
                } else {
                    assert(!is_alignment_trait(traits.last()));
                    assert(full == rest.push(traits.last()));
                    assert(t == traits.last());
                    assert(traits[traits.len() - 1] == t);
                }
            }
        }
    }
}

/// The alignment leans lawful.
pub open spec fn is_lawful(a: AlignmentEnum) -> bool {
    a == AlignmentEnum::Lg || a == AlignmentEnum::Ln || a == AlignmentEnum::Le
}

/// The alignment leans chaotic.
pub open spec fn is_chaotic(a: AlignmentEnum) -> bool {
    a == AlignmentEnum::Cg || a == AlignmentEnum::Cn || a == AlignmentEnum::Ce
}

/// The alignment leans good.
pub open spec fn is_good(a: AlignmentEnum) -> bool {
    a == AlignmentEnum::Lg || a == AlignmentEnum::Ng || a == AlignmentEnum::Cg
}

/// The alignment leans evil.
pub open spec fn is_evil(a: AlignmentEnum) -> bool {
    a == AlignmentEnum::Le || a == AlignmentEnum::Ne || a == AlignmentEnum::Ce
}

/// The alignment is one of the nine points of the two axes.
pub open spec fn is_nine_point(a: AlignmentEnum) -> bool {
    a != AlignmentEnum::No && a != AlignmentEnum::Any
}

/// How the traits place a creature on the two axes. A remastered creature has no
/// alignment. Otherwise its alignment is one of the nine points, and:
/// - it is chaotic exactly when a trait says CHAOTIC, and lawful exactly when one says
///   LAWFUL and none says CHAOTIC (chaotic wins over lawful);
/// - it is good exactly when a trait says GOOD, and evil exactly when one says EVIL
///   and none says GOOD (good wins over evil).
/// The two axes fix which of the nine points it is.
pub proof fn lemma_alignment_axes_from_traits(traits: Seq<Seq<char>>, remaster: bool)
    ensures
        remaster ==> alignment_from_traits(traits, remaster) == AlignmentEnum::No,
        !remaster ==> {
            let a = alignment_from_traits(traits, remaster);
            let good = has_upper_trait(traits, "GOOD"@);
            let evil = has_upper_trait(traits, "EVIL"@);
            let chaotic = has_upper_trait(traits, "CHAOTIC"@);
            let lawful = has_upper_trait(traits, "LAWFUL"@);
            &&& is_nine_point(a)
            &&& is_chaotic(a) <==> chaotic
            &&& is_lawful(a) <==> (lawful && !chaotic)
            &&& is_good(a) <==> good
            &&& is_evil(a) <==> (evil && !good)
        },
{
}

/// A nine-point alignment is fixed by where it stands on the two axes.
pub proof fn lemma_axes_fix_alignment(a: AlignmentEnum, b: AlignmentEnum)
    requires
        is_nine_point(a),
        is_nine_point(b),
        is_lawful(a) == is_lawful(b),
        is_chaotic(a) == is_chaotic(b),
        is_good(a) == is_good(b),
        is_evil(a) == is_evil(b),
    ensures
        a == b,
{
}

} // verus!

