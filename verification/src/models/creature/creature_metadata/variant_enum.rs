use crate::services::url_calculator::{add_boolean_query, opt_view, spec_add_boolean_query};
use vstd::prelude::*;

verus! {

/// A creature as written (`Base`), or its weak or elite adjustment.
#[derive(Clone, Copy, Debug, PartialEq, Eq, Structural, Hash, PartialOrd, Ord)]
pub enum CreatureVariant {
    Weak,
    Elite,
    Base,
}

impl Default for CreatureVariant {
    fn default() -> (r: Self)
        ensures
            r == CreatureVariant::Base,
    {
        CreatureVariant::Base
    }
}

/// The display name: the variant's name.
pub open spec fn variant_text(v: CreatureVariant) -> Seq<char> {
    match v {
        CreatureVariant::Weak => "Weak"@,
        CreatureVariant::Elite => "Elite"@,
        CreatureVariant::Base => "Base"@,
    }
}

/// The adjustment to AC, attack modifiers, DCs, saving throws, Perception and skills.
pub open spec fn adjustment(v: CreatureVariant) -> int {
    match v {
        CreatureVariant::Weak => -2,
        CreatureVariant::Elite => 2,
        CreatureVariant::Base => 0,
    }
}

/// The adjustment to damage: twice the usual one for abilities of limited use.
pub open spec fn dmg_adjustment(v: CreatureVariant, limited_use: bool) -> int {
    if limited_use { 2 * adjustment(v) } else { adjustment(v) }
}

/// The level of the variant of a creature of the given level.
pub open spec fn variant_level(v: CreatureVariant, base_lvl: int) -> int {
    match v {
        CreatureVariant::Weak => if base_lvl == 1 { base_lvl - 2 } else { base_lvl - 1 },
        CreatureVariant::Elite => if base_lvl == -1 || base_lvl == 0 { base_lvl + 2 } else { base_lvl + 1 },
        CreatureVariant::Base => base_lvl,
    }
}

/// The hit points that an elite creature gains, by starting level.
pub open spec fn elite_hp_mod(lvl: int) -> int {
    if lvl >= 20 { 30 } else if lvl >= 5 { 20 } else if lvl >= 2 { 15 } else { 10 }
}

/// The hit points that a weak creature loses (as a negative number), by starting level.
pub open spec fn weak_hp_mod(lvl: int) -> int {
    if lvl >= 21 { -30 } else if lvl >= 6 { -20 } else if lvl >= 3 { -15 } else { -10 }
}

/// The hit point change of a variant, by starting level.
pub open spec fn hp_mod(v: CreatureVariant, lvl: int) -> int {
    match v {
        CreatureVariant::Weak => weak_hp_mod(lvl),
        CreatureVariant::Elite => elite_hp_mod(lvl),
        CreatureVariant::Base => 0,
    }
}

/// The hit points of the variant: never below 1.
pub open spec fn variant_hp(v: CreatureVariant, base_hp: int, lvl: int) -> int {
    let hp = base_hp + hp_mod(v, lvl);
    if hp > 1 { hp } else { 1 }
}

/// The archive link of the variant: the base link, or the link with `&Weak=true` /
/// `&Elite=true` appended.
pub open spec fn variant_archive_link(v: CreatureVariant, link: Option<Seq<char>>) -> Option<Seq<char>> {
    match v {
        CreatureVariant::Base => link,
        _ => spec_add_boolean_query(link, variant_text(v), true),
    }
}

/// One row of the table of hit point changes: the lowest starting level it applies
/// from, and the change.
struct HpStep {
    from_level: i64,
    hp_mod: i64,
}

/// The table of hit point changes of a variant, by increasing starting level.
spec fn hp_mod_table_spec(v: CreatureVariant) -> Seq<HpStep> {
    match v {
        CreatureVariant::Elite => seq![
            HpStep { from_level: 1, hp_mod: 10 },
            HpStep { from_level: 2, hp_mod: 15 },
            HpStep { from_level: 5, hp_mod: 20 },
            HpStep { from_level: 20, hp_mod: 30 },
        ],
        CreatureVariant::Weak => seq![
            HpStep { from_level: 1, hp_mod: -10i64 },
            HpStep { from_level: 3, hp_mod: -15i64 },
            HpStep { from_level: 6, hp_mod: -20i64 },
            HpStep { from_level: 21, hp_mod: -30i64 },
        ],
        CreatureVariant::Base => Seq::empty(),
    }
}

/// The change found after scanning the first `i` rows: the last row whose level is
/// not above `lvl`, else the first row, else none (0).
spec fn table_lookup(t: Seq<HpStep>, i: int, lvl: int) -> int
    decreases i,
{
    if i <= 0 {
        if t.len() > 0 { t[0].hp_mod as int } else { 0 }
    } else if t[i - 1].from_level <= lvl {
        t[i - 1].hp_mod as int
    } else {
        table_lookup(t, i - 1, lvl)
    }
}

proof fn lemma_table_lookup(v: CreatureVariant, lvl: int)
    ensures
        table_lookup(hp_mod_table_spec(v), hp_mod_table_spec(v).len() as int, lvl) == hp_mod(v, lvl),
{
    reveal_with_fuel(table_lookup, 5);
}

/// The hit points an elite creature gains, by starting level.
fn hp_increase_by_level() -> (t: Vec<HpStep>)
    ensures
        t@ == hp_mod_table_spec(CreatureVariant::Elite),
{
    vec![
        HpStep { from_level: 1, hp_mod: 10 },
        HpStep { from_level: 2, hp_mod: 15 },
        HpStep { from_level: 5, hp_mod: 20 },
        HpStep { from_level: 20, hp_mod: 30 },
    ]
}

/// The hit points a weak creature loses (as negative numbers), by starting level.
fn hp_decrease_by_level() -> (t: Vec<HpStep>)
    ensures
        t@ == hp_mod_table_spec(CreatureVariant::Weak),
{
    vec![
        HpStep { from_level: 1, hp_mod: -10 },
        HpStep { from_level: 3, hp_mod: -15 },
        HpStep { from_level: 6, hp_mod: -20 },
        HpStep { from_level: 21, hp_mod: -30 },
    ]
}

fn hp_mod_table(v: CreatureVariant) -> (t: Vec<HpStep>)
    ensures
        t@ == hp_mod_table_spec(v),
{
    match v {
        CreatureVariant::Elite => hp_increase_by_level(),
        CreatureVariant::Weak => hp_decrease_by_level(),
        CreatureVariant::Base => Vec::new(),
    }
}

impl CreatureVariant {
    pub fn to_string(&self) -> (r: String)
        ensures
            r@ == variant_text(*self),
    {
        match self {
            CreatureVariant::Weak => String::from_str("Weak"),
            CreatureVariant::Elite => String::from_str("Elite"),
            CreatureVariant::Base => String::from_str("Base"),
        }
    }

    /// -2 for weak, +2 for elite, 0 for the base creature.
    pub fn to_adjustment_modifier(self) -> (r: i64)
        ensures
            r == adjustment(self),
    {
        match self {
            CreatureVariant::Weak => -2,
            CreatureVariant::Elite => 2,
            CreatureVariant::Base => 0,
        }
    }

    /// The damage adjustment: the usual one, or twice it (±4) for abilities of limited
    /// use, such as a spellcaster's spells.
    pub fn to_dmg_adjustment_modifier(self, limited_use: bool) -> (r: i64)
        ensures
            r == dmg_adjustment(self, limited_use),
    {
        let m = self.to_adjustment_modifier();
        if limited_use { 2 * m } else { m }
    }

    /// Weak: the level drops by 1 (by 2 from level 1). Elite: it rises by 1 (by 2 from
    /// levels -1 and 0). Base: unchanged.
    pub fn get_variant_level(self, base_lvl: i64) -> (r: i64)
        requires
            i64::MIN <= variant_level(self, base_lvl as int) <= i64::MAX,
        ensures
            r == variant_level(self, base_lvl as int),
    {
        match self {
            CreatureVariant::Weak => {
                if base_lvl == 1 {
                    base_lvl - 2
                } else {
                    base_lvl - 1
                }
            },
            CreatureVariant::Elite => {
                if base_lvl == -1 || base_lvl == 0 {
                    base_lvl + 2
                } else {
                    base_lvl + 1
                }
            },
            CreatureVariant::Base => base_lvl,
        }
    }

    /// The hit points of the variant: the change for the highest table level not above
    /// the starting level (or for the lowest table level, below it), never under 1.
    pub fn get_variant_hp(self, base_hp: i64, starting_lvl: i64) -> (r: i64)
        requires
            i64::MIN <= base_hp + hp_mod(self, starting_lvl as int) <= i64::MAX,
        ensures
            r == variant_hp(self, base_hp as int, starting_lvl as int),
    {
        let table = hp_mod_table(self);
        let mut hp_mod: i64 = 0;
        if table.len() > 0 {
            hp_mod = table[0].hp_mod;
        }
        let mut i: usize = 0;
        while i < table.len()
            invariant
                table@ == hp_mod_table_spec(self),
                i <= table@.len(),
                hp_mod == table_lookup(table@, i as int, starting_lvl as int),
                forall|k: int| 0 <= k < table@.len() ==> -30 <= #[trigger] table@[k].hp_mod <= 30,
            decreases table@.len() - i,
        {
            if table[i].from_level <= starting_lvl {
                hp_mod = table[i].hp_mod;
            }
            i = i + 1;
        }
        proof {
            lemma_table_lookup(self, starting_lvl as int);
        }
        let hp = base_hp + hp_mod;
        if hp > 1 { hp } else { 1 }
    }

    /// The archive link of the variant (see `variant_archive_link`).
    pub fn get_variant_archive_link(self, archive_link: Option<String>) -> (r: Option<String>)
        ensures
            opt_view(r) == variant_archive_link(self, opt_view(archive_link)),
    {
        match self {
            CreatureVariant::Base => archive_link,
            _ => {
                let name = self.to_string();
                add_boolean_query(archive_link.as_ref(), name.as_str(), true)
            },
        }
    }
}

// ----- Laws --------------------------------------------------------------------------

/// The elite and weak adjustments are opposite: +2 and -2 to statistics, +4 and -4 to
/// the damage of abilities of limited use, and the base creature is left unchanged.
pub proof fn lemma_elite_and_weak_adjustments_are_opposite(limited_use: bool)
    ensures
        adjustment(CreatureVariant::Elite) == 2,
        adjustment(CreatureVariant::Weak) == -2,
        adjustment(CreatureVariant::Base) == 0,
        dmg_adjustment(CreatureVariant::Elite, limited_use) == -dmg_adjustment(CreatureVariant::Weak, limited_use),
        dmg_adjustment(CreatureVariant::Elite, true) == 4,
        dmg_adjustment(CreatureVariant::Base, limited_use) == 0,
{
}

/// The weak variant of a creature is of a lower level than the creature, the elite
/// variant of a higher one, and the base variant keeps its level.
pub proof fn lemma_variant_level_order(base_lvl: int)
    ensures
        variant_level(CreatureVariant::Weak, base_lvl) < base_lvl,
        base_lvl < variant_level(CreatureVariant::Elite, base_lvl),
        variant_level(CreatureVariant::Base, base_lvl) == base_lvl,
        base_lvl - 2 <= variant_level(CreatureVariant::Weak, base_lvl),
        variant_level(CreatureVariant::Elite, base_lvl) <= base_lvl + 2,
{
}

/// A variant always has at least one hit point; the weak variant has no more than the
/// creature and the elite variant no fewer; the base variant keeps them (when positive).
pub proof fn lemma_variant_hp_order(base_hp: int, lvl: int)
    ensures
        variant_hp(CreatureVariant::Weak, base_hp, lvl) >= 1,
        variant_hp(CreatureVariant::Elite, base_hp, lvl) >= 1,
        variant_hp(CreatureVariant::Weak, base_hp, lvl) <= variant_hp(CreatureVariant::Base, base_hp, lvl),
        variant_hp(CreatureVariant::Base, base_hp, lvl) <= variant_hp(CreatureVariant::Elite, base_hp, lvl),
        base_hp >= 1 ==> variant_hp(CreatureVariant::Base, base_hp, lvl) == base_hp,
{
}

/// Higher starting levels never give an elite creature fewer extra hit points, nor a
/// weak creature fewer lost ones.
pub proof fn lemma_hp_mod_grows_with_level(lvl1: int, lvl2: int)
    requires
        lvl1 <= lvl2,
    ensures
        hp_mod(CreatureVariant::Elite, lvl1) <= hp_mod(CreatureVariant::Elite, lvl2),
        hp_mod(CreatureVariant::Weak, lvl2) <= hp_mod(CreatureVariant::Weak, lvl1),
{
}

/// The base creature keeps its archive link; a variant's link is present exactly when
/// the creature's is.
pub proof fn lemma_variant_link_presence(v: CreatureVariant, link: Option<Seq<char>>)
    ensures
        variant_archive_link(CreatureVariant::Base, link) == link,
        variant_archive_link(v, link) is Some <==> link is Some,
{
}

} // verus!
