use crate::models::creature::creature_component::creature_combat::{CreatureCombatData, SavingThrows};
use crate::models::creature::creature_component::creature_core::EssentialData;
use crate::models::creature::creature_component::creature_extra::CreatureExtraData;
use crate::models::creature::items::action::Action;
use crate::models::creature::items::skill::Skill;
use crate::models::creature_component::creature_spell_caster::{CreatureSpellCasterData, SpellCasterEntry};
use crate::models::item::item_metadata::type_enum::WeaponTypeEnum;
use crate::models::item::weapon_struct::{damage_bounded, weapon_avg_dmg, Weapon};
use crate::models::scales_struct::creature_scales::CreatureScales;
use crate::services::url_calculator::opt_view;
use crate::text::{all_ascii, ascii_upper, parse_i64, spec_parse_i64, to_uppercase, unicode_upper};
use vstd::prelude::*;

verus! {

broadcast use vstd::std_specs::hash::group_hash_axioms;

/// The combat roles a creature can fill.
#[derive(Clone, Copy, Debug, PartialEq, Eq, Structural, Hash, PartialOrd, Ord)]
pub enum CreatureRoleEnum {
    Brute,
    MagicalStriker,
    SkillParagon,
    Skirmisher,
    Sniper,
    Soldier,
    SpellCaster,
}

/// The display name of a role.
pub open spec fn role_text(r: CreatureRoleEnum) -> Seq<char> {
    match r {
        CreatureRoleEnum::Brute => "Brute"@,
        CreatureRoleEnum::MagicalStriker => "Magical Striker"@,
        CreatureRoleEnum::SkillParagon => "Skill Paragon"@,
        CreatureRoleEnum::Skirmisher => "Skirmisher"@,
        CreatureRoleEnum::Sniper => "Sniper"@,
        CreatureRoleEnum::Soldier => "Soldier"@,
        CreatureRoleEnum::SpellCaster => "SpellCaster"@,
    }
}

/// The column that holds a role's percentage in the creature table.
pub open spec fn role_column(r: CreatureRoleEnum) -> Seq<char> {
    match r {
        CreatureRoleEnum::Brute => "brute_percentage"@,
        CreatureRoleEnum::MagicalStriker => "magical_striker_percentage"@,
        CreatureRoleEnum::SkillParagon => "skill_paragon_percentage"@,
        CreatureRoleEnum::Skirmisher => "skirmisher_percentage"@,
        CreatureRoleEnum::Sniper => "sniper_percentage"@,
        CreatureRoleEnum::Soldier => "soldier_percentage"@,
        CreatureRoleEnum::SpellCaster => "spell_caster_percentage"@,
    }
}

/// The key of a role in a creature's role data.
pub open spec fn role_key(r: CreatureRoleEnum) -> Seq<char> {
    match r {
        CreatureRoleEnum::Brute => "brute"@,
        CreatureRoleEnum::MagicalStriker => "magical_striker"@,
        CreatureRoleEnum::SkillParagon => "skill_paragon"@,
        CreatureRoleEnum::Skirmisher => "skirmisher"@,
        CreatureRoleEnum::Sniper => "sniper"@,
        CreatureRoleEnum::Soldier => "soldier"@,
        CreatureRoleEnum::SpellCaster => "spellcaster"@,
    }
}

/// Every role, in declaration order.
pub open spec fn all_roles() -> Seq<CreatureRoleEnum> {
    seq![
        CreatureRoleEnum::Brute,
        CreatureRoleEnum::MagicalStriker,
        CreatureRoleEnum::SkillParagon,
        CreatureRoleEnum::Skirmisher,
        CreatureRoleEnum::Sniper,
        CreatureRoleEnum::Soldier,
        CreatureRoleEnum::SpellCaster,
    ]
}

/// The role named by an upper-case text, with or without the space in two-word names.
pub open spec fn role_from_upper(u: Seq<char>) -> Option<CreatureRoleEnum> {
    if u == "BRUTE"@ {
        Some(CreatureRoleEnum::Brute)
    } else if u == "MAGICAL STRIKER"@ || u == "MAGICALSTRIKER"@ {
        Some(CreatureRoleEnum::MagicalStriker)
    } else if u == "SKILL PARAGON"@ || u == "SKILLPARAGON"@ {
        Some(CreatureRoleEnum::SkillParagon)
    } else if u == "SKIRMISHER"@ {
        Some(CreatureRoleEnum::Skirmisher)
    } else if u == "SNIPER"@ {
        Some(CreatureRoleEnum::Sniper)
    } else if u == "SOLDIER"@ {
        Some(CreatureRoleEnum::Soldier)
    } else if u == "SPELLCASTER"@ || u == "SPELL CASTER"@ {
        Some(CreatureRoleEnum::SpellCaster)
    } else {
        None
    }
}

impl CreatureRoleEnum {
    /// Parses a role name in any letter case; anything else is an error.
    pub fn from_str(s: &str) -> (r: Result<CreatureRoleEnum, ()>)
        ensures
            r == (match role_from_upper(unicode_upper(s@)) {
                Some(v) => Ok::<CreatureRoleEnum, ()>(v),
                None => Err(()),
            }),
            all_ascii(s@) ==> r == (match role_from_upper(ascii_upper(s@)) {
                Some(v) => Ok::<CreatureRoleEnum, ()>(v),
                None => Err(()),
            }),
    {
        let u = to_uppercase(s);
        if u.eq(&String::from_str("BRUTE")) {
            Ok(CreatureRoleEnum::Brute)
        } else if u.eq(&String::from_str("MAGICAL STRIKER")) || u.eq(&String::from_str("MAGICALSTRIKER")) {
            Ok(CreatureRoleEnum::MagicalStriker)
        } else if u.eq(&String::from_str("SKILL PARAGON")) || u.eq(&String::from_str("SKILLPARAGON")) {
            Ok(CreatureRoleEnum::SkillParagon)
        } else if u.eq(&String::from_str("SKIRMISHER")) {
            Ok(CreatureRoleEnum::Skirmisher)
        } else if u.eq(&String::from_str("SNIPER")) {
            Ok(CreatureRoleEnum::Sniper)
        } else if u.eq(&String::from_str("SOLDIER")) {
            Ok(CreatureRoleEnum::Soldier)
        } else if u.eq(&String::from_str("SPELLCASTER")) || u.eq(&String::from_str("SPELL CASTER")) {
            Ok(CreatureRoleEnum::SpellCaster)
        } else {
            Err(())
        }
    }

    pub fn to_string(&self) -> (r: String)
        ensures
            r@ == role_text(*self),
    {
        match self {
            CreatureRoleEnum::Brute => String::from_str("Brute"),
            CreatureRoleEnum::MagicalStriker => String::from_str("Magical Striker"),
            CreatureRoleEnum::SkillParagon => String::from_str("Skill Paragon"),
            CreatureRoleEnum::Skirmisher => String::from_str("Skirmisher"),
            CreatureRoleEnum::Sniper => String::from_str("Sniper"),
            CreatureRoleEnum::Soldier => String::from_str("Soldier"),
            CreatureRoleEnum::SpellCaster => String::from_str("SpellCaster"),
        }
    }

    /// The column holding this role's percentage.
    pub fn to_db_column(&self) -> (r: String)
        ensures
            r@ == role_column(*self),
    {
        match self {
            CreatureRoleEnum::Brute => String::from_str("brute_percentage"),
            CreatureRoleEnum::MagicalStriker => String::from_str("magical_striker_percentage"),
            CreatureRoleEnum::SkillParagon => String::from_str("skill_paragon_percentage"),
            CreatureRoleEnum::Skirmisher => String::from_str("skirmisher_percentage"),
            CreatureRoleEnum::Sniper => String::from_str("sniper_percentage"),
            CreatureRoleEnum::Soldier => String::from_str("soldier_percentage"),
            CreatureRoleEnum::SpellCaster => String::from_str("spell_caster_percentage"),
        }
    }

    /// The key of this role in a creature's role data.
    pub fn to_role_key(&self) -> (r: &'static str)
        ensures
            r@ == role_key(*self),
    {
        match self {
            CreatureRoleEnum::Brute => "brute",
            CreatureRoleEnum::MagicalStriker => "magical_striker",
            CreatureRoleEnum::SkillParagon => "skill_paragon",
            CreatureRoleEnum::Skirmisher => "skirmisher",
            CreatureRoleEnum::Sniper => "sniper",
            CreatureRoleEnum::Soldier => "soldier",
            CreatureRoleEnum::SpellCaster => "spellcaster",
        }
    }

    /// The display names of every role, in declaration order.
    pub fn list() -> (r: Vec<String>)
        ensures
            r@.len() == 7,
            forall|i: int| 0 <= i < 7 ==> (#[trigger] r@[i])@ == role_text(all_roles()[i]),
    {
        let mut v = Vec::new();
        v.push(CreatureRoleEnum::Brute.to_string());
        v.push(CreatureRoleEnum::MagicalStriker.to_string());
        v.push(CreatureRoleEnum::SkillParagon.to_string());
        v.push(CreatureRoleEnum::Skirmisher.to_string());
        v.push(CreatureRoleEnum::Sniper.to_string());
        v.push(CreatureRoleEnum::Soldier.to_string());
        v.push(CreatureRoleEnum::SpellCaster.to_string());
        v
    }
}

// ----- Distances from the expected statistics --------------------------------------

/// What a role adds when a statistic it looks for is missing.
const MISSING_FIELD_DISTANCE: u16 = 20;

/// A distance kept as a 16-bit unsigned number: the remainder modulo 2^16.
pub open spec fn wrap16(x: int) -> int {
    x % 65536
}

/// How far `v` falls below `lb`; zero at or above it.
pub open spec fn lb_dist(lb: int, v: int) -> int {
    if v < lb { wrap16(lb - v) } else { 0 }
}

/// How far `v` rises above `ub`; zero at or below it.
pub open spec fn ub_dist(ub: int, v: int) -> int {
    if v > ub { wrap16(v - ub) } else { 0 }
}

/// How far `v` lies outside `[lb, ub)`: the upper bound itself is one away.
pub open spec fn range_dist(lb: int, ub: int, v: int) -> int {
    if v < lb {
        wrap16(lb - v)
    } else if v >= ub {
        wrap16(v + 1 - ub)
    } else {
        0
    }
}

/// The range in which the distances are computed: an `i64` or one past it.
pub open spec fn wide(x: i128) -> bool {
    -0x1_0000_0000_0000_0000 <= x <= 0x1_0000_0000_0000_0000
}

/// Distance of `value` above the upper bound `ub`; values at or below it give zero.
fn calculate_ub_distance(ub: i128, value: i128) -> (r: u16)
    requires
        wide(ub),
        wide(value),
    ensures
        r == ub_dist(ub as int, value as int),
{
    if value > ub {
        ((value - ub) % 65536) as u16
    } else {
        0
    }
}

/// Distance of `value` below the lower bound `lb`; values at or above it give zero.
fn calculate_lb_distance(lb: i128, value: i128) -> (r: u16)
    requires
        wide(lb),
        wide(value),
    ensures
        r == lb_dist(lb as int, value as int),
{
    if value < lb {
        ((lb - value) % 65536) as u16
    } else {
        0
    }
}

/// Distance of `value` from `[lb, ub)`; the upper bound is excluded, so a value equal
/// to it is one away.
fn calculate_dist(lb: i128, ub: i128, value: i128) -> (r: u16)
    requires
        wide(lb),
        wide(ub),
        wide(value),
    ensures
        r == range_dist(lb as int, ub as int, value as int),
{
    if value < lb {
        ((lb - value) % 65536) as u16
    } else if value >= ub {
        ((value + 1 - ub) % 65536) as u16
    } else {
        0
    }
}

/// The 16-bit sum of two distances.
fn wrapping_sum(a: u16, b: u16) -> (r: u16)
    ensures
        r == wrap16(a + b),
{
    ((a as u32 + b as u32) % 65536) as u16
}

/// An optional distance as an optional integer.
pub open spec fn opt16(o: Option<u16>) -> Option<int> {
    match o {
        Some(x) => Some(x as int),
        None => None,
    }
}

/// The smaller of the best so far and a new distance.
pub open spec fn min_opt(m: Option<int>, d: int) -> Option<int> {
    match m {
        Some(x) => Some(if d < x { d } else { x }),
        None => Some(d),
    }
}

/// A distance, or the distance of a missing statistic.
pub open spec fn or_missing(m: Option<int>) -> int {
    match m {
        Some(x) => x,
        None => 20,
    }
}

fn min_opt16(m: Option<u16>, d: u16) -> (r: Option<u16>)
    ensures
        opt16(r) == min_opt(opt16(m), d as int),
{
    match m {
        Some(x) => Some(if d < x { d } else { x }),
        None => Some(d),
    }
}

fn or_missing16(m: Option<u16>) -> (r: u16)
    ensures
        r == or_missing(opt16(m)),
{
    match m {
        Some(x) => x,
        None => MISSING_FIELD_DISTANCE,
    }
}

// ----- Strikes -----------------------------------------------------------------------

/// A weapon's attack bonus, zero when it has none.
pub open spec fn to_hit(w: Weapon) -> int {
    match w.weapon_data.to_hit_bonus {
        Some(h) => h as int,
        None => 0,
    }
}

/// Every weapon's average damage can be computed.
pub open spec fn weapons_bounded(ws: Seq<Weapon>) -> bool {
    forall|i: int| 0 <= i < ws.len() ==> damage_bounded(#[trigger] ws[i])
}

/// A brute's strike: high bonus and high damage, or moderate bonus and extreme damage,
/// whichever is nearer.
pub open spec fn brute_strike_dist(w: Weapon, atk_high: int, atk_mod: int, high_avg: int, extreme_avg: int, avg: int) -> int {
    let x = wrap16(lb_dist(atk_high, to_hit(w)) + lb_dist(high_avg, avg));
    let y = wrap16(range_dist(atk_mod, atk_high, to_hit(w)) + lb_dist(extreme_avg, avg));
    if y < x { y } else { x }
}

/// The nearest brute strike among the weapons that have damage data.
pub open spec fn brute_strikes_min(ws: Seq<Weapon>, atk_high: int, atk_mod: int, high_avg: int, extreme_avg: int) -> Option<int>
    decreases ws.len(),
{
    if ws.len() == 0 {
        None
    } else {
        let rest = brute_strikes_min(ws.drop_last(), atk_high, atk_mod, high_avg, extreme_avg);
        match weapon_avg_dmg(ws.last()) {
            Some(a) => min_opt(rest, brute_strike_dist(ws.last(), atk_high, atk_mod, high_avg, extreme_avg, a)),
            None => rest,
        }
    }
}

/// A strike measured against a bonus and an average damage.
pub open spec fn strike_dist(w: Weapon, atk_high: int, dmg_avg: int, avg: int) -> int {
    wrap16(lb_dist(atk_high, to_hit(w)) + lb_dist(dmg_avg, avg))
}

/// The nearest strike among the weapons that have damage data (the ranged ones only,
/// when asked).
pub open spec fn strikes_min(ws: Seq<Weapon>, atk_high: int, dmg_avg: int, ranged_only: bool) -> Option<int>
    decreases ws.len(),
{
    if ws.len() == 0 {
        None
    } else {
        let rest = strikes_min(ws.drop_last(), atk_high, dmg_avg, ranged_only);
        let w = ws.last();
        match weapon_avg_dmg(w) {
            Some(a) => if !ranged_only || w.weapon_data.weapon_type == WeaponTypeEnum::Ranged {
                min_opt(rest, strike_dist(w, atk_high, dmg_avg, a))
            } else {
                rest
            },
            None => rest,
        }
    }
}

fn hit_bonus(w: &Weapon) -> (r: i64)
    ensures
        r == to_hit(*w),
{
    match w.weapon_data.to_hit_bonus {
        Some(h) => h,
        None => 0,
    }
}

fn brute_strike_distance(ws: &Vec<Weapon>, atk_high: i64, atk_mod: i64, high_avg: i64, extreme_avg: i64) -> (r: Option<u16>)
    requires
        weapons_bounded(ws@),
    ensures
        opt16(r) == brute_strikes_min(ws@, atk_high as int, atk_mod as int, high_avg as int, extreme_avg as int),
{
    let mut best: Option<u16> = None;
    let mut i: usize = 0;
    while i < ws.len()
        invariant
            i <= ws@.len(),
            weapons_bounded(ws@),
            opt16(best) == brute_strikes_min(ws@.take(i as int), atk_high as int, atk_mod as int, high_avg as int, extreme_avg as int),
        decreases ws@.len() - i,
    {
        assert(ws@.take(i + 1).drop_last() =~= ws@.take(i as int));
        assert(ws@.take(i + 1).last() == ws@[i as int]);
        assert(damage_bounded(ws@[i as int]));
        let w = &ws[i];
        match w.get_avg_dmg() {
            Some(avg) => {
                let hit = hit_bonus(w);
                let x = wrapping_sum(
                    calculate_lb_distance(atk_high as i128, hit as i128),
                    calculate_lb_distance(high_avg as i128, avg as i128),
                );
                let y = wrapping_sum(
                    calculate_dist(atk_mod as i128, atk_high as i128, hit as i128),
                    calculate_lb_distance(extreme_avg as i128, avg as i128),
                );
                let d = if y < x { y } else { x };
                best = min_opt16(best, d);
            },
            None => {},
        }
        i = i + 1;
    }
    assert(ws@.take(ws@.len() as int) =~= ws@);
    best
}

fn strike_distance(ws: &Vec<Weapon>, atk_high: i64, dmg_avg: i64, ranged_only: bool) -> (r: Option<u16>)
    requires
        weapons_bounded(ws@),
    ensures
        opt16(r) == strikes_min(ws@, atk_high as int, dmg_avg as int, ranged_only),
{
    let mut best: Option<u16> = None;
    let mut i: usize = 0;
    while i < ws.len()
        invariant
            i <= ws@.len(),
            weapons_bounded(ws@),
            opt16(best) == strikes_min(ws@.take(i as int), atk_high as int, dmg_avg as int, ranged_only),
        decreases ws@.len() - i,
    {
        assert(ws@.take(i + 1).drop_last() =~= ws@.take(i as int));
        assert(ws@.take(i + 1).last() == ws@[i as int]);
        assert(damage_bounded(ws@[i as int]));
        let w = &ws[i];
        match w.get_avg_dmg() {
            Some(avg) => {
                if !ranged_only || w.weapon_data.weapon_type == WeaponTypeEnum::Ranged {
                    let hit = hit_bonus(w);
                    let d = wrapping_sum(
                        calculate_lb_distance(atk_high as i128, hit as i128),
                        calculate_lb_distance(dmg_avg as i128, avg as i128),
                    );
                    best = min_opt16(best, d);
                }
            },
            None => {},
        }
        i = i + 1;
    }
    assert(ws@.take(ws@.len() as int) =~= ws@);
    best
}

// ----- Skills, actions and speeds --------------------------------------------------

/// The best skill modifier; none without skills.
pub open spec fn skills_max(s: Seq<Skill>) -> Option<i64>
    decreases s.len(),
{
    if s.len() == 0 {
        None
    } else {
        match skills_max(s.drop_last()) {
            Some(m) => Some(if s.last().modifier > m { s.last().modifier } else { m }),
            None => Some(s.last().modifier),
        }
    }
}

/// How many skills reach `t`.
pub open spec fn count_at_least(s: Seq<Skill>, t: int) -> int
    decreases s.len(),
{
    if s.len() == 0 {
        0
    } else {
        count_at_least(s.drop_last(), t) + (if s.last().modifier >= t { 1int } else { 0int })
    }
}

/// An offensive action that takes an action to use.
pub open spec fn is_offensive_action(a: Action) -> bool {
    match a.category {
        Some(c) => unicode_upper(c@) == "OFFENSIVE"@ && unicode_upper(a.action_type@) == "ACTION"@,
        None => false,
    }
}

/// An action that may be an attack of opportunity: named so, slugged so, or without a slug.
pub open spec fn is_opportunity_action(a: Action) -> bool {
    unicode_upper(a.name@) == "ATTACK OF OPPORTUNITY"@ || match a.slug {
        None => true,
        Some(s) => unicode_upper(s@) == "ATTACK-OF-OPPORTUNITY"@,
    }
}

pub open spec fn count_offensive(s: Seq<Action>) -> int
    decreases s.len(),
{
    if s.len() == 0 {
        0
    } else {
        count_offensive(s.drop_last()) + (if is_offensive_action(s.last()) { 1int } else { 0int })
    }
}

pub open spec fn count_opportunity(s: Seq<Action>) -> int
    decreases s.len(),
{
    if s.len() == 0 {
        0
    } else {
        count_opportunity(s.drop_last()) + (if is_opportunity_action(s.last()) { 1int } else { 0int })
    }
}

/// The nearest speed to 30 from below, over the creature's speeds.
pub open spec fn speeds_min(s: Seq<(String, i16)>) -> Option<int>
    decreases s.len(),
{
    if s.len() == 0 {
        None
    } else {
        min_opt(speeds_min(s.drop_last()), lb_dist(30, s.last().1 as int))
    }
}

fn best_skill(skills: &Vec<Skill>) -> (r: Option<i64>)
    ensures
        r == skills_max(skills@),
{
    let mut best: Option<i64> = None;
    let mut i: usize = 0;
    while i < skills.len()
        invariant
            i <= skills@.len(),
            best == skills_max(skills@.take(i as int)),
        decreases skills@.len() - i,
    {
        assert(skills@.take(i + 1).drop_last() =~= skills@.take(i as int));
        let m = skills[i].modifier;
        best = match best {
            Some(b) => Some(if m > b { m } else { b }),
            None => Some(m),
        };
        i = i + 1;
    }
    assert(skills@.take(skills@.len() as int) =~= skills@);
    best
}

fn skills_at_least(skills: &Vec<Skill>, t: i64) -> (r: usize)
    ensures
        r == count_at_least(skills@, t as int),
{
    let mut n: usize = 0;
    let mut i: usize = 0;
    while i < skills.len()
        invariant
            i <= skills@.len(),
            n <= i,
            n == count_at_least(skills@.take(i as int), t as int),
        decreases skills@.len() - i,
    {
        assert(skills@.take(i + 1).drop_last() =~= skills@.take(i as int));
        if skills[i].modifier >= t {
            n = n + 1;
        }
        i = i + 1;
    }
    assert(skills@.take(skills@.len() as int) =~= skills@);
    n
}

fn is_offensive(a: &Action) -> (r: bool)
    ensures
        r == is_offensive_action(*a),
{
    match &a.category {
        Some(c) => {
            let cu = to_uppercase(c.as_str());
            let tu = to_uppercase(a.action_type.as_str());
            cu.eq(&String::from_str("OFFENSIVE")) && tu.eq(&String::from_str("ACTION"))
        },
        None => false,
    }
}

fn is_opportunity(a: &Action) -> (r: bool)
    ensures
        r == is_opportunity_action(*a),
{
    let nu = to_uppercase(a.name.as_str());
    if nu.eq(&String::from_str("ATTACK OF OPPORTUNITY")) {
        return true;
    }
    match &a.slug {
        None => true,
        Some(s) => {
            let su = to_uppercase(s.as_str());
            su.eq(&String::from_str("ATTACK-OF-OPPORTUNITY"))
        },
    }
}

fn offensive_actions(actions: &Vec<Action>) -> (r: usize)
    ensures
        r == count_offensive(actions@),
{
    let mut n: usize = 0;
    let mut i: usize = 0;
    while i < actions.len()
        invariant
            i <= actions@.len(),
            n <= i,
            n == count_offensive(actions@.take(i as int)),
        decreases actions@.len() - i,
    {
        assert(actions@.take(i + 1).drop_last() =~= actions@.take(i as int));
        if is_offensive(&actions[i]) {
            n = n + 1;
        }
        i = i + 1;
    }
    assert(actions@.take(actions@.len() as int) =~= actions@);
    n
}

fn opportunity_actions(actions: &Vec<Action>) -> (r: usize)
    ensures
        r == count_opportunity(actions@),
{
    let mut n: usize = 0;
    let mut i: usize = 0;
    while i < actions.len()
        invariant
            i <= actions@.len(),
            n <= i,
            n == count_opportunity(actions@.take(i as int)),
        decreases actions@.len() - i,
    {
        assert(actions@.take(i + 1).drop_last() =~= actions@.take(i as int));
        if is_opportunity(&actions[i]) {
            n = n + 1;
        }
        i = i + 1;
    }
    assert(actions@.take(actions@.len() as int) =~= actions@);
    n
}

fn speed_distance(speeds: &Vec<(String, i16)>) -> (r: Option<u16>)
    ensures
        opt16(r) == speeds_min(speeds@),
{
    let mut best: Option<u16> = None;
    let mut i: usize = 0;
    while i < speeds.len()
        invariant
            i <= speeds@.len(),
            opt16(best) == speeds_min(speeds@.take(i as int)),
        decreases speeds@.len() - i,
    {
        assert(speeds@.take(i + 1).drop_last() =~= speeds@.take(i as int));
        let d = calculate_lb_distance(30, speeds[i].1 as i128);
        best = min_opt16(best, d);
        i = i + 1;
    }
    assert(speeds@.take(speeds@.len() as int) =~= speeds@);
    best
}

// ----- Role scores -----------------------------------------------------------------

/// The average damage written in the strike damage table at a creature's level, for
/// the extreme, high and moderate columns; none where the table has no row for the
/// level or the text holds no average.
#[derive(Clone, Copy, Debug, PartialEq, Eq, Structural)]
pub struct StrikeDamageAverages {
    pub extreme: Option<i64>,
    pub high: Option<i64>,
    pub moderate: Option<i64>,
}

/// Rounding half the level up, as the spell counts expect it.
pub open spec fn ceil_half(l: int) -> int {
    if l >= 0 { (l + 1) / 2 } else { -((-l) / 2) }
}

/// How many spells short of `need` a creature is; zero when it has enough.
pub open spec fn spell_shortfall(len: int, need: int) -> int {
    if len < need { wrap16(need - len) } else { 0 }
}

pub open spec fn abs_int(x: int) -> int {
    if x < 0 { -x } else { x }
}

/// Brute: low Perception, high Strength, moderate to high Constitution, low mental
/// attributes, low Reflex and Will, high Fortitude, at most moderate AC, high HP, and
/// strong strikes. None when a table lacks the creature's level.
pub open spec fn brute_score(
    core: EssentialData,
    extra: CreatureExtraData,
    combat: CreatureCombatData,
    scales: CreatureScales,
    avg: StrikeDamageAverages,
) -> Option<int> {
    let lvl = core.base_level;
    if scales.perception_scales@.contains_key(lvl) && scales.ability_scales@.contains_key(lvl)
        && scales.saving_throw_scales@.contains_key(lvl) && scales.ac_scales@.contains_key(lvl)
        && scales.hp_scales@.contains_key(lvl) && scales.strike_bonus_scales@.contains_key(lvl)
        && avg.extreme is Some && avg.high is Some {
        let per = scales.perception_scales@[lvl];
        let ab = scales.ability_scales@[lvl];
        let sv = scales.saving_throw_scales@[lvl];
        let ac = scales.ac_scales@[lvl];
        let hp = scales.hp_scales@[lvl];
        let atk = scales.strike_bonus_scales@[lvl];
        let a = extra.ability_scores;
        let st = combat.saving_throws;
        Some(wrap16(
            ub_dist(per.moderate as int, extra.perception + 1)
                + lb_dist(ab.high as int, a.strength as int)
                + lb_dist(ab.moderate as int, a.constitution as int)
                + ub_dist(ab.moderate as int, a.intelligence + 1)
                + ub_dist(ab.moderate as int, a.wisdom + 1)
                + ub_dist(ab.moderate as int, a.charisma + 1)
                + ub_dist(sv.moderate as int, st.reflex + 1)
                + lb_dist(sv.high as int, st.fortitude as int)
                + ub_dist(sv.moderate as int, st.will + 1)
                + ub_dist(ac.high as int, combat.ac + 1)
                + lb_dist(hp.high_lb as int, core.hp as int)
                + or_missing(brute_strikes_min(
                    combat.weapons@,
                    atk.high as int,
                    atk.moderate as int,
                    avg.high.unwrap() as int,
                    avg.extreme.unwrap() as int,
                )),
        ))
    } else {
        None
    }
}

/// Sniper: Perception, Dexterity and Reflex at least moderate, and strong ranged strikes.
pub open spec fn sniper_score(
    core: EssentialData,
    extra: CreatureExtraData,
    combat: CreatureCombatData,
    scales: CreatureScales,
    avg: StrikeDamageAverages,
) -> Option<int> {
    let lvl = core.base_level;
    if scales.perception_scales@.contains_key(lvl) && scales.ability_scales@.contains_key(lvl)
        && scales.saving_throw_scales@.contains_key(lvl) && scales.strike_bonus_scales@.contains_key(lvl)
        && avg.moderate is Some {
        let per = scales.perception_scales@[lvl];
        let ab = scales.ability_scales@[lvl];
        let sv = scales.saving_throw_scales@[lvl];
        let atk = scales.strike_bonus_scales@[lvl];
        Some(wrap16(
            lb_dist(per.moderate as int, extra.perception as int)
                + lb_dist(ab.moderate as int, extra.ability_scores.dexterity as int)
                + lb_dist(sv.moderate as int, combat.saving_throws.reflex as int)
                + or_missing(strikes_min(combat.weapons@, atk.high as int, avg.moderate.unwrap() as int, true)),
        ))
    } else {
        None
    }
}

/// Skirmisher: high Dexterity, low Fortitude, high Reflex and a speed of at least 30.
pub open spec fn skirmisher_score(
    core: EssentialData,
    extra: CreatureExtraData,
    combat: CreatureCombatData,
    scales: CreatureScales,
) -> Option<int> {
    let lvl = core.base_level;
    if scales.ability_scales@.contains_key(lvl) && scales.saving_throw_scales@.contains_key(lvl) {
        let ab = scales.ability_scales@[lvl];
        let sv = scales.saving_throw_scales@[lvl];
        Some(wrap16(
            lb_dist(ab.high as int, extra.ability_scores.dexterity as int)
                + ub_dist(sv.moderate as int, combat.saving_throws.fortitude + 1)
                + lb_dist(sv.high as int, combat.saving_throws.reflex as int)
                + or_missing(speeds_min(extra.speeds@)),
        ))
    } else {
        None
    }
}

/// What a soldier loses for its actions: everything without an offensive action, a
/// little without an attack of opportunity.
pub open spec fn soldier_action_distance(actions: Seq<Action>) -> int {
    if count_offensive(actions) == 0 {
        20
    } else if count_opportunity(actions) == 0 {
        3
    } else {
        0
    }
}

/// Soldier: high Strength, AC and Fortitude, strong strikes, and offensive actions.
pub open spec fn soldier_score(
    core: EssentialData,
    extra: CreatureExtraData,
    combat: CreatureCombatData,
    scales: CreatureScales,
    avg: StrikeDamageAverages,
) -> Option<int> {
    let lvl = core.base_level;
    if scales.ability_scales@.contains_key(lvl) && scales.ac_scales@.contains_key(lvl)
        && scales.saving_throw_scales@.contains_key(lvl) && scales.strike_bonus_scales@.contains_key(lvl)
        && avg.high is Some {
        let ab = scales.ability_scales@[lvl];
        let ac = scales.ac_scales@[lvl];
        let sv = scales.saving_throw_scales@[lvl];
        let atk = scales.strike_bonus_scales@[lvl];
        Some(wrap16(
            lb_dist(ab.high as int, extra.ability_scores.strength as int)
                + lb_dist(ac.high as int, combat.ac as int)
                + lb_dist(sv.high as int, combat.saving_throws.fortitude as int)
                + or_missing(strikes_min(combat.weapons@, atk.high as int, avg.high.unwrap() as int, false))
                + soldier_action_distance(extra.actions@),
        ))
    } else {
        None
    }
}

/// Magical striker: strong strikes, a spell DC at least moderate, and about half its
/// level in spells.
pub open spec fn magical_striker_score(
    core: EssentialData,
    spells: CreatureSpellCasterData,
    combat: CreatureCombatData,
    scales: CreatureScales,
    avg: StrikeDamageAverages,
) -> Option<int> {
    let lvl = core.base_level;
    if scales.strike_bonus_scales@.contains_key(lvl) && avg.high is Some
        && scales.spell_dc_and_atk_scales@.contains_key(lvl) {
        let atk = scales.strike_bonus_scales@[lvl];
        let dc = scales.spell_dc_and_atk_scales@[lvl];
        Some(wrap16(
            or_missing(strikes_min(combat.weapons@, atk.high as int, avg.high.unwrap() as int, false))
                + (match spells.spell_caster_entry.spell_casting_dc_mod {
                    Some(m) => lb_dist(dc.moderate_dc as int, m as int),
                    None => 20,
                })
                + spell_shortfall(spells.spells@.len() as int, ceil_half(lvl as int) - 1),
        ))
    } else {
        None
    }
}

/// Skill paragon: a high best skill, low Fortitude, high Reflex or Will, most skills
/// at least moderate, and at least two offensive actions.
pub open spec fn skill_paragon_score(
    core: EssentialData,
    extra: CreatureExtraData,
    combat: CreatureCombatData,
    scales: CreatureScales,
) -> Option<int> {
    let lvl = core.base_level;
    if scales.ability_scales@.contains_key(lvl) && scales.skill_scales@.contains_key(lvl)
        && skills_max(extra.skills@) is Some && scales.saving_throw_scales@.contains_key(lvl) {
        let ab = scales.ability_scales@[lvl];
        let sv = scales.saving_throw_scales@[lvl];
        let st = combat.saving_throws;
        let ref_dist = lb_dist(sv.high as int, st.reflex as int);
        let will_dist = lb_dist(sv.high as int, st.will as int);
        let amount = (extra.skills@.len() as int) * 70 / 100;
        Some(wrap16(
            lb_dist(ab.high as int, skills_max(extra.skills@).unwrap() as int)
                + ub_dist(sv.moderate as int, st.fortitude + 1)
                + (if ref_dist > will_dist { will_dist } else { ref_dist })
                + wrap16(abs_int(count_at_least(extra.skills@, sv.moderate as int) - amount))
                + (if count_offensive(extra.actions@) < 2 { 20int } else { 0int }),
        ))
    } else {
        None
    }
}

/// Spellcaster: low Fortitude and HP, high Will, a high spell DC, half its level in
/// spells, and a high mental attribute. None without a spell DC.
pub open spec fn spellcaster_score(
    core: EssentialData,
    spells: CreatureSpellCasterData,
    combat: CreatureCombatData,
    extra: CreatureExtraData,
    scales: CreatureScales,
) -> Option<int> {
    let lvl = core.base_level;
    if scales.saving_throw_scales@.contains_key(lvl) && scales.hp_scales@.contains_key(lvl)
        && scales.spell_dc_and_atk_scales@.contains_key(lvl)
        && spells.spell_caster_entry.spell_casting_dc_mod is Some
        && scales.ability_scales@.contains_key(lvl) {
        let sv = scales.saving_throw_scales@[lvl];
        let hp = scales.hp_scales@[lvl];
        let dc = scales.spell_dc_and_atk_scales@[lvl];
        let ab = scales.ability_scales@[lvl];
        let a = extra.ability_scores;
        let wi = if a.wisdom > a.intelligence { a.wisdom } else { a.intelligence };
        let mental = if wi > a.charisma { wi } else { a.charisma };
        Some(wrap16(
            ub_dist(sv.moderate as int, combat.saving_throws.fortitude + 1)
                + lb_dist(sv.high as int, combat.saving_throws.will as int)
                + ub_dist(hp.high_lb as int, core.hp + 1)
                + lb_dist(dc.high_dc as int, spells.spell_caster_entry.spell_casting_dc_mod.unwrap() as int)
                + spell_shortfall(spells.spells@.len() as int, ceil_half(lvl as int))
                + lb_dist(ab.high as int, mental as int),
        ))
    } else {
        None
    }
}

fn ceil_half_of(l: i64) -> (r: i128)
    ensures
        r == ceil_half(l as int),
{
    let w = l as i128;
    if w >= 0 {
        (w + 1) / 2
    } else {
        -((-w) / 2)
    }
}

fn shortfall(len: usize, need: i128) -> (r: u16)
    requires
        -0x1_0000_0000_0000_0000 <= need <= 0x1_0000_0000_0000_0000,
    ensures
        r == spell_shortfall(len as int, need as int),
{
    let l = len as i128;
    if l < need {
        ((need - l) % 65536) as u16
    } else {
        0
    }
}

fn is_brute(
    cr_core: &EssentialData,
    cr_extra: &CreatureExtraData,
    cr_combat: &CreatureCombatData,
    scales: &CreatureScales,
    avg: &StrikeDamageAverages,
) -> (r: Option<u16>)
    requires
        weapons_bounded(cr_combat.weapons@),
    ensures
        opt16(r) == brute_score(*cr_core, *cr_extra, *cr_combat, *scales, *avg),
{
    let lvl = cr_core.base_level;
    let per = match scales.perception_scales.get(&lvl) { Some(x) => x, None => return None };
    let ab = match scales.ability_scales.get(&lvl) { Some(x) => x, None => return None };
    let sv = match scales.saving_throw_scales.get(&lvl) { Some(x) => x, None => return None };
    let ac = match scales.ac_scales.get(&lvl) { Some(x) => x, None => return None };
    let hp = match scales.hp_scales.get(&lvl) { Some(x) => x, None => return None };
    let atk = match scales.strike_bonus_scales.get(&lvl) { Some(x) => x, None => return None };
    let extreme_avg = match avg.extreme { Some(x) => x, None => return None };
    let high_avg = match avg.high { Some(x) => x, None => return None };
    let a = &cr_extra.ability_scores;
    let st = &cr_combat.saving_throws;
    let mut score: u64 = 0;
    score = score + calculate_ub_distance(per.moderate as i128, cr_extra.perception as i128 + 1) as u64;
    score = score + calculate_lb_distance(ab.high as i128, a.strength as i128) as u64;
    score = score + calculate_lb_distance(ab.moderate as i128, a.constitution as i128) as u64;
    score = score + calculate_ub_distance(ab.moderate as i128, a.intelligence as i128 + 1) as u64;
    score = score + calculate_ub_distance(ab.moderate as i128, a.wisdom as i128 + 1) as u64;
    score = score + calculate_ub_distance(ab.moderate as i128, a.charisma as i128 + 1) as u64;
    score = score + calculate_ub_distance(sv.moderate as i128, st.reflex as i128 + 1) as u64;
    score = score + calculate_lb_distance(sv.high as i128, st.fortitude as i128) as u64;
    score = score + calculate_ub_distance(sv.moderate as i128, st.will as i128 + 1) as u64;
    score = score + calculate_ub_distance(ac.high as i128, cr_combat.ac as i128 + 1) as u64;
    score = score + calculate_lb_distance(hp.high_lb as i128, cr_core.hp as i128) as u64;
    let wp = brute_strike_distance(&cr_combat.weapons, atk.high, atk.moderate, high_avg, extreme_avg);
    score = score + or_missing16(wp) as u64;
    Some((score % 65536) as u16)
}

fn is_sniper(
    cr_core: &EssentialData,
    cr_extra: &CreatureExtraData,
    cr_combat: &CreatureCombatData,
    scales: &CreatureScales,
    avg: &StrikeDamageAverages,
) -> (r: Option<u16>)
    requires
        weapons_bounded(cr_combat.weapons@),
    ensures
        opt16(r) == sniper_score(*cr_core, *cr_extra, *cr_combat, *scales, *avg),
{
    let lvl = cr_core.base_level;
    let per = match scales.perception_scales.get(&lvl) { Some(x) => x, None => return None };
    let ab = match scales.ability_scales.get(&lvl) { Some(x) => x, None => return None };
    let sv = match scales.saving_throw_scales.get(&lvl) { Some(x) => x, None => return None };
    let atk = match scales.strike_bonus_scales.get(&lvl) { Some(x) => x, None => return None };
    let mod_avg = match avg.moderate { Some(x) => x, None => return None };
    let mut score: u64 = 0;
    score = score + calculate_lb_distance(per.moderate as i128, cr_extra.perception as i128) as u64;
    score = score + calculate_lb_distance(ab.moderate as i128, cr_extra.ability_scores.dexterity as i128) as u64;
    score = score + calculate_lb_distance(sv.moderate as i128, cr_combat.saving_throws.reflex as i128) as u64;
    let wp = strike_distance(&cr_combat.weapons, atk.high, mod_avg, true);
    score = score + or_missing16(wp) as u64;
    Some((score % 65536) as u16)
}

fn is_skirmisher(
    cr_core: &EssentialData,
    cr_extra: &CreatureExtraData,
    cr_combat: &CreatureCombatData,
    scales: &CreatureScales,
) -> (r: Option<u16>)
    ensures
        opt16(r) == skirmisher_score(*cr_core, *cr_extra, *cr_combat, *scales),
{
    let lvl = cr_core.base_level;
    let ab = match scales.ability_scales.get(&lvl) { Some(x) => x, None => return None };
    let sv = match scales.saving_throw_scales.get(&lvl) { Some(x) => x, None => return None };
    let mut score: u64 = 0;
    score = score + calculate_lb_distance(ab.high as i128, cr_extra.ability_scores.dexterity as i128) as u64;
    score = score + calculate_ub_distance(sv.moderate as i128, cr_combat.saving_throws.fortitude as i128 + 1) as u64;
    score = score + calculate_lb_distance(sv.high as i128, cr_combat.saving_throws.reflex as i128) as u64;
    score = score + or_missing16(speed_distance(&cr_extra.speeds)) as u64;
    Some((score % 65536) as u16)
}

fn is_soldier(
    cr_core: &EssentialData,
    cr_extra: &CreatureExtraData,
    cr_combat: &CreatureCombatData,
    scales: &CreatureScales,
    avg: &StrikeDamageAverages,
) -> (r: Option<u16>)
    requires
        weapons_bounded(cr_combat.weapons@),
    ensures
        opt16(r) == soldier_score(*cr_core, *cr_extra, *cr_combat, *scales, *avg),
{
    let lvl = cr_core.base_level;
    let ab = match scales.ability_scales.get(&lvl) { Some(x) => x, None => return None };
    let ac = match scales.ac_scales.get(&lvl) { Some(x) => x, None => return None };
    let sv = match scales.saving_throw_scales.get(&lvl) { Some(x) => x, None => return None };
    let atk = match scales.strike_bonus_scales.get(&lvl) { Some(x) => x, None => return None };
    let high_avg = match avg.high { Some(x) => x, None => return None };
    let mut score: u64 = 0;
    score = score + calculate_lb_distance(ab.high as i128, cr_extra.ability_scores.strength as i128) as u64;
    score = score + calculate_lb_distance(ac.high as i128, cr_combat.ac as i128) as u64;
    score = score + calculate_lb_distance(sv.high as i128, cr_combat.saving_throws.fortitude as i128) as u64;
    let wp = strike_distance(&cr_combat.weapons, atk.high, high_avg, false);
    score = score + or_missing16(wp) as u64;
    if offensive_actions(&cr_extra.actions) == 0 {
        score = score + MISSING_FIELD_DISTANCE as u64;
    } else if opportunity_actions(&cr_extra.actions) == 0 {
        score = score + 3;
    }
    Some((score % 65536) as u16)
}

fn is_magical_striker(
    cr_core: &EssentialData,
    cr_spell: &CreatureSpellCasterData,
    cr_combat: &CreatureCombatData,
    scales: &CreatureScales,
    avg: &StrikeDamageAverages,
) -> (r: Option<u16>)
    requires
        weapons_bounded(cr_combat.weapons@),
    ensures
        opt16(r) == magical_striker_score(*cr_core, *cr_spell, *cr_combat, *scales, *avg),
{
    let lvl = cr_core.base_level;
    let atk = match scales.strike_bonus_scales.get(&lvl) { Some(x) => x, None => return None };
    let high_avg = match avg.high { Some(x) => x, None => return None };
    let dc = match scales.spell_dc_and_atk_scales.get(&lvl) { Some(x) => x, None => return None };
    let mut score: u64 = 0;
    let wp = strike_distance(&cr_combat.weapons, atk.high, high_avg, false);
    score = score + or_missing16(wp) as u64;
    match cr_spell.spell_caster_entry.spell_casting_dc_mod {
        Some(m) => {
            score = score + calculate_lb_distance(dc.moderate_dc as i128, m as i128) as u64;
        },
        None => {
            score = score + MISSING_FIELD_DISTANCE as u64;
        },
    }
    score = score + shortfall(cr_spell.spells.len(), ceil_half_of(lvl) - 1) as u64;
    Some((score % 65536) as u16)
}

fn is_skill_paragon(
    cr_core: &EssentialData,
    cr_extra: &CreatureExtraData,
    cr_combat: &CreatureCombatData,
    scales: &CreatureScales,
) -> (r: Option<u16>)
    ensures
        opt16(r) == skill_paragon_score(*cr_core, *cr_extra, *cr_combat, *scales),
{
    let lvl = cr_core.base_level;
    let ab = match scales.ability_scales.get(&lvl) { Some(x) => x, None => return None };
    match scales.skill_scales.get(&lvl) { Some(_) => {}, None => return None };
    let best = match best_skill(&cr_extra.skills) { Some(x) => x, None => return None };
    let sv = match scales.saving_throw_scales.get(&lvl) { Some(x) => x, None => return None };
    let st = &cr_combat.saving_throws;
    let mut score: u64 = 0;
    score = score + calculate_lb_distance(ab.high as i128, best as i128) as u64;
    score = score + calculate_ub_distance(sv.moderate as i128, st.fortitude as i128 + 1) as u64;
    let ref_dist = calculate_lb_distance(sv.high as i128, st.reflex as i128);
    let will_dist = calculate_lb_distance(sv.high as i128, st.will as i128);
    score = score + (if ref_dist > will_dist { will_dist } else { ref_dist }) as u64;
    let amount = (cr_extra.skills.len() as i128) * 70 / 100;
    let count = skills_at_least(&cr_extra.skills, sv.moderate) as i128;
    let diff = if count >= amount { count - amount } else { amount - count };
    score = score + (diff % 65536) as u64;
    if offensive_actions(&cr_extra.actions) < 2 {
        score = score + MISSING_FIELD_DISTANCE as u64;
    }
    Some((score % 65536) as u16)
}

fn is_spellcaster(
    cr_core: &EssentialData,
    cr_spell: &CreatureSpellCasterData,
    cr_combat: &CreatureCombatData,
    cr_extra: &CreatureExtraData,
    scales: &CreatureScales,
) -> (r: Option<u16>)
    ensures
        opt16(r) == spellcaster_score(*cr_core, *cr_spell, *cr_combat, *cr_extra, *scales),
{
    let lvl = cr_core.base_level;
    let sv = match scales.saving_throw_scales.get(&lvl) { Some(x) => x, None => return None };
    let hp = match scales.hp_scales.get(&lvl) { Some(x) => x, None => return None };
    let dc = match scales.spell_dc_and_atk_scales.get(&lvl) { Some(x) => x, None => return None };
    let dc_mod = match cr_spell.spell_caster_entry.spell_casting_dc_mod { Some(x) => x, None => return None };
    let ab = match scales.ability_scales.get(&lvl) { Some(x) => x, None => return None };
    let a = &cr_extra.ability_scores;
    let wi = if a.wisdom > a.intelligence { a.wisdom } else { a.intelligence };
    let mental = if wi > a.charisma { wi } else { a.charisma };
    let mut score: u64 = 0;
    score = score + calculate_ub_distance(sv.moderate as i128, cr_combat.saving_throws.fortitude as i128 + 1) as u64;
    score = score + calculate_lb_distance(sv.high as i128, cr_combat.saving_throws.will as i128) as u64;
    score = score + calculate_ub_distance(hp.high_lb as i128, cr_core.hp as i128 + 1) as u64;
    score = score + calculate_lb_distance(dc.high_dc as i128, dc_mod as i128) as u64;
    score = score + shortfall(cr_spell.spells.len(), ceil_half_of(lvl)) as u64;
    score = score + calculate_lb_distance(ab.high as i128, mental as i128) as u64;
    Some((score % 65536) as u16)
}

// ----- Percentages --------------------------------------------------------------------

/// How well a creature fits a role, in percent, for a score (the summed distances
/// from what the role expects): 100 × e^(−score/5), rounded to the nearest integer.
/// From a score of 27 on the value rounds to zero.
pub open spec fn role_percentage(score: int) -> int {
    if score == 0 {
        100
    } else if score == 1 {
        82
    } else if score == 2 {
        67
    } else if score == 3 {
        55
    } else if score == 4 {
        45
    } else if score == 5 {
        37
    } else if score == 6 {
        30
    } else if score == 7 {
        25
    } else if score == 8 {
        20
    } else if score == 9 {
        17
    } else if score == 10 {
        14
    } else if score == 11 {
        11
    } else if score == 12 {
        9
    } else if score == 13 {
        7
    } else if score == 14 {
        6
    } else if score == 15 {
        5
    } else if score == 16 {
        4
    } else if score == 17 {
        3
    } else if score == 18 {
        3
    } else if score == 19 {
        2
    } else if score == 20 {
        2
    } else if score == 21 {
        1
    } else if score == 22 {
        1
    } else if score == 23 {
        1
    } else if score == 24 {
        1
    } else if score == 25 {
        1
    } else if score == 26 {
        1
    } else {
        0
    }
}

/// A role's percentage for a score; zero when the score could not be computed.
pub open spec fn percentage_of(score: Option<int>) -> int {
    match score {
        Some(x) => role_percentage(x),
        None => 0,
    }
}

fn score_to_percentage(score: Option<u16>) -> (r: i64)
    ensures
        r == percentage_of(opt16(score)),
{
    match score {
        Some(x) => match x {
                0 => 100,
                1 => 82,
                2 => 67,
                3 => 55,
                4 => 45,
                5 => 37,
                6 => 30,
                7 => 25,
                8 => 20,
                9 => 17,
                10 => 14,
                11 => 11,
                12 => 9,
                13 => 7,
                14 => 6,
                15 => 5,
                16 => 4,
                17 => 3,
                18 => 3,
                19 => 2,
                20 => 2,
                21 => 1,
                22 => 1,
                23 => 1,
                24 => 1,
                25 => 1,
                26 => 1,
                _ => 0,
            },
        None => 0,
    }
}

// ----- Strike damage averages ----------------------------------------------------------

/// The digits that the `regex` crate captures with `\((\d+)\)` in a text: those of its
/// leftmost number in parentheses; none when there is no such number.
pub uninterp spec fn paren_digits_capture(s: Seq<char>) -> Option<Seq<char>>;

/// Captures the digits of the leftmost `(digits)` in a text with the `regex` crate,
/// as `Regex::new(r"\((\d+)\)")` then `captures` and `get(1)`. The result is named by
/// `paren_digits_capture`; the contract adds only its shape: a captured run is not
/// empty and stands between `(` and `)` in the text. Which characters count as digits
/// (`\d`, Unicode decimal digits) and that the run is the leftmost one are left to
/// that name.
#[verifier::external_body]
fn capture_paren_digits(raw_str: &str) -> (r: Option<String>)
    ensures
        opt_view(r) == paren_digits_capture(raw_str@),
        r matches Some(d) ==> d@.len() > 0 && exists|i: int|
            1 <= i && i + d@.len() < raw_str@.len() && raw_str@[i - 1] == '(' && #[trigger] raw_str@.subrange(
                i,
                i + d@.len(),
            ) == d@ && raw_str@[i + d@.len()] == ')',
{
    let re = regex::Regex::new(r"\((\d+)\)").unwrap();
    match re.captures(raw_str) {
        Some(caps) => match caps.get(1) {
            Some(m) => Some(m.as_str().to_string()),
            None => None,
        },
        None => None,
    }
}

/// The average written in parentheses in a damage text, such as 19 in `2d8+10 (19)`.
pub open spec fn spec_dmg_from_text(s: Seq<char>) -> Option<i64> {
    match paren_digits_capture(s) {
        Some(t) => spec_parse_i64(t),
        None => None,
    }
}

/// The average damage written in parentheses in a damage text; none when there is none
/// or it does not fit in `i64`.
fn get_dmg_from_regex(raw_str: &str) -> (r: Option<i64>)
    ensures
        r == spec_dmg_from_text(raw_str@),
{
    match capture_paren_digits(raw_str) {
        Some(t) => parse_i64(t.as_str()),
        None => None,
    }
}

/// The averages of the strike damage table at a level.
pub open spec fn spec_level_dmg_averages(scales: CreatureScales, lvl: i64) -> StrikeDamageAverages {
    if scales.strike_dmg_scales@.contains_key(lvl) {
        let d = scales.strike_dmg_scales@[lvl];
        StrikeDamageAverages {
            extreme: spec_dmg_from_text(d.extreme@),
            high: spec_dmg_from_text(d.high@),
            moderate: spec_dmg_from_text(d.moderate@),
        }
    } else {
        StrikeDamageAverages { extreme: None, high: None, moderate: None }
    }
}

fn level_dmg_averages(scales: &CreatureScales, lvl: i64) -> (r: StrikeDamageAverages)
    ensures
        r == spec_level_dmg_averages(*scales, lvl),
{
    match scales.strike_dmg_scales.get(&lvl) {
        Some(d) => StrikeDamageAverages {
            extreme: get_dmg_from_regex(d.extreme.as_str()),
            high: get_dmg_from_regex(d.high.as_str()),
            moderate: get_dmg_from_regex(d.moderate.as_str()),
        },
        None => StrikeDamageAverages { extreme: None, high: None, moderate: None },
    }
}

// ----- Roles of a creature ----------------------------------------------------------------

/// Each role with the creature's percentage for it, in the roles' order.
pub open spec fn spec_role_percentages(
    core: EssentialData,
    extra: CreatureExtraData,
    combat: CreatureCombatData,
    spells: CreatureSpellCasterData,
    scales: CreatureScales,
    avg: StrikeDamageAverages,
) -> Seq<(CreatureRoleEnum, i64)> {
    seq![
        (CreatureRoleEnum::Brute, percentage_of(brute_score(core, extra, combat, scales, avg)) as i64),
        (CreatureRoleEnum::MagicalStriker, percentage_of(magical_striker_score(core, spells, combat, scales, avg)) as i64),
        (CreatureRoleEnum::SkillParagon, percentage_of(skill_paragon_score(core, extra, combat, scales)) as i64),
        (CreatureRoleEnum::Skirmisher, percentage_of(skirmisher_score(core, extra, combat, scales)) as i64),
        (CreatureRoleEnum::Sniper, percentage_of(sniper_score(core, extra, combat, scales, avg)) as i64),
        (CreatureRoleEnum::Soldier, percentage_of(soldier_score(core, extra, combat, scales, avg)) as i64),
        (CreatureRoleEnum::SpellCaster, percentage_of(spellcaster_score(core, spells, combat, extra, scales)) as i64),
    ]
}

impl CreatureRoleEnum {
    /// How well the creature fits each role, in percent, given the averages of the
    /// strike damage table at its level.
    pub fn from_creature_with_given_damage_averages(
        cr_core: &EssentialData,
        cr_extra: &CreatureExtraData,
        cr_combat: &CreatureCombatData,
        cr_spells: &CreatureSpellCasterData,
        scales: &CreatureScales,
        averages: &StrikeDamageAverages,
    ) -> (r: Vec<(CreatureRoleEnum, i64)>)
        requires
            weapons_bounded(cr_combat.weapons@),
        ensures
            r@ == spec_role_percentages(*cr_core, *cr_extra, *cr_combat, *cr_spells, *scales, *averages),
    {
        let mut roles: Vec<(CreatureRoleEnum, i64)> = Vec::new();
        roles.push((CreatureRoleEnum::Brute, score_to_percentage(is_brute(cr_core, cr_extra, cr_combat, scales, averages))));
        roles.push((
            CreatureRoleEnum::MagicalStriker,
            score_to_percentage(is_magical_striker(cr_core, cr_spells, cr_combat, scales, averages)),
        ));
        roles.push((CreatureRoleEnum::SkillParagon, score_to_percentage(is_skill_paragon(cr_core, cr_extra, cr_combat, scales))));
        roles.push((CreatureRoleEnum::Skirmisher, score_to_percentage(is_skirmisher(cr_core, cr_extra, cr_combat, scales))));
        roles.push((CreatureRoleEnum::Sniper, score_to_percentage(is_sniper(cr_core, cr_extra, cr_combat, scales, averages))));
        roles.push((CreatureRoleEnum::Soldier, score_to_percentage(is_soldier(cr_core, cr_extra, cr_combat, scales, averages))));
        roles.push((
            CreatureRoleEnum::SpellCaster,
            score_to_percentage(is_spellcaster(cr_core, cr_spells, cr_combat, cr_extra, scales)),
        ));
        assert(roles@ =~= spec_role_percentages(*cr_core, *cr_extra, *cr_combat, *cr_spells, *scales, *averages));
        roles
    }

    /// How well the creature fits each role, in percent, measured against the tables
    /// at its level; a role whose tables lack that level gets zero.
    pub fn from_creature_with_given_scales(
        cr_core: &EssentialData,
        cr_extra: &CreatureExtraData,
        cr_combat: &CreatureCombatData,
        cr_spells: &CreatureSpellCasterData,
        scales: &CreatureScales,
    ) -> (r: Vec<(CreatureRoleEnum, i64)>)
        requires
            weapons_bounded(cr_combat.weapons@),
        ensures
            r@ == spec_role_percentages(
                *cr_core,
                *cr_extra,
                *cr_combat,
                *cr_spells,
                *scales,
                spec_level_dmg_averages(*scales, cr_core.base_level),
            ),
    {
        let averages = level_dmg_averages(scales, cr_core.base_level);
        Self::from_creature_with_given_damage_averages(cr_core, cr_extra, cr_combat, cr_spells, scales, &averages)
    }
}

// ----- Laws --------------------------------------------------------------------------

/// A role's percentage lies between 0 and 100, is 100 exactly for a score of zero, and
/// never grows as the score grows.
pub proof fn lemma_role_percentage_bounds(score1: int, score2: int)
    requires
        0 <= score1 <= score2,
    ensures
        0 <= role_percentage(score1) <= 100,
        role_percentage(score1) == 100 <==> score1 == 0,
        role_percentage(score2) <= role_percentage(score1),
{
}

/// A creature is rated for every role, once each, in the roles' order, with a
/// percentage between 0 and 100.
pub proof fn lemma_every_role_rated_once(
    core: EssentialData,
    extra: CreatureExtraData,
    combat: CreatureCombatData,
    spells: CreatureSpellCasterData,
    scales: CreatureScales,
    avg: StrikeDamageAverages,
)
    ensures
        ({
            let r = spec_role_percentages(core, extra, combat, spells, scales, avg);
            &&& r.len() == all_roles().len()
            &&& forall|i: int| 0 <= i < r.len() ==> (#[trigger] r[i]).0 == all_roles()[i] && 0 <= r[i].1 <= 100
        }),
{
    let r = spec_role_percentages(core, extra, combat, spells, scales, avg);
    assert forall|i: int| 0 <= i < r.len() implies (#[trigger] r[i]).0 == all_roles()[i] && 0 <= r[i].1 <= 100 by {
        let b = brute_score(core, extra, combat, scales, avg);
        let m = magical_striker_score(core, spells, combat, scales, avg);
        let k = skill_paragon_score(core, extra, combat, scales);
        let s = skirmisher_score(core, extra, combat, scales);
        let n = sniper_score(core, extra, combat, scales, avg);
        let o = soldier_score(core, extra, combat, scales, avg);
        let c = spellcaster_score(core, spells, combat, extra, scales);
        assert(0 <= percentage_of(b) <= 100);
        assert(0 <= percentage_of(m) <= 100);
        assert(0 <= percentage_of(k) <= 100);
        assert(0 <= percentage_of(s) <= 100);
        assert(0 <= percentage_of(n) <= 100);
        assert(0 <= percentage_of(o) <= 100);
        assert(0 <= percentage_of(c) <= 100);
    }
}

/// A statistic at or beyond the bound it is measured against is no distance from it;
/// one short of it by less than 2^16 is exactly that far.
pub proof fn lemma_distances_vanish_within_bounds(bound: int, v: int)
    ensures
        v >= bound ==> lb_dist(bound, v) == 0,
        v <= bound ==> ub_dist(bound, v) == 0,
        v < bound < v + 65536 ==> lb_dist(bound, v) == bound - v,
        bound < v < bound + 65536 ==> ub_dist(bound, v) == v - bound,
{
}

/// Parsing the display name of a role gives the role back.
pub proof fn lemma_role_text_parses_back(x: CreatureRoleEnum)
    ensures
        all_ascii(role_text(x)),
        role_from_upper(ascii_upper(role_text(x))) == Some(x),
{
    reveal_strlit("Brute");
    reveal_strlit("Magical Striker");
    reveal_strlit("Skill Paragon");
    reveal_strlit("Skirmisher");
    reveal_strlit("Sniper");
    reveal_strlit("Soldier");
    reveal_strlit("SpellCaster");
    reveal_strlit("BRUTE");
    reveal_strlit("MAGICAL STRIKER");
    reveal_strlit("MAGICALSTRIKER");
    reveal_strlit("SKILL PARAGON");
    reveal_strlit("SKILLPARAGON");
    reveal_strlit("SKIRMISHER");
    reveal_strlit("SNIPER");
    reveal_strlit("SOLDIER");
    reveal_strlit("SPELLCASTER");
    reveal_strlit("SPELL CASTER");
    match x {
        CreatureRoleEnum::Brute => {
            assert(ascii_upper("Brute"@) =~= "BRUTE"@);
        },
        CreatureRoleEnum::MagicalStriker => {
            assert(ascii_upper("Magical Striker"@) =~= "MAGICAL STRIKER"@);
            assert("MAGICAL STRIKER"@ != "BRUTE"@);
        },
        CreatureRoleEnum::SkillParagon => {
            assert(ascii_upper("Skill Paragon"@) =~= "SKILL PARAGON"@);
            assert("SKILL PARAGON"@ != "BRUTE"@);
            assert("SKILL PARAGON"@ != "MAGICAL STRIKER"@);
            assert("SKILL PARAGON"@ != "MAGICALSTRIKER"@);
        },
        CreatureRoleEnum::Skirmisher => {
            assert(ascii_upper("Skirmisher"@) =~= "SKIRMISHER"@);
            assert("SKIRMISHER"@ != "BRUTE"@);
            assert("SKIRMISHER"@ != "MAGICAL STRIKER"@);
            assert("SKIRMISHER"@ != "MAGICALSTRIKER"@);
            assert("SKIRMISHER"@ != "SKILL PARAGON"@);
            assert("SKIRMISHER"@ != "SKILLPARAGON"@);
        },
        CreatureRoleEnum::Sniper => {
            assert(ascii_upper("Sniper"@) =~= "SNIPER"@);
            assert("SNIPER"@ != "BRUTE"@);
            assert("SNIPER"@ != "MAGICAL STRIKER"@);
            assert("SNIPER"@ != "MAGICALSTRIKER"@);
            assert("SNIPER"@ != "SKILL PARAGON"@);
            assert("SNIPER"@ != "SKILLPARAGON"@);
            assert("SNIPER"@ != "SKIRMISHER"@);
        },
        CreatureRoleEnum::Soldier => {
            assert(ascii_upper("Soldier"@) =~= "SOLDIER"@);
            assert("SOLDIER"@ != "BRUTE"@);
            assert("SOLDIER"@ != "MAGICAL STRIKER"@);
            assert("SOLDIER"@ != "MAGICALSTRIKER"@);
            assert("SOLDIER"@ != "SKILL PARAGON"@);
            assert("SOLDIER"@ != "SKILLPARAGON"@);
            assert("SOLDIER"@ != "SKIRMISHER"@);
            assert("SOLDIER"@ != "SNIPER"@);
        },
        CreatureRoleEnum::SpellCaster => {
            assert(ascii_upper("SpellCaster"@) =~= "SPELLCASTER"@);
            assert("SPELLCASTER"@ != "BRUTE"@);
            assert("SPELLCASTER"@ != "MAGICAL STRIKER"@);
            assert("SPELLCASTER"@ != "MAGICALSTRIKER"@);
            assert("SPELLCASTER"@ != "SKILL PARAGON"@);
            assert("SPELLCASTER"@ != "SKILLPARAGON"@);
            assert("SPELLCASTER"@ != "SKIRMISHER"@);
            assert("SPELLCASTER"@ != "SNIPER"@);
            assert("SPELLCASTER"@ != "SOLDIER"@);
        },
    }
}

/// A distance `d` of at least one, kept to 16 bits and added to `a`, is one more (in
/// 16 bits) than `d - 1` added to `a`.
proof fn lemma_wrap_step(a: int, d: int)
    requires
        d >= 1,
    ensures
        wrap16(a + wrap16(d)) == wrap16(wrap16(a + wrap16(d - 1)) + 1),
{
    vstd::arithmetic::div_mod::lemma_add_mod_noop_right(a, d, 65536);
    vstd::arithmetic::div_mod::lemma_add_mod_noop_right(a, d - 1, 65536);
    vstd::arithmetic::div_mod::lemma_add_mod_noop_right(1, a + d - 1, 65536);
}

/// The Will save counts in the spellcaster score against the HIGH saving throw of the
/// creature's level: below that mark, one more point of Will lowers the score by one
/// (in 16 bits, the score's width); at or above it, Will no longer changes the score.
pub proof fn lemma_spellcaster_will_counts_up_to_high(
    core: EssentialData,
    spells: CreatureSpellCasterData,
    combat: CreatureCombatData,
    extra: CreatureExtraData,
    scales: CreatureScales,
)
    requires
        combat.saving_throws.will < i64::MAX,
    ensures
        ({
            let raised = CreatureCombatData {
                saving_throws: SavingThrows { will: (combat.saving_throws.will + 1) as i64, ..combat.saving_throws },
                ..combat
            };
            let before = spellcaster_score(core, spells, combat, extra, scales);
            let after = spellcaster_score(core, spells, raised, extra, scales);
            &&& (before is Some <==> after is Some)
            &&& before is Some ==> {
                let high = scales.saving_throw_scales@[core.base_level].high;
                if combat.saving_throws.will < high {
                    before.unwrap() == wrap16(after.unwrap() + 1)
                } else {
                    before == after
                }
            }
        }),
{
    let raised = CreatureCombatData {
        saving_throws: SavingThrows { will: (combat.saving_throws.will + 1) as i64, ..combat.saving_throws },
        ..combat
    };
    let before = spellcaster_score(core, spells, combat, extra, scales);
    if before is Some {
        let lvl = core.base_level;
        let sv = scales.saving_throw_scales@[lvl];
        let hp = scales.hp_scales@[lvl];
        let dc = scales.spell_dc_and_atk_scales@[lvl];
        let ab = scales.ability_scales@[lvl];
        let a = extra.ability_scores;
        let wi = if a.wisdom > a.intelligence { a.wisdom } else { a.intelligence };
        let mental = if wi > a.charisma { wi } else { a.charisma };
        let rest = ub_dist(sv.moderate as int, combat.saving_throws.fortitude + 1)
            + ub_dist(hp.high_lb as int, core.hp + 1)
            + lb_dist(dc.high_dc as int, spells.spell_caster_entry.spell_casting_dc_mod.unwrap() as int)
            + spell_shortfall(spells.spells@.len() as int, ceil_half(lvl as int))
            + lb_dist(ab.high as int, mental as int);
        let w = combat.saving_throws.will as int;
        let after = spellcaster_score(core, spells, raised, extra, scales);
        assert(before.unwrap() == wrap16(rest + lb_dist(sv.high as int, w)));
        assert(after.unwrap() == wrap16(rest + lb_dist(sv.high as int, w + 1)));
        if w < sv.high {
            let d = sv.high - w;
            assert(lb_dist(sv.high as int, w) == wrap16(d));
            assert(lb_dist(sv.high as int, w + 1) == wrap16(d - 1));
            lemma_wrap_step(rest, d);
        }
    }
}

/// Fortitude counts in the spellcaster score above the MODERATE saving throw of the
/// creature's level: one more point of Fortitude raises the score by one (in 16 bits)
/// once Fortitude is at least one below that mark, and changes nothing further below.
pub proof fn lemma_spellcaster_fortitude_counts_from_moderate(
    core: EssentialData,
    spells: CreatureSpellCasterData,
    combat: CreatureCombatData,
    extra: CreatureExtraData,
    scales: CreatureScales,
)
    requires
        combat.saving_throws.fortitude < i64::MAX,
    ensures
        ({
            let raised = CreatureCombatData {
                saving_throws: SavingThrows { fortitude: (combat.saving_throws.fortitude + 1) as i64, ..combat.saving_throws },
                ..combat
            };
            let before = spellcaster_score(core, spells, combat, extra, scales);
            let after = spellcaster_score(core, spells, raised, extra, scales);
            &&& (before is Some <==> after is Some)
            &&& before is Some ==> {
                let moderate = scales.saving_throw_scales@[core.base_level].moderate;
                if combat.saving_throws.fortitude + 1 >= moderate {
                    after.unwrap() == wrap16(before.unwrap() + 1)
                } else {
                    before == after
                }
            }
        }),
{
    let raised = CreatureCombatData {
        saving_throws: SavingThrows { fortitude: (combat.saving_throws.fortitude + 1) as i64, ..combat.saving_throws },
        ..combat
    };
    let before = spellcaster_score(core, spells, combat, extra, scales);
    let after = spellcaster_score(core, spells, raised, extra, scales);
    if before is Some {
    let lvl = core.base_level;
    let sv = scales.saving_throw_scales@[lvl];
    let hp = scales.hp_scales@[lvl];
    let dc = scales.spell_dc_and_atk_scales@[lvl];
    let ab = scales.ability_scales@[lvl];
    let a = extra.ability_scores;
    let wi = if a.wisdom > a.intelligence { a.wisdom } else { a.intelligence };
    let mental = if wi > a.charisma { wi } else { a.charisma };
    let shortfall = spell_shortfall(spells.spells@.len() as int, ceil_half(lvl as int));
        let rest = lb_dist(sv.high as int, combat.saving_throws.will as int)
            + ub_dist(hp.high_lb as int, core.hp + 1)
            + lb_dist(dc.high_dc as int, spells.spell_caster_entry.spell_casting_dc_mod.unwrap() as int)
            + shortfall + lb_dist(ab.high as int, mental as int);
        let f = combat.saving_throws.fortitude as int;
        assert(before.unwrap() == wrap16(rest + ub_dist(sv.moderate as int, f + 1)));
        assert(after.unwrap() == wrap16(rest + ub_dist(sv.moderate as int, f + 2)));
        if f + 1 >= sv.moderate {
            let d = f + 2 - sv.moderate;
            assert(ub_dist(sv.moderate as int, f + 2) == wrap16(d));
            assert(ub_dist(sv.moderate as int, f + 1) == wrap16(d - 1));
            lemma_wrap_step(rest, d);
        }
    }
}

/// Hit points count in the spellcaster score above the lower end of the HIGH hit point
/// range of the creature's level: one more hit point raises the score by one (in 16
/// bits) once the hit points are at least one below that mark, and changes nothing
/// further below.
pub proof fn lemma_spellcaster_hp_counts_from_high(
    core: EssentialData,
    spells: CreatureSpellCasterData,
    combat: CreatureCombatData,
    extra: CreatureExtraData,
    scales: CreatureScales,
)
    requires
        core.hp < i64::MAX,
    ensures
        ({
            let raised = EssentialData { hp: (core.hp + 1) as i64, ..core };
            let before = spellcaster_score(core, spells, combat, extra, scales);
            let after = spellcaster_score(raised, spells, combat, extra, scales);
            &&& (before is Some <==> after is Some)
            &&& before is Some ==> {
                let high_lb = scales.hp_scales@[core.base_level].high_lb;
                if core.hp + 1 >= high_lb {
                    after.unwrap() == wrap16(before.unwrap() + 1)
                } else {
                    before == after
                }
            }
        }),
{
    let raised = EssentialData { hp: (core.hp + 1) as i64, ..core };
    let before = spellcaster_score(core, spells, combat, extra, scales);
    let after = spellcaster_score(raised, spells, combat, extra, scales);
    if before is Some {
    let lvl = core.base_level;
    let sv = scales.saving_throw_scales@[lvl];
    let hp = scales.hp_scales@[lvl];
    let dc = scales.spell_dc_and_atk_scales@[lvl];
    let ab = scales.ability_scales@[lvl];
    let a = extra.ability_scores;
    let wi = if a.wisdom > a.intelligence { a.wisdom } else { a.intelligence };
    let mental = if wi > a.charisma { wi } else { a.charisma };
    let shortfall = spell_shortfall(spells.spells@.len() as int, ceil_half(lvl as int));
        let rest = ub_dist(sv.moderate as int, combat.saving_throws.fortitude + 1)
            + lb_dist(sv.high as int, combat.saving_throws.will as int)
            + lb_dist(dc.high_dc as int, spells.spell_caster_entry.spell_casting_dc_mod.unwrap() as int)
            + shortfall + lb_dist(ab.high as int, mental as int);
        let h = core.hp as int;
        assert(before.unwrap() == wrap16(rest + ub_dist(hp.high_lb as int, h + 1)));
        assert(after.unwrap() == wrap16(rest + ub_dist(hp.high_lb as int, h + 2)));
        if h + 1 >= hp.high_lb {
            let d = h + 2 - hp.high_lb;
            assert(ub_dist(hp.high_lb as int, h + 2) == wrap16(d));
            assert(ub_dist(hp.high_lb as int, h + 1) == wrap16(d - 1));
            lemma_wrap_step(rest, d);
        }
    }
}

/// The spell DC counts in the spellcaster score against the HIGH spell DC of the
/// creature's level: below that mark, one more point of DC lowers the score by one (in
/// 16 bits); at or above it, the DC no longer changes the score. Without a DC there is
/// no score.
pub proof fn lemma_spellcaster_dc_counts_up_to_high(
    core: EssentialData,
    spells: CreatureSpellCasterData,
    combat: CreatureCombatData,
    extra: CreatureExtraData,
    scales: CreatureScales,
    dc_mod: i64,
)
    requires
        dc_mod < i64::MAX,
    ensures
        spellcaster_score(
            core,
            (CreatureSpellCasterData { spell_caster_entry: SpellCasterEntry { spell_casting_dc_mod: None, ..spells.spell_caster_entry }, ..spells }),
            combat,
            extra,
            scales,
        ) is None,
        ({
            let at = CreatureSpellCasterData {
                spell_caster_entry: SpellCasterEntry { spell_casting_dc_mod: Some(dc_mod), ..spells.spell_caster_entry },
                ..spells
            };
            let raised = CreatureSpellCasterData {
                spell_caster_entry: SpellCasterEntry { spell_casting_dc_mod: Some((dc_mod + 1) as i64), ..spells.spell_caster_entry },
                ..spells
            };
            let before = spellcaster_score(core, at, combat, extra, scales);
            let after = spellcaster_score(core, raised, combat, extra, scales);
            &&& (before is Some <==> after is Some)
            &&& before is Some ==> {
                let high = scales.spell_dc_and_atk_scales@[core.base_level].high_dc;
                if dc_mod < high {
                    before.unwrap() == wrap16(after.unwrap() + 1)
                } else {
                    before == after
                }
            }
        }),
{
    let at = CreatureSpellCasterData {
        spell_caster_entry: SpellCasterEntry { spell_casting_dc_mod: Some(dc_mod), ..spells.spell_caster_entry },
        ..spells
    };
    let raised = CreatureSpellCasterData {
        spell_caster_entry: SpellCasterEntry { spell_casting_dc_mod: Some((dc_mod + 1) as i64), ..spells.spell_caster_entry },
        ..spells
    };
    let before = spellcaster_score(core, at, combat, extra, scales);
    let after = spellcaster_score(core, raised, combat, extra, scales);
    if before is Some {
    let lvl = core.base_level;
    let sv = scales.saving_throw_scales@[lvl];
    let hp = scales.hp_scales@[lvl];
    let dc = scales.spell_dc_and_atk_scales@[lvl];
    let ab = scales.ability_scales@[lvl];
    let a = extra.ability_scores;
    let wi = if a.wisdom > a.intelligence { a.wisdom } else { a.intelligence };
    let mental = if wi > a.charisma { wi } else { a.charisma };
    let shortfall = spell_shortfall(spells.spells@.len() as int, ceil_half(lvl as int));
        let rest = ub_dist(sv.moderate as int, combat.saving_throws.fortitude + 1)
            + lb_dist(sv.high as int, combat.saving_throws.will as int)
            + ub_dist(hp.high_lb as int, core.hp + 1)
            + shortfall + lb_dist(ab.high as int, mental as int);
        let x = dc_mod as int;
        assert(before.unwrap() == wrap16(rest + lb_dist(dc.high_dc as int, x)));
        assert(after.unwrap() == wrap16(rest + lb_dist(dc.high_dc as int, x + 1)));
        if x < dc.high_dc {
            let d = dc.high_dc - x;
            assert(lb_dist(dc.high_dc as int, x) == wrap16(d));
            assert(lb_dist(dc.high_dc as int, x + 1) == wrap16(d - 1));
            lemma_wrap_step(rest, d);
        }
    }
}

} // verus!

