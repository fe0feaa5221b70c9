//! A creature's statistics are judged against what the game expects of a creature of
//! its level: one row of each table below per level.
use std::collections::HashMap;
use vstd::hash_map::StringHashMap;
use vstd::prelude::*;

verus! {

broadcast use vstd::std_specs::hash::group_hash_axioms;

/// Expected attribute modifiers at one level.
#[derive(Clone, Debug)]
pub struct AbilityScales {
    pub level: i64,
    pub extreme: Option<i64>,
    pub high: i64,
    pub moderate: i64,
    pub low: i64,
}

/// Expected armor class at one level.
#[derive(Clone, Debug)]
pub struct AcScales {
    pub level: i64,
    pub extreme: i64,
    pub high: i64,
    pub moderate: i64,
    pub low: i64,
}

/// Expected hit points at one level, as ranges.
#[derive(Clone, Debug)]
pub struct HpScales {
    pub level: i64,
    pub high_ub: i64,
    pub high_lb: i64,
    pub moderate_ub: i64,
    pub moderate_lb: i64,
    pub low_ub: i64,
    pub low_lb: i64,
}

/// Expected perception at one level.
#[derive(Clone, Debug)]
pub struct PerceptionScales {
    pub level: i64,
    pub extreme: i64,
    pub high: i64,
    pub moderate: i64,
    pub low: i64,
    pub terrible: i64,
}

/// Expected saving throw modifiers at one level.
#[derive(Clone, Debug)]
pub struct SavingThrowScales {
    pub level: i64,
    pub extreme: i64,
    pub high: i64,
    pub moderate: i64,
    pub low: i64,
    pub terrible: i64,
}

/// Expected skill modifiers at one level.
#[derive(Clone, Debug)]
pub struct SkillScales {
    pub level: i64,
    pub extreme: i64,
    pub high: i64,
    pub moderate: i64,
    pub low_ub: i64,
    pub low_lb: i64,
}

/// Expected spell DCs and spell attack bonuses at one level.
#[derive(Clone, Debug)]
pub struct SpellDcAndAtkScales {
    pub level: i64,
    pub extreme_dc: i64,
    pub extreme_atk_bonus: i64,
    pub high_dc: i64,
    pub high_atk_bonus: i64,
    pub moderate_dc: i64,
    pub moderate_atk_bonus: i64,
}

/// Expected strike attack bonuses at one level.
#[derive(Clone, Debug)]
pub struct StrikeBonusScales {
    pub level: i64,
    pub extreme: i64,
    pub high: i64,
    pub moderate: i64,
    pub low: i64,
}

/// Expected strike damage at one level, written as dice with the average in
/// parentheses, such as `2d8+10 (19)`.
#[derive(Clone, Debug)]
pub struct StrikeDmgScales {
    pub level: i64,
    pub extreme: String,
    pub high: String,
    pub moderate: String,
    pub low: String,
}

/// Expected damage of area abilities at one level: of those usable at will and of
/// those of limited use, written as dice with the average in parentheses.
#[derive(Clone, Debug)]
pub struct AreaDmgScales {
    pub level: i64,
    pub unlimited_use: String,
    pub limited_use: String,
}

/// Expected resistances and weaknesses at one level: their least and greatest values.
#[derive(Clone, Debug)]
pub struct ResWeakScales {
    pub level: i64,
    pub max: i64,
    pub min: i64,
}

/// The level of the items a creature of a given level can safely carry.
#[derive(Clone, Debug)]
pub struct ItemScales {
    pub cr_level: String,
    pub safe_item_level: String,
}

/// The statistic tables, each keyed by level (the item table by the creature level as
/// written).
pub struct CreatureScales {
    pub area_dmg_scales: HashMap<i64, AreaDmgScales>,
    pub item_scales: StringHashMap<ItemScales>,
    pub res_weak_scales: HashMap<i64, ResWeakScales>,
    pub ability_scales: HashMap<i64, AbilityScales>,
    pub ac_scales: HashMap<i64, AcScales>,
    pub hp_scales: HashMap<i64, HpScales>,
    pub perception_scales: HashMap<i64, PerceptionScales>,
    pub saving_throw_scales: HashMap<i64, SavingThrowScales>,
    pub skill_scales: HashMap<i64, SkillScales>,
    pub spell_dc_and_atk_scales: HashMap<i64, SpellDcAndAtkScales>,
    pub strike_bonus_scales: HashMap<i64, StrikeBonusScales>,
    pub strike_dmg_scales: HashMap<i64, StrikeDmgScales>,
}

/// A row of a statistic table: it belongs to one level.
pub trait ScaleRow: Sized {
    spec fn row_level(&self) -> i64;

    fn level_of(&self) -> (r: i64)
        ensures
            r == self.row_level(),
    ;

    fn copy_row(&self) -> (r: Self)
        ensures
            r == *self,
    ;
}

impl ScaleRow for AbilityScales {
    open spec fn row_level(&self) -> i64 {
        self.level
    }

    fn level_of(&self) -> (r: i64) {
        self.level
    }

    fn copy_row(&self) -> (r: Self) {
        AbilityScales { level: self.level, extreme: self.extreme, high: self.high, moderate: self.moderate, low: self.low }
    }
}

impl ScaleRow for AcScales {
    open spec fn row_level(&self) -> i64 {
        self.level
    }

    fn level_of(&self) -> (r: i64) {
        self.level
    }

    fn copy_row(&self) -> (r: Self) {
        AcScales { level: self.level, extreme: self.extreme, high: self.high, moderate: self.moderate, low: self.low }
    }
}

impl ScaleRow for HpScales {
    open spec fn row_level(&self) -> i64 {
        self.level
    }

    fn level_of(&self) -> (r: i64) {
        self.level
    }

    fn copy_row(&self) -> (r: Self) {
        HpScales { level: self.level, high_ub: self.high_ub, high_lb: self.high_lb, moderate_ub: self.moderate_ub, moderate_lb: self.moderate_lb, low_ub: self.low_ub, low_lb: self.low_lb }
    }
}

impl ScaleRow for PerceptionScales {
    open spec fn row_level(&self) -> i64 {
        self.level
    }

    fn level_of(&self) -> (r: i64) {
        self.level
    }

    fn copy_row(&self) -> (r: Self) {
        PerceptionScales { level: self.level, extreme: self.extreme, high: self.high, moderate: self.moderate, low: self.low, terrible: self.terrible }
    }
}

impl ScaleRow for SavingThrowScales {
    open spec fn row_level(&self) -> i64 {
        self.level
    }

    fn level_of(&self) -> (r: i64) {
        self.level
    }

    fn copy_row(&self) -> (r: Self) {
        SavingThrowScales { level: self.level, extreme: self.extreme, high: self.high, moderate: self.moderate, low: self.low, terrible: self.terrible }
    }
}

impl ScaleRow for SkillScales {
    open spec fn row_level(&self) -> i64 {
        self.level
    }

    fn level_of(&self) -> (r: i64) {
        self.level
    }

    fn copy_row(&self) -> (r: Self) {
        SkillScales { level: self.level, extreme: self.extreme, high: self.high, moderate: self.moderate, low_ub: self.low_ub, low_lb: self.low_lb }
    }
}

impl ScaleRow for SpellDcAndAtkScales {
    open spec fn row_level(&self) -> i64 {
        self.level
    }

    fn level_of(&self) -> (r: i64) {
        self.level
    }

    fn copy_row(&self) -> (r: Self) {
        SpellDcAndAtkScales { level: self.level, extreme_dc: self.extreme_dc, extreme_atk_bonus: self.extreme_atk_bonus, high_dc: self.high_dc, high_atk_bonus: self.high_atk_bonus, moderate_dc: self.moderate_dc, moderate_atk_bonus: self.moderate_atk_bonus }
    }
}

impl ScaleRow for StrikeBonusScales {
    open spec fn row_level(&self) -> i64 {
        self.level
    }

    fn level_of(&self) -> (r: i64) {
        self.level
    }

    fn copy_row(&self) -> (r: Self) {
        StrikeBonusScales { level: self.level, extreme: self.extreme, high: self.high, moderate: self.moderate, low: self.low }
    }
}

impl ScaleRow for AreaDmgScales {
    open spec fn row_level(&self) -> i64 {
        self.level
    }

    fn level_of(&self) -> (r: i64) {
        self.level
    }

    fn copy_row(&self) -> (r: Self) {
        AreaDmgScales { level: self.level, unlimited_use: self.unlimited_use.clone(), limited_use: self.limited_use.clone() }
    }
}

impl ScaleRow for ResWeakScales {
    open spec fn row_level(&self) -> i64 {
        self.level
    }

    fn level_of(&self) -> (r: i64) {
        self.level
    }

    fn copy_row(&self) -> (r: Self) {
        ResWeakScales { level: self.level, max: self.max, min: self.min }
    }
}

impl ScaleRow for StrikeDmgScales {
    open spec fn row_level(&self) -> i64 {
        self.level
    }

    fn level_of(&self) -> (r: i64) {
        self.level
    }

    fn copy_row(&self) -> (r: Self) {
        StrikeDmgScales {
            level: self.level,
            extreme: self.extreme.clone(),
            high: self.high.clone(),
            moderate: self.moderate.clone(),
            low: self.low.clone(),
        }
    }
}

/// The rows keyed by their level; of two rows of the same level, the later one is kept.
pub open spec fn rows_by_level<T: ScaleRow>(rows: Seq<T>) -> Map<i64, T>
    decreases rows.len(),
{
    if rows.len() == 0 {
        Map::empty()
    } else {
        rows_by_level(rows.drop_last()).insert(rows.last().row_level(), rows.last())
    }
}

/// Keys the rows of a table by their level.
pub fn index_by_level<T: ScaleRow>(rows: &Vec<T>) -> (r: HashMap<i64, T>)
    ensures
        r@ == rows_by_level(rows@),
{
    let mut m: HashMap<i64, T> = HashMap::new();
    let mut i: usize = 0;
    while i < rows.len()
        invariant
            i <= rows@.len(),
            m@ == rows_by_level(rows@.take(i as int)),
        decreases rows@.len() - i,
    {
        assert(rows@.take(i + 1).drop_last() =~= rows@.take(i as int));
        let row = rows[i].copy_row();
        m.insert(row.level_of(), row);
        i = i + 1;
    }
    assert(rows@.take(rows@.len() as int) =~= rows@);
    m
}

/// The item rows keyed by the creature level they are written for; of two rows of the
/// same level, the later one is kept.
pub open spec fn items_by_level(rows: Seq<ItemScales>) -> Map<Seq<char>, ItemScales>
    decreases rows.len(),
{
    if rows.len() == 0 {
        Map::empty()
    } else {
        items_by_level(rows.drop_last()).insert(rows.last().cr_level@, rows.last())
    }
}

/// Keys the item rows by the creature level they are written for.
pub fn index_items_by_level(rows: &Vec<ItemScales>) -> (r: StringHashMap<ItemScales>)
    ensures
        r@ == items_by_level(rows@),
{
    let mut m: StringHashMap<ItemScales> = StringHashMap::new();
    let mut i: usize = 0;
    while i < rows.len()
        invariant
            i <= rows@.len(),
            m@ == items_by_level(rows@.take(i as int)),
        decreases rows@.len() - i,
    {
        assert(rows@.take(i + 1).drop_last() =~= rows@.take(i as int));
        let row = ItemScales { cr_level: rows[i].cr_level.clone(), safe_item_level: rows[i].safe_item_level.clone() };
        m.insert(row.cr_level.clone(), row);
        i = i + 1;
    }
    assert(rows@.take(rows@.len() as int) =~= rows@);
    m
}

impl CreatureScales {
    /// The tables built from their rows, each keyed by level.
    pub fn from_rows(
        ability: &Vec<AbilityScales>,
        ac: &Vec<AcScales>,
        area_dmg: &Vec<AreaDmgScales>,
        hp: &Vec<HpScales>,
        item: &Vec<ItemScales>,
        perception: &Vec<PerceptionScales>,
        res_weak: &Vec<ResWeakScales>,
        saving_throw: &Vec<SavingThrowScales>,
        skill: &Vec<SkillScales>,
        spell_dc_and_atk: &Vec<SpellDcAndAtkScales>,
        strike_bonus: &Vec<StrikeBonusScales>,
        strike_dmg: &Vec<StrikeDmgScales>,
    ) -> (r: CreatureScales)
        ensures
            r.ability_scales@ == rows_by_level(ability@),
            r.ac_scales@ == rows_by_level(ac@),
            r.area_dmg_scales@ == rows_by_level(area_dmg@),
            r.hp_scales@ == rows_by_level(hp@),
            r.item_scales@ == items_by_level(item@),
            r.res_weak_scales@ == rows_by_level(res_weak@),
            r.perception_scales@ == rows_by_level(perception@),
            r.saving_throw_scales@ == rows_by_level(saving_throw@),
            r.skill_scales@ == rows_by_level(skill@),
            r.spell_dc_and_atk_scales@ == rows_by_level(spell_dc_and_atk@),
            r.strike_bonus_scales@ == rows_by_level(strike_bonus@),
            r.strike_dmg_scales@ == rows_by_level(strike_dmg@),
    {
        CreatureScales {
            ability_scales: index_by_level(ability),
            ac_scales: index_by_level(ac),
            area_dmg_scales: index_by_level(area_dmg),
            hp_scales: index_by_level(hp),
            item_scales: index_items_by_level(item),
            res_weak_scales: index_by_level(res_weak),
            perception_scales: index_by_level(perception),
            saving_throw_scales: index_by_level(saving_throw),
            skill_scales: index_by_level(skill),
            spell_dc_and_atk_scales: index_by_level(spell_dc_and_atk),
            strike_bonus_scales: index_by_level(strike_bonus),
            strike_dmg_scales: index_by_level(strike_dmg),
        }
    }
}

/// After indexing, every level of a row is found, with the last row of that level.
pub proof fn lemma_rows_by_level_finds_last<T: ScaleRow>(rows: Seq<T>, i: int)
    requires
        0 <= i < rows.len(),
        forall|j: int| i < j < rows.len() ==> (#[trigger] rows[j]).row_level() != rows[i].row_level(),
    ensures
        rows_by_level(rows).contains_key(rows[i].row_level()),
        rows_by_level(rows)[rows[i].row_level()] == rows[i],
    decreases rows.len(),
{
    if i < rows.len() - 1 {
        lemma_rows_by_level_finds_last(rows.drop_last(), i);
        assert(rows.last() == rows[rows.len() - 1]);
    }
}

/// After indexing the item rows, every creature level of a row is found, with the last
/// row written for that level.
pub proof fn lemma_items_by_level_finds_last(rows: Seq<ItemScales>, i: int)
    requires
        0 <= i < rows.len(),
        forall|j: int| i < j < rows.len() ==> (#[trigger] rows[j]).cr_level@ != rows[i].cr_level@,
    ensures
        items_by_level(rows).contains_key(rows[i].cr_level@),
        items_by_level(rows)[rows[i].cr_level@] == rows[i],
    decreases rows.len(),
{
    if i < rows.len() - 1 {
        lemma_items_by_level_finds_last(rows.drop_last(), i);
        assert(rows.last() == rows[rows.len() - 1]);
    }
}

} // verus!
