use crate::models::item::item_metadata::type_enum::WeaponTypeEnum;
use crate::models::item::item_struct::Item;
use crate::models::routers_validator_structs::Dice;
use vstd::prelude::*;

verus! {

/// One damage component of a weapon.
#[derive(Clone, Debug)]
pub struct DamageData {
    pub id: i64,
    pub bonus_dmg: i64,
    pub dmg_type: Option<String>,
    pub dice: Option<Dice>,
}

/// What a weapon adds to its item.
#[derive(Clone, Debug)]
pub struct WeaponData {
    pub id: i64,
    pub to_hit_bonus: Option<i64>,
    pub splash_dmg: Option<i64>,
    pub damage_data: Vec<DamageData>,
    pub weapon_type: WeaponTypeEnum,
    pub n_of_potency_runes: i64,
    pub n_of_striking_runes: i64,
    pub range: Option<i64>,
    pub reload: Option<String>,
    pub property_runes: Vec<String>,
}

/// A weapon: an item with weapon data.
#[derive(Clone, Debug)]
pub struct Weapon {
    pub item_core: Item,
    pub weapon_data: WeaponData,
}

/// Halving, rounded toward zero (as integer division does).
pub open spec fn half_toward_zero(x: int) -> int {
    if x >= 0 { x / 2 } else { -((-x) / 2) }
}

/// The average roll of the dice of a damage component: n × (size + 1) / 2, rounded
/// toward zero.
pub open spec fn dice_avg(d: Option<Dice>) -> int {
    match d {
        Some(x) => half_toward_zero((x.n_of_dices as int) * (x.dice_size as int + 1)),
        None => 0,
    }
}

/// The average damage of the first `n` components.
pub open spec fn avg_dmg_in(dd: Seq<DamageData>, n: int) -> int
    decreases n,
{
    if n <= 0 { 0 } else { avg_dmg_in(dd, n - 1) + dice_avg(dd[n - 1].dice) + dd[n - 1].bonus_dmg }
}

/// The average damage of a weapon, when it has damage data: the sum over its
/// components of the dice average plus the bonus.
pub open spec fn weapon_avg_dmg(w: Weapon) -> Option<int> {
    let dd = w.weapon_data.damage_data@;
    if dd.len() == 0 { None } else { Some(avg_dmg_in(dd, dd.len() as int)) }
}

/// Summing the average damage of the components never leaves `i64`.
pub open spec fn damage_bounded(w: Weapon) -> bool {
    let dd = w.weapon_data.damage_data@;
    forall|k: int| 0 <= k < dd.len() ==> {
        &&& i64::MIN <= #[trigger] avg_dmg_in(dd, k) + dice_avg(dd[k].dice) <= i64::MAX
        &&& i64::MIN <= avg_dmg_in(dd, k + 1) <= i64::MAX
    }
}

fn dice_average(d: Option<Dice>) -> (r: i64)
    ensures
        r == dice_avg(d),
{
    match d {
        Some(x) => {
            let n = x.n_of_dices as i64;
            let s = x.dice_size as i64 + 1;
            proof {
                assert(-0x1_0000_0000 <= n * s <= 0x1_0000_0000) by (nonlinear_arith)
                    requires -32768 <= n <= 32767, -32767 <= s <= 32768;
            }
            n * s / 2
        },
        None => 0,
    }
}

impl Weapon {
    /// The average damage of the weapon; none when it has no damage data.
    pub fn get_avg_dmg(&self) -> (r: Option<i64>)
        requires
            damage_bounded(*self),
        ensures
            match weapon_avg_dmg(*self) {
                Some(v) => r == Some(v as i64) && v == r.unwrap() as int,
                None => r is None,
            },
    {
        let dd = &self.weapon_data.damage_data;
        if dd.len() == 0 {
            return None;
        }
        let mut total: i64 = 0;
        let mut i: usize = 0;
        while i < dd.len()
            invariant
                i <= dd@.len(),
                damage_bounded(*self),
                dd@ == self.weapon_data.damage_data@,
                total == avg_dmg_in(dd@, i as int),
            decreases dd@.len() - i,
        {
            proof {
                assert(i64::MIN <= avg_dmg_in(dd@, i as int) + dice_avg(dd@[i as int].dice) <= i64::MAX);
            }
            let a = dice_average(dd[i].dice);
            total = total + a + dd[i].bonus_dmg;
            i = i + 1;
        }
        Some(total)
    }
}

} // verus!
