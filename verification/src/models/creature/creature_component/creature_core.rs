use crate::models::creature::creature_metadata::type_enum::CreatureTypeEnum;
use crate::models::creature_metadata::alignment_enum::AlignmentEnum;
use crate::models::creature_metadata::rarity_enum::RarityEnum;
use crate::models::creature_metadata::size_enum::SizeEnum;
use crate::services::url_calculator::opt_view;
use crate::text::{decimal, i64_to_string};
use vstd::prelude::*;

verus! {

/// A creature's core data: what it is, what it is derived to be, and its traits.
#[derive(Clone, Debug)]
pub struct CreatureCoreData {
    pub essential: EssentialData,
    pub derived: DerivedData,
    pub traits: Vec<String>,
}

/// The stored columns of a creature.
#[derive(Clone, Debug)]
pub struct EssentialData {
    pub id: i64,
    pub aon_id: Option<i64>,
    pub name: String,
    pub hp: i64,
    pub base_level: i64,
    pub size: SizeEnum,
    pub family: String,
    pub rarity: RarityEnum,
    pub license: String,
    pub remaster: bool,
    pub source: String,
    pub cr_type: CreatureTypeEnum,
    pub alignment: AlignmentEnum,
    pub focus_points: i64,
    pub status: String,
}

/// What is derived for a creature: its archive link, how it attacks (`melee`,
/// `ranged`, `spellcaster`) and how well it fits each role (by role key, 0 to 100).
#[derive(Clone, Debug)]
pub struct DerivedData {
    pub archive_link: Option<String>,
    pub attack_data: Vec<(String, bool)>,
    pub role_data: Vec<(String, i64)>,
}

/// The archive page of a creature.
pub open spec fn archive_link_text(aon_id: i64, t: CreatureTypeEnum) -> Seq<char> {
    match t {
        CreatureTypeEnum::Monster => "https://2e.aonprd.com/MONSTERs.aspx?ID="@ + decimal(aon_id as int),
        CreatureTypeEnum::Npc => "https://2e.aonprd.com/NPCs.aspx?ID="@ + decimal(aon_id as int),
    }
}

impl DerivedData {
    /// Derived data: the archive link when the archive id is known.
    pub fn new(aon_data: Option<(i64, CreatureTypeEnum)>, attack_data: Vec<(String, bool)>, role_data: Vec<(String, i64)>) -> (r: Self)
        ensures
            opt_view(r.archive_link) == (match aon_data {
                Some((id, t)) => Some(archive_link_text(id, t)),
                None => None::<Seq<char>>,
            }),
            r.attack_data == attack_data,
            r.role_data == role_data,
    {
        let archive_link = match aon_data {
            Some((id, t)) => Some(DerivedData::derive_archive_link(id, t)),
            None => None,
        };
        DerivedData { archive_link, attack_data, role_data }
    }

    fn derive_archive_link(aon_id: i64, creature_type_enum: CreatureTypeEnum) -> (r: String)
        ensures
            r@ == archive_link_text(aon_id, creature_type_enum),
    {
        let id = i64_to_string(aon_id);
        let mut s = match creature_type_enum {
            CreatureTypeEnum::Monster => String::from_str("https://2e.aonprd.com/MONSTERs.aspx?ID="),
            CreatureTypeEnum::Npc => String::from_str("https://2e.aonprd.com/NPCs.aspx?ID="),
        };
        s.append(id.as_str());
        s
    }
}

/// Two core data hold the same values (lists compared by their contents).
pub open spec fn same_core(a: CreatureCoreData, b: CreatureCoreData) -> bool {
    &&& a.essential == b.essential
    &&& a.derived.archive_link == b.derived.archive_link
    &&& a.derived.attack_data@ == b.derived.attack_data@
    &&& a.derived.role_data@ == b.derived.role_data@
    &&& a.traits@ == b.traits@
}

fn copy_pairs<V: Copy>(v: &Vec<(String, V)>) -> (r: Vec<(String, V)>)
    ensures
        r@ == v@,
{
    let mut out: Vec<(String, V)> = Vec::new();
    let mut i: usize = 0;
    while i < v.len()
        invariant
            i <= v@.len(),
            out@ == v@.take(i as int),
        decreases v@.len() - i,
    {
        out.push((v[i].0.clone(), v[i].1));
        i = i + 1;
        assert(out@ =~= v@.take(i as int));
    }
    assert(v@.take(v@.len() as int) =~= v@);
    out
}

fn copy_texts(v: &Vec<String>) -> (r: Vec<String>)
    ensures
        r@ == v@,
{
    let mut out: Vec<String> = Vec::new();
    let mut i: usize = 0;
    while i < v.len()
        invariant
            i <= v@.len(),
            out@ == v@.take(i as int),
        decreases v@.len() - i,
    {
        out.push(v[i].clone());
        i = i + 1;
        assert(out@ =~= v@.take(i as int));
    }
    assert(v@.take(v@.len() as int) =~= v@);
    out
}

impl CreatureCoreData {
    /// A copy of the core data with the same values.
    pub fn copy(&self) -> (r: CreatureCoreData)
        ensures
            same_core(r, *self),
    {
        let e = &self.essential;
        CreatureCoreData {
            essential: EssentialData {
                id: e.id,
                aon_id: e.aon_id,
                name: e.name.clone(),
                hp: e.hp,
                base_level: e.base_level,
                size: e.size,
                family: e.family.clone(),
                rarity: e.rarity,
                license: e.license.clone(),
                remaster: e.remaster,
                source: e.source.clone(),
                cr_type: e.cr_type,
                alignment: e.alignment,
                focus_points: e.focus_points,
                status: e.status.clone(),
            },
            derived: DerivedData {
                archive_link: match &self.derived.archive_link {
                    Some(l) => Some(l.clone()),
                    None => None,
                },
                attack_data: copy_pairs(&self.derived.attack_data),
                role_data: copy_pairs(&self.derived.role_data),
            },
            traits: copy_texts(&self.traits),
        }
    }
}

} // verus!
