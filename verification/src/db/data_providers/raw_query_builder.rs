//! Builds the SQL text of the catalogue queries: the random draws of the encounter
//! and shop generators, and the paginated, sorted listings with their counts.
use crate::models::bestiary_structs::{BestiaryFilterQuery, CreatureSortEnum, CreatureTableFieldsFilter};
use crate::models::creature::creature_field_filter::{attack_kinds_in_key_order, no_creature_filters, CreatureFieldFilters};
use crate::models::creature::creature_metadata::creature_role::{role_column, CreatureRoleEnum};
use crate::models::creature::creature_metadata::type_enum::{type_text, CreatureTypeEnum};
use crate::models::creature_metadata::alignment_enum::{alignment_text, AlignmentEnum};
use crate::models::creature_metadata::rarity_enum::{rarity_text, RarityEnum};
use crate::models::creature_metadata::size_enum::{size_text, SizeEnum};
use crate::models::creature_sort_enums::OrderEnum;
use crate::models::hazard::hazard_field_filter::{no_hazard_filters, HazardComplexityEnum, HazardFieldFilters};
use crate::models::hazard::hazard_listing_struct::{HazardFilterQuery, HazardSortEnum, HazardTableFieldsFilter};
use crate::models::item::item_field_filter::{no_item_filters, ItemFieldFilters};
use crate::models::item::item_metadata::type_enum::{
    item_association_suffix, item_table_suffix, item_type_text, ItemTypeEnum,
};
use crate::models::item::shop_structs::{ItemSortEnum, ItemTableFieldsFilter, ShopFilterQuery};
use crate::models::shared::game_system_enum::{gs_text, GameSystem};
use crate::models::shared::pf_version_enum::GameSystemVersionEnum;
use crate::services::url_calculator::opt_view;
use crate::text::{bool_text, bool_to_string, concat2, concat3, decimal, i64_to_string, join, seq_join, views};
use vstd::prelude::*;
use vstd::string::*;

verus! {

// ----- Values as text -------------------------------------------------------------

pub open spec fn size_texts(v: Seq<SizeEnum>) -> Seq<Seq<char>> {
    v.map_values(|x: SizeEnum| size_text(x))
}

pub open spec fn rarity_texts(v: Seq<RarityEnum>) -> Seq<Seq<char>> {
    v.map_values(|x: RarityEnum| rarity_text(x))
}

pub open spec fn alignment_texts(v: Seq<AlignmentEnum>) -> Seq<Seq<char>> {
    v.map_values(|x: AlignmentEnum| alignment_text(x))
}

pub open spec fn type_texts(v: Seq<CreatureTypeEnum>) -> Seq<Seq<char>> {
    v.map_values(|x: CreatureTypeEnum| type_text(x))
}

pub open spec fn item_type_texts(v: Seq<ItemTypeEnum>) -> Seq<Seq<char>> {
    v.map_values(|x: ItemTypeEnum| item_type_text(x))
}

pub open spec fn bool_texts(v: Seq<bool>) -> Seq<Seq<char>> {
    v.map_values(|x: bool| bool_text(x))
}

pub open spec fn role_columns(v: Seq<CreatureRoleEnum>) -> Seq<Seq<char>> {
    v.map_values(|x: CreatureRoleEnum| role_column(x))
}

fn size_strings(v: &Vec<SizeEnum>) -> (r: Vec<String>)
    ensures
        views(r@) == size_texts(v@),
{
    let mut out: Vec<String> = Vec::new();
    let mut i: usize = 0;
    while i < v.len()
        invariant
            i <= v@.len(),
            out@.len() == i,
            forall|k: int| 0 <= k < i ==> #[trigger] out@[k]@ == size_text(v@[k]),
        decreases v@.len() - i,
    {
        let s = v[i].to_string();
        out.push(s);
        i = i + 1;
    }
    assert(views(out@) =~= size_texts(v@));
    out
}

fn rarity_strings(v: &Vec<RarityEnum>) -> (r: Vec<String>)
    ensures
        views(r@) == rarity_texts(v@),
{
    let mut out: Vec<String> = Vec::new();
    let mut i: usize = 0;
    while i < v.len()
        invariant
            i <= v@.len(),
            out@.len() == i,
            forall|k: int| 0 <= k < i ==> #[trigger] out@[k]@ == rarity_text(v@[k]),
        decreases v@.len() - i,
    {
        let s = v[i].to_string();
        out.push(s);
        i = i + 1;
    }
    assert(views(out@) =~= rarity_texts(v@));
    out
}

fn alignment_strings(v: &Vec<AlignmentEnum>) -> (r: Vec<String>)
    ensures
        views(r@) == alignment_texts(v@),
{
    let mut out: Vec<String> = Vec::new();
    let mut i: usize = 0;
    while i < v.len()
        invariant
            i <= v@.len(),
            out@.len() == i,
            forall|k: int| 0 <= k < i ==> #[trigger] out@[k]@ == alignment_text(v@[k]),
        decreases v@.len() - i,
    {
        let s = v[i].to_string();
        out.push(s);
        i = i + 1;
    }
    assert(views(out@) =~= alignment_texts(v@));
    out
}

fn type_strings(v: &Vec<CreatureTypeEnum>) -> (r: Vec<String>)
    ensures
        views(r@) == type_texts(v@),
{
    let mut out: Vec<String> = Vec::new();
    let mut i: usize = 0;
    while i < v.len()
        invariant
            i <= v@.len(),
            out@.len() == i,
            forall|k: int| 0 <= k < i ==> #[trigger] out@[k]@ == type_text(v@[k]),
        decreases v@.len() - i,
    {
        let s = v[i].to_string();
        out.push(s);
        i = i + 1;
    }
    assert(views(out@) =~= type_texts(v@));
    out
}

fn item_type_strings(v: &Vec<ItemTypeEnum>) -> (r: Vec<String>)
    ensures
        views(r@) == item_type_texts(v@),
{
    let mut out: Vec<String> = Vec::new();
    let mut i: usize = 0;
    while i < v.len()
        invariant
            i <= v@.len(),
            out@.len() == i,
            forall|k: int| 0 <= k < i ==> #[trigger] out@[k]@ == item_type_text(v@[k]),
        decreases v@.len() - i,
    {
        let s = v[i].to_string();
        out.push(s);
        i = i + 1;
    }
    assert(views(out@) =~= item_type_texts(v@));
    out
}

fn bool_strings(v: &Vec<bool>) -> (r: Vec<String>)
    ensures
        views(r@) == bool_texts(v@),
{
    let mut out: Vec<String> = Vec::new();
    let mut i: usize = 0;
    while i < v.len()
        invariant
            i <= v@.len(),
            out@.len() == i,
            forall|k: int| 0 <= k < i ==> #[trigger] out@[k]@ == bool_text(v@[k]),
        decreases v@.len() - i,
    {
        let s = bool_to_string(v[i]);
        out.push(s);
        i = i + 1;
    }
    assert(views(out@) =~= bool_texts(v@));
    out
}

fn role_column_strings(v: &Vec<CreatureRoleEnum>) -> (r: Vec<String>)
    ensures
        views(r@) == role_columns(v@),
{
    let mut out: Vec<String> = Vec::new();
    let mut i: usize = 0;
    while i < v.len()
        invariant
            i <= v@.len(),
            out@.len() == i,
            forall|k: int| 0 <= k < i ==> #[trigger] out@[k]@ == role_column(v@[k]),
        decreases v@.len() - i,
    {
        let s = v[i].to_db_column();
        out.push(s);
        i = i + 1;
    }
    assert(views(out@) =~= role_columns(v@));
    out
}

// ----- Generic pieces -------------------------------------------------------------

/// The non-empty parts, in order.
pub open spec fn keep_nonempty(parts: Seq<Seq<char>>) -> Seq<Seq<char>>
    decreases parts.len(),
{
    if parts.len() == 0 {
        Seq::empty()
    } else if parts.last().len() == 0 {
        keep_nonempty(parts.drop_last())
    } else {
        keep_nonempty(parts.drop_last()).push(parts.last())
    }
}

/// The non-empty parts joined with `sep`.
fn join_nonempty(parts: &Vec<String>, sep: &str) -> (r: String)
    ensures
        r@ == seq_join(keep_nonempty(views(parts@)), sep@),
{
    let mut kept: Vec<String> = Vec::new();
    let mut i: usize = 0;
    while i < parts.len()
        invariant
            i <= parts@.len(),
            views(kept@) == keep_nonempty(views(parts@.take(i as int))),
        decreases parts@.len() - i,
    {
        let ghost before = views(parts@.take(i as int));
        assert(views(parts@.take(i + 1)).drop_last() =~= before);
        assert(views(parts@.take(i + 1)).last() == parts@[i as int]@);
        if parts[i].unicode_len() > 0 {
            kept.push(parts[i].clone());
            assert(views(kept@) =~= keep_nonempty(before).push(parts@[i as int]@));
        }
        i = i + 1;
    }
    assert(parts@.take(parts@.len() as int) =~= parts@);
    join(&kept, sep)
}

/// The text of `LIMIT`/`OFFSET`: a negative page size means no limit.
pub open spec fn spec_pagination(cursor: i64, page_size: i16) -> Seq<char> {
    if page_size < 0 {
        "LIMIT ALL OFFSET "@ + decimal(cursor as int)
    } else {
        "LIMIT "@ + decimal(page_size as int) + " OFFSET "@ + decimal(cursor as int)
    }
}

/// The pagination clause of a query.
pub fn format_pagination_clause(cursor: i64, page_size: i16) -> (r: String)
    ensures
        r@ == spec_pagination(cursor, page_size),
{
    let c = i64_to_string(cursor);
    if page_size < 0 {
        let mut s = String::from_str("LIMIT ALL OFFSET ");
        s.append(c.as_str());
        s
    } else {
        let p = i64_to_string(page_size as i64);
        let mut s = String::from_str("LIMIT ");
        s.append(p.as_str());
        s.append(" OFFSET ");
        s.append(c.as_str());
        s
    }
}

/// `(column >= lb AND column <= ub)`.
pub open spec fn spec_bounded_check(column: Seq<char>, lb: i64, ub: i64) -> Seq<char> {
    "("@ + column + " >= "@ + decimal(lb as int) + " AND "@ + column + " <= "@ + decimal(ub as int) + ")"@
}

/// An inclusive bounded check on a column.
fn prepare_bounded_check(column: &str, lower_bound: i64, upper_bound: i64) -> (r: String)
    ensures
        r@ == spec_bounded_check(column@, lower_bound, upper_bound),
{
    let lb = i64_to_string(lower_bound);
    let ub = i64_to_string(upper_bound);
    let mut s = String::from_str("(");
    s.append(column);
    s.append(" >= ");
    s.append(lb.as_str());
    s.append(" AND ");
    s.append(column);
    s.append(" <= ");
    s.append(ub.as_str());
    s.append(")");
    s
}

/// The bounded checks of the given columns, in order.
pub open spec fn bounded_checks(columns: Seq<Seq<char>>, lb: i64, ub: i64) -> Seq<Seq<char>> {
    columns.map_values(|c: Seq<char>| spec_bounded_check(c, lb, ub))
}

/// Every non-empty column is within the bounds: the checks joined with `AND`.
pub open spec fn spec_bounded_and_check(columns: Seq<Seq<char>>, lb: i64, ub: i64) -> Seq<char> {
    seq_join(bounded_checks(keep_nonempty(columns), lb, ub), " AND "@)
}

fn prepare_bounded_and_check(column_names: &Vec<String>, lower_bound: i64, upper_bound: i64) -> (r: String)
    ensures
        r@ == spec_bounded_and_check(views(column_names@), lower_bound, upper_bound),
{
    let mut checks: Vec<String> = Vec::new();
    let mut i: usize = 0;
    while i < column_names.len()
        invariant
            i <= column_names@.len(),
            views(checks@) == bounded_checks(keep_nonempty(views(column_names@.take(i as int))), lower_bound, upper_bound),
        decreases column_names@.len() - i,
    {
        let ghost before = views(column_names@.take(i as int));
        assert(views(column_names@.take(i + 1)).drop_last() =~= before);
        assert(views(column_names@.take(i + 1)).last() == column_names@[i as int]@);
        if column_names[i].unicode_len() > 0 {
            let c = prepare_bounded_check(column_names[i].as_str(), lower_bound, upper_bound);
            let ghost old_checks = views(checks@);
            let ghost cv = c@;
            checks.push(c);
            proof {
                let x = column_names@[i as int]@;
                assert(views(checks@) =~= old_checks.push(cv));
                assert(bounded_checks(keep_nonempty(before).push(x), lower_bound, upper_bound)
                    =~= bounded_checks(keep_nonempty(before), lower_bound, upper_bound).push(spec_bounded_check(x, lower_bound, upper_bound)));
            }
        }
        i = i + 1;
    }
    assert(column_names@.take(column_names@.len() as int) =~= column_names@);
    join(&checks, " AND ")
}

/// `column >= min AND column <= max`, with either side left out when its bound is.
pub open spec fn spec_optional_limiters(column: Seq<char>, min: Option<i64>, max: Option<i64>) -> Seq<char> {
    match (min, max) {
        (Some(a), Some(b)) => column + " >= "@ + decimal(a as int) + " AND "@ + column + " <= "@ + decimal(b as int),
        (Some(a), None) => column + " >= "@ + decimal(a as int),
        (None, Some(b)) => column + " <= "@ + decimal(b as int),
        (None, None) => Seq::empty(),
    }
}

fn prepare_bounded_check_with_optional_limiters(column: &str, min: Option<i64>, max: Option<i64>) -> (r: String)
    ensures
        r@ == spec_optional_limiters(column@, min, max),
{
    match (min, max) {
        (Some(a), Some(b)) => {
            let a_s = i64_to_string(a);
            let b_s = i64_to_string(b);
            let mut s = String::from_str(column);
            s.append(" >= ");
            s.append(a_s.as_str());
            s.append(" AND ");
            s.append(column);
            s.append(" <= ");
            s.append(b_s.as_str());
            s
        },
        (Some(a), None) => {
            let a_s = i64_to_string(a);
            let mut s = String::from_str(column);
            s.append(" >= ");
            s.append(a_s.as_str());
            s
        },
        (None, Some(b)) => {
            let b_s = i64_to_string(b);
            let mut s = String::from_str(column);
            s.append(" <= ");
            s.append(b_s.as_str());
            s
        },
        (None, None) => String::new(),
    }
}

/// One value of an `IN` list: itself, or `UPPER('value')` when case-insensitive.
pub open spec fn in_item(v: Seq<char>, case_insensitive: bool) -> Seq<char> {
    if case_insensitive { "UPPER('"@ + v + "')"@ } else { v }
}

pub open spec fn in_items(values: Seq<Seq<char>>, case_insensitive: bool) -> Seq<Seq<char>> {
    values.map_values(|v: Seq<char>| in_item(v, case_insensitive))
}

/// `column IN (v1,v2,...)`, or `UPPER(column) IN (UPPER('v1'),...)`; empty for no values.
pub open spec fn spec_in_statement(column: Seq<char>, values: Seq<Seq<char>>, case_insensitive: bool) -> Seq<char> {
    if values.len() == 0 {
        Seq::empty()
    } else {
        (if case_insensitive { "UPPER("@ + column + ")"@ } else { column }) + " IN ("@
            + seq_join(in_items(values, case_insensitive), ","@) + ")"@
    }
}

fn prepare_in_statement_inner(column_name: &str, column_values: &Vec<String>, case_insensitive: bool) -> (r: String)
    ensures
        r@ == spec_in_statement(column_name@, views(column_values@), case_insensitive),
{
    if column_values.len() == 0 {
        return String::new();
    }
    let mut items: Vec<String> = Vec::new();
    let mut i: usize = 0;
    while i < column_values.len()
        invariant
            i <= column_values@.len(),
            items@.len() == i,
            forall|k: int| 0 <= k < i ==> #[trigger] items@[k]@ == in_item(column_values@[k]@, case_insensitive),
        decreases column_values@.len() - i,
    {
        let item = if case_insensitive {
            let mut s = String::from_str("UPPER('");
            s.append(column_values[i].as_str());
            s.append("')");
            s
        } else {
            String::from_str(column_values[i].as_str())
        };
        items.push(item);
        i = i + 1;
    }
    assert(views(items@) =~= in_items(views(column_values@), case_insensitive));
    let mut s = if case_insensitive {
        let mut h = String::from_str("UPPER(");
        h.append(column_name);
        h.append(")");
        h
    } else {
        String::from_str(column_name)
    };
    s.append(" IN (");
    let joined = join(&items, ",");
    s.append(joined.as_str());
    s.append(")");
    s
}

/// A case-insensitive `IN` statement (for text columns).
fn prepare_case_insensitive_in_statement(column_name: &str, column_values: &Vec<String>) -> (r: String)
    ensures
        r@ == spec_in_statement(column_name@, views(column_values@), true),
{
    prepare_in_statement_inner(column_name, column_values, true)
}

/// A plain `IN` statement (for values written as they are, such as booleans).
fn prepare_in_statement_for_generic_type(column_name: &str, column_values: &Vec<String>) -> (r: String)
    ensures
        r@ == spec_in_statement(column_name@, views(column_values@), false),
{
    prepare_in_statement_inner(column_name, column_values, false)
}

/// The ids linked to any of the given traits, as a sub-query; empty for no traits.
pub open spec fn spec_trait_filter(gs: GameSystem, id_column: Seq<char>, association_table: Seq<char>, values: Seq<Seq<char>>) -> Seq<char> {
    let in_s = spec_in_statement("tt.name"@, values, true);
    if in_s.len() == 0 {
        in_s
    } else {
        "SELECT tcat."@ + id_column + " FROM "@ + gs_text(gs) + "_"@ + association_table
            + " tcat RIGHT JOIN ("@ + "SELECT * FROM "@ + gs_text(gs) + "_trait_table tt WHERE "@ + in_s
            + ") jt ON tcat.trait_id = jt.name"@
    }
}

fn prepare_trait_filter(gs: GameSystem, id_column: &str, association_table_name: &str, column_values: &Vec<String>) -> (r: String)
    ensures
        r@ == spec_trait_filter(gs, id_column@, association_table_name@, views(column_values@)),
{
    let in_string = prepare_case_insensitive_in_statement("tt.name", column_values);
    if in_string.unicode_len() > 0 {
        let mut s = String::from_str("SELECT tcat.");
        s.append(id_column);
        s.append(" FROM ");
        s.append(gs.to_str());
        s.append("_");
        s.append(association_table_name);
        s.append(" tcat RIGHT JOIN (");
        s.append("SELECT * FROM ");
        s.append(gs.to_str());
        s.append("_trait_table tt WHERE ");
        s.append(in_string.as_str());
        s.append(") jt ON tcat.trait_id = jt.name");
        return s;
    }
    in_string
}

fn prepare_item_trait_filter(gs: GameSystem, column_values: &Vec<String>) -> (r: String)
    ensures
        r@ == spec_trait_filter(gs, "item_id"@, "trait_item_association_table"@, views(column_values@)),
{
    prepare_trait_filter(gs, "item_id", "trait_item_association_table", column_values)
}

fn prepare_creature_trait_filter(gs: GameSystem, column_values: &Vec<String>) -> (r: String)
    ensures
        r@ == spec_trait_filter(gs, "creature_id"@, "trait_creature_association_table"@, views(column_values@)),
{
    prepare_trait_filter(gs, "creature_id", "trait_creature_association_table", column_values)
}

fn prepare_hazard_trait_filter(gs: GameSystem, column_values: &Vec<String>) -> (r: String)
    ensures
        r@ == spec_trait_filter(gs, "hazard_id"@, "trait_hazard_association_table"@, views(column_values@)),
{
    prepare_trait_filter(gs, "hazard_id", "trait_hazard_association_table", column_values)
}

/// `id IN (whitelist) AND id NOT IN (blacklist)`, leaving out an empty side.
pub open spec fn spec_trait_filter_statement(whitelist: Seq<char>, blacklist: Seq<char>) -> Seq<char> {
    if whitelist.len() == 0 && blacklist.len() == 0 {
        Seq::empty()
    } else if whitelist.len() == 0 {
        "id NOT IN ("@ + blacklist + ")"@
    } else if blacklist.len() == 0 {
        "id IN ("@ + whitelist + ")"@
    } else {
        "id IN ("@ + whitelist + ") AND id NOT IN ("@ + blacklist + ")"@
    }
}

fn prepare_trait_filter_statement(whitelist: &str, blacklist: &str) -> (r: String)
    ensures
        r@ == spec_trait_filter_statement(whitelist@, blacklist@),
{
    let wl = whitelist.unicode_len();
    let bl = blacklist.unicode_len();
    if wl == 0 && bl == 0 {
        String::new()
    } else if wl == 0 {
        let mut s = String::from_str("id NOT IN (");
        s.append(blacklist);
        s.append(")");
        s
    } else if bl == 0 {
        let mut s = String::from_str("id IN (");
        s.append(whitelist);
        s.append(")");
        s
    } else {
        let mut s = String::from_str("id IN (");
        s.append(whitelist);
        s.append(") AND id NOT IN (");
        s.append(blacklist);
        s.append(")");
        s
    }
}

/// The text with every single quote doubled, so that it can stand inside an SQL
/// string literal.
pub open spec fn spec_escape(s: Seq<char>) -> Seq<char>
    decreases s.len(),
{
    if s.len() == 0 {
        Seq::empty()
    } else {
        spec_escape(s.drop_last()) + (if s.last() == '\'' { "''"@ } else { seq![s.last()] })
    }
}

fn escape_sql_str(s: &str) -> (r: String)
    ensures
        r@ == spec_escape(s@),
{
    proof {
        reveal_strlit("''");
    }
    let n = s.unicode_len();
    let mut out = String::new();
    let mut i: usize = 0;
    while i < n
        invariant
            n == s@.len(),
            i <= n,
            out@ == spec_escape(s@.take(i as int)),
        decreases n - i,
    {
        assert(s@.take(i + 1).drop_last() =~= s@.take(i as int));
        let c = s.get_char(i);
        if c == '\'' {
            out.append("''");
        } else {
            let piece = s.substring_char(i, i + 1);
            assert(piece@ =~= seq![c]);
            out.append(piece);
        }
        i = i + 1;
    }
    assert(s@.take(n as int) =~= s@);
    out
}

/// `ASC` or `DESC`.
pub open spec fn spec_order_direction(o: OrderEnum) -> Seq<char> {
    match o {
        OrderEnum::Ascending => "ASC"@,
        OrderEnum::Descending => "DESC"@,
    }
}

fn order_direction(order_by: OrderEnum) -> (r: &'static str)
    ensures
        r@ == spec_order_direction(order_by),
{
    match order_by {
        OrderEnum::Ascending => "ASC",
        OrderEnum::Descending => "DESC",
    }
}

// ----- Filters of the random draws -----------------------------------------------

/// `remaster` alone, or followed by `AND` and the other filters when there are any.
pub open spec fn spec_remaster_and(remaster: Seq<char>, filters: Seq<char>) -> Seq<char> {
    if filters.len() == 0 {
        remaster
    } else {
        remaster + " AND "@ + filters
    }
}

fn remaster_and(remaster: String, filters: String) -> (r: String)
    ensures
        r@ == spec_remaster_and(remaster@, filters@),
{
    if filters.unicode_len() == 0 {
        remaster
    } else {
        let mut s = remaster;
        s.append(" AND ");
        s.append(filters.as_str());
        s
    }
}

/// The parts of the item filter, before the empty ones are dropped.
pub open spec fn item_filter_parts(f: ItemTableFieldsFilter) -> Seq<Seq<char>> {
    seq![
        spec_in_statement("size"@, size_texts(f.size_filter@), true),
        spec_in_statement("item_type"@, item_type_texts(f.type_filter@), true),
        spec_in_statement("category"@, views(f.category_filter@), true),
        spec_in_statement("rarity"@, rarity_texts(f.rarity_filter@), true),
        spec_in_statement("source"@, views(f.source_filter@), true),
        spec_bounded_check("level"@, f.min_level as i64, f.max_level as i64),
    ]
}

pub open spec fn spec_item_filter_statement(f: ItemTableFieldsFilter) -> Seq<char> {
    spec_remaster_and(
        spec_in_statement("remaster"@, views(f.supported_version@), false),
        seq_join(keep_nonempty(item_filter_parts(f)), " AND "@),
    )
}

fn prepare_item_filter_statement(f: &ItemTableFieldsFilter) -> (r: String)
    ensures
        r@ == spec_item_filter_statement(*f),
{
    let remaster_query = prepare_in_statement_for_generic_type("remaster", &f.supported_version);
    let mut parts: Vec<String> = Vec::new();
    parts.push(prepare_case_insensitive_in_statement("size", &size_strings(&f.size_filter)));
    parts.push(prepare_case_insensitive_in_statement("item_type", &item_type_strings(&f.type_filter)));
    parts.push(prepare_case_insensitive_in_statement("category", &f.category_filter));
    parts.push(prepare_case_insensitive_in_statement("rarity", &rarity_strings(&f.rarity_filter)));
    parts.push(prepare_case_insensitive_in_statement("source", &f.source_filter));
    parts.push(prepare_bounded_check("level", f.min_level as i64, f.max_level as i64));
    assert(views(parts@) =~= item_filter_parts(*f));
    let filters_query = join_nonempty(&parts, " AND ");
    remaster_and(remaster_query, filters_query)
}

/// The parts of the creature filter, before the empty ones are dropped.
pub open spec fn creature_filter_parts(f: CreatureTableFieldsFilter) -> Seq<Seq<char>> {
    seq![
        spec_in_statement("source"@, views(f.source_filter@), true),
        spec_in_statement("family"@, views(f.family_filter@), true),
        spec_in_statement("alignment"@, alignment_texts(f.alignment_filter@), true),
        spec_in_statement("size"@, size_texts(f.size_filter@), true),
        spec_in_statement("rarity"@, rarity_texts(f.rarity_filter@), true),
        spec_in_statement("cr_type"@, type_texts(f.type_filter@), true),
        spec_in_statement("is_spellcaster"@, bool_texts(f.is_spellcaster_filter@), false),
        spec_in_statement("is_ranged"@, bool_texts(f.is_ranged_filter@), false),
        spec_in_statement("is_melee"@, bool_texts(f.is_melee_filter@), false),
        spec_bounded_and_check(role_columns(f.role_filter@), f.role_lower_threshold as i64, f.role_upper_threshold as i64),
    ]
}

pub open spec fn spec_creature_filter_statement(f: CreatureTableFieldsFilter) -> Seq<char> {
    spec_remaster_and(
        spec_in_statement("remaster"@, views(f.supported_version@), false),
        seq_join(keep_nonempty(creature_filter_parts(f)), " AND "@),
    )
}

fn prepare_creature_filter_statement(f: &CreatureTableFieldsFilter) -> (r: String)
    ensures
        r@ == spec_creature_filter_statement(*f),
{
    let remaster_query = prepare_in_statement_for_generic_type("remaster", &f.supported_version);
    let mut parts: Vec<String> = Vec::new();
    parts.push(prepare_case_insensitive_in_statement("source", &f.source_filter));
    parts.push(prepare_case_insensitive_in_statement("family", &f.family_filter));
    parts.push(prepare_case_insensitive_in_statement("alignment", &alignment_strings(&f.alignment_filter)));
    parts.push(prepare_case_insensitive_in_statement("size", &size_strings(&f.size_filter)));
    parts.push(prepare_case_insensitive_in_statement("rarity", &rarity_strings(&f.rarity_filter)));
    parts.push(prepare_case_insensitive_in_statement("cr_type", &type_strings(&f.type_filter)));
    parts.push(prepare_in_statement_for_generic_type("is_spellcaster", &bool_strings(&f.is_spellcaster_filter)));
    parts.push(prepare_in_statement_for_generic_type("is_ranged", &bool_strings(&f.is_ranged_filter)));
    parts.push(prepare_in_statement_for_generic_type("is_melee", &bool_strings(&f.is_melee_filter)));
    parts.push(prepare_bounded_and_check(
        &role_column_strings(&f.role_filter),
        f.role_lower_threshold as i64,
        f.role_upper_threshold as i64,
    ));
    assert(views(parts@) =~= creature_filter_parts(*f));
    let filters_query = join_nonempty(&parts, " AND ");
    remaster_and(remaster_query, filters_query)
}

/// The parts of the hazard filter, before the empty ones are dropped.
pub open spec fn hazard_filter_parts(f: HazardTableFieldsFilter) -> Seq<Seq<char>> {
    seq![
        spec_in_statement("source"@, views(f.source_filter@), true),
        spec_in_statement("size"@, size_texts(f.size_filter@), true),
        spec_in_statement("rarity"@, rarity_texts(f.rarity_filter@), true),
        spec_optional_limiters("ac"@, f.min_ac, f.max_ac),
        spec_optional_limiters("hardness"@, f.min_hardness, f.max_hardness),
        spec_optional_limiters("hp"@, f.min_hp, f.max_hp),
        spec_optional_limiters("fortitude"@, f.min_fortitude, f.max_fortitude),
        spec_optional_limiters("reflex"@, f.min_reflex, f.max_reflex),
        spec_optional_limiters("will"@, f.min_will, f.max_will),
        spec_optional_limiters("stealth"@, f.min_stealth, f.max_stealth),
    ]
}

pub open spec fn spec_hazard_filter_statement(f: HazardTableFieldsFilter) -> Seq<char> {
    spec_remaster_and(
        spec_in_statement("remaster"@, views(f.supported_version@), false),
        seq_join(keep_nonempty(hazard_filter_parts(f)), " AND "@),
    )
}

fn prepare_hazard_filter_statement(f: &HazardTableFieldsFilter) -> (r: String)
    ensures
        r@ == spec_hazard_filter_statement(*f),
{
    let remaster_query = prepare_in_statement_for_generic_type("remaster", &f.supported_version);
    let mut parts: Vec<String> = Vec::new();
    parts.push(prepare_case_insensitive_in_statement("source", &f.source_filter));
    parts.push(prepare_case_insensitive_in_statement("size", &size_strings(&f.size_filter)));
    parts.push(prepare_case_insensitive_in_statement("rarity", &rarity_strings(&f.rarity_filter)));
    parts.push(prepare_bounded_check_with_optional_limiters("ac", f.min_ac, f.max_ac));
    parts.push(prepare_bounded_check_with_optional_limiters("hardness", f.min_hardness, f.max_hardness));
    parts.push(prepare_bounded_check_with_optional_limiters("hp", f.min_hp, f.max_hp));
    parts.push(prepare_bounded_check_with_optional_limiters("fortitude", f.min_fortitude, f.max_fortitude));
    parts.push(prepare_bounded_check_with_optional_limiters("reflex", f.min_reflex, f.max_reflex));
    parts.push(prepare_bounded_check_with_optional_limiters("will", f.min_will, f.max_will));
    parts.push(prepare_bounded_check_with_optional_limiters("stealth", f.min_stealth, f.max_stealth));
    assert(views(parts@) =~= hazard_filter_parts(*f));
    let filters_query = join_nonempty(&parts, " AND ");
    remaster_and(remaster_query, filters_query)
}

// ----- Random draws ---------------------------------------------------------------

/// `AND` followed by the trait statement, or nothing when there is none.
pub open spec fn spec_and_prefixed(t: Seq<char>) -> Seq<char> {
    if t.len() == 0 {
        t
    } else {
        "AND "@ + t
    }
}

fn and_prefixed(t: String) -> (r: String)
    ensures
        r@ == spec_and_prefixed(t@),
{
    if t.unicode_len() == 0 {
        t
    } else {
        let mut s = String::from_str("AND ");
        s.append(t.as_str());
        s
    }
}

/// The column that holds an item's id in the main table of its type.
pub open spec fn item_id_field(t: ItemTypeEnum) -> Seq<char> {
    match t {
        ItemTypeEnum::Consumable | ItemTypeEnum::Equipment => "id"@,
        _ => "base_item_id"@,
    }
}

/// The column of the association table that refers to an item of this type.
pub open spec fn tass_item_id_field(t: ItemTypeEnum) -> Seq<char> {
    match t {
        ItemTypeEnum::Consumable | ItemTypeEnum::Equipment => "item_id"@,
        ItemTypeEnum::Weapon => "weapon_id"@,
        ItemTypeEnum::Armor => "armor_id"@,
        ItemTypeEnum::Shield => "shield_id"@,
    }
}

/// Consumables and equipment share the item table, so they are told apart by type;
/// weapons, armors and shields have tables of their own.
pub open spec fn item_type_condition(t: ItemTypeEnum) -> Seq<char> {
    match t {
        ItemTypeEnum::Consumable | ItemTypeEnum::Equipment => "AND UPPER(item_type) = UPPER('"@ + item_type_text(t) + "')"@,
        _ => Seq::empty(),
    }
}

/// The ids of the items of a type that no creature carries.
pub open spec fn spec_item_type_query(t: ItemTypeEnum, gs: GameSystem) -> Seq<char> {
    "\n        SELECT "@ + item_id_field(t) + " FROM "@ + gs_text(gs) + item_table_suffix(t)
        + " tmain\n        LEFT OUTER JOIN "@ + gs_text(gs) + item_association_suffix(t)
        + " tass ON tmain.id = tass."@ + tass_item_id_field(t)
        + "\n        WHERE tass."@ + tass_item_id_field(t) + " IS NULL "@ + item_type_condition(t)
}

fn prepare_get_id_matching_item_type_query(item_type: &ItemTypeEnum, gs: GameSystem) -> (r: String)
    ensures
        r@ == spec_item_type_query(*item_type, gs),
{
    let (id_field, type_query) = match item_type {
        ItemTypeEnum::Consumable | ItemTypeEnum::Equipment => {
            let mut q = String::from_str("AND UPPER(item_type) = UPPER('");
            q.append(item_type.to_string().as_str());
            q.append("')");
            ("id", q)
        },
        _ => ("base_item_id", String::new()),
    };
    let tass_field = match item_type {
        ItemTypeEnum::Consumable | ItemTypeEnum::Equipment => "item_id",
        ItemTypeEnum::Weapon => "weapon_id",
        ItemTypeEnum::Armor => "armor_id",
        ItemTypeEnum::Shield => "shield_id",
    };
    let main_table = item_type.to_db_main_table_name(gs);
    let association_table = item_type.to_db_association_table_name(gs);
    let mut s = String::from_str("\n        SELECT ");
    s.append(id_field);
    s.append(" FROM ");
    s.append(main_table.as_str());
    s.append(" tmain\n        LEFT OUTER JOIN ");
    s.append(association_table.as_str());
    s.append(" tass ON tmain.id = tass.");
    s.append(tass_field);
    s.append("\n        WHERE tass.");
    s.append(tass_field);
    s.append(" IS NULL ");
    s.append(type_query.as_str());
    s
}

/// The random draw of `n` items of one type that pass the filters.
pub open spec fn spec_item_subquery(
    gs: GameSystem,
    t: ItemTypeEnum,
    n: i64,
    f: ItemTableFieldsFilter,
    whitelist: Seq<Seq<char>>,
    blacklist: Seq<Seq<char>>,
) -> Seq<char> {
    "SELECT id FROM "@ + gs_text(gs) + "_item_table"@ + " WHERE "@ + spec_item_filter_statement(f)
        + "\n         AND id IN ( "@ + spec_item_type_query(t, gs) + " ) "@
        + spec_and_prefixed(spec_trait_filter_statement(
            spec_trait_filter(gs, "item_id"@, "trait_item_association_table"@, whitelist),
            spec_trait_filter(gs, "item_id"@, "trait_item_association_table"@, blacklist),
        ))
        + " ORDER BY RANDOM() LIMIT "@ + decimal(n as int)
}

fn prepare_item_subquery(
    gs: GameSystem,
    item_type: &ItemTypeEnum,
    n_of_item: i64,
    f: &ItemTableFieldsFilter,
    trait_whitelist_filter: &Vec<String>,
    trait_blacklist_filter: &Vec<String>,
) -> (r: String)
    ensures
        r@ == spec_item_subquery(gs, *item_type, n_of_item, *f, views(trait_whitelist_filter@), views(trait_blacklist_filter@)),
{
    let item_type_query = prepare_get_id_matching_item_type_query(item_type, gs);
    let whitelist_query = prepare_item_trait_filter(gs, trait_whitelist_filter);
    let blacklist_query = prepare_item_trait_filter(gs, trait_blacklist_filter);
    let trait_query = and_prefixed(prepare_trait_filter_statement(whitelist_query.as_str(), blacklist_query.as_str()));
    let item_fields_filter_query = prepare_item_filter_statement(f);
    let n = i64_to_string(n_of_item);
    let mut s = String::from_str("SELECT id FROM ");
    s.append(gs.to_str());
    s.append("_item_table");
    s.append(" WHERE ");
    s.append(item_fields_filter_query.as_str());
    s.append("\n         AND id IN ( ");
    s.append(item_type_query.as_str());
    s.append(" ) ");
    s.append(trait_query.as_str());
    s.append(" ORDER BY RANDOM() LIMIT ");
    s.append(n.as_str());
    s
}

/// The items of a shop: for each type, the given number drawn at random among those
/// that pass the filters.
pub open spec fn spec_filtered_get_items(gs: GameSystem, q: ShopFilterQuery) -> Seq<char> {
    let f = q.item_table_fields_filter;
    let w = views(q.trait_whitelist_filter@);
    let b = views(q.trait_blacklist_filter@);
    "SELECT * FROM "@ + gs_text(gs) + "_item_table WHERE status = 'valid' AND id IN ( "@
        + spec_item_subquery(gs, ItemTypeEnum::Equipment, q.n_of_equipment, f, w, b)
        + " ) OR id IN ("@ + spec_item_subquery(gs, ItemTypeEnum::Consumable, q.n_of_consumables, f, w, b)
        + " )\n        OR id IN ("@ + spec_item_subquery(gs, ItemTypeEnum::Weapon, q.n_of_weapons, f, w, b)
        + " ) OR id IN ("@ + spec_item_subquery(gs, ItemTypeEnum::Armor, q.n_of_armors, f, w, b)
        + " ) OR id IN ("@ + spec_item_subquery(gs, ItemTypeEnum::Shield, q.n_of_shields, f, w, b)
        + " )"@
}

pub fn prepare_filtered_get_items(gs: GameSystem, shop_filter_query: &ShopFilterQuery) -> (r: String)
    ensures
        r@ == spec_filtered_get_items(gs, *shop_filter_query),
{
    let q = shop_filter_query;
    let f = &q.item_table_fields_filter;
    let w = &q.trait_whitelist_filter;
    let b = &q.trait_blacklist_filter;
    let equipment_query = prepare_item_subquery(gs, &ItemTypeEnum::Equipment, q.n_of_equipment, f, w, b);
    let consumable_query = prepare_item_subquery(gs, &ItemTypeEnum::Consumable, q.n_of_consumables, f, w, b);
    let weapon_query = prepare_item_subquery(gs, &ItemTypeEnum::Weapon, q.n_of_weapons, f, w, b);
    let armor_query = prepare_item_subquery(gs, &ItemTypeEnum::Armor, q.n_of_armors, f, w, b);
    let shield_query = prepare_item_subquery(gs, &ItemTypeEnum::Shield, q.n_of_shields, f, w, b);
    let mut s = String::from_str("SELECT * FROM ");
    s.append(gs.to_str());
    s.append("_item_table WHERE status = 'valid' AND id IN ( ");
    s.append(equipment_query.as_str());
    s.append(" ) OR id IN (");
    s.append(consumable_query.as_str());
    s.append(" )\n        OR id IN (");
    s.append(weapon_query.as_str());
    s.append(" ) OR id IN (");
    s.append(armor_query.as_str());
    s.append(" ) OR id IN (");
    s.append(shield_query.as_str());
    s.append(" )");
    s
}

/// The creatures that pass the filters, ranked at random within each level: one of
/// each level, and twenty more drawn at random among the rest.
pub open spec fn spec_filtered_get_creatures_core(gs: GameSystem, q: BestiaryFilterQuery) -> Seq<char> {
    let trait_query = spec_and_prefixed(spec_trait_filter_statement(
        spec_trait_filter(gs, "creature_id"@, "trait_creature_association_table"@, views(q.trait_whitelist_filter@)),
        spec_trait_filter(gs, "creature_id"@, "trait_creature_association_table"@, views(q.trait_blacklist_filter@)),
    ));
    let where_query = "SELECT id FROM "@ + gs_text(gs) + "_creature_core"@ + " WHERE status = 'valid' AND "@
        + spec_creature_filter_statement(q.creature_table_fields_filter) + " "@ + trait_query;
    "\n    WITH CreatureRankedByLevel AS (\n        SELECT *, ROW_NUMBER() OVER (PARTITION BY level ORDER BY RANDOM()) AS rn\n        FROM "@
        + gs_text(gs)
        + "_creature_core cc WHERE status = 'valid' AND cc.id IN ("@ + where_query
        + ")\n    )\n    SELECT * FROM CreatureRankedByLevel WHERE id IN (\n        SELECT id FROM CreatureRankedByLevel WHERE rn>1 ORDER BY RANDOM() LIMIT 20\n    )\n    UNION ALL\n    SELECT * FROM CreatureRankedByLevel WHERE rn=1\n    "@
}

pub fn prepare_filtered_get_creatures_core(gs: GameSystem, bestiary_filter_query: &BestiaryFilterQuery) -> (r: String)
    ensures
        r@ == spec_filtered_get_creatures_core(gs, *bestiary_filter_query),
{
    let q = bestiary_filter_query;
    let whitelist = prepare_creature_trait_filter(gs, &q.trait_whitelist_filter);
    let blacklist = prepare_creature_trait_filter(gs, &q.trait_blacklist_filter);
    let trait_query = and_prefixed(prepare_trait_filter_statement(whitelist.as_str(), blacklist.as_str()));
    let fields_query = prepare_creature_filter_statement(&q.creature_table_fields_filter);
    let mut where_query = String::from_str("SELECT id FROM ");
    where_query.append(gs.to_str());
    where_query.append("_creature_core");
    where_query.append(" WHERE status = 'valid' AND ");
    where_query.append(fields_query.as_str());
    where_query.append(" ");
    where_query.append(trait_query.as_str());
    let mut s = String::from_str("\n    WITH CreatureRankedByLevel AS (\n        SELECT *, ROW_NUMBER() OVER (PARTITION BY level ORDER BY RANDOM()) AS rn\n        FROM ");
    s.append(gs.to_str());
    s.append("_creature_core cc WHERE status = 'valid' AND cc.id IN (");
    s.append(where_query.as_str());
    s.append(")\n    )\n    SELECT * FROM CreatureRankedByLevel WHERE id IN (\n        SELECT id FROM CreatureRankedByLevel WHERE rn>1 ORDER BY RANDOM() LIMIT 20\n    )\n    UNION ALL\n    SELECT * FROM CreatureRankedByLevel WHERE rn=1\n    ");
    s
}

/// The hazards that pass the filters, ranked at random within each level: one of
/// each level, and twenty more drawn at random among the rest.
pub open spec fn spec_filtered_get_hazards(gs: GameSystem, q: HazardFilterQuery) -> Seq<char> {
    let trait_query = spec_and_prefixed(spec_trait_filter_statement(
        spec_trait_filter(gs, "hazard_id"@, "trait_hazard_association_table"@, views(q.trait_whitelist_filter@)),
        spec_trait_filter(gs, "hazard_id"@, "trait_hazard_association_table"@, views(q.trait_blacklist_filter@)),
    ));
    let where_query = "SELECT id FROM "@ + gs_text(gs) + "_hazard_table"@ + " WHERE "@
        + spec_hazard_filter_statement(q.hazard_table_fields_filter) + " "@ + trait_query;
    "\n    WITH HazardRankedByLevel AS (\n        SELECT *, ROW_NUMBER() OVER (PARTITION BY level ORDER BY RANDOM()) AS rn\n        FROM "@
        + gs_text(gs)
        + "_hazard_table hz WHERE hz.id IN ("@ + where_query
        + ")\n    )\n    SELECT * FROM HazardRankedByLevel WHERE id IN (\n        SELECT id FROM HazardRankedByLevel WHERE rn>1 ORDER BY RANDOM() LIMIT 20\n    )\n    UNION ALL\n    SELECT * FROM HazardRankedByLevel WHERE rn=1\n    "@
}

pub fn prepare_filtered_get_hazards(gs: GameSystem, bestiary_filter_query: &HazardFilterQuery) -> (r: String)
    ensures
        r@ == spec_filtered_get_hazards(gs, *bestiary_filter_query),
{
    let q = bestiary_filter_query;
    let whitelist = prepare_hazard_trait_filter(gs, &q.trait_whitelist_filter);
    let blacklist = prepare_hazard_trait_filter(gs, &q.trait_blacklist_filter);
    let trait_query = and_prefixed(prepare_trait_filter_statement(whitelist.as_str(), blacklist.as_str()));
    let fields_query = prepare_hazard_filter_statement(&q.hazard_table_fields_filter);
    let mut where_query = String::from_str("SELECT id FROM ");
    where_query.append(gs.to_str());
    where_query.append("_hazard_table");
    where_query.append(" WHERE ");
    where_query.append(fields_query.as_str());
    where_query.append(" ");
    where_query.append(trait_query.as_str());
    let mut s = String::from_str("\n    WITH HazardRankedByLevel AS (\n        SELECT *, ROW_NUMBER() OVER (PARTITION BY level ORDER BY RANDOM()) AS rn\n        FROM ");
    s.append(gs.to_str());
    s.append("_hazard_table hz WHERE hz.id IN (");
    s.append(where_query.as_str());
    s.append(")\n    )\n    SELECT * FROM HazardRankedByLevel WHERE id IN (\n        SELECT id FROM HazardRankedByLevel WHERE rn>1 ORDER BY RANDOM() LIMIT 20\n    )\n    UNION ALL\n    SELECT * FROM HazardRankedByLevel WHERE rn=1\n    ");
    s
}

// ----- Conditions of the listings -------------------------------------------------

/// The views of an optional list of strings.
pub open spec fn opt_views(o: Option<Vec<String>>) -> Option<Seq<Seq<char>>> {
    match o {
        Some(v) => Some(views(v@)),
        None => None,
    }
}

/// `pre`, the escaped text and `post`, for a text that is given.
pub open spec fn escaped_piece(o: Option<Seq<char>>, pre: Seq<char>, post: Seq<char>) -> Seq<Seq<char>> {
    match o {
        Some(v) => seq![pre + spec_escape(v) + post],
        None => Seq::empty(),
    }
}

fn push_escaped(conds: &mut Vec<String>, o: &Option<String>, pre: &str, post: &str)
    ensures
        views(final(conds)@) == views(old(conds)@) + escaped_piece(opt_view(*o), pre@, post@),
{
    match o {
        Some(v) => {
            let mut c = String::from_str(pre);
            let e = escape_sql_str(v.as_str());
            c.append(e.as_str());
            c.append(post);
            let ghost cv = c@;
            let ghost before = views(conds@);
            conds.push(c);
            assert(views(conds@) =~= before + seq![cv]);
        },
        None => {
            assert(views(conds@) =~= views(conds@) + Seq::<Seq<char>>::empty());
        },
    }
}

/// The case-insensitive `IN` statement of the given values, unless there is none.
pub open spec fn in_piece(column: Seq<char>, o: Option<Seq<Seq<char>>>) -> Seq<Seq<char>> {
    match o {
        Some(v) => {
            let st = spec_in_statement(column, v, true);
            if st.len() == 0 { Seq::empty() } else { seq![st] }
        },
        None => Seq::empty(),
    }
}

fn push_in(conds: &mut Vec<String>, column: &str, o: Option<Vec<String>>)
    ensures
        views(final(conds)@) == views(old(conds)@) + in_piece(column@, opt_views(o)),
{
    match o {
        Some(v) => {
            let st = prepare_case_insensitive_in_statement(column, &v);
            if st.unicode_len() > 0 {
                let ghost cv = st@;
                let ghost before = views(conds@);
                conds.push(st);
                assert(views(conds@) =~= before + seq![cv]);
            } else {
                assert(views(conds@) =~= views(conds@) + Seq::<Seq<char>>::empty());
            }
        },
        None => {
            assert(views(conds@) =~= views(conds@) + Seq::<Seq<char>>::empty());
        },
    }
}

/// Each value escaped and put between `pre` and `post`.
pub open spec fn wrapped(values: Seq<Seq<char>>, pre: Seq<char>, post: Seq<char>) -> Seq<Seq<char>> {
    values.map_values(|v: Seq<char>| pre + spec_escape(v) + post)
}

/// `head`, the wrapped values joined with `OR`, and `tail`, for a list that is given and
/// not empty.
pub open spec fn or_group_piece(
    o: Option<Seq<Seq<char>>>,
    head: Seq<char>,
    pre: Seq<char>,
    post: Seq<char>,
    tail: Seq<char>,
) -> Seq<Seq<char>> {
    match o {
        Some(v) => if v.len() == 0 {
            Seq::empty()
        } else {
            seq![head + seq_join(wrapped(v, pre, post), " OR "@) + tail]
        },
        None => Seq::empty(),
    }
}

fn push_or_group(conds: &mut Vec<String>, o: &Option<Vec<String>>, head: &str, pre: &str, post: &str, tail: &str)
    ensures
        views(final(conds)@) == views(old(conds)@) + or_group_piece(opt_views(*o), head@, pre@, post@, tail@),
{
    match o {
        Some(v) => {
            if v.len() == 0 {
                assert(views(conds@) =~= views(conds@) + Seq::<Seq<char>>::empty());
                return;
            }
            let mut parts: Vec<String> = Vec::new();
            let mut i: usize = 0;
            while i < v.len()
                invariant
                    i <= v@.len(),
                    parts@.len() == i,
                    forall|k: int| 0 <= k < i ==> #[trigger] parts@[k]@ == pre@ + spec_escape(v@[k]@) + post@,
                decreases v@.len() - i,
            {
                let mut c = String::from_str(pre);
                let e = escape_sql_str(v[i].as_str());
                c.append(e.as_str());
                c.append(post);
                parts.push(c);
                i = i + 1;
            }
            assert(views(parts@) =~= wrapped(views(v@), pre@, post@));
            let joined = join(&parts, " OR ");
            let mut c = String::from_str(head);
            c.append(joined.as_str());
            c.append(tail);
            let ghost cv = c@;
            let ghost before = views(conds@);
            conds.push(c);
            assert(views(conds@) =~= before + seq![cv]);
        },
        None => {
            assert(views(conds@) =~= views(conds@) + Seq::<Seq<char>>::empty());
        },
    }
}

/// `pre`, the bound and `post`, for a bound that is given.
pub open spec fn bound_piece(o: Option<i64>, pre: Seq<char>, post: Seq<char>) -> Seq<Seq<char>> {
    match o {
        Some(v) => seq![pre + decimal(v as int) + post],
        None => Seq::empty(),
    }
}

fn push_bound(conds: &mut Vec<String>, o: Option<i64>, pre: &str, post: &str)
    ensures
        views(final(conds)@) == views(old(conds)@) + bound_piece(o, pre@, post@),
{
    match o {
        Some(v) => {
            let mut c = String::from_str(pre);
            let d = i64_to_string(v);
            c.append(d.as_str());
            c.append(post);
            let ghost cv = c@;
            let ghost before = views(conds@);
            conds.push(c);
            assert(views(conds@) =~= before + seq![cv]);
        },
        None => {
            assert(views(conds@) =~= views(conds@) + Seq::<Seq<char>>::empty());
        },
    }
}

/// `pre`, the bound's text and `post`, for a bound that is given.
pub open spec fn text_bound_piece(o: Option<Seq<char>>, pre: Seq<char>, post: Seq<char>) -> Seq<Seq<char>> {
    match o {
        Some(v) => seq![pre + v + post],
        None => Seq::empty(),
    }
}

fn push_text_bound(conds: &mut Vec<String>, o: &Option<String>, pre: &str, post: &str)
    ensures
        views(final(conds)@) == views(old(conds)@) + text_bound_piece(opt_view(*o), pre@, post@),
{
    match o {
        Some(v) => {
            let mut c = String::from_str(pre);
            c.append(v.as_str());
            c.append(post);
            let ghost cv = c@;
            let ghost before = views(conds@);
            conds.push(c);
            assert(views(conds@) =~= before + seq![cv]);
        },
        None => {
            assert(views(conds@) =~= views(conds@) + Seq::<Seq<char>>::empty());
        },
    }
}

/// The condition on the edition: none when either edition is accepted.
pub open spec fn version_piece(o: Option<GameSystemVersionEnum>) -> Seq<Seq<char>> {
    match o {
        Some(GameSystemVersionEnum::Legacy) => seq!["remaster = false"@],
        Some(GameSystemVersionEnum::Remaster) => seq!["remaster = true"@],
        _ => Seq::empty(),
    }
}

fn push_version(conds: &mut Vec<String>, o: Option<GameSystemVersionEnum>)
    ensures
        views(final(conds)@) == views(old(conds)@) + version_piece(o),
{
    let v = match o {
        Some(x) => x,
        None => GameSystemVersionEnum::Any,
    };
    let ghost before = views(conds@);
    match v {
        GameSystemVersionEnum::Legacy => {
            conds.push(String::from_str("remaster = false"));
            assert(views(conds@) =~= before + seq!["remaster = false"@]);
        },
        GameSystemVersionEnum::Remaster => {
            conds.push(String::from_str("remaster = true"));
            assert(views(conds@) =~= before + seq!["remaster = true"@]);
        },
        GameSystemVersionEnum::Any => {
            assert(views(conds@) =~= before + Seq::<Seq<char>>::empty());
        },
    }
}

/// The conditions joined with `AND`.
fn and_all(conds: &Vec<String>) -> (r: String)
    ensures
        r@ == seq_join(views(conds@), " AND "@),
{
    join(conds, " AND ")
}

// ----- Creature listing -----------------------------------------------------------

pub open spec fn opt_rarity_texts(o: Option<Vec<RarityEnum>>) -> Option<Seq<Seq<char>>> {
    match o {
        Some(v) => Some(rarity_texts(v@)),
        None => None,
    }
}

fn opt_rarity_strings(o: &Option<Vec<RarityEnum>>) -> (r: Option<Vec<String>>)
    ensures
        opt_views(r) == opt_rarity_texts(*o),
{
    match o {
        Some(v) => Some(rarity_strings(v)),
        None => None,
    }
}

pub open spec fn opt_size_texts(o: Option<Vec<SizeEnum>>) -> Option<Seq<Seq<char>>> {
    match o {
        Some(v) => Some(size_texts(v@)),
        None => None,
    }
}

fn opt_size_strings(o: &Option<Vec<SizeEnum>>) -> (r: Option<Vec<String>>)
    ensures
        opt_views(r) == opt_size_texts(*o),
{
    match o {
        Some(v) => Some(size_strings(v)),
        None => None,
    }
}

pub open spec fn opt_alignment_texts(o: Option<Vec<AlignmentEnum>>) -> Option<Seq<Seq<char>>> {
    match o {
        Some(v) => Some(alignment_texts(v@)),
        None => None,
    }
}

fn opt_alignment_strings(o: &Option<Vec<AlignmentEnum>>) -> (r: Option<Vec<String>>)
    ensures
        opt_views(r) == opt_alignment_texts(*o),
{
    match o {
        Some(v) => Some(alignment_strings(v)),
        None => None,
    }
}

pub open spec fn opt_type_texts(o: Option<Vec<CreatureTypeEnum>>) -> Option<Seq<Seq<char>>> {
    match o {
        Some(v) => Some(type_texts(v@)),
        None => None,
    }
}

fn opt_type_strings(o: &Option<Vec<CreatureTypeEnum>>) -> (r: Option<Vec<String>>)
    ensures
        opt_views(r) == opt_type_texts(*o),
{
    match o {
        Some(v) => Some(type_strings(v)),
        None => None,
    }
}

pub open spec fn opt_item_type_texts(o: Option<Vec<ItemTypeEnum>>) -> Option<Seq<Seq<char>>> {
    match o {
        Some(v) => Some(item_type_texts(v@)),
        None => None,
    }
}

fn opt_item_type_strings(o: &Option<Vec<ItemTypeEnum>>) -> (r: Option<Vec<String>>)
    ensures
        opt_views(r) == opt_item_type_texts(*o),
{
    match o {
        Some(v) => Some(item_type_strings(v)),
        None => None,
    }
}

/// The column of an attack kind, if it is one of the three known kinds.
pub open spec fn attack_column(a: Seq<char>) -> Option<Seq<char>> {
    if a == "melee"@ {
        Some("is_melee"@)
    } else if a == "ranged"@ {
        Some("is_ranged"@)
    } else if a == "spellcaster"@ {
        Some("is_spellcaster"@)
    } else {
        None
    }
}

/// One condition for each attack kind that is known and asked for, in order.
pub open spec fn attack_conditions(v: Seq<(String, Option<bool>)>) -> Seq<Seq<char>>
    decreases v.len(),
{
    if v.len() == 0 {
        Seq::empty()
    } else {
        let rest = attack_conditions(v.drop_last());
        let p = v.last();
        match (p.1, attack_column(p.0@)) {
            (Some(has), Some(col)) => rest.push(col + " = "@ + bool_text(has)),
            _ => rest,
        }
    }
}

pub open spec fn attacks_piece(o: Option<Vec<(String, Option<bool>)>>) -> Seq<Seq<char>> {
    match o {
        Some(v) => attack_conditions(v@),
        None => Seq::empty(),
    }
}

fn attack_column_of(a: &String) -> (r: Option<&'static str>)
    ensures
        match (r, attack_column(a@)) {
            (Some(x), Some(y)) => x@ == y,
            (None, None) => true,
            _ => false,
        },
{
    if a.eq(&String::from_str("melee")) {
        Some("is_melee")
    } else if a.eq(&String::from_str("ranged")) {
        Some("is_ranged")
    } else if a.eq(&String::from_str("spellcaster")) {
        Some("is_spellcaster")
    } else {
        None
    }
}

fn push_attacks(conds: &mut Vec<String>, o: &Option<Vec<(String, Option<bool>)>>)
    ensures
        views(final(conds)@) == views(old(conds)@) + attacks_piece(*o),
{
    match o {
        Some(v) => {
            let ghost before = views(conds@);
            let mut i: usize = 0;
            assert(views(conds@) =~= before + attack_conditions(v@.take(0)));
            while i < v.len()
                invariant
                    i <= v@.len(),
                    views(conds@) == before + attack_conditions(v@.take(i as int)),
                decreases v@.len() - i,
            {
                assert(v@.take(i + 1).drop_last() =~= v@.take(i as int));
                assert(v@.take(i + 1).last() == v@[i as int]);
                let ghost mid = views(conds@);
                match v[i].1 {
                    Some(has) => {
                        match attack_column_of(&v[i].0) {
                            Some(col) => {
                                let mut c = String::from_str(col);
                                c.append(" = ");
                                let b = bool_to_string(has);
                                c.append(b.as_str());
                                let ghost cv = c@;
                                conds.push(c);
                                assert(views(conds@) =~= mid.push(cv));
                                assert(before + attack_conditions(v@.take(i + 1))
                                    =~= (before + attack_conditions(v@.take(i as int))).push(cv));
                            },
                            None => {},
                        }
                    },
                    None => {},
                }
                i = i + 1;
            }
            assert(v@.take(v@.len() as int) =~= v@);
        },
        None => {
            assert(views(conds@) =~= views(conds@) + Seq::<Seq<char>>::empty());
        },
    }
}

/// Each role's column compared with the threshold.
pub open spec fn role_thresholds(v: Seq<CreatureRoleEnum>, t: i64) -> Seq<Seq<char>> {
    v.map_values(|r: CreatureRoleEnum| role_column(r) + " >= "@ + decimal(t as int))
}

/// At least one of the given roles reaches the threshold (zero when none is given).
pub open spec fn role_piece(o: Option<Vec<CreatureRoleEnum>>, threshold: Option<i64>) -> Seq<Seq<char>> {
    let t: i64 = match threshold {
        Some(t) => t,
        None => 0,
    };
    match o {
        Some(v) => if v.len() == 0 {
            Seq::empty()
        } else {
            seq!["("@ + seq_join(role_thresholds(v@, t), " OR "@) + ")"@]
        },
        None => Seq::empty(),
    }
}

fn push_roles(conds: &mut Vec<String>, o: &Option<Vec<CreatureRoleEnum>>, threshold: Option<i64>)
    ensures
        views(final(conds)@) == views(old(conds)@) + role_piece(*o, threshold),
{
    let t: i64 = match threshold {
        Some(t) => t,
        None => 0,
    };
    match o {
        Some(v) => {
            if v.len() == 0 {
                assert(views(conds@) =~= views(conds@) + Seq::<Seq<char>>::empty());
                return;
            }
            let ts = i64_to_string(t);
            let mut parts: Vec<String> = Vec::new();
            let mut i: usize = 0;
            while i < v.len()
                invariant
                    i <= v@.len(),
                    ts@ == decimal(t as int),
                    parts@.len() == i,
                    forall|k: int| 0 <= k < i ==> #[trigger] parts@[k]@ == role_column(v@[k]) + " >= "@ + decimal(t as int),
                decreases v@.len() - i,
            {
                let mut c = v[i].to_db_column();
                c.append(" >= ");
                c.append(ts.as_str());
                parts.push(c);
                i = i + 1;
            }
            assert(views(parts@) =~= role_thresholds(v@, t));
            let joined = join(&parts, " OR ");
            let mut c = String::from_str("(");
            c.append(joined.as_str());
            c.append(")");
            let ghost cv = c@;
            let ghost before = views(conds@);
            conds.push(c);
            assert(views(conds@) =~= before + seq![cv]);
        },
        None => {
            assert(views(conds@) =~= views(conds@) + Seq::<Seq<char>>::empty());
        },
    }
}

/// The conditions of the creature listing, in order.
pub open spec fn creature_listing_conditions(gs: GameSystem, f: CreatureFieldFilters) -> Seq<Seq<char>> {
    seq!["status = 'valid'"@]
        + escaped_piece(opt_view(f.name_filter), "name ILIKE '%"@, "%'"@)
        + in_piece("source"@, opt_views(f.source_filter))
        + or_group_piece(opt_views(f.family_filter), "("@, "family ILIKE '%"@, "%'"@, ")"@)
        + in_piece("rarity"@, opt_rarity_texts(f.rarity_filter))
        + in_piece("size"@, opt_size_texts(f.size_filter))
        + in_piece("alignment"@, opt_alignment_texts(f.alignment_filter))
        + in_piece("cr_type"@, opt_type_texts(f.type_filter))
        + bound_piece(f.min_hp_filter, "hp >= "@, ""@)
        + bound_piece(f.max_hp_filter, "hp <= "@, ""@)
        + bound_piece(f.min_level_filter, "level >= "@, ""@)
        + bound_piece(f.max_level_filter, "level <= "@, ""@)
        + attacks_piece(f.attack_data_filter)
        + role_piece(f.role_filter, f.role_threshold)
        + version_piece(f.game_system_version)
        + or_group_piece(
            opt_views(f.trait_whitelist_filter),
            "id IN (SELECT creature_id FROM "@ + gs_text(gs) + "_trait_creature_association_table WHERE "@,
            "UPPER(trait_id) LIKE UPPER('%"@,
            "%')"@,
            ")"@,
        )
        + or_group_piece(
            opt_views(f.trait_blacklist_filter),
            "id NOT IN (SELECT creature_id FROM "@ + gs_text(gs) + "_trait_creature_association_table WHERE "@,
            "UPPER(trait_id) = UPPER('"@,
            "')"@,
            ")"@,
        )
}

/// The `WHERE` clause shared by a page of the creature listing and its count.
pub open spec fn spec_creature_listing_where(gs: GameSystem, f: CreatureFieldFilters) -> Seq<char> {
    seq_join(creature_listing_conditions(gs, f), " AND "@)
}

fn prepare_creature_listing_where(gs: GameSystem, filters: &CreatureFieldFilters) -> (r: String)
    ensures
        r@ == spec_creature_listing_where(gs, *filters),
{
    let f = filters;
    let mut conds: Vec<String> = Vec::new();
    conds.push(String::from_str("status = 'valid'"));
    assert(views(conds@) =~= seq!["status = 'valid'"@]);
    push_escaped(&mut conds, &f.name_filter, "name ILIKE '%", "%'");
    push_in(&mut conds, "source", f.source_filter.clone());
    push_or_group(&mut conds, &f.family_filter, "(", "family ILIKE '%", "%'", ")");
    push_in(&mut conds, "rarity", opt_rarity_strings(&f.rarity_filter));
    push_in(&mut conds, "size", opt_size_strings(&f.size_filter));
    push_in(&mut conds, "alignment", opt_alignment_strings(&f.alignment_filter));
    push_in(&mut conds, "cr_type", opt_type_strings(&f.type_filter));
    push_bound(&mut conds, f.min_hp_filter, "hp >= ", "");
    push_bound(&mut conds, f.max_hp_filter, "hp <= ", "");
    push_bound(&mut conds, f.min_level_filter, "level >= ", "");
    push_bound(&mut conds, f.max_level_filter, "level <= ", "");
    push_attacks(&mut conds, &f.attack_data_filter);
    push_roles(&mut conds, &f.role_filter, f.role_threshold);
    push_version(&mut conds, f.game_system_version);
    let wl_head = concat3("id IN (SELECT creature_id FROM ", gs.to_str(), "_trait_creature_association_table WHERE ");
    push_or_group(&mut conds, &f.trait_whitelist_filter, wl_head.as_str(), "UPPER(trait_id) LIKE UPPER('%", "%')", ")");
    let bl_head = concat3("id NOT IN (SELECT creature_id FROM ", gs.to_str(), "_trait_creature_association_table WHERE ");
    push_or_group(&mut conds, &f.trait_blacklist_filter, bl_head.as_str(), "UPPER(trait_id) = UPPER('", "')", ")");
    and_all(&conds)
}

/// The sort key of the creature listing, in the given direction.
pub open spec fn spec_creature_listing_order(gs: GameSystem, sort_by: CreatureSortEnum, order_by: OrderEnum) -> Seq<char> {
    let dir = spec_order_direction(order_by);
    match sort_by {
        CreatureSortEnum::Id => "id "@ + dir,
        CreatureSortEnum::Name => "name "@ + dir,
        CreatureSortEnum::Level => "level "@ + dir,
        CreatureSortEnum::Trait => "(SELECT STRING_AGG(trait_id, ', ' ORDER BY trait_id) FROM "@ + gs_text(gs)
            + "_trait_creature_association_table WHERE creature_id = id) "@ + dir + " NULLS LAST"@,
        CreatureSortEnum::Size => "size "@ + dir,
        CreatureSortEnum::Type => "cr_type "@ + dir,
        CreatureSortEnum::Hp => "hp "@ + dir,
        CreatureSortEnum::Rarity => "rarity "@ + dir,
        CreatureSortEnum::Family => "family "@ + dir,
        CreatureSortEnum::Alignment => "alignment "@ + dir,
        CreatureSortEnum::Attacks => "is_melee "@ + dir + ", is_ranged "@ + dir + ", is_spellcaster "@ + dir,
        CreatureSortEnum::Roles => "GREATEST(brute_percentage, magical_striker_percentage, skill_paragon_percentage, skirmisher_percentage, sniper_percentage, soldier_percentage, spellcaster_percentage) "@ + dir,
    }
}

fn prepare_creature_listing_order(gs: GameSystem, sort_by: CreatureSortEnum, order_by: OrderEnum) -> (r: String)
    ensures
        r@ == spec_creature_listing_order(gs, sort_by, order_by),
{
    let dir = order_direction(order_by);
    match sort_by {
        CreatureSortEnum::Id => concat2("id ", dir),
        CreatureSortEnum::Name => concat2("name ", dir),
        CreatureSortEnum::Level => concat2("level ", dir),
        CreatureSortEnum::Trait => {
            let mut s = String::from_str("(SELECT STRING_AGG(trait_id, ', ' ORDER BY trait_id) FROM ");
            s.append(gs.to_str());
            s.append("_trait_creature_association_table WHERE creature_id = id) ");
            s.append(dir);
            s.append(" NULLS LAST");
            s
        },
        CreatureSortEnum::Size => concat2("size ", dir),
        CreatureSortEnum::Type => concat2("cr_type ", dir),
        CreatureSortEnum::Hp => concat2("hp ", dir),
        CreatureSortEnum::Rarity => concat2("rarity ", dir),
        CreatureSortEnum::Family => concat2("family ", dir),
        CreatureSortEnum::Alignment => concat2("alignment ", dir),
        CreatureSortEnum::Attacks => {
            let mut s = String::from_str("is_melee ");
            s.append(dir);
            s.append(", is_ranged ");
            s.append(dir);
            s.append(", is_spellcaster ");
            s.append(dir);
            s
        },
        CreatureSortEnum::Roles => concat2(
            "GREATEST(brute_percentage, magical_striker_percentage, skill_paragon_percentage, skirmisher_percentage, sniper_percentage, soldier_percentage, spellcaster_percentage) ",
            dir,
        ),
    }
}

/// One page of the creature listing.
pub open spec fn spec_paginated_creatures_listing(
    gs: GameSystem,
    f: CreatureFieldFilters,
    sort_by: CreatureSortEnum,
    order_by: OrderEnum,
    cursor: u32,
    page_size: i16,
) -> Seq<char> {
    "SELECT * FROM "@ + gs_text(gs) + "_creature_core WHERE "@ + spec_creature_listing_where(gs, f)
        + " ORDER BY "@ + spec_creature_listing_order(gs, sort_by, order_by) + " "@
        + spec_pagination(cursor as i64, page_size)
}

pub fn prepare_paginated_get_creatures_listing(
    gs: GameSystem,
    filters: &CreatureFieldFilters,
    sort_by: CreatureSortEnum,
    order_by: OrderEnum,
    cursor: u32,
    page_size: i16,
) -> (r: String)
    requires
        attack_kinds_in_key_order(*filters),
    ensures
        r@ == spec_paginated_creatures_listing(gs, *filters, sort_by, order_by, cursor, page_size),
{
    let where_clause = prepare_creature_listing_where(gs, filters);
    let order_clause = prepare_creature_listing_order(gs, sort_by, order_by);
    let pagination = format_pagination_clause(cursor as i64, page_size);
    let mut s = String::from_str("SELECT * FROM ");
    s.append(gs.to_str());
    s.append("_creature_core WHERE ");
    s.append(where_clause.as_str());
    s.append(" ORDER BY ");
    s.append(order_clause.as_str());
    s.append(" ");
    s.append(pagination.as_str());
    s
}

/// The number of creatures in the listing.
pub open spec fn spec_count_creatures_listing(gs: GameSystem, f: CreatureFieldFilters) -> Seq<char> {
    "SELECT COUNT(*) FROM "@ + gs_text(gs) + "_creature_core WHERE "@ + spec_creature_listing_where(gs, f)
}

pub fn prepare_count_creatures_listing(gs: GameSystem, filters: &CreatureFieldFilters) -> (r: String)
    requires
        attack_kinds_in_key_order(*filters),
    ensures
        r@ == spec_count_creatures_listing(gs, *filters),
{
    let where_clause = prepare_creature_listing_where(gs, filters);
    let mut s = String::from_str("SELECT COUNT(*) FROM ");
    s.append(gs.to_str());
    s.append("_creature_core WHERE ");
    s.append(where_clause.as_str());
    s
}

// ----- Hazard listing -------------------------------------------------------------

/// The condition on complexity: none when either kind is accepted.
pub open spec fn complexity_piece(o: Option<HazardComplexityEnum>) -> Seq<Seq<char>> {
    match o {
        Some(HazardComplexityEnum::Simple) => seq!["is_complex = false"@],
        Some(HazardComplexityEnum::Complex) => seq!["is_complex = true"@],
        _ => Seq::empty(),
    }
}

fn push_complexity(conds: &mut Vec<String>, o: Option<HazardComplexityEnum>)
    ensures
        views(final(conds)@) == views(old(conds)@) + complexity_piece(o),
{
    let c = match o {
        Some(x) => x,
        None => HazardComplexityEnum::Any,
    };
    let ghost before = views(conds@);
    match c {
        HazardComplexityEnum::Simple => {
            conds.push(String::from_str("is_complex = false"));
            assert(views(conds@) =~= before + seq!["is_complex = false"@]);
        },
        HazardComplexityEnum::Complex => {
            conds.push(String::from_str("is_complex = true"));
            assert(views(conds@) =~= before + seq!["is_complex = true"@]);
        },
        HazardComplexityEnum::Any => {
            assert(views(conds@) =~= before + Seq::<Seq<char>>::empty());
        },
    }
}

/// The conditions of the hazard listing, in order.
pub open spec fn hazard_listing_conditions(gs: GameSystem, f: HazardFieldFilters) -> Seq<Seq<char>> {
    escaped_piece(opt_view(f.name_filter), "name ILIKE '%"@, "%'"@)
        + in_piece("source"@, opt_views(f.source_filter))
        + in_piece("rarity"@, opt_rarity_texts(f.rarity_filter))
        + in_piece("size"@, opt_size_texts(f.size_filter))
        + complexity_piece(f.complexity_filter)
        + bound_piece(f.min_ac_filter, "ac >= "@, ""@)
        + bound_piece(f.max_ac_filter, "ac <= "@, ""@)
        + bound_piece(f.min_hardness_filter, "hardness >= "@, ""@)
        + bound_piece(f.max_hardness_filter, "hardness <= "@, ""@)
        + bound_piece(f.min_hp_filter, "hp >= "@, ""@)
        + bound_piece(f.max_hp_filter, "hp <= "@, ""@)
        + bound_piece(f.min_level_filter, "level >= "@, ""@)
        + bound_piece(f.max_level_filter, "level <= "@, ""@)
        + bound_piece(f.min_stealth_filter, "stealth >= "@, ""@)
        + bound_piece(f.max_stealth_filter, "stealth <= "@, ""@)
        + bound_piece(f.min_will_filter, "(will IS NULL OR will >= "@, ")"@)
        + bound_piece(f.max_will_filter, "(will IS NULL OR will <= "@, ")"@)
        + bound_piece(f.min_reflex_filter, "(reflex IS NULL OR reflex >= "@, ")"@)
        + bound_piece(f.max_reflex_filter, "(reflex IS NULL OR reflex <= "@, ")"@)
        + bound_piece(f.min_fortitude_filter, "(fortitude IS NULL OR fortitude >= "@, ")"@)
        + bound_piece(f.max_fortitude_filter, "(fortitude IS NULL OR fortitude <= "@, ")"@)
        + version_piece(f.game_system_version)
        + or_group_piece(
            opt_views(f.trait_whitelist_filter),
            "id IN (SELECT hazard_id FROM "@ + gs_text(gs) + "_trait_hazard_association_table WHERE "@,
            "UPPER(trait_id) LIKE UPPER('%"@,
            "%')"@,
            ")"@,
        )
        + or_group_piece(
            opt_views(f.trait_blacklist_filter),
            "id NOT IN (SELECT hazard_id FROM "@ + gs_text(gs) + "_trait_hazard_association_table WHERE "@,
            "UPPER(trait_id) = UPPER('"@,
            "')"@,
            ")"@,
        )
}

/// The `WHERE` clause shared by a page of the hazard listing and its count: `TRUE`
/// when nothing is filtered.
pub open spec fn spec_hazard_listing_where(gs: GameSystem, f: HazardFieldFilters) -> Seq<char> {
    let c = hazard_listing_conditions(gs, f);
    if c.len() == 0 {
        "TRUE"@
    } else {
        seq_join(c, " AND "@)
    }
}

fn prepare_hazard_listing_where(gs: GameSystem, filters: &HazardFieldFilters) -> (r: String)
    ensures
        r@ == spec_hazard_listing_where(gs, *filters),
{
    let f = filters;
    let mut conds: Vec<String> = Vec::new();
    assert(views(conds@) =~= Seq::<Seq<char>>::empty());
    push_escaped(&mut conds, &f.name_filter, "name ILIKE '%", "%'");
    assert(views(conds@) =~= escaped_piece(opt_view(f.name_filter), "name ILIKE '%"@, "%'"@));
    push_in(&mut conds, "source", f.source_filter.clone());
    push_in(&mut conds, "rarity", opt_rarity_strings(&f.rarity_filter));
    push_in(&mut conds, "size", opt_size_strings(&f.size_filter));
    push_complexity(&mut conds, f.complexity_filter);
    push_bound(&mut conds, f.min_ac_filter, "ac >= ", "");
    push_bound(&mut conds, f.max_ac_filter, "ac <= ", "");
    push_bound(&mut conds, f.min_hardness_filter, "hardness >= ", "");
    push_bound(&mut conds, f.max_hardness_filter, "hardness <= ", "");
    push_bound(&mut conds, f.min_hp_filter, "hp >= ", "");
    push_bound(&mut conds, f.max_hp_filter, "hp <= ", "");
    push_bound(&mut conds, f.min_level_filter, "level >= ", "");
    push_bound(&mut conds, f.max_level_filter, "level <= ", "");
    push_bound(&mut conds, f.min_stealth_filter, "stealth >= ", "");
    push_bound(&mut conds, f.max_stealth_filter, "stealth <= ", "");
    push_bound(&mut conds, f.min_will_filter, "(will IS NULL OR will >= ", ")");
    push_bound(&mut conds, f.max_will_filter, "(will IS NULL OR will <= ", ")");
    push_bound(&mut conds, f.min_reflex_filter, "(reflex IS NULL OR reflex >= ", ")");
    push_bound(&mut conds, f.max_reflex_filter, "(reflex IS NULL OR reflex <= ", ")");
    push_bound(&mut conds, f.min_fortitude_filter, "(fortitude IS NULL OR fortitude >= ", ")");
    push_bound(&mut conds, f.max_fortitude_filter, "(fortitude IS NULL OR fortitude <= ", ")");
    push_version(&mut conds, f.game_system_version);
    let wl_head = concat3("id IN (SELECT hazard_id FROM ", gs.to_str(), "_trait_hazard_association_table WHERE ");
    push_or_group(&mut conds, &f.trait_whitelist_filter, wl_head.as_str(), "UPPER(trait_id) LIKE UPPER('%", "%')", ")");
    let bl_head = concat3("id NOT IN (SELECT hazard_id FROM ", gs.to_str(), "_trait_hazard_association_table WHERE ");
    push_or_group(&mut conds, &f.trait_blacklist_filter, bl_head.as_str(), "UPPER(trait_id) = UPPER('", "')", ")");
    if conds.len() == 0 {
        String::from_str("TRUE")
    } else {
        and_all(&conds)
    }
}

/// The sort key of the hazard listing, in the given direction.
pub open spec fn spec_hazard_listing_order(gs: GameSystem, sort_by: HazardSortEnum, order_by: OrderEnum) -> Seq<char> {
    let dir = spec_order_direction(order_by);
    match sort_by {
        HazardSortEnum::Id => "id "@ + dir,
        HazardSortEnum::Name => "name "@ + dir,
        HazardSortEnum::Ac => "ac "@ + dir,
        HazardSortEnum::Hardness => "hardness "@ + dir,
        HazardSortEnum::Hp => "hp "@ + dir,
        HazardSortEnum::Complexity => "is_complex "@ + dir,
        HazardSortEnum::Level => "level "@ + dir,
        HazardSortEnum::Trait => "(SELECT STRING_AGG(trait_id, ', ' ORDER BY trait_id) FROM "@ + gs_text(gs)
            + "_trait_hazard_association_table WHERE hazard_id = id) "@ + dir + " NULLS LAST"@,
        HazardSortEnum::Rarity => "rarity "@ + dir,
        HazardSortEnum::Size => "size "@ + dir,
        HazardSortEnum::Source => "source "@ + dir,
        HazardSortEnum::Fortitude => "fortitude "@ + dir + " NULLS LAST"@,
        HazardSortEnum::Reflex => "reflex "@ + dir + " NULLS LAST"@,
        HazardSortEnum::Will => "will "@ + dir + " NULLS LAST"@,
        HazardSortEnum::Stealth => "stealth "@ + dir,
    }
}

fn prepare_hazard_listing_order(gs: GameSystem, sort_by: HazardSortEnum, order_by: OrderEnum) -> (r: String)
    ensures
        r@ == spec_hazard_listing_order(gs, sort_by, order_by),
{
    let dir = order_direction(order_by);
    match sort_by {
        HazardSortEnum::Id => concat2("id ", dir),
        HazardSortEnum::Name => concat2("name ", dir),
        HazardSortEnum::Ac => concat2("ac ", dir),
        HazardSortEnum::Hardness => concat2("hardness ", dir),
        HazardSortEnum::Hp => concat2("hp ", dir),
        HazardSortEnum::Complexity => concat2("is_complex ", dir),
        HazardSortEnum::Level => concat2("level ", dir),
        HazardSortEnum::Trait => {
            let mut s = String::from_str("(SELECT STRING_AGG(trait_id, ', ' ORDER BY trait_id) FROM ");
            s.append(gs.to_str());
            s.append("_trait_hazard_association_table WHERE hazard_id = id) ");
            s.append(dir);
            s.append(" NULLS LAST");
            s
        },
        HazardSortEnum::Rarity => concat2("rarity ", dir),
        HazardSortEnum::Size => concat2("size ", dir),
        HazardSortEnum::Source => concat2("source ", dir),
        HazardSortEnum::Fortitude => concat3("fortitude ", dir, " NULLS LAST"),
        HazardSortEnum::Reflex => concat3("reflex ", dir, " NULLS LAST"),
        HazardSortEnum::Will => concat3("will ", dir, " NULLS LAST"),
        HazardSortEnum::Stealth => concat2("stealth ", dir),
    }
}

/// One page of the hazard listing.
pub open spec fn spec_paginated_hazards_listing(
    gs: GameSystem,
    f: HazardFieldFilters,
    sort_by: HazardSortEnum,
    order_by: OrderEnum,
    cursor: u32,
    page_size: i16,
) -> Seq<char> {
    "SELECT * FROM "@ + gs_text(gs) + "_hazard_table WHERE "@ + spec_hazard_listing_where(gs, f)
        + " ORDER BY "@ + spec_hazard_listing_order(gs, sort_by, order_by) + " "@
        + spec_pagination(cursor as i64, page_size)
}

pub fn prepare_paginated_get_hazards_listing(
    gs: GameSystem,
    filters: &HazardFieldFilters,
    sort_by: HazardSortEnum,
    order_by: OrderEnum,
    cursor: u32,
    page_size: i16,
) -> (r: String)
    ensures
        r@ == spec_paginated_hazards_listing(gs, *filters, sort_by, order_by, cursor, page_size),
{
    let where_clause = prepare_hazard_listing_where(gs, filters);
    let order_clause = prepare_hazard_listing_order(gs, sort_by, order_by);
    let pagination = format_pagination_clause(cursor as i64, page_size);
    let mut s = String::from_str("SELECT * FROM ");
    s.append(gs.to_str());
    s.append("_hazard_table WHERE ");
    s.append(where_clause.as_str());
    s.append(" ORDER BY ");
    s.append(order_clause.as_str());
    s.append(" ");
    s.append(pagination.as_str());
    s
}

/// The number of hazards in the listing.
pub open spec fn spec_count_hazards_listing(gs: GameSystem, f: HazardFieldFilters) -> Seq<char> {
    "SELECT COUNT(*) FROM "@ + gs_text(gs) + "_hazard_table WHERE "@ + spec_hazard_listing_where(gs, f)
}

pub fn prepare_count_hazards_listing(gs: GameSystem, filters: &HazardFieldFilters) -> (r: String)
    ensures
        r@ == spec_count_hazards_listing(gs, *filters),
{
    let where_clause = prepare_hazard_listing_where(gs, filters);
    let mut s = String::from_str("SELECT COUNT(*) FROM ");
    s.append(gs.to_str());
    s.append("_hazard_table WHERE ");
    s.append(where_clause.as_str());
    s
}

// ----- Item listing ---------------------------------------------------------------

/// The conditions of the item listing, in order.
pub open spec fn item_listing_conditions(gs: GameSystem, f: ItemFieldFilters) -> Seq<Seq<char>> {
    seq!["is_derived = false"@, "status = 'valid'"@]
        + escaped_piece(opt_view(f.name_filter), "name ILIKE '%"@, "%'"@)
        + or_group_piece(opt_views(f.category_filter), "("@, "COALESCE(category, '') ILIKE '%"@, "%'"@, ")"@)
        + or_group_piece(opt_views(f.source_filter), "("@, "source ILIKE '%"@, "%'"@, ")"@)
        + in_piece("rarity"@, opt_rarity_texts(f.rarity_filter))
        + in_piece("size"@, opt_size_texts(f.size_filter))
        + in_piece("item_type"@, opt_item_type_texts(f.type_filter))
        + bound_piece(f.min_hp_filter, "hp >= "@, ""@)
        + bound_piece(f.max_hp_filter, "hp <= "@, ""@)
        + bound_piece(f.min_level_filter, "level >= "@, ""@)
        + bound_piece(f.max_level_filter, "level <= "@, ""@)
        + bound_piece(f.min_price_filter, "price >= "@, ""@)
        + bound_piece(f.max_price_filter, "price <= "@, ""@)
        + bound_piece(f.min_hardness_filter, "hardness >= "@, ""@)
        + bound_piece(f.max_hardness_filter, "hardness <= "@, ""@)
        + text_bound_piece(opt_view(f.min_bulk_filter), "bulk >= "@, ""@)
        + text_bound_piece(opt_view(f.max_bulk_filter), "bulk <= "@, ""@)
        + bound_piece(f.min_n_of_uses_filter, "(number_of_uses IS NOT NULL AND number_of_uses >= "@, ")"@)
        + bound_piece(f.max_n_of_uses_filter, "(number_of_uses IS NULL OR number_of_uses <= "@, ")"@)
        + version_piece(f.game_system_version)
        + or_group_piece(
            opt_views(f.trait_whitelist_filter),
            "id IN (SELECT item_id FROM "@ + gs_text(gs) + "_trait_item_association_table WHERE "@,
            "UPPER(trait_id) LIKE UPPER('%"@,
            "%')"@,
            ")"@,
        )
        + or_group_piece(
            opt_views(f.trait_blacklist_filter),
            "id NOT IN (SELECT item_id FROM "@ + gs_text(gs) + "_trait_item_association_table WHERE "@,
            "UPPER(trait_id) = UPPER('"@,
            "')"@,
            ")"@,
        )
}

/// The `WHERE` clause shared by a page of the item listing and its count.
pub open spec fn spec_item_listing_where(gs: GameSystem, f: ItemFieldFilters) -> Seq<char> {
    seq_join(item_listing_conditions(gs, f), " AND "@)
}

fn prepare_item_listing_where(gs: GameSystem, filters: &ItemFieldFilters) -> (r: String)
    ensures
        r@ == spec_item_listing_where(gs, *filters),
{
    let f = filters;
    let mut conds: Vec<String> = Vec::new();
    conds.push(String::from_str("is_derived = false"));
    conds.push(String::from_str("status = 'valid'"));
    assert(views(conds@) =~= seq!["is_derived = false"@, "status = 'valid'"@]);
    push_escaped(&mut conds, &f.name_filter, "name ILIKE '%", "%'");
    push_or_group(&mut conds, &f.category_filter, "(", "COALESCE(category, '') ILIKE '%", "%'", ")");
    push_or_group(&mut conds, &f.source_filter, "(", "source ILIKE '%", "%'", ")");
    push_in(&mut conds, "rarity", opt_rarity_strings(&f.rarity_filter));
    push_in(&mut conds, "size", opt_size_strings(&f.size_filter));
    push_in(&mut conds, "item_type", opt_item_type_strings(&f.type_filter));
    push_bound(&mut conds, f.min_hp_filter, "hp >= ", "");
    push_bound(&mut conds, f.max_hp_filter, "hp <= ", "");
    push_bound(&mut conds, f.min_level_filter, "level >= ", "");
    push_bound(&mut conds, f.max_level_filter, "level <= ", "");
    push_bound(&mut conds, f.min_price_filter, "price >= ", "");
    push_bound(&mut conds, f.max_price_filter, "price <= ", "");
    push_bound(&mut conds, f.min_hardness_filter, "hardness >= ", "");
    push_bound(&mut conds, f.max_hardness_filter, "hardness <= ", "");
    push_text_bound(&mut conds, &f.min_bulk_filter, "bulk >= ", "");
    push_text_bound(&mut conds, &f.max_bulk_filter, "bulk <= ", "");
    push_bound(&mut conds, f.min_n_of_uses_filter, "(number_of_uses IS NOT NULL AND number_of_uses >= ", ")");
    push_bound(&mut conds, f.max_n_of_uses_filter, "(number_of_uses IS NULL OR number_of_uses <= ", ")");
    push_version(&mut conds, f.game_system_version);
    let wl_head = concat3("id IN (SELECT item_id FROM ", gs.to_str(), "_trait_item_association_table WHERE ");
    push_or_group(&mut conds, &f.trait_whitelist_filter, wl_head.as_str(), "UPPER(trait_id) LIKE UPPER('%", "%')", ")");
    let bl_head = concat3("id NOT IN (SELECT item_id FROM ", gs.to_str(), "_trait_item_association_table WHERE ");
    push_or_group(&mut conds, &f.trait_blacklist_filter, bl_head.as_str(), "UPPER(trait_id) = UPPER('", "')", ")");
    and_all(&conds)
}

/// The sort key of the item listing, in the given direction.
pub open spec fn spec_item_listing_order(gs: GameSystem, sort_by: ItemSortEnum, order_by: OrderEnum) -> Seq<char> {
    let dir = spec_order_direction(order_by);
    match sort_by {
        ItemSortEnum::Id => "id "@ + dir,
        ItemSortEnum::Name => "name "@ + dir,
        ItemSortEnum::Level => "level "@ + dir,
        ItemSortEnum::Trait => "(SELECT STRING_AGG(trait_id, ', ' ORDER BY trait_id) FROM "@ + gs_text(gs)
            + "_trait_item_association_table WHERE item_id = id) "@ + dir + " NULLS LAST"@,
        ItemSortEnum::Type => "item_type "@ + dir,
        ItemSortEnum::Rarity => "rarity "@ + dir,
        ItemSortEnum::Source => "source "@ + dir,
    }
}

fn prepare_item_listing_order(gs: GameSystem, sort_by: ItemSortEnum, order_by: OrderEnum) -> (r: String)
    ensures
        r@ == spec_item_listing_order(gs, sort_by, order_by),
{
    let dir = order_direction(order_by);
    match sort_by {
        ItemSortEnum::Id => concat2("id ", dir),
        ItemSortEnum::Name => concat2("name ", dir),
        ItemSortEnum::Level => concat2("level ", dir),
        ItemSortEnum::Trait => {
            let mut s = String::from_str("(SELECT STRING_AGG(trait_id, ', ' ORDER BY trait_id) FROM ");
            s.append(gs.to_str());
            s.append("_trait_item_association_table WHERE item_id = id) ");
            s.append(dir);
            s.append(" NULLS LAST");
            s
        },
        ItemSortEnum::Type => concat2("item_type ", dir),
        ItemSortEnum::Rarity => concat2("rarity ", dir),
        ItemSortEnum::Source => concat2("source ", dir),
    }
}

/// One page of the item listing.
pub open spec fn spec_paginated_items_listing(
    gs: GameSystem,
    f: ItemFieldFilters,
    sort_by: ItemSortEnum,
    order_by: OrderEnum,
    cursor: u32,
    page_size: i16,
) -> Seq<char> {
    "SELECT * FROM "@ + gs_text(gs) + "_item_table WHERE "@ + spec_item_listing_where(gs, f)
        + " ORDER BY "@ + spec_item_listing_order(gs, sort_by, order_by) + " "@
        + spec_pagination(cursor as i64, page_size)
}

pub fn prepare_paginated_get_items_listing(
    gs: GameSystem,
    filters: &ItemFieldFilters,
    sort_by: ItemSortEnum,
    order_by: OrderEnum,
    cursor: u32,
    page_size: i16,
) -> (r: String)
    ensures
        r@ == spec_paginated_items_listing(gs, *filters, sort_by, order_by, cursor, page_size),
{
    let where_clause = prepare_item_listing_where(gs, filters);
    let order_clause = prepare_item_listing_order(gs, sort_by, order_by);
    let pagination = format_pagination_clause(cursor as i64, page_size);
    let mut s = String::from_str("SELECT * FROM ");
    s.append(gs.to_str());
    s.append("_item_table WHERE ");
    s.append(where_clause.as_str());
    s.append(" ORDER BY ");
    s.append(order_clause.as_str());
    s.append(" ");
    s.append(pagination.as_str());
    s
}

/// The number of items in the listing.
pub open spec fn spec_count_items_listing(gs: GameSystem, f: ItemFieldFilters) -> Seq<char> {
    "SELECT COUNT(*) FROM "@ + gs_text(gs) + "_item_table WHERE "@ + spec_item_listing_where(gs, f)
}

pub fn prepare_count_items_listing(gs: GameSystem, filters: &ItemFieldFilters) -> (r: String)
    ensures
        r@ == spec_count_items_listing(gs, *filters),
{
    let where_clause = prepare_item_listing_where(gs, filters);
    let mut s = String::from_str("SELECT COUNT(*) FROM ");
    s.append(gs.to_str());
    s.append("_item_table WHERE ");
    s.append(where_clause.as_str());
    s
}

// ----- Laws --------------------------------------------------------------------------

/// A page of the creature listing and the count of the listing filter the same rows:
/// both use the same `WHERE` clause on the same table.
pub proof fn lemma_creature_count_and_page_share_filter(
    gs: GameSystem,
    f: CreatureFieldFilters,
    sort_by: CreatureSortEnum,
    order_by: OrderEnum,
    cursor: u32,
    page_size: i16,
)
    ensures
        ({
            let from_where = gs_text(gs) + "_creature_core WHERE "@ + spec_creature_listing_where(gs, f);
            &&& spec_count_creatures_listing(gs, f) == "SELECT COUNT(*) FROM "@ + from_where
            &&& spec_paginated_creatures_listing(gs, f, sort_by, order_by, cursor, page_size)
                == "SELECT * FROM "@ + from_where + " ORDER BY "@ + spec_creature_listing_order(gs, sort_by, order_by)
                + " "@ + spec_pagination(cursor as i64, page_size)
        }),
{
    let w = spec_creature_listing_where(gs, f);
    assert("SELECT COUNT(*) FROM "@ + gs_text(gs) + "_creature_core WHERE "@ + w
        =~= "SELECT COUNT(*) FROM "@ + (gs_text(gs) + "_creature_core WHERE "@ + w));
    assert("SELECT * FROM "@ + gs_text(gs) + "_creature_core WHERE "@ + w
        =~= "SELECT * FROM "@ + (gs_text(gs) + "_creature_core WHERE "@ + w));
}

/// A page of the hazard listing and the count of the listing filter the same rows.
pub proof fn lemma_hazard_count_and_page_share_filter(
    gs: GameSystem,
    f: HazardFieldFilters,
    sort_by: HazardSortEnum,
    order_by: OrderEnum,
    cursor: u32,
    page_size: i16,
)
    ensures
        ({
            let from_where = gs_text(gs) + "_hazard_table WHERE "@ + spec_hazard_listing_where(gs, f);
            &&& spec_count_hazards_listing(gs, f) == "SELECT COUNT(*) FROM "@ + from_where
            &&& spec_paginated_hazards_listing(gs, f, sort_by, order_by, cursor, page_size)
                == "SELECT * FROM "@ + from_where + " ORDER BY "@ + spec_hazard_listing_order(gs, sort_by, order_by)
                + " "@ + spec_pagination(cursor as i64, page_size)
        }),
{
    let w = spec_hazard_listing_where(gs, f);
    assert("SELECT COUNT(*) FROM "@ + gs_text(gs) + "_hazard_table WHERE "@ + w
        =~= "SELECT COUNT(*) FROM "@ + (gs_text(gs) + "_hazard_table WHERE "@ + w));
    assert("SELECT * FROM "@ + gs_text(gs) + "_hazard_table WHERE "@ + w
        =~= "SELECT * FROM "@ + (gs_text(gs) + "_hazard_table WHERE "@ + w));
}

/// Every condition of the list is written out (none is empty).
pub open spec fn all_nonempty(conds: Seq<Seq<char>>) -> bool {
    forall|i: int| 0 <= i < conds.len() ==> (#[trigger] conds[i]).len() > 0
}

proof fn lemma_concat_nonempty(a: Seq<Seq<char>>, b: Seq<Seq<char>>)
    requires
        all_nonempty(a),
        all_nonempty(b),
    ensures
        all_nonempty(a + b),
{
    assert forall|i: int| 0 <= i < (a + b).len() implies (#[trigger] (a + b)[i]).len() > 0 by {
        if i >= a.len() {
            assert((a + b)[i] == b[i - a.len()]);
        }
    }
}

proof fn lemma_join_nonempty(parts: Seq<Seq<char>>, sep: Seq<char>)
    requires
        parts.len() > 0,
        parts.last().len() > 0,
    ensures
        seq_join(parts, sep).len() > 0,
{
}

proof fn lemma_bound_piece_nonempty(o: Option<i64>, pre: Seq<char>, post: Seq<char>)
    ensures
        all_nonempty(bound_piece(o, pre, post)),
{
    match o {
        Some(v) => {
            let n: nat = if v < 0 { (-v) as nat } else { v as nat };
            assert(crate::text::nat_digits(n).len() > 0);
            assert((pre + decimal(v as int) + post)[pre.len() as int] == decimal(v as int)[0]);
        },
        None => {},
    }
}

proof fn lemma_escaped_piece_nonempty(o: Option<Seq<char>>, pre: Seq<char>, post: Seq<char>)
    requires
        pre.len() > 0,
    ensures
        all_nonempty(escaped_piece(o, pre, post)),
{
    match o {
        Some(v) => {
            assert((pre + spec_escape(v) + post)[0] == pre[0]);
        },
        None => {},
    }
}

proof fn lemma_or_group_piece_nonempty(
    o: Option<Seq<Seq<char>>>,
    head: Seq<char>,
    pre: Seq<char>,
    post: Seq<char>,
    tail: Seq<char>,
)
    requires
        tail.len() > 0,
    ensures
        all_nonempty(or_group_piece(o, head, pre, post, tail)),
{
}

/// The `WHERE` clause of the hazard listing is never empty, whatever the filters: the
/// count and the page always hold a well-formed query.
pub proof fn lemma_hazard_listing_where_nonempty(gs: GameSystem, f: HazardFieldFilters)
    ensures
        spec_hazard_listing_where(gs, f).len() > 0,
{
    reveal_strlit("TRUE");
    reveal_strlit("name ILIKE '%");
    reveal_strlit("is_complex = false");
    reveal_strlit("is_complex = true");
    reveal_strlit("remaster = false");
    reveal_strlit("remaster = true");
    reveal_strlit(")");
    let p0 = escaped_piece(opt_view(f.name_filter), "name ILIKE '%"@, "%'"@);
    lemma_escaped_piece_nonempty(opt_view(f.name_filter), "name ILIKE '%"@, "%'"@);
    let p1 = in_piece("source"@, opt_views(f.source_filter));
    assert(all_nonempty(p1));
    let p2 = in_piece("rarity"@, opt_rarity_texts(f.rarity_filter));
    assert(all_nonempty(p2));
    let p3 = in_piece("size"@, opt_size_texts(f.size_filter));
    assert(all_nonempty(p3));
    let p4 = complexity_piece(f.complexity_filter);
    assert(all_nonempty(p4));
    let p5 = bound_piece(f.min_ac_filter, "ac >= "@, ""@);
    lemma_bound_piece_nonempty(f.min_ac_filter, "ac >= "@, ""@);
    let p6 = bound_piece(f.max_ac_filter, "ac <= "@, ""@);
    lemma_bound_piece_nonempty(f.max_ac_filter, "ac <= "@, ""@);
    let p7 = bound_piece(f.min_hardness_filter, "hardness >= "@, ""@);
    lemma_bound_piece_nonempty(f.min_hardness_filter, "hardness >= "@, ""@);
    let p8 = bound_piece(f.max_hardness_filter, "hardness <= "@, ""@);
    lemma_bound_piece_nonempty(f.max_hardness_filter, "hardness <= "@, ""@);
    let p9 = bound_piece(f.min_hp_filter, "hp >= "@, ""@);
    lemma_bound_piece_nonempty(f.min_hp_filter, "hp >= "@, ""@);
    let p10 = bound_piece(f.max_hp_filter, "hp <= "@, ""@);
    lemma_bound_piece_nonempty(f.max_hp_filter, "hp <= "@, ""@);
    let p11 = bound_piece(f.min_level_filter, "level >= "@, ""@);
    lemma_bound_piece_nonempty(f.min_level_filter, "level >= "@, ""@);
    let p12 = bound_piece(f.max_level_filter, "level <= "@, ""@);
    lemma_bound_piece_nonempty(f.max_level_filter, "level <= "@, ""@);
    let p13 = bound_piece(f.min_stealth_filter, "stealth >= "@, ""@);
    lemma_bound_piece_nonempty(f.min_stealth_filter, "stealth >= "@, ""@);
    let p14 = bound_piece(f.max_stealth_filter, "stealth <= "@, ""@);
    lemma_bound_piece_nonempty(f.max_stealth_filter, "stealth <= "@, ""@);
    let p15 = bound_piece(f.min_will_filter, "(will IS NULL OR will >= "@, ")"@);
    lemma_bound_piece_nonempty(f.min_will_filter, "(will IS NULL OR will >= "@, ")"@);
    let p16 = bound_piece(f.max_will_filter, "(will IS NULL OR will <= "@, ")"@);
    lemma_bound_piece_nonempty(f.max_will_filter, "(will IS NULL OR will <= "@, ")"@);
    let p17 = bound_piece(f.min_reflex_filter, "(reflex IS NULL OR reflex >= "@, ")"@);
    lemma_bound_piece_nonempty(f.min_reflex_filter, "(reflex IS NULL OR reflex >= "@, ")"@);
    let p18 = bound_piece(f.max_reflex_filter, "(reflex IS NULL OR reflex <= "@, ")"@);
    lemma_bound_piece_nonempty(f.max_reflex_filter, "(reflex IS NULL OR reflex <= "@, ")"@);
    let p19 = bound_piece(f.min_fortitude_filter, "(fortitude IS NULL OR fortitude >= "@, ")"@);
    lemma_bound_piece_nonempty(f.min_fortitude_filter, "(fortitude IS NULL OR fortitude >= "@, ")"@);
    let p20 = bound_piece(f.max_fortitude_filter, "(fortitude IS NULL OR fortitude <= "@, ")"@);
    lemma_bound_piece_nonempty(f.max_fortitude_filter, "(fortitude IS NULL OR fortitude <= "@, ")"@);
    let p21 = version_piece(f.game_system_version);
    assert(all_nonempty(p21));
    let p22 = or_group_piece(opt_views(f.trait_whitelist_filter), "id IN (SELECT hazard_id FROM "@ + gs_text(gs) + "_trait_hazard_association_table WHERE "@, "UPPER(trait_id) LIKE UPPER('%"@, "%')"@, ")"@);
    lemma_or_group_piece_nonempty(opt_views(f.trait_whitelist_filter), "id IN (SELECT hazard_id FROM "@ + gs_text(gs) + "_trait_hazard_association_table WHERE "@, "UPPER(trait_id) LIKE UPPER('%"@, "%')"@, ")"@);
    let p23 = or_group_piece(opt_views(f.trait_blacklist_filter), "id NOT IN (SELECT hazard_id FROM "@ + gs_text(gs) + "_trait_hazard_association_table WHERE "@, "UPPER(trait_id) = UPPER('"@, "')"@, ")"@);
    lemma_or_group_piece_nonempty(opt_views(f.trait_blacklist_filter), "id NOT IN (SELECT hazard_id FROM "@ + gs_text(gs) + "_trait_hazard_association_table WHERE "@, "UPPER(trait_id) = UPPER('"@, "')"@, ")"@);
    let a0 = p0;
    lemma_concat_nonempty(a0, p1);
    let a1 = a0 + p1;
    lemma_concat_nonempty(a1, p2);
    let a2 = a1 + p2;
    lemma_concat_nonempty(a2, p3);
    let a3 = a2 + p3;
    lemma_concat_nonempty(a3, p4);
    let a4 = a3 + p4;
    lemma_concat_nonempty(a4, p5);
    let a5 = a4 + p5;
    lemma_concat_nonempty(a5, p6);
    let a6 = a5 + p6;
    lemma_concat_nonempty(a6, p7);
    let a7 = a6 + p7;
    lemma_concat_nonempty(a7, p8);
    let a8 = a7 + p8;
    lemma_concat_nonempty(a8, p9);
    let a9 = a8 + p9;
    lemma_concat_nonempty(a9, p10);
    let a10 = a9 + p10;
    lemma_concat_nonempty(a10, p11);
    let a11 = a10 + p11;
    lemma_concat_nonempty(a11, p12);
    let a12 = a11 + p12;
    lemma_concat_nonempty(a12, p13);
    let a13 = a12 + p13;
    lemma_concat_nonempty(a13, p14);
    let a14 = a13 + p14;
    lemma_concat_nonempty(a14, p15);
    let a15 = a14 + p15;
    lemma_concat_nonempty(a15, p16);
    let a16 = a15 + p16;
    lemma_concat_nonempty(a16, p17);
    let a17 = a16 + p17;
    lemma_concat_nonempty(a17, p18);
    let a18 = a17 + p18;
    lemma_concat_nonempty(a18, p19);
    let a19 = a18 + p19;
    lemma_concat_nonempty(a19, p20);
    let a20 = a19 + p20;
    lemma_concat_nonempty(a20, p21);
    let a21 = a20 + p21;
    lemma_concat_nonempty(a21, p22);
    let a22 = a21 + p22;
    lemma_concat_nonempty(a22, p23);
    let a23 = a22 + p23;
    let c = hazard_listing_conditions(gs, f);
    assert(c == a23);
    if c.len() > 0 {
        assert(c.last() == c[c.len() - 1]);
        lemma_join_nonempty(c, " AND "@);
    }
}

/// Each sort key of the creature listing orders by its own clause: two different keys,
/// in the same direction, never give the same `ORDER BY` clause.
pub proof fn lemma_creature_sort_keys_are_distinct(gs: GameSystem, k1: CreatureSortEnum, k2: CreatureSortEnum, o: OrderEnum)
    requires
        k1 != k2,
    ensures
        spec_creature_listing_order(gs, k1, o) != spec_creature_listing_order(gs, k2, o),
{
    reveal_strlit("id ");
    reveal_strlit("name ");
    reveal_strlit("level ");
    reveal_strlit("(SELECT STRING_AGG(trait_id, ', ' ORDER BY trait_id) FROM ");
    reveal_strlit("size ");
    reveal_strlit("cr_type ");
    reveal_strlit("hp ");
    reveal_strlit("rarity ");
    reveal_strlit("family ");
    reveal_strlit("alignment ");
    reveal_strlit("is_melee ");
    reveal_strlit("GREATEST(brute_percentage, magical_striker_percentage, skill_paragon_percentage, skirmisher_percentage, sniper_percentage, soldier_percentage, spellcaster_percentage) ");
    reveal_strlit("ASC");
    reveal_strlit("DESC");
    let o_id = spec_creature_listing_order(gs, CreatureSortEnum::Id, o);
    let o_name = spec_creature_listing_order(gs, CreatureSortEnum::Name, o);
    let o_level = spec_creature_listing_order(gs, CreatureSortEnum::Level, o);
    let o_trait = spec_creature_listing_order(gs, CreatureSortEnum::Trait, o);
    let o_size = spec_creature_listing_order(gs, CreatureSortEnum::Size, o);
    let o_type = spec_creature_listing_order(gs, CreatureSortEnum::Type, o);
    let o_hp = spec_creature_listing_order(gs, CreatureSortEnum::Hp, o);
    let o_rarity = spec_creature_listing_order(gs, CreatureSortEnum::Rarity, o);
    let o_family = spec_creature_listing_order(gs, CreatureSortEnum::Family, o);
    let o_alignment = spec_creature_listing_order(gs, CreatureSortEnum::Alignment, o);
    let o_attacks = spec_creature_listing_order(gs, CreatureSortEnum::Attacks, o);
    let o_roles = spec_creature_listing_order(gs, CreatureSortEnum::Roles, o);
    assert(o_id[0] != o_name[0]);
    assert(o_id[0] != o_level[0]);
    assert(o_id[0] != o_trait[0]);
    assert(o_id[0] != o_size[0]);
    assert(o_id[0] != o_type[0]);
    assert(o_id[0] != o_hp[0]);
    assert(o_id[0] != o_rarity[0]);
    assert(o_id[0] != o_family[0]);
    assert(o_id[0] != o_alignment[0]);
    assert(o_id[1] != o_attacks[1]);
    assert(o_id[0] != o_roles[0]);
    assert(o_name[0] != o_level[0]);
    assert(o_name[0] != o_trait[0]);
    assert(o_name[0] != o_size[0]);
    assert(o_name[0] != o_type[0]);
    assert(o_name[0] != o_hp[0]);
    assert(o_name[0] != o_rarity[0]);
    assert(o_name[0] != o_family[0]);
    assert(o_name[0] != o_alignment[0]);
    assert(o_name[0] != o_attacks[0]);
    assert(o_name[0] != o_roles[0]);
    assert(o_level[0] != o_trait[0]);
    assert(o_level[0] != o_size[0]);
    assert(o_level[0] != o_type[0]);
    assert(o_level[0] != o_hp[0]);
    assert(o_level[0] != o_rarity[0]);
    assert(o_level[0] != o_family[0]);
    assert(o_level[0] != o_alignment[0]);
    assert(o_level[0] != o_attacks[0]);
    assert(o_level[0] != o_roles[0]);
    assert(o_trait[0] != o_size[0]);
    assert(o_trait[0] != o_type[0]);
    assert(o_trait[0] != o_hp[0]);
    assert(o_trait[0] != o_rarity[0]);
    assert(o_trait[0] != o_family[0]);
    assert(o_trait[0] != o_alignment[0]);
    assert(o_trait[0] != o_attacks[0]);
    assert(o_trait[0] != o_roles[0]);
    assert(o_size[0] != o_type[0]);
    assert(o_size[0] != o_hp[0]);
    assert(o_size[0] != o_rarity[0]);
    assert(o_size[0] != o_family[0]);
    assert(o_size[0] != o_alignment[0]);
    assert(o_size[0] != o_attacks[0]);
    assert(o_size[0] != o_roles[0]);
    assert(o_type[0] != o_hp[0]);
    assert(o_type[0] != o_rarity[0]);
    assert(o_type[0] != o_family[0]);
    assert(o_type[0] != o_alignment[0]);
    assert(o_type[0] != o_attacks[0]);
    assert(o_type[0] != o_roles[0]);
    assert(o_hp[0] != o_rarity[0]);
    assert(o_hp[0] != o_family[0]);
    assert(o_hp[0] != o_alignment[0]);
    assert(o_hp[0] != o_attacks[0]);
    assert(o_hp[0] != o_roles[0]);
    assert(o_rarity[0] != o_family[0]);
    assert(o_rarity[0] != o_alignment[0]);
    assert(o_rarity[0] != o_attacks[0]);
    assert(o_rarity[0] != o_roles[0]);
    assert(o_family[0] != o_alignment[0]);
    assert(o_family[0] != o_attacks[0]);
    assert(o_family[0] != o_roles[0]);
    assert(o_alignment[0] != o_attacks[0]);
    assert(o_alignment[0] != o_roles[0]);
    assert(o_attacks[0] != o_roles[0]);
}

/// Sorting the creature listing by level orders by the `level` column, and by hit
/// points by the `hp` column, in the asked direction (`ASC` for ascending, `DESC` for
/// descending); the two directions give different clauses for every key.
pub proof fn lemma_creature_sort_columns(gs: GameSystem, k: CreatureSortEnum, o: OrderEnum)
    ensures
        spec_order_direction(OrderEnum::Ascending) == "ASC"@,
        spec_order_direction(OrderEnum::Descending) == "DESC"@,
        spec_creature_listing_order(gs, CreatureSortEnum::Level, o) == "level "@ + spec_order_direction(o),
        spec_creature_listing_order(gs, CreatureSortEnum::Hp, o) == "hp "@ + spec_order_direction(o),
        spec_creature_listing_order(gs, k, OrderEnum::Ascending) != spec_creature_listing_order(
            gs,
            k,
            OrderEnum::Descending,
        ),
{
    reveal_strlit("ASC");
    reveal_strlit("DESC");
    let asc = spec_creature_listing_order(gs, k, OrderEnum::Ascending);
    let desc = spec_creature_listing_order(gs, k, OrderEnum::Descending);
    match k {
        CreatureSortEnum::Trait => {
            let head = "(SELECT STRING_AGG(trait_id, ', ' ORDER BY trait_id) FROM "@ + gs_text(gs)
                + "_trait_creature_association_table WHERE creature_id = id) "@;
            assert(asc[head.len() as int] != desc[head.len() as int]);
        },
        CreatureSortEnum::Id => { reveal_strlit("id "); assert(asc[3] != desc[3]); },
        CreatureSortEnum::Name => { reveal_strlit("name "); assert(asc[5] != desc[5]); },
        CreatureSortEnum::Level => { reveal_strlit("level "); assert(asc[6] != desc[6]); },
        CreatureSortEnum::Size => { reveal_strlit("size "); assert(asc[5] != desc[5]); },
        CreatureSortEnum::Type => { reveal_strlit("cr_type "); assert(asc[8] != desc[8]); },
        CreatureSortEnum::Hp => { reveal_strlit("hp "); assert(asc[3] != desc[3]); },
        CreatureSortEnum::Rarity => { reveal_strlit("rarity "); assert(asc[7] != desc[7]); },
        CreatureSortEnum::Family => { reveal_strlit("family "); assert(asc[7] != desc[7]); },
        CreatureSortEnum::Alignment => { reveal_strlit("alignment "); assert(asc[10] != desc[10]); },
        CreatureSortEnum::Attacks => { reveal_strlit("is_melee "); assert(asc[9] != desc[9]); },
        CreatureSortEnum::Roles => {
            let head = "GREATEST(brute_percentage, magical_striker_percentage, skill_paragon_percentage, skirmisher_percentage, sniper_percentage, soldier_percentage, spellcaster_percentage) "@;
            reveal_strlit("GREATEST(brute_percentage, magical_striker_percentage, skill_paragon_percentage, skirmisher_percentage, sniper_percentage, soldier_percentage, spellcaster_percentage) ");
            assert(asc[head.len() as int] != desc[head.len() as int]);
        },
    }
}

/// A page of the item listing and the count of the listing filter the same rows.
pub proof fn lemma_item_count_and_page_share_filter(
    gs: GameSystem,
    f: ItemFieldFilters,
    sort_by: ItemSortEnum,
    order_by: OrderEnum,
    cursor: u32,
    page_size: i16,
)
    ensures
        ({
            let from_where = gs_text(gs) + "_item_table WHERE "@ + spec_item_listing_where(gs, f);
            &&& spec_count_items_listing(gs, f) == "SELECT COUNT(*) FROM "@ + from_where
            &&& spec_paginated_items_listing(gs, f, sort_by, order_by, cursor, page_size)
                == "SELECT * FROM "@ + from_where + " ORDER BY "@ + spec_item_listing_order(gs, sort_by, order_by)
                + " "@ + spec_pagination(cursor as i64, page_size)
        }),
{
    let w = spec_item_listing_where(gs, f);
    assert("SELECT COUNT(*) FROM "@ + gs_text(gs) + "_item_table WHERE "@ + w
        =~= "SELECT COUNT(*) FROM "@ + (gs_text(gs) + "_item_table WHERE "@ + w));
    assert("SELECT * FROM "@ + gs_text(gs) + "_item_table WHERE "@ + w
        =~= "SELECT * FROM "@ + (gs_text(gs) + "_item_table WHERE "@ + w));
}

/// Without filters, the creature listing keeps the valid creatures only, the hazard
/// listing keeps every hazard, and the item listing keeps the valid items that are not
/// derived from another.
pub proof fn lemma_listings_without_filters(
    gs: GameSystem,
    cf: CreatureFieldFilters,
    hf: HazardFieldFilters,
    itf: ItemFieldFilters,
)
    requires
        no_creature_filters(cf),
        no_hazard_filters(hf),
        no_item_filters(itf),
    ensures
        spec_creature_listing_where(gs, cf) == "status = 'valid'"@,
        spec_hazard_listing_where(gs, hf) == "TRUE"@,
        spec_item_listing_where(gs, itf) == "is_derived = false AND status = 'valid'"@,
{
    reveal_with_fuel(seq_join, 3);
    assert(creature_listing_conditions(gs, cf) =~= seq!["status = 'valid'"@]);
    assert(hazard_listing_conditions(gs, hf) =~= Seq::<Seq<char>>::empty());
    let ic = item_listing_conditions(gs, itf);
    assert(ic =~= seq!["is_derived = false"@, "status = 'valid'"@]);
    assert(ic.drop_last() =~= seq!["is_derived = false"@]);
    assert(seq_join(ic, " AND "@) == "is_derived = false"@ + " AND "@ + "status = 'valid'"@);
    assert("is_derived = false"@ + " AND "@ + "status = 'valid'"@ =~= "is_derived = false AND status = 'valid'"@) by {
        reveal_strlit("is_derived = false");
        reveal_strlit(" AND ");
        reveal_strlit("status = 'valid'");
        reveal_strlit("is_derived = false AND status = 'valid'");
    }
}

/// Escaping leaves a text without single quotes as it is, and escapes the parts of a
/// text independently.
pub proof fn lemma_escape_properties(s: Seq<char>, t: Seq<char>)
    ensures
        !s.contains('\'') ==> spec_escape(s) == s,
        spec_escape(s + t) == spec_escape(s) + spec_escape(t),
    decreases t.len(),
{
    lemma_escape_plain(s);
    if t.len() > 0 {
        lemma_escape_properties(s, t.drop_last());
        assert((s + t).drop_last() =~= s + t.drop_last());
        assert((s + t).last() == t.last());
    } else {
        assert(s + t =~= s);
    }
}

proof fn lemma_escape_plain(s: Seq<char>)
    ensures
        !s.contains('\'') ==> spec_escape(s) == s,
    decreases s.len(),
{
    if s.len() > 0 && !s.contains('\'') {
        assert(!s.drop_last().contains('\'')) by {
            if s.drop_last().contains('\'') {
                let i = choose|i: int| 0 <= i < s.drop_last().len() && s.drop_last()[i] == '\'';
                assert(s[i] == '\'');
            }
        }
        lemma_escape_plain(s.drop_last());
        assert(s.last() != '\'') by {
            assert(s[s.len() - 1] == s.last());
        }
        assert(spec_escape(s.drop_last()) + seq![s.last()] =~= s);
    }
}

/// An `IN` statement is empty exactly when there are no values to test.
pub proof fn lemma_in_statement_empty_without_values(column: Seq<char>, values: Seq<Seq<char>>, case_insensitive: bool)
    ensures
        spec_in_statement(column, values, case_insensitive).len() == 0 <==> values.len() == 0,
{
    reveal_strlit(")");
}

} // verus!
