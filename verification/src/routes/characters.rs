//! The character search: its parameters, the SQL text that it runs, the key
//! that its results are cached under, and the reading of its rows.

use std::hash::{Hash, Hasher};
use vstd::prelude::*;

use crate::models::common::{Element, Position, Style};
use crate::models::character_summary::{summary_of_row, CharacterRow, CharacterSummary};
use crate::text::{decimal, decimal_text};
use std::collections::hash_map::DefaultHasher;
use vstd::std_specs::hash::DefaultHasherAdditionalSpecFns;
use crate::sql::{new_query, push_bind_u8, push_sql, query_arguments, query_open, query_text, SqlQuery};

verus! {

/// Column that search results are ordered by.
#[derive(Debug, Clone, Copy, PartialEq, Eq, Hash, Structural)]
pub enum OrderField {
    Kick,
    Control,
    Technique,
    Pressure,
    Physical,
    Agility,
    Intelligence,
}

impl OrderField {
    /// The number that a search's key stores for this column.
    pub open spec fn spec_code(&self) -> u8 {
        match self {
            OrderField::Kick => 0,
            OrderField::Control => 1,
            OrderField::Technique => 2,
            OrderField::Pressure => 3,
            OrderField::Physical => 4,
            OrderField::Agility => 5,
            OrderField::Intelligence => 6,
        }
    }

    #[verifier::when_used_as_spec(spec_code)]
    pub fn code(&self) -> (c: u8)
        ensures
            c == self.spec_code(),
    {
        match self {
            OrderField::Kick => 0,
            OrderField::Control => 1,
            OrderField::Technique => 2,
            OrderField::Pressure => 3,
            OrderField::Physical => 4,
            OrderField::Agility => 5,
            OrderField::Intelligence => 6,
        }
    }

    /// The name of the column.
    pub open spec fn column(self) -> Seq<char> {
        match self {
            OrderField::Kick => "lvl50_kick"@,
            OrderField::Control => "lvl50_control"@,
            OrderField::Technique => "lvl50_technique"@,
            OrderField::Pressure => "lvl50_pressure"@,
            OrderField::Physical => "lvl50_physical"@,
            OrderField::Agility => "lvl50_agility"@,
            OrderField::Intelligence => "lvl50_intelligence"@,
        }
    }

    pub fn to_sql(&self) -> (s: &'static str)
        ensures
            s@ == self.column(),
    {
        match self {
            OrderField::Kick => "lvl50_kick",
            OrderField::Control => "lvl50_control",
            OrderField::Technique => "lvl50_technique",
            OrderField::Pressure => "lvl50_pressure",
            OrderField::Physical => "lvl50_physical",
            OrderField::Agility => "lvl50_agility",
            OrderField::Intelligence => "lvl50_intelligence",
        }
    }
}

/// Language that names are shown in.
#[derive(Debug, Clone, Copy, PartialEq, Eq, Hash, Structural)]
#[allow(non_camel_case_types)]
pub enum Language {
    DE,
    EN,
    ES,
    FR,
    IT,
    JA,
    PT,
    ZH_HANS,
    ZH_HANT,
}

impl Language {
    /// The number that a search's key stores for this language.
    pub open spec fn spec_code(&self) -> u8 {
        match self {
            Language::DE => 0,
            Language::EN => 1,
            Language::ES => 2,
            Language::FR => 3,
            Language::IT => 4,
            Language::JA => 5,
            Language::PT => 6,
            Language::ZH_HANS => 7,
            Language::ZH_HANT => 8,
        }
    }

    #[verifier::when_used_as_spec(spec_code)]
    pub fn code(&self) -> (c: u8)
        ensures
            c == self.spec_code(),
    {
        match self {
            Language::DE => 0,
            Language::EN => 1,
            Language::ES => 2,
            Language::FR => 3,
            Language::IT => 4,
            Language::JA => 5,
            Language::PT => 6,
            Language::ZH_HANS => 7,
            Language::ZH_HANT => 8,
        }
    }

    /// The name of the attached database that holds this language's texts.
    pub open spec fn schema(self) -> Seq<char> {
        match self {
            Language::DE => "de"@,
            Language::EN => "en"@,
            Language::ES => "es"@,
            Language::FR => "fr"@,
            Language::IT => "it"@,
            Language::JA => "ja"@,
            Language::PT => "pt"@,
            Language::ZH_HANS => "zh_hans"@,
            Language::ZH_HANT => "zh_hant"@,
        }
    }

    /// The language of a search that names none: English.
    pub fn default() -> (l: Language)
        ensures
            l == Language::EN,
    {
        Language::EN
    }

    pub fn to_sql(&self) -> (s: &'static str)
        ensures
            s@ == self.schema(),
    {
        match self {
            Language::DE => "de",
            Language::EN => "en",
            Language::ES => "es",
            Language::FR => "fr",
            Language::IT => "it",
            Language::JA => "ja",
            Language::PT => "pt",
            Language::ZH_HANS => "zh_hans",
            Language::ZH_HANT => "zh_hant",
        }
    }
}

/// The parameters of a character search. Empty filter lists do not filter.
#[derive(Debug, Clone, PartialEq, Eq, Hash)]
pub struct SearchParams {
    pub name: String,
    pub element: Vec<Element>,
    pub position: Vec<Position>,
    pub style: Vec<Style>,
    pub order: Option<OrderField>,
    pub descending: bool,
    pub language: Language,
}

/// The start of the inner query, up to the table's name.
pub const INNER_SELECT: &'static str = "SELECT index_id, name_id, element, main_position, style, series_id, lvl50_kick, lvl50_control, lvl50_technique, lvl50_pressure, lvl50_physical, lvl50_agility, lvl50_intelligence\n        FROM ";

/// `n` placeholders separated by commas: `?,?,...,?`.
pub open spec fn bind_list(n: nat) -> Seq<char>
    decreases n,
{
    if n == 0 {
        Seq::empty()
    } else if n == 1 {
        "?"@
    } else {
        bind_list((n - 1) as nat) + ","@ + "?"@
    }
}

/// The stored codes of a list of elements.
pub open spec fn element_codes(s: Seq<Element>) -> Seq<int> {
    s.map_values(|e: Element| e.spec_code() as int)
}

/// The stored codes of a list of positions.
pub open spec fn position_codes(s: Seq<Position>) -> Seq<int> {
    s.map_values(|p: Position| p.spec_code() as int)
}

/// The stored codes of a list of styles.
pub open spec fn style_codes(s: Seq<Style>) -> Seq<int> {
    s.map_values(|st: Style| st.spec_code() as int)
}

/// The filters of the inner query: one `IN` clause for each nonempty list,
/// the first opened by `WHERE`, the others by `AND`.
pub open spec fn filter_sql(p: SearchParams) -> Seq<char> {
    let e = p.element@.len();
    let pn = p.position@.len();
    let sn = p.style@.len();
    (if e > 0 {
        "WHERE element IN ("@ + bind_list(e) + ")\n"@
    } else {
        Seq::empty()
    }) + (if pn > 0 {
        (if e > 0 {
            "AND main_position IN ("@
        } else {
            "WHERE main_position IN ("@
        }) + bind_list(pn) + ")\n"@
    } else {
        Seq::empty()
    }) + (if sn > 0 {
        (if e > 0 || pn > 0 {
            "AND style IN ("@
        } else {
            "WHERE style IN ("@
        }) + bind_list(sn) + ")\n"@
    } else {
        Seq::empty()
    })
}

/// The ordering clause of the inner query, if the search orders.
pub open spec fn order_sql(p: SearchParams) -> Seq<char> {
    match p.order {
        Some(o) => "ORDER BY "@ + o.column() + (if p.descending {
            " DESC"@
        } else {
            Seq::empty()
        }) + "\n"@,
        None => Seq::empty(),
    }
}

/// The SQL text of the inner query over `table`: the selected columns, the
/// filters, the order and a limit of 200 rows.
pub open spec fn inner_query_sql(p: SearchParams, table: Seq<char>) -> Seq<char> {
    INNER_SELECT@ + table + "\n"@ + filter_sql(p) + order_sql(p) + "LIMIT 200"@
}

/// The values bound to the inner query's placeholders: the codes of the
/// elements, then of the positions, then of the styles.
pub open spec fn inner_query_arguments(p: SearchParams) -> Seq<int> {
    element_codes(p.element@) + position_codes(p.position@) + style_codes(p.style@)
}

/// Appends `codes` as a comma-separated list of bound placeholders.
fn push_bind_list(query_builder: &mut SqlQuery, codes: &Vec<u8>)
    requires
        query_open(*old(query_builder)),
    ensures
        query_open(*final(query_builder)),
        query_text(*final(query_builder)) == query_text(*old(query_builder)) + bind_list(
            codes@.len(),
        ),
        query_arguments(*final(query_builder)) == query_arguments(*old(query_builder))
            + codes@.map_values(|c: u8| c as int),
{
    let ghost text0 = query_text(*query_builder);
    let ghost args0 = query_arguments(*query_builder);
    let mut i: usize = 0;
    while i < codes.len()
        invariant
            i <= codes@.len(),
            query_open(*query_builder),
            query_text(*query_builder) == text0 + bind_list(i as nat),
            query_arguments(*query_builder) == args0 + codes@.take(i as int).map_values(
                |c: u8| c as int,
            ),
        decreases codes@.len() - i,
    {
        if i > 0 {
            push_sql(query_builder, ",");
        }
        push_bind_u8(query_builder, codes[i]);
        proof {
            if i == 0 {
                assert(bind_list(1) == "?"@);
            } else {
                assert(bind_list((i + 1) as nat) == bind_list(i as nat) + ","@ + "?"@);
            }
            assert(codes@.take(i + 1).map_values(|c: u8| c as int) =~= codes@.take(
                i as int,
            ).map_values(|c: u8| c as int).push(codes@[i as int] as int));
        }
        assert(query_text(*query_builder) =~= text0 + bind_list((i + 1) as nat));
        assert(query_arguments(*query_builder) =~= args0 + codes@.take(i + 1).map_values(
            |c: u8| c as int,
        ));
        i = i + 1;
    }
    assert(codes@.take(codes@.len() as int) =~= codes@);
}

fn element_code_list(v: &Vec<Element>) -> (codes: Vec<u8>)
    ensures
        codes@.len() == v@.len(),
        forall|j: int| 0 <= j < v@.len() ==> codes@[j] == #[trigger] v@[j].spec_code(),
        codes@.map_values(|c: u8| c as int) == element_codes(v@),
{
    let mut codes: Vec<u8> = Vec::new();
    let mut i: usize = 0;
    while i < v.len()
        invariant
            i <= v@.len(),
            codes@.len() == i,
            forall|j: int| 0 <= j < i ==> codes@[j] == #[trigger] v@[j].spec_code(),
        decreases v@.len() - i,
    {
        codes.push(v[i].code());
        i = i + 1;
    }
    assert(codes@.map_values(|c: u8| c as int) =~= element_codes(v@));
    codes
}

fn position_code_list(v: &Vec<Position>) -> (codes: Vec<u8>)
    ensures
        codes@.len() == v@.len(),
        forall|j: int| 0 <= j < v@.len() ==> codes@[j] == #[trigger] v@[j].spec_code(),
        codes@.map_values(|c: u8| c as int) == position_codes(v@),
{
    let mut codes: Vec<u8> = Vec::new();
    let mut i: usize = 0;
    while i < v.len()
        invariant
            i <= v@.len(),
            codes@.len() == i,
            forall|j: int| 0 <= j < i ==> codes@[j] == #[trigger] v@[j].spec_code(),
        decreases v@.len() - i,
    {
        codes.push(v[i].code());
        i = i + 1;
    }
    assert(codes@.map_values(|c: u8| c as int) =~= position_codes(v@));
    codes
}

fn style_code_list(v: &Vec<Style>) -> (codes: Vec<u8>)
    ensures
        codes@.len() == v@.len(),
        forall|j: int| 0 <= j < v@.len() ==> codes@[j] == #[trigger] v@[j].spec_code(),
        codes@.map_values(|c: u8| c as int) == style_codes(v@),
{
    let mut codes: Vec<u8> = Vec::new();
    let mut i: usize = 0;
    while i < v.len()
        invariant
            i <= v@.len(),
            codes@.len() == i,
            forall|j: int| 0 <= j < i ==> codes@[j] == #[trigger] v@[j].spec_code(),
        decreases v@.len() - i,
    {
        codes.push(v[i].code());
        i = i + 1;
    }
    assert(codes@.map_values(|c: u8| c as int) =~= style_codes(v@));
    codes
}

/// Appends one filter: `opener`, the bound placeholders of `codes` and the
/// closing bracket.
fn push_in_filter(query_builder: &mut SqlQuery, opener: &str, codes: &Vec<u8>)
    requires
        query_open(*old(query_builder)),
    ensures
        query_open(*final(query_builder)),
        query_text(*final(query_builder)) == query_text(*old(query_builder)) + (opener@
            + bind_list(codes@.len()) + ")\n"@),
        query_arguments(*final(query_builder)) == query_arguments(*old(query_builder))
            + codes@.map_values(|c: u8| c as int),
{
    let ghost text0 = query_text(*query_builder);
    push_sql(query_builder, opener);
    push_bind_list(query_builder, codes);
    push_sql(query_builder, ")\n");
    assert(query_text(*query_builder) =~= text0 + (opener@ + bind_list(codes@.len()) + ")\n"@));
}

/// Appends the filters of a search (`filter_sql`), binding the codes of its
/// lists.
fn push_filters(query_builder: &mut SqlQuery, params: &SearchParams)
    requires
        query_open(*old(query_builder)),
    ensures
        query_open(*final(query_builder)),
        query_text(*final(query_builder)) == query_text(*old(query_builder)) + filter_sql(
            *params,
        ),
        query_arguments(*final(query_builder)) == query_arguments(*old(query_builder))
            + inner_query_arguments(*params),
{
    let ghost text0 = query_text(*query_builder);
    let ghost args0 = query_arguments(*query_builder);
    let ghost e = params.element@.len();
    let ghost pn = params.position@.len();
    let ghost sn = params.style@.len();
    let mut where_used = false;

    // Element filtering
    if !params.element.is_empty() {
        let codes = element_code_list(&params.element);
        push_in_filter(query_builder, "WHERE element IN (", &codes);
        where_used = true;
    }
    let ghost text_e = query_text(*query_builder);
    let ghost args_e = query_arguments(*query_builder);
    assert(where_used == (e > 0));
    assert(text_e =~= text0 + (if e > 0 {
        "WHERE element IN ("@ + bind_list(e) + ")\n"@
    } else {
        Seq::empty()
    }));
    assert(args_e =~= args0 + element_codes(params.element@));

    // Position filtering
    if !params.position.is_empty() {
        let codes = position_code_list(&params.position);
        if !where_used {
            push_in_filter(query_builder, "WHERE main_position IN (", &codes);
            where_used = true;
        } else {
            push_in_filter(query_builder, "AND main_position IN (", &codes);
        }
    }
    let ghost text_p = query_text(*query_builder);
    let ghost args_p = query_arguments(*query_builder);
    assert(where_used == (e > 0 || pn > 0));
    assert(text_p =~= text_e + (if pn > 0 {
        (if e > 0 {
            "AND main_position IN ("@
        } else {
            "WHERE main_position IN ("@
        }) + bind_list(pn) + ")\n"@
    } else {
        Seq::empty()
    }));
    assert(args_p =~= args_e + position_codes(params.position@));

    // Style filtering
    if !params.style.is_empty() {
        let codes = style_code_list(&params.style);
        if !where_used {
            push_in_filter(query_builder, "WHERE style IN (", &codes);
        } else {
            push_in_filter(query_builder, "AND style IN (", &codes);
        }
    }
    assert(query_text(*query_builder) =~= text_p + (if sn > 0 {
        (if e > 0 || pn > 0 {
            "AND style IN ("@
        } else {
            "WHERE style IN ("@
        }) + bind_list(sn) + ")\n"@
    } else {
        Seq::empty()
    }));
    assert(query_text(*query_builder) =~= text0 + filter_sql(*params));
    assert(query_arguments(*query_builder) =~= args0 + inner_query_arguments(*params));
}

/// Appends the ordering clause of a search (`order_sql`).
fn push_order(query_builder: &mut SqlQuery, params: &SearchParams)
    requires
        query_open(*old(query_builder)),
    ensures
        query_open(*final(query_builder)),
        query_text(*final(query_builder)) == query_text(*old(query_builder)) + order_sql(*params),
        query_arguments(*final(query_builder)) == query_arguments(*old(query_builder)),
{
    let ghost text0 = query_text(*query_builder);
    if let Some(order) = &params.order {
        push_sql(query_builder, "ORDER BY ");
        push_sql(query_builder, order.to_sql());

        if params.descending {
            push_sql(query_builder, " DESC");
        }

        push_sql(query_builder, "\n");
    }
    assert(query_text(*query_builder) =~= text0 + order_sql(*params));
}

/// Appends the inner query of a search over `table_name` to the builder:
/// its text is `inner_query_sql` and the values it binds are
/// `inner_query_arguments`.
pub fn build_inner_query(query_builder: &mut SqlQuery, params: &SearchParams, table_name: &str)
    requires
        query_open(*old(query_builder)),
    ensures
        query_open(*final(query_builder)),
        query_text(*final(query_builder)) == query_text(*old(query_builder)) + inner_query_sql(
            *params,
            table_name@,
        ),
        query_arguments(*final(query_builder)) == query_arguments(*old(query_builder))
            + inner_query_arguments(*params),
{
    let ghost text0 = query_text(*query_builder);
    push_sql(query_builder, INNER_SELECT);
    push_sql(query_builder, table_name);
    push_sql(query_builder, "\n");
    push_filters(query_builder, params);
    push_order(query_builder, params);
    push_sql(query_builder, "LIMIT 200");
    assert(query_text(*query_builder) =~= text0 + inner_query_sql(*params, table_name@));
}

/// The start of the search query, before its inner query.
pub const OUTER_SELECT: &'static str = "SELECT i.*, n.name, s.name AS series_name\n        FROM (\n        ";

/// The SQL text of the search over `table`: the inner query, joined with the
/// names and series names of the search's language.
pub open spec fn summaries_query_sql(p: SearchParams, table: Seq<char>) -> Seq<char> {
    OUTER_SELECT@ + inner_query_sql(p, table) + "\n) i\nJOIN "@ + p.language.schema()
        + ".character_names n\nON n.id = i.name_id\nJOIN "@ + p.language.schema()
        + ".series_names s\nON s.id = i.series_id"@
}

/// The query of a character search over `table_name`: its text is
/// `summaries_query_sql` and it binds `inner_query_arguments`.
pub fn summaries_query(params: &SearchParams, table_name: &str) -> (query_builder: SqlQuery)
    ensures
        query_open(query_builder),
        query_text(query_builder) == summaries_query_sql(*params, table_name@),
        query_arguments(query_builder) == inner_query_arguments(*params),
{
    let mut query_builder = new_query(OUTER_SELECT);

    build_inner_query(&mut query_builder, params, table_name);

    push_sql(&mut query_builder, "\n) i\nJOIN ");
    push_sql(&mut query_builder, params.language.to_sql());
    push_sql(&mut query_builder, ".character_names n\nON n.id = i.name_id\nJOIN ");
    push_sql(&mut query_builder, params.language.to_sql());
    push_sql(&mut query_builder, ".series_names s\nON s.id = i.series_id");
    assert(query_text(query_builder) =~= summaries_query_sql(*params, table_name@));
    assert(query_arguments(query_builder) =~= inner_query_arguments(*params));
    query_builder
}

/// `Hash::hash`: feeds `value` into `state`. What it writes depends on the
/// type's `Hash` impl and, for lengths and discriminants, on the machine's
/// word size, so nothing is stated of the state afterwards.
#[verifier::external_body]
fn hash_into<T: Hash>(value: &T, state: &mut DefaultHasher) {
    value.hash(state);
}

/// The hash of a value under the standard library's default hasher: the
/// digest that a fresh `DefaultHasher` finishes with once the value has
/// written itself into it. Which bytes the value writes depends on its
/// `Hash` impl and on the machine's word size, so the contract names the
/// digest's input only as some sequence of writes.
pub fn calculate_hash<T: Hash>(t: &T) -> (h: u64)
    ensures
        exists|writes: Seq<Seq<u8>>| h == DefaultHasher::spec_finish(writes),
{
    let mut s = DefaultHasher::new();
    hash_into(t, &mut s);
    let h = s.finish();
    assert(h == DefaultHasher::spec_finish(s@));
    h
}

/// The text of the cache key of a search over `table` whose parameters hash
/// to `hash`.
pub open spec fn cache_key_text(table: Seq<char>, hash: u64) -> Seq<char> {
    table + ":"@ + decimal(hash as nat)
}

/// The cache key of a search over `table_name` whose parameters hash to
/// `hash`: the table's name, a colon and the hash in decimal.
pub fn cache_key(table_name: &str, hash: u64) -> (key: String)
    ensures
        key@ == cache_key_text(table_name@, hash),
{
    let mut key = String::from_str(table_name);
    key.append(":");
    let digits = decimal_text(hash);
    key.append(digits.as_str());
    key
}

/// The eight bytes of `x`, least significant first.
pub open spec fn le_bytes(x: u64) -> Seq<u8> {
    seq![
        (x & 0xff) as u8,
        ((x >> 8u64) & 0xff) as u8,
        ((x >> 16u64) & 0xff) as u8,
        ((x >> 24u64) & 0xff) as u8,
        ((x >> 32u64) & 0xff) as u8,
        ((x >> 40u64) & 0xff) as u8,
        ((x >> 48u64) & 0xff) as u8,
        ((x >> 56u64) & 0xff) as u8,
    ]
}

/// The writes that hashing a list of elements makes: its length, then each
/// element's code, each as eight bytes.
pub open spec fn element_writes(s: Seq<Element>) -> Seq<Seq<u8>> {
    seq![le_bytes(s.len() as u64)] + s.map_values(|e: Element| le_bytes(e.spec_code() as u64))
}

/// The writes that hashing a list of positions makes: its length as eight
/// bytes, then each position's code as one byte.
pub open spec fn position_writes(s: Seq<Position>) -> Seq<Seq<u8>> {
    seq![le_bytes(s.len() as u64)] + s.map_values(|p: Position| seq![p.spec_code()])
}

/// The writes that hashing a list of styles makes: its length, then each
/// style's code, each as eight bytes.
pub open spec fn style_writes(s: Seq<Style>) -> Seq<Seq<u8>> {
    seq![le_bytes(s.len() as u64)] + s.map_values(|st: Style| le_bytes(st.spec_code() as u64))
}

/// The writes that hashing an optional order column makes: 0 for none, or 1
/// then the column's code, each as eight bytes.
pub open spec fn order_writes(order: Option<OrderField>) -> Seq<Seq<u8>> {
    match order {
        Some(o) => seq![le_bytes(1), le_bytes(o.spec_code() as u64)],
        None => seq![le_bytes(0)],
    }
}

/// The writes that hashing a search's parameters makes, field by field: the
/// name's UTF-8 bytes and a closing 0xff byte; the element, position and
/// style lists; the order; the descending flag as one byte; the language's
/// code. These are the writes of the search parameters' derived `Hash` on a
/// 64-bit little-endian machine, with each enumeration hashed by its stored
/// code (a position by one byte, the others by a machine word).
pub open spec fn search_params_writes(p: SearchParams) -> Seq<Seq<u8>> {
    seq![vstd::utf8::encode_utf8(p.name@), seq![0xffu8]] + element_writes(p.element@)
        + position_writes(p.position@) + style_writes(p.style@) + order_writes(p.order) + seq![
        seq![
            if p.descending {
                1u8
            } else {
                0u8
            },
        ],
        le_bytes(p.language.spec_code() as u64),
    ]
}

/// The hash that a search's key holds: the default hasher's digest of the
/// search's writes.
pub open spec fn search_params_hash(p: SearchParams) -> u64 {
    DefaultHasher::spec_finish(search_params_writes(p))
}

/// The eight bytes of `x`, least significant first.
fn u64_le_bytes(x: u64) -> (b: Vec<u8>)
    ensures
        b@ == le_bytes(x),
{
    let mut b: Vec<u8> = Vec::new();
    b.push((x & 0xff) as u8);
    b.push(((x >> 8u64) & 0xff) as u8);
    b.push(((x >> 16u64) & 0xff) as u8);
    b.push(((x >> 24u64) & 0xff) as u8);
    b.push(((x >> 32u64) & 0xff) as u8);
    b.push(((x >> 40u64) & 0xff) as u8);
    b.push(((x >> 48u64) & 0xff) as u8);
    b.push(((x >> 56u64) & 0xff) as u8);
    assert(b@ =~= le_bytes(x));
    b
}

/// Writes `bytes` into the hasher.
fn write_bytes(state: &mut DefaultHasher, bytes: &Vec<u8>)
    ensures
        final(state)@ == old(state)@.push(bytes@),
{
    state.write(bytes.as_slice());
}

/// Writes `x` into the hasher as eight bytes.
fn write_word(state: &mut DefaultHasher, x: u64)
    ensures
        final(state)@ == old(state)@.push(le_bytes(x)),
{
    let b = u64_le_bytes(x);
    write_bytes(state, &b);
}

fn write_elements(state: &mut DefaultHasher, v: &Vec<Element>)
    ensures
        final(state)@ == old(state)@ + element_writes(v@),
{
    let ghost w0 = state@;
    write_word(state, v.len() as u64);
    let mut i: usize = 0;
    while i < v.len()
        invariant
            i <= v@.len(),
            state@ == w0 + seq![le_bytes(v@.len() as u64)] + v@.take(i as int).map_values(
                |e: Element| le_bytes(e.spec_code() as u64),
            ),
        decreases v@.len() - i,
    {
        write_word(state, v[i].code() as u64);
        assert(v@.take(i + 1).map_values(|e: Element| le_bytes(e.spec_code() as u64)) =~= v@.take(i as int).map_values(
            |e: Element| le_bytes(e.spec_code() as u64),
        ).push(le_bytes(v@[i as int].spec_code() as u64)));
        i = i + 1;
    }
    assert(v@.take(v@.len() as int) =~= v@);
    assert(state@ =~= w0 + element_writes(v@));
}

fn write_positions(state: &mut DefaultHasher, v: &Vec<Position>)
    ensures
        final(state)@ == old(state)@ + position_writes(v@),
{
    let ghost w0 = state@;
    write_word(state, v.len() as u64);
    let mut i: usize = 0;
    while i < v.len()
        invariant
            i <= v@.len(),
            state@ == w0 + seq![le_bytes(v@.len() as u64)] + v@.take(i as int).map_values(
                |p: Position| seq![p.spec_code()],
            ),
        decreases v@.len() - i,
    {
        let code = vec![v[i].code()];
        assert(code@ =~= seq![v@[i as int].spec_code()]);
        write_bytes(state, &code);
        assert(v@.take(i + 1).map_values(|p: Position| seq![p.spec_code()]) =~= v@.take(i as int).map_values(
            |p: Position| seq![p.spec_code()],
        ).push(seq![v@[i as int].spec_code()]));
        i = i + 1;
    }
    assert(v@.take(v@.len() as int) =~= v@);
    assert(state@ =~= w0 + position_writes(v@));
}

fn write_styles(state: &mut DefaultHasher, v: &Vec<Style>)
    ensures
        final(state)@ == old(state)@ + style_writes(v@),
{
    let ghost w0 = state@;
    write_word(state, v.len() as u64);
    let mut i: usize = 0;
    while i < v.len()
        invariant
            i <= v@.len(),
            state@ == w0 + seq![le_bytes(v@.len() as u64)] + v@.take(i as int).map_values(
                |st: Style| le_bytes(st.spec_code() as u64),
            ),
        decreases v@.len() - i,
    {
        write_word(state, v[i].code() as u64);
        assert(v@.take(i + 1).map_values(|st: Style| le_bytes(st.spec_code() as u64)) =~= v@.take(i as int).map_values(
            |st: Style| le_bytes(st.spec_code() as u64),
        ).push(le_bytes(v@[i as int].spec_code() as u64)));
        i = i + 1;
    }
    assert(v@.take(v@.len() as int) =~= v@);
    assert(state@ =~= w0 + style_writes(v@));
}

/// The hash of a search's parameters: the default hasher's digest of the
/// search's writes (`search_params_hash`). On a 64-bit little-endian
/// machine these are the writes of the parameters' derived `Hash`, so the
/// digest is that hash; on any machine equal parameters hash equally.
pub fn search_params_digest(params: &SearchParams) -> (h: u64)
    ensures
        h == search_params_hash(*params),
{
    let mut s = DefaultHasher::new();
    let ghost w0 = s@;
    let mut name: Vec<u8> = Vec::new();
    name.extend_from_slice(params.name.as_str().as_bytes());
    assert(name@ =~= vstd::utf8::encode_utf8(params.name@));
    write_bytes(&mut s, &name);
    let end = vec![0xffu8];
    assert(end@ =~= seq![0xffu8]);
    write_bytes(&mut s, &end);
    write_elements(&mut s, &params.element);
    write_positions(&mut s, &params.position);
    write_styles(&mut s, &params.style);
    match &params.order {
        Some(o) => {
            write_word(&mut s, 1);
            write_word(&mut s, o.code() as u64);
        },
        None => {
            write_word(&mut s, 0);
        },
    }
    let flag = vec![if params.descending { 1u8 } else { 0u8 }];
    assert(flag@ =~= seq![if params.descending { 1u8 } else { 0u8 }]);
    write_bytes(&mut s, &flag);
    write_word(&mut s, params.language.code() as u64);
    assert(s@ =~= search_params_writes(*params));
    s.finish()
}

/// The cache key of a search over `table_name` with `params`: the table's
/// name, a colon and the decimal hash of the parameters. The hash is taken
/// over the writes of the parameters' derived `Hash` on a 64-bit
/// little-endian machine (`search_params_writes`), so there the key is the
/// one that hashing the parameters with the default hasher gives; equal
/// parameters give equal keys on any machine.
pub fn summaries_cache_key(table_name: &str, params: &SearchParams) -> (key: String)
    ensures
        key@ == cache_key_text(table_name@, search_params_hash(*params)),
{
    let hash = search_params_digest(params);
    cache_key(table_name, hash)
}

/// The summaries that the rows hold, in the rows' order, leaving out the
/// rows that do not hold one.
pub open spec fn summaries_of_rows(rows: Seq<CharacterRow>) -> Seq<CharacterSummary>
    decreases rows.len(),
{
    if rows.len() == 0 {
        Seq::empty()
    } else {
        let before = summaries_of_rows(rows.drop_last());
        match summary_of_row(rows.last()) {
            Some(s) => before.push(s),
            None => before,
        }
    }
}

/// Reads the summaries of the search's rows, in order, leaving out the rows
/// whose statistics could not be read.
pub fn parse_summaries(rows: Vec<CharacterRow>) -> (summaries: Vec<CharacterSummary>)
    ensures
        summaries@ == summaries_of_rows(rows@),
{
    let ghost all = rows@;
    let mut summaries: Vec<CharacterSummary> = Vec::new();
    for row in it: rows.into_iter()
        invariant
            it.seq() == all,
            summaries@ == summaries_of_rows(all.take(it.index() as int)),
    {
        let ghost i = it.index();
        assert(all.take(i + 1).drop_last() =~= all.take(i as int));
        if let Some(summary) = CharacterSummary::parse(row) {
            summaries.push(summary);
        }
    }
    assert(all.take(all.len() as int) =~= all);
    summaries
}

/// The status that a search answers a database error with.
pub const INTERNAL_SERVER_ERROR: u16 = 500;

/// What a search does once it has looked its key up in the cache: answer
/// with what the cache held, or run its query.
pub enum SummariesStep<T> {
    Answer(T),
    Query(SqlQuery),
}

/// The step of a search over `table_name` after its cache lookup: a hit is
/// the answer, and a miss runs `summaries_query`.
pub fn summaries_after_lookup<T>(cached: Option<T>, params: &SearchParams, table_name: &str) -> (step:
    SummariesStep<T>)
    ensures
        match cached {
            Some(v) => step == SummariesStep::<T>::Answer(v),
            None => match step {
                SummariesStep::Query(q) => {
                    &&& query_open(q)
                    &&& query_text(q) == summaries_query_sql(*params, table_name@)
                    &&& query_arguments(q) == inner_query_arguments(*params)
                },
                SummariesStep::Answer(_) => false,
            },
        },
{
    match cached {
        Some(v) => SummariesStep::Answer(v),
        None => SummariesStep::Query(summaries_query(params, table_name)),
    }
}

/// The answer of a search to its query's outcome: the summaries of the
/// fetched rows (which the cache then keeps), or, where the database failed,
/// `INTERNAL_SERVER_ERROR` (and nothing is cached).
pub fn summaries_after_fetch(fetched: Option<Vec<CharacterRow>>) -> (answer: Result<
    Vec<CharacterSummary>,
    u16,
>)
    ensures
        match fetched {
            Some(rows) => answer matches Ok(s) && s@ == summaries_of_rows(rows@),
            None => answer == Err::<Vec<CharacterSummary>, u16>(INTERNAL_SERVER_ERROR),
        },
{
    match fetched {
        Some(rows) => Ok(parse_summaries(rows)),
        None => Err(INTERNAL_SERVER_ERROR),
    }
}

} // verus!
