//! Properties of the library that relate several of its functions.

use vstd::prelude::*;

use crate::models::common::{Element, Position, Style};
use crate::models::character_summary::{summary_of_row, CharacterRow, CharacterSummary};
use crate::models::common::StatsColumns;
use crate::models::skill::{aura_of_row, hissatsu_of_row, AuraRow, AuraType, Category, HissatsuRow};
use crate::routes::characters::summaries_of_rows;
use crate::routes::characters::{
    element_writes, le_bytes, order_writes, position_writes, search_params_hash,
    search_params_writes, style_writes, bind_list, cache_key_text, filter_sql, inner_query_arguments, inner_query_sql, order_sql,
    summaries_query_sql, Language, OrderField, SearchParams, INNER_SELECT, OUTER_SELECT,
};
use crate::setup::attached_languages;
use crate::translations::text_table_of_rows;
use vstd::seq_lib::lemma_flatten_concat;

verus! {

/// Reading back the code that an element is stored as gives the element.
pub proof fn element_code_round_trip(e: Element)
    ensures
        Element::from_code(e.spec_code() as int) == e,
{
}

/// Reading back the code that a position is stored as gives the position.
pub proof fn position_code_round_trip(p: Position)
    ensures
        Position::from_code(p.spec_code() as int) == p,
{
}

/// Reading back the code that a style is stored as gives the style.
pub proof fn style_code_round_trip(s: Style)
    ensures
        Style::from_code(s.spec_code() as int) == s,
{
}

/// Reading back the code that a category is stored as gives the category,
/// and every category's code is one that may be read.
pub proof fn category_code_round_trip(c: Category)
    ensures
        1 <= c.spec_code() <= 4,
        Category::from_code(c.spec_code()) == c,
{
}

/// Reading back the code that an aura type is stored as gives the aura
/// type, and every aura type's code is one that may be read.
pub proof fn aura_type_code_round_trip(t: AuraType)
    ensures
        t.spec_code() <= 7,
        AuraType::from_code(t.spec_code()) == t,
{
}

/// Every language that a search may ask for is one whose text database each
/// connection attaches.
pub proof fn search_languages_are_attached(l: Language)
    ensures
        attached_languages().contains(l.schema()),
{
    let langs = attached_languages();
    match l {
        Language::DE => assert(langs[0] == l.schema()),
        Language::EN => assert(langs[1] == l.schema()),
        Language::ES => assert(langs[2] == l.schema()),
        Language::FR => assert(langs[3] == l.schema()),
        Language::IT => assert(langs[4] == l.schema()),
        Language::JA => assert(langs[5] == l.schema()),
        Language::PT => assert(langs[6] == l.schema()),
        Language::ZH_HANS => assert(langs[7] == l.schema()),
        Language::ZH_HANT => assert(langs[8] == l.schema()),
    }
}

/// Searches over two different tables never share a cache key, whatever
/// their parameters hash to, where neither table's name holds a colon.
pub proof fn cache_keys_of_tables_differ(t1: Seq<char>, t2: Seq<char>, h1: u64, h2: u64)
    requires
        t1 != t2,
        !t1.contains(':'),
        !t2.contains(':'),
    ensures
        cache_key_text(t1, h1) != cache_key_text(t2, h2),
{
    reveal_strlit(":");
    let k1 = cache_key_text(t1, h1);
    let k2 = cache_key_text(t2, h2);
    if k1 == k2 {
        if t1.len() < t2.len() {
            assert(k1[t1.len() as int] == ':');
            assert(k2[t1.len() as int] == t2[t1.len() as int]);
        } else if t2.len() < t1.len() {
            assert(k2[t2.len() as int] == ':');
            assert(k1[t2.len() as int] == t1[t2.len() as int]);
        } else {
            assert(t1 =~= k1.take(t1.len() as int));
            assert(t2 =~= k2.take(t2.len() as int));
        }
    }
}

/// Every id of a text table's rows is in the table, and the table holds no
/// other id.
pub proof fn text_table_holds_row_ids(rows: Seq<(i32, String)>)
    ensures
        forall|id: i32|
            #[trigger] text_table_of_rows(rows).contains_key(id) <==> exists|i: int|
                0 <= i < rows.len() && rows[i].0 == id,
    decreases rows.len(),
{
    if rows.len() > 0 {
        text_table_holds_row_ids(rows.drop_last());
        assert forall|id: i32|
            #[trigger] text_table_of_rows(rows).contains_key(id) <==> exists|i: int|
                0 <= i < rows.len() && rows[i].0 == id by {
            let before = text_table_of_rows(rows.drop_last());
            if text_table_of_rows(rows).contains_key(id) && id != rows.last().0 {
                assert(before.contains_key(id));
                let i = choose|i: int| 0 <= i < rows.drop_last().len() && rows.drop_last()[i].0 == id;
                assert(rows[i].0 == id);
            }
            if exists|i: int| 0 <= i < rows.len() && rows[i].0 == id {
                let i = choose|i: int| 0 <= i < rows.len() && rows[i].0 == id;
                if i < rows.len() - 1 {
                    assert(rows.drop_last()[i].0 == id);
                    assert(before.contains_key(id));
                }
            }
        }
    }
}

/// A text table maps each id to the text of the last row with that id: a
/// row whose id no later row repeats holds the id's text.
pub proof fn text_table_keeps_last_row(rows: Seq<(i32, String)>, i: int)
    requires
        0 <= i < rows.len(),
        forall|j: int| i < j < rows.len() ==> #[trigger] rows[j].0 != rows[i].0,
    ensures
        text_table_of_rows(rows).contains_key(rows[i].0),
        text_table_of_rows(rows)[rows[i].0] == rows[i].1,
    decreases rows.len(),
{
    if i < rows.len() - 1 {
        let before = rows.drop_last();
        assert forall|j: int| i < j < before.len() implies #[trigger] before[j].0 != before[i].0 by {
            assert(before[j] == rows[j]);
        }
        text_table_keeps_last_row(before, i);
        assert(rows.last() == rows[rows.len() - 1]);
    }
}

/// The text of a character search depends on its filter lists only through
/// their lengths: the filter values themselves are bound, never written into
/// the SQL. Neither the text nor the bound values depend on the searched
/// name.
pub proof fn search_text_depends_on_list_lengths_only(
    p1: SearchParams,
    p2: SearchParams,
    table: Seq<char>,
)
    requires
        p1.element@.len() == p2.element@.len(),
        p1.position@.len() == p2.position@.len(),
        p1.style@.len() == p2.style@.len(),
        p1.order == p2.order,
        p1.descending == p2.descending,
        p1.language == p2.language,
    ensures
        summaries_query_sql(p1, table) == summaries_query_sql(p2, table),
        (p1.element@ == p2.element@ && p1.position@ == p2.position@ && p1.style@ == p2.style@)
            ==> inner_query_arguments(p1) == inner_query_arguments(p2),
{
    assert(filter_sql(p1) == filter_sql(p2));
    assert(order_sql(p1) == order_sql(p2));
}

/// Whether `part` occurs in `text` at `at`.
pub open spec fn occurs_at(text: Seq<char>, part: Seq<char>, at: int) -> bool {
    0 <= at && at + part.len() <= text.len() && text.subrange(at, at + part.len()) == part
}

/// The inner query of a search selects every column that the search's
/// ordering and the outer query's joins refer to: each order column,
/// `name_id` and `series_id`.
pub proof fn inner_query_selects_referenced_columns(o: OrderField)
    ensures
        exists|at: int| occurs_at(INNER_SELECT@, o.column(), at),
        exists|at: int| occurs_at(INNER_SELECT@, "name_id"@, at),
        exists|at: int| occurs_at(INNER_SELECT@, "series_id"@, at),
{
    let text = INNER_SELECT@;
    reveal_strlit("SELECT index_id, name_id, element, main_position, style, series_id, lvl50_kick, lvl50_control, lvl50_technique, lvl50_pressure, lvl50_physical, lvl50_agility, lvl50_intelligence\n        FROM ");
    reveal_strlit("name_id");
    reveal_strlit("series_id");
    reveal_strlit("lvl50_kick");
    reveal_strlit("lvl50_control");
    reveal_strlit("lvl50_technique");
    reveal_strlit("lvl50_pressure");
    reveal_strlit("lvl50_physical");
    reveal_strlit("lvl50_agility");
    reveal_strlit("lvl50_intelligence");
    assert(occurs_at(text, "name_id"@, 17)) by {
        assert(text.subrange(17, 24) =~= "name_id"@);
    }
    assert(occurs_at(text, "series_id"@, 57)) by {
        assert(text.subrange(57, 66) =~= "series_id"@);
    }
    match o {
        OrderField::Kick => {
            assert(text.subrange(68, 78) =~= o.column());
            assert(occurs_at(text, o.column(), 68));
        },
        OrderField::Control => {
            assert(text.subrange(80, 93) =~= o.column());
            assert(occurs_at(text, o.column(), 80));
        },
        OrderField::Technique => {
            assert(text.subrange(95, 110) =~= o.column());
            assert(occurs_at(text, o.column(), 95));
        },
        OrderField::Pressure => {
            assert(text.subrange(112, 126) =~= o.column());
            assert(occurs_at(text, o.column(), 112));
        },
        OrderField::Physical => {
            assert(text.subrange(128, 142) =~= o.column());
            assert(occurs_at(text, o.column(), 128));
        },
        OrderField::Agility => {
            assert(text.subrange(144, 157) =~= o.column());
            assert(occurs_at(text, o.column(), 144));
        },
        OrderField::Intelligence => {
            assert(text.subrange(159, 177) =~= o.column());
            assert(occurs_at(text, o.column(), 159));
        },
    }
}

/// Searches with equal parameters share their cache key: the key is a
/// function of the table's name and the parameters' values.
pub proof fn equal_searches_share_a_cache_key(p1: SearchParams, p2: SearchParams, table: Seq<char>)
    requires
        p1.name@ == p2.name@,
        p1.element@ == p2.element@,
        p1.position@ == p2.position@,
        p1.style@ == p2.style@,
        p1.order == p2.order,
        p1.descending == p2.descending,
        p1.language == p2.language,
    ensures
        search_params_writes(p1) == search_params_writes(p2),
        cache_key_text(table, search_params_hash(p1)) == cache_key_text(
            table,
            search_params_hash(p2),
        ),
{
}

proof fn lemma_le_bytes_injective(x: u64, y: u64)
    requires
        le_bytes(x) == le_bytes(y),
    ensures
        x == y,
{
    assert(le_bytes(x)[0] == le_bytes(y)[0]);
    assert(le_bytes(x)[1] == le_bytes(y)[1]);
    assert(le_bytes(x)[2] == le_bytes(y)[2]);
    assert(le_bytes(x)[3] == le_bytes(y)[3]);
    assert(le_bytes(x)[4] == le_bytes(y)[4]);
    assert(le_bytes(x)[5] == le_bytes(y)[5]);
    assert(le_bytes(x)[6] == le_bytes(y)[6]);
    assert(le_bytes(x)[7] == le_bytes(y)[7]);
    assert(x == y) by (bit_vector)
        requires
            (x & 0xff) as u8 == (y & 0xff) as u8,
            ((x >> 8u64) & 0xff) as u8 == ((y >> 8u64) & 0xff) as u8,
            ((x >> 16u64) & 0xff) as u8 == ((y >> 16u64) & 0xff) as u8,
            ((x >> 24u64) & 0xff) as u8 == ((y >> 24u64) & 0xff) as u8,
            ((x >> 32u64) & 0xff) as u8 == ((y >> 32u64) & 0xff) as u8,
            ((x >> 40u64) & 0xff) as u8 == ((y >> 40u64) & 0xff) as u8,
            ((x >> 48u64) & 0xff) as u8 == ((y >> 48u64) & 0xff) as u8,
            ((x >> 56u64) & 0xff) as u8 == ((y >> 56u64) & 0xff) as u8,
    ;
}

proof fn lemma_split_equal<A>(a1: Seq<A>, b1: Seq<A>, a2: Seq<A>, b2: Seq<A>)
    requires
        a1 + b1 == a2 + b2,
        a1.len() == a2.len(),
    ensures
        a1 == a2,
        b1 == b2,
{
    assert(a1 =~= (a1 + b1).take(a1.len() as int));
    assert(a2 =~= (a2 + b2).take(a2.len() as int));
    assert(b1 =~= (a1 + b1).skip(a1.len() as int));
    assert(b2 =~= (a2 + b2).skip(a2.len() as int));
}

proof fn lemma_elements_peel(s1: Seq<Element>, r1: Seq<Seq<u8>>, s2: Seq<Element>, r2: Seq<Seq<u8>>)
    requires
        s1.len() <= u64::MAX,
        s2.len() <= u64::MAX,
        element_writes(s1) + r1 == element_writes(s2) + r2,
    ensures
        s1 == s2,
        r1 == r2,
{
    assert((element_writes(s1) + r1)[0] == le_bytes(s1.len() as u64));
    assert((element_writes(s2) + r2)[0] == le_bytes(s2.len() as u64));
    lemma_le_bytes_injective(s1.len() as u64, s2.len() as u64);
    lemma_split_equal(element_writes(s1), r1, element_writes(s2), r2);
    assert forall|i: int| 0 <= i < s1.len() implies s1[i] == s2[i] by {
        assert(element_writes(s1)[i + 1] == element_writes(s2)[i + 1]);
        lemma_le_bytes_injective(s1[i].spec_code() as u64, s2[i].spec_code() as u64);
        element_code_round_trip(s1[i]);
        element_code_round_trip(s2[i]);
    }
    assert(s1 =~= s2);
}

proof fn lemma_positions_peel(s1: Seq<Position>, r1: Seq<Seq<u8>>, s2: Seq<Position>, r2: Seq<Seq<u8>>)
    requires
        s1.len() <= u64::MAX,
        s2.len() <= u64::MAX,
        position_writes(s1) + r1 == position_writes(s2) + r2,
    ensures
        s1 == s2,
        r1 == r2,
{
    assert((position_writes(s1) + r1)[0] == le_bytes(s1.len() as u64));
    assert((position_writes(s2) + r2)[0] == le_bytes(s2.len() as u64));
    lemma_le_bytes_injective(s1.len() as u64, s2.len() as u64);
    lemma_split_equal(position_writes(s1), r1, position_writes(s2), r2);
    assert forall|i: int| 0 <= i < s1.len() implies s1[i] == s2[i] by {
        assert(position_writes(s1)[i + 1] == position_writes(s2)[i + 1]);
        assert(seq![s1[i].spec_code()][0] == seq![s2[i].spec_code()][0]);
        position_code_round_trip(s1[i]);
        position_code_round_trip(s2[i]);
    }
    assert(s1 =~= s2);
}

proof fn lemma_styles_peel(s1: Seq<Style>, r1: Seq<Seq<u8>>, s2: Seq<Style>, r2: Seq<Seq<u8>>)
    requires
        s1.len() <= u64::MAX,
        s2.len() <= u64::MAX,
        style_writes(s1) + r1 == style_writes(s2) + r2,
    ensures
        s1 == s2,
        r1 == r2,
{
    assert((style_writes(s1) + r1)[0] == le_bytes(s1.len() as u64));
    assert((style_writes(s2) + r2)[0] == le_bytes(s2.len() as u64));
    lemma_le_bytes_injective(s1.len() as u64, s2.len() as u64);
    lemma_split_equal(style_writes(s1), r1, style_writes(s2), r2);
    assert forall|i: int| 0 <= i < s1.len() implies s1[i] == s2[i] by {
        assert(style_writes(s1)[i + 1] == style_writes(s2)[i + 1]);
        lemma_le_bytes_injective(s1[i].spec_code() as u64, s2[i].spec_code() as u64);
        style_code_round_trip(s1[i]);
        style_code_round_trip(s2[i]);
    }
    assert(s1 =~= s2);
}

spec fn last_writes(p: SearchParams) -> Seq<Seq<u8>> {
    seq![
        seq![
            if p.descending {
                1u8
            } else {
                0u8
            },
        ],
        le_bytes(p.language.spec_code() as u64),
    ]
}

proof fn lemma_tail_peel(p1: SearchParams, p2: SearchParams)
    requires
        order_writes(p1.order) + last_writes(p1) == order_writes(p2.order) + last_writes(p2),
    ensures
        p1.order == p2.order,
        p1.descending == p2.descending,
        p1.language == p2.language,
{
    let t1 = order_writes(p1.order) + last_writes(p1);
    let t2 = order_writes(p2.order) + last_writes(p2);
    assert(t1[0] == order_writes(p1.order)[0]);
    assert(t2[0] == order_writes(p2.order)[0]);
    match (p1.order, p2.order) {
        (Some(o1), None) => {
            lemma_le_bytes_injective(1, 0);
        },
        (None, Some(o2)) => {
            lemma_le_bytes_injective(0, 1);
        },
        (Some(o1), Some(o2)) => {
            assert(t1[1] == t2[1]);
            lemma_le_bytes_injective(o1.spec_code() as u64, o2.spec_code() as u64);
        },
        (None, None) => {},
    }
    lemma_split_equal(order_writes(p1.order), last_writes(p1), order_writes(p2.order), last_writes(p2));
    assert(last_writes(p1)[0] == last_writes(p2)[0]);
    assert(last_writes(p1)[0][0] == last_writes(p2)[0][0]);
    assert(last_writes(p1)[1] == last_writes(p2)[1]);
    lemma_le_bytes_injective(p1.language.spec_code() as u64, p2.language.spec_code() as u64);
}

spec fn name_writes(p: SearchParams) -> Seq<Seq<u8>> {
    seq![vstd::utf8::encode_utf8(p.name@), seq![0xffu8]]
}

spec fn writes_after_styles(p: SearchParams) -> Seq<Seq<u8>> {
    order_writes(p.order) + last_writes(p)
}

spec fn writes_after_positions(p: SearchParams) -> Seq<Seq<u8>> {
    style_writes(p.style@) + writes_after_styles(p)
}

spec fn writes_after_elements(p: SearchParams) -> Seq<Seq<u8>> {
    position_writes(p.position@) + writes_after_positions(p)
}

spec fn writes_after_name(p: SearchParams) -> Seq<Seq<u8>> {
    element_writes(p.element@) + writes_after_elements(p)
}

proof fn lemma_writes_shape(p: SearchParams)
    ensures
        search_params_writes(p) == name_writes(p) + writes_after_name(p),
        name_writes(p).len() == 2,
        p.element@.len() <= u64::MAX,
        p.position@.len() <= u64::MAX,
        p.style@.len() <= u64::MAX,
{
    assert(p.element@.len() == p.element.len());
    assert(p.position@.len() == p.position.len());
    assert(p.style@.len() == p.style.len());
    assert(search_params_writes(p) =~= name_writes(p) + writes_after_name(p));
}

proof fn lemma_name_writes_identify(p1: SearchParams, p2: SearchParams)
    requires
        name_writes(p1) == name_writes(p2),
    ensures
        p1.name@ == p2.name@,
{
    assert(name_writes(p1)[0] == name_writes(p2)[0]);
    vstd::utf8::encode_utf8_decode_utf8(p1.name@);
    vstd::utf8::encode_utf8_decode_utf8(p2.name@);
}

/// Searches with different parameters make different writes: the writes
/// that a search's hash is taken of determine every one of its parameters,
/// so two searches share a cache key only where the hasher's digests
/// collide.
pub proof fn search_writes_identify_params(p1: SearchParams, p2: SearchParams)
    requires
        search_params_writes(p1) == search_params_writes(p2),
    ensures
        p1.name@ == p2.name@,
        p1.element@ == p2.element@,
        p1.position@ == p2.position@,
        p1.style@ == p2.style@,
        p1.order == p2.order,
        p1.descending == p2.descending,
        p1.language == p2.language,
{
    lemma_writes_shape(p1);
    lemma_writes_shape(p2);
    lemma_split_equal(name_writes(p1), writes_after_name(p1), name_writes(p2), writes_after_name(p2));
    lemma_name_writes_identify(p1, p2);
    lemma_elements_peel(p1.element@, writes_after_elements(p1), p2.element@, writes_after_elements(p2));
    lemma_positions_peel(p1.position@, writes_after_positions(p1), p2.position@, writes_after_positions(p2));
    lemma_styles_peel(p1.style@, writes_after_styles(p1), p2.style@, writes_after_styles(p2));
    lemma_tail_peel(p1, p2);
}

/// The number of placeholders (`?`) in a SQL text.
pub open spec fn placeholder_count(s: Seq<char>) -> nat
    decreases s.len(),
{
    if s.len() == 0 {
        0
    } else {
        placeholder_count(s.drop_last()) + if s.last() == '?' {
            1nat
        } else {
            0nat
        }
    }
}

proof fn lemma_count_concat(a: Seq<char>, b: Seq<char>)
    ensures
        placeholder_count(a + b) == placeholder_count(a) + placeholder_count(b),
    decreases b.len(),
{
    if b.len() == 0 {
        assert(a + b =~= a);
    } else {
        lemma_count_concat(a, b.drop_last());
        assert((a + b).drop_last() =~= a + b.drop_last());
    }
}

proof fn lemma_count_free(s: Seq<char>)
    requires
        !s.contains('?'),
    ensures
        placeholder_count(s) == 0,
    decreases s.len(),
{
    if s.len() > 0 {
        assert(!s.drop_last().contains('?')) by {
            if s.drop_last().contains('?') {
                let i = choose|i: int| 0 <= i < s.drop_last().len() && s.drop_last()[i] == '?';
                assert(s[i] == '?');
            }
        }
        lemma_count_free(s.drop_last());
        assert(s.last() != '?') by {
            assert(s[s.len() - 1] == s.last());
        }
    }
}

proof fn lemma_count_single(c: char)
    ensures
        placeholder_count(seq![c]) == if c == '?' {
            1nat
        } else {
            0nat
        },
{
    assert(seq![c].drop_last() =~= Seq::<char>::empty());
    assert(placeholder_count(Seq::<char>::empty()) == 0);
}

proof fn lemma_bind_list_count(n: nat)
    ensures
        placeholder_count(bind_list(n)) == n,
    decreases n,
{
    reveal_strlit("?");
    reveal_strlit(",");
    assert("?"@ =~= seq!['?']);
    assert(","@ =~= seq![',']);
    lemma_count_single('?');
    lemma_count_single(',');
    if n > 1 {
        lemma_bind_list_count((n - 1) as nat);
        lemma_count_concat(bind_list((n - 1) as nat), ","@);
        lemma_count_concat(bind_list((n - 1) as nat) + ","@, "?"@);
    } else if n == 0 {
        assert(placeholder_count(Seq::<char>::empty()) == 0);
    }
}

proof fn lemma_filter_count(p: SearchParams)
    ensures
        placeholder_count(filter_sql(p)) == inner_query_arguments(p).len(),
{
    let e = p.element@.len();
    let pn = p.position@.len();
    let sn = p.style@.len();
    reveal_strlit("WHERE element IN (");
    reveal_strlit("AND main_position IN (");
    reveal_strlit("WHERE main_position IN (");
    reveal_strlit("AND style IN (");
    reveal_strlit("WHERE style IN (");
    reveal_strlit(")\n");
    lemma_count_free("WHERE element IN ("@);
    lemma_count_free("AND main_position IN ("@);
    lemma_count_free("WHERE main_position IN ("@);
    lemma_count_free("AND style IN ("@);
    lemma_count_free("WHERE style IN ("@);
    lemma_count_free(")\n"@);
    lemma_count_free(Seq::<char>::empty());
    lemma_bind_list_count(e);
    lemma_bind_list_count(pn);
    lemma_bind_list_count(sn);
    let ef = if e > 0 {
        "WHERE element IN ("@ + bind_list(e) + ")\n"@
    } else {
        Seq::empty()
    };
    let pf = if pn > 0 {
        (if e > 0 {
            "AND main_position IN ("@
        } else {
            "WHERE main_position IN ("@
        }) + bind_list(pn) + ")\n"@
    } else {
        Seq::empty()
    };
    let sf = if sn > 0 {
        (if e > 0 || pn > 0 {
            "AND style IN ("@
        } else {
            "WHERE style IN ("@
        }) + bind_list(sn) + ")\n"@
    } else {
        Seq::empty()
    };
    if e > 0 {
        lemma_count_concat("WHERE element IN ("@, bind_list(e));
        lemma_count_concat("WHERE element IN ("@ + bind_list(e), ")\n"@);
    }
    if pn > 0 {
        let opener = if e > 0 {
            "AND main_position IN ("@
        } else {
            "WHERE main_position IN ("@
        };
        lemma_count_concat(opener, bind_list(pn));
        lemma_count_concat(opener + bind_list(pn), ")\n"@);
    }
    if sn > 0 {
        let opener = if e > 0 || pn > 0 {
            "AND style IN ("@
        } else {
            "WHERE style IN ("@
        };
        lemma_count_concat(opener, bind_list(sn));
        lemma_count_concat(opener + bind_list(sn), ")\n"@);
    }
    lemma_count_concat(ef, pf);
    lemma_count_concat(ef + pf, sf);
    assert(filter_sql(p) == ef + pf + sf);
}

proof fn lemma_column_free(o: OrderField)
    ensures
        !o.column().contains('?'),
{
    reveal_strlit("lvl50_kick");
    reveal_strlit("lvl50_control");
    reveal_strlit("lvl50_technique");
    reveal_strlit("lvl50_pressure");
    reveal_strlit("lvl50_physical");
    reveal_strlit("lvl50_agility");
    reveal_strlit("lvl50_intelligence");
}

proof fn lemma_schema_free(l: Language)
    ensures
        !l.schema().contains('?'),
{
    reveal_strlit("de");
    reveal_strlit("en");
    reveal_strlit("es");
    reveal_strlit("fr");
    reveal_strlit("it");
    reveal_strlit("ja");
    reveal_strlit("pt");
    reveal_strlit("zh_hans");
    reveal_strlit("zh_hant");
}

proof fn lemma_order_count(p: SearchParams)
    ensures
        placeholder_count(order_sql(p)) == 0,
{
    reveal_strlit("ORDER BY ");
    reveal_strlit(" DESC");
    reveal_strlit("\n");
    lemma_count_free(Seq::<char>::empty());
    match p.order {
        Some(o) => {
            lemma_column_free(o);
            lemma_count_free("ORDER BY "@);
            lemma_count_free(o.column());
            lemma_count_free(" DESC"@);
            lemma_count_free("\n"@);
            let desc = if p.descending {
                " DESC"@
            } else {
                Seq::empty()
            };
            lemma_count_concat("ORDER BY "@, o.column());
            lemma_count_concat("ORDER BY "@ + o.column(), desc);
            lemma_count_concat("ORDER BY "@ + o.column() + desc, "\n"@);
        },
        None => {},
    }
}

/// The text of a character search holds exactly one placeholder for each
/// value it binds, where the table's name holds none.
pub proof fn search_query_placeholders_match_arguments(p: SearchParams, table: Seq<char>)
    requires
        !table.contains('?'),
    ensures
        placeholder_count(inner_query_sql(p, table)) == inner_query_arguments(p).len(),
        placeholder_count(summaries_query_sql(p, table)) == inner_query_arguments(p).len(),
{
    reveal_strlit("SELECT index_id, name_id, element, main_position, style, series_id, lvl50_kick, lvl50_control, lvl50_technique, lvl50_pressure, lvl50_physical, lvl50_agility, lvl50_intelligence\n        FROM ");
    reveal_strlit("SELECT i.*, n.name, s.name AS series_name\n        FROM (\n        ");
    reveal_strlit("\n");
    reveal_strlit("LIMIT 200");
    reveal_strlit("\n) i\nJOIN ");
    reveal_strlit(".character_names n\nON n.id = i.name_id\nJOIN ");
    reveal_strlit(".series_names s\nON s.id = i.series_id");
    lemma_count_free(INNER_SELECT@);
    lemma_count_free(table);
    lemma_count_free("\n"@);
    lemma_count_free("LIMIT 200"@);
    lemma_filter_count(p);
    lemma_order_count(p);
    lemma_count_concat(INNER_SELECT@, table);
    lemma_count_concat(INNER_SELECT@ + table, "\n"@);
    lemma_count_concat(INNER_SELECT@ + table + "\n"@, filter_sql(p));
    lemma_count_concat(INNER_SELECT@ + table + "\n"@ + filter_sql(p), order_sql(p));
    lemma_count_concat(INNER_SELECT@ + table + "\n"@ + filter_sql(p) + order_sql(p), "LIMIT 200"@);
    let inner = inner_query_sql(p, table);
    let schema = p.language.schema();
    lemma_schema_free(p.language);
    lemma_count_free(OUTER_SELECT@);
    lemma_count_free("\n) i\nJOIN "@);
    lemma_count_free(schema);
    lemma_count_free(".character_names n\nON n.id = i.name_id\nJOIN "@);
    lemma_count_free(".series_names s\nON s.id = i.series_id"@);
    let a1 = OUTER_SELECT@ + inner;
    let a2 = a1 + "\n) i\nJOIN "@;
    let a3 = a2 + schema;
    let a4 = a3 + ".character_names n\nON n.id = i.name_id\nJOIN "@;
    let a5 = a4 + schema;
    lemma_count_concat(OUTER_SELECT@, inner);
    lemma_count_concat(a1, "\n) i\nJOIN "@);
    lemma_count_concat(a2, schema);
    lemma_count_concat(a3, ".character_names n\nON n.id = i.name_id\nJOIN "@);
    lemma_count_concat(a4, schema);
    lemma_count_concat(a5, ".series_names s\nON s.id = i.series_id"@);
}

/// An `IN` filter on `column` over `n` bound values.
pub open spec fn in_filter(column: Seq<char>, n: nat) -> Seq<char> {
    column + " IN ("@ + bind_list(n) + ")\n"@
}

/// Filters joined into one condition: the first opened by `opener`, each
/// later one by `AND `.
pub open spec fn joined_filters(filters: Seq<Seq<char>>, opener: Seq<char>) -> Seq<char>
    decreases filters.len(),
{
    if filters.len() == 0 {
        Seq::empty()
    } else {
        opener + filters[0] + joined_filters(filters.drop_first(), "AND "@)
    }
}

/// The filters that a search asks for, in order: one for each nonempty
/// list among the elements, the positions and the styles.
pub open spec fn search_filters(p: SearchParams) -> Seq<Seq<char>> {
    let e = p.element@.len();
    let pn = p.position@.len();
    let sn = p.style@.len();
    (if e > 0 {
        seq![in_filter("element"@, e)]
    } else {
        Seq::empty()
    }) + (if pn > 0 {
        seq![in_filter("main_position"@, pn)]
    } else {
        Seq::empty()
    }) + (if sn > 0 {
        seq![in_filter("style"@, sn)]
    } else {
        Seq::empty()
    })
}

/// The filter text of a search is its filters joined into one condition:
/// the first filter present, whichever list it is on, is opened by `WHERE`
/// and every later one by `AND`; a search with no filter has no filter
/// text. So a search on styles alone filters by `WHERE style IN (..)`.
pub proof fn search_filters_open_with_where_once(p: SearchParams)
    ensures
        filter_sql(p) == joined_filters(search_filters(p), "WHERE "@),
        search_filters(p).len() == 0 <==> filter_sql(p).len() == 0,
        (p.element@.len() == 0 && p.position@.len() == 0 && p.style@.len() > 0) ==> filter_sql(p)
            == "WHERE style IN ("@ + bind_list(p.style@.len()) + ")\n"@,
{
    let e = p.element@.len();
    let pn = p.position@.len();
    let sn = p.style@.len();
    reveal_strlit("WHERE element IN (");
    reveal_strlit("AND main_position IN (");
    reveal_strlit("WHERE main_position IN (");
    reveal_strlit("AND style IN (");
    reveal_strlit("WHERE style IN (");
    reveal_strlit(")\n");
    reveal_strlit(" IN (");
    reveal_strlit("WHERE ");
    reveal_strlit("AND ");
    reveal_strlit("element");
    reveal_strlit("main_position");
    reveal_strlit("style");
    reveal_with_fuel(joined_filters, 4);
    let fe = in_filter("element"@, e);
    let fp = in_filter("main_position"@, pn);
    let fs = in_filter("style"@, sn);
    let we = "WHERE "@ + fe;
    let wp = "WHERE "@ + fp;
    let ws = "WHERE "@ + fs;
    let ap = "AND "@ + fp;
    let as_ = "AND "@ + fs;
    assert(we =~= "WHERE element IN ("@ + bind_list(e) + ")\n"@);
    assert(wp =~= "WHERE main_position IN ("@ + bind_list(pn) + ")\n"@);
    assert(ws =~= "WHERE style IN ("@ + bind_list(sn) + ")\n"@);
    assert(ap =~= "AND main_position IN ("@ + bind_list(pn) + ")\n"@);
    assert(as_ =~= "AND style IN ("@ + bind_list(sn) + ")\n"@);
    let fs3 = search_filters(p);
    if e > 0 {
        if pn > 0 {
            if sn > 0 {
                assert(fs3 =~= seq![fe, fp, fs]);
                assert(fs3.drop_first() =~= seq![fp, fs]);
                assert(fs3.drop_first().drop_first() =~= seq![fs]);
                assert(fs3.drop_first().drop_first().drop_first() =~= Seq::<Seq<char>>::empty());
                assert(filter_sql(p) =~= we + ap + as_);
                assert(joined_filters(fs3, "WHERE "@) =~= we + ap + as_);
            } else {
                assert(fs3 =~= seq![fe, fp]);
                assert(fs3.drop_first() =~= seq![fp]);
                assert(fs3.drop_first().drop_first() =~= Seq::<Seq<char>>::empty());
                assert(filter_sql(p) =~= we + ap);
                assert(joined_filters(fs3, "WHERE "@) =~= we + ap);
            }
        } else {
            if sn > 0 {
                assert(fs3 =~= seq![fe, fs]);
                assert(fs3.drop_first() =~= seq![fs]);
                assert(fs3.drop_first().drop_first() =~= Seq::<Seq<char>>::empty());
                assert(filter_sql(p) =~= we + as_);
                assert(joined_filters(fs3, "WHERE "@) =~= we + as_);
            } else {
                assert(fs3 =~= seq![fe]);
                assert(fs3.drop_first() =~= Seq::<Seq<char>>::empty());
                assert(filter_sql(p) =~= we);
                assert(joined_filters(fs3, "WHERE "@) =~= we);
            }
        }
    } else {
        if pn > 0 {
            if sn > 0 {
                assert(fs3 =~= seq![fp, fs]);
                assert(fs3.drop_first() =~= seq![fs]);
                assert(fs3.drop_first().drop_first() =~= Seq::<Seq<char>>::empty());
                assert(filter_sql(p) =~= wp + as_);
                assert(joined_filters(fs3, "WHERE "@) =~= wp + as_);
            } else {
                assert(fs3 =~= seq![fp]);
                assert(fs3.drop_first() =~= Seq::<Seq<char>>::empty());
                assert(filter_sql(p) =~= wp);
                assert(joined_filters(fs3, "WHERE "@) =~= wp);
            }
        } else {
            if sn > 0 {
                assert(fs3 =~= seq![fs]);
                assert(fs3.drop_first() =~= Seq::<Seq<char>>::empty());
                assert(filter_sql(p) =~= ws);
                assert(joined_filters(fs3, "WHERE "@) =~= ws);
            } else {
                assert(fs3 =~= Seq::<Seq<char>>::empty());
                assert(filter_sql(p) =~= Seq::<char>::empty());
            }
        }
    }
}

/// Whether all seven statistics of a row were read.
pub open spec fn all_stats_present(c: StatsColumns) -> bool {
    &&& c.lvl50_kick is Some
    &&& c.lvl50_control is Some
    &&& c.lvl50_technique is Some
    &&& c.lvl50_pressure is Some
    &&& c.lvl50_physical is Some
    &&& c.lvl50_agility is Some
    &&& c.lvl50_intelligence is Some
}

/// A character row holds a summary exactly when all seven statistics were
/// read, and the summary takes each field from its own column: the index,
/// name and series as they are; the element from the `element` column, the
/// position from the `main_position` column and the style from the `style`
/// column, each being the one whose stored code the column holds (or
/// `UNKNOWN` for a code that stands for none); each statistic from its own
/// column.
pub proof fn summary_reads_each_column(row: CharacterRow)
    ensures
        summary_of_row(row) is Some <==> all_stats_present(row.stats),
        summary_of_row(row) matches Some(s) ==> {
            &&& s.index == row.index_id
            &&& s.name == row.name
            &&& s.series == row.series_name
            &&& (1 <= row.element <= 5 ==> s.element.spec_code() == row.element)
            &&& (!(1 <= row.element <= 5) ==> s.element == Element::UNKNOWN)
            &&& (1 <= row.main_position <= 5 ==> s.main_positon.spec_code() == row.main_position)
            &&& (!(1 <= row.main_position <= 5) ==> s.main_positon == Position::UNKNOWN)
            &&& (0 <= row.style <= 6 ==> s.style.spec_code() == row.style)
            &&& (!(0 <= row.style <= 6) ==> s.style == Style::UNKNOWN)
            &&& s.stats.kick == row.stats.lvl50_kick->0
            &&& s.stats.control == row.stats.lvl50_control->0
            &&& s.stats.technique == row.stats.lvl50_technique->0
            &&& s.stats.pressure == row.stats.lvl50_pressure->0
            &&& s.stats.physical == row.stats.lvl50_physical->0
            &&& s.stats.agility == row.stats.lvl50_agility->0
            &&& s.stats.intelligence == row.stats.lvl50_intelligence->0
        },
{
}

/// The summaries of a search's rows are those of its readable rows, one
/// for each, in the rows' order: no readable row is dropped, whatever their
/// number, and no unreadable one is answered.
pub proof fn summaries_keep_every_readable_row(rows: Seq<CharacterRow>)
    ensures
        summaries_of_rows(rows) == rows.filter(|r: CharacterRow| summary_of_row(r) is Some).map_values(
            |r: CharacterRow| summary_of_row(r)->0,
        ),
        summaries_of_rows(rows).len() == rows.filter(|r: CharacterRow| summary_of_row(r) is Some).len(),
    decreases rows.len(),
{
    let pred = |r: CharacterRow| summary_of_row(r) is Some;
    let f = |r: CharacterRow| summary_of_row(r)->0;
    reveal(Seq::filter);
    if rows.len() > 0 {
        summaries_keep_every_readable_row(rows.drop_last());
        let sub = rows.drop_last().filter(pred);
        if pred(rows.last()) {
            assert(sub.push(rows.last()).map_values(f) =~= sub.map_values(f).push(f(rows.last())));
        }
    } else {
        assert(rows.filter(pred).map_values(f) =~= Seq::<CharacterSummary>::empty());
    }
}

/// A special-move row holds a move exactly when each of its optional
/// columns was read, and the move takes each field from its own column:
/// the block flag from `is_block` and the long-shot flag from
/// `is_longshot`, each whatever the other holds; the element and category
/// as the ones whose stored codes the columns hold.
pub proof fn hissatsu_reads_each_column(row: HissatsuRow)
    ensures
        hissatsu_of_row(row) is Some <==> {
            &&& row.skill_id is Some
            &&& row.name is Some
            &&& row.power is Some
            &&& row.growth_rate is Some
            &&& row.is_block is Some
            &&& row.is_longshot is Some
            &&& row.tp_consumption is Some
            &&& row.cooldown is Some
        },
        hissatsu_of_row(row) matches Some(h) ==> {
            &&& row.skill_id == Some(h.id)
            &&& row.name == Some(h.name)
            &&& row.power == Some(h.power)
            &&& row.growth_rate == Some(h.growth_rate)
            &&& row.is_block == Some(h.is_block)
            &&& row.is_longshot == Some(h.is_longshot)
            &&& row.tp_consumption == Some(h.tp_consumption)
            &&& row.cooldown == Some(h.cooldown)
            &&& (row.element is Some && 1 <= row.element->0 <= 5 ==> h.element.spec_code() == row.element->0)
            &&& (row.category is Some && 1 <= row.category->0 <= 4 ==> h.category.spec_code() == row.category->0)
        },
{
}

/// An aura row holds an aura exactly when its id, its name and its special
/// move's id were read. The aura's type is the one whose stored code the
/// `aura_type` column holds (code 0 is a keshin), its element the one whose
/// code the `aura_element` column holds; it grants no special move where
/// the move's id is 0, and otherwise the move that the joined row holds.
pub proof fn aura_reads_each_column(row: AuraRow)
    ensures
        aura_of_row(row) is Some <==> (row.aura_id is Some && row.aura_name is Some
            && row.skill.skill_id is Some),
        aura_of_row(row) matches Some(a) ==> {
            &&& row.aura_id == Some(a.id)
            &&& row.aura_name == Some(a.name)
            &&& (row.aura_type is Some && row.aura_type->0 <= 7 ==> a.aura_type.spec_code() == row.aura_type->0)
            &&& (row.aura_type == Some(0u8) ==> a.aura_type == AuraType::Keshin)
            &&& (row.aura_element is Some && 1 <= row.aura_element->0 <= 5 ==> a.element.spec_code() == row.aura_element->0)
            &&& (row.skill.skill_id == Some(0i32) ==> a.hissatsu is None)
            &&& (row.skill.skill_id != Some(0i32) ==> a.hissatsu == hissatsu_of_row(row.skill))
        },
{
}

/// The filters that a search asks for, each as its column and the stored
/// codes of the values it lets through: one for each nonempty list among
/// the elements, the positions and the styles, in that order.
pub open spec fn search_filter_list(p: SearchParams) -> Seq<(Seq<char>, Seq<int>)> {
    (if p.element@.len() > 0 {
        seq![("element"@, p.element@.map_values(|x: Element| x.spec_code() as int))]
    } else {
        Seq::empty()
    }) + (if p.position@.len() > 0 {
        seq![("main_position"@, p.position@.map_values(|x: Position| x.spec_code() as int))]
    } else {
        Seq::empty()
    }) + (if p.style@.len() > 0 {
        seq![("style"@, p.style@.map_values(|x: Style| x.spec_code() as int))]
    } else {
        Seq::empty()
    })
}

/// Each filter of a search has one placeholder for each value it lets
/// through, and the values bound to the search's placeholders are the
/// codes of its filters, filter after filter in the order the filters
/// stand in the text: a placeholder of the `element` filter binds an
/// element's code, one of the `style` filter a style's code.
pub proof fn search_binds_each_filters_codes(p: SearchParams)
    ensures
        search_filters(p) == search_filter_list(p).map_values(
            |f: (Seq<char>, Seq<int>)| in_filter(f.0, f.1.len()),
        ),
        inner_query_arguments(p) == search_filter_list(p).map_values(
            |f: (Seq<char>, Seq<int>)| f.1,
        ).flatten(),
{
    let fl = |f: (Seq<char>, Seq<int>)| in_filter(f.0, f.1.len());
    let fc = |f: (Seq<char>, Seq<int>)| f.1;
    let ec = p.element@.map_values(|x: Element| x.spec_code() as int);
    let pc = p.position@.map_values(|x: Position| x.spec_code() as int);
    let sc = p.style@.map_values(|x: Style| x.spec_code() as int);
    let el: Seq<(Seq<char>, Seq<int>)> = if p.element@.len() > 0 {
        seq![("element"@, ec)]
    } else {
        Seq::empty()
    };
    let pl: Seq<(Seq<char>, Seq<int>)> = if p.position@.len() > 0 {
        seq![("main_position"@, pc)]
    } else {
        Seq::empty()
    };
    let sl: Seq<(Seq<char>, Seq<int>)> = if p.style@.len() > 0 {
        seq![("style"@, sc)]
    } else {
        Seq::empty()
    };
    let list = search_filter_list(p);
    assert(list == el + pl + sl);
    assert(list.map_values(fl) =~= el.map_values(fl) + pl.map_values(fl) + sl.map_values(fl));
    assert(list.map_values(fc) =~= el.map_values(fc) + pl.map_values(fc) + sl.map_values(fc));
    assert(search_filters(p) =~= el.map_values(fl) + pl.map_values(fl) + sl.map_values(fl));
    lemma_flatten_concat(el.map_values(fc) + pl.map_values(fc), sl.map_values(fc));
    lemma_flatten_concat(el.map_values(fc), pl.map_values(fc));
    assert(el.map_values(fc).flatten() =~= ec) by {
        if p.element@.len() > 0 {
            assert(el.map_values(fc) =~= seq![ec]);
            seq![ec].lemma_flatten_singleton();
        } else {
            assert(el.map_values(fc) =~= Seq::<Seq<int>>::empty());
        }
    }
    assert(pl.map_values(fc).flatten() =~= pc) by {
        if p.position@.len() > 0 {
            assert(pl.map_values(fc) =~= seq![pc]);
            seq![pc].lemma_flatten_singleton();
        } else {
            assert(pl.map_values(fc) =~= Seq::<Seq<int>>::empty());
        }
    }
    assert(sl.map_values(fc).flatten() =~= sc) by {
        if p.style@.len() > 0 {
            assert(sl.map_values(fc) =~= seq![sc]);
            seq![sc].lemma_flatten_singleton();
        } else {
            assert(sl.map_values(fc) =~= Seq::<Seq<int>>::empty());
        }
    }
    assert(inner_query_arguments(p) =~= ec + pc + sc);
}

} // verus!
