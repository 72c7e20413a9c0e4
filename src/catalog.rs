//! The comparison operators that Postgres offers on each scalar type, with
//! the SQL spelling of each and the type of its right-hand argument.
//!
//! Equality is not listed here: it applies to every scalar type and needs no
//! lookup.
use crate::metadata::ScalarType;
use vstd::prelude::*;

verus! {

/// A comparison operator as it is written in SQL.
#[derive(Debug, Clone, PartialEq, Eq)]
pub struct ComparisonOperator {
    pub operator_name: String,
    pub argument_type: ScalarType,
    pub is_infix: bool,
}

pub ghost struct ComparisonOperatorModel {
    pub operator_name: Seq<char>,
    pub argument_type: Seq<char>,
    pub is_infix: bool,
}

impl DeepView for ComparisonOperator {
    type V = ComparisonOperatorModel;

    open spec fn deep_view(&self) -> ComparisonOperatorModel {
        ComparisonOperatorModel {
            operator_name: self.operator_name@,
            argument_type: self.argument_type.deep_view(),
            is_infix: self.is_infix,
        }
    }
}

pub open spec fn catalog_op(name: Seq<char>, sql: Seq<char>, argument: Seq<char>) -> (
    Seq<char>,
    ComparisonOperatorModel,
) {
    (name, ComparisonOperatorModel { operator_name: sql, argument_type: argument, is_infix: true })
}

pub open spec fn catalog_function(name: Seq<char>, sql: Seq<char>, argument: Seq<char>) -> (
    Seq<char>,
    ComparisonOperatorModel,
) {
    (name, ComparisonOperatorModel { operator_name: sql, argument_type: argument, is_infix: false })
}

/// Scalar types whose values are ordered.
pub open spec fn is_ordered_type(t: Seq<char>) -> bool {
    t == "bool"@ || t == "int2"@ || t == "int4"@ || t == "int8"@ || t == "float4"@ || t
        == "float8"@ || t == "numeric"@ || t == "date"@ || t == "time"@ || t == "timetz"@ || t
        == "timestamp"@ || t == "timestamptz"@ || t == "interval"@ || t == "uuid"@
}

/// Scalar types that hold character strings.
pub open spec fn is_text_type(t: Seq<char>) -> bool {
    t == "text"@ || t == "varchar"@ || t == "bpchar"@ || t == "name"@ || t == "citext"@
}

/// The element type of a range type.
pub open spec fn range_element(t: Seq<char>) -> Option<Seq<char>> {
    if t == "int4range"@ {
        Some("int4"@)
    } else if t == "int8range"@ {
        Some("int8"@)
    } else if t == "numrange"@ {
        Some("numeric"@)
    } else if t == "daterange"@ {
        Some("date"@)
    } else if t == "tsrange"@ {
        Some("timestamp"@)
    } else if t == "tstzrange"@ {
        Some("timestamptz"@)
    } else {
        None
    }
}

pub open spec fn ordering_operators(t: Seq<char>) -> Seq<(Seq<char>, ComparisonOperatorModel)> {
    seq![
        catalog_op("_neq"@, "<>"@, t),
        catalog_op("_lt"@, "<"@, t),
        catalog_op("_lte"@, "<="@, t),
        catalog_op("_gt"@, ">"@, t),
        catalog_op("_gte"@, ">="@, t),
    ]
}

pub open spec fn text_operators(t: Seq<char>) -> Seq<(Seq<char>, ComparisonOperatorModel)> {
    seq![
        catalog_op("_like"@, "LIKE"@, t),
        catalog_op("_nlike"@, "NOT LIKE"@, t),
        catalog_op("_ilike"@, "ILIKE"@, t),
        catalog_op("_nilike"@, "NOT ILIKE"@, t),
        catalog_op("_regex"@, "~"@, t),
        catalog_op("_nregex"@, "!~"@, t),
        catalog_op("_iregex"@, "~*"@, t),
        catalog_op("_niregex"@, "!~*"@, t),
        catalog_function("_starts_with"@, "starts_with"@, t),
    ]
}

pub open spec fn range_operators(t: Seq<char>, element: Seq<char>) -> Seq<
    (Seq<char>, ComparisonOperatorModel),
> {
    seq![
        catalog_op("_neq"@, "<>"@, t),
        catalog_op("_contains"@, "@>"@, element),
        catalog_op("_contains_range"@, "@>"@, t),
        catalog_op("_contained_in"@, "<@"@, t),
        catalog_op("_overlaps"@, "&&"@, t),
    ]
}

/// The catalog entry of a scalar type: every operator besides equality that
/// applies to it, in canonical order. Unknown types have an empty entry.
pub open spec fn catalog_entry(t: Seq<char>) -> Seq<(Seq<char>, ComparisonOperatorModel)> {
    if is_text_type(t) {
        ordering_operators(t) + text_operators(t)
    } else if is_ordered_type(t) {
        ordering_operators(t)
    } else {
        match range_element(t) {
            Some(element) => range_operators(t, element),
            None => Seq::empty(),
        }
    }
}

/// The first operator of `entries` with the given name.
pub open spec fn find_operator(
    entries: Seq<(Seq<char>, ComparisonOperatorModel)>,
    name: Seq<char>,
) -> Option<ComparisonOperatorModel>
    decreases entries.len(),
{
    if entries.len() == 0 {
        None
    } else if entries[0].0 == name {
        Some(entries[0].1)
    } else {
        find_operator(entries.drop_first(), name)
    }
}

fn name_is(t: &ScalarType, name: &str) -> (r: bool)
    ensures
        r == (t.deep_view() == name@),
{
    t.0 == String::from_str(name)
}

fn push_entry(
    entries: &mut Vec<(String, ComparisonOperator)>,
    name: &str,
    sql: &str,
    argument: &ScalarType,
    is_infix: bool,
)
    ensures
        final(entries).deep_view() == old(entries).deep_view().push(
            (
                name@,
                ComparisonOperatorModel {
                    operator_name: sql@,
                    argument_type: argument.deep_view(),
                    is_infix,
                },
            ),
        ),
{
    let op = ComparisonOperator {
        operator_name: String::from_str(sql),
        argument_type: argument.duplicate(),
        is_infix,
    };
    entries.push((String::from_str(name), op));
    proof {
        assert(final(entries).deep_view() =~= old(entries).deep_view().push(
            (
                name@,
                ComparisonOperatorModel {
                    operator_name: sql@,
                    argument_type: argument.deep_view(),
                    is_infix,
                },
            ),
        ));
    }
}

fn push_op(
    entries: &mut Vec<(String, ComparisonOperator)>,
    name: &str,
    sql: &str,
    argument: &ScalarType,
)
    ensures
        final(entries).deep_view() == old(entries).deep_view().push(
            catalog_op(name@, sql@, argument.deep_view()),
        ),
{
    push_entry(entries, name, sql, argument, true);
}

fn push_ordering_operators(entries: &mut Vec<(String, ComparisonOperator)>, t: &ScalarType)
    ensures
        final(entries).deep_view() == old(entries).deep_view() + ordering_operators(
            t.deep_view(),
        ),
{
    push_op(entries, "_neq", "<>", t);
    push_op(entries, "_lt", "<", t);
    push_op(entries, "_lte", "<=", t);
    push_op(entries, "_gt", ">", t);
    push_op(entries, "_gte", ">=", t);
    proof {
        assert(final(entries).deep_view() =~= old(entries).deep_view() + ordering_operators(
            t.deep_view(),
        ));
    }
}

fn push_text_operators(entries: &mut Vec<(String, ComparisonOperator)>, t: &ScalarType)
    ensures
        final(entries).deep_view() == old(entries).deep_view() + text_operators(t.deep_view()),
{
    push_op(entries, "_like", "LIKE", t);
    push_op(entries, "_nlike", "NOT LIKE", t);
    push_op(entries, "_ilike", "ILIKE", t);
    push_op(entries, "_nilike", "NOT ILIKE", t);
    push_op(entries, "_regex", "~", t);
    push_op(entries, "_nregex", "!~", t);
    push_op(entries, "_iregex", "~*", t);
    push_op(entries, "_niregex", "!~*", t);
    push_entry(entries, "_starts_with", "starts_with", t, false);
    proof {
        assert(final(entries).deep_view() =~= old(entries).deep_view() + text_operators(
            t.deep_view(),
        ));
    }
}

fn push_range_operators(
    entries: &mut Vec<(String, ComparisonOperator)>,
    t: &ScalarType,
    element: &ScalarType,
)
    ensures
        final(entries).deep_view() == old(entries).deep_view() + range_operators(
            t.deep_view(),
            element.deep_view(),
        ),
{
    push_op(entries, "_neq", "<>", t);
    push_op(entries, "_contains", "@>", element);
    push_op(entries, "_contains_range", "@>", t);
    push_op(entries, "_contained_in", "<@", t);
    push_op(entries, "_overlaps", "&&", t);
    proof {
        assert(final(entries).deep_view() =~= old(entries).deep_view() + range_operators(
            t.deep_view(),
            element.deep_view(),
        ));
    }
}

fn is_ordered(t: &ScalarType) -> (r: bool)
    ensures
        r == is_ordered_type(t.deep_view()),
{
    name_is(t, "bool") || name_is(t, "int2") || name_is(t, "int4") || name_is(t, "int8")
        || name_is(t, "float4") || name_is(t, "float8") || name_is(t, "numeric") || name_is(
        t,
        "date",
    ) || name_is(t, "time") || name_is(t, "timetz") || name_is(t, "timestamp") || name_is(
        t,
        "timestamptz",
    ) || name_is(t, "interval") || name_is(t, "uuid")
}

fn is_text(t: &ScalarType) -> (r: bool)
    ensures
        r == is_text_type(t.deep_view()),
{
    name_is(t, "text") || name_is(t, "varchar") || name_is(t, "bpchar") || name_is(t, "name")
        || name_is(t, "citext")
}

fn element_of_range(t: &ScalarType) -> (r: Option<ScalarType>)
    ensures
        r.deep_view() == range_element(t.deep_view()),
{
    if name_is(t, "int4range") {
        Some(ScalarType(String::from_str("int4")))
    } else if name_is(t, "int8range") {
        Some(ScalarType(String::from_str("int8")))
    } else if name_is(t, "numrange") {
        Some(ScalarType(String::from_str("numeric")))
    } else if name_is(t, "daterange") {
        Some(ScalarType(String::from_str("date")))
    } else if name_is(t, "tsrange") {
        Some(ScalarType(String::from_str("timestamp")))
    } else if name_is(t, "tstzrange") {
        Some(ScalarType(String::from_str("timestamptz")))
    } else {
        None
    }
}

/// The catalog entry of a scalar type.
pub fn comparison_operators(t: &ScalarType) -> (r: Vec<(String, ComparisonOperator)>)
    ensures
        r.deep_view() == catalog_entry(t.deep_view()),
{
    let mut entries: Vec<(String, ComparisonOperator)> = Vec::new();
    if is_text(t) {
        push_ordering_operators(&mut entries, t);
        push_text_operators(&mut entries, t);
    } else if is_ordered(t) {
        push_ordering_operators(&mut entries, t);
    } else {
        match element_of_range(t) {
            Some(element) => push_range_operators(&mut entries, t, &element),
            None => {},
        }
    }
    proof {
        assert(entries.deep_view() =~= catalog_entry(t.deep_view()));
    }
    entries
}

/// Looks up the operator called `name` in the catalog entry of `t`.
pub fn lookup_comparison(t: &ScalarType, name: &String) -> (r: Option<ComparisonOperator>)
    ensures
        r.deep_view() == find_operator(catalog_entry(t.deep_view()), name@),
{
    let entries = comparison_operators(t);
    let ghost all = entries.deep_view();
    let mut i: usize = 0;
    assert(all.skip(0) =~= all);
    while i < entries.len()
        invariant
            0 <= i <= entries.len(),
            all == entries.deep_view(),
            all == catalog_entry(t.deep_view()),
            find_operator(all, name@) == find_operator(all.skip(i as int), name@),
        decreases entries.len() - i,
    {
        assert(all.skip(i as int).drop_first() =~= all.skip(i + 1));
        assert(all.skip(i as int)[0] == all[i as int]);
        if entries[i].0 == *name {
            let op = &entries[i].1;
            return Some(
                ComparisonOperator {
                    operator_name: op.operator_name.clone(),
                    argument_type: op.argument_type.duplicate(),
                    is_infix: op.is_infix,
                },
            );
        }
        i = i + 1;
    }
    None
}

} // verus!
