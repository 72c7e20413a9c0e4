//! Derivation of the connector's schema from a validated configuration.
use crate::entries::{
    add_all, entries_sorted, has_key, lemma_add_all_contains, lemma_with_entries_keys, entry_position, insert_name, lemma_add_all_no_duplicates,
    lemma_add_all_sorted,
    lemma_entry_position_bounds, lemma_with_entries_keeps, lemma_with_entries_puts,
    lemma_with_entries_sorted, name_less, names_sorted, put_entry, values, values_of, with_entries,
    with_entry,
};
use crate::catalog::{catalog_entry, comparison_operators, ComparisonOperatorModel};
use crate::configuration::{Configuration, RawConfigurationModel};
use crate::metadata::{
    AggregateFunction, AggregateFunctions, ColumnInfo, ColumnModel, ForeignRelation,
    ForeignRelationModel, MetadataModel, ScalarType, TableInfo, TableModel,
    NativeQueryInfo, NativeQueryModel, Nullable,
};
use crate::models::{
    AggregateFunctionDefinition, ArgumentInfo, CollectionInfo, CollectionModel,
    ComparisonOperatorDefinition, ForeignKeyConstraint, ObjectField, ObjectType,
    SchemaModel, SchemaResponse, Type, TypeModel, UniquenessConstraint,
};
use vstd::prelude::*;

verus! {

/// The type of a column: its scalar type, wrapped as nullable exactly when
/// the column is nullable.
pub open spec fn column_type(c: ColumnModel) -> TypeModel {
    match c.nullable {
        Nullable::NonNullable => TypeModel::Named(c.scalar_type),
        Nullable::Nullable => TypeModel::Nullable(Box::new(TypeModel::Named(c.scalar_type))),
    }
}

fn named(name: &String) -> (r: Type)
    ensures
        r.deep_view() == TypeModel::Named(name@),
{
    Type::Named { name: name.clone() }
}

pub fn column_to_type(column: &ColumnInfo) -> (r: Type)
    ensures
        r.deep_view() == column_type(column.deep_view()),
{
    match column.nullable {
        Nullable::NonNullable => named(&column.scalar_type.0),
        Nullable::Nullable => Type::Nullable {
            underlying_type: Box::new(named(&column.scalar_type.0)),
        },
    }
}

pub open spec fn column_types(columns: Seq<(Seq<char>, ColumnModel)>) -> Seq<Seq<char>> {
    columns.map_values(|e: (Seq<char>, ColumnModel)| e.1.scalar_type)
}

/// `acc` with the scalar types of each list of columns added in turn.
pub open spec fn add_column_lists(
    acc: Seq<Seq<char>>,
    lists: Seq<Seq<(Seq<char>, ColumnModel)>>,
) -> Seq<Seq<char>>
    decreases lists.len(),
{
    if lists.len() == 0 {
        acc
    } else {
        add_all(add_column_lists(acc, lists.drop_last()), column_types(lists.last()))
    }
}

pub open spec fn table_columns(m: MetadataModel) -> Seq<Seq<(Seq<char>, ColumnModel)>> {
    m.tables.map_values(|e: (Seq<char>, TableModel)| e.1.columns)
}

pub open spec fn native_query_columns(m: MetadataModel) -> Seq<Seq<(Seq<char>, ColumnModel)>> {
    m.native_queries.map_values(|e: (Seq<char>, NativeQueryModel)| e.1.columns)
}

pub open spec fn native_query_arguments(m: MetadataModel) -> Seq<
    Seq<(Seq<char>, ColumnModel)>,
> {
    m.native_queries.map_values(|e: (Seq<char>, NativeQueryModel)| e.1.arguments)
}

pub open spec fn aggregate_types(m: MetadataModel) -> Seq<Seq<char>> {
    m.aggregate_functions.map_values(|e: (Seq<char>, Seq<(Seq<char>, Seq<char>)>)| e.0)
}

/// The scalar types that occur in the metadata, each once, in name order:
/// those of table columns, of native query columns, of native query
/// arguments, and those with aggregate functions.
pub open spec fn occurring(m: MetadataModel) -> Seq<Seq<char>> {
    add_all(
        add_column_lists(
            add_column_lists(add_column_lists(Seq::empty(), table_columns(m)), native_query_columns(m)),
            native_query_arguments(m),
        ),
        aggregate_types(m),
    )
}

fn push_column_types(acc: &mut Vec<String>, columns: &Vec<(String, ColumnInfo)>)
    ensures
        final(acc).deep_view() == add_all(old(acc).deep_view(), column_types(columns.deep_view())),
{
    let ghost start = acc.deep_view();
    let ghost xs = column_types(columns.deep_view());
    let mut j: usize = 0;
    assert(xs.take(0) =~= Seq::<Seq<char>>::empty());
    while j < columns.len()
        invariant
            0 <= j <= columns.len(),
            xs == column_types(columns.deep_view()),
            acc.deep_view() == add_all(start, xs.take(j as int)),
        decreases columns.len() - j,
    {
        assert(xs.take(j + 1).drop_last() =~= xs.take(j as int));
        insert_name(acc, &columns[j].1.scalar_type.0);
        j = j + 1;
    }
    assert(xs.take(columns.len() as int) =~= xs);
}

fn push_aggregate_types(acc: &mut Vec<String>, aggregates: &AggregateFunctions)
    ensures
        final(acc).deep_view() == add_all(
            old(acc).deep_view(),
            aggregates.deep_view().map_values(
                |e: (Seq<char>, Seq<(Seq<char>, Seq<char>)>)| e.0,
            ),
        ),
{
    let ghost start = acc.deep_view();
    let ghost xs = aggregates.deep_view().map_values(
        |e: (Seq<char>, Seq<(Seq<char>, Seq<char>)>)| e.0,
    );
    let mut j: usize = 0;
    assert(xs.take(0) =~= Seq::<Seq<char>>::empty());
    while j < aggregates.0.len()
        invariant
            0 <= j <= aggregates.0.len(),
            xs == aggregates.deep_view().map_values(
                |e: (Seq<char>, Seq<(Seq<char>, Seq<char>)>)| e.0,
            ),
            acc.deep_view() == add_all(start, xs.take(j as int)),
        decreases aggregates.0.len() - j,
    {
        assert(xs.take(j + 1).drop_last() =~= xs.take(j as int));
        insert_name(acc, &aggregates.0[j].0.0);
        j = j + 1;
    }
    assert(xs.take(aggregates.0.len() as int) =~= xs);
}

/// Collects every scalar type that occurs in the metadata, each once.
fn occurring_scalar_types(config: &Configuration) -> (r: Vec<String>)
    ensures
        r.deep_view() == occurring(config.config.metadata.deep_view()),
{
    let metadata = &config.config.metadata;
    let ghost m = metadata.deep_view();
    let mut acc: Vec<String> = Vec::new();
    assert(acc.deep_view() =~= Seq::<Seq<char>>::empty());

    let tables = &metadata.tables.0;
    let ghost lists = table_columns(m);
    let mut i: usize = 0;
    assert(lists.take(0) =~= Seq::<Seq<(Seq<char>, ColumnModel)>>::empty());
    while i < tables.len()
        invariant
            0 <= i <= tables.len(),
            m == metadata.deep_view(),
            tables == &metadata.tables.0,
            lists == table_columns(m),
            acc.deep_view() == add_column_lists(Seq::empty(), lists.take(i as int)),
        decreases tables.len() - i,
    {
        assert(lists.take(i + 1).drop_last() =~= lists.take(i as int));
        push_column_types(&mut acc, &tables[i].1.columns);
        i = i + 1;
    }
    assert(lists.take(tables.len() as int) =~= lists);
    let ghost after_tables = acc.deep_view();

    let queries = &metadata.native_queries.0;
    let ghost lists = native_query_columns(m);
    let mut i: usize = 0;
    assert(lists.take(0) =~= Seq::<Seq<(Seq<char>, ColumnModel)>>::empty());
    while i < queries.len()
        invariant
            0 <= i <= queries.len(),
            m == metadata.deep_view(),
            queries == &metadata.native_queries.0,
            lists == native_query_columns(m),
            acc.deep_view() == add_column_lists(after_tables, lists.take(i as int)),
        decreases queries.len() - i,
    {
        assert(lists.take(i + 1).drop_last() =~= lists.take(i as int));
        push_column_types(&mut acc, &queries[i].1.columns);
        i = i + 1;
    }
    assert(lists.take(queries.len() as int) =~= lists);
    let ghost after_columns = acc.deep_view();

    let ghost lists = native_query_arguments(m);
    let mut i: usize = 0;
    assert(lists.take(0) =~= Seq::<Seq<(Seq<char>, ColumnModel)>>::empty());
    while i < queries.len()
        invariant
            0 <= i <= queries.len(),
            m == metadata.deep_view(),
            queries == &metadata.native_queries.0,
            lists == native_query_arguments(m),
            acc.deep_view() == add_column_lists(after_columns, lists.take(i as int)),
        decreases queries.len() - i,
    {
        assert(lists.take(i + 1).drop_last() =~= lists.take(i as int));
        push_column_types(&mut acc, &queries[i].1.arguments);
        i = i + 1;
    }
    assert(lists.take(queries.len() as int) =~= lists);

    push_aggregate_types(&mut acc, &metadata.aggregate_functions);
    acc
}

/// The aggregate functions that `aggregates` lists for scalar type `t`, by
/// name with their return types; none if it does not list `t`.
pub open spec fn aggregates_of(
    aggregates: Seq<(Seq<char>, Seq<(Seq<char>, Seq<char>)>)>,
    t: Seq<char>,
) -> Seq<(Seq<char>, Seq<char>)>
    decreases aggregates.len(),
{
    if aggregates.len() == 0 {
        Seq::empty()
    } else if aggregates[0].0 == t {
        aggregates[0].1
    } else {
        aggregates_of(aggregates.drop_first(), t)
    }
}

/// The name under which equality is offered on every scalar type.
pub open spec fn equal_operator_name() -> Seq<char> {
    "_eq"@
}

/// The entries `es` as an ordered map: in name order, a later entry
/// replacing an earlier one of the same name.
pub open spec fn ordered<V>(es: Seq<(Seq<char>, V)>) -> Seq<(Seq<char>, V)> {
    with_entries(Seq::empty(), es)
}

pub open spec fn comparison_entries(t: Seq<char>) -> Seq<(Seq<char>, TypeModel)> {
    seq![(equal_operator_name(), TypeModel::Named(t))] + catalog_entry(t).map_values(
        |e: (Seq<char>, ComparisonOperatorModel)| (e.0, TypeModel::Named(e.1.argument_type)),
    )
}

pub open spec fn aggregate_entries(
    aggregates: Seq<(Seq<char>, Seq<(Seq<char>, Seq<char>)>)>,
    t: Seq<char>,
) -> Seq<(Seq<char>, TypeModel)> {
    aggregates_of(aggregates, t).map_values(
        |e: (Seq<char>, Seq<char>)| (e.0, TypeModel::Named(e.1)),
    )
}

/// What the schema says of scalar type `t`, as two ordered maps: its
/// aggregate functions with their result types, and its comparison operators
/// (equality and the catalog entry of `t`) with the types of their right-hand
/// arguments.
pub open spec fn scalar_type_model(
    aggregates: Seq<(Seq<char>, Seq<(Seq<char>, Seq<char>)>)>,
    t: Seq<char>,
) -> crate::models::ScalarTypeModel {
    crate::models::ScalarTypeModel {
        aggregate_functions: ordered(aggregate_entries(aggregates, t)),
        comparison_operators: ordered(comparison_entries(t)),
    }
}

pub open spec fn constraint_entries(t: TableModel) -> Seq<(Seq<char>, Seq<Seq<char>>)> {
    t.uniqueness_constraints.map_values(
        |e: (Seq<char>, Seq<Seq<char>>)| (e.0, add_all(Seq::empty(), e.1)),
    )
}

pub open spec fn foreign_key_entries(t: TableModel) -> Seq<(Seq<char>, ForeignRelationModel)> {
    t.foreign_relations.map_values(
        |e: (Seq<char>, ForeignRelationModel)|
            (
                e.0,
                ForeignRelationModel {
                    foreign_table: e.1.foreign_table,
                    column_mapping: ordered(e.1.column_mapping),
                },
            ),
    )
}

/// The collection of a table: no arguments, not deletable, its uniqueness
/// constraints (each a set of column names in order) and its foreign keys
/// (each column mapping an ordered map), as ordered maps.
pub open spec fn table_collection(name: Seq<char>, t: TableModel) -> CollectionModel {
    CollectionModel {
        name,
        arguments: Seq::empty(),
        collection_type: name,
        deletable: false,
        uniqueness_constraints: ordered(constraint_entries(t)),
        foreign_keys: ordered(foreign_key_entries(t)),
    }
}

pub open spec fn column_type_entries(columns: Seq<(Seq<char>, ColumnModel)>) -> Seq<
    (Seq<char>, TypeModel),
> {
    columns.map_values(|e: (Seq<char>, ColumnModel)| (e.0, column_type(e.1)))
}

/// The collection of a native query: its declared arguments as an ordered
/// map, not deletable, with no constraints and no foreign keys.
pub open spec fn native_query_collection(name: Seq<char>, q: NativeQueryModel) -> CollectionModel {
    CollectionModel {
        name,
        arguments: ordered(column_type_entries(q.arguments)),
        collection_type: name,
        deletable: false,
        uniqueness_constraints: Seq::empty(),
        foreign_keys: Seq::empty(),
    }
}

pub open spec fn field_entries(columns: Seq<(Seq<char>, ColumnModel)>) -> Seq<
    (Seq<char>, TypeModel),
> {
    columns.map_values(|e: (Seq<char>, ColumnModel)| (e.1.name, column_type(e.1)))
}

/// The fields of an object type, as an ordered map: one per column, under
/// the column's name.
pub open spec fn object_fields(columns: Seq<(Seq<char>, ColumnModel)>) -> Seq<
    (Seq<char>, TypeModel),
> {
    ordered(field_entries(columns))
}

pub open spec fn table_object_types(m: MetadataModel) -> Seq<
    (Seq<char>, Seq<(Seq<char>, TypeModel)>),
> {
    m.tables.map_values(|e: (Seq<char>, TableModel)| (e.0, object_fields(e.1.columns)))
}

pub open spec fn native_query_object_types(m: MetadataModel) -> Seq<
    (Seq<char>, Seq<(Seq<char>, TypeModel)>),
> {
    m.native_queries.map_values(
        |e: (Seq<char>, NativeQueryModel)| (e.0, object_fields(e.1.columns)),
    )
}

pub open spec fn table_collections(m: MetadataModel) -> Seq<(Seq<char>, CollectionModel)> {
    m.tables.map_values(|e: (Seq<char>, TableModel)| (e.0, table_collection(e.0, e.1)))
}

pub open spec fn native_query_collections(m: MetadataModel) -> Seq<(Seq<char>, CollectionModel)> {
    m.native_queries.map_values(
        |e: (Seq<char>, NativeQueryModel)| (e.0, native_query_collection(e.0, e.1)),
    )
}

/// The schema of the metadata. Scalar types and object types are ordered
/// maps, and a native query's object type replaces that of a table of the
/// same name. The collections are those of the tables in name order, then
/// those of the native queries in name order.
pub open spec fn schema_of(m: MetadataModel) -> SchemaModel {
    SchemaModel {
        scalar_types: occurring(m).map_values(
            |t: Seq<char>| (t, scalar_type_model(m.aggregate_functions, t)),
        ),
        collections: values(ordered(table_collections(m))) + values(
            ordered(native_query_collections(m)),
        ),
        object_types: with_entries(ordered(table_object_types(m)), native_query_object_types(m)),
    }
}

fn sorted_names_of(v: &Vec<String>) -> (r: Vec<String>)
    ensures
        r.deep_view() == add_all(Seq::empty(), v.deep_view()),
{
    let ghost xs = v.deep_view();
    let mut r: Vec<String> = Vec::new();
    let mut i: usize = 0;
    assert(xs.take(0) =~= Seq::<Seq<char>>::empty());
    assert(r.deep_view() =~= Seq::<Seq<char>>::empty());
    while i < v.len()
        invariant
            0 <= i <= v.len(),
            xs == v.deep_view(),
            r.deep_view() == add_all(Seq::empty(), xs.take(i as int)),
        decreases v.len() - i,
    {
        assert(xs.take(i + 1).drop_last() =~= xs.take(i as int));
        insert_name(&mut r, &v[i]);
        i = i + 1;
    }
    assert(xs.take(v.len() as int) =~= xs);
    r
}

fn ordered_pairs(v: &Vec<(String, String)>) -> (r: Vec<(String, String)>)
    ensures
        r.deep_view() == ordered(v.deep_view()),
{
    let ghost es = v.deep_view();
    let mut r: Vec<(String, String)> = Vec::new();
    let mut i: usize = 0;
    assert(es.take(0) =~= Seq::<(Seq<char>, Seq<char>)>::empty());
    assert(r.deep_view() =~= Seq::<(Seq<char>, Seq<char>)>::empty());
    while i < v.len()
        invariant
            0 <= i <= v.len(),
            es == v.deep_view(),
            r.deep_view() == with_entries(Seq::empty(), es.take(i as int)),
        decreases v.len() - i,
    {
        assert(es.take(i + 1).drop_last() =~= es.take(i as int));
        put_entry(&mut r, v[i].0.clone(), v[i].1.clone());
        i = i + 1;
    }
    assert(es.take(v.len() as int) =~= es);
    r
}

fn uniqueness_constraints_of(table: &TableInfo) -> (r: Vec<(String, UniquenessConstraint)>)
    ensures
        r.deep_view() == ordered(constraint_entries(table.deep_view())),
{
    let ghost es = constraint_entries(table.deep_view());
    let mut r = Vec::new();
    let mut i: usize = 0;
    assert(es.take(0) =~= Seq::<(Seq<char>, Seq<Seq<char>>)>::empty());
    assert(r.deep_view() =~= Seq::<(Seq<char>, Seq<Seq<char>>)>::empty());
    while i < table.uniqueness_constraints.len()
        invariant
            0 <= i <= table.uniqueness_constraints.len(),
            es == constraint_entries(table.deep_view()),
            r.deep_view() == with_entries(Seq::empty(), es.take(i as int)),
        decreases table.uniqueness_constraints.len() - i,
    {
        assert(es.take(i + 1).drop_last() =~= es.take(i as int));
        let src = &table.uniqueness_constraints;
        let columns = sorted_names_of(&src[i].1.0);
        put_entry(&mut r, src[i].0.clone(), UniquenessConstraint { unique_columns: columns });
        i = i + 1;
    }
    assert(es.take(table.uniqueness_constraints.len() as int) =~= es);
    r
}

fn foreign_keys_of(table: &TableInfo) -> (r: Vec<(String, ForeignKeyConstraint)>)
    ensures
        r.deep_view() == ordered(foreign_key_entries(table.deep_view())),
{
    let ghost es = foreign_key_entries(table.deep_view());
    let mut r = Vec::new();
    let mut i: usize = 0;
    assert(es.take(0) =~= Seq::<(Seq<char>, ForeignRelationModel)>::empty());
    assert(r.deep_view() =~= Seq::<(Seq<char>, ForeignRelationModel)>::empty());
    while i < table.foreign_relations.len()
        invariant
            0 <= i <= table.foreign_relations.len(),
            es == foreign_key_entries(table.deep_view()),
            r.deep_view() == with_entries(Seq::empty(), es.take(i as int)),
        decreases table.foreign_relations.len() - i,
    {
        assert(es.take(i + 1).drop_last() =~= es.take(i as int));
        let relation: &ForeignRelation = &table.foreign_relations[i].1;
        let key = ForeignKeyConstraint {
            foreign_collection: relation.foreign_table.clone(),
            column_mapping: ordered_pairs(&relation.column_mapping),
        };
        put_entry(&mut r, table.foreign_relations[i].0.clone(), key);
        i = i + 1;
    }
    assert(es.take(table.foreign_relations.len() as int) =~= es);
    r
}

fn arguments_of(columns: &Vec<(String, ColumnInfo)>) -> (r: Vec<(String, ArgumentInfo)>)
    ensures
        r.deep_view() == ordered(column_type_entries(columns.deep_view())),
{
    let ghost es = column_type_entries(columns.deep_view());
    let mut r = Vec::new();
    let mut i: usize = 0;
    assert(es.take(0) =~= Seq::<(Seq<char>, TypeModel)>::empty());
    assert(r.deep_view() =~= Seq::<(Seq<char>, TypeModel)>::empty());
    while i < columns.len()
        invariant
            0 <= i <= columns.len(),
            es == column_type_entries(columns.deep_view()),
            r.deep_view() == with_entries(Seq::empty(), es.take(i as int)),
        decreases columns.len() - i,
    {
        assert(es.take(i + 1).drop_last() =~= es.take(i as int));
        let argument = ArgumentInfo { argument_type: column_to_type(&columns[i].1) };
        assert(columns.deep_view()[i as int].1 == columns[i as int].1.deep_view());
        put_entry(&mut r, columns[i].0.clone(), argument);
        i = i + 1;
    }
    assert(es.take(columns.len() as int) =~= es);
    r
}

fn object_fields_of(columns: &Vec<(String, ColumnInfo)>) -> (r: Vec<(String, ObjectField)>)
    ensures
        r.deep_view() == object_fields(columns.deep_view()),
{
    let ghost es = field_entries(columns.deep_view());
    let mut r = Vec::new();
    let mut i: usize = 0;
    assert(es.take(0) =~= Seq::<(Seq<char>, TypeModel)>::empty());
    assert(r.deep_view() =~= Seq::<(Seq<char>, TypeModel)>::empty());
    while i < columns.len()
        invariant
            0 <= i <= columns.len(),
            es == field_entries(columns.deep_view()),
            r.deep_view() == with_entries(Seq::empty(), es.take(i as int)),
        decreases columns.len() - i,
    {
        assert(es.take(i + 1).drop_last() =~= es.take(i as int));
        let field = ObjectField { field_type: column_to_type(&columns[i].1) };
        assert(columns.deep_view()[i as int].1 == columns[i as int].1.deep_view());
        put_entry(&mut r, columns[i].1.name.clone(), field);
        i = i + 1;
    }
    assert(es.take(columns.len() as int) =~= es);
    r
}

fn find_aggregates(aggregates: &AggregateFunctions, t: &ScalarType) -> (r: Option<usize>)
    ensures
        r is None ==> aggregates_of(aggregates.deep_view(), t.deep_view()).len() == 0,
        r is Some ==> r->0 < aggregates.0.len() && aggregates_of(
            aggregates.deep_view(),
            t.deep_view(),
        ) == aggregates.deep_view()[r->0 as int].1,
{
    let ghost all = aggregates.deep_view();
    let mut i: usize = 0;
    assert(all.skip(0) =~= all);
    while i < aggregates.0.len()
        invariant
            0 <= i <= aggregates.0.len(),
            all == aggregates.deep_view(),
            aggregates_of(all, t.deep_view()) == aggregates_of(all.skip(i as int), t.deep_view()),
        decreases aggregates.0.len() - i,
    {
        assert(all.skip(i as int).drop_first() =~= all.skip(i + 1));
        assert(all.skip(i as int)[0] == all[i as int]);
        if aggregates.0[i].0.0 == t.0 {
            return Some(i);
        }
        i = i + 1;
    }
    None
}

fn scalar_type_info(aggregates: &AggregateFunctions, t: &ScalarType) -> (r: crate::models::ScalarType)
    ensures
        r.deep_view() == scalar_type_model(aggregates.deep_view(), t.deep_view()),
{
    let ghost tv = t.deep_view();

    let ghost es = aggregate_entries(aggregates.deep_view(), tv);
    let mut functions: Vec<(String, AggregateFunctionDefinition)> = Vec::new();
    assert(functions.deep_view() =~= Seq::<(Seq<char>, TypeModel)>::empty());
    match find_aggregates(aggregates, t) {
        Some(index) => {
            let src: &Vec<(String, AggregateFunction)> = &aggregates.0[index].1;
            let mut i: usize = 0;
            assert(es.take(0) =~= Seq::<(Seq<char>, TypeModel)>::empty());
            while i < src.len()
                invariant
                    0 <= i <= src.len(),
                    src.deep_view() == aggregates_of(aggregates.deep_view(), tv),
                    es == aggregate_entries(aggregates.deep_view(), tv),
                    functions.deep_view() == with_entries(Seq::empty(), es.take(i as int)),
                decreases src.len() - i,
            {
                assert(es.take(i + 1).drop_last() =~= es.take(i as int));
                let definition = AggregateFunctionDefinition {
                    result_type: named(&src[i].1.return_type.0),
                };
                put_entry(&mut functions, src[i].0.clone(), definition);
                i = i + 1;
            }
            assert(es.take(src.len() as int) =~= es);
        },
        None => {
            assert(es =~= Seq::<(Seq<char>, TypeModel)>::empty());
        },
    }

    let ghost cs = comparison_entries(tv);
    let catalog = comparison_operators(t);
    let mut operators: Vec<(String, ComparisonOperatorDefinition)> = Vec::new();
    assert(operators.deep_view() =~= Seq::<(Seq<char>, TypeModel)>::empty());
    assert(cs.take(0) =~= Seq::<(Seq<char>, TypeModel)>::empty());
    assert(cs.take(1).drop_last() =~= cs.take(0));
    put_entry(
        &mut operators,
        String::from_str("_eq"),
        ComparisonOperatorDefinition { argument_type: named(&t.0) },
    );
    assert(cs[0] == (equal_operator_name(), TypeModel::Named(tv)));
    assert(cs.take(1).last() == cs[0]);
    assert(with_entries(Seq::empty(), cs.take(0)) == Seq::<(Seq<char>, TypeModel)>::empty());
    assert(operators.deep_view() == with_entries(Seq::empty(), cs.take(1)));
    let mut i: usize = 0;
    while i < catalog.len()
        invariant
            0 <= i <= catalog.len(),
            catalog.deep_view() == catalog_entry(tv),
            cs == comparison_entries(tv),
            operators.deep_view() == with_entries(Seq::empty(), cs.take(i + 1)),
        decreases catalog.len() - i,
    {
        assert(cs.take(i + 2).drop_last() =~= cs.take(i + 1));
        let definition = ComparisonOperatorDefinition {
            argument_type: named(&catalog[i].1.argument_type.0),
        };
        put_entry(&mut operators, catalog[i].0.clone(), definition);
        i = i + 1;
    }
    assert(cs.take(catalog.len() + 1) =~= cs);
    crate::models::ScalarType { aggregate_functions: functions, comparison_operators: operators }
}

fn table_collection_info(name: &String, table: &TableInfo) -> (r: CollectionInfo)
    ensures
        r.deep_view() == table_collection(name@, table.deep_view()),
{
    let r = CollectionInfo {
        name: name.clone(),
        arguments: Vec::new(),
        collection_type: name.clone(),
        deletable: false,
        uniqueness_constraints: uniqueness_constraints_of(table),
        foreign_keys: foreign_keys_of(table),
    };
    assert(r.deep_view().arguments =~= Seq::empty());
    r
}

fn native_query_collection_info(name: &String, query: &NativeQueryInfo) -> (r: CollectionInfo)
    ensures
        r.deep_view() == native_query_collection(name@, query.deep_view()),
{
    let r = CollectionInfo {
        name: name.clone(),
        arguments: arguments_of(&query.arguments),
        collection_type: name.clone(),
        deletable: false,
        uniqueness_constraints: Vec::new(),
        foreign_keys: Vec::new(),
    };
    assert(r.deep_view().uniqueness_constraints =~= Seq::empty());
    assert(r.deep_view().foreign_keys =~= Seq::empty());
    r
}

/// Derives the connector's schema from a validated configuration.
pub fn get_schema(config: &Configuration) -> (r: SchemaResponse)
    ensures
        r.deep_view() == schema_of(config.config.metadata.deep_view()),
        schema_canonical(r.deep_view()),
{
    let metadata = &config.config.metadata;
    let ghost m = metadata.deep_view();
    let ghost expected = schema_of(m);
    proof {
        lemma_schema_canonical(m);
    }

    let types = occurring_scalar_types(config);
    let mut scalar_types: Vec<(String, crate::models::ScalarType)> = Vec::new();
    let mut i: usize = 0;
    while i < types.len()
        invariant
            0 <= i <= types.len(),
            m == metadata.deep_view(),
            metadata == &config.config.metadata,
            expected == schema_of(m),
            types.deep_view() == occurring(m),
            scalar_types.len() == i,
            forall|k: int| 0 <= k < i ==> scalar_types.deep_view()[k] == expected.scalar_types[k],
        decreases types.len() - i,
    {
        let info = scalar_type_info(&metadata.aggregate_functions, &ScalarType(types[i].clone()));
        let ghost before = scalar_types@;
        let ghost before_view = scalar_types.deep_view();
        scalar_types.push((types[i].clone(), info));
        assert(types.deep_view()[i as int] == types[i as int]@);
        assert forall|k: int| 0 <= k < i + 1 implies scalar_types.deep_view()[k]
            == expected.scalar_types[k] by {
            if k < i {
                assert(scalar_types@[k] == before[k]);
                assert(scalar_types.deep_view()[k] == before_view[k]);
            }
        }
        i = i + 1;
    }
    assert(scalar_types.deep_view() =~= expected.scalar_types);

    let tables = &metadata.tables.0;
    let queries = &metadata.native_queries.0;
    let mut table_entries: Vec<(String, CollectionInfo)> = Vec::new();
    let mut object_types: Vec<(String, ObjectType)> = Vec::new();
    let ghost cs = table_collections(m);
    let ghost os = table_object_types(m);
    assert(cs.take(0) =~= Seq::<(Seq<char>, CollectionModel)>::empty());
    assert(os.take(0) =~= Seq::<(Seq<char>, Seq<(Seq<char>, TypeModel)>)>::empty());
    assert(table_entries.deep_view() =~= Seq::<(Seq<char>, CollectionModel)>::empty());
    assert(object_types.deep_view() =~= Seq::<(Seq<char>, Seq<(Seq<char>, TypeModel)>)>::empty());
    let mut i: usize = 0;
    while i < tables.len()
        invariant
            0 <= i <= tables.len(),
            m == metadata.deep_view(),
            tables == &metadata.tables.0,
            cs == table_collections(m),
            os == table_object_types(m),
            table_entries.deep_view() == with_entries(Seq::empty(), cs.take(i as int)),
            object_types.deep_view() == with_entries(Seq::empty(), os.take(i as int)),
        decreases tables.len() - i,
    {
        assert(m.tables[i as int] == (tables[i as int].0@, tables[i as int].1.deep_view()));
        assert(cs.take(i + 1).drop_last() =~= cs.take(i as int));
        assert(os.take(i + 1).drop_last() =~= os.take(i as int));
        put_entry(
            &mut table_entries,
            tables[i].0.clone(),
            table_collection_info(&tables[i].0, &tables[i].1),
        );
        put_entry(
            &mut object_types,
            tables[i].0.clone(),
            ObjectType { fields: object_fields_of(&tables[i].1.columns) },
        );
        i = i + 1;
    }
    assert(cs.take(tables.len() as int) =~= cs);
    assert(os.take(tables.len() as int) =~= os);
    let ghost after_tables = object_types.deep_view();

    let mut query_entries: Vec<(String, CollectionInfo)> = Vec::new();
    let ghost cs = native_query_collections(m);
    let ghost os = native_query_object_types(m);
    assert(cs.take(0) =~= Seq::<(Seq<char>, CollectionModel)>::empty());
    assert(os.take(0) =~= Seq::<(Seq<char>, Seq<(Seq<char>, TypeModel)>)>::empty());
    assert(query_entries.deep_view() =~= Seq::<(Seq<char>, CollectionModel)>::empty());
    let mut i: usize = 0;
    while i < queries.len()
        invariant
            0 <= i <= queries.len(),
            m == metadata.deep_view(),
            queries == &metadata.native_queries.0,
            cs == native_query_collections(m),
            os == native_query_object_types(m),
            query_entries.deep_view() == with_entries(Seq::empty(), cs.take(i as int)),
            object_types.deep_view() == with_entries(after_tables, os.take(i as int)),
        decreases queries.len() - i,
    {
        assert(m.native_queries[i as int] == (
            queries[i as int].0@,
            queries[i as int].1.deep_view(),
        ));
        assert(cs.take(i + 1).drop_last() =~= cs.take(i as int));
        assert(os.take(i + 1).drop_last() =~= os.take(i as int));
        put_entry(
            &mut query_entries,
            queries[i].0.clone(),
            native_query_collection_info(&queries[i].0, &queries[i].1),
        );
        put_entry(
            &mut object_types,
            queries[i].0.clone(),
            ObjectType { fields: object_fields_of(&queries[i].1.columns) },
        );
        i = i + 1;
    }
    assert(cs.take(queries.len() as int) =~= cs);
    assert(os.take(queries.len() as int) =~= os);

    let mut collections = values_of(table_entries);
    let mut rest = values_of(query_entries);
    let ghost first = collections.deep_view();
    let ghost second = rest.deep_view();
    collections.append(&mut rest);
    assert(collections.deep_view() =~= first + second);
    SchemaResponse { scalar_types, collections, object_types }
}

proof fn lemma_add_column_lists_sorted(
    acc: Seq<Seq<char>>,
    lists: Seq<Seq<(Seq<char>, ColumnModel)>>,
)
    requires
        names_sorted(acc),
    ensures
        names_sorted(add_column_lists(acc, lists)),
    decreases lists.len(),
{
    if lists.len() > 0 {
        lemma_add_column_lists_sorted(acc, lists.drop_last());
        lemma_add_all_sorted(add_column_lists(acc, lists.drop_last()), column_types(lists.last()));
    }
}

/// The scalar types that occur in the metadata are listed in strictly
/// increasing name order.
pub proof fn lemma_occurring_sorted(m: MetadataModel)
    ensures
        names_sorted(occurring(m)),
{
    let empty = Seq::<Seq<char>>::empty();
    lemma_add_column_lists_sorted(empty, table_columns(m));
    let a = add_column_lists(empty, table_columns(m));
    lemma_add_column_lists_sorted(a, native_query_columns(m));
    let b = add_column_lists(a, native_query_columns(m));
    lemma_add_column_lists_sorted(b, native_query_arguments(m));
    let c = add_column_lists(b, native_query_arguments(m));
    lemma_add_all_sorted(c, aggregate_types(m));
}

proof fn lemma_add_column_lists_no_duplicates(
    acc: Seq<Seq<char>>,
    lists: Seq<Seq<(Seq<char>, ColumnModel)>>,
)
    requires
        acc.no_duplicates(),
    ensures
        add_column_lists(acc, lists).no_duplicates(),
    decreases lists.len(),
{
    if lists.len() > 0 {
        lemma_add_column_lists_no_duplicates(acc, lists.drop_last());
        lemma_add_all_no_duplicates(
            add_column_lists(acc, lists.drop_last()),
            column_types(lists.last()),
        );
    }
}

/// Each scalar type that occurs in the metadata is listed once.
pub proof fn lemma_occurring_distinct(m: MetadataModel)
    ensures
        occurring(m).no_duplicates(),
{
    let empty = Seq::<Seq<char>>::empty();
    lemma_add_column_lists_no_duplicates(empty, table_columns(m));
    let a = add_column_lists(empty, table_columns(m));
    lemma_add_column_lists_no_duplicates(a, native_query_columns(m));
    let b = add_column_lists(a, native_query_columns(m));
    lemma_add_column_lists_no_duplicates(b, native_query_arguments(m));
    let c = add_column_lists(b, native_query_arguments(m));
    lemma_add_all_no_duplicates(c, aggregate_types(m));
}

/// Every map of a collection has strictly ascending keys, and so has every
/// set of unique columns and every column mapping.
pub open spec fn collection_canonical(c: CollectionModel) -> bool {
    &&& entries_sorted(c.arguments)
    &&& entries_sorted(c.uniqueness_constraints)
    &&& forall|k: int|
        0 <= k < c.uniqueness_constraints.len() ==> names_sorted(
            #[trigger] c.uniqueness_constraints[k].1,
        )
    &&& entries_sorted(c.foreign_keys)
    &&& forall|k: int|
        0 <= k < c.foreign_keys.len() ==> entries_sorted(
            #[trigger] c.foreign_keys[k].1.column_mapping,
        )
}

/// Every map of the schema, at every level, has strictly ascending keys.
pub open spec fn schema_canonical(s: SchemaModel) -> bool {
    &&& entries_sorted(s.scalar_types)
    &&& forall|i: int|
        0 <= i < s.scalar_types.len() ==> {
            let st = #[trigger] s.scalar_types[i].1;
            entries_sorted(st.aggregate_functions) && entries_sorted(st.comparison_operators)
        }
    &&& forall|i: int| 0 <= i < s.collections.len() ==> collection_canonical(#[trigger] s.collections[i])
    &&& entries_sorted(s.object_types)
    &&& forall|i: int| 0 <= i < s.object_types.len() ==> entries_sorted(#[trigger] s.object_types[i].1)
}

/// Every entry that ordered insertion yields comes from the starting entries
/// or from the inserted ones.
proof fn lemma_with_entries_from<V>(
    acc: Seq<(Seq<char>, V)>,
    es: Seq<(Seq<char>, V)>,
    p: spec_fn((Seq<char>, V)) -> bool,
)
    requires
        forall|k: int| 0 <= k < acc.len() ==> p(#[trigger] acc[k]),
        forall|k: int| 0 <= k < es.len() ==> p(#[trigger] es[k]),
    ensures
        forall|k: int|
            0 <= k < with_entries(acc, es).len() ==> p(#[trigger] with_entries(acc, es)[k]),
    decreases es.len(),
{
    if es.len() > 0 {
        assert forall|k: int| 0 <= k < es.drop_last().len() implies p(
            #[trigger] es.drop_last()[k],
        ) by {
            assert(es.drop_last()[k] == es[k]);
        }
        lemma_with_entries_from(acc, es.drop_last(), p);
        let before = with_entries(acc, es.drop_last());
        let e = es.last();
        assert(p(e));
        let q = entry_position(before, e.0);
        lemma_entry_position_bounds(before, e.0);
        let after = with_entry(before, e);
        assert forall|k: int| 0 <= k < after.len() implies p(#[trigger] after[k]) by {
            if 0 <= q < before.len() && before[q].0 == e.0 {
                if k != q {
                    assert(after[k] == before[k]);
                }
            } else if k < q {
                assert(after[k] == before[k]);
            } else if k > q {
                assert(after[k] == before[k - 1]);
            }
        }
    }
}

proof fn lemma_ordered_sorted<V>(es: Seq<(Seq<char>, V)>)
    ensures
        entries_sorted(ordered(es)),
{
    lemma_with_entries_sorted(Seq::<(Seq<char>, V)>::empty(), es);
}

proof fn lemma_collection_canonical(c: CollectionModel)
    requires
        entries_sorted(c.arguments),
        entries_sorted(c.uniqueness_constraints),
        entries_sorted(c.foreign_keys),
        forall|k: int|
            0 <= k < c.uniqueness_constraints.len() ==> names_sorted(
                #[trigger] c.uniqueness_constraints[k].1,
            ),
        forall|k: int|
            0 <= k < c.foreign_keys.len() ==> entries_sorted(
                #[trigger] c.foreign_keys[k].1.column_mapping,
            ),
    ensures
        collection_canonical(c),
{
}

proof fn lemma_table_collection_canonical(name: Seq<char>, t: TableModel)
    ensures
        collection_canonical(table_collection(name, t)),
{
    let c = table_collection(name, t);
    lemma_ordered_sorted(constraint_entries(t));
    lemma_ordered_sorted(foreign_key_entries(t));
    let p1 = |e: (Seq<char>, Seq<Seq<char>>)| names_sorted(e.1);
    assert forall|k: int| 0 <= k < constraint_entries(t).len() implies p1(
        #[trigger] constraint_entries(t)[k],
    ) by {
        lemma_add_all_sorted(Seq::empty(), t.uniqueness_constraints[k].1);
    }
    lemma_with_entries_from(Seq::empty(), constraint_entries(t), p1);
    let p2 = |e: (Seq<char>, ForeignRelationModel)| entries_sorted(e.1.column_mapping);
    assert forall|k: int| 0 <= k < foreign_key_entries(t).len() implies p2(
        #[trigger] foreign_key_entries(t)[k],
    ) by {
        lemma_ordered_sorted(t.foreign_relations[k].1.column_mapping);
    }
    lemma_with_entries_from(Seq::empty(), foreign_key_entries(t), p2);
    assert forall|k: int| 0 <= k < c.uniqueness_constraints.len() implies names_sorted(
        #[trigger] c.uniqueness_constraints[k].1,
    ) by {
        assert(p1(c.uniqueness_constraints[k]));
    }
    assert forall|k: int| 0 <= k < c.foreign_keys.len() implies entries_sorted(
        #[trigger] c.foreign_keys[k].1.column_mapping,
    ) by {
        assert(p2(c.foreign_keys[k]));
    }
    lemma_collection_canonical(c);
}

proof fn lemma_native_query_collection_canonical(name: Seq<char>, q: NativeQueryModel)
    ensures
        collection_canonical(native_query_collection(name, q)),
{
    lemma_ordered_sorted(column_type_entries(q.arguments));
    lemma_collection_canonical(native_query_collection(name, q));
}

/// The derived schema is canonical: every map in it, at every level, lists
/// its keys in strictly ascending order, and the collections are those of
/// the tables in name order followed by those of the native queries in name
/// order.
pub proof fn lemma_schema_canonical(m: MetadataModel)
    ensures
        schema_canonical(schema_of(m)),
        entries_sorted(ordered(table_collections(m))),
        entries_sorted(ordered(native_query_collections(m))),
{
    let s = schema_of(m);
    lemma_occurring_sorted(m);
    let types = occurring(m);
    assert forall|i: int, j: int| 0 <= i < j < s.scalar_types.len() implies name_less(
        #[trigger] s.scalar_types[i].0,
        #[trigger] s.scalar_types[j].0,
    ) by {
        assert(s.scalar_types[i].0 == types[i]);
        assert(s.scalar_types[j].0 == types[j]);
    }
    assert forall|i: int| 0 <= i < s.scalar_types.len() implies {
        let st = #[trigger] s.scalar_types[i].1;
        entries_sorted(st.aggregate_functions) && entries_sorted(st.comparison_operators)
    } by {
        lemma_ordered_sorted(aggregate_entries(m.aggregate_functions, types[i]));
        lemma_ordered_sorted(comparison_entries(types[i]));
    }

    let tc = table_collections(m);
    let qc = native_query_collections(m);
    lemma_ordered_sorted(tc);
    lemma_ordered_sorted(qc);
    let pc = |e: (Seq<char>, CollectionModel)| collection_canonical(e.1);
    assert forall|k: int| 0 <= k < tc.len() implies pc(#[trigger] tc[k]) by {
        lemma_table_collection_canonical(m.tables[k].0, m.tables[k].1);
    }
    assert forall|k: int| 0 <= k < qc.len() implies pc(#[trigger] qc[k]) by {
        lemma_native_query_collection_canonical(m.native_queries[k].0, m.native_queries[k].1);
    }
    lemma_with_entries_from(Seq::empty(), tc, pc);
    lemma_with_entries_from(Seq::empty(), qc, pc);
    let first = values(ordered(tc));
    let second = values(ordered(qc));
    assert forall|i: int| 0 <= i < s.collections.len() implies collection_canonical(
        #[trigger] s.collections[i],
    ) by {
        if i < first.len() {
            assert(s.collections[i] == ordered(tc)[i].1);
            assert(pc(ordered(tc)[i]));
        } else {
            assert(s.collections[i] == ordered(qc)[i - first.len()].1);
            assert(pc(ordered(qc)[i - first.len()]));
        }
    }

    let to = table_object_types(m);
    let qo = native_query_object_types(m);
    lemma_ordered_sorted(to);
    lemma_with_entries_sorted(ordered(to), qo);
    let po = |e: (Seq<char>, Seq<(Seq<char>, TypeModel)>)| entries_sorted(e.1);
    assert forall|k: int| 0 <= k < to.len() implies po(#[trigger] to[k]) by {
        lemma_ordered_sorted(field_entries(m.tables[k].1.columns));
    }
    assert forall|k: int| 0 <= k < qo.len() implies po(#[trigger] qo[k]) by {
        lemma_ordered_sorted(field_entries(m.native_queries[k].1.columns));
    }
    lemma_with_entries_from(Seq::empty(), to, po);
    lemma_with_entries_from(ordered(to), qo, po);
    assert forall|i: int| 0 <= i < s.object_types.len() implies entries_sorted(
        #[trigger] s.object_types[i].1,
    ) by {
        assert(po(s.object_types[i]));
    }
}

/// Deriving the schema gives the same schema for equal configurations, and
/// a canonical one; this holds of every configuration, so of every one that
/// passed validation.
pub proof fn lemma_derive_deterministic(a: RawConfigurationModel, b: RawConfigurationModel)
    requires
        a == b,
    ensures
        schema_of(a.metadata) == schema_of(b.metadata),
        schema_canonical(schema_of(a.metadata)),
{
    lemma_schema_canonical(a.metadata);
}

/// Some column of some list of `lists` has scalar type `x`.
pub open spec fn occurs_in(lists: Seq<Seq<(Seq<char>, ColumnModel)>>, x: Seq<char>) -> bool {
    exists|i: int, j: int|
        0 <= i < lists.len() && 0 <= j < lists[i].len() && #[trigger] lists[i][j].1.scalar_type == x
}

proof fn lemma_add_column_lists_contains(
    acc: Seq<Seq<char>>,
    lists: Seq<Seq<(Seq<char>, ColumnModel)>>,
    x: Seq<char>,
)
    ensures
        add_column_lists(acc, lists).contains(x) <==> acc.contains(x) || occurs_in(lists, x),
    decreases lists.len(),
{
    if lists.len() > 0 {
        let init = lists.drop_last();
        let last = lists.last();
        lemma_add_column_lists_contains(acc, init, x);
        lemma_add_all_contains(add_column_lists(acc, init), column_types(last), x);
        if column_types(last).contains(x) {
            let j = choose|j: int| 0 <= j < column_types(last).len() && column_types(last)[j] == x;
            assert(lists[lists.len() - 1][j].1.scalar_type == x);
        }
        if occurs_in(init, x) {
            let (i, j) = choose|i: int, j: int|
                0 <= i < init.len() && 0 <= j < init[i].len() && #[trigger] init[i][j].1.scalar_type
                    == x;
            assert(lists[i][j].1.scalar_type == x);
        }
        if occurs_in(lists, x) {
            let (i, j) = choose|i: int, j: int|
                0 <= i < lists.len() && 0 <= j < lists[i].len() && #[trigger] lists[i][j].1.scalar_type
                    == x;
            if i < lists.len() - 1 {
                assert(init[i][j].1.scalar_type == x);
            } else {
                assert(column_types(last)[j] == x);
            }
        }
    }
}

/// The scalar types of the schema are exactly those of table columns, of
/// native query columns, of native query arguments, and those with aggregate
/// functions.
pub proof fn lemma_occurring_contents(m: MetadataModel, x: Seq<char>)
    ensures
        occurring(m).contains(x) <==> occurs_in(table_columns(m), x) || occurs_in(
            native_query_columns(m),
            x,
        ) || occurs_in(native_query_arguments(m), x) || aggregate_types(m).contains(x),
{
    let empty = Seq::<Seq<char>>::empty();
    let a = add_column_lists(empty, table_columns(m));
    let b = add_column_lists(a, native_query_columns(m));
    let c = add_column_lists(b, native_query_arguments(m));
    lemma_add_column_lists_contains(empty, table_columns(m), x);
    lemma_add_column_lists_contains(a, native_query_columns(m), x);
    lemma_add_column_lists_contains(b, native_query_arguments(m), x);
    lemma_add_all_contains(c, aggregate_types(m), x);
}

/// The object types of the schema are named exactly by the tables and the
/// native queries.
pub proof fn lemma_object_type_names(m: MetadataModel, n: Seq<char>)
    ensures
        has_key(schema_of(m).object_types, n) <==> has_key(m.tables, n) || has_key(
            m.native_queries,
            n,
        ),
{
    let to = table_object_types(m);
    let qo = native_query_object_types(m);
    lemma_with_entries_keys(Seq::empty(), to, n);
    lemma_with_entries_keys(ordered(to), qo, n);
    if has_key(m.tables, n) {
        let i = choose|i: int| 0 <= i < m.tables.len() && #[trigger] m.tables[i].0 == n;
        assert(to[i].0 == n);
    }
    if has_key(to, n) {
        let i = choose|i: int| 0 <= i < to.len() && #[trigger] to[i].0 == n;
        assert(m.tables[i].0 == n);
    }
    if has_key(m.native_queries, n) {
        let i = choose|i: int| 0 <= i < m.native_queries.len() && #[trigger] m.native_queries[i].0 == n;
        assert(qo[i].0 == n);
    }
    if has_key(qo, n) {
        let i = choose|i: int| 0 <= i < qo.len() && #[trigger] qo[i].0 == n;
        assert(m.native_queries[i].0 == n);
    }
    if has_key(Seq::<(Seq<char>, Seq<(Seq<char>, TypeModel)>)>::empty(), n) {
        let i = choose|i: int|
            0 <= i < Seq::<(Seq<char>, Seq<(Seq<char>, TypeModel)>)>::empty().len()
                && #[trigger] Seq::<(Seq<char>, Seq<(Seq<char>, TypeModel)>)>::empty()[i].0 == n;
    }
}

/// A table that is the last of its name and whose name no native query
/// takes has its object type in the schema. There, a column that is the last
/// of its name has its field, typed by the column's named scalar type,
/// wrapped as nullable exactly when the column is nullable.
pub proof fn lemma_table_field_nullability(m: MetadataModel, i: int, j: int)
    requires
        0 <= i < m.tables.len(),
        0 <= j < m.tables[i].1.columns.len(),
        forall|k: int| i < k < m.tables.len() ==> m.tables[k].0 != m.tables[i].0,
        forall|q: int| 0 <= q < m.native_queries.len() ==> m.native_queries[q].0 != m.tables[i].0,
        forall|k: int|
            j < k < m.tables[i].1.columns.len() ==> m.tables[i].1.columns[k].1.name
                != m.tables[i].1.columns[j].1.name,
    ensures
        schema_of(m).object_types.contains(
            (m.tables[i].0, object_fields(m.tables[i].1.columns)),
        ),
        ({
            let column = m.tables[i].1.columns[j].1;
            let fields = object_fields(m.tables[i].1.columns);
            &&& column.nullable == Nullable::Nullable ==> fields.contains(
                (column.name, TypeModel::Nullable(Box::new(TypeModel::Named(column.scalar_type)))),
            )
            &&& column.nullable == Nullable::NonNullable ==> fields.contains(
                (column.name, TypeModel::Named(column.scalar_type)),
            )
        }),
{
    let tables = table_object_types(m);
    let queries = native_query_object_types(m);
    let e = (m.tables[i].0, object_fields(m.tables[i].1.columns));
    assert(tables[i] == e);
    assert forall|k: int| i < k < tables.len() implies tables[k].0 != tables[i].0 by {
        assert(tables[k].0 == m.tables[k].0);
    }
    lemma_with_entries_puts(Seq::empty(), tables, i);
    assert forall|k: int| 0 <= k < queries.len() implies queries[k].0 != e.0 by {
        assert(queries[k].0 == m.native_queries[k].0);
    }
    lemma_with_entries_keeps(ordered(tables), queries, e);
    let columns = m.tables[i].1.columns;
    let fs = field_entries(columns);
    assert forall|k: int| j < k < fs.len() implies fs[k].0 != fs[j].0 by {
        assert(fs[k].0 == columns[k].1.name);
    }
    lemma_with_entries_puts(Seq::empty(), fs, j);
    assert(fs[j] == (columns[j].1.name, column_type(columns[j].1)));
}

} // verus!
