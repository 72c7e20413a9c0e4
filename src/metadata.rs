//! The metadata that introspection discovers (tables, aggregate functions) and
//! that users declare (native queries).
//!
//! Every map is held as a vector of `(key, value)` entries in canonical order;
//! its model is the sequence of the entries' models.
use vstd::prelude::*;

verus! {

/// The name of a scalar type of the database, such as `int4` or `text`.
#[derive(Debug, Clone, PartialEq, Eq)]
pub struct ScalarType(pub String);

impl DeepView for ScalarType {
    type V = Seq<char>;

    open spec fn deep_view(&self) -> Seq<char> {
        self.0@
    }
}

impl ScalarType {
    pub fn duplicate(&self) -> (r: ScalarType)
        ensures
            r.deep_view() == self.deep_view(),
    {
        ScalarType(self.0.clone())
    }
}

/// Whether a column may hold null values.
#[derive(Debug, Clone, Copy, PartialEq, Eq, Structural)]
pub enum Nullable {
    Nullable,
    NonNullable,
}

impl DeepView for Nullable {
    type V = Nullable;

    open spec fn deep_view(&self) -> Nullable {
        *self
    }
}

/// A column of a table or native query, or an argument of a native query.
#[derive(Debug, Clone, PartialEq, Eq)]
pub struct ColumnInfo {
    pub name: String,
    pub scalar_type: ScalarType,
    pub nullable: Nullable,
}

pub ghost struct ColumnModel {
    pub name: Seq<char>,
    pub scalar_type: Seq<char>,
    pub nullable: Nullable,
}

impl DeepView for ColumnInfo {
    type V = ColumnModel;

    open spec fn deep_view(&self) -> ColumnModel {
        ColumnModel {
            name: self.name@,
            scalar_type: self.scalar_type.deep_view(),
            nullable: self.nullable,
        }
    }
}

/// The set of columns of a uniqueness constraint.
#[derive(Debug, Clone, PartialEq, Eq)]
pub struct UniquenessConstraint(pub Vec<String>);

impl DeepView for UniquenessConstraint {
    type V = Seq<Seq<char>>;

    open spec fn deep_view(&self) -> Seq<Seq<char>> {
        self.0.deep_view()
    }
}

/// A foreign key: the referenced table and the mapping from local to foreign
/// column names.
#[derive(Debug, Clone, PartialEq, Eq)]
pub struct ForeignRelation {
    pub foreign_table: String,
    pub column_mapping: Vec<(String, String)>,
}

pub ghost struct ForeignRelationModel {
    pub foreign_table: Seq<char>,
    pub column_mapping: Seq<(Seq<char>, Seq<char>)>,
}

impl DeepView for ForeignRelation {
    type V = ForeignRelationModel;

    open spec fn deep_view(&self) -> ForeignRelationModel {
        ForeignRelationModel {
            foreign_table: self.foreign_table@,
            column_mapping: self.column_mapping.deep_view(),
        }
    }
}

/// A table: its columns by name, its named uniqueness constraints and its
/// named foreign keys.
#[derive(Debug, Clone, PartialEq, Eq)]
pub struct TableInfo {
    pub schema_name: String,
    pub table_name: String,
    pub columns: Vec<(String, ColumnInfo)>,
    pub uniqueness_constraints: Vec<(String, UniquenessConstraint)>,
    pub foreign_relations: Vec<(String, ForeignRelation)>,
}

pub ghost struct TableModel {
    pub schema_name: Seq<char>,
    pub table_name: Seq<char>,
    pub columns: Seq<(Seq<char>, ColumnModel)>,
    pub uniqueness_constraints: Seq<(Seq<char>, Seq<Seq<char>>)>,
    pub foreign_relations: Seq<(Seq<char>, ForeignRelationModel)>,
}

impl DeepView for TableInfo {
    type V = TableModel;

    open spec fn deep_view(&self) -> TableModel {
        TableModel {
            schema_name: self.schema_name@,
            table_name: self.table_name@,
            columns: self.columns.deep_view(),
            uniqueness_constraints: self.uniqueness_constraints.deep_view(),
            foreign_relations: self.foreign_relations.deep_view(),
        }
    }
}

/// The tables that introspection found, by name.
#[derive(Debug, Clone, PartialEq, Eq)]
pub struct TablesInfo(pub Vec<(String, TableInfo)>);

impl DeepView for TablesInfo {
    type V = Seq<(Seq<char>, TableModel)>;

    open spec fn deep_view(&self) -> Seq<(Seq<char>, TableModel)> {
        self.0.deep_view()
    }
}

/// A user-declared parameterized read: its SQL text, result columns and
/// arguments.
#[derive(Debug, Clone, PartialEq, Eq)]
pub struct NativeQueryInfo {
    pub sql: String,
    pub columns: Vec<(String, ColumnInfo)>,
    pub arguments: Vec<(String, ColumnInfo)>,
}

pub ghost struct NativeQueryModel {
    pub sql: Seq<char>,
    pub columns: Seq<(Seq<char>, ColumnModel)>,
    pub arguments: Seq<(Seq<char>, ColumnModel)>,
}

impl DeepView for NativeQueryInfo {
    type V = NativeQueryModel;

    open spec fn deep_view(&self) -> NativeQueryModel {
        NativeQueryModel {
            sql: self.sql@,
            columns: self.columns.deep_view(),
            arguments: self.arguments.deep_view(),
        }
    }
}

/// The native queries that the user declared, by name.
#[derive(Debug, Clone, PartialEq, Eq)]
pub struct NativeQueries(pub Vec<(String, NativeQueryInfo)>);

impl DeepView for NativeQueries {
    type V = Seq<(Seq<char>, NativeQueryModel)>;

    open spec fn deep_view(&self) -> Seq<(Seq<char>, NativeQueryModel)> {
        self.0.deep_view()
    }
}

/// An aggregate function, described by the scalar type it returns.
#[derive(Debug, Clone, PartialEq, Eq)]
pub struct AggregateFunction {
    pub return_type: ScalarType,
}

impl DeepView for AggregateFunction {
    type V = Seq<char>;

    open spec fn deep_view(&self) -> Seq<char> {
        self.return_type.deep_view()
    }
}

/// The aggregate functions that introspection found, per scalar type and then
/// by function name.
#[derive(Debug, Clone, PartialEq, Eq)]
pub struct AggregateFunctions(pub Vec<(ScalarType, Vec<(String, AggregateFunction)>)>);

impl DeepView for AggregateFunctions {
    type V = Seq<(Seq<char>, Seq<(Seq<char>, Seq<char>)>)>;

    open spec fn deep_view(&self) -> Seq<(Seq<char>, Seq<(Seq<char>, Seq<char>)>)> {
        self.0.deep_view()
    }
}

/// Everything the connector knows of the database's contents.
#[derive(Debug, Clone, PartialEq, Eq)]
pub struct Metadata {
    pub tables: TablesInfo,
    pub native_queries: NativeQueries,
    pub aggregate_functions: AggregateFunctions,
}

pub ghost struct MetadataModel {
    pub tables: Seq<(Seq<char>, TableModel)>,
    pub native_queries: Seq<(Seq<char>, NativeQueryModel)>,
    pub aggregate_functions: Seq<(Seq<char>, Seq<(Seq<char>, Seq<char>)>)>,
}

impl DeepView for Metadata {
    type V = MetadataModel;

    open spec fn deep_view(&self) -> MetadataModel {
        MetadataModel {
            tables: self.tables.deep_view(),
            native_queries: self.native_queries.deep_view(),
            aggregate_functions: self.aggregate_functions.deep_view(),
        }
    }
}

impl Metadata {
    /// Metadata with no tables, native queries or aggregate functions.
    pub fn empty() -> (r: Metadata)
        ensures
            r.deep_view().tables.len() == 0,
            r.deep_view().native_queries.len() == 0,
            r.deep_view().aggregate_functions.len() == 0,
    {
        Metadata {
            tables: TablesInfo(Vec::new()),
            native_queries: NativeQueries(Vec::new()),
            aggregate_functions: AggregateFunctions(Vec::new()),
        }
    }
}

} // verus!
