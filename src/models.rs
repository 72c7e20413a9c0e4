//! The schema that the connector reports to the query-serving platform.
use crate::metadata::ForeignRelationModel;
use vstd::prelude::*;

verus! {

/// The type of a field, argument or result.
#[derive(Debug, PartialEq, Eq)]
pub enum Type {
    Named { name: String },
    Nullable { underlying_type: Box<Type> },
}

pub ghost enum TypeModel {
    Named(Seq<char>),
    Nullable(Box<TypeModel>),
}

pub open spec fn type_model(t: &Type) -> TypeModel
    decreases t,
{
    match t {
        Type::Named { name } => TypeModel::Named(name@),
        Type::Nullable { underlying_type } => TypeModel::Nullable(
            Box::new(type_model(&**underlying_type)),
        ),
    }
}

impl DeepView for Type {
    type V = TypeModel;

    open spec fn deep_view(&self) -> TypeModel {
        type_model(self)
    }
}

/// An aggregate function, described by the type of its result.
#[derive(Debug, PartialEq, Eq)]
pub struct AggregateFunctionDefinition {
    pub result_type: Type,
}

impl DeepView for AggregateFunctionDefinition {
    type V = TypeModel;

    open spec fn deep_view(&self) -> TypeModel {
        self.result_type.deep_view()
    }
}

/// A comparison operator, described by the type of its right-hand argument.
#[derive(Debug, PartialEq, Eq)]
pub struct ComparisonOperatorDefinition {
    pub argument_type: Type,
}

impl DeepView for ComparisonOperatorDefinition {
    type V = TypeModel;

    open spec fn deep_view(&self) -> TypeModel {
        self.argument_type.deep_view()
    }
}

/// What can be done with values of a scalar type: its aggregate functions and
/// comparison operators, by name.
#[derive(Debug, PartialEq, Eq)]
pub struct ScalarType {
    pub aggregate_functions: Vec<(String, AggregateFunctionDefinition)>,
    pub comparison_operators: Vec<(String, ComparisonOperatorDefinition)>,
}

pub ghost struct ScalarTypeModel {
    pub aggregate_functions: Seq<(Seq<char>, TypeModel)>,
    pub comparison_operators: Seq<(Seq<char>, TypeModel)>,
}

impl DeepView for ScalarType {
    type V = ScalarTypeModel;

    open spec fn deep_view(&self) -> ScalarTypeModel {
        ScalarTypeModel {
            aggregate_functions: self.aggregate_functions.deep_view(),
            comparison_operators: self.comparison_operators.deep_view(),
        }
    }
}

/// An argument of a collection.
#[derive(Debug, PartialEq, Eq)]
pub struct ArgumentInfo {
    pub argument_type: Type,
}

impl DeepView for ArgumentInfo {
    type V = TypeModel;

    open spec fn deep_view(&self) -> TypeModel {
        self.argument_type.deep_view()
    }
}

/// A set of columns whose values identify a row.
#[derive(Debug, PartialEq, Eq)]
pub struct UniquenessConstraint {
    pub unique_columns: Vec<String>,
}

impl DeepView for UniquenessConstraint {
    type V = Seq<Seq<char>>;

    open spec fn deep_view(&self) -> Seq<Seq<char>> {
        self.unique_columns.deep_view()
    }
}

/// A foreign key: the collection it refers to and the mapping from local to
/// foreign column names.
#[derive(Debug, PartialEq, Eq)]
pub struct ForeignKeyConstraint {
    pub foreign_collection: String,
    pub column_mapping: Vec<(String, String)>,
}

impl DeepView for ForeignKeyConstraint {
    type V = ForeignRelationModel;

    open spec fn deep_view(&self) -> ForeignRelationModel {
        ForeignRelationModel {
            foreign_table: self.foreign_collection@,
            column_mapping: self.column_mapping.deep_view(),
        }
    }
}

/// A source of rows: a table or a native query.
#[derive(Debug, PartialEq, Eq)]
pub struct CollectionInfo {
    pub name: String,
    pub arguments: Vec<(String, ArgumentInfo)>,
    pub collection_type: String,
    pub deletable: bool,
    pub uniqueness_constraints: Vec<(String, UniquenessConstraint)>,
    pub foreign_keys: Vec<(String, ForeignKeyConstraint)>,
}

pub ghost struct CollectionModel {
    pub name: Seq<char>,
    pub arguments: Seq<(Seq<char>, TypeModel)>,
    pub collection_type: Seq<char>,
    pub deletable: bool,
    pub uniqueness_constraints: Seq<(Seq<char>, Seq<Seq<char>>)>,
    pub foreign_keys: Seq<(Seq<char>, ForeignRelationModel)>,
}

impl DeepView for CollectionInfo {
    type V = CollectionModel;

    open spec fn deep_view(&self) -> CollectionModel {
        CollectionModel {
            name: self.name@,
            arguments: self.arguments.deep_view(),
            collection_type: self.collection_type@,
            deletable: self.deletable,
            uniqueness_constraints: self.uniqueness_constraints.deep_view(),
            foreign_keys: self.foreign_keys.deep_view(),
        }
    }
}

/// A field of an object type.
#[derive(Debug, PartialEq, Eq)]
pub struct ObjectField {
    pub field_type: Type,
}

impl DeepView for ObjectField {
    type V = TypeModel;

    open spec fn deep_view(&self) -> TypeModel {
        self.field_type.deep_view()
    }
}

/// The shape of the rows of a collection: its fields by name.
#[derive(Debug, PartialEq, Eq)]
pub struct ObjectType {
    pub fields: Vec<(String, ObjectField)>,
}

impl DeepView for ObjectType {
    type V = Seq<(Seq<char>, TypeModel)>;

    open spec fn deep_view(&self) -> Seq<(Seq<char>, TypeModel)> {
        self.fields.deep_view()
    }
}

/// The connector's schema. It offers no procedures and no functions.
#[derive(Debug, PartialEq, Eq)]
pub struct SchemaResponse {
    pub scalar_types: Vec<(String, ScalarType)>,
    pub collections: Vec<CollectionInfo>,
    pub object_types: Vec<(String, ObjectType)>,
}

pub ghost struct SchemaModel {
    pub scalar_types: Seq<(Seq<char>, ScalarTypeModel)>,
    pub collections: Seq<CollectionModel>,
    pub object_types: Seq<(Seq<char>, Seq<(Seq<char>, TypeModel)>)>,
}

impl DeepView for SchemaResponse {
    type V = SchemaModel;

    open spec fn deep_view(&self) -> SchemaModel {
        SchemaModel {
            scalar_types: self.scalar_types.deep_view(),
            collections: self.collections.deep_view(),
            object_types: self.object_types.deep_view(),
        }
    }
}

} // verus!
