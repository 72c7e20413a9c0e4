//! Resolution of an abstract comparison operator, against the scalar type of
//! its left operand, to a SQL operator and the type its right operand must
//! have.
use crate::catalog::{
    catalog_entry, find_operator, lookup_comparison, ComparisonOperatorModel,
};
use crate::metadata::ScalarType;
use vstd::prelude::*;

verus! {

/// A comparison operator as a query states it.
#[derive(Debug, Clone, PartialEq, Eq)]
pub enum BinaryComparisonOperator {
    Equal,
    Other { name: String },
}

pub ghost enum BinaryComparisonOperatorModel {
    Equal,
    Other(Seq<char>),
}

impl DeepView for BinaryComparisonOperator {
    type V = BinaryComparisonOperatorModel;

    open spec fn deep_view(&self) -> BinaryComparisonOperatorModel {
        match self {
            BinaryComparisonOperator::Equal => BinaryComparisonOperatorModel::Equal,
            BinaryComparisonOperator::Other { name } => BinaryComparisonOperatorModel::Other(
                name@,
            ),
        }
    }
}

/// A SQL operator or function of two arguments, written between them when
/// `is_infix`, and called with them otherwise.
#[derive(Debug, Clone, PartialEq, Eq)]
pub struct Function {
    pub function_name: String,
    pub is_infix: bool,
}

pub ghost struct FunctionModel {
    pub function_name: Seq<char>,
    pub is_infix: bool,
}

impl DeepView for Function {
    type V = FunctionModel;

    open spec fn deep_view(&self) -> FunctionModel {
        FunctionModel { function_name: self.function_name@, is_infix: self.is_infix }
    }
}

/// A failure to translate a part of a query.
#[derive(Debug, Clone, PartialEq, Eq)]
pub enum Error {
    OperatorNotFound { operator_name: String, scalar_type: ScalarType },
}

pub ghost enum ErrorModel {
    OperatorNotFound { operator_name: Seq<char>, scalar_type: Seq<char> },
}

impl DeepView for Error {
    type V = ErrorModel;

    open spec fn deep_view(&self) -> ErrorModel {
        match self {
            Error::OperatorNotFound { operator_name, scalar_type } => ErrorModel::OperatorNotFound {
                operator_name: operator_name@,
                scalar_type: scalar_type.deep_view(),
            },
        }
    }
}

pub open spec fn error_message(e: ErrorModel) -> Seq<char> {
    match e {
        ErrorModel::OperatorNotFound { operator_name, scalar_type } => "comparison operator "@
            + operator_name + " is not defined for scalar type "@ + scalar_type,
    }
}

impl Error {
    /// A sentence that names the operator and the scalar type.
    pub fn message(&self) -> (r: String)
        ensures
            r@ == error_message(self.deep_view()),
    {
        match self {
            Error::OperatorNotFound { operator_name, scalar_type } => {
                let mut s = String::from_str("comparison operator ");
                s.append(operator_name.as_str());
                s.append(" is not defined for scalar type ");
                s.append(scalar_type.0.as_str());
                s
            },
        }
    }
}

pub open spec fn equals_model() -> FunctionModel {
    FunctionModel { function_name: "="@, is_infix: true }
}

/// The SQL equality operator.
pub fn equals() -> (r: Function)
    ensures
        r.deep_view() == equals_model(),
{
    Function { function_name: String::from_str("="), is_infix: true }
}

/// What a comparison of the given operator on a left operand of type `left`
/// translates to: equality for every type, and otherwise the operator of that
/// name in the type's catalog entry.
pub open spec fn translation(left: Seq<char>, operator: BinaryComparisonOperatorModel) -> Result<
    (FunctionModel, Seq<char>),
    ErrorModel,
> {
    match operator {
        BinaryComparisonOperatorModel::Equal => Ok((equals_model(), left)),
        BinaryComparisonOperatorModel::Other(name) => match find_operator(
            catalog_entry(left),
            name,
        ) {
            Some(op) => Ok(
                (
                    FunctionModel { function_name: op.operator_name, is_infix: op.is_infix },
                    op.argument_type,
                ),
            ),
            None => Err(ErrorModel::OperatorNotFound { operator_name: name, scalar_type: left }),
        },
    }
}

pub open spec fn translation_view(r: Result<(Function, ScalarType), Error>) -> Result<
    (FunctionModel, Seq<char>),
    ErrorModel,
> {
    match r {
        Ok((f, t)) => Ok((f.deep_view(), t.deep_view())),
        Err(e) => Err(e.deep_view()),
    }
}

/// Maps a comparison operator to its SQL operator and the scalar type of its
/// right-hand argument.
pub fn translate_comparison(left_type: &ScalarType, operator: &BinaryComparisonOperator) -> (r:
    Result<(Function, ScalarType), Error>)
    ensures
        translation_view(r) == translation(left_type.deep_view(), operator.deep_view()),
{
    match operator {
        BinaryComparisonOperator::Equal => Ok((equals(), left_type.duplicate())),
        BinaryComparisonOperator::Other { name } => match lookup_comparison(left_type, name) {
            Some(op) => Ok(
                (Function { function_name: op.operator_name, is_infix: op.is_infix }, op.argument_type),
            ),
            None => Err(
                Error::OperatorNotFound {
                    operator_name: name.clone(),
                    scalar_type: left_type.duplicate(),
                },
            ),
        },
    }
}

proof fn lemma_find_absent(entries: Seq<(Seq<char>, ComparisonOperatorModel)>, name: Seq<char>)
    requires
        forall|i: int| 0 <= i < entries.len() ==> entries[i].0 != name,
    ensures
        find_operator(entries, name) is None,
    decreases entries.len(),
{
    if entries.len() > 0 {
        assert(entries[0].0 != name);
        assert forall|i: int| 0 <= i < entries.len() - 1 implies entries.drop_first()[i].0
            != name by {
            assert(entries.drop_first()[i] == entries[i + 1]);
        }
        lemma_find_absent(entries.drop_first(), name);
    }
}

/// Equality translates, for every scalar type, to SQL equality whose
/// right-hand argument has the same type as the left; an operator that the
/// type's catalog entry does not list fails, naming the operator and the type.
pub proof fn lemma_translation_laws(t: Seq<char>, name: Seq<char>)
    ensures
        translation(t, BinaryComparisonOperatorModel::Equal) == Ok::<_, ErrorModel>(
            (equals_model(), t),
        ),
        (forall|i: int| 0 <= i < catalog_entry(t).len() ==> catalog_entry(t)[i].0 != name)
            ==> translation(t, BinaryComparisonOperatorModel::Other(name)) == Err::<
            (FunctionModel, Seq<char>),
            _,
        >(ErrorModel::OperatorNotFound { operator_name: name, scalar_type: t }),
{
    if forall|i: int| 0 <= i < catalog_entry(t).len() ==> catalog_entry(t)[i].0 != name {
        lemma_find_absent(catalog_entry(t), name);
    }
}

} // verus!
