//! Data types, fields, schemas and errors of `arrow_schema`.

use crate::model::{field, schema, FieldTy, SchemaTy, Ty};
use arrow_schema::{ArrowError, DataType, Field, Fields, Schema, UnionFields, UnionMode};
use std::sync::Arc;
use vstd::prelude::*;

verus! {

/// `arrow_schema::DataType`.
#[verifier::external_type_specification]
#[verifier::external_body]
pub struct ExDataType(DataType);

/// `arrow_schema::Field`.
#[verifier::external_type_specification]
#[verifier::external_body]
pub struct ExField(Field);

/// `arrow_schema::Fields`.
#[verifier::external_type_specification]
#[verifier::external_body]
pub struct ExFields(Fields);

/// `arrow_schema::UnionFields`.
#[verifier::external_type_specification]
#[verifier::external_body]
pub struct ExUnionFields(UnionFields);

/// `arrow_schema::Schema`.
#[verifier::external_type_specification]
#[verifier::external_body]
pub struct ExSchema(Schema);

/// `arrow_schema::ArrowError`.
#[verifier::external_type_specification]
#[verifier::external_body]
pub struct ExArrowError(ArrowError);

/// The tree that a data type is.
pub uninterp spec fn type_tree(data_type: DataType) -> Ty;

/// The name, type, nullability and metadata of a field.
pub uninterp spec fn field_tree(field: Field) -> FieldTy;

/// The fields that a collection of fields holds, in order.
pub uninterp spec fn fields_held(fields: Fields) -> Seq<FieldTy>;

/// The type ids and fields that a collection of union fields holds, in order.
pub uninterp spec fn union_fields_held(fields: UnionFields) -> Seq<(i8, FieldTy)>;

/// The fields and metadata of a schema.
pub uninterp spec fn schema_tree(schema: Schema) -> SchemaTy;

/// The text that an error displays.
pub uninterp spec fn error_text(error: ArrowError) -> Seq<char>;

/// The data types without parameters that the schemas use.
#[derive(Clone, Copy)]
pub enum Scalar {
    Boolean,
    Int16,
    Int32,
    Int64,
    UInt32,
    UInt64,
    Float64,
    Utf8,
    Binary,
}

impl Scalar {
    /// The data type of the same name.
    pub open spec fn ty(self) -> Ty {
        match self {
            Scalar::Boolean => Ty::Boolean,
            Scalar::Int16 => Ty::Int16,
            Scalar::Int32 => Ty::Int32,
            Scalar::Int64 => Ty::Int64,
            Scalar::UInt32 => Ty::UInt32,
            Scalar::UInt64 => Ty::UInt64,
            Scalar::Float64 => Ty::Float64,
            Scalar::Utf8 => Ty::Utf8,
            Scalar::Binary => Ty::Binary,
        }
    }
}

/// The variant of `arrow_schema::DataType` that has the name of `scalar`.
#[verifier::external_body]
pub(crate) fn scalar_type(scalar: Scalar) -> (r: DataType)
    ensures
        type_tree(r) == scalar.ty(),
{
    match scalar {
        Scalar::Boolean => DataType::Boolean,
        Scalar::Int16 => DataType::Int16,
        Scalar::Int32 => DataType::Int32,
        Scalar::Int64 => DataType::Int64,
        Scalar::UInt32 => DataType::UInt32,
        Scalar::UInt64 => DataType::UInt64,
        Scalar::Float64 => DataType::Float64,
        Scalar::Utf8 => DataType::Utf8,
        Scalar::Binary => DataType::Binary,
    }
}

/// `arrow_schema::DataType::List`: the type of lists whose items are `item`.
#[verifier::external_body]
pub(crate) fn list_type(item: Arc<Field>) -> (r: DataType)
    ensures
        type_tree(r) == Ty::List(Box::new(field_tree(*item))),
{
    DataType::List(item)
}

/// `arrow_schema::DataType::Struct`: the type of structs with these fields, in
/// this order.
#[verifier::external_body]
pub(crate) fn struct_type(fields: Vec<Field>) -> (r: DataType)
    ensures
        type_tree(r) == Ty::Struct(fields@.map_values(|f: Field| field_tree(f))),
{
    DataType::Struct(Fields::from(fields))
}

/// `arrow_schema::DataType::Map`: the type of maps with unsorted keys whose
/// entries are `entries`.
#[verifier::external_body]
pub(crate) fn map_type(entries: Field) -> (r: DataType)
    ensures
        type_tree(r) == Ty::Entries(Box::new(field_tree(entries)), false),
{
    DataType::Map(Arc::new(entries), false)
}

/// `arrow_schema::UnionFields::from_fields`, which numbers the fields from 0
/// and panics on more than 128 of them, under `arrow_schema::DataType::Union`
/// with the dense layout.
#[verifier::external_body]
pub(crate) fn union_type(fields: Vec<Field>) -> (r: DataType)
    requires
        fields@.len() <= 128,
    ensures
        type_tree(r) == Ty::DenseUnion(
            Seq::new(fields@.len(), |i: int| (i as i8, field_tree(fields@[i]))),
        ),
{
    DataType::Union(UnionFields::from_fields(fields), UnionMode::Dense)
}

/// `arrow_schema::Field::new`: a field with this name, type and nullability and
/// without metadata.
#[verifier::external_body]
pub(crate) fn new_field(name: &str, data_type: DataType, nullable: bool) -> (r: Field)
    ensures
        field_tree(r) == field(name@, type_tree(data_type), nullable),
{
    Field::new(name, data_type, nullable)
}

/// `arrow_schema::Schema::new`: a schema with these fields and without metadata.
#[verifier::external_body]
pub(crate) fn new_schema(fields: Vec<Field>) -> (r: Schema)
    ensures
        schema_tree(r) == schema(fields@.map_values(|f: Field| field_tree(f))),
{
    Schema::new(fields)
}

/// The fields inside `arrow_schema::DataType::Struct`.
#[verifier::external_body]
pub(crate) fn struct_fields(data_type: &DataType) -> (r: Fields)
    requires
        type_tree(*data_type) is Struct,
    ensures
        fields_held(r) == type_tree(*data_type)->Struct_0,
{
    match data_type {
        DataType::Struct(fields) => fields.clone(),
        _ => Fields::empty(),
    }
}

/// The type ids and fields inside `arrow_schema::DataType::Union`.
#[verifier::external_body]
pub(crate) fn union_fields(data_type: &DataType) -> (r: UnionFields)
    requires
        type_tree(*data_type) is DenseUnion,
    ensures
        union_fields_held(r) == type_tree(*data_type)->DenseUnion_0,
{
    match data_type {
        DataType::Union(fields, _) => fields.clone(),
        _ => UnionFields::empty(),
    }
}

/// The `Display` text of `arrow_schema::ArrowError`.
#[verifier::external_body]
pub(crate) fn display_error(error: &ArrowError) -> (r: String)
    ensures
        r@ == error_text(*error),
{
    error.to_string()
}

} // verus!
