//! Typed accessors for the tables of the Move standard library.
//!
//! A `Table<K, V>` or an `IterableTable<K, V>` on chain knows nothing of `K`
//! and `V`; the tag of the field that holds it does. An accessor is built
//! from that tag, and only from a tag of the right shape: a struct type, of
//! the right name, with exactly two type parameters. The first is recorded
//! as the tag of the keys, the second as the tag of the values.

use crate::tags::{lemma_struct_tag_view, paramless_name, Field, FieldDecl, Tag, TypeTag, NAME_SEPARATOR};
use vstd::prelude::*;

verus! {

/// The name of the plain table type.
pub const TABLE_TYPE: &'static str = "0x1::Table::Table";

/// The name of the table type whose entries are chained.
pub const ITERABLE_TABLE_TYPE: &'static str = "0x1::IterableTable::IterableTable";

pub const ITERABLE_ADDRESS: &'static str = "0x1";

pub const ITERABLE_MODULE: &'static str = "IterableTable";

pub const ITERABLE_VALUE: &'static str = "IterableValue";

/// Why a field is not accepted as a table.
pub enum ShapeError {
    /// The type of the field is no struct type.
    NotAStruct { field: String },
    /// The type of the field is a struct type of another name.
    WrongType { field: String, expected: String, found: String },
    /// The type of the field has the right name and the wrong number of
    /// type parameters.
    WrongArity { field: String, expected_params: usize, found_params: usize },
}

/// A [`ShapeError`] as mathematics.
pub enum ShapeFault {
    NotAStruct { field: Seq<char> },
    WrongType { field: Seq<char>, expected: Seq<char>, found: Seq<char> },
    WrongArity { field: Seq<char>, expected_params: nat, found_params: nat },
}

impl View for ShapeError {
    type V = ShapeFault;

    open spec fn view(&self) -> ShapeFault {
        match self {
            ShapeError::NotAStruct { field } => ShapeFault::NotAStruct { field: field@ },
            ShapeError::WrongType { field, expected, found } => ShapeFault::WrongType {
                field: field@,
                expected: expected@,
                found: found@,
            },
            ShapeError::WrongArity { field, expected_params, found_params } => ShapeFault::WrongArity {
                field: field@,
                expected_params: *expected_params as nat,
                found_params: *found_params as nat,
            },
        }
    }
}

/// The key tag and the value tag of a field meant to hold a table of the
/// type called `expected`, or what is wrong with the field. The tests are
/// made in this order: struct type, name, number of type parameters.
pub open spec fn table_parameters(field: Field, expected: Seq<char>) -> Result<
    (Tag, Tag),
    ShapeFault,
> {
    match field.type_tag {
        Tag::Plain(_) => Err(ShapeFault::NotAStruct { field: field.name }),
        Tag::Struct { address, module, name, type_params } => {
            if paramless_name(address, module, name) != expected {
                Err(
                    ShapeFault::WrongType {
                        field: field.name,
                        expected,
                        found: paramless_name(address, module, name),
                    },
                )
            } else if type_params.len() != 2 {
                Err(
                    ShapeFault::WrongArity {
                        field: field.name,
                        expected_params: 2,
                        found_params: type_params.len(),
                    },
                )
            } else {
                Ok((type_params[0], type_params[1]))
            }
        },
    }
}

/// The tag under which an iterable table keeps its entries: each value
/// together with the keys of its neighbours.
pub open spec fn iterable_value_tag(key: Tag, value: Tag) -> Tag {
    Tag::Struct {
        address: ITERABLE_ADDRESS@,
        module: ITERABLE_MODULE@,
        name: ITERABLE_VALUE@,
        type_params: seq![key, value],
    }
}

/// Reads the key tag and the value tag off a field, or says what is wrong
/// with it.
fn key_and_value(field: &FieldDecl, expected: &str) -> (found: Result<(TypeTag, TypeTag), ShapeError>)
    ensures
        match found {
            Ok(pair) => table_parameters(field@, expected@) == Ok::<(Tag, Tag), ShapeFault>(
                (pair.0@, pair.1@),
            ),
            Err(e) => table_parameters(field@, expected@) == Err::<(Tag, Tag), ShapeFault>(e@),
        },
{
    match &field.type_tag {
        TypeTag::Plain(_) => Err(ShapeError::NotAStruct { field: field.name.clone() }),
        TypeTag::Struct { address, module, name, type_params } => {
            let mut full = address.clone();
            full.append(NAME_SEPARATOR);
            full.append(module.as_str());
            full.append(NAME_SEPARATOR);
            full.append(name.as_str());
            let wanted = expected.to_owned();
            proof {
                lemma_struct_tag_view(field.type_tag);
            }
            if full != wanted {
                Err(
                    ShapeError::WrongType {
                        field: field.name.clone(),
                        expected: wanted,
                        found: full,
                    },
                )
            } else if type_params.len() != 2 {
                Err(
                    ShapeError::WrongArity {
                        field: field.name.clone(),
                        expected_params: 2,
                        found_params: type_params.len(),
                    },
                )
            } else {
                Ok((type_params[0].clone(), type_params[1].clone()))
            }
        },
    }
}

/// An accessor for a `Table<K, V>`: the tags by which keys are written and
/// values are read.
pub struct TypedTable {
    pub key_tag: TypeTag,
    pub value_tag: TypeTag,
}

/// An accessor for an `IterableTable<K, V>`. Its entries are read under
/// `iter_value_tag`, which wraps the value with the keys of its neighbours.
pub struct TypedIterableTable {
    pub key_tag: TypeTag,
    pub value_tag: TypeTag,
    pub iter_value_tag: TypeTag,
}

impl TypedTable {
    /// The accessor for the table held by `field`. It is built exactly when
    /// the type of the field is the struct type `0x1::Table::Table` with two
    /// type parameters, which become the key tag and the value tag, in that
    /// order and unchanged. In every other case the error says what was
    /// found in place of what.
    pub fn build_from_field(field: &FieldDecl) -> (built: Result<TypedTable, ShapeError>)
        ensures
            match built {
                Ok(table) => table_parameters(field@, TABLE_TYPE@) == Ok::<(Tag, Tag), ShapeFault>(
                    (table.key_tag@, table.value_tag@),
                ),
                Err(e) => table_parameters(field@, TABLE_TYPE@) == Err::<(Tag, Tag), ShapeFault>(
                    e@,
                ),
            },
    {
        match key_and_value(field, TABLE_TYPE) {
            Ok(pair) => Ok(TypedTable { key_tag: pair.0, value_tag: pair.1 }),
            Err(e) => Err(e),
        }
    }
}

impl TypedIterableTable {
    /// The accessor for the iterable table held by `field`. It is built
    /// exactly when the type of the field is the struct type
    /// `0x1::IterableTable::IterableTable` with two type parameters, which
    /// become the key tag and the value tag, in that order and unchanged;
    /// the tag of the entries is made of the two.
    pub fn build_from_field(field: &FieldDecl) -> (built: Result<TypedIterableTable, ShapeError>)
        ensures
            match built {
                Ok(table) => {
                    &&& table_parameters(field@, ITERABLE_TABLE_TYPE@) == Ok::<
                        (Tag, Tag),
                        ShapeFault,
                    >((table.key_tag@, table.value_tag@))
                    &&& table.iter_value_tag@ == iterable_value_tag(
                        table.key_tag@,
                        table.value_tag@,
                    )
                },
                Err(e) => table_parameters(field@, ITERABLE_TABLE_TYPE@) == Err::<
                    (Tag, Tag),
                    ShapeFault,
                >(e@),
            },
    {
        match key_and_value(field, ITERABLE_TABLE_TYPE) {
            Ok(pair) => {
                let mut params: Vec<TypeTag> = Vec::new();
                params.push(pair.0.clone());
                params.push(pair.1.clone());
                let iter_value_tag = TypeTag::Struct {
                    address: ITERABLE_ADDRESS.to_string(),
                    module: ITERABLE_MODULE.to_string(),
                    name: ITERABLE_VALUE.to_string(),
                    type_params: params,
                };
                assert(iter_value_tag@->type_params =~= seq![pair.0@, pair.1@]);
                Ok(TypedIterableTable { key_tag: pair.0, value_tag: pair.1, iter_value_tag })
            },
            Err(e) => Err(e),
        }
    }
}

/// The number of type parameters decides. A field whose type is the struct
/// type of the expected name is accepted exactly when it has two type
/// parameters; they are then the key tag and the value tag, in that order.
/// With none, one, three or more it is refused, and the error carries the
/// name of the field and the number found.
pub proof fn lemma_arity_decides(field: Field, expected: Seq<char>)
    requires
        field.type_tag is Struct,
        paramless_name(
            field.type_tag->address,
            field.type_tag->module,
            field.type_tag->name,
        ) == expected,
    ensures
        table_parameters(field, expected) is Ok <==> field.type_tag->type_params.len() == 2,
        field.type_tag->type_params.len() == 2 ==> table_parameters(field, expected) == Ok::<
            (Tag, Tag),
            ShapeFault,
        >((field.type_tag->type_params[0], field.type_tag->type_params[1])),
        field.type_tag->type_params.len() != 2 ==> table_parameters(field, expected) == Err::<
            (Tag, Tag),
            ShapeFault,
        >(
            ShapeFault::WrongArity {
                field: field.name,
                expected_params: 2,
                found_params: field.type_tag->type_params.len(),
            },
        ),
{
}

} // verus!
