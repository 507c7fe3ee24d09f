use move_to_ts::table::{ShapeError, TypedIterableTable, TypedTable};
use move_to_ts::tags::{FieldDecl, TypeTag};

fn plain(name: &str) -> TypeTag {
    TypeTag::Plain(name.to_string())
}

fn structure(address: &str, module: &str, name: &str, type_params: Vec<TypeTag>) -> TypeTag {
    TypeTag::Struct {
        address: address.to_string(),
        module: module.to_string(),
        name: name.to_string(),
        type_params,
    }
}

fn table_of(type_params: Vec<TypeTag>) -> TypeTag {
    structure("0x1", "Table", "Table", type_params)
}

fn iterable_table_of(type_params: Vec<TypeTag>) -> TypeTag {
    structure("0x1", "IterableTable", "IterableTable", type_params)
}

fn field(name: &str, type_tag: TypeTag) -> FieldDecl {
    FieldDecl { name: name.to_string(), type_tag }
}

fn same(a: &TypeTag, b: &TypeTag) -> bool {
    match (a, b) {
        (TypeTag::Plain(x), TypeTag::Plain(y)) => x == y,
        (
            TypeTag::Struct { address, module, name, type_params },
            TypeTag::Struct {
                address: other_address,
                module: other_module,
                name: other_name,
                type_params: other_params,
            },
        ) => {
            address == other_address
                && module == other_module
                && name == other_name
                && type_params.len() == other_params.len()
                && type_params.iter().zip(other_params.iter()).all(|(x, y)| same(x, y))
        }
        _ => false,
    }
}

fn coin_store() -> TypeTag {
    structure("0x1", "Coin", "CoinStore", vec![structure("0x1", "AptosCoin", "AptosCoin", vec![])])
}

#[test]
fn table_with_two_parameters_is_accepted() {
    let built = TypedTable::build_from_field(&field(
        "balances",
        table_of(vec![plain("address"), coin_store()]),
    ));
    match built {
        Ok(table) => {
            assert!(same(&table.key_tag, &plain("address")));
            assert!(same(&table.value_tag, &coin_store()));
        }
        Err(_) => panic!("a table with two type parameters must be accepted"),
    }
}

#[test]
fn key_and_value_are_not_swapped() {
    let built = TypedTable::build_from_field(&field("t", table_of(vec![plain("u64"), plain("bool")])));
    match built {
        Ok(table) => {
            assert!(same(&table.key_tag, &plain("u64")));
            assert!(same(&table.value_tag, &plain("bool")));
            assert!(!same(&table.key_tag, &table.value_tag));
        }
        Err(_) => panic!("a table with two type parameters must be accepted"),
    }
}

#[test]
fn table_without_parameters_is_refused() {
    match TypedTable::build_from_field(&field("t", table_of(vec![]))) {
        Err(ShapeError::WrongArity { field, expected_params, found_params }) => {
            assert_eq!(field, "t");
            assert_eq!(expected_params, 2);
            assert_eq!(found_params, 0);
        }
        _ => panic!("a table without type parameters must be refused for their number"),
    }
}

#[test]
fn table_with_one_parameter_is_refused() {
    match TypedTable::build_from_field(&field("only_keys", table_of(vec![plain("u64")]))) {
        Err(ShapeError::WrongArity { field, expected_params, found_params }) => {
            assert_eq!(field, "only_keys");
            assert_eq!(expected_params, 2);
            assert_eq!(found_params, 1);
        }
        _ => panic!("a table with one type parameter must be refused for their number"),
    }
}

#[test]
fn table_with_three_parameters_is_refused() {
    let tag = table_of(vec![plain("u64"), plain("u8"), plain("bool")]);
    match TypedTable::build_from_field(&field("wide", tag)) {
        Err(ShapeError::WrongArity { field, expected_params, found_params }) => {
            assert_eq!(field, "wide");
            assert_eq!(expected_params, 2);
            assert_eq!(found_params, 3);
        }
        _ => panic!("a table with three type parameters must be refused for their number"),
    }
}

#[test]
fn a_field_that_is_no_struct_is_refused() {
    match TypedTable::build_from_field(&field("count", plain("u64"))) {
        Err(ShapeError::NotAStruct { field }) => assert_eq!(field, "count"),
        _ => panic!("a field of a plain type must be refused as no struct"),
    }
    match TypedIterableTable::build_from_field(&field("bytes", plain("vector<u8>"))) {
        Err(ShapeError::NotAStruct { field }) => assert_eq!(field, "bytes"),
        _ => panic!("a field of a plain type must be refused as no struct"),
    }
}

#[test]
fn a_struct_of_another_name_is_refused() {
    match TypedTable::build_from_field(&field("store", coin_store())) {
        Err(ShapeError::WrongType { field, expected, found }) => {
            assert_eq!(field, "store");
            assert_eq!(expected, "0x1::Table::Table");
            assert_eq!(found, "0x1::Coin::CoinStore");
        }
        _ => panic!("a struct of another name must be refused for its name"),
    }
}

#[test]
fn the_name_is_tested_before_the_parameters() {
    let tag = structure("0x2", "Table", "Table", vec![plain("u64")]);
    match TypedTable::build_from_field(&field("far", tag)) {
        Err(ShapeError::WrongType { field, expected, found }) => {
            assert_eq!(field, "far");
            assert_eq!(expected, "0x1::Table::Table");
            assert_eq!(found, "0x2::Table::Table");
        }
        _ => panic!("the name must be tested first"),
    }
}

#[test]
fn the_two_table_types_are_told_apart() {
    let two = vec![plain("u64"), plain("u64")];
    match TypedTable::build_from_field(&field("t", iterable_table_of(two))) {
        Err(ShapeError::WrongType { expected, found, .. }) => {
            assert_eq!(expected, "0x1::Table::Table");
            assert_eq!(found, "0x1::IterableTable::IterableTable");
        }
        _ => panic!("an iterable table is no plain table"),
    }
    let two = vec![plain("u64"), plain("u64")];
    match TypedIterableTable::build_from_field(&field("t", table_of(two))) {
        Err(ShapeError::WrongType { expected, found, .. }) => {
            assert_eq!(expected, "0x1::IterableTable::IterableTable");
            assert_eq!(found, "0x1::Table::Table");
        }
        _ => panic!("a plain table is no iterable table"),
    }
}

#[test]
fn iterable_table_with_two_parameters_is_accepted() {
    let tag = iterable_table_of(vec![plain("u64"), coin_store()]);
    match TypedIterableTable::build_from_field(&field("queue", tag)) {
        Ok(table) => {
            assert!(same(&table.key_tag, &plain("u64")));
            assert!(same(&table.value_tag, &coin_store()));
            let wrapped = structure(
                "0x1",
                "IterableTable",
                "IterableValue",
                vec![plain("u64"), coin_store()],
            );
            assert!(same(&table.iter_value_tag, &wrapped));
        }
        Err(_) => panic!("an iterable table with two type parameters must be accepted"),
    }
}

#[test]
fn iterable_table_with_another_number_of_parameters_is_refused() {
    for n in [0usize, 1, 3, 4] {
        let params: Vec<TypeTag> = (0..n).map(|_| plain("u8")).collect();
        match TypedIterableTable::build_from_field(&field("q", iterable_table_of(params))) {
            Err(ShapeError::WrongArity { field, expected_params, found_params }) => {
                assert_eq!(field, "q");
                assert_eq!(expected_params, 2);
                assert_eq!(found_params, n);
            }
            _ => panic!("an iterable table must have exactly two type parameters"),
        }
    }
}

#[test]
fn a_copy_of_a_tag_is_the_same_tag() {
    let nested = table_of(vec![plain("address"), table_of(vec![plain("u64"), coin_store()])]);
    let copy = nested.clone();
    assert!(same(&nested, &copy));
    assert!(!same(&copy, &coin_store()));
    assert!(same(&plain("u8").clone(), &plain("u8")));
}

#[test]
fn building_leaves_the_field_as_it_was() {
    let declared = field("t", table_of(vec![plain("u64"), plain("bool")]));
    let first = TypedTable::build_from_field(&declared);
    let second = TypedTable::build_from_field(&declared);
    match (first, second) {
        (Ok(a), Ok(b)) => {
            assert!(same(&a.key_tag, &b.key_tag));
            assert!(same(&a.value_tag, &b.value_tag));
        }
        _ => panic!("the same field must be accepted both times"),
    }
    assert_eq!(declared.name, "t");
    assert!(same(&declared.type_tag, &table_of(vec![plain("u64"), plain("bool")])));
}
