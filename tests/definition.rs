use sql::definition::{self, Column, Definition};
use sql::expression::Expression;
use sql::{Error, Field, Type};

#[test]
fn not_null() {
    let column = definition::column("foo").kind(Type::Float).not_null();
    assert_eq!(Definition::compile(&column).unwrap(), "`foo` REAL NOT NULL");
}

#[test]
fn column_types() {
    assert_eq!(Definition::compile(&definition::column("a").binary()).unwrap(), "`a` BLOB");
    assert_eq!(Definition::compile(&definition::column("b").float()).unwrap(), "`b` REAL");
    assert_eq!(Definition::compile(&definition::column("c").integer()).unwrap(), "`c` INTEGER");
    assert_eq!(Definition::compile(&definition::column("d").string()).unwrap(), "`d` TEXT");
    assert_eq!(Type::Binary.sql(), "BLOB");
    assert_eq!(Type::String.sql(), "TEXT");
}

#[test]
fn column_rename_and_retype() {
    let column = Column::new("foo").integer().name("bar").kind(Type::String);
    assert_eq!(Definition::compile(&column).unwrap(), "`bar` TEXT");
}

#[test]
fn column_without_type_fails() {
    let column = definition::column("foo");
    assert_eq!(Definition::compile(&column).unwrap_err(), Error { field: Field::Kind });
    assert_eq!(Expression::compile(&column).unwrap(), "`foo`");
}

#[test]
fn column_without_name_fails() {
    let column = Column::default().float();
    let error = Definition::compile(&column).unwrap_err();
    assert_eq!(error, Error { field: Field::Name });
    assert_eq!(error.message(), "expected “name” to be set");
    assert_eq!(Expression::compile(&column).unwrap_err(), Error { field: Field::Name });
}

#[test]
fn column_clone_compiles_alike() {
    let first = definition::column("foo").float().not_null();
    let second = first.clone();
    assert_eq!(
        Definition::compile(&first).unwrap(),
        Definition::compile(&second).unwrap()
    );
}
