use sql::definition::{self, Column};
use sql::expression::Orderable;
use sql::operation::Likable;
use sql::statement::create_table::{create_table, CreateTable};
use sql::statement::delete_from::{delete_from, Delete, DeleteFrom};
use sql::statement::insert_into::{insert_into, InsertInto};
use sql::statement::select_from::{select, select_from, SelectFrom};
use sql::statement::Statement;
use sql::{Error, Field, Type};

#[test]
fn create_table_columns() {
    let statement = create_table("foo").columns(&[definition::column("bar").float(), definition::column("baz").string()]);

    assert_eq!(statement.compile().unwrap(), "CREATE TABLE `foo` (`bar` REAL, `baz` TEXT)");
}

#[test]
fn create_table_if_not_exists() {
    let statement = create_table("foo").if_not_exists().column(definition::column("bar").float());
    assert_eq!(statement.compile().unwrap(), "CREATE TABLE IF NOT EXISTS `foo` (`bar` REAL)");

    let statement = CreateTable::default().name("foo").if_not_exists().columns(&[
        Column::default().name("bar").kind(Type::Float),
        Column::default().name("baz").kind(Type::String),
    ]);
    assert_eq!(
        statement.compile().unwrap(),
        "CREATE TABLE IF NOT EXISTS `foo` (`bar` REAL, `baz` TEXT)"
    );
}

#[test]
fn create_table_mixed_columns_in_order() {
    let statement = create_table("users")
        .column(definition::column("id").integer().not_null())
        .columns(&[definition::column("name").string(), definition::column("photo").binary()]);
    assert_eq!(
        statement.compile().unwrap(),
        "CREATE TABLE `users` (`id` INTEGER NOT NULL, `name` TEXT, `photo` BLOB)"
    );
}

#[test]
fn create_table_without_columns_fails() {
    let error = create_table("foo").compile().unwrap_err();
    assert_eq!(error, Error { field: Field::Columns });
    assert_eq!(error.message(), "expected “columns” to be set");
    let error = create_table("foo").columns(&[]).compile().unwrap_err();
    assert_eq!(error, Error { field: Field::Columns });
}

#[test]
fn create_table_without_name_fails() {
    let statement = CreateTable::default().column(definition::column("bar").float());
    assert_eq!(statement.compile().unwrap_err(), Error { field: Field::Name });
}

#[test]
fn create_table_first_failing_column() {
    let statement = create_table("foo").columns(&[
        definition::column("a").float(),
        definition::column("b"),
        Column::default().float(),
    ]);
    assert_eq!(statement.compile().unwrap_err(), Error { field: Field::Kind });
}

#[test]
fn delete_all() {
    let statement = Delete::new("foo");
    assert_eq!(statement.compile().unwrap(), "DELETE FROM `foo`");
    let statement = Delete::default().table("foo");
    assert_eq!(statement.compile().unwrap(), "DELETE FROM `foo`");
}

#[test]
fn delete_from_all() {
    let statement = delete_from("foo");
    assert_eq!(statement.compile().unwrap(), "DELETE FROM `foo`");
}

#[test]
fn delete_without_table_fails() {
    let error = DeleteFrom::default().compile().unwrap_err();
    assert_eq!(error, Error { field: Field::Table });
    assert_eq!(error.message(), "expected “table” to be set");
    assert_eq!(Delete::default().compile().unwrap_err(), Error { field: Field::Table });
}

#[test]
fn batch() {
    let statement = insert_into("foo").columns(&["bar", "baz"]).batch(3);

    assert_eq!(
        statement.compile().unwrap(),
        "INSERT INTO `foo` (`bar`, `baz`) VALUES (?, ?), (?, ?), (?, ?)"
    );
}

#[test]
fn multiple() {
    let statement = InsertInto::default().table("foo").columns(&["bar", "baz"]).multiple(3);

    assert_eq!(
        statement.compile().unwrap(),
        "INSERT INTO `foo` (`bar`, `baz`) VALUES (?, ?), (?, ?), (?, ?)"
    );
}

#[test]
fn insert_into_default_batch() {
    let statement = insert_into("users").column("id").columns(&["name"]);
    assert_eq!(statement.compile().unwrap(), "INSERT INTO `users` (`id`, `name`) VALUES (?, ?)");
}

#[test]
fn insert_into_batch_sizes() {
    let statement = insert_into("t").column("a").batch(0);
    assert_eq!(statement.compile().unwrap(), "INSERT INTO `t` (`a`) VALUES ");
    let statement = insert_into("t").columns(&["a", "b", "c"]).batch(2);
    assert_eq!(
        statement.compile().unwrap(),
        "INSERT INTO `t` (`a`, `b`, `c`) VALUES (?, ?, ?), (?, ?, ?)"
    );
}

#[test]
fn insert_into_failures() {
    assert_eq!(insert_into("foo").compile().unwrap_err(), Error { field: Field::Columns });
    assert_eq!(
        InsertInto::default().column("a").compile().unwrap_err(),
        Error { field: Field::Table }
    );
}

#[test]
fn select_from_all() {
    let statement = select_from("foo");
    assert_eq!(statement.compile().unwrap(), "SELECT * FROM `foo`");
}

#[test]
fn select_from_columns() {
    let statement = select_from("foo").columns(&["bar", "baz"]);
    assert_eq!(statement.compile().unwrap(), "SELECT `bar`, `baz` FROM `foo`");
}

#[test]
fn select_from_like() {
    let statement = select_from("foo").so_that(definition::column("bar").like("%baz%"));
    assert_eq!(statement.compile().unwrap(), "SELECT * FROM `foo` WHERE `bar` LIKE '%baz%'");

    let statement = select_from("foo").wherein(definition::column("bar").like("%baz%"));
    assert_eq!(statement.compile().unwrap(), "SELECT * FROM `foo` WHERE `bar` LIKE '%baz%'");
}

#[test]
fn order() {
    let statement = select_from("foo").order_by("bar").order_by(definition::column("baz").descending());
    assert_eq!(statement.compile().unwrap(), "SELECT * FROM `foo` ORDER BY bar, `baz` DESC");
}

#[test]
fn select_from_limit() {
    let statement = select_from("foo").limit(10);
    assert_eq!(statement.compile().unwrap(), "SELECT * FROM `foo` LIMIT 10");
}

#[test]
fn select_from_everything() {
    let statement = select_from("users")
        .column("name")
        .columns(&["photo"])
        .so_that(definition::column("name").like("A%"))
        .so_that("age".like("4_"))
        .order_by(definition::column("name").descending())
        .order_by("id")
        .limit(0);
    assert_eq!(
        statement.compile().unwrap(),
        "SELECT `name`, `photo` FROM `users` WHERE `name` LIKE 'A%' AND age LIKE '4_' \
         ORDER BY `name` DESC, id LIMIT 0"
    );
}

#[test]
fn select_from_failures() {
    let error = SelectFrom::default().compile().unwrap_err();
    assert_eq!(error, Error { field: Field::Table });
    assert_eq!(error.message(), "expected “table” to be set");

    let statement = select_from("foo")
        .so_that(Column::default().like("x"))
        .order_by(Column::default());
    assert_eq!(statement.compile().unwrap_err(), Error { field: Field::Name });
}

#[test]
fn compile_twice_same() {
    let statement = select_from("foo").columns(&["bar"]).order_by("bar").limit(5);
    let first = statement.compile().unwrap();
    let second = statement.compile().unwrap();
    assert_eq!(first, second);
    assert_eq!(first, "SELECT `bar` FROM `foo` ORDER BY bar LIMIT 5");

    let statement = create_table("foo");
    assert_eq!(statement.compile().unwrap_err(), statement.compile().unwrap_err());
}

#[test]
fn select_all() {
    let statement = select().table("foo");
    assert_eq!(statement.compile().unwrap(), "SELECT * FROM `foo`");
}

#[test]
fn select_columns() {
    let statement = select().table("foo").columns(&["bar", "baz"]);
    assert_eq!(statement.compile().unwrap(), "SELECT `bar`, `baz` FROM `foo`");
}

#[test]
fn select_limit() {
    let statement = select().table("foo").limit(10);
    assert_eq!(statement.compile().unwrap(), "SELECT * FROM `foo` LIMIT 10");
}

#[test]
fn select_like() {
    let statement = select().table("foo").wherein(Column::default().name("bar").like("%baz%"));
    assert_eq!(statement.compile().unwrap(), "SELECT * FROM `foo` WHERE `bar` LIKE '%baz%'");
}

#[test]
fn select_without_table_fails() {
    let statement = select().column("bar").limit(1);
    assert_eq!(statement.compile().unwrap_err(), Error { field: Field::Table });
}
