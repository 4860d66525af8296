use sql::clause::{order_by, Clause, OrderBy, Where};
use sql::definition;
use sql::expression::Orderable;
use sql::operation::Likable;
use sql::{Error, Field};

#[test]
fn ascending() {
    let clause = order_by("foo".ascending());
    assert_eq!(clause.compile().unwrap(), "ORDER BY foo ASC");

    let clause = order_by(definition::column("foo").ascending());
    assert_eq!(clause.compile().unwrap(), "ORDER BY `foo` ASC");
}

#[test]
fn descending() {
    let clause = order_by("foo".descending());
    assert_eq!(clause.compile().unwrap(), "ORDER BY foo DESC");

    let clause = order_by(definition::column("foo").descending());
    assert_eq!(clause.compile().unwrap(), "ORDER BY `foo` DESC");
}

#[test]
fn unspecified() {
    let clause = order_by("foo");
    assert_eq!(clause.compile().unwrap(), "ORDER BY foo");

    let clause = order_by(definition::column("foo"));
    assert_eq!(clause.compile().unwrap(), "ORDER BY `foo`");
}

#[test]
fn order_by_and() {
    let clause = order_by("foo")
        .and(definition::column("bar").ascending())
        .and("baz".to_string().descending());

    assert_eq!(clause.compile().unwrap(), "ORDER BY foo, `bar` ASC, baz DESC");
}

#[test]
fn order_by_from_column() {
    let clause = OrderBy::default().append(definition::column("foo"));
    assert_eq!(clause.compile().unwrap(), "ORDER BY `foo`");

    let clause = OrderBy::default().append(definition::column("foo").ascending());
    assert_eq!(clause.compile().unwrap(), "ORDER BY `foo` ASC");

    let clause = OrderBy::default().append(definition::column("foo").descending());
    assert_eq!(clause.compile().unwrap(), "ORDER BY `foo` DESC");
}

#[test]
fn order_by_from_string() {
    let clause = OrderBy::default().append("foo");
    assert_eq!(clause.compile().unwrap(), "ORDER BY foo");

    let clause = OrderBy::default().append("foo".ascending());
    assert_eq!(clause.compile().unwrap(), "ORDER BY foo ASC");

    let clause = OrderBy::default().append("foo".descending());
    assert_eq!(clause.compile().unwrap(), "ORDER BY foo DESC");
}

#[test]
fn append() {
    let clause = OrderBy::default()
        .append("foo")
        .append(definition::column("bar").ascending())
        .append("baz".to_string().descending());

    assert_eq!(clause.compile().unwrap(), "ORDER BY foo, `bar` ASC, baz DESC");
}

#[test]
fn one() {
    let clause = Where::default().and("foo".like("bar"));
    assert_eq!(clause.compile().unwrap(), "WHERE foo LIKE 'bar'");
}

#[test]
fn where_and() {
    let clause = Where::default().and("foo".like("bar")).and("baz".like("qux"));
    assert_eq!(clause.compile().unwrap(), "WHERE foo LIKE 'bar' AND baz LIKE 'qux'");
}

#[test]
fn order_by_number() {
    let clause = order_by(2usize).append(10usize.descending());
    assert_eq!(clause.compile().unwrap(), "ORDER BY 2, 10 DESC");
}

#[test]
fn order_by_explicit_order() {
    let clause = order_by("foo".order(None)).append(definition::column("bar").order(None));
    assert_eq!(clause.compile().unwrap(), "ORDER BY foo, `bar`");
}

#[test]
fn order_by_empty_fails() {
    let error = OrderBy::default().compile().unwrap_err();
    assert_eq!(error, Error { field: Field::Parts });
    assert_eq!(error.message(), "expected “parts” to be set");
}

#[test]
fn where_empty_fails() {
    let error = Where::default().compile().unwrap_err();
    assert_eq!(error, Error { field: Field::Conditions });
}

#[test]
fn order_by_unnamed_column_fails() {
    let clause = order_by("foo").append(sql::definition::Column::default().descending());
    assert_eq!(clause.compile().unwrap_err(), Error { field: Field::Name });
}

#[test]
fn where_unnamed_column_fails() {
    let clause = Where::default()
        .and("foo".like("bar"))
        .and(sql::definition::Column::default().like("baz"));
    assert_eq!(clause.compile().unwrap_err(), Error { field: Field::Name });
}
