use sql::definition;
use sql::expression::{Expression, Orderable};
use sql::operation::{Likable, Like, Operation};

#[test]
fn like_from_column() {
    assert_eq!(definition::column("foo").like("bar").compile().unwrap(), "`foo` LIKE 'bar'");
}

#[test]
fn like_from_string() {
    assert_eq!("foo".like("bar").compile().unwrap(), "foo LIKE 'bar'");
}

#[test]
fn like_pattern_verbatim() {
    let like = "foo".to_string().like("%it's%");
    assert_eq!(like.compile().unwrap(), "foo LIKE '%it's%'");
}

#[test]
fn like_of_ordered_expression() {
    let like = Like::new("foo".descending(), "bar");
    assert_eq!(like.compile().unwrap(), "foo DESC LIKE 'bar'");
}

#[test]
fn expressions_compile() {
    assert_eq!(Expression::compile(&"foo").unwrap(), "foo");
    assert_eq!(Expression::compile(&"foo".to_string()).unwrap(), "foo");
    assert_eq!(Expression::compile(&0usize).unwrap(), "0");
    assert_eq!(Expression::compile(&1234567usize).unwrap(), "1234567");
    assert_eq!(Expression::compile(&definition::column("foo").ascending()).unwrap(), "`foo` ASC");
}
