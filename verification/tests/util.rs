use sqlite_types::util::split_queries;

#[test]
fn split() {
    let foo = "hello; world;";
    assert_eq!(split_queries(foo), vec!["hello", "world"]);
}

#[test]
fn split_nothing() {
    assert_eq!(split_queries(""), Vec::<&str>::new());
    assert_eq!(split_queries(";"), Vec::<&str>::new());
    assert_eq!(split_queries(" ;\n;\t; "), Vec::<&str>::new());
}

#[test]
fn split_without_a_last_separator() {
    assert_eq!(split_queries("select 1"), vec!["select 1"]);
    assert_eq!(
        split_queries("select 1;select 2"),
        vec!["select 1", "select 2"]
    );
}

#[test]
fn split_keeps_order_and_inner_whitespace() {
    let script = "\n  create table foo( a integer );\n\n  insert into foo(a)\n    values (1);;  \n select * from foo  ";
    assert_eq!(
        split_queries(script),
        vec![
            "create table foo( a integer )",
            "insert into foo(a)\n    values (1)",
            "select * from foo"
        ]
    );
}

#[test]
fn split_trims_unicode_whitespace() {
    let script = "\u{a0}a\u{2003};\u{3000};\u{85}b\u{2028}c\u{1680}";
    assert_eq!(split_queries(script), vec!["a", "b\u{2028}c"]);
}

#[test]
fn split_leaves_other_characters() {
    let script = "\u{200b}a ; '\u{e9}t\u{e9}' ";
    assert_eq!(split_queries(script), vec!["\u{200b}a", "'\u{e9}t\u{e9}'"]);
}
