use submission_archiver::document::{find, same_text};
use submission_archiver::reader::parse_document;
use submission_archiver::{Config, Field, Flaw, Item, ParseFault, SchemaError};

fn entry(key: &str, value: Item) -> (String, Item) {
    (key.to_string(), value)
}

fn text(value: &str) -> Item {
    Item::Text(value.to_string())
}

#[test]
fn parse_document_copies_every_kind_of_value() {
    let source = "a = [1, \"x\", true, 1.5, 1979-05-27, { b = -2 }]\n[t]\nk = \"v\"\n";
    let expected = Item::Table(vec![
        entry(
            "a",
            Item::List(vec![
                Item::Integer(1),
                text("x"),
                Item::Flag(true),
                Item::Float,
                Item::Datetime,
                Item::Table(vec![entry("b", Item::Integer(-2))]),
            ]),
        ),
        entry("t", Item::Table(vec![entry("k", text("v"))])),
    ]);
    assert_eq!(parse_document(source), Ok(expected));
}

#[test]
fn parse_document_of_the_empty_text_is_the_empty_table() {
    assert_eq!(parse_document(""), Ok(Item::Table(vec![])));
}

#[test]
fn parse_document_nests_tables_and_lists() {
    let source = "[[x.y]]\nz = [[1], []]\n[[x.y]]\n";
    let expected = Item::Table(vec![entry(
        "x",
        Item::Table(vec![entry(
            "y",
            Item::List(vec![
                Item::Table(vec![entry(
                    "z",
                    Item::List(vec![Item::List(vec![Item::Integer(1)]), Item::List(vec![])]),
                )]),
                Item::Table(vec![]),
            ]),
        )]),
    )]);
    assert_eq!(parse_document(source), Ok(expected));
}

#[test]
fn parse_document_reports_the_parser_s_refusal() {
    assert!(matches!(parse_document("a = "), Err(ParseFault::Syntax(_))));
    assert!(matches!(parse_document("[a\n"), Err(ParseFault::Syntax(_))));
}

#[test]
fn find_gives_the_first_entry_under_the_key() {
    let entries = vec![
        entry("a", Item::Integer(1)),
        entry("b", Item::Integer(2)),
        entry("a", Item::Integer(3)),
    ];
    assert_eq!(find(&entries, "a"), Some(&Item::Integer(1)));
    assert_eq!(find(&entries, "b"), Some(&Item::Integer(2)));
    assert_eq!(find(&entries, "c"), None);
    assert_eq!(find(&entries, ""), None);
    assert_eq!(find(&vec![], "a"), None);
}

#[test]
fn table_and_list_keep_what_they_are_given() {
    let entries = vec![entry("b", Item::Integer(2)), entry("a", Item::Flag(false))];
    assert_eq!(
        Item::table(entries),
        Item::Table(vec![entry("b", Item::Integer(2)), entry("a", Item::Flag(false))])
    );
    assert_eq!(
        Item::list(vec![text("x"), Item::Float]),
        Item::List(vec![text("x"), Item::Float])
    );
    assert_eq!(Item::table(vec![]), Item::Table(vec![]));
}

#[test]
fn same_text_compares_whole_texts() {
    assert!(same_text("file", "file"));
    assert!(same_text("", ""));
    assert!(!same_text("file", "files"));
    assert!(!same_text("file", "File"));
    assert!(!same_text("", "a"));
}

#[test]
fn from_document_reads_plain_data() {
    let root = Item::Table(vec![
        entry("state_dir", text("st")),
        entry(
            "atcoder",
            Item::Table(vec![
                entry("user_id", text("u")),
                entry("request_interval_ms", Item::Integer(25)),
                entry("use_index", Item::Flag(true)),
            ]),
        ),
    ]);
    let config = Config::from_document(&root).unwrap();
    let mut expected = Config::default();
    expected.state_dir = "st".to_string();
    expected.atcoder.user_id = "u".to_string();
    expected.atcoder.request_interval_ms = 25;
    expected.atcoder.use_index.0 = true;
    assert_eq!(config, expected);
}

#[test]
fn from_document_of_the_empty_table_is_the_default() {
    assert_eq!(Config::from_document(&Item::Table(vec![])), Ok(Config::default()));
}

#[test]
fn from_document_refuses_a_root_that_is_no_table() {
    let fault = SchemaError { field: Field::Document, flaw: Flaw::WrongType };
    assert_eq!(Config::from_document(&Item::Integer(1)), Err(fault));
    assert_eq!(Config::from_document(&Item::List(vec![])), Err(fault));
    assert_eq!(Config::from_document(&text("x")), Err(fault));
}

#[test]
fn from_document_takes_the_first_of_a_key_that_stands_twice() {
    let root = Item::Table(vec![entry("state_dir", text("first")), entry("state_dir", text("second"))]);
    assert_eq!(Config::from_document(&root).unwrap().state_dir, "first");
}

#[test]
fn from_document_refuses_floats_and_dates_where_a_number_is_asked() {
    for value in [Item::Float, Item::Datetime] {
        let root = Item::Table(vec![entry(
            "atcoder",
            Item::Table(vec![entry("user_id", text("u")), entry("request_interval_ms", value)]),
        )]);
        assert_eq!(
            Config::from_document(&root),
            Err(SchemaError { field: Field::RequestIntervalMs, flaw: Flaw::WrongType })
        );
    }
}
