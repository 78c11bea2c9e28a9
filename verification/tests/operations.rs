use textops::document::Document;
use textops::operation::{Operation, Type};
use textops::replay::Verify;
use textops::wire::{
    count_of_integer, kind_of_tag, operation_of_record, operations_of_value, parse_operations,
    same_text, WireError,
};

#[test]
fn test_document() {
    let mut document = Document::new();

    assert_eq!(document.pos, 0);
    assert_eq!(document.content, "".to_string());

    document.transform(&Operation::noop());

    assert_eq!(document.pos, 0);
    assert_eq!(document.content, "".to_string());

    document.transform(&Operation::insert("We"));

    assert_eq!(document.pos, 2);
    assert_eq!(document.content, "We".to_string());

    document.transform(&Operation::insert(" need"));

    assert_eq!(document.pos, 7);
    assert_eq!(document.content, "We need".to_string());

    document.transform(&Operation::insert(" to talk"));

    assert_eq!(document.pos, 15);
    assert_eq!(document.content, "We need to talk".to_string());

    document.transform(&Operation::skip(-4));

    assert_eq!(document.pos, 11);
    assert_eq!(document.content, "We need to talk".to_string());

    document.transform(&Operation::insert("really "));

    assert_eq!(document.pos, 18);
    assert_eq!(document.content, "We need to really talk".to_string());

    document.transform(&Operation::delete(4));

    assert_eq!(document.pos, 18);
    assert_eq!(document.content, "We need to really ".to_string());

    document.transform(&Operation::skip(-1));
    document.transform(&Operation::delete(1));

    assert_eq!(document.pos, 17);
    assert_eq!(document.content, "We need to really".to_string());

    document.transform(&Operation::delete(1));

    assert_eq!(document.pos, 17);
    assert_eq!(document.content, "We need to really".to_string());
}

#[test]
fn test_document_cannot_skip_past_beginning() {
    let mut document = Document::new();

    assert_eq!(document.pos, 0);
    assert_eq!(document.content, "".to_string());

    document.transform(&Operation::skip(-40));

    assert_eq!(document.pos, 0);
    assert_eq!(document.content, "".to_string());
}

#[test]
fn test_document_cannot_skip_beyond_end() {
    let mut document = Document::new();

    assert_eq!(document.pos, 0);
    assert_eq!(document.content, "".to_string());

    document.transform(&Operation::skip(40));

    assert_eq!(document.pos, 0);
    assert_eq!(document.content, "".to_string());
}

#[test]
fn test_operation() {
    assert_eq!(
        Operation::insert("We"),
        Operation { op: Type::Insert, count: 0, chars: "We".to_string() }
    );
    assert_eq!(
        Operation::skip(40),
        Operation { op: Type::Skip, count: 40, chars: Default::default() }
    );
    assert_eq!(
        Operation::delete(40),
        Operation { op: Type::Delete, count: 40, chars: Default::default() }
    );
}

#[test]
fn test_operations_deserialize() {
    let data = r#"[{"op": "skip", "count": 40}, {"op": "delete", "count": 47}, {"op": "insert", "chars": "hello"}]"#;
    let ops: Vec<Operation> = parse_operations(data).unwrap();
    assert_eq!(ops, vec![Operation::skip(40), Operation::delete(47), Operation::insert("hello")]);
}

#[test]
fn test_verify_works() {
    let verify = Verify::new(
        "Repl.it uses operational transformations to keep everyone in a multiplayer repl in sync.",
        "Repl.it uses operational transformations.",
        r#"[{"op": "skip", "count": 40}, {"op": "delete", "count": 47}]"#,
    );

    assert!(verify.execute());
}

#[test]
fn noop_leaves_text_and_cursor() {
    let mut document = Document::from("abc");
    document.skip(2);
    document.transform(&Operation::noop());
    assert_eq!(document.pos, 2);
    assert_eq!(document.content, "abc");
    assert_eq!(Operation::noop(), Operation::default());
    assert_eq!(Type::default(), Type::Noop);
}

#[test]
fn insert_splices_at_the_cursor() {
    let mut document = Document::from("abef");
    document.skip(2);
    document.transform(&Operation::insert("cd"));
    assert_eq!(document.content, "abcdef");
    assert_eq!(document.pos, 4);
    document.transform(&Operation::insert(""));
    assert_eq!(document.content, "abcdef");
    assert_eq!(document.pos, 4);
}

#[test]
fn insert_counts_characters() {
    let mut document = Document::from("née");
    document.skip(2);
    assert_eq!(document.pos, 2);
    document.transform(&Operation::insert("ö"));
    assert_eq!(document.content, "néöe");
    assert_eq!(document.pos, 3);
    document.transform(&Operation::delete(1));
    assert_eq!(document.content, "néö");
    assert_eq!(document.pos, 3);
}

#[test]
fn skip_clamps_at_both_ends() {
    let mut document = Document::from("hello");
    document.skip(isize::MAX);
    assert_eq!(document.pos, 5);
    document.skip(isize::MIN);
    assert_eq!(document.pos, 0);
    document.skip(3);
    assert_eq!(document.pos, 3);
    document.skip(3);
    assert_eq!(document.pos, 5);
    document.skip(-6);
    assert_eq!(document.pos, 0);
    assert_eq!(document.content, "hello");
}

#[test]
fn skip_chains_and_zero_skip_changes_nothing() {
    let mut document = Document::from("hello");
    document.skip(9).skip(0);
    assert_eq!(document.pos, 5);
    let mut other = Document::from("hello");
    other.skip(9);
    assert_eq!(other.pos, document.pos);
    assert_eq!(other.content, document.content);
    document.skip(-2).skip(0);
    assert_eq!(document.pos, 3);
}

#[test]
fn zero_counts_keep_the_text() {
    let mut document = Document::from("hello");
    document.skip(2);
    document.transform(&Operation::delete(0));
    assert_eq!(document.content, "hello");
    assert_eq!(document.pos, 2);
    document.transform(&Operation::skip(0));
    assert_eq!(document.content, "hello");
    assert_eq!(document.pos, 2);
}

#[test]
fn delete_outside_the_text_does_nothing() {
    let mut document = Document::from("hello");
    document.skip(2);
    document.transform(&Operation::delete(4));
    assert_eq!(document.content, "hello");
    assert_eq!(document.pos, 2);
    document.transform(&Operation::delete(-3));
    assert_eq!(document.content, "hello");
    assert_eq!(document.pos, 2);
    document.transform(&Operation::delete(isize::MAX));
    assert_eq!(document.content, "hello");
    document.transform(&Operation::delete(isize::MIN));
    assert_eq!(document.content, "hello");
    document.transform(&Operation::delete(3));
    assert_eq!(document.content, "he");
    assert_eq!(document.pos, 2);
}

#[test]
fn backward_delete_removes_what_stands_before_the_cursor() {
    let mut document = Document::from("abcdefgh");
    document.skip(4);
    document.transform(&Operation::delete(-2));
    assert_eq!(document.content, "abefgh");
    assert_eq!(document.pos, 4);
    document.transform(&Operation::delete(-4));
    assert_eq!(document.content, "gh");
    assert_eq!(document.pos, 2);
}

#[test]
fn transform_chains() {
    let mut document = Document::new();
    document
        .transform(&Operation::insert("abc"))
        .transform(&Operation::skip(-1))
        .transform(&Operation::delete(1));
    assert_eq!(document.content, "ab");
    assert_eq!(document.pos, 2);
}

#[test]
fn documents_compare_by_text_only() {
    let mut left = Document::from("same");
    let right = Document::from("same");
    left.skip(3);
    assert!(left == right);
    assert!(left != Document::from("other"));
    assert!(Document::default() == Document::new());
}

#[test]
fn talk_scenario_from_a_given_text() {
    let mut document = Document::from("We need to talk");
    document.skip(15);
    assert_eq!(document.pos, 15);
    document.transform(&Operation::skip(-4));
    assert_eq!(document.pos, 11);
    document.transform(&Operation::insert("really "));
    assert_eq!(document.content, "We need to really talk");
    assert_eq!(document.pos, 18);
    document.transform(&Operation::delete(4));
    assert_eq!(document.content, "We need to really ");
    assert_eq!(document.pos, 18);
}

#[test]
fn replay_of_a_given_log() {
    let stale = "Repl.it uses operational transformations to keep everyone in a multiplayer repl in sync.";
    let latest = "Repl.it uses operational transformations.";
    let run = Verify::from_operations(
        stale,
        latest,
        vec![Operation::skip(40), Operation::delete(47)],
    );
    assert!(run.execute());
    let other = Verify::from_operations(stale, latest, vec![Operation::skip(40)]);
    assert!(!other.execute());
    assert!(Verify::from_operations("a", "a", Vec::new()).execute());
    assert!(Verify::default().execute());
}

#[test]
fn replay_follows_the_order_of_the_log() {
    let forward = Verify::from_operations(
        "",
        "ab",
        vec![Operation::insert("a"), Operation::insert("b")],
    );
    assert!(forward.execute());
    let backward = Verify::from_operations(
        "",
        "ab",
        vec![Operation::insert("b"), Operation::insert("a")],
    );
    assert!(!backward.execute());
}

#[test]
fn try_new_reports_what_is_wrong() {
    assert_eq!(Verify::try_new("a", "a", "[{").err(), Some(WireError::Malformed));
    assert_eq!(Verify::try_new("a", "a", "{}").err(), Some(WireError::NotAList));
    let run = Verify::try_new("a", "ab", r#"[{"op":"skip","count":1},{"op":"insert","chars":"b"}]"#);
    assert!(run.unwrap().execute());
}

#[test]
fn missing_members_take_their_defaults() {
    let ops = parse_operations(r#"[{"op":"skip","count":40}]"#).unwrap();
    assert_eq!(ops, vec![Operation { op: Type::Skip, count: 40, chars: String::new() }]);
    let ops = parse_operations(r#"[{"op":"rotate","count":3,"chars":"x"}, {}, {"count":-2}]"#).unwrap();
    assert_eq!(
        ops,
        vec![
            Operation { op: Type::Noop, count: 3, chars: "x".to_string() },
            Operation::noop(),
            Operation { op: Type::Noop, count: -2, chars: String::new() },
        ]
    );
    let ops = parse_operations(r#"[{"op":"weird"}]"#).unwrap();
    assert_eq!(ops, vec![Operation { op: Type::Noop, count: 0, chars: String::new() }]);
}

#[test]
fn members_of_another_type_take_their_defaults() {
    let ops = parse_operations(r#"[{"op":7,"count":"x","chars":[1]}, 5, {"op":"delete","count":1.5}]"#)
        .unwrap();
    assert_eq!(ops, vec![Operation::noop(), Operation::noop(), Operation::delete(0)]);
    let ops = parse_operations(r#"[{"op":"skip","count":18446744073709551615}]"#).unwrap();
    assert_eq!(ops, vec![Operation::skip(0)]);
    assert_eq!(parse_operations("[]").unwrap(), Vec::new());
}

#[test]
fn malformed_logs_are_errors() {
    assert_eq!(parse_operations(""), Err(WireError::Malformed));
    assert_eq!(parse_operations("[{\"op\":}]"), Err(WireError::Malformed));
    assert_eq!(parse_operations("\"skip\""), Err(WireError::NotAList));
    assert_eq!(parse_operations("12"), Err(WireError::NotAList));
}

#[test]
fn records_decode_one_by_one() {
    let value: serde_json::Value =
        serde_json::from_str(r#"{"op":"insert","chars":"hi","count":-9}"#).unwrap();
    assert_eq!(
        operation_of_record(&value),
        Operation { op: Type::Insert, count: -9, chars: "hi".to_string() }
    );
    assert_eq!(operations_of_value(&value), None);
    let list: serde_json::Value = serde_json::from_str(r#"[{"op":"skip","count":2}]"#).unwrap();
    assert_eq!(operations_of_value(&list), Some(vec![Operation::skip(2)]));
}

#[test]
fn tags_and_counts() {
    assert_eq!(kind_of_tag("insert"), Type::Insert);
    assert_eq!(kind_of_tag("delete"), Type::Delete);
    assert_eq!(kind_of_tag("skip"), Type::Skip);
    assert_eq!(kind_of_tag("noop"), Type::Noop);
    assert_eq!(kind_of_tag("Insert"), Type::Noop);
    assert_eq!(kind_of_tag(""), Type::Noop);
    assert_eq!(count_of_integer(-47), -47);
    assert_eq!(count_of_integer(0), 0);
    assert!(same_text("skip", "skip"));
    assert!(!same_text("skip", "skit"));
}
