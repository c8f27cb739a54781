use struct_path::checks::{dotted_path, generate_checks_code_for};
use struct_path::error::{PathError, Phase};
use struct_path::format::{apply_options, case_segment, push_cased_segments};
use struct_path::group::parse_multiple_fields;
use struct_path::model::{
    FieldPath, JoinOp, OutputShape, ParsedExpression, Segment, StructEntry, StructReference,
};
use struct_path::options::{CaseMode, Options};
use struct_path::output::{assemble, Output, OutputValue};
use struct_path::scanner::{scan, unquote, Scanner};
use struct_path::text::join_segments;
use struct_path::token::{join_operator, Syntax, Token};

fn ident(name: &str) -> Token {
    Token::Ident(name.to_string())
}

fn punct(c: char) -> Token {
    Token::Punct(c)
}

fn field_path(names: &[&str]) -> FieldPath {
    let mut segments = Vec::new();
    for (i, name) in names.iter().enumerate() {
        let join = if i == 0 { None } else { Some(JoinOp::Required) };
        segments.push(Segment { join, name: name.to_string() });
    }
    FieldPath { segments }
}

fn struct_entry(reference: &[&str], paths: &[&[&str]]) -> StructEntry {
    StructEntry {
        reference: StructReference { segments: reference.iter().map(|s| s.to_string()).collect() },
        paths: paths.iter().map(|names| field_path(names)).collect(),
    }
}

fn options(pairs: &[(&str, &str)]) -> Options {
    let mut options = Options::new();
    for (name, value) in pairs {
        options.insert(name.to_string(), value.to_string());
    }
    options
}

fn plain() -> Syntax {
    Syntax { optional_chain: false }
}

fn chained() -> Syntax {
    Syntax { optional_chain: true }
}

#[test]
fn join_segments_puts_the_separator_between_neighbours() {
    let none: Vec<String> = Vec::new();
    assert_eq!(join_segments(&none, "."), "");
    assert_eq!(join_segments(&vec!["a".to_string()], "."), "a");
    let three = vec!["a".to_string(), "".to_string(), "c".to_string()];
    assert_eq!(join_segments(&three, "::"), "a::::c");
    assert_eq!(join_segments(&three, ""), "ac");
}

#[test]
fn options_keep_the_last_value_of_a_name() {
    let mut set = Options::new();
    assert!(set.is_empty());
    assert_eq!(set.get("delim"), None);
    assert_eq!(set.delimiter(), ".");
    assert_eq!(set.case_mode(), Ok(CaseMode::Unchanged));
    set.insert("delim".to_string(), "/".to_string());
    set.insert("case".to_string(), "camel".to_string());
    set.insert("delim".to_string(), "->".to_string());
    assert!(!set.is_empty());
    assert_eq!(set.get("delim"), Some(&"->".to_string()));
    assert_eq!(set.delimiter(), "->");
    assert_eq!(set.case_mode(), Ok(CaseMode::Camel));
    set.insert("case".to_string(), "pascal".to_string());
    assert_eq!(set.case_mode(), Ok(CaseMode::Pascal));
    set.insert("case".to_string(), "none".to_string());
    assert_eq!(set.case_mode(), Err(PathError::UnknownOptionValue));
}

#[test]
fn case_segment_goes_from_snake_case_only() {
    assert_eq!(case_segment(CaseMode::Unchanged, "child_value_str"), "child_value_str");
    assert_eq!(case_segment(CaseMode::Camel, "child_value_str"), "childValueStr");
    assert_eq!(case_segment(CaseMode::Pascal, "child_value_str"), "ChildValueStr");
    assert_eq!(case_segment(CaseMode::Camel, "value"), "value");
    assert_eq!(case_segment(CaseMode::Pascal, "value"), "Value");
    // One direction only: what was camel case is one word when read as snake case.
    assert_eq!(case_segment(CaseMode::Camel, "childValueStr"), "childvaluestr");
}

#[test]
fn push_cased_segments_appends_in_order() {
    let mut out = vec!["kept".to_string()];
    push_cased_segments(&field_path(&["first_one", "second_one"]), CaseMode::Pascal, &mut out);
    assert_eq!(out, ["kept", "FirstOne", "SecondOne"]);
}

#[test]
fn apply_options_formats_each_segment_on_its_own() {
    let path = field_path(&["value_child", "child_value_str"]);
    assert_eq!(apply_options(&Options::new(), &path), Ok("value_child.child_value_str".into()));
    assert_eq!(
        apply_options(&options(&[("delim", ".")]), &path),
        Ok("value_child.child_value_str".into())
    );
    assert_eq!(
        apply_options(&options(&[("delim", "/"), ("case", "camel")]), &path),
        Ok("valueChild/childValueStr".into())
    );
    assert_eq!(
        apply_options(&options(&[("case", "pascal")]), &path),
        Ok("ValueChild.ChildValueStr".into())
    );
    assert_eq!(
        apply_options(&options(&[("delim", "_")]), &path),
        Ok("value_child_child_value_str".into())
    );
    assert_eq!(
        apply_options(&options(&[("case", "shout")]), &path),
        Err(PathError::UnknownOptionValue)
    );
    assert_eq!(
        apply_options(&options(&[("case", "Camel")]), &path),
        Err(PathError::UnknownOptionValue)
    );
}

#[test]
fn optional_joins_are_written_like_required_ones() {
    let path = FieldPath {
        segments: vec![
            Segment { join: None, name: "opt_value_child".to_string() },
            Segment { join: Some(JoinOp::Optional), name: "child_value_str".to_string() },
        ],
    };
    assert_eq!(dotted_path(&path), "opt_value_child.child_value_str");
    assert_eq!(
        apply_options(&options(&[("delim", "/")]), &path),
        Ok("opt_value_child/child_value_str".into())
    );
}

#[test]
fn checks_follow_the_entries_and_their_paths() {
    let none: Vec<StructEntry> = Vec::new();
    assert_eq!(generate_checks_code_for(&none), "");
    let block = |name: &str, field: &str| {
        format!(
            "\n                {{\n                    #[allow(dead_code, unused_variables)]\n                    fn _test_struct_field(test_struct: &{}) {{\n                        let _t = &test_struct.{};\n                    }}\n                }}\n            ",
            name, field
        )
    };
    let entries = vec![
        struct_entry(&["crate", "Parent"], &[&["a", "b"], &["c"]]),
        struct_entry(&["Child"], &[&["d"]]),
    ];
    let expected = format!(
        "{}\n{}{}",
        block("crate::Parent", "a.b"),
        block("crate::Parent", "c"),
        block("Child", "d")
    );
    assert_eq!(generate_checks_code_for(&entries), expected);
}

#[test]
fn group_members_keep_their_order() {
    let tokens = vec![
        ident("value_str"),
        punct(','),
        ident("value_child"),
        punct('.'),
        ident("child_value_num"),
        punct(','),
    ];
    let paths = parse_multiple_fields(&tokens, plain()).unwrap();
    assert_eq!(paths, vec![field_path(&["value_str"]), field_path(&["value_child", "child_value_num"])]);
}

#[test]
fn group_with_optional_chain() {
    let tokens = vec![ident("a"), punct('~'), ident("b")];
    let paths = parse_multiple_fields(&tokens, chained()).unwrap();
    assert_eq!(paths.len(), 1);
    assert_eq!(paths[0].segments[1].join, Some(JoinOp::Optional));
    assert_eq!(
        parse_multiple_fields(&tokens, plain()),
        Err(PathError::UnexpectedToken { index: 1, phase: Phase::GroupSegment })
    );
}

#[test]
fn group_errors() {
    let none: Vec<Token> = Vec::new();
    assert_eq!(parse_multiple_fields(&none, plain()), Err(PathError::EmptyGroup));
    let unexpected = |index: usize, phase: Phase| Err(PathError::UnexpectedToken { index, phase });
    assert_eq!(parse_multiple_fields(&vec![punct(',')], plain()), unexpected(0, Phase::GroupMember));
    assert_eq!(
        parse_multiple_fields(&vec![ident("a"), punct(','), punct(',')], plain()),
        unexpected(2, Phase::GroupMember)
    );
    assert_eq!(
        parse_multiple_fields(&vec![ident("a"), punct('.'), punct(',')], plain()),
        unexpected(2, Phase::GroupJoin(JoinOp::Required))
    );
    assert_eq!(
        parse_multiple_fields(&vec![ident("a"), punct('.')], plain()),
        unexpected(2, Phase::GroupJoin(JoinOp::Required))
    );
    assert_eq!(
        parse_multiple_fields(&vec![ident("a"), punct(':')], plain()),
        unexpected(1, Phase::GroupSegment)
    );
    assert_eq!(
        parse_multiple_fields(&vec![ident("a"), ident("b")], plain()),
        unexpected(1, Phase::GroupSegment)
    );
    assert_eq!(
        parse_multiple_fields(&vec![Token::Literal("\"a\"".to_string())], plain()),
        unexpected(0, Phase::GroupMember)
    );
    assert_eq!(
        parse_multiple_fields(&vec![Token::Group(vec![ident("a")])], plain()),
        unexpected(0, Phase::GroupMember)
    );
}

#[test]
fn join_operator_follows_the_syntax() {
    assert_eq!(join_operator('.', plain()), Some(JoinOp::Required));
    assert_eq!(join_operator('.', chained()), Some(JoinOp::Required));
    assert_eq!(join_operator('~', chained()), Some(JoinOp::Optional));
    assert_eq!(join_operator('~', plain()), None);
    assert_eq!(join_operator(',', chained()), None);
}

#[test]
fn unquote_takes_plain_string_literals_only() {
    assert_eq!(unquote("\"/\""), Some("/".to_string()));
    assert_eq!(unquote("\"\""), Some("".to_string()));
    assert_eq!(unquote("\"a\\\"b\""), Some("a\\\"b".to_string()));
    assert_eq!(unquote("\"é→\""), Some("é→".to_string()));
    assert_eq!(unquote("\""), None);
    assert_eq!(unquote(""), None);
    assert_eq!(unquote("5"), None);
    assert_eq!(unquote("'c'"), None);
    assert_eq!(unquote("r\"raw\""), None);
}

#[test]
fn scanner_walks_through_its_phases() {
    let tokens = vec![
        ident("a"),
        punct(':'),
        punct(':'),
        ident("B"),
        punct(':'),
        punct(':'),
        ident("x"),
        punct('.'),
        ident("y"),
        punct(';'),
        ident("delim"),
        punct('='),
        ident("slash"),
    ];
    let phases = [
        Phase::StructName,
        Phase::StructColon,
        Phase::FieldOpen,
        Phase::FieldFirst,
        Phase::StructColon,
        Phase::FieldOpen,
        Phase::FieldFirst,
        Phase::FieldJoin(JoinOp::Required),
        Phase::FieldSegment,
        Phase::OptionName,
        Phase::OptionAssign,
        Phase::OptionValue,
        Phase::OptionEnd,
    ];
    let mut scanner = Scanner::new(OutputShape::Scalar, plain());
    assert_eq!(scanner.phase(), Phase::EntryStart);
    for (i, token) in tokens.iter().enumerate() {
        scanner = scanner.step(token, i).unwrap();
        assert_eq!(scanner.phase(), phases[i]);
    }
    let parsed = scanner.finish(tokens.len()).unwrap();
    assert_eq!(parsed.shape, OutputShape::Scalar);
    assert_eq!(parsed.entries, vec![struct_entry(&["a", "B"], &[&["x", "y"]])]);
    assert_eq!(parsed.options.get("delim"), Some(&"slash".to_string()));
    assert_eq!(assemble(&parsed).unwrap().value, OutputValue::Single("xslashy".to_string()));
}

#[test]
fn scan_rejects_what_cannot_follow() {
    let unexpected = |index: usize, phase: Phase| PathError::UnexpectedToken { index, phase };
    let fails = |tokens: Vec<Token>| scan(&tokens, OutputShape::Collection, plain()).unwrap_err();
    let open = || vec![ident("A"), punct(':'), punct(':')];
    let with = |mut tokens: Vec<Token>, more: Vec<Token>| {
        tokens.extend(more);
        tokens
    };
    assert_eq!(fails(vec![ident("A"), ident("b")]), unexpected(1, Phase::StructName));
    assert_eq!(fails(vec![ident("A"), punct(':'), ident("b")]), unexpected(2, Phase::StructColon));
    assert_eq!(fails(with(open(), vec![punct(':')])), unexpected(3, Phase::FieldOpen));
    assert_eq!(fails(with(open(), vec![punct('.')])), unexpected(3, Phase::FieldOpen));
    assert_eq!(
        fails(with(open(), vec![ident("b"), ident("c")])),
        unexpected(4, Phase::FieldFirst)
    );
    assert_eq!(
        fails(with(open(), vec![ident("b"), punct('.'), punct('.')])),
        unexpected(5, Phase::FieldJoin(JoinOp::Required))
    );
    assert_eq!(
        fails(with(open(), vec![ident("b"), punct('.')])),
        unexpected(5, Phase::FieldJoin(JoinOp::Required))
    );
    assert_eq!(
        fails(with(open(), vec![ident("b"), punct('.'), ident("c"), punct(':')])),
        unexpected(6, Phase::FieldSegment)
    );
    assert_eq!(
        fails(with(open(), vec![ident("b"), punct(',')])),
        PathError::MissingStructName
    );
    assert_eq!(fails(vec![ident("A"), punct(':')]), PathError::MissingStructName);
    assert_eq!(fails(vec![punct(';')]), unexpected(0, Phase::EntryStart));
    assert_eq!(
        fails(with(open(), vec![Token::Group(vec![ident("x")]), ident("y")])),
        unexpected(4, Phase::GroupClosed)
    );
    assert_eq!(
        fails(with(open(), vec![Token::Group(vec![ident("x"), punct(';')])])),
        unexpected(3, Phase::GroupSegment)
    );
    assert_eq!(
        fails(with(open(), vec![ident("b"), Token::Group(vec![ident("x")])])),
        unexpected(4, Phase::FieldFirst)
    );
    assert_eq!(
        fails(with(open(), vec![Token::Literal("\"b\"".to_string())])),
        unexpected(3, Phase::FieldOpen)
    );
}

#[test]
fn scan_rejects_malformed_options() {
    let unexpected = |index: usize, phase: Phase| PathError::UnexpectedToken { index, phase };
    let fails = |more: Vec<Token>| {
        let mut tokens = vec![ident("A"), punct(':'), punct(':'), ident("b"), punct(';')];
        tokens.extend(more);
        scan(&tokens, OutputShape::Scalar, plain()).unwrap_err()
    };
    let text = |s: &str| Token::Literal(s.to_string());
    assert_eq!(fails(vec![]), unexpected(5, Phase::OptionName));
    assert_eq!(fails(vec![punct('=')]), unexpected(5, Phase::OptionName));
    assert_eq!(fails(vec![ident("delim")]), unexpected(6, Phase::OptionAssign));
    assert_eq!(fails(vec![ident("delim"), ident("x")]), unexpected(6, Phase::OptionAssign));
    assert_eq!(fails(vec![ident("delim"), punct('=')]), unexpected(7, Phase::OptionValue));
    assert_eq!(
        fails(vec![ident("delim"), punct('='), text("7")]),
        unexpected(7, Phase::OptionValue)
    );
    assert_eq!(
        fails(vec![ident("delim"), punct('='), text("\"/\""), punct(',')]),
        unexpected(9, Phase::OptionName)
    );
    assert_eq!(
        fails(vec![ident("delim"), punct('='), text("\"/\""), punct(';')]),
        unexpected(8, Phase::OptionEnd)
    );
    assert_eq!(
        fails(vec![ident("delim"), punct('='), text("\"/\""), punct(':')]),
        unexpected(8, Phase::OptionEnd)
    );
    assert_eq!(
        fails(vec![ident("case"), punct('='), ident("camel"), punct(','), ident("case"), punct('='), ident("kebab")]),
        PathError::UnknownOptionValue
    );
}

#[test]
fn assemble_needs_a_field_path() {
    let empty = ParsedExpression {
        entries: Vec::new(),
        options: options(&[("case", "shout")]),
        shape: OutputShape::Scalar,
    };
    assert_eq!(assemble(&empty), Err(PathError::EmptyOutput));
    let no_paths = ParsedExpression {
        entries: vec![struct_entry(&["A"], &[])],
        options: Options::new(),
        shape: OutputShape::Collection,
    };
    assert_eq!(assemble(&no_paths), Err(PathError::EmptyOutput));
    let bad_case = ParsedExpression {
        entries: vec![struct_entry(&["A"], &[&["x"]])],
        options: options(&[("case", "shout")]),
        shape: OutputShape::Collection,
    };
    assert_eq!(assemble(&bad_case), Err(PathError::UnknownOptionValue));
}

#[test]
fn assemble_by_shape() {
    let entries = || vec![struct_entry(&["A"], &[&["x_one", "y"], &["z"]]), struct_entry(&["B"], &[&["w"]])];
    let scalar = ParsedExpression {
        entries: entries(),
        options: options(&[("delim", "/"), ("case", "pascal")]),
        shape: OutputShape::Scalar,
    };
    assert_eq!(assemble(&scalar).unwrap().value, OutputValue::Single("XOne/Y/Z/W".to_string()));
    let collection = ParsedExpression {
        entries: entries(),
        options: options(&[("delim", "/"), ("case", "pascal")]),
        shape: OutputShape::Collection,
    };
    assert_eq!(
        assemble(&collection).unwrap().value,
        OutputValue::Sequence(vec!["XOne/Y".to_string(), "Z".to_string(), "W".to_string()])
    );
}

#[test]
fn source_text_is_not_escaped() {
    let output = Output { checks: "c".to_string(), value: OutputValue::Single("a\"b".to_string()) };
    assert_eq!(output.to_source(), "{c\n\"a\"b\"}");
    let none = Output { checks: String::new(), value: OutputValue::Sequence(Vec::new()) };
    assert_eq!(none.to_source(), "{\n[]}");
}
