use struct_path::error::{PathError, Phase};
use struct_path::output::OutputValue;
use struct_path::token::{Syntax, Token};
use struct_path::{path, paths};

fn ident(name: &str) -> Token {
    Token::Ident(name.to_string())
}

fn punct(c: char) -> Token {
    Token::Punct(c)
}

fn literal(text: &str) -> Token {
    Token::Literal(text.to_string())
}

/// `reference :: fields`, the fields joined by `join`.
fn entry(reference: &[&str], fields: &[&str], join: char) -> Vec<Token> {
    let mut tokens = Vec::new();
    for (i, name) in reference.iter().enumerate() {
        if i > 0 {
            tokens.push(punct(':'));
            tokens.push(punct(':'));
        }
        tokens.push(ident(name));
    }
    tokens.push(punct(':'));
    tokens.push(punct(':'));
    for (i, name) in fields.iter().enumerate() {
        if i > 0 {
            tokens.push(punct(join));
        }
        tokens.push(ident(name));
    }
    tokens
}

fn plain() -> Syntax {
    Syntax { optional_chain: false }
}

fn chained() -> Syntax {
    Syntax { optional_chain: true }
}

fn single(tokens: &Vec<Token>, syntax: Syntax) -> String {
    match path(tokens, syntax).unwrap().value {
        OutputValue::Single(text) => text,
        OutputValue::Sequence(texts) => panic!("a sequence: {:?}", texts),
    }
}

fn sequence(tokens: &Vec<Token>, syntax: Syntax) -> Vec<String> {
    match paths(tokens, syntax).unwrap().value {
        OutputValue::Sequence(texts) => texts,
        OutputValue::Single(text) => panic!("a single string: {:?}", text),
    }
}

#[test]
fn struct_path() {
    let test_simple = single(&entry(&["TestStructParent"], &["value_str"], '.'), plain());
    assert_eq!(test_simple, "value_str");

    let test_with_child = single(
        &entry(&["TestStructParent"], &["value_child", "child_value_str"], '.'),
        plain(),
    );
    assert_eq!(test_with_child, "value_child.child_value_str");

    let mut with_options = entry(&["TestStructParent"], &["value_child", "child_value_str"], '.');
    with_options.push(punct(';'));
    with_options.push(ident("delim"));
    with_options.push(punct('='));
    with_options.push(literal("\"/\""));
    with_options.push(punct(','));
    with_options.push(ident("case"));
    with_options.push(punct('='));
    with_options.push(literal("\"camel\""));
    let test_another_delim = single(&with_options, plain());
    assert_eq!(test_another_delim, "valueChild/childValueStr");

    let test_full_path = single(
        &entry(&["crate", "tests", "TestStructParent"], &["value_str"], '.'),
        plain(),
    );
    assert_eq!(test_full_path, "value_str");

    let mut mixed = entry(&["TestStructParent"], &["value_str"], '.');
    mixed.push(punct(','));
    mixed.extend(entry(&["TestStructChild"], &["child_value_str"], '.'));
    let test_mixed_path = single(&mixed, plain());
    assert_eq!(test_mixed_path, "value_str.child_value_str");

    let test_opt_child = single(
        &entry(&["TestStructParent"], &["opt_value_child", "child_value_str"], '~'),
        chained(),
    );
    assert_eq!(test_opt_child, "opt_value_child.child_value_str");
}

#[test]
fn struct_paths() {
    let mut grouped = vec![ident("TestStructParent"), punct(':'), punct(':')];
    grouped.push(Token::Group(vec![ident("value_str"), punct(','), ident("value_num")]));
    let test_multiple = sequence(&grouped, plain());
    assert_eq!(test_multiple, ["value_str", "value_num"]);

    let mut two = entry(&["TestStructParent"], &["value_str"], '.');
    two.push(punct(','));
    two.extend(entry(&["TestStructChild"], &["child_value_str"], '.'));
    let test_multiple_types = sequence(&two, plain());
    assert_eq!(test_multiple_types, ["value_str", "child_value_str"]);

    let test_multiple_types = sequence(
        &entry(&["TestStructParent"], &["opt_value_child", "child_value_str"], '~'),
        chained(),
    );
    assert_eq!(test_multiple_types, ["opt_value_child.child_value_str"]);
}

#[test]
fn optional_chain_is_rejected_where_not_enabled() {
    let tokens = entry(&["Parent"], &["opt_value_child", "child_value_str"], '~');
    let expected = PathError::UnexpectedToken { index: 4, phase: Phase::FieldFirst };
    assert_eq!(path(&tokens, plain()), Err(expected));
    assert_eq!(paths(&tokens, plain()), Err(expected));
}

#[test]
fn three_segments_come_out_as_written() {
    let tokens = entry(&["Parent"], &["a", "b", "c"], '.');
    assert_eq!(single(&tokens, plain()), "a.b.c");
}

#[test]
fn scalar_form_with_a_group_gives_a_sequence() {
    let mut tokens = vec![ident("Parent"), punct(':'), punct(':')];
    tokens.push(Token::Group(vec![
        ident("value_child"),
        punct('.'),
        ident("child_value_str"),
        punct(','),
        ident("value_num"),
        punct(','),
    ]));
    let output = path(&tokens, plain()).unwrap();
    assert_eq!(
        output.value,
        OutputValue::Sequence(vec![
            "value_child.child_value_str".to_string(),
            "value_num".to_string()
        ])
    );
}

#[test]
fn scalar_form_takes_a_group_only_as_its_one_entry() {
    let mut after = vec![ident("A"), punct(':'), punct(':')];
    after.push(Token::Group(vec![ident("x")]));
    after.push(punct(','));
    after.extend(entry(&["B"], &["y"], '.'));
    assert_eq!(
        path(&after, plain()),
        Err(PathError::UnexpectedToken { index: 4, phase: Phase::GroupClosed })
    );
    assert_eq!(sequence(&after, plain()), ["x", "y"]);

    let mut before = entry(&["B"], &["y"], '.');
    before.push(punct(','));
    before.extend(vec![ident("A"), punct(':'), punct(':')]);
    before.push(Token::Group(vec![ident("x")]));
    assert_eq!(
        path(&before, plain()),
        Err(PathError::UnexpectedToken { index: 8, phase: Phase::FieldOpen })
    );
    assert_eq!(sequence(&before, plain()), ["y", "x"]);
}

#[test]
fn empty_group_is_rejected() {
    let tokens = vec![ident("Parent"), punct(':'), punct(':'), Token::Group(vec![])];
    assert_eq!(paths(&tokens, plain()), Err(PathError::EmptyGroup));
    assert_eq!(path(&tokens, plain()), Err(PathError::EmptyGroup));
}

#[test]
fn struct_name_alone_is_rejected() {
    let tokens = vec![ident("Parent")];
    assert_eq!(path(&tokens, plain()), Err(PathError::MissingStructName));
    assert_eq!(paths(&tokens, plain()), Err(PathError::MissingStructName));
    let none: Vec<Token> = Vec::new();
    assert_eq!(path(&none, plain()), Err(PathError::MissingStructName));
    let colon = vec![punct(':'), punct(':'), ident("field")];
    assert_eq!(path(&colon, plain()), Err(PathError::MissingStructName));
}

#[test]
fn unknown_case_value_is_rejected() {
    let mut tokens = entry(&["Parent"], &["value_str"], '.');
    tokens.push(punct(';'));
    tokens.push(ident("case"));
    tokens.push(punct('='));
    tokens.push(literal("\"shout\""));
    assert_eq!(path(&tokens, plain()), Err(PathError::UnknownOptionValue));
    assert_eq!(paths(&tokens, plain()), Err(PathError::UnknownOptionValue));
}

#[test]
fn entry_without_fields_is_rejected() {
    let open = vec![ident("Parent"), punct(':'), punct(':')];
    assert_eq!(path(&open, plain()), Err(PathError::EmptyEntry));
    let comma = vec![ident("Parent"), punct(':'), punct(':'), punct(',')];
    assert_eq!(paths(&comma, plain()), Err(PathError::EmptyEntry));
    let lone_comma = vec![punct(',')];
    assert_eq!(paths(&lone_comma, plain()), Err(PathError::EmptyEntry));
    let semicolon = vec![ident("Parent"), punct(';')];
    assert_eq!(path(&semicolon, plain()), Err(PathError::EmptyEntry));
}

#[test]
fn pascal_case_with_default_delimiter() {
    let mut tokens = entry(&["Parent"], &["value_child", "child_value_str"], '.');
    tokens.push(punct(';'));
    tokens.push(ident("case"));
    tokens.push(punct('='));
    tokens.push(ident("pascal"));
    assert_eq!(single(&tokens, plain()), "ValueChild.ChildValueStr");
}

#[test]
fn unknown_option_names_are_kept_without_effect() {
    let mut tokens = entry(&["Parent"], &["value_str"], '.');
    tokens.push(punct(';'));
    tokens.push(ident("colour"));
    tokens.push(punct('='));
    tokens.push(ident("red"));
    assert_eq!(single(&tokens, plain()), "value_str");
}

#[test]
fn source_text_of_a_scalar() {
    let tokens = entry(&["a", "Parent"], &["x", "y"], '.');
    let output = path(&tokens, plain()).unwrap();
    let block = "\n                {\n                    #[allow(dead_code, unused_variables)]\n                    fn _test_struct_field(test_struct: &a::Parent) {\n                        let _t = &test_struct.x.y;\n                    }\n                }\n            ";
    assert_eq!(output.checks, block);
    assert_eq!(output.to_source(), format!("{{{}\n\"x.y\"}}", block));
}

#[test]
fn source_text_of_a_sequence() {
    let mut tokens = vec![ident("P"), punct(':'), punct(':')];
    tokens.push(Token::Group(vec![ident("x"), punct(','), ident("y")]));
    tokens.push(punct(','));
    tokens.extend(entry(&["Q"], &["z"], '.'));
    let output = paths(&tokens, plain()).unwrap();
    let block = |name: &str, field: &str| {
        format!(
            "\n                {{\n                    #[allow(dead_code, unused_variables)]\n                    fn _test_struct_field(test_struct: &{}) {{\n                        let _t = &test_struct.{};\n                    }}\n                }}\n            ",
            name, field
        )
    };
    let checks = format!("{}\n{}{}", block("P", "x"), block("P", "y"), block("Q", "z"));
    assert_eq!(output.checks, checks);
    assert_eq!(output.to_source(), format!("{{{}\n[\"x\",\"y\",\"z\"]}}", checks));
}

#[test]
fn checks_read_the_path_as_written_whatever_the_options() {
    let mut tokens = entry(&["Parent"], &["value_child", "child_value_str"], '.');
    let plain_checks = path(&tokens, plain()).unwrap().checks;
    tokens.push(punct(';'));
    tokens.push(ident("delim"));
    tokens.push(punct('='));
    tokens.push(literal("\"/\""));
    tokens.push(punct(','));
    tokens.push(ident("case"));
    tokens.push(punct('='));
    tokens.push(literal("\"camel\""));
    let output = path(&tokens, plain()).unwrap();
    assert_eq!(output.checks, plain_checks);
    assert!(output.checks.contains("let _t = &test_struct.value_child.child_value_str;"));
}
