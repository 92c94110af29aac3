use flake_show::{
    current_nix_system, Derivation, FlakeAnatomyDetail, FlakeInfo, FlakeShowOutput,
    HighLevelFieldAnatomy, Json, ParseError,
};

fn text(s: &str) -> Json {
    Json::String(s.to_string())
}

fn object(members: Vec<(&str, Json)>) -> Json {
    Json::Object(members.into_iter().map(|(k, v)| (k.to_string(), v)).collect())
}

fn detail(name: &str, kind: &str, description: Option<&str>) -> FlakeAnatomyDetail {
    FlakeAnatomyDetail {
        name: name.to_string(),
        kind: kind.to_string(),
        description: description.map(|d| d.to_string()),
    }
}

fn entry(name: &str, kind: &str, description: Option<&str>, invocation: &str) -> Derivation {
    Derivation {
        name: name.to_string(),
        kind: kind.to_string(),
        description: description.map(|d| d.to_string()),
        invocation: invocation.to_string(),
    }
}

#[test]
fn json_parse_reads_every_kind_of_value() {
    let doc = Json::parse(br#"{"a":null,"b":true,"c":12.5,"d":"x","e":[1,"y",[]],"f":{}}"#);
    assert_eq!(
        doc,
        Ok(object(vec![
            ("a", Json::Null),
            ("b", Json::Bool(true)),
            ("c", Json::Number),
            ("d", text("x")),
            ("e", Json::Array(vec![Json::Number, text("y"), Json::Array(vec![])])),
            ("f", object(vec![])),
        ]))
    );
}

#[test]
fn json_parse_reads_a_bare_string() {
    assert_eq!(Json::parse(br#""hello""#), Ok(text("hello")));
}

#[test]
fn json_parse_decodes_escapes() {
    assert_eq!(Json::parse(br#""a\nb\u00e9""#), Ok(text("a\nb\u{e9}")));
    assert_eq!(Json::parse("\"\u{e9}\"".as_bytes()), Ok(text("\u{e9}")));
}

#[test]
fn json_parse_keeps_the_later_of_two_equal_keys() {
    assert_eq!(Json::parse(br#"{"k":1,"k":"late"}"#), Ok(object(vec![("k", text("late"))])));
}

#[test]
fn json_parse_rejects_what_is_not_json() {
    assert_eq!(Json::parse(b""), Err(ParseError::Syntax));
    assert_eq!(Json::parse(b"{"), Err(ParseError::Syntax));
    assert_eq!(Json::parse(b"{\"a\":}"), Err(ParseError::Syntax));
    assert_eq!(Json::parse(b"[1,2] trailing"), Err(ParseError::Syntax));
    assert_eq!(Json::parse(b"\xff\xfe"), Err(ParseError::Syntax));
}

#[test]
fn json_accessors_tell_the_kinds_apart() {
    let doc = object(vec![("a", text("x"))]);
    assert_eq!(doc.members().map(|m| m.len()), Some(1));
    assert_eq!(doc.text(), None);
    assert_eq!(text("x").text(), Some(&"x".to_string()));
    assert!(text("x").members().is_none());
    assert!(Json::Null.members().is_none());
    assert_eq!(Json::Number.text(), None);
}

#[test]
fn detail_is_read_from_an_object() {
    let value = object(vec![
        ("name", text("n")),
        ("type", text("k")),
        ("description", text("d")),
    ]);
    assert_eq!(FlakeAnatomyDetail::from_json(&value), Ok(detail("n", "k", Some("d"))));
}

#[test]
fn detail_description_may_be_missing_or_null() {
    let missing = object(vec![("name", text("n")), ("type", text("k"))]);
    assert_eq!(FlakeAnatomyDetail::from_json(&missing), Ok(detail("n", "k", None)));
    let null = object(vec![("name", text("n")), ("type", text("k")), ("description", Json::Null)]);
    assert_eq!(FlakeAnatomyDetail::from_json(&null), Ok(detail("n", "k", None)));
}

#[test]
fn detail_ignores_other_members() {
    let value = object(vec![
        ("extra", Json::Array(vec![])),
        ("name", text("n")),
        ("type", text("k")),
    ]);
    assert_eq!(FlakeAnatomyDetail::from_json(&value), Ok(detail("n", "k", None)));
}

#[test]
fn detail_needs_name_and_type() {
    let no_name = object(vec![("type", text("k"))]);
    assert_eq!(FlakeAnatomyDetail::from_json(&no_name), Err(ParseError::Shape));
    let no_type = object(vec![("name", text("n"))]);
    assert_eq!(FlakeAnatomyDetail::from_json(&no_type), Err(ParseError::Shape));
}

#[test]
fn detail_fields_have_to_be_strings() {
    let name_number = object(vec![("name", Json::Number), ("type", text("k"))]);
    assert_eq!(FlakeAnatomyDetail::from_json(&name_number), Err(ParseError::Shape));
    let type_null = object(vec![("name", text("n")), ("type", Json::Null)]);
    assert_eq!(FlakeAnatomyDetail::from_json(&type_null), Err(ParseError::Shape));
    let description_bool = object(vec![
        ("name", text("n")),
        ("type", text("k")),
        ("description", Json::Bool(false)),
    ]);
    assert_eq!(FlakeAnatomyDetail::from_json(&description_bool), Err(ParseError::Shape));
}

#[test]
fn detail_has_to_be_an_object() {
    assert_eq!(FlakeAnatomyDetail::from_json(&text("n")), Err(ParseError::Shape));
    assert_eq!(FlakeAnatomyDetail::from_json(&Json::Array(vec![])), Err(ParseError::Shape));
}

#[test]
fn detail_takes_the_later_of_two_equal_members() {
    let value = object(vec![("name", text("early")), ("type", text("k")), ("name", text("late"))]);
    assert_eq!(FlakeAnatomyDetail::from_json(&value), Ok(detail("late", "k", None)));
}

#[test]
fn anatomy_insert_appends_new_names_and_replaces_known_ones() {
    let mut anatomy = HighLevelFieldAnatomy::new();
    assert!(anatomy.names().is_empty());
    anatomy.insert("a".to_string(), detail("one", "k", None));
    anatomy.insert("b".to_string(), detail("two", "k", None));
    anatomy.insert("a".to_string(), detail("three", "k", Some("d")));
    assert_eq!(
        anatomy.names(),
        &vec![
            ("a".to_string(), detail("three", "k", Some("d"))),
            ("b".to_string(), detail("two", "k", None)),
        ]
    );
}

#[test]
fn anatomy_is_read_member_by_member() {
    let value = object(vec![
        ("hello", object(vec![("name", text("hello-1.0")), ("type", text("derivation"))])),
        ("other", object(vec![("name", text("o")), ("type", text("derivation"))])),
    ]);
    let anatomy = HighLevelFieldAnatomy::from_json(&value).unwrap();
    assert_eq!(
        anatomy.names(),
        &vec![
            ("hello".to_string(), detail("hello-1.0", "derivation", None)),
            ("other".to_string(), detail("o", "derivation", None)),
        ]
    );
}

#[test]
fn anatomy_fails_on_one_bad_member() {
    let value = object(vec![
        ("good", object(vec![("name", text("g")), ("type", text("derivation"))])),
        ("bad", object(vec![("name", text("b"))])),
    ]);
    assert_eq!(HighLevelFieldAnatomy::from_json(&value).err(), Some(ParseError::Shape));
    assert_eq!(HighLevelFieldAnatomy::from_json(&Json::Null).err(), Some(ParseError::Shape));
}

#[test]
fn anatomy_read_from_a_tree_with_a_name_twice_keeps_the_later_record() {
    let value = object(vec![
        ("a", object(vec![("name", text("early")), ("type", text("k"))])),
        ("b", object(vec![("name", text("other")), ("type", text("k"))])),
        ("a", object(vec![("name", text("late")), ("type", text("k"))])),
    ]);
    let anatomy = HighLevelFieldAnatomy::from_json(&value).unwrap();
    assert_eq!(
        anatomy.names(),
        &vec![
            ("a".to_string(), detail("late", "k", None)),
            ("b".to_string(), detail("other", "k", None)),
        ]
    );
}

#[test]
fn output_read_from_a_tree_with_a_category_twice_keeps_the_later_one() {
    let early = object(vec![("p", object(vec![]))]);
    let late = object(vec![(
        "q",
        object(vec![("i", object(vec![("name", text("n")), ("type", text("k"))]))]),
    )]);
    let doc = object(vec![("packages", early), ("packages", late)]);
    let info = FlakeInfo::from_json(&doc).unwrap();
    assert_eq!(info.packages().len(), 1);
    assert_eq!(info.packages()[0].0, "q");
    assert_eq!(info.for_system("q").packages, vec![entry("n", "k", None, "i")]);
}

#[test]
fn output_insert_keeps_the_categories_apart() {
    let mut shells = HighLevelFieldAnatomy::new();
    shells.insert("default".to_string(), detail("shell", "derivation", None));
    let mut packages = HighLevelFieldAnatomy::new();
    packages.insert("hello".to_string(), detail("hello", "derivation", None));
    let mut output = FlakeShowOutput::new();
    assert!(output.dev_shells().is_empty());
    assert!(output.packages().is_empty());
    output.insert_dev_shells("p".to_string(), shells);
    output.insert_packages("q".to_string(), packages);
    assert_eq!(output.dev_shells().len(), 1);
    assert_eq!(output.dev_shells()[0].0, "p");
    assert_eq!(output.dev_shells()[0].1.names()[0].0, "default");
    assert_eq!(output.packages().len(), 1);
    assert_eq!(output.packages()[0].0, "q");
    assert_eq!(output.packages()[0].1.names()[0].1, detail("hello", "derivation", None));
}

#[test]
fn output_insert_replaces_a_known_platform() {
    let mut first = HighLevelFieldAnatomy::new();
    first.insert("a".to_string(), detail("a", "derivation", None));
    let mut second = HighLevelFieldAnatomy::new();
    second.insert("b".to_string(), detail("b", "derivation", None));
    let mut output = FlakeShowOutput::new();
    output.insert_packages("p".to_string(), first);
    output.insert_packages("p".to_string(), second);
    assert_eq!(output.packages().len(), 1);
    assert_eq!(output.packages()[0].1.names()[0].0, "b");
}

#[test]
fn output_is_read_from_a_document() {
    let doc = Json::parse(
        br#"{"devShells":{"p":{"default":{"name":"sh","type":"derivation"}}},"packages":{}}"#,
    )
    .unwrap();
    let output = FlakeShowOutput::from_json(&doc).unwrap();
    assert_eq!(output.dev_shells().len(), 1);
    assert_eq!(output.dev_shells()[0].0, "p");
    assert_eq!(
        output.dev_shells()[0].1.names(),
        &vec![("default".to_string(), detail("sh", "derivation", None))]
    );
    assert!(output.packages().is_empty());
}

#[test]
fn absent_categories_are_empty() {
    let none = FlakeInfo::from_stdout(b"{}").unwrap();
    assert!(none.for_system("p").dev_shells.is_empty());
    assert!(none.for_system("p").packages.is_empty());
    let output = FlakeShowOutput::from_json(&Json::parse(b"{}").unwrap()).unwrap();
    assert!(output.dev_shells().is_empty());
    assert!(output.packages().is_empty());

    let only_packages = FlakeInfo::from_stdout(
        br#"{"packages":{"p":{"i":{"name":"n","type":"k"}}}}"#,
    )
    .unwrap();
    assert!(only_packages.for_system("p").dev_shells.is_empty());
    assert_eq!(only_packages.for_system("p").packages.len(), 1);

    let only_shells = FlakeInfo::from_stdout(
        br#"{"devShells":{"p":{"i":{"name":"n","type":"k"}}}}"#,
    )
    .unwrap();
    assert_eq!(only_shells.for_system("p").dev_shells.len(), 1);
    assert!(only_shells.for_system("p").packages.is_empty());
}

#[test]
fn other_top_level_members_are_ignored() {
    let info = FlakeInfo::from_stdout(
        br#"{"checks":[1,2],"packages":{"p":{"i":{"name":"n","type":"k"}}},"apps":null}"#,
    )
    .unwrap();
    assert_eq!(info.for_system("p").packages, vec![entry("n", "k", None, "i")]);
}

#[test]
fn a_category_has_to_be_an_object() {
    assert_eq!(FlakeInfo::from_stdout(br#"{"devShells":null}"#).err(), Some(ParseError::Shape));
    assert_eq!(FlakeInfo::from_stdout(br#"{"packages":[]}"#).err(), Some(ParseError::Shape));
    assert_eq!(FlakeInfo::from_stdout(br#"{"packages":{"p":3}}"#).err(), Some(ParseError::Shape));
}

#[test]
fn a_document_has_to_be_an_object() {
    assert_eq!(FlakeInfo::from_stdout(b"[]").err(), Some(ParseError::Shape));
    assert_eq!(FlakeInfo::from_stdout(b"null").err(), Some(ParseError::Shape));
    assert_eq!(FlakeInfo::from_json(&text("x")).err(), Some(ParseError::Shape));
}

#[test]
fn truncated_document_is_a_syntax_error() {
    let input = br#"{"packages":{"x86-platform":{"hello":{"name":"hello","#;
    assert_eq!(FlakeInfo::from_stdout(input).err(), Some(ParseError::Syntax));
}

#[test]
fn record_without_name_or_type_fails_the_whole_parse() {
    let no_type = br#"{"packages":{"p":{"good":{"name":"g","type":"k"},"bad":{"name":"b"}}}}"#;
    assert_eq!(FlakeInfo::from_stdout(no_type).err(), Some(ParseError::Shape));
    let no_name = br#"{"devShells":{"p":{"bad":{"type":"k"}}},"packages":{}}"#;
    assert_eq!(FlakeInfo::from_stdout(no_name).err(), Some(ParseError::Shape));
}

#[test]
fn current_system_is_the_text_of_the_output() {
    assert_eq!(current_nix_system(b"x86_64-linux"), "x86_64-linux");
    assert_eq!(current_nix_system(b""), "");
    assert_eq!(current_nix_system("a\u{e9}b".as_bytes()), "a\u{e9}b");
}

#[test]
fn current_system_replaces_what_is_not_utf8() {
    assert_eq!(current_nix_system(b"foo\xFFbar"), "foo\u{FFFD}bar");
}
