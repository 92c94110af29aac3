use flake_show::{
    flake_show, Derivation, FlakeAnatomyDetail, FlakeInfo, FlakeShowError, FlakeShowOutput,
    HighLevelFieldAnatomy, IndividualFlakeInfos, ParseError, ToolOutput,
};

fn record(name: &str, kind: &str, description: Option<&str>) -> FlakeAnatomyDetail {
    FlakeAnatomyDetail {
        name: name.to_string(),
        kind: kind.to_string(),
        description: description.map(|d| d.to_string()),
    }
}

fn artifact(name: &str, kind: &str, description: Option<&str>, invocation: &str) -> Derivation {
    Derivation {
        name: name.to_string(),
        kind: kind.to_string(),
        description: description.map(|d| d.to_string()),
        invocation: invocation.to_string(),
    }
}

const SAMPLE: &[u8] = br#"{
  "devShells": {
    "aarch64-darwin": { "default": { "name": "shell", "type": "derivation" } },
    "x86_64-linux": {
      "default": { "name": "shell", "type": "derivation" },
      "ci": { "name": "ci-shell", "type": "derivation", "description": "for CI" }
    }
  },
  "packages": {
    "x86_64-linux": {
      "hello": { "name": "hello-2.12", "type": "derivation", "description": "greets" }
    }
  }
}"#;

#[test]
fn it_works() {
    let builder = flake_show()
        .url("/Users/andy/Documents/colby/jerzy-work/surveyConformal".into())
        .json(true)
        .all_systems(true);
    let cmd = builder.build();
    assert_eq!(
        cmd.args,
        vec![
            "flake".to_string(),
            "show".to_string(),
            "/Users/andy/Documents/colby/jerzy-work/surveyConformal".to_string(),
            "--all-systems".to_string(),
            "--json".to_string(),
        ]
    );
    let ran: Result<ToolOutput, std::io::Error> =
        Ok(ToolOutput { success: true, stdout: SAMPLE.to_vec() });
    let structured = builder.into_structured(ran);
    let infos = structured.unwrap().unwrap().for_current_system(b"x86_64-linux");
    println!("{:?}", infos);
    assert_eq!(infos.dev_shells.len(), 2);
    assert_eq!(infos.packages.len(), 1);
}

#[test]
fn end_to_end_single_package() {
    let input = br#"{"packages":{"x86-platform":{"hello":{"name":"hello","type":"derivation"}}}}"#;
    let info = FlakeInfo::from_stdout(input).unwrap();
    assert_eq!(
        info.for_system("x86-platform"),
        IndividualFlakeInfos {
            dev_shells: vec![],
            packages: vec![artifact("hello", "derivation", None, "hello")],
        }
    );
}

#[test]
fn record_round_trips_into_exactly_one_entry() {
    let mut names = HighLevelFieldAnatomy::new();
    names.insert("i".to_string(), record("n", "k", Some("d")));
    let mut raw = FlakeShowOutput::new();
    raw.insert_packages("p".to_string(), names);
    let info = FlakeInfo::from(raw);
    let packages = info.for_system("p").packages;
    let wanted = artifact("n", "k", Some("d"), "i");
    assert_eq!(packages.iter().filter(|e| **e == wanted).count(), 1);
    assert_eq!(packages, vec![wanted]);
    assert!(info.for_system("p").dev_shells.is_empty());
}

#[test]
fn record_round_trips_through_json() {
    let input = br#"{"packages":{"p":{"i":{"name":"n","type":"k","description":"d"}}}}"#;
    let info = FlakeInfo::from_stdout(input).unwrap();
    assert_eq!(info.for_system("p").packages, vec![artifact("n", "k", Some("d"), "i")]);
}

#[test]
fn into_gives_the_same_index_as_from() {
    let mut names = HighLevelFieldAnatomy::new();
    names.insert("i".to_string(), record("n", "k", None));
    let mut raw = FlakeShowOutput::new();
    raw.insert_dev_shells("p".to_string(), names);
    let info: FlakeInfo = raw.into();
    assert_eq!(info.for_system("p").dev_shells, vec![artifact("n", "k", None, "i")]);
}

#[test]
fn entries_keep_the_order_of_their_records() {
    let mut names = HighLevelFieldAnatomy::new();
    names.insert("zeta".to_string(), record("z", "k", None));
    names.insert("alpha".to_string(), record("a", "k", None));
    names.insert("mid".to_string(), record("m", "k", Some("d")));
    let mut raw = FlakeShowOutput::new();
    raw.insert_packages("p".to_string(), names);
    let info = FlakeInfo::from(raw);
    assert_eq!(
        info.for_system("p").packages,
        vec![
            artifact("z", "k", None, "zeta"),
            artifact("a", "k", None, "alpha"),
            artifact("m", "k", Some("d"), "mid"),
        ]
    );
}

#[test]
fn parse_keeps_the_number_of_entries() {
    let info = FlakeInfo::from_stdout(SAMPLE).unwrap();
    let systems = ["aarch64-darwin", "x86_64-linux"];
    let shells: usize = systems.iter().map(|s| info.for_system(s).dev_shells.len()).sum();
    let packages: usize = systems.iter().map(|s| info.for_system(s).packages.len()).sum();
    assert_eq!(shells, 3);
    assert_eq!(packages, 1);
}

#[test]
fn view_holds_what_the_platform_has() {
    let info = FlakeInfo::from_stdout(SAMPLE).unwrap();
    let linux = info.for_system("x86_64-linux");
    assert_eq!(
        linux.dev_shells,
        vec![
            artifact("ci-shell", "derivation", Some("for CI"), "ci"),
            artifact("shell", "derivation", None, "default"),
        ]
    );
    assert_eq!(linux.packages, vec![artifact("hello-2.12", "derivation", Some("greets"), "hello")]);
    let darwin = info.for_system("aarch64-darwin");
    assert_eq!(darwin.dev_shells, vec![artifact("shell", "derivation", None, "default")]);
    assert!(darwin.packages.is_empty());
}

#[test]
fn absent_platform_gives_empty_view() {
    let info = FlakeInfo::from_stdout(SAMPLE).unwrap();
    assert_eq!(
        info.for_system("riscv64-linux"),
        IndividualFlakeInfos { dev_shells: vec![], packages: vec![] }
    );
    assert_eq!(
        info.for_system(""),
        IndividualFlakeInfos { dev_shells: vec![], packages: vec![] }
    );
    let empty = FlakeInfo::from(FlakeShowOutput::new());
    assert_eq!(
        empty.for_system("x86_64-linux"),
        IndividualFlakeInfos { dev_shells: vec![], packages: vec![] }
    );
}

#[test]
fn platform_names_are_matched_whole() {
    let info = FlakeInfo::from_stdout(SAMPLE).unwrap();
    assert!(info.for_system("x86_64").packages.is_empty());
    assert!(info.for_system("x86_64-linux ").packages.is_empty());
    assert!(info.for_system("X86_64-LINUX").packages.is_empty());
}

#[test]
fn current_system_view_follows_the_query_output() {
    let info = FlakeInfo::from_stdout(SAMPLE).unwrap();
    assert_eq!(info.for_current_system(b"aarch64-darwin"), info.for_system("aarch64-darwin"));
    assert_eq!(info.for_current_system(b"x86_64-linux"), info.for_system("x86_64-linux"));
    assert_eq!(
        info.for_current_system(b"nowhere"),
        IndividualFlakeInfos { dev_shells: vec![], packages: vec![] }
    );
    assert_eq!(info.for_current_system(b"x86_64-linux\n").packages.len(), 0);
}

#[test]
fn categories_list_every_platform_once() {
    let info = FlakeInfo::from_stdout(SAMPLE).unwrap();
    let shells: Vec<&str> = info.dev_shells().iter().map(|(system, _)| system.as_str()).collect();
    assert_eq!(shells, vec!["aarch64-darwin", "x86_64-linux"]);
    let packages: Vec<&str> = info.packages().iter().map(|(system, _)| system.as_str()).collect();
    assert_eq!(packages, vec!["x86_64-linux"]);
    let total: usize = info.dev_shells().iter().map(|(_, entries)| entries.len()).sum();
    assert_eq!(total, 3);
    assert_eq!(info.packages()[0].1, info.for_system("x86_64-linux").packages);
}

#[test]
fn cloned_index_answers_as_the_first() {
    let info = FlakeInfo::from_stdout(SAMPLE).unwrap();
    let copy = info.clone();
    assert_eq!(copy.dev_shells(), info.dev_shells());
    assert_eq!(copy.packages(), info.packages());
    assert_eq!(copy.for_system("x86_64-linux"), info.for_system("x86_64-linux"));
}

#[test]
fn cloned_views_and_entries_are_equal() {
    let info = FlakeInfo::from_stdout(SAMPLE).unwrap();
    let view = info.for_system("x86_64-linux");
    assert_eq!(view.clone(), view);
    assert_eq!(view.packages[0].clone(), view.packages[0]);
}

#[test]
fn failed_exit_gives_no_result() {
    let ran: Result<ToolOutput, String> =
        Ok(ToolOutput { success: false, stdout: SAMPLE.to_vec() });
    assert!(matches!(flake_show().json(true).into_structured(ran), Ok(None)));
    let garbage: Result<ToolOutput, String> =
        Ok(ToolOutput { success: false, stdout: b"not json".to_vec() });
    assert!(matches!(flake_show().into_structured(garbage), Ok(None)));
}

#[test]
fn launch_failure_is_handed_on() {
    let ran: Result<ToolOutput, String> = Err("no such file".to_string());
    match flake_show().into_structured(ran) {
        Err(FlakeShowError::Launch(e)) => assert_eq!(e, "no such file"),
        _ => panic!("a launch failure has to come back as one"),
    }
}

#[test]
fn successful_run_is_parsed() {
    let ran: Result<ToolOutput, String> = Ok(ToolOutput { success: true, stdout: SAMPLE.to_vec() });
    let info = flake_show().into_structured(ran).unwrap().unwrap();
    assert_eq!(info.for_system("x86_64-linux").packages.len(), 1);
}

#[test]
fn unreadable_output_of_a_successful_run_is_a_parse_error() {
    let truncated: Result<ToolOutput, String> =
        Ok(ToolOutput { success: true, stdout: b"{\"packages\":".to_vec() });
    assert!(matches!(
        flake_show().into_structured(truncated),
        Err(FlakeShowError::Parse(ParseError::Syntax))
    ));
    let misshapen: Result<ToolOutput, String> =
        Ok(ToolOutput { success: true, stdout: b"{\"packages\":7}".to_vec() });
    assert!(matches!(
        flake_show().into_structured(misshapen),
        Err(FlakeShowError::Parse(ParseError::Shape))
    ));
}
