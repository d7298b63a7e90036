use shaderlink::{build, BuildError, CompileReply, LinkReply, SourceUnit, StageKind};

fn unit(kind: StageKind, text: &str) -> SourceUnit {
    SourceUnit { kind, text: text.to_string() }
}

fn compiled(handle: u32) -> CompileReply {
    CompileReply { ok: true, handle, log: String::new() }
}

fn rejected(handle: u32, log: &str) -> CompileReply {
    CompileReply { ok: false, handle, log: log.to_string() }
}

fn link_ok() -> LinkReply {
    LinkReply { ok: true, log: String::new() }
}

fn link_failed(log: &str) -> LinkReply {
    LinkReply { ok: false, log: log.to_string() }
}

#[test]
fn valid_pair_builds_program() {
    let units = vec![
        unit(StageKind::Vertex, "valid-passthrough"),
        unit(StageKind::Fragment, "valid-red-output"),
    ];
    let replies = vec![compiled(10), compiled(11)];
    let report = build(units, &replies, 42, &link_ok());
    let program = report.result.expect("a valid pair must link");
    assert!(program.is_live());
    assert_eq!(program.handle(), 42);
    assert_eq!(report.compiles, 2);
    assert_eq!(report.created, vec![10, 11, 42]);
    assert_eq!(report.deleted, vec![10, 11]);
}

#[test]
fn vertex_syntax_error_fails_fast() {
    let log = "0:1(10): error: syntax error, unexpected end of file, expecting ';'";
    let units = vec![
        unit(StageKind::Vertex, "syntax error: missing semicolon"),
        unit(StageKind::Fragment, "valid-red-output"),
    ];
    let replies = vec![rejected(10, log), compiled(11)];
    let report = build(units, &replies, 42, &link_ok());
    match report.result {
        Err(BuildError::Compile { stage, message }) => {
            assert_eq!(stage, StageKind::Vertex);
            assert_eq!(message, log);
            assert!(message.contains("0:1(10)"));
        }
        other => panic!("expected a vertex compile error, got {:?}", other),
    }
    // Fail-fast: the fragment unit was never compiled.
    assert_eq!(report.compiles, 1);
    assert_eq!(report.created, vec![10]);
    assert_eq!(report.deleted, vec![10]);
}

#[test]
fn second_unit_failure_attributed_to_fragment() {
    let log = "0:3(2): error: `FragColor' undeclared";
    let units = vec![
        unit(StageKind::Vertex, "valid-passthrough"),
        unit(StageKind::Fragment, "broken"),
    ];
    let replies = vec![compiled(10), rejected(11, log)];
    let report = build(units, &replies, 42, &link_ok());
    match report.result {
        Err(BuildError::Compile { stage, message }) => {
            assert_eq!(stage, StageKind::Fragment);
            assert_eq!(message, log);
        }
        other => panic!("expected a fragment compile error, got {:?}", other),
    }
    assert_eq!(report.compiles, 2);
    assert_eq!(report.created, vec![10, 11]);
    assert_eq!(report.deleted, vec![10, 11]);
}

#[test]
fn incompatible_stages_fail_at_link() {
    let log = "error: vertex shader output `color' not read by fragment shader";
    let units = vec![
        unit(StageKind::Vertex, "writes color"),
        unit(StageKind::Fragment, "reads colour"),
    ];
    let replies = vec![compiled(10), compiled(11)];
    let report = build(units, &replies, 42, &link_failed(log));
    match report.result {
        Err(e) => {
            assert_eq!(e.stage(), None);
            match e {
                BuildError::Link { message } => {
                    assert_eq!(message, log);
                    assert!(!message.is_empty());
                }
                other => panic!("expected a link error, got {:?}", other),
            }
        }
        Ok(_) => panic!("expected a link error"),
    }
    assert_eq!(report.compiles, 2);
    assert_eq!(report.created, vec![10, 11, 42]);
    assert_eq!(report.deleted, vec![10, 11, 42]);
}

#[test]
fn missing_fragment_is_rejected_before_any_driver_call() {
    let units = vec![unit(StageKind::Vertex, "valid-passthrough")];
    let replies = vec![compiled(10)];
    let report = build(units, &replies, 42, &link_ok());
    assert!(matches!(report.result, Err(BuildError::InvalidInput)));
    assert_eq!(report.compiles, 0);
    assert!(report.created.is_empty());
    assert!(report.deleted.is_empty());
}

#[test]
fn missing_vertex_is_rejected_before_any_driver_call() {
    let units = vec![unit(StageKind::Fragment, "valid-red-output")];
    let replies = vec![compiled(10)];
    let report = build(units, &replies, 42, &link_ok());
    assert!(matches!(report.result, Err(BuildError::InvalidInput)));
    assert_eq!(report.compiles, 0);
    assert!(report.created.is_empty());
    assert!(report.deleted.is_empty());
}

#[test]
fn empty_unit_list_is_rejected() {
    let report = build(Vec::new(), &Vec::new(), 42, &link_ok());
    assert!(matches!(report.result, Err(BuildError::InvalidInput)));
    assert_eq!(report.compiles, 0);
    assert!(report.created.is_empty());
    assert!(report.deleted.is_empty());
}

#[test]
fn rebuilding_identical_source_gives_independent_programs() {
    let make_units = || {
        vec![
            unit(StageKind::Vertex, "valid-passthrough"),
            unit(StageKind::Fragment, "valid-red-output"),
        ]
    };
    // A deterministic driver answers identical source with the same
    // statuses; only the object names differ between the two calls.
    let first = build(make_units(), &vec![compiled(10), compiled(11)], 42, &link_ok());
    let second = build(make_units(), &vec![compiled(20), compiled(21)], 43, &link_ok());
    let p1 = first.result.expect("first build must link");
    let p2 = second.result.expect("second build must link");
    assert!(p1.is_live());
    assert!(p2.is_live());
    assert_ne!(p1.handle(), p2.handle());
    assert_eq!(first.compiles, second.compiles);
}

#[test]
fn rebuilding_identical_broken_source_fails_the_same_way() {
    let log = "0:1(10): error: syntax error";
    let make_units = || {
        vec![
            unit(StageKind::Vertex, "syntax error: missing semicolon"),
            unit(StageKind::Fragment, "valid-red-output"),
        ]
    };
    let first = build(make_units(), &vec![rejected(10, log), compiled(11)], 42, &link_ok());
    let second = build(make_units(), &vec![rejected(20, log), compiled(21)], 43, &link_ok());
    let s1 = first.result.as_ref().err().map(|e| e.stage());
    let s2 = second.result.as_ref().err().map(|e| e.stage());
    assert_eq!(s1, Some(Some(StageKind::Vertex)));
    assert_eq!(s2, Some(Some(StageKind::Vertex)));
    assert_eq!(first.compiles, second.compiles);
}

#[test]
fn no_driver_name_leaks_on_any_path() {
    let scripts: Vec<(Vec<SourceUnit>, Vec<CompileReply>, LinkReply)> = vec![
        (
            vec![unit(StageKind::Vertex, "v"), unit(StageKind::Fragment, "f")],
            vec![compiled(10), compiled(11)],
            link_ok(),
        ),
        (
            vec![unit(StageKind::Vertex, "v"), unit(StageKind::Fragment, "f")],
            vec![rejected(10, "bad"), compiled(11)],
            link_ok(),
        ),
        (
            vec![unit(StageKind::Vertex, "v"), unit(StageKind::Fragment, "f")],
            vec![compiled(10), compiled(11)],
            link_failed("bad"),
        ),
        (vec![unit(StageKind::Vertex, "v")], vec![compiled(10)], link_ok()),
    ];
    for (units, replies, link) in scripts {
        let report = build(units, &replies, 42, &link);
        let mut live: Vec<u32> = report.created.clone();
        for deleted in &report.deleted {
            let position = live
                .iter()
                .position(|h| h == deleted)
                .expect("only created names are deleted");
            live.remove(position);
        }
        match report.result {
            Ok(program) => assert_eq!(live, vec![program.handle()]),
            Err(_) => assert!(live.is_empty()),
        }
    }
}

#[test]
fn release_hands_the_name_back_exactly_once() {
    let units = vec![
        unit(StageKind::Vertex, "valid-passthrough"),
        unit(StageKind::Fragment, "valid-red-output"),
    ];
    let replies = vec![compiled(10), compiled(11)];
    let mut program = build(units, &replies, 42, &link_ok()).result.unwrap();
    assert!(program.is_live());
    assert_eq!(program.release(), 42);
    assert!(!program.is_live());
}

#[test]
fn invalid_input_error_names_no_stage() {
    let report = build(Vec::new(), &Vec::new(), 42, &link_ok());
    match report.result {
        Err(e) => {
            assert_eq!(e.stage(), None);
            assert_eq!(e.message(), "");
        }
        Ok(_) => panic!("an empty unit list must be rejected"),
    }
}
