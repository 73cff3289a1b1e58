//! Tests of the registry, the outcome and response model, the
//! post-execution recommendations, and the process-wide
//! configuration.

use cargo_mcp::errors::ToolError;
use cargo_mcp::invocation::{apply_workspace_root, set_workspace_root, ProcessWideConfig};
use cargo_mcp::json::{JsonValue, RawParams};
use cargo_mcp::outcome::ExecutionOutcome;
use cargo_mcp::registry::{AnyTool, Registry};
use cargo_mcp::response::{ContentBlock, Response};
use cargo_mcp::schema::FieldType;
use cargo_mcp::tool::{PendingCall, Tool};
use cargo_mcp::tools::add_remove::CargoAddRmcpTool;
use cargo_mcp::tools::check::CargoCheckRequest;
use cargo_mcp::tools::info::CargoInfoRmcpTool;

fn params(entries: Vec<(&str, JsonValue)>) -> RawParams {
    let mut p = RawParams::new();
    for (name, value) in entries {
        p.insert(name.to_string(), value);
    }
    p
}

fn text_of(block: &ContentBlock) -> &str {
    match block {
        ContentBlock::Text(s) => s.as_str(),
    }
}

fn outcome(code: Option<i32>, stdout: &str, stderr: &str, ms: u64) -> ExecutionOutcome {
    ExecutionOutcome::from_exit(code, stdout.to_string(), stderr.to_string(), ms)
}

#[test]
fn full_catalog_registers_every_tool_once() {
    let registry = Registry::with_all_tools();
    let descriptors = registry.list();
    assert_eq!(descriptors.len(), 22);
    let names: Vec<&str> = descriptors.iter().map(|d| d.name.as_str()).collect();
    for expected in [
        "cargo-add",
        "cargo-remove",
        "cargo-check",
        "cargo-clippy",
        "cargo-doc",
        "cargo-info",
        "cargo-metadata",
        "cargo-generate_lockfile",
        "cargo-clean",
        "cargo-fmt",
        "cargo-new",
        "cargo-list",
        "cargo-package",
        "cargo-search",
        "cargo-update",
        "cargo-deny-check",
        "cargo-deny-init",
        "cargo-deny-list",
        "cargo-deny-install",
        "cargo-hack",
        "cargo-hack-install",
        "rustc-explain",
    ] {
        assert!(names.contains(&expected), "missing tool {}", expected);
    }
}

#[test]
fn duplicate_registration_is_refused() {
    let mut registry = Registry::with_all_tools();
    let e = registry.register(AnyTool::Add(CargoAddRmcpTool)).unwrap_err();
    assert_eq!(e.message(), "duplicate tool name: cargo-add");
    assert_eq!(registry.list().len(), 22);
}

#[test]
fn unregistered_name_yields_unknown_tool() {
    let registry = Registry::with_all_tools();
    let config = ProcessWideConfig::new();
    let r = registry.dispatch_prepare("cargo-fly", &params(vec![]), &config);
    match r {
        Err(ToolError::UnknownTool(msg)) => {
            assert_eq!(msg, "Tool not found: cargo-fly");
        },
        _ => panic!("expected an unknown-tool error"),
    }
}

#[test]
fn unknown_category_keyword_is_rejected_before_any_spawn() {
    let registry = Registry::with_all_tools();
    let config = ProcessWideConfig::new();
    let r = registry.dispatch_prepare(
        "cargo-add",
        &params(vec![
            ("package", JsonValue::Str("serde".to_string())),
            ("target_package", JsonValue::Str("app".to_string())),
            ("dependency_type", JsonValue::Str("nonsense".to_string())),
        ]),
        &config,
    );
    match r {
        Err(ToolError::InvalidParameter(msg)) => {
            assert_eq!(msg, "Unknown dependency type: nonsense");
        },
        _ => panic!("expected an invalid-parameter error"),
    }
    let err_response = Response::from_error(&ToolError::InvalidParameter(
        "Unknown dependency type: nonsense".to_string(),
    ));
    assert!(err_response.is_error);
    assert_eq!(err_response.content.len(), 1);
    assert_eq!(text_of(&err_response.content[0]), "Unknown dependency type: nonsense");
}

#[test]
fn dispatch_prepares_the_named_tool() {
    let registry = Registry::with_all_tools();
    let config = ProcessWideConfig::new();
    let prepared = registry
        .dispatch_prepare(
            "rustc-explain",
            &params(vec![("error_code", JsonValue::Str("E0308".to_string()))]),
            &config,
        )
        .unwrap();
    assert_eq!(prepared.invocation.program, "rustc");
    assert_eq!(prepared.invocation.args, vec!["--explain", "E0308"]);
    assert_eq!(prepared.invocation.cwd, None);
}

#[test]
fn dispatch_forwards_to_exactly_the_matched_tool() {
    // The dispatched result is the matched tool's own preparation:
    // the same parameters through the registry and through the tool's
    // builder give the same invocation.
    let registry = Registry::with_all_tools();
    let config = ProcessWideConfig::new();
    let entries = vec![
        ("package", JsonValue::Str("demo".to_string())),
        ("workspace", JsonValue::Bool(true)),
        ("jobs", JsonValue::Int(2)),
    ];
    let dispatched = registry
        .dispatch_prepare("cargo-check", &params(entries.clone()), &config)
        .unwrap();
    let direct = CargoCheckRequest::decode(&params(entries))
        .unwrap()
        .build_cmd()
        .unwrap();
    assert_eq!(dispatched.invocation.program, direct.program);
    assert_eq!(dispatched.invocation.args, direct.args);
    assert_eq!(dispatched.invocation.env, direct.env);
    assert!(matches!(dispatched.pending, PendingCall::Plain));
}

#[test]
fn dispatch_reports_the_matched_tools_own_error() {
    let registry = Registry::with_all_tools();
    let config = ProcessWideConfig::new();
    let e = registry
        .dispatch_prepare(
            "cargo-hack",
            &params(vec![("command", JsonValue::Str("fly".to_string()))]),
            &config,
        )
        .unwrap_err();
    match e {
        ToolError::InvalidParameter(msg) => {
            assert_eq!(
                msg,
                "Invalid command 'fly'. Allowed commands: check, test, build, clippy"
            );
        },
        _ => panic!("expected the tool's own parameter error"),
    }
}

#[test]
fn listed_descriptors_carry_title_description_and_schema() {
    let registry = Registry::with_all_tools();
    let descriptors = registry.list();
    let add = descriptors.iter().find(|d| d.name == "cargo-add").unwrap();
    assert_eq!(add.title, "Add Rust dependency");
    assert_eq!(
        add.description,
        "Adds a dependency to a Rust project using cargo add."
    );
    assert_eq!(add.schema.len(), 11);
    let fmt = descriptors.iter().find(|d| d.name == "cargo-fmt").unwrap();
    assert_eq!(fmt.title, "Format Rust code");
    assert_eq!(fmt.schema.len(), 4);
}

#[test]
fn both_dispatches_observe_the_same_working_directory() {
    let mut config = ProcessWideConfig::new();
    set_workspace_root(&mut config, "/workspace".to_string());
    let registry = Registry::with_all_tools();
    let a = registry
        .dispatch_prepare("cargo-list", &params(vec![]), &config)
        .unwrap();
    let b = registry
        .dispatch_prepare(
            "cargo-check",
            &params(vec![("workspace", JsonValue::Bool(true))]),
            &config,
        )
        .unwrap();
    assert_eq!(a.invocation.cwd, Some("/workspace".to_string()));
    assert_eq!(b.invocation.cwd, Some("/workspace".to_string()));
    assert_eq!(a.invocation.cwd, b.invocation.cwd);
}

#[test]
fn workspace_root_applies_only_when_configured() {
    let config = ProcessWideConfig::new();
    let mut inv = cargo_mcp::invocation::Invocation::new("cargo");
    apply_workspace_root(&config, &mut inv);
    assert_eq!(inv.cwd, None);
    let mut configured = ProcessWideConfig::new();
    set_workspace_root(&mut configured, "/repo".to_string());
    apply_workspace_root(&configured, &mut inv);
    assert_eq!(inv.cwd, Some("/repo".to_string()));
}

#[test]
fn success_is_exactly_exit_code_zero() {
    assert!(outcome(Some(0), "", "", 1).success);
    assert!(!outcome(Some(1), "", "", 1).success);
    assert!(!outcome(Some(-9), "", "", 1).success);
    assert!(!outcome(None, "", "", 1).success);
}

#[test]
fn empty_streams_are_no_output() {
    let o = outcome(Some(0), "", "text", 1);
    assert_eq!(o.stdout, None);
    assert_eq!(o.stderr, Some("text".to_string()));
}

#[test]
fn nonzero_exit_flags_error_but_keeps_output() {
    let o = outcome(Some(101), "built half", "failure details", 9);
    let r = Response::from_outcome(&o);
    assert!(r.is_error);
    assert_eq!(r.content.len(), 2);
    assert_eq!(text_of(&r.content[0]), "built half");
    assert_eq!(text_of(&r.content[1]), "failure details");
    assert!(r.recommendations.is_empty());
}

#[test]
fn spawn_failure_is_distinct_from_tool_failure() {
    // An execution-layer failure never becomes a "success: false"
    // outcome; it carries its own error kind with the operational
    // message.
    let e = ToolError::ExecutionFailure("No such file or directory (os error 2)".to_string());
    let r = Response::from_error(&e);
    assert!(r.is_error);
    assert_eq!(
        text_of(&r.content[0]),
        "No such file or directory (os error 2)"
    );
    match e {
        ToolError::ExecutionFailure(_) => {},
        _ => panic!("expected an execution failure"),
    }
}

#[test]
fn trivial_success_has_output_and_no_recommendations() {
    let o = outcome(Some(0), "hello\n", "", 2);
    let r = PendingCall::Plain.finish(&o, None);
    assert!(!r.is_error);
    assert_eq!(r.content.len(), 1);
    assert_eq!(text_of(&r.content[0]), "hello\n");
    assert!(r.recommendations.is_empty());
}

#[test]
fn fmt_recommends_plain_run_after_failed_check() {
    let o = outcome(Some(1), "", "diff", 2);
    let r = PendingCall::Fmt { check: true }.finish(&o, None);
    assert_eq!(
        r.recommendations,
        vec!["Run #cargo-fmt with `check: false` to automatically format the code".to_string()]
    );
    let ok = outcome(Some(0), "", "", 2);
    assert!(PendingCall::Fmt { check: true }.finish(&ok, None).recommendations.is_empty());
}

#[test]
fn clippy_recommendations_follow_fix_and_stderr() {
    let with_stderr = outcome(Some(1), "", "warning: unused", 2);
    let r = PendingCall::Clippy { fix: false }.finish(&with_stderr, None);
    assert_eq!(
        r.recommendations,
        vec![
            "Run #cargo-clippy with the `fix` and `allow_dirty` options to automatically fix the issues".to_string(),
        ]
    );
    let r2 = PendingCall::Clippy { fix: true }.finish(&with_stderr, None);
    assert_eq!(
        r2.recommendations,
        vec!["Run #cargo-fmt to format code after applying fixes".to_string()]
    );
}

#[test]
fn metadata_recommendations_trim_output() {
    let o = outcome(Some(0), "{}", "", 2);
    let r = PendingCall::Metadata { no_deps: false }.finish(&o, None);
    assert_eq!(
        r.recommendations,
        vec![
            "Set no_deps=true to return only workspace member metadata, reducing output size and token usage".to_string(),
            "Use #cargo-workspace_info if you don't need full metadata".to_string(),
        ]
    );
    let r2 = PendingCall::Metadata { no_deps: true }.finish(&o, None);
    assert_eq!(
        r2.recommendations,
        vec!["Use #cargo-workspace_info if you don't need full metadata".to_string()]
    );
}

#[test]
fn doc_finish_reports_index_and_slow_builds() {
    let pending = PendingCall::Doc {
        no_deps: false,
        doc_dir: "target/doc".to_string(),
        package_index: None,
    };
    let slow = outcome(Some(0), "", "", 31000);
    let r = pending.finish(&slow, Some("/w/target/doc/demo/index.html".to_string()));
    assert!(!r.is_error);
    assert_eq!(
        text_of(&r.content[1]),
        "Documentation generated successfully!\nDocumentation file: /w/target/doc/demo/index.html\nOpen this file in your browser to view the docs"
    );
    assert_eq!(
        r.recommendations,
        vec![
            "For faster documentation builds, consider using `no_deps: true` to build only local documentation".to_string(),
        ]
    );
    let failed = outcome(Some(1), "", "error", 31000);
    let r2 = pending.finish(&failed, None);
    assert!(r2.is_error);
    // No documentation note: just the (empty) stdout block and stderr.
    assert_eq!(r2.content.len(), 2);
    assert_eq!(text_of(&r2.content[1]), "error");
    assert!(r2.recommendations.is_empty());
}

#[test]
fn recommendations_are_ordered_and_additive() {
    let o = outcome(Some(0), "x", "", 1);
    let mut r = Response::from_outcome(&o);
    r.add_recommendation("first".to_string());
    r.add_recommendation("second".to_string());
    assert_eq!(r.recommendations, vec!["first".to_string(), "second".to_string()]);
    assert!(!r.is_error);
}

#[test]
fn test_cargo_add_schema() {
    let schema = CargoAddRmcpTool.schema();
    println!("CargoAddRequest schema: {:?}", schema);
    assert_eq!(schema.len(), 11);
    assert_eq!(schema[0].name, "package");
    assert!(schema[0].required);
    let required: Vec<&str> = schema
        .iter()
        .filter(|f| f.required)
        .map(|f| f.name.as_str())
        .collect();
    assert_eq!(required, vec!["package", "target_package"]);
}

#[test]
fn test_cargo_info_schema() {
    let schema = CargoInfoRmcpTool.schema();
    println!("CargoInfoTool schema: {:?}", schema);
    assert_eq!(schema.len(), 7);
    let required: Vec<&str> = schema
        .iter()
        .filter(|f| f.required)
        .map(|f| f.name.as_str())
        .collect();
    assert_eq!(required, vec!["package"]);
    assert!(matches!(schema[0].ty, FieldType::Text));
}
