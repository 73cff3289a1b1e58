//! Tests of the invocation builders: exact argument vectors,
//! environment overrides, enumerated-value rejections, and the string
//! utilities beneath them.

use cargo_mcp::json::{JsonValue, RawParams};
use cargo_mcp::strutil::{dash_to_underscore, i64_dec, join_comma, u32_dec};
use cargo_mcp::tools::add_remove::{
    dependency_type_to_cli_flag, CargoAddRequest, CargoRemoveRequest,
};
use cargo_mcp::tools::cargo::{CargoFmtRequest, CargoListRequest, CargoNewRequest};
use cargo_mcp::tools::cargo_deny::{CargoDenyCheckRequest, CargoDenyListRequest};
use cargo_mcp::tools::cargo_hack::CargoHackRequest;
use cargo_mcp::tools::check::CargoCheckRequest;
use cargo_mcp::tools::doc::CargoDocRequest;
use cargo_mcp::tools::info::CargoInfoRequest;
use cargo_mcp::tools::metadata::CargoMetadataRequest;
use cargo_mcp::tools::search::CargoSearchRequest;
use cargo_mcp::tools::update::CargoUpdateRequest;
use cargo_mcp::tools::cargo::{CargoCleanRequest, CargoGenerateLockfileRequest};
use cargo_mcp::tools::cargo_deny::CargoDenyInitRequest;
use cargo_mcp::tools::cargo_deny::CargoDenyInstallRequest;
use cargo_mcp::tools::cargo_hack::CargoHackInstallRequest;
use cargo_mcp::tools::clippy::CargoClippyRequest;
use cargo_mcp::tools::package::CargoPackageRequest;

fn params(entries: Vec<(&str, JsonValue)>) -> RawParams {
    let mut p = RawParams::new();
    for (name, value) in entries {
        p.insert(name.to_string(), value);
    }
    p
}

fn s(text: &str) -> JsonValue {
    JsonValue::Str(text.to_string())
}

#[test]
fn test_dependency_type_helper() {
    // Test CLI flags
    assert_eq!(dependency_type_to_cli_flag(Some("regular")).unwrap(), None);
    assert_eq!(
        dependency_type_to_cli_flag(Some("dev")).unwrap(),
        Some("--dev")
    );
    assert_eq!(
        dependency_type_to_cli_flag(Some("build")).unwrap(),
        Some("--build")
    );
    assert!(dependency_type_to_cli_flag(Some("unknown")).is_err());
}

#[test]
fn u32_rendering_is_exact() {
    assert_eq!(u32_dec(0), "0");
    assert_eq!(u32_dec(7), "7");
    assert_eq!(u32_dec(30), "30");
    assert_eq!(u32_dec(4294967295), "4294967295");
}

#[test]
fn i64_rendering_is_exact() {
    assert_eq!(i64_dec(-123), "-123");
    assert_eq!(i64_dec(0), "0");
    assert_eq!(i64_dec(i64::MIN), "-9223372036854775808");
}

#[test]
fn join_comma_is_exact() {
    assert_eq!(join_comma(&Vec::new()), "");
    assert_eq!(join_comma(&vec!["a".to_string()]), "a");
    assert_eq!(join_comma(&vec!["a".to_string(), "b".to_string()]), "a,b");
}

#[test]
fn dash_to_underscore_is_exact() {
    assert_eq!(dash_to_underscore("my-pkg"), "my_pkg");
    assert_eq!(dash_to_underscore("plain"), "plain");
    assert_eq!(dash_to_underscore("--"), "__");
}

#[test]
fn check_command_lists_flags_in_order() {
    let req = CargoCheckRequest::decode(&params(vec![
        ("package", s("demo")),
        ("workspace", JsonValue::Bool(true)),
        ("features", s("serde")),
        ("jobs", JsonValue::Int(4)),
        ("warnings_as_errors", JsonValue::Bool(true)),
    ]))
    .unwrap();
    let inv = req.build_cmd().unwrap();
    assert_eq!(inv.program, "cargo");
    assert_eq!(
        inv.args,
        vec![
            "check",
            "--package",
            "demo",
            "--workspace",
            "--features",
            "serde",
            "--jobs",
            "4",
        ]
    );
    assert_eq!(
        inv.env,
        vec![("RUSTFLAGS".to_string(), "-D warnings".to_string())]
    );
    assert_eq!(inv.cwd, None);
}

#[test]
fn add_command_builds_full_vector() {
    let req = CargoAddRequest::decode(&params(vec![
        ("package", s("serde")),
        ("version", s("1.0")),
        ("dependency_type", s("dev")),
        ("optional", JsonValue::Bool(true)),
        ("features", s("derive")),
        ("target_package", s("app")),
        ("dry_run", JsonValue::Bool(true)),
    ]))
    .unwrap();
    let inv = req.build_cmd().unwrap();
    assert_eq!(
        inv.args,
        vec![
            "add",
            "serde@1.0",
            "--dev",
            "--optional",
            "--features",
            "derive",
            "--package",
            "app",
            "--dry-run",
        ]
    );
}

#[test]
fn add_command_rejects_unknown_dependency_type() {
    let req = CargoAddRequest::decode(&params(vec![
        ("package", s("serde")),
        ("dependency_type", s("nonsense")),
        ("target_package", s("app")),
    ]))
    .unwrap();
    let e = req.build_cmd().unwrap_err();
    assert_eq!(e.message(), "Unknown dependency type: nonsense");
}

#[test]
fn remove_command_places_positional_deps_first() {
    let req = CargoRemoveRequest::decode(&params(vec![
        (
            "dep_id",
            JsonValue::Arr(vec![
                cargo_mcp::json::JsonElem::Str("a".to_string()),
                cargo_mcp::json::JsonElem::Str("b".to_string()),
            ]),
        ),
        ("target_package", s("app")),
    ]))
    .unwrap();
    let inv = req.build_cmd().unwrap();
    assert_eq!(inv.args, vec!["remove", "a", "b", "--package", "app"]);
}

#[test]
fn metadata_command_pins_format_version() {
    let req = CargoMetadataRequest::decode(&params(vec![(
        "features",
        JsonValue::Arr(vec![]),
    )]))
    .unwrap();
    let inv = req.build_cmd().unwrap();
    // A present-but-empty feature list contributes nothing.
    assert_eq!(inv.args, vec!["metadata", "--format-version", "1"]);
}

#[test]
fn doc_command_defaults_no_deps_on() {
    let req = CargoDocRequest::decode(&params(vec![])).unwrap();
    let inv = req.build_cmd().unwrap();
    assert_eq!(inv.args, vec!["doc", "--no-deps"]);
    let req2 = CargoDocRequest::decode(&params(vec![(
        "no_deps",
        JsonValue::Bool(false),
    )]))
    .unwrap();
    assert_eq!(req2.build_cmd().unwrap().args, vec!["doc"]);
}

#[test]
fn doc_command_sets_rustdoc_env_for_docsrs() {
    let req = CargoDocRequest::decode(&params(vec![(
        "docsrs_config",
        JsonValue::Bool(true),
    )]))
    .unwrap();
    let inv = req.build_cmd().unwrap();
    assert_eq!(
        inv.env,
        vec![("RUSTDOCFLAGS".to_string(), "--cfg docsrs".to_string())]
    );
}

#[test]
fn doc_paths_follow_target_and_root() {
    let req = CargoDocRequest::decode(&params(vec![("package", s("my-pkg"))])).unwrap();
    let root = Some("/work".to_string());
    assert_eq!(req.doc_dir(&root), "/work/target/doc");
    assert_eq!(
        req.package_index_candidate(&root).unwrap(),
        "/work/target/doc/my_pkg/index.html"
    );
    let req2 = CargoDocRequest::decode(&params(vec![(
        "target",
        s("x86_64-unknown-linux-gnu"),
    )]))
    .unwrap();
    assert_eq!(req2.doc_dir(&None), "target/x86_64-unknown-linux-gnu/doc");
    assert_eq!(req2.package_index_candidate(&None), None);
}

#[test]
fn info_command_applies_locking_and_verbosity_defaults() {
    let req = CargoInfoRequest::decode(&params(vec![("package", s("serde"))])).unwrap();
    let inv = req.build_cmd().unwrap();
    assert_eq!(inv.args, vec!["info", "serde", "--locked", "--quiet"]);
}

#[test]
fn info_command_rejects_unknown_locking_mode() {
    let req = CargoInfoRequest::decode(&params(vec![
        ("package", s("serde")),
        ("locking_mode", s("loose")),
    ]))
    .unwrap();
    let e = req.build_cmd().unwrap_err();
    assert_eq!(e.message(), "Unknown locking mode: loose");
}

#[test]
fn info_command_rejects_unknown_verbosity() {
    let req = CargoInfoRequest::decode(&params(vec![
        ("package", s("serde")),
        ("output_verbosity", s("loud")),
    ]))
    .unwrap();
    let e = req.build_cmd().unwrap_err();
    assert_eq!(e.message(), "Unknown output verbosity: loud");
}

#[test]
fn hack_command_validates_subcommand_and_appends_it_last() {
    let req = CargoHackRequest::decode(&params(vec![
        ("command", s("test")),
        ("each_feature", JsonValue::Bool(true)),
    ]))
    .unwrap();
    let inv = req.build_cmd().unwrap();
    assert_eq!(
        inv.args,
        vec!["hack", "--locked", "--each-feature", "test"]
    );
}

#[test]
fn hack_command_rejects_unknown_subcommand() {
    let req = CargoHackRequest::decode(&params(vec![("command", s("fly"))])).unwrap();
    let e = req.build_cmd().unwrap_err();
    assert_eq!(
        e.message(),
        "Invalid command 'fly'. Allowed commands: check, test, build, clippy"
    );
}

#[test]
fn hack_optional_deps_distinguishes_empty_from_absent() {
    let req = CargoHackRequest::decode(&params(vec![(
        "optional_deps",
        JsonValue::Arr(vec![]),
    )]))
    .unwrap();
    let inv = req.build_cmd().unwrap();
    assert_eq!(inv.args, vec!["hack", "--locked", "--optional-deps", "check"]);
    let req2 = CargoHackRequest::decode(&params(vec![("optional_deps", s("alloc"))])).unwrap();
    assert_eq!(
        req2.build_cmd().unwrap().args,
        vec!["hack", "--locked", "--optional-deps", "alloc", "check"]
    );
}

#[test]
fn deny_check_places_subcommand_between_option_groups() {
    let req = CargoDenyCheckRequest::decode(&params(vec![
        ("log_level", s("warn")),
        ("which", s("advisories")),
        ("show_stats", JsonValue::Bool(true)),
    ]))
    .unwrap();
    let inv = req.build_cmd().unwrap();
    assert_eq!(
        inv.args,
        vec![
            "deny",
            "--log-level",
            "warn",
            "check",
            "--show-stats",
            "advisories",
        ]
    );
}

#[test]
fn deny_list_carries_threshold_as_number_text() {
    let req = CargoDenyListRequest::decode(&params(vec![(
        "threshold",
        JsonValue::Num("0.8".to_string()),
    )]))
    .unwrap();
    let inv = req.build_cmd().unwrap();
    assert_eq!(inv.args, vec!["deny", "list", "--threshold", "0.8"]);
    let req2 = CargoDenyListRequest::decode(&params(vec![(
        "threshold",
        JsonValue::Int(1),
    )]))
    .unwrap();
    assert_eq!(
        req2.build_cmd().unwrap().args,
        vec!["deny", "list", "--threshold", "1"]
    );
}

#[test]
fn update_command_passes_unstable_flags_each() {
    let req = CargoUpdateRequest::decode(&params(vec![
        ("spec", s("serde")),
        (
            "unstable_flags",
            JsonValue::Arr(vec![
                cargo_mcp::json::JsonElem::Str("minimal-versions".to_string()),
            ]),
        ),
    ]))
    .unwrap();
    let inv = req.build_cmd().unwrap();
    assert_eq!(
        inv.args,
        vec!["update", "serde", "-Z", "minimal-versions"]
    );
}

#[test]
fn search_command_renders_limit() {
    let req = CargoSearchRequest::decode(&params(vec![
        ("query", s("json")),
        ("limit", JsonValue::Int(25)),
    ]))
    .unwrap();
    let inv = req.build_cmd().unwrap();
    assert_eq!(inv.args, vec!["search", "json", "--limit", "25"]);
}

#[test]
fn clean_and_generate_lockfile_build_their_vectors() {
    let clean = CargoCleanRequest::decode(&params(vec![
        ("package", s("a")),
        ("release", JsonValue::Bool(true)),
    ]))
    .unwrap();
    assert_eq!(
        clean.build_cmd().unwrap().args,
        vec!["clean", "--package", "a", "--release"]
    );
    let lock = CargoGenerateLockfileRequest::decode(&params(vec![(
        "ignore_rust_version",
        JsonValue::Bool(true),
    )]))
    .unwrap();
    assert_eq!(
        lock.build_cmd().unwrap().args,
        vec!["generate-lockfile", "--ignore-rust-version"]
    );
}

#[test]
fn deny_init_takes_config_as_positional() {
    let req = CargoDenyInitRequest::decode(&params(vec![("config", s("deny.toml"))])).unwrap();
    assert_eq!(req.build_cmd().unwrap().args, vec!["deny", "init", "deny.toml"]);
    let bare = CargoDenyInitRequest::decode(&params(vec![])).unwrap();
    assert_eq!(bare.build_cmd().unwrap().args, vec!["deny", "init"]);
}

#[test]
fn install_tools_build_fixed_vectors() {
    let deny = CargoDenyInstallRequest::decode(&params(vec![])).unwrap();
    assert_eq!(deny.build_cmd().unwrap().args, vec!["install", "cargo-deny"]);
    let hack = CargoHackInstallRequest::decode(&params(vec![])).unwrap();
    assert_eq!(hack.build_cmd().unwrap().args, vec!["install", "cargo-hack"]);
}

#[test]
fn package_features_skip_flag_when_empty() {
    let req = CargoPackageRequest::decode(&params(vec![
        ("features", JsonValue::Arr(vec![])),
        ("no_verify", JsonValue::Bool(true)),
    ]))
    .unwrap();
    assert_eq!(req.build_cmd().unwrap().args, vec!["package", "--no-verify"]);
}

#[test]
fn clippy_allow_dirty_requires_fix() {
    let without_fix = CargoClippyRequest::decode(&params(vec![(
        "allow_dirty",
        JsonValue::Bool(true),
    )]))
    .unwrap();
    assert_eq!(without_fix.build_cmd().unwrap().args, vec!["clippy"]);
    let with_fix = CargoClippyRequest::decode(&params(vec![
        ("allow_dirty", JsonValue::Bool(true)),
        ("fix", JsonValue::Bool(true)),
    ]))
    .unwrap();
    assert_eq!(
        with_fix.build_cmd().unwrap().args,
        vec!["clippy", "--fix", "--allow-dirty"]
    );
}

#[test]
fn fmt_and_new_and_list_build_their_vectors() {
    let fmt = CargoFmtRequest::decode(&params(vec![("check", JsonValue::Bool(true))])).unwrap();
    assert_eq!(fmt.build_cmd().unwrap().args, vec!["fmt", "--check"]);

    let new_req = CargoNewRequest::decode(&params(vec![
        ("path", s("demo")),
        ("bin", JsonValue::Bool(true)),
        ("edition", s("2021")),
    ]))
    .unwrap();
    assert_eq!(
        new_req.build_cmd().unwrap().args,
        vec!["new", "demo", "--bin", "--edition", "2021"]
    );

    let list = CargoListRequest::decode(&params(vec![])).unwrap();
    assert_eq!(list.build_cmd().unwrap().args, vec!["--list"]);
}
