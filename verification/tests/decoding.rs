//! Tests of the lenient decoder: shape tolerance, verbatim handling,
//! and per-field error reporting.

use cargo_mcp::decode::{opt_bool, opt_string, opt_string_list, opt_u32, req_string};
use cargo_mcp::json::{encode_string_list, JsonElem, JsonValue, RawParams};
use cargo_mcp::tools::clippy::CargoClippyRequest;
use cargo_mcp::tools::metadata::CargoMetadataRequest;
use cargo_mcp::decode::req_string_array;
use cargo_mcp::tools::cargo_hack::CargoHackRequest;
use cargo_mcp::tools::package::CargoPackageRequest;

fn params(entries: Vec<(&str, JsonValue)>) -> RawParams {
    let mut p = RawParams::new();
    for (name, value) in entries {
        p.insert(name.to_string(), value);
    }
    p
}

fn str_array(items: Vec<&str>) -> JsonValue {
    JsonValue::Arr(items.into_iter().map(|s| JsonElem::Str(s.to_string())).collect())
}

#[test]
fn test_deserialize_with_missing_package_field() {
    let input = params(vec![
        ("toolchain", JsonValue::Null),
        ("workspace", JsonValue::Bool(true)),
        ("no_deps", JsonValue::Bool(false)),
        ("allow_dirty", JsonValue::Bool(true)),
        ("fix", JsonValue::Bool(true)),
        ("release", JsonValue::Bool(false)),
        ("target", JsonValue::Null),
        ("all_targets", JsonValue::Bool(true)),
        ("lib", JsonValue::Bool(true)),
        ("bins", JsonValue::Bool(true)),
        ("examples", JsonValue::Bool(true)),
        ("tests", JsonValue::Bool(true)),
        ("features", JsonValue::Null),
        ("all_features", JsonValue::Bool(true)),
        ("no_default_features", JsonValue::Bool(false)),
        ("verbose", JsonValue::Bool(true)),
        ("quiet", JsonValue::Bool(false)),
        ("warnings_as_errors", JsonValue::Bool(false)),
    ]);

    let tool: Result<CargoClippyRequest, _> = CargoClippyRequest::decode(&input);
    let tool = tool
        .expect("Deserialization should succeed even if `package` is missing (it's Option)");

    assert_eq!(tool.package, None);
    assert_eq!(tool.workspace, Some(true));
    assert_eq!(tool.all_features, Some(true));
    assert_eq!(tool.allow_dirty, Some(true));
}

#[test]
fn test_deserialize_with_package_field() {
    let input = params(vec![("package", str_array(vec!["my_package"]))]);

    let tool: Result<CargoClippyRequest, _> = CargoClippyRequest::decode(&input);
    let tool = tool.expect("Deserialization should succeed");

    assert_eq!(tool.package.unwrap(), ["my_package".to_owned()]);
    assert_eq!(tool.workspace, None);
    assert_eq!(tool.all_features, None);
    assert_eq!(tool.allow_dirty, None);
}

#[test]
fn test_deserialize_with_features_array() {
    let input = params(vec![("features", str_array(vec!["serde", "tokio"]))]);

    let tool: Result<CargoMetadataRequest, _> = CargoMetadataRequest::decode(&input);
    let tool = tool.expect("Deserialization should succeed with features array");

    assert_eq!(
        tool.features.unwrap(),
        ["serde".to_owned(), "tokio".to_owned()]
    );
}

#[test]
fn test_deserialize_with_single_feature_string() {
    let input = params(vec![("features", JsonValue::Str("serde".to_string()))]);

    let tool: Result<CargoMetadataRequest, _> = CargoMetadataRequest::decode(&input);
    let tool = tool.expect("Deserialization should succeed with single feature string");

    assert_eq!(tool.features.unwrap(), ["serde".to_owned()]);
}

#[test]
fn test_deserialize_with_features_string_array() {
    let input = params(vec![(
        "features",
        JsonValue::Str("[\"serde\",\"tokio\"]".to_string()),
    )]);

    let tool: Result<CargoMetadataRequest, _> = CargoMetadataRequest::decode(&input);
    let tool = tool
        .expect("Deserialization should succeed with features string that looks like array");

    assert_eq!(tool.features.unwrap(), ["[\"serde\",\"tokio\"]".to_owned()]);
}

#[test]
fn array_of_strings_decodes_verbatim() {
    let p = params(vec![("features", str_array(vec!["a", "b", "a"]))]);
    let got = opt_string_list(&p, "features").unwrap().unwrap();
    assert_eq!(got, vec!["a".to_string(), "b".to_string(), "a".to_string()]);
}

#[test]
fn empty_array_decodes_to_empty_list() {
    let p = params(vec![("features", str_array(vec![]))]);
    let got = opt_string_list(&p, "features").unwrap().unwrap();
    assert_eq!(got, Vec::<String>::new());
}

#[test]
fn bare_string_wraps_into_one_element() {
    let p = params(vec![("features", JsonValue::Str("serde".to_string()))]);
    let got = opt_string_list(&p, "features").unwrap().unwrap();
    assert_eq!(got, vec!["serde".to_string()]);
}

#[test]
fn list_round_trip_is_identity() {
    let p = params(vec![("features", str_array(vec!["x", "y", "x"]))]);
    let first = opt_string_list(&p, "features").unwrap().unwrap();
    let reencoded = encode_string_list(&first);
    let p2 = params(vec![("features", reencoded)]);
    let second = opt_string_list(&p2, "features").unwrap().unwrap();
    assert_eq!(first, second);
}

#[test]
fn absent_and_null_list_fields_decode_to_none() {
    let p = params(vec![("other", JsonValue::Bool(true)), ("empty", JsonValue::Null)]);
    assert_eq!(opt_string_list(&p, "missing").unwrap(), None);
    assert_eq!(opt_string_list(&p, "empty").unwrap(), None);
}

#[test]
fn list_field_rejects_other_types_naming_field_and_kind() {
    let p = params(vec![("features", JsonValue::Bool(true))]);
    let e = opt_string_list(&p, "features").unwrap_err();
    assert_eq!(
        e.message(),
        "invalid type for parameter `features`: expected string or array of strings, got boolean"
    );
}

#[test]
fn list_field_rejects_non_string_elements() {
    let p = params(vec![(
        "features",
        JsonValue::Arr(vec![JsonElem::Str("ok".to_string()), JsonElem::Int(3)]),
    )]);
    let e = opt_string_list(&p, "features").unwrap_err();
    assert_eq!(
        e.message(),
        "invalid type for parameter `features`: expected string or array of strings, got array containing integer"
    );
}

#[test]
fn string_field_accepts_null_and_rejects_numbers() {
    let p = params(vec![("target", JsonValue::Null)]);
    assert_eq!(opt_string(&p, "target").unwrap(), None);
    let p2 = params(vec![("target", JsonValue::Int(5))]);
    let e = opt_string(&p2, "target").unwrap_err();
    assert_eq!(
        e.message(),
        "invalid type for parameter `target`: expected string, got integer"
    );
}

#[test]
fn required_string_reports_missing_field() {
    let p = params(vec![]);
    let e = req_string(&p, "query").unwrap_err();
    assert_eq!(e.message(), "missing required parameter `query`");
}

#[test]
fn bool_field_rejects_strings() {
    let p = params(vec![("workspace", JsonValue::Str("yes".to_string()))]);
    let e = opt_bool(&p, "workspace").unwrap_err();
    assert_eq!(
        e.message(),
        "invalid type for parameter `workspace`: expected boolean, got string"
    );
}

#[test]
fn u32_field_accepts_range_and_names_out_of_range_values() {
    let p = params(vec![("jobs", JsonValue::Int(8))]);
    assert_eq!(opt_u32(&p, "jobs").unwrap(), Some(8));
    let p2 = params(vec![("jobs", JsonValue::Int(-1))]);
    let e = opt_u32(&p2, "jobs").unwrap_err();
    assert_eq!(
        e.message(),
        "invalid type for parameter `jobs`: expected a 32-bit unsigned integer, got -1"
    );
    let p3 = params(vec![("jobs", JsonValue::Num("2.5".to_string()))]);
    let e3 = opt_u32(&p3, "jobs").unwrap_err();
    assert_eq!(
        e3.message(),
        "invalid type for parameter `jobs`: expected a 32-bit unsigned integer, got number"
    );
}

#[test]
fn test_dependency_type_serde() {
    // Test string parsing for dependency types
    assert_eq!(
        serde_json::from_str::<String>("\"regular\"").unwrap(),
        "regular"
    );
    assert_eq!(serde_json::from_str::<String>("\"dev\"").unwrap(), "dev");
    assert_eq!(
        serde_json::from_str::<String>("\"build\"").unwrap(),
        "build"
    );
}

#[test]
fn defaulted_bool_takes_false_when_absent_but_rejects_null() {
    let req = CargoPackageRequest::decode(&params(vec![])).unwrap();
    assert!(!req.list);
    assert!(!req.skip_verify);
    let e = CargoPackageRequest::decode(&params(vec![("list", JsonValue::Null)])).unwrap_err();
    assert_eq!(
        e.message(),
        "invalid type for parameter `list`: expected boolean, got null"
    );
}

#[test]
fn defaulted_command_takes_check_when_absent_but_rejects_null() {
    let req = CargoHackRequest::decode(&params(vec![])).unwrap();
    assert_eq!(req.command, "check");
    let e = CargoHackRequest::decode(&params(vec![("command", JsonValue::Null)])).unwrap_err();
    assert_eq!(
        e.message(),
        "invalid type for parameter `command`: expected string, got null"
    );
}

#[test]
fn required_array_rejects_bare_scalars() {
    let p = params(vec![("dep_id", JsonValue::Str("serde".to_string()))]);
    let e = req_string_array(&p, "dep_id").unwrap_err();
    assert_eq!(
        e.message(),
        "invalid type for parameter `dep_id`: expected array of strings, got string"
    );
}

#[test]
fn first_binding_of_a_name_wins() {
    let p = params(vec![
        ("target", JsonValue::Str("first".to_string())),
        ("target", JsonValue::Str("second".to_string())),
    ]);
    assert_eq!(opt_string(&p, "target").unwrap(), Some("first".to_string()));
}
