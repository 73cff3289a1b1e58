//! The `cargo hack` wrapper: feature-matrix testing for CI.

use vstd::prelude::*;

use crate::decode::{
    opt_bool, opt_string, opt_string_list, opt_u32, spec_opt_bool, spec_opt_string,
    spec_opt_string_list, spec_opt_u32, spec_string_or, string_or,
};
use crate::errors::{ToolError, ToolErrorV};
use crate::invocation::{
    Invocation, ProcessWideConfig, apply_workspace_root, opt_or, opt_true, seg_each, seg_flag, seg_join, seg_join_or_bare, seg_opt, seg_opt_u32,
};
use crate::json::{str_eq, RawParams};
use crate::schema::{field_v, push_field, FieldType, SchemaField, SchemaFieldV};
use crate::tool::{PendingCall, Prepared, Tool};

verus! {

/// The default subcommand `cargo hack` runs.
pub fn default_check() -> (r: String)
    ensures
        r@ == "check"@,
{
    "check".to_owned()
}

/// Runs `cargo hack` for feature testing and CI; supports the check,
/// test, build and clippy subcommands.
#[derive(Debug)]
pub struct CargoHackRequest {
    pub command: String,
    pub package: Option<Vec<String>>,
    pub workspace: Option<bool>,
    pub exclude: Option<Vec<String>>,
    pub locked: Option<bool>,
    pub features: Option<Vec<String>>,
    pub each_feature: Option<bool>,
    pub feature_powerset: Option<bool>,
    pub optional_deps: Option<Vec<String>>,
    pub exclude_features: Option<Vec<String>>,
    pub exclude_no_default_features: Option<bool>,
    pub exclude_all_features: Option<bool>,
    pub depth: Option<u32>,
    pub group_features: Option<Vec<String>>,
    pub target: Option<Vec<String>>,
    pub mutually_exclusive_features: Option<Vec<String>>,
    pub include_features: Option<Vec<String>>,
    pub no_dev_deps: Option<bool>,
    pub remove_dev_deps: Option<bool>,
    pub no_private: Option<bool>,
    pub ignore_private: Option<bool>,
    pub ignore_unknown_features: Option<bool>,
    pub rust_version: Option<bool>,
    pub version_range: Option<String>,
    pub version_step: Option<u32>,
    pub clean_per_run: Option<bool>,
    pub clean_per_version: Option<bool>,
    pub keep_going: Option<bool>,
    pub partition: Option<String>,
    pub log_group: Option<String>,
    pub print_command_list: Option<bool>,
    pub no_manifest_path: Option<bool>,
}

/// Every field of the request decodes.
pub open spec fn spec_hack_decode_ok(m: Seq<(Seq<char>, crate::json::JsonValueV)>) -> bool {
    &&& spec_string_or(m, "command"@, "check"@) is Ok
    &&& spec_opt_string_list(m, "package"@) is Ok
    &&& spec_opt_bool(m, "workspace"@) is Ok
    &&& spec_opt_string_list(m, "exclude"@) is Ok
    &&& spec_opt_bool(m, "locked"@) is Ok
    &&& spec_opt_string_list(m, "features"@) is Ok
    &&& spec_opt_bool(m, "each_feature"@) is Ok
    &&& spec_opt_bool(m, "feature_powerset"@) is Ok
    &&& spec_opt_string_list(m, "optional_deps"@) is Ok
    &&& spec_opt_string_list(m, "exclude_features"@) is Ok
    &&& spec_opt_bool(m, "exclude_no_default_features"@) is Ok
    &&& spec_opt_bool(m, "exclude_all_features"@) is Ok
    &&& spec_opt_u32(m, "depth"@) is Ok
    &&& spec_opt_string_list(m, "group_features"@) is Ok
    &&& spec_opt_string_list(m, "target"@) is Ok
    &&& spec_opt_string_list(m, "mutually_exclusive_features"@) is Ok
    &&& spec_opt_string_list(m, "include_features"@) is Ok
    &&& spec_opt_bool(m, "no_dev_deps"@) is Ok
    &&& spec_opt_bool(m, "remove_dev_deps"@) is Ok
    &&& spec_opt_bool(m, "no_private"@) is Ok
    &&& spec_opt_bool(m, "ignore_private"@) is Ok
    &&& spec_opt_bool(m, "ignore_unknown_features"@) is Ok
    &&& spec_opt_bool(m, "rust_version"@) is Ok
    &&& spec_opt_string(m, "version_range"@) is Ok
    &&& spec_opt_u32(m, "version_step"@) is Ok
    &&& spec_opt_bool(m, "clean_per_run"@) is Ok
    &&& spec_opt_bool(m, "clean_per_version"@) is Ok
    &&& spec_opt_bool(m, "keep_going"@) is Ok
    &&& spec_opt_string(m, "partition"@) is Ok
    &&& spec_opt_string(m, "log_group"@) is Ok
    &&& spec_opt_bool(m, "print_command_list"@) is Ok
    &&& spec_opt_bool(m, "no_manifest_path"@) is Ok
}

/// Each field of `q` is the decoded value of its parameter.
pub open spec fn spec_hack_fields(
    m: Seq<(Seq<char>, crate::json::JsonValueV)>,
    q: CargoHackRequest,
) -> bool {
    &&& q.command@ == spec_string_or(m, "command"@, "check"@)->Ok_0
    &&& q.package.deep_view() == spec_opt_string_list(m, "package"@)->Ok_0
    &&& q.workspace == spec_opt_bool(m, "workspace"@)->Ok_0
    &&& q.exclude.deep_view() == spec_opt_string_list(m, "exclude"@)->Ok_0
    &&& q.locked == spec_opt_bool(m, "locked"@)->Ok_0
    &&& q.features.deep_view() == spec_opt_string_list(m, "features"@)->Ok_0
    &&& q.each_feature == spec_opt_bool(m, "each_feature"@)->Ok_0
    &&& q.feature_powerset == spec_opt_bool(m, "feature_powerset"@)->Ok_0
    &&& q.optional_deps.deep_view() == spec_opt_string_list(m, "optional_deps"@)->Ok_0
    &&& q.exclude_features.deep_view() == spec_opt_string_list(m, "exclude_features"@)->Ok_0
    &&& q.exclude_no_default_features == spec_opt_bool(m, "exclude_no_default_features"@)->Ok_0
    &&& q.exclude_all_features == spec_opt_bool(m, "exclude_all_features"@)->Ok_0
    &&& q.depth == spec_opt_u32(m, "depth"@)->Ok_0
    &&& q.group_features.deep_view() == spec_opt_string_list(m, "group_features"@)->Ok_0
    &&& q.target.deep_view() == spec_opt_string_list(m, "target"@)->Ok_0
    &&& q.mutually_exclusive_features.deep_view() == spec_opt_string_list(
        m,
        "mutually_exclusive_features"@,
    )->Ok_0
    &&& q.include_features.deep_view() == spec_opt_string_list(m, "include_features"@)->Ok_0
    &&& q.no_dev_deps == spec_opt_bool(m, "no_dev_deps"@)->Ok_0
    &&& q.remove_dev_deps == spec_opt_bool(m, "remove_dev_deps"@)->Ok_0
    &&& q.no_private == spec_opt_bool(m, "no_private"@)->Ok_0
    &&& q.ignore_private == spec_opt_bool(m, "ignore_private"@)->Ok_0
    &&& q.ignore_unknown_features == spec_opt_bool(m, "ignore_unknown_features"@)->Ok_0
    &&& q.rust_version == spec_opt_bool(m, "rust_version"@)->Ok_0
    &&& q.version_range.deep_view() == spec_opt_string(m, "version_range"@)->Ok_0
    &&& q.version_step == spec_opt_u32(m, "version_step"@)->Ok_0
    &&& q.clean_per_run == spec_opt_bool(m, "clean_per_run"@)->Ok_0
    &&& q.clean_per_version == spec_opt_bool(m, "clean_per_version"@)->Ok_0
    &&& q.keep_going == spec_opt_bool(m, "keep_going"@)->Ok_0
    &&& q.partition.deep_view() == spec_opt_string(m, "partition"@)->Ok_0
    &&& q.log_group.deep_view() == spec_opt_string(m, "log_group"@)->Ok_0
    &&& q.print_command_list == spec_opt_bool(m, "print_command_list"@)->Ok_0
    &&& q.no_manifest_path == spec_opt_bool(m, "no_manifest_path"@)->Ok_0
}

/// `e` is the decode error of one of the fields that fail.
pub open spec fn spec_hack_decode_err(
    m: Seq<(Seq<char>, crate::json::JsonValueV)>,
    e: ToolErrorV,
) -> bool {
    ||| (spec_string_or(m, "command"@, "check"@) is Err && e == spec_string_or(
        m,
        "command"@,
        "check"@,
    )->Err_0)
    ||| (spec_opt_string_list(m, "package"@) is Err && e == spec_opt_string_list(
        m,
        "package"@,
    )->Err_0)
    ||| (spec_opt_bool(m, "workspace"@) is Err && e == spec_opt_bool(m, "workspace"@)->Err_0)
    ||| (spec_opt_string_list(m, "exclude"@) is Err && e == spec_opt_string_list(
        m,
        "exclude"@,
    )->Err_0)
    ||| (spec_opt_bool(m, "locked"@) is Err && e == spec_opt_bool(m, "locked"@)->Err_0)
    ||| (spec_opt_string_list(m, "features"@) is Err && e == spec_opt_string_list(
        m,
        "features"@,
    )->Err_0)
    ||| (spec_opt_bool(m, "each_feature"@) is Err && e == spec_opt_bool(m, "each_feature"@)->Err_0)
    ||| (spec_opt_bool(m, "feature_powerset"@) is Err && e == spec_opt_bool(
        m,
        "feature_powerset"@,
    )->Err_0)
    ||| (spec_opt_string_list(m, "optional_deps"@) is Err && e == spec_opt_string_list(
        m,
        "optional_deps"@,
    )->Err_0)
    ||| (spec_opt_string_list(m, "exclude_features"@) is Err && e == spec_opt_string_list(
        m,
        "exclude_features"@,
    )->Err_0)
    ||| (spec_opt_bool(m, "exclude_no_default_features"@) is Err && e == spec_opt_bool(
        m,
        "exclude_no_default_features"@,
    )->Err_0)
    ||| (spec_opt_bool(m, "exclude_all_features"@) is Err && e == spec_opt_bool(
        m,
        "exclude_all_features"@,
    )->Err_0)
    ||| (spec_opt_u32(m, "depth"@) is Err && e == spec_opt_u32(m, "depth"@)->Err_0)
    ||| (spec_opt_string_list(m, "group_features"@) is Err && e == spec_opt_string_list(
        m,
        "group_features"@,
    )->Err_0)
    ||| (spec_opt_string_list(m, "target"@) is Err && e == spec_opt_string_list(
        m,
        "target"@,
    )->Err_0)
    ||| (spec_opt_string_list(m, "mutually_exclusive_features"@) is Err && e
        == spec_opt_string_list(m, "mutually_exclusive_features"@)->Err_0)
    ||| (spec_opt_string_list(m, "include_features"@) is Err && e == spec_opt_string_list(
        m,
        "include_features"@,
    )->Err_0)
    ||| (spec_opt_bool(m, "no_dev_deps"@) is Err && e == spec_opt_bool(m, "no_dev_deps"@)->Err_0)
    ||| (spec_opt_bool(m, "remove_dev_deps"@) is Err && e == spec_opt_bool(
        m,
        "remove_dev_deps"@,
    )->Err_0)
    ||| (spec_opt_bool(m, "no_private"@) is Err && e == spec_opt_bool(m, "no_private"@)->Err_0)
    ||| (spec_opt_bool(m, "ignore_private"@) is Err && e == spec_opt_bool(
        m,
        "ignore_private"@,
    )->Err_0)
    ||| (spec_opt_bool(m, "ignore_unknown_features"@) is Err && e == spec_opt_bool(
        m,
        "ignore_unknown_features"@,
    )->Err_0)
    ||| (spec_opt_bool(m, "rust_version"@) is Err && e == spec_opt_bool(m, "rust_version"@)->Err_0)
    ||| (spec_opt_string(m, "version_range"@) is Err && e == spec_opt_string(
        m,
        "version_range"@,
    )->Err_0)
    ||| (spec_opt_u32(m, "version_step"@) is Err && e == spec_opt_u32(m, "version_step"@)->Err_0)
    ||| (spec_opt_bool(m, "clean_per_run"@) is Err && e == spec_opt_bool(
        m,
        "clean_per_run"@,
    )->Err_0)
    ||| (spec_opt_bool(m, "clean_per_version"@) is Err && e == spec_opt_bool(
        m,
        "clean_per_version"@,
    )->Err_0)
    ||| (spec_opt_bool(m, "keep_going"@) is Err && e == spec_opt_bool(m, "keep_going"@)->Err_0)
    ||| (spec_opt_string(m, "partition"@) is Err && e == spec_opt_string(m, "partition"@)->Err_0)
    ||| (spec_opt_string(m, "log_group"@) is Err && e == spec_opt_string(m, "log_group"@)->Err_0)
    ||| (spec_opt_bool(m, "print_command_list"@) is Err && e == spec_opt_bool(
        m,
        "print_command_list"@,
    )->Err_0)
    ||| (spec_opt_bool(m, "no_manifest_path"@) is Err && e == spec_opt_bool(
        m,
        "no_manifest_path"@,
    )->Err_0)
}

/// The subcommand is one of the four `cargo hack` accepts.
pub open spec fn spec_hack_command_ok(command: Seq<char>) -> bool {
    ||| command == "check"@
    ||| command == "test"@
    ||| command == "build"@
    ||| command == "clippy"@
}

/// The message rejecting an unsupported subcommand.
pub open spec fn spec_hack_command_err_msg(command: Seq<char>) -> Seq<char> {
    "Invalid command '"@ + command + "'. Allowed commands: "@ + "check, test, build, clippy"@
}

impl CargoHackRequest {
    /// Decodes the request from raw parameters, leniently; the
    /// subcommand defaults to `check`.
    pub fn decode(p: &RawParams) -> (r: Result<CargoHackRequest, ToolError>)
        ensures
            r is Ok <==> spec_hack_decode_ok(p@),
            r matches Ok(q) ==> spec_hack_fields(p@, q),
            r matches Err(e) ==> spec_hack_decode_err(p@, e@),
            r matches Err(e) ==> e is InvalidParameter,
    {
        let default_command = default_check();
        let command = string_or(p, "command", default_command.as_str())?;
        let package = opt_string_list(p, "package")?;
        let workspace = opt_bool(p, "workspace")?;
        let exclude = opt_string_list(p, "exclude")?;
        let locked = opt_bool(p, "locked")?;
        let features = opt_string_list(p, "features")?;
        let each_feature = opt_bool(p, "each_feature")?;
        let feature_powerset = opt_bool(p, "feature_powerset")?;
        let optional_deps = opt_string_list(p, "optional_deps")?;
        let exclude_features = opt_string_list(p, "exclude_features")?;
        let exclude_no_default_features = opt_bool(p, "exclude_no_default_features")?;
        let exclude_all_features = opt_bool(p, "exclude_all_features")?;
        let depth = opt_u32(p, "depth")?;
        let group_features = opt_string_list(p, "group_features")?;
        let target = opt_string_list(p, "target")?;
        let mutually_exclusive_features = opt_string_list(p, "mutually_exclusive_features")?;
        let include_features = opt_string_list(p, "include_features")?;
        let no_dev_deps = opt_bool(p, "no_dev_deps")?;
        let remove_dev_deps = opt_bool(p, "remove_dev_deps")?;
        let no_private = opt_bool(p, "no_private")?;
        let ignore_private = opt_bool(p, "ignore_private")?;
        let ignore_unknown_features = opt_bool(p, "ignore_unknown_features")?;
        let rust_version = opt_bool(p, "rust_version")?;
        let version_range = opt_string(p, "version_range")?;
        let version_step = opt_u32(p, "version_step")?;
        let clean_per_run = opt_bool(p, "clean_per_run")?;
        let clean_per_version = opt_bool(p, "clean_per_version")?;
        let keep_going = opt_bool(p, "keep_going")?;
        let partition = opt_string(p, "partition")?;
        let log_group = opt_string(p, "log_group")?;
        let print_command_list = opt_bool(p, "print_command_list")?;
        let no_manifest_path = opt_bool(p, "no_manifest_path")?;
        Ok(
            CargoHackRequest {
                command,
                package,
                workspace,
                exclude,
                locked,
                features,
                each_feature,
                feature_powerset,
                optional_deps,
                exclude_features,
                exclude_no_default_features,
                exclude_all_features,
                depth,
                group_features,
                target,
                mutually_exclusive_features,
                include_features,
                no_dev_deps,
                remove_dev_deps,
                no_private,
                ignore_private,
                ignore_unknown_features,
                rust_version,
                version_range,
                version_step,
                clean_per_run,
                clean_per_version,
                keep_going,
                partition,
                log_group,
                print_command_list,
                no_manifest_path,
            },
        )
    }

    /// The full argument vector of this request, in order, ending with
    /// the validated subcommand. `--locked` is on unless explicitly
    /// disabled; a present-but-empty `optional_deps` contributes the
    /// bare flag.
    pub open spec fn spec_args(&self) -> Seq<Seq<char>> {
        seq!["hack"@] + seg_each("--package"@, self.package.deep_view()) + seg_flag(
            opt_or(self.workspace, false),
            "--workspace"@,
        ) + seg_each("--exclude"@, self.exclude.deep_view()) + seg_flag(
            opt_or(self.locked, true),
            "--locked"@,
        ) + seg_join("--features"@, self.features.deep_view()) + seg_flag(
            opt_or(self.each_feature, false),
            "--each-feature"@,
        ) + seg_flag(opt_or(self.feature_powerset, false), "--feature-powerset"@)
            + seg_join_or_bare("--optional-deps"@, self.optional_deps.deep_view()) + seg_join(
            "--exclude-features"@,
            self.exclude_features.deep_view(),
        ) + seg_flag(
            opt_or(self.exclude_no_default_features, false),
            "--exclude-no-default-features"@,
        ) + seg_flag(opt_or(self.exclude_all_features, false), "--exclude-all-features"@)
            + seg_opt_u32("--depth"@, self.depth) + seg_join(
            "--group-features"@,
            self.group_features.deep_view(),
        ) + seg_each("--target"@, self.target.deep_view()) + seg_join(
            "--mutually-exclusive-features"@,
            self.mutually_exclusive_features.deep_view(),
        ) + seg_join("--include-features"@, self.include_features.deep_view()) + seg_flag(
            opt_or(self.no_dev_deps, false),
            "--no-dev-deps"@,
        ) + seg_flag(opt_or(self.remove_dev_deps, false), "--remove-dev-deps"@) + seg_flag(
            opt_or(self.no_private, false),
            "--no-private"@,
        ) + seg_flag(opt_or(self.ignore_private, false), "--ignore-private"@) + seg_flag(
            opt_or(self.ignore_unknown_features, false),
            "--ignore-unknown-features"@,
        ) + seg_flag(opt_or(self.rust_version, false), "--rust-version"@) + seg_opt(
            "--version-range"@,
            self.version_range.deep_view(),
        ) + seg_opt_u32("--version-step"@, self.version_step) + seg_flag(
            opt_or(self.clean_per_run, false),
            "--clean-per-run"@,
        ) + seg_flag(opt_or(self.clean_per_version, false), "--clean-per-version"@) + seg_flag(
            opt_or(self.keep_going, false),
            "--keep-going"@,
        ) + seg_opt("--partition"@, self.partition.deep_view()) + seg_opt(
            "--log-group"@,
            self.log_group.deep_view(),
        ) + seg_flag(opt_or(self.print_command_list, false), "--print-command-list"@) + seg_flag(
            opt_or(self.no_manifest_path, false),
            "--no-manifest-path"@,
        ) + seq![self.command@]
    }

    /// Builds the `cargo hack` invocation. Fails exactly when the
    /// subcommand is outside the allowed set, naming the offending
    /// value.
    #[verifier::rlimit(100)]
    pub fn build_cmd(&self) -> (r: Result<Invocation, ToolError>)
        ensures
            r is Ok <==> spec_hack_command_ok(self.command@),
            r matches Err(e) ==> e@ == ToolErrorV::InvalidParameter(
                spec_hack_command_err_msg(self.command@),
            ),
            r matches Err(e) ==> e is InvalidParameter,
            r matches Ok(inv) ==> {
                &&& inv.program@ == "cargo"@
                &&& inv.args.deep_view() == self.spec_args()
                &&& inv.env.deep_view() == Seq::<(Seq<char>, Seq<char>)>::empty()
                &&& inv.cwd is None
            },
    {
        let cmd_ok = str_eq(self.command.as_str(), "check") || str_eq(
            self.command.as_str(),
            "test",
        ) || str_eq(self.command.as_str(), "build") || str_eq(self.command.as_str(), "clippy");
        if !cmd_ok {
            let mut msg = String::new();
            msg.append("Invalid command '");
            msg.append(self.command.as_str());
            msg.append("'. Allowed commands: ");
            msg.append("check, test, build, clippy");
            return Err(ToolError::InvalidParameter(msg));
        }
        let mut cmd = Invocation::new("cargo");
        cmd.arg("hack");
        proof {
            assert(cmd.args.deep_view() =~= seq!["hack"@]);
        }
        cmd.each("--package", &self.package);
        cmd.flag_if(opt_true(&self.workspace), "--workspace");
        cmd.each("--exclude", &self.exclude);
        let locked_on = match &self.locked {
            Some(b) => *b,
            None => true,
        };
        cmd.flag_if(locked_on, "--locked");
        cmd.join_list("--features", &self.features);
        cmd.flag_if(opt_true(&self.each_feature), "--each-feature");
        cmd.flag_if(opt_true(&self.feature_powerset), "--feature-powerset");
        cmd.join_list_or_bare("--optional-deps", &self.optional_deps);
        cmd.join_list("--exclude-features", &self.exclude_features);
        cmd.flag_if(
            opt_true(&self.exclude_no_default_features),
            "--exclude-no-default-features",
        );
        cmd.flag_if(opt_true(&self.exclude_all_features), "--exclude-all-features");
        cmd.opt_u32("--depth", &self.depth);
        cmd.join_list("--group-features", &self.group_features);
        cmd.each("--target", &self.target);
        cmd.join_list("--mutually-exclusive-features", &self.mutually_exclusive_features);
        cmd.join_list("--include-features", &self.include_features);
        cmd.flag_if(opt_true(&self.no_dev_deps), "--no-dev-deps");
        cmd.flag_if(opt_true(&self.remove_dev_deps), "--remove-dev-deps");
        cmd.flag_if(opt_true(&self.no_private), "--no-private");
        cmd.flag_if(opt_true(&self.ignore_private), "--ignore-private");
        cmd.flag_if(opt_true(&self.ignore_unknown_features), "--ignore-unknown-features");
        cmd.flag_if(opt_true(&self.rust_version), "--rust-version");
        cmd.opt("--version-range", &self.version_range);
        cmd.opt_u32("--version-step", &self.version_step);
        cmd.flag_if(opt_true(&self.clean_per_run), "--clean-per-run");
        cmd.flag_if(opt_true(&self.clean_per_version), "--clean-per-version");
        cmd.flag_if(opt_true(&self.keep_going), "--keep-going");
        cmd.opt("--partition", &self.partition);
        cmd.opt("--log-group", &self.log_group);
        cmd.flag_if(opt_true(&self.print_command_list), "--print-command-list");
        cmd.flag_if(opt_true(&self.no_manifest_path), "--no-manifest-path");
        cmd.arg(self.command.as_str());
        Ok(cmd)
    }
}

/// Installs the `cargo-hack` tool itself.
#[derive(Debug)]
pub struct CargoHackInstallRequest {}

impl CargoHackInstallRequest {
    /// Decodes the (empty) request.
    pub fn decode(_p: &RawParams) -> (r: Result<CargoHackInstallRequest, ToolError>)
        ensures
            r is Ok,
    {
        Ok(CargoHackInstallRequest {  })
    }

    /// Builds the `cargo install cargo-hack` invocation; never fails.
    pub fn build_cmd(&self) -> (r: Result<Invocation, ToolError>)
        ensures
            r is Ok,
            r matches Ok(inv) ==> {
                &&& inv.program@ == "cargo"@
                &&& inv.args.deep_view() == seq!["install"@, "cargo-hack"@]
                &&& inv.env.deep_view() == Seq::<(Seq<char>, Seq<char>)>::empty()
                &&& inv.cwd is None
            },
    {
        let mut cmd = Invocation::new("cargo");
        cmd.arg("install");
        cmd.arg("cargo-hack");
        proof {
            assert(cmd.args.deep_view() =~= seq!["install"@, "cargo-hack"@]);
        }
        Ok(cmd)
    }
}

/// The registered `cargo-hack` tool.
#[derive(Debug)]
pub struct CargoHackRmcpTool;

impl Tool for CargoHackRmcpTool {
    open spec fn spec_name(&self) -> Seq<char> {
        "cargo-hack"@
    }

    open spec fn spec_title(&self) -> Seq<char> {
        "Run cargo-hack"@
    }

    open spec fn spec_description(&self) -> Seq<char> {
        "Run cargo-hack for feature testing and CI. Supports check, test, build, clippy. Use 'check' for fast validation."@
    }

    open spec fn spec_schema(&self) -> Seq<SchemaFieldV> {
        seq![
            field_v("command"@, FieldType::Text, ""@, false),
            field_v("package"@, FieldType::TextArray, ""@, false),
            field_v("workspace"@, FieldType::Boolean, ""@, false),
            field_v("exclude"@, FieldType::TextArray, ""@, false),
            field_v("locked"@, FieldType::Boolean, ""@, false),
            field_v("features"@, FieldType::TextArray, ""@, false),
            field_v("each_feature"@, FieldType::Boolean, ""@, false),
            field_v("feature_powerset"@, FieldType::Boolean, ""@, false),
            field_v("optional_deps"@, FieldType::TextArray, ""@, false),
            field_v("exclude_features"@, FieldType::TextArray, ""@, false),
            field_v("exclude_no_default_features"@, FieldType::Boolean, ""@, false),
            field_v("exclude_all_features"@, FieldType::Boolean, ""@, false),
            field_v("depth"@, FieldType::Integer, ""@, false),
            field_v("group_features"@, FieldType::TextArray, ""@, false),
            field_v("target"@, FieldType::TextArray, ""@, false),
            field_v("mutually_exclusive_features"@, FieldType::TextArray, ""@, false),
            field_v("include_features"@, FieldType::TextArray, ""@, false),
            field_v("no_dev_deps"@, FieldType::Boolean, ""@, false),
            field_v("remove_dev_deps"@, FieldType::Boolean, ""@, false),
            field_v("no_private"@, FieldType::Boolean, ""@, false),
            field_v("ignore_private"@, FieldType::Boolean, ""@, false),
            field_v("ignore_unknown_features"@, FieldType::Boolean, ""@, false),
            field_v("rust_version"@, FieldType::Boolean, ""@, false),
            field_v("version_range"@, FieldType::Text, ""@, false),
            field_v("version_step"@, FieldType::Integer, ""@, false),
            field_v("clean_per_run"@, FieldType::Boolean, ""@, false),
            field_v("clean_per_version"@, FieldType::Boolean, ""@, false),
            field_v("keep_going"@, FieldType::Boolean, ""@, false),
            field_v("partition"@, FieldType::Text, ""@, false),
            field_v("log_group"@, FieldType::Text, ""@, false),
            field_v("print_command_list"@, FieldType::Boolean, ""@, false),
            field_v("no_manifest_path"@, FieldType::Boolean, ""@, false),
        ]
    }

    open spec fn spec_prepare_ok(&self, m: Seq<(Seq<char>, crate::json::JsonValueV)>) -> bool {
        &&& spec_hack_decode_ok(m)
        &&& spec_hack_command_ok(spec_string_or(m, "command"@, "check"@)->Ok_0)
    }

    open spec fn spec_prepared(
        &self,
        m: Seq<(Seq<char>, crate::json::JsonValueV)>,
        root: Option<Seq<char>>,
        pp: Prepared,
    ) -> bool {
        exists|q: CargoHackRequest|
            #![trigger spec_hack_fields(m, q)]
            {
                &&& spec_hack_fields(m, q)
                &&& pp.invocation.program@ == "cargo"@
                &&& pp.invocation.args.deep_view() == q.spec_args()
                &&& pp.invocation.env.deep_view() == Seq::<(Seq<char>, Seq<char>)>::empty()
                &&& pp.invocation.cwd.deep_view() == root
                &&& pp.pending is Plain
            }
    }

    open spec fn spec_prepare_err(&self, m: Seq<(Seq<char>, crate::json::JsonValueV)>, e: ToolErrorV) -> bool {
        ||| spec_hack_decode_err(m, e)
        ||| (spec_hack_decode_ok(m) && !spec_hack_command_ok(
            spec_string_or(m, "command"@, "check"@)->Ok_0,
        ) && e == ToolErrorV::InvalidParameter(
            spec_hack_command_err_msg(spec_string_or(m, "command"@, "check"@)->Ok_0),
        ))
    }

    fn name(&self) -> (r: &'static str) {
        "cargo-hack"
    }

    fn title(&self) -> (r: &'static str) {
        "Run cargo-hack"
    }

    fn description(&self) -> (r: &'static str) {
        "Run cargo-hack for feature testing and CI. Supports check, test, build, clippy. Use 'check' for fast validation."
    }

    fn schema(&self) -> (r: Vec<SchemaField>) {
        let mut s: Vec<SchemaField> = Vec::new();
        push_field(&mut s, "command", FieldType::Text, "", false);
        push_field(&mut s, "package", FieldType::TextArray, "", false);
        push_field(&mut s, "workspace", FieldType::Boolean, "", false);
        push_field(&mut s, "exclude", FieldType::TextArray, "", false);
        push_field(&mut s, "locked", FieldType::Boolean, "", false);
        push_field(&mut s, "features", FieldType::TextArray, "", false);
        push_field(&mut s, "each_feature", FieldType::Boolean, "", false);
        push_field(&mut s, "feature_powerset", FieldType::Boolean, "", false);
        push_field(&mut s, "optional_deps", FieldType::TextArray, "", false);
        push_field(&mut s, "exclude_features", FieldType::TextArray, "", false);
        push_field(&mut s, "exclude_no_default_features", FieldType::Boolean, "", false);
        push_field(&mut s, "exclude_all_features", FieldType::Boolean, "", false);
        push_field(&mut s, "depth", FieldType::Integer, "", false);
        push_field(&mut s, "group_features", FieldType::TextArray, "", false);
        push_field(&mut s, "target", FieldType::TextArray, "", false);
        push_field(&mut s, "mutually_exclusive_features", FieldType::TextArray, "", false);
        push_field(&mut s, "include_features", FieldType::TextArray, "", false);
        push_field(&mut s, "no_dev_deps", FieldType::Boolean, "", false);
        push_field(&mut s, "remove_dev_deps", FieldType::Boolean, "", false);
        push_field(&mut s, "no_private", FieldType::Boolean, "", false);
        push_field(&mut s, "ignore_private", FieldType::Boolean, "", false);
        push_field(&mut s, "ignore_unknown_features", FieldType::Boolean, "", false);
        push_field(&mut s, "rust_version", FieldType::Boolean, "", false);
        push_field(&mut s, "version_range", FieldType::Text, "", false);
        push_field(&mut s, "version_step", FieldType::Integer, "", false);
        push_field(&mut s, "clean_per_run", FieldType::Boolean, "", false);
        push_field(&mut s, "clean_per_version", FieldType::Boolean, "", false);
        push_field(&mut s, "keep_going", FieldType::Boolean, "", false);
        push_field(&mut s, "partition", FieldType::Text, "", false);
        push_field(&mut s, "log_group", FieldType::Text, "", false);
        push_field(&mut s, "print_command_list", FieldType::Boolean, "", false);
        push_field(&mut s, "no_manifest_path", FieldType::Boolean, "", false);
        proof {
            assert(s.deep_view() =~= self.spec_schema());
        }
        s
    }

    fn prepare(&self, params: &RawParams, config: &ProcessWideConfig) -> (r: Result<
        Prepared,
        ToolError,
    >) {
        let request = CargoHackRequest::decode(params)?;
        let mut invocation = request.build_cmd()?;
        apply_workspace_root(config, &mut invocation);
        let prepared = Prepared { invocation, pending: PendingCall::Plain };
        proof {
            assert(spec_hack_fields(params@, request));
            assert(self.spec_prepared(params@, config.workspace_root.deep_view(), prepared));
        }
        Ok(prepared)
    }
}

/// The registered `cargo-hack-install` tool.
#[derive(Debug)]
pub struct CargoHackInstallRmcpTool;

impl Tool for CargoHackInstallRmcpTool {
    open spec fn spec_name(&self) -> Seq<char> {
        "cargo-hack-install"@
    }

    open spec fn spec_title(&self) -> Seq<char> {
        "Install cargo-hack"@
    }

    open spec fn spec_description(&self) -> Seq<char> {
        "Installs cargo-hack tool for feature testing and continuous integration"@
    }

    open spec fn spec_schema(&self) -> Seq<SchemaFieldV> {
        Seq::<SchemaFieldV>::empty()
    }

    open spec fn spec_prepare_ok(&self, _m: Seq<(Seq<char>, crate::json::JsonValueV)>) -> bool {
        true
    }

    open spec fn spec_prepared(
        &self,
        _m: Seq<(Seq<char>, crate::json::JsonValueV)>,
        root: Option<Seq<char>>,
        pp: Prepared,
    ) -> bool {
        &&& pp.invocation.program@ == "cargo"@
        &&& pp.invocation.args.deep_view() == seq!["install"@, "cargo-hack"@]
        &&& pp.invocation.env.deep_view() == Seq::<(Seq<char>, Seq<char>)>::empty()
        &&& pp.invocation.cwd.deep_view() == root
        &&& pp.pending is Plain
    }

    open spec fn spec_prepare_err(&self, _m: Seq<(Seq<char>, crate::json::JsonValueV)>, _e: ToolErrorV) -> bool {
        false
    }

    fn name(&self) -> (r: &'static str) {
        "cargo-hack-install"
    }

    fn title(&self) -> (r: &'static str) {
        "Install cargo-hack"
    }

    fn description(&self) -> (r: &'static str) {
        "Installs cargo-hack tool for feature testing and continuous integration"
    }

    fn schema(&self) -> (r: Vec<SchemaField>) {
        let mut s: Vec<SchemaField> = Vec::new();
        proof {
            assert(s.deep_view() =~= self.spec_schema());
        }
        s
    }

    fn prepare(&self, params: &RawParams, config: &ProcessWideConfig) -> (r: Result<
        Prepared,
        ToolError,
    >) {
        let request = CargoHackInstallRequest::decode(params)?;
        let mut invocation = request.build_cmd()?;
        apply_workspace_root(config, &mut invocation);
        Ok(Prepared { invocation, pending: PendingCall::Plain })
    }
}

} // verus!
