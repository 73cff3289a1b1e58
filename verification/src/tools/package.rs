//! The `cargo package` wrapper.

use vstd::prelude::*;

use crate::decode::{
    bool_or_false, opt_bool, opt_string, opt_string_list, opt_u32, spec_bool_or_false,
    spec_opt_bool, spec_opt_string, spec_opt_string_list, spec_opt_u32,
};
use crate::errors::{ToolError, ToolErrorV};
use crate::invocation::{
    Invocation, ProcessWideConfig, apply_workspace_root, opt_or, opt_true, seg_each, seg_flag, seg_join_nonempty, seg_opt, seg_opt_u32,
};
use crate::json::RawParams;
use crate::schema::{field_v, push_field, FieldType, SchemaField, SchemaFieldV};
use crate::tool::{PendingCall, Prepared, Tool};

verus! {

/// Assembles the local package into a distributable tarball for
/// publishing.
#[derive(Debug)]
pub struct CargoPackageRequest {
    pub package: Option<Vec<String>>,
    pub workspace: Option<bool>,
    pub exclude: Option<Vec<String>>,
    pub list: bool,
    pub skip_verify: bool,
    pub no_metadata: bool,
    pub allow_dirty: bool,
    pub exclude_lockfile: bool,
    pub features: Option<Vec<String>>,
    pub all_features: Option<bool>,
    pub no_default_features: Option<bool>,
    pub target: Option<String>,
    pub target_dir: Option<String>,
    pub jobs: Option<u32>,
    pub keep_going: Option<bool>,
}

/// Every field of the request decodes.
pub open spec fn spec_package_decode_ok(m: Seq<(Seq<char>, crate::json::JsonValueV)>) -> bool {
    &&& spec_opt_string_list(m, "package"@) is Ok
    &&& spec_opt_bool(m, "workspace"@) is Ok
    &&& spec_opt_string_list(m, "exclude"@) is Ok
    &&& spec_bool_or_false(m, "list"@) is Ok
    &&& spec_bool_or_false(m, "no_verify"@) is Ok
    &&& spec_bool_or_false(m, "no_metadata"@) is Ok
    &&& spec_bool_or_false(m, "allow_dirty"@) is Ok
    &&& spec_bool_or_false(m, "exclude_lockfile"@) is Ok
    &&& spec_opt_string_list(m, "features"@) is Ok
    &&& spec_opt_bool(m, "all_features"@) is Ok
    &&& spec_opt_bool(m, "no_default_features"@) is Ok
    &&& spec_opt_string(m, "target"@) is Ok
    &&& spec_opt_string(m, "target_dir"@) is Ok
    &&& spec_opt_u32(m, "jobs"@) is Ok
    &&& spec_opt_bool(m, "keep_going"@) is Ok
}

/// Each field of `q` is the decoded value of its parameter.
pub open spec fn spec_package_fields(
    m: Seq<(Seq<char>, crate::json::JsonValueV)>,
    q: CargoPackageRequest,
) -> bool {
    &&& q.package.deep_view() == spec_opt_string_list(m, "package"@)->Ok_0
    &&& q.workspace == spec_opt_bool(m, "workspace"@)->Ok_0
    &&& q.exclude.deep_view() == spec_opt_string_list(m, "exclude"@)->Ok_0
    &&& q.list == spec_bool_or_false(m, "list"@)->Ok_0
    &&& q.skip_verify == spec_bool_or_false(m, "no_verify"@)->Ok_0
    &&& q.no_metadata == spec_bool_or_false(m, "no_metadata"@)->Ok_0
    &&& q.allow_dirty == spec_bool_or_false(m, "allow_dirty"@)->Ok_0
    &&& q.exclude_lockfile == spec_bool_or_false(m, "exclude_lockfile"@)->Ok_0
    &&& q.features.deep_view() == spec_opt_string_list(m, "features"@)->Ok_0
    &&& q.all_features == spec_opt_bool(m, "all_features"@)->Ok_0
    &&& q.no_default_features == spec_opt_bool(m, "no_default_features"@)->Ok_0
    &&& q.target.deep_view() == spec_opt_string(m, "target"@)->Ok_0
    &&& q.target_dir.deep_view() == spec_opt_string(m, "target_dir"@)->Ok_0
    &&& q.jobs == spec_opt_u32(m, "jobs"@)->Ok_0
    &&& q.keep_going == spec_opt_bool(m, "keep_going"@)->Ok_0
}

/// `e` is the decode error of one of the fields that fail.
pub open spec fn spec_package_decode_err(
    m: Seq<(Seq<char>, crate::json::JsonValueV)>,
    e: ToolErrorV,
) -> bool {
    ||| (spec_opt_string_list(m, "package"@) is Err && e == spec_opt_string_list(
        m,
        "package"@,
    )->Err_0)
    ||| (spec_opt_bool(m, "workspace"@) is Err && e == spec_opt_bool(m, "workspace"@)->Err_0)
    ||| (spec_opt_string_list(m, "exclude"@) is Err && e == spec_opt_string_list(
        m,
        "exclude"@,
    )->Err_0)
    ||| (spec_bool_or_false(m, "list"@) is Err && e == spec_bool_or_false(m, "list"@)->Err_0)
    ||| (spec_bool_or_false(m, "no_verify"@) is Err && e == spec_bool_or_false(
        m,
        "no_verify"@,
    )->Err_0)
    ||| (spec_bool_or_false(m, "no_metadata"@) is Err && e == spec_bool_or_false(
        m,
        "no_metadata"@,
    )->Err_0)
    ||| (spec_bool_or_false(m, "allow_dirty"@) is Err && e == spec_bool_or_false(
        m,
        "allow_dirty"@,
    )->Err_0)
    ||| (spec_bool_or_false(m, "exclude_lockfile"@) is Err && e == spec_bool_or_false(
        m,
        "exclude_lockfile"@,
    )->Err_0)
    ||| (spec_opt_string_list(m, "features"@) is Err && e == spec_opt_string_list(
        m,
        "features"@,
    )->Err_0)
    ||| (spec_opt_bool(m, "all_features"@) is Err && e == spec_opt_bool(m, "all_features"@)->Err_0)
    ||| (spec_opt_bool(m, "no_default_features"@) is Err && e == spec_opt_bool(
        m,
        "no_default_features"@,
    )->Err_0)
    ||| (spec_opt_string(m, "target"@) is Err && e == spec_opt_string(m, "target"@)->Err_0)
    ||| (spec_opt_string(m, "target_dir"@) is Err && e == spec_opt_string(m, "target_dir"@)->Err_0)
    ||| (spec_opt_u32(m, "jobs"@) is Err && e == spec_opt_u32(m, "jobs"@)->Err_0)
    ||| (spec_opt_bool(m, "keep_going"@) is Err && e == spec_opt_bool(m, "keep_going"@)->Err_0)
}

impl CargoPackageRequest {
    /// Decodes the request from raw parameters, leniently.
    pub fn decode(p: &RawParams) -> (r: Result<CargoPackageRequest, ToolError>)
        ensures
            r is Ok <==> spec_package_decode_ok(p@),
            r matches Ok(q) ==> spec_package_fields(p@, q),
            r matches Err(e) ==> spec_package_decode_err(p@, e@),
            r matches Err(e) ==> e is InvalidParameter,
    {
        let package = opt_string_list(p, "package")?;
        let workspace = opt_bool(p, "workspace")?;
        let exclude = opt_string_list(p, "exclude")?;
        let list = bool_or_false(p, "list")?;
        let skip_verify = bool_or_false(p, "no_verify")?;
        let no_metadata = bool_or_false(p, "no_metadata")?;
        let allow_dirty = bool_or_false(p, "allow_dirty")?;
        let exclude_lockfile = bool_or_false(p, "exclude_lockfile")?;
        let features = opt_string_list(p, "features")?;
        let all_features = opt_bool(p, "all_features")?;
        let no_default_features = opt_bool(p, "no_default_features")?;
        let target = opt_string(p, "target")?;
        let target_dir = opt_string(p, "target_dir")?;
        let jobs = opt_u32(p, "jobs")?;
        let keep_going = opt_bool(p, "keep_going")?;
        Ok(
            CargoPackageRequest {
                package,
                workspace,
                exclude,
                list,
                skip_verify,
                no_metadata,
                allow_dirty,
                exclude_lockfile,
                features,
                all_features,
                no_default_features,
                target,
                target_dir,
                jobs,
                keep_going,
            },
        )
    }

    /// The full argument vector of this request, in order. A
    /// present-but-empty feature list contributes nothing.
    pub open spec fn spec_args(&self) -> Seq<Seq<char>> {
        seq!["package"@] + seg_each("--package"@, self.package.deep_view()) + seg_flag(
            opt_or(self.workspace, false),
            "--workspace"@,
        ) + seg_each("--exclude"@, self.exclude.deep_view()) + seg_flag(self.list, "--list"@)
            + seg_flag(self.skip_verify, "--no-verify"@) + seg_flag(
            self.no_metadata,
            "--no-metadata"@,
        ) + seg_flag(self.allow_dirty, "--allow-dirty"@) + seg_flag(
            self.exclude_lockfile,
            "--exclude-lockfile"@,
        ) + seg_join_nonempty("--features"@, self.features.deep_view()) + seg_flag(
            opt_or(self.all_features, false),
            "--all-features"@,
        ) + seg_flag(opt_or(self.no_default_features, false), "--no-default-features"@) + seg_opt(
            "--target"@,
            self.target.deep_view(),
        ) + seg_opt("--target-dir"@, self.target_dir.deep_view()) + seg_opt_u32(
            "--jobs"@,
            self.jobs,
        ) + seg_flag(opt_or(self.keep_going, false), "--keep-going"@)
    }

    /// Builds the `cargo package` invocation; never fails.
    pub fn build_cmd(&self) -> (r: Result<Invocation, ToolError>)
        ensures
            r is Ok,
            r matches Ok(inv) ==> {
                &&& inv.program@ == "cargo"@
                &&& inv.args.deep_view() == self.spec_args()
                &&& inv.env.deep_view() == Seq::<(Seq<char>, Seq<char>)>::empty()
                &&& inv.cwd is None
            },
    {
        let mut cmd = Invocation::new("cargo");
        cmd.arg("package");
        proof {
            assert(cmd.args.deep_view() =~= seq!["package"@]);
        }
        cmd.each("--package", &self.package);
        cmd.flag_if(opt_true(&self.workspace), "--workspace");
        cmd.each("--exclude", &self.exclude);
        cmd.flag_if(self.list, "--list");
        cmd.flag_if(self.skip_verify, "--no-verify");
        cmd.flag_if(self.no_metadata, "--no-metadata");
        cmd.flag_if(self.allow_dirty, "--allow-dirty");
        cmd.flag_if(self.exclude_lockfile, "--exclude-lockfile");
        cmd.join_list_nonempty("--features", &self.features);
        cmd.flag_if(opt_true(&self.all_features), "--all-features");
        cmd.flag_if(opt_true(&self.no_default_features), "--no-default-features");
        cmd.opt("--target", &self.target);
        cmd.opt("--target-dir", &self.target_dir);
        cmd.opt_u32("--jobs", &self.jobs);
        cmd.flag_if(opt_true(&self.keep_going), "--keep-going");
        Ok(cmd)
    }
}

/// The registered `cargo-package` tool.
#[derive(Debug)]
pub struct CargoPackageRmcpTool;

impl Tool for CargoPackageRmcpTool {
    open spec fn spec_name(&self) -> Seq<char> {
        "cargo-package"@
    }

    open spec fn spec_title(&self) -> Seq<char> {
        "cargo package"@
    }

    open spec fn spec_description(&self) -> Seq<char> {
        "Assemble the local package into a distributable tarball for publishing. Validates build by default. Usually run without arguments for single-package projects."@
    }

    open spec fn spec_schema(&self) -> Seq<SchemaFieldV> {
        seq![
            field_v("package"@, FieldType::TextArray, ""@, false),
            field_v("workspace"@, FieldType::Boolean, ""@, false),
            field_v("exclude"@, FieldType::TextArray, ""@, false),
            field_v("list"@, FieldType::Boolean, ""@, false),
            field_v("no_verify"@, FieldType::Boolean, ""@, false),
            field_v("no_metadata"@, FieldType::Boolean, ""@, false),
            field_v("allow_dirty"@, FieldType::Boolean, ""@, false),
            field_v("exclude_lockfile"@, FieldType::Boolean, ""@, false),
            field_v("features"@, FieldType::TextArray, ""@, false),
            field_v("all_features"@, FieldType::Boolean, ""@, false),
            field_v("no_default_features"@, FieldType::Boolean, ""@, false),
            field_v("target"@, FieldType::Text, ""@, false),
            field_v("target_dir"@, FieldType::Text, ""@, false),
            field_v("jobs"@, FieldType::Integer, ""@, false),
            field_v("keep_going"@, FieldType::Boolean, ""@, false),
        ]
    }

    open spec fn spec_prepare_ok(&self, m: Seq<(Seq<char>, crate::json::JsonValueV)>) -> bool {
        spec_package_decode_ok(m)
    }

    open spec fn spec_prepared(
        &self,
        m: Seq<(Seq<char>, crate::json::JsonValueV)>,
        root: Option<Seq<char>>,
        pp: Prepared,
    ) -> bool {
        exists|q: CargoPackageRequest|
            #![trigger spec_package_fields(m, q)]
            {
                &&& spec_package_fields(m, q)
                &&& pp.invocation.program@ == "cargo"@
                &&& pp.invocation.args.deep_view() == q.spec_args()
                &&& pp.invocation.env.deep_view() == Seq::<(Seq<char>, Seq<char>)>::empty()
                &&& pp.invocation.cwd.deep_view() == root
                &&& pp.pending is Plain
            }
    }

    open spec fn spec_prepare_err(&self, m: Seq<(Seq<char>, crate::json::JsonValueV)>, e: ToolErrorV) -> bool {
        spec_package_decode_err(m, e)
    }

    fn name(&self) -> (r: &'static str) {
        "cargo-package"
    }

    fn title(&self) -> (r: &'static str) {
        "cargo package"
    }

    fn description(&self) -> (r: &'static str) {
        "Assemble the local package into a distributable tarball for publishing. Validates build by default. Usually run without arguments for single-package projects."
    }

    fn schema(&self) -> (r: Vec<SchemaField>) {
        let mut s: Vec<SchemaField> = Vec::new();
        push_field(&mut s, "package", FieldType::TextArray, "", false);
        push_field(&mut s, "workspace", FieldType::Boolean, "", false);
        push_field(&mut s, "exclude", FieldType::TextArray, "", false);
        push_field(&mut s, "list", FieldType::Boolean, "", false);
        push_field(&mut s, "no_verify", FieldType::Boolean, "", false);
        push_field(&mut s, "no_metadata", FieldType::Boolean, "", false);
        push_field(&mut s, "allow_dirty", FieldType::Boolean, "", false);
        push_field(&mut s, "exclude_lockfile", FieldType::Boolean, "", false);
        push_field(&mut s, "features", FieldType::TextArray, "", false);
        push_field(&mut s, "all_features", FieldType::Boolean, "", false);
        push_field(&mut s, "no_default_features", FieldType::Boolean, "", false);
        push_field(&mut s, "target", FieldType::Text, "", false);
        push_field(&mut s, "target_dir", FieldType::Text, "", false);
        push_field(&mut s, "jobs", FieldType::Integer, "", false);
        push_field(&mut s, "keep_going", FieldType::Boolean, "", false);
        proof {
            assert(s.deep_view() =~= self.spec_schema());
        }
        s
    }

    fn prepare(&self, params: &RawParams, config: &ProcessWideConfig) -> (r: Result<
        Prepared,
        ToolError,
    >) {
        let request = CargoPackageRequest::decode(params)?;
        let mut invocation = request.build_cmd()?;
        apply_workspace_root(config, &mut invocation);
        let prepared = Prepared { invocation, pending: PendingCall::Plain };
        proof {
            assert(spec_package_fields(params@, request));
            assert(self.spec_prepared(params@, config.workspace_root.deep_view(), prepared));
        }
        Ok(prepared)
    }
}

} // verus!
