//! The `cargo check` wrapper.

use vstd::prelude::*;

use crate::decode::{
    opt_bool, opt_string, opt_string_list, opt_u32, spec_opt_bool, spec_opt_string,
    spec_opt_string_list, spec_opt_u32,
};
use crate::errors::{ToolError, ToolErrorV};
use crate::invocation::{
    Invocation, ProcessWideConfig, apply_workspace_root, opt_or, opt_true, seg_each, seg_flag, seg_join, seg_opt, seg_opt_u32,
};
use crate::json::RawParams;
use crate::schema::{field_v, push_field, FieldType, SchemaField, SchemaFieldV};
use crate::tool::{PendingCall, Prepared, Tool};

verus! {

/// Checks a Rust package and all of its dependencies for errors.
#[derive(Debug)]
pub struct CargoCheckRequest {
    pub package: Option<Vec<String>>,
    pub workspace: Option<bool>,
    pub exclude: Option<Vec<String>>,
    pub lib: Option<bool>,
    pub bins: Option<bool>,
    pub bin: Option<String>,
    pub examples: Option<bool>,
    pub example: Option<String>,
    pub tests: Option<bool>,
    pub test: Option<String>,
    pub benches: Option<bool>,
    pub bench: Option<String>,
    pub all_targets: Option<bool>,
    pub features: Option<Vec<String>>,
    pub all_features: Option<bool>,
    pub no_default_features: Option<bool>,
    pub jobs: Option<u32>,
    pub keep_going: Option<bool>,
    pub release: Option<bool>,
    pub profile: Option<String>,
    pub target: Option<String>,
    pub warnings_as_errors: Option<bool>,
}

/// Every field of the request decodes.
pub open spec fn spec_check_decode_ok(m: Seq<(Seq<char>, crate::json::JsonValueV)>) -> bool {
    &&& spec_opt_string_list(m, "package"@) is Ok
    &&& spec_opt_bool(m, "workspace"@) is Ok
    &&& spec_opt_string_list(m, "exclude"@) is Ok
    &&& spec_opt_bool(m, "lib"@) is Ok
    &&& spec_opt_bool(m, "bins"@) is Ok
    &&& spec_opt_string(m, "bin"@) is Ok
    &&& spec_opt_bool(m, "examples"@) is Ok
    &&& spec_opt_string(m, "example"@) is Ok
    &&& spec_opt_bool(m, "tests"@) is Ok
    &&& spec_opt_string(m, "test"@) is Ok
    &&& spec_opt_bool(m, "benches"@) is Ok
    &&& spec_opt_string(m, "bench"@) is Ok
    &&& spec_opt_bool(m, "all_targets"@) is Ok
    &&& spec_opt_string_list(m, "features"@) is Ok
    &&& spec_opt_bool(m, "all_features"@) is Ok
    &&& spec_opt_bool(m, "no_default_features"@) is Ok
    &&& spec_opt_u32(m, "jobs"@) is Ok
    &&& spec_opt_bool(m, "keep_going"@) is Ok
    &&& spec_opt_bool(m, "release"@) is Ok
    &&& spec_opt_string(m, "profile"@) is Ok
    &&& spec_opt_string(m, "target"@) is Ok
    &&& spec_opt_bool(m, "warnings_as_errors"@) is Ok
}

/// Each field of `q` is the decoded value of its parameter.
pub open spec fn spec_check_fields(
    m: Seq<(Seq<char>, crate::json::JsonValueV)>,
    q: CargoCheckRequest,
) -> bool {
    &&& q.package.deep_view() == spec_opt_string_list(m, "package"@)->Ok_0
    &&& q.workspace == spec_opt_bool(m, "workspace"@)->Ok_0
    &&& q.exclude.deep_view() == spec_opt_string_list(m, "exclude"@)->Ok_0
    &&& q.lib == spec_opt_bool(m, "lib"@)->Ok_0
    &&& q.bins == spec_opt_bool(m, "bins"@)->Ok_0
    &&& q.bin.deep_view() == spec_opt_string(m, "bin"@)->Ok_0
    &&& q.examples == spec_opt_bool(m, "examples"@)->Ok_0
    &&& q.example.deep_view() == spec_opt_string(m, "example"@)->Ok_0
    &&& q.tests == spec_opt_bool(m, "tests"@)->Ok_0
    &&& q.test.deep_view() == spec_opt_string(m, "test"@)->Ok_0
    &&& q.benches == spec_opt_bool(m, "benches"@)->Ok_0
    &&& q.bench.deep_view() == spec_opt_string(m, "bench"@)->Ok_0
    &&& q.all_targets == spec_opt_bool(m, "all_targets"@)->Ok_0
    &&& q.features.deep_view() == spec_opt_string_list(m, "features"@)->Ok_0
    &&& q.all_features == spec_opt_bool(m, "all_features"@)->Ok_0
    &&& q.no_default_features == spec_opt_bool(m, "no_default_features"@)->Ok_0
    &&& q.jobs == spec_opt_u32(m, "jobs"@)->Ok_0
    &&& q.keep_going == spec_opt_bool(m, "keep_going"@)->Ok_0
    &&& q.release == spec_opt_bool(m, "release"@)->Ok_0
    &&& q.profile.deep_view() == spec_opt_string(m, "profile"@)->Ok_0
    &&& q.target.deep_view() == spec_opt_string(m, "target"@)->Ok_0
    &&& q.warnings_as_errors == spec_opt_bool(m, "warnings_as_errors"@)->Ok_0
}

/// `e` is the decode error of one of the fields that fail.
pub open spec fn spec_check_decode_err(
    m: Seq<(Seq<char>, crate::json::JsonValueV)>,
    e: ToolErrorV,
) -> bool {
    ||| (spec_opt_string_list(m, "package"@) is Err && e == spec_opt_string_list(
        m,
        "package"@,
    )->Err_0)
    ||| (spec_opt_bool(m, "workspace"@) is Err && e == spec_opt_bool(m, "workspace"@)->Err_0)
    ||| (spec_opt_string_list(m, "exclude"@) is Err && e == spec_opt_string_list(
        m,
        "exclude"@,
    )->Err_0)
    ||| (spec_opt_bool(m, "lib"@) is Err && e == spec_opt_bool(m, "lib"@)->Err_0)
    ||| (spec_opt_bool(m, "bins"@) is Err && e == spec_opt_bool(m, "bins"@)->Err_0)
    ||| (spec_opt_string(m, "bin"@) is Err && e == spec_opt_string(m, "bin"@)->Err_0)
    ||| (spec_opt_bool(m, "examples"@) is Err && e == spec_opt_bool(m, "examples"@)->Err_0)
    ||| (spec_opt_string(m, "example"@) is Err && e == spec_opt_string(m, "example"@)->Err_0)
    ||| (spec_opt_bool(m, "tests"@) is Err && e == spec_opt_bool(m, "tests"@)->Err_0)
    ||| (spec_opt_string(m, "test"@) is Err && e == spec_opt_string(m, "test"@)->Err_0)
    ||| (spec_opt_bool(m, "benches"@) is Err && e == spec_opt_bool(m, "benches"@)->Err_0)
    ||| (spec_opt_string(m, "bench"@) is Err && e == spec_opt_string(m, "bench"@)->Err_0)
    ||| (spec_opt_bool(m, "all_targets"@) is Err && e == spec_opt_bool(m, "all_targets"@)->Err_0)
    ||| (spec_opt_string_list(m, "features"@) is Err && e == spec_opt_string_list(
        m,
        "features"@,
    )->Err_0)
    ||| (spec_opt_bool(m, "all_features"@) is Err && e == spec_opt_bool(m, "all_features"@)->Err_0)
    ||| (spec_opt_bool(m, "no_default_features"@) is Err && e == spec_opt_bool(
        m,
        "no_default_features"@,
    )->Err_0)
    ||| (spec_opt_u32(m, "jobs"@) is Err && e == spec_opt_u32(m, "jobs"@)->Err_0)
    ||| (spec_opt_bool(m, "keep_going"@) is Err && e == spec_opt_bool(m, "keep_going"@)->Err_0)
    ||| (spec_opt_bool(m, "release"@) is Err && e == spec_opt_bool(m, "release"@)->Err_0)
    ||| (spec_opt_string(m, "profile"@) is Err && e == spec_opt_string(m, "profile"@)->Err_0)
    ||| (spec_opt_string(m, "target"@) is Err && e == spec_opt_string(m, "target"@)->Err_0)
    ||| (spec_opt_bool(m, "warnings_as_errors"@) is Err && e == spec_opt_bool(
        m,
        "warnings_as_errors"@,
    )->Err_0)
}

impl CargoCheckRequest {
    /// Decodes the request from raw parameters, leniently.
    pub fn decode(p: &RawParams) -> (r: Result<CargoCheckRequest, ToolError>)
        ensures
            r is Ok <==> spec_check_decode_ok(p@),
            r matches Ok(q) ==> spec_check_fields(p@, q),
            r matches Err(e) ==> spec_check_decode_err(p@, e@),
            r matches Err(e) ==> e is InvalidParameter,
    {
        let package = opt_string_list(p, "package")?;
        let workspace = opt_bool(p, "workspace")?;
        let exclude = opt_string_list(p, "exclude")?;
        let lib = opt_bool(p, "lib")?;
        let bins = opt_bool(p, "bins")?;
        let bin = opt_string(p, "bin")?;
        let examples = opt_bool(p, "examples")?;
        let example = opt_string(p, "example")?;
        let tests = opt_bool(p, "tests")?;
        let test = opt_string(p, "test")?;
        let benches = opt_bool(p, "benches")?;
        let bench = opt_string(p, "bench")?;
        let all_targets = opt_bool(p, "all_targets")?;
        let features = opt_string_list(p, "features")?;
        let all_features = opt_bool(p, "all_features")?;
        let no_default_features = opt_bool(p, "no_default_features")?;
        let jobs = opt_u32(p, "jobs")?;
        let keep_going = opt_bool(p, "keep_going")?;
        let release = opt_bool(p, "release")?;
        let profile = opt_string(p, "profile")?;
        let target = opt_string(p, "target")?;
        let warnings_as_errors = opt_bool(p, "warnings_as_errors")?;
        Ok(
            CargoCheckRequest {
                package,
                workspace,
                exclude,
                lib,
                bins,
                bin,
                examples,
                example,
                tests,
                test,
                benches,
                bench,
                all_targets,
                features,
                all_features,
                no_default_features,
                jobs,
                keep_going,
                release,
                profile,
                target,
                warnings_as_errors,
            },
        )
    }

    /// The full argument vector of this request, in order.
    pub open spec fn spec_args(&self) -> Seq<Seq<char>> {
        seq!["check"@] + seg_each("--package"@, self.package.deep_view()) + seg_flag(
            opt_or(self.workspace, false),
            "--workspace"@,
        ) + seg_each("--exclude"@, self.exclude.deep_view()) + seg_flag(
            opt_or(self.lib, false),
            "--lib"@,
        ) + seg_flag(opt_or(self.bins, false), "--bins"@) + seg_opt("--bin"@, self.bin.deep_view())
            + seg_flag(opt_or(self.examples, false), "--examples"@) + seg_opt(
            "--example"@,
            self.example.deep_view(),
        ) + seg_flag(opt_or(self.tests, false), "--tests"@) + seg_opt(
            "--test"@,
            self.test.deep_view(),
        ) + seg_flag(opt_or(self.benches, false), "--benches"@) + seg_opt(
            "--bench"@,
            self.bench.deep_view(),
        ) + seg_flag(opt_or(self.all_targets, false), "--all-targets"@) + seg_join(
            "--features"@,
            self.features.deep_view(),
        ) + seg_flag(opt_or(self.all_features, false), "--all-features"@) + seg_flag(
            opt_or(self.no_default_features, false),
            "--no-default-features"@,
        ) + seg_opt_u32("--jobs"@, self.jobs) + seg_flag(
            opt_or(self.keep_going, false),
            "--keep-going"@,
        ) + seg_flag(opt_or(self.release, false), "--release"@) + seg_opt(
            "--profile"@,
            self.profile.deep_view(),
        ) + seg_opt("--target"@, self.target.deep_view())
    }

    /// The environment overrides of this request.
    pub open spec fn spec_env(&self) -> Seq<(Seq<char>, Seq<char>)> {
        if opt_or(self.warnings_as_errors, false) {
            seq![("RUSTFLAGS"@, "-D warnings"@)]
        } else {
            Seq::<(Seq<char>, Seq<char>)>::empty()
        }
    }

    /// Builds the `cargo check` invocation; never fails.
    pub fn build_cmd(&self) -> (r: Result<Invocation, ToolError>)
        ensures
            r is Ok,
            r matches Ok(inv) ==> {
                &&& inv.program@ == "cargo"@
                &&& inv.args.deep_view() == self.spec_args()
                &&& inv.env.deep_view() == self.spec_env()
                &&& inv.cwd is None
            },
    {
        let mut cmd = Invocation::new("cargo");
        cmd.arg("check");
        proof {
            assert(cmd.args.deep_view() =~= seq!["check"@]);
        }
        cmd.each("--package", &self.package);
        cmd.flag_if(opt_true(&self.workspace), "--workspace");
        cmd.each("--exclude", &self.exclude);
        cmd.flag_if(opt_true(&self.lib), "--lib");
        cmd.flag_if(opt_true(&self.bins), "--bins");
        cmd.opt("--bin", &self.bin);
        cmd.flag_if(opt_true(&self.examples), "--examples");
        cmd.opt("--example", &self.example);
        cmd.flag_if(opt_true(&self.tests), "--tests");
        cmd.opt("--test", &self.test);
        cmd.flag_if(opt_true(&self.benches), "--benches");
        cmd.opt("--bench", &self.bench);
        cmd.flag_if(opt_true(&self.all_targets), "--all-targets");
        cmd.join_list("--features", &self.features);
        cmd.flag_if(opt_true(&self.all_features), "--all-features");
        cmd.flag_if(opt_true(&self.no_default_features), "--no-default-features");
        cmd.opt_u32("--jobs", &self.jobs);
        cmd.flag_if(opt_true(&self.keep_going), "--keep-going");
        cmd.flag_if(opt_true(&self.release), "--release");
        cmd.opt("--profile", &self.profile);
        cmd.opt("--target", &self.target);
        cmd.env_if(opt_true(&self.warnings_as_errors), "RUSTFLAGS", "-D warnings");
        Ok(cmd)
    }
}

/// The registered `cargo-check` tool.
#[derive(Debug)]
pub struct CargoCheckRmcpTool;

impl Tool for CargoCheckRmcpTool {
    open spec fn spec_name(&self) -> Seq<char> {
        "cargo-check"@
    }

    open spec fn spec_title(&self) -> Seq<char> {
        "cargo check"@
    }

    open spec fn spec_description(&self) -> Seq<char> {
        "Checks a Rust package and all of its dependencies for errors. Usually, run without any additional arguments."@
    }

    open spec fn spec_schema(&self) -> Seq<SchemaFieldV> {
        seq![
            field_v("package"@, FieldType::TextArray, ""@, false),
            field_v("workspace"@, FieldType::Boolean, ""@, false),
            field_v("exclude"@, FieldType::TextArray, ""@, false),
            field_v("lib"@, FieldType::Boolean, ""@, false),
            field_v("bins"@, FieldType::Boolean, ""@, false),
            field_v("bin"@, FieldType::Text, ""@, false),
            field_v("examples"@, FieldType::Boolean, ""@, false),
            field_v("example"@, FieldType::Text, ""@, false),
            field_v("tests"@, FieldType::Boolean, ""@, false),
            field_v("test"@, FieldType::Text, ""@, false),
            field_v("benches"@, FieldType::Boolean, ""@, false),
            field_v("bench"@, FieldType::Text, ""@, false),
            field_v("all_targets"@, FieldType::Boolean, ""@, false),
            field_v("features"@, FieldType::TextArray, ""@, false),
            field_v("all_features"@, FieldType::Boolean, ""@, false),
            field_v("no_default_features"@, FieldType::Boolean, ""@, false),
            field_v("jobs"@, FieldType::Integer, ""@, false),
            field_v("keep_going"@, FieldType::Boolean, ""@, false),
            field_v("release"@, FieldType::Boolean, ""@, false),
            field_v("profile"@, FieldType::Text, ""@, false),
            field_v("target"@, FieldType::Text, ""@, false),
            field_v("warnings_as_errors"@, FieldType::Boolean, ""@, false),
        ]
    }

    open spec fn spec_prepare_ok(&self, m: Seq<(Seq<char>, crate::json::JsonValueV)>) -> bool {
        spec_check_decode_ok(m)
    }

    open spec fn spec_prepared(
        &self,
        m: Seq<(Seq<char>, crate::json::JsonValueV)>,
        root: Option<Seq<char>>,
        pp: Prepared,
    ) -> bool {
        exists|q: CargoCheckRequest|
            #![trigger spec_check_fields(m, q)]
            {
                &&& spec_check_fields(m, q)
                &&& pp.invocation.program@ == "cargo"@
                &&& pp.invocation.args.deep_view() == q.spec_args()
                &&& pp.invocation.env.deep_view() == q.spec_env()
                &&& pp.invocation.cwd.deep_view() == root
                &&& pp.pending is Plain
            }
    }

    open spec fn spec_prepare_err(&self, m: Seq<(Seq<char>, crate::json::JsonValueV)>, e: ToolErrorV) -> bool {
        spec_check_decode_err(m, e)
    }

    fn name(&self) -> (r: &'static str) {
        "cargo-check"
    }

    fn title(&self) -> (r: &'static str) {
        "cargo check"
    }

    fn description(&self) -> (r: &'static str) {
        "Checks a Rust package and all of its dependencies for errors. Usually, run without any additional arguments."
    }

    fn schema(&self) -> (r: Vec<SchemaField>) {
        let mut s: Vec<SchemaField> = Vec::new();
        push_field(&mut s, "package", FieldType::TextArray, "", false);
        push_field(&mut s, "workspace", FieldType::Boolean, "", false);
        push_field(&mut s, "exclude", FieldType::TextArray, "", false);
        push_field(&mut s, "lib", FieldType::Boolean, "", false);
        push_field(&mut s, "bins", FieldType::Boolean, "", false);
        push_field(&mut s, "bin", FieldType::Text, "", false);
        push_field(&mut s, "examples", FieldType::Boolean, "", false);
        push_field(&mut s, "example", FieldType::Text, "", false);
        push_field(&mut s, "tests", FieldType::Boolean, "", false);
        push_field(&mut s, "test", FieldType::Text, "", false);
        push_field(&mut s, "benches", FieldType::Boolean, "", false);
        push_field(&mut s, "bench", FieldType::Text, "", false);
        push_field(&mut s, "all_targets", FieldType::Boolean, "", false);
        push_field(&mut s, "features", FieldType::TextArray, "", false);
        push_field(&mut s, "all_features", FieldType::Boolean, "", false);
        push_field(&mut s, "no_default_features", FieldType::Boolean, "", false);
        push_field(&mut s, "jobs", FieldType::Integer, "", false);
        push_field(&mut s, "keep_going", FieldType::Boolean, "", false);
        push_field(&mut s, "release", FieldType::Boolean, "", false);
        push_field(&mut s, "profile", FieldType::Text, "", false);
        push_field(&mut s, "target", FieldType::Text, "", false);
        push_field(&mut s, "warnings_as_errors", FieldType::Boolean, "", false);
        proof {
            assert(s.deep_view() =~= self.spec_schema());
        }
        s
    }

    fn prepare(&self, params: &RawParams, config: &ProcessWideConfig) -> (r: Result<
        Prepared,
        ToolError,
    >) {
        let request = CargoCheckRequest::decode(params)?;
        let mut invocation = request.build_cmd()?;
        apply_workspace_root(config, &mut invocation);
        let prepared = Prepared { invocation, pending: PendingCall::Plain };
        proof {
            assert(spec_check_fields(params@, request));
            assert(self.spec_prepared(params@, config.workspace_root.deep_view(), prepared));
        }
        Ok(prepared)
    }
}

} // verus!
