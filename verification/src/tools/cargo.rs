//! The smaller `cargo` subcommand wrappers: generate-lockfile, clean,
//! fmt, new, and the subcommand listing.

use vstd::prelude::*;

use crate::decode::{
    bool_or_false, opt_bool, opt_string, opt_string_list, req_string, spec_bool_or_false,
    spec_opt_bool, spec_opt_string, spec_opt_string_list, spec_req_string,
};
use crate::errors::{ToolError, ToolErrorV};
use crate::invocation::{
    Invocation, ProcessWideConfig, apply_workspace_root, opt_or, opt_true, seg_each, seg_flag, seg_opt,
};
use crate::json::RawParams;
use crate::schema::{field_v, push_field, FieldType, SchemaField, SchemaFieldV};
use crate::tool::{PendingCall, Prepared, Tool};

verus! {

/// Generates or updates the Cargo.lock file for a Rust project.
#[derive(Debug)]
pub struct CargoGenerateLockfileRequest {
    pub ignore_rust_version: Option<bool>,
}

impl CargoGenerateLockfileRequest {
    /// Decodes the request from raw parameters.
    pub fn decode(p: &RawParams) -> (r: Result<CargoGenerateLockfileRequest, ToolError>)
        ensures
            r is Ok <==> spec_opt_bool(p@, "ignore_rust_version"@) is Ok,
            r matches Ok(q) ==> q.ignore_rust_version == spec_opt_bool(
                p@,
                "ignore_rust_version"@,
            )->Ok_0,
            r matches Err(e) ==> spec_opt_bool(p@, "ignore_rust_version"@) == Err::<
                Option<bool>,
                ToolErrorV,
            >(e@),
            r matches Err(e) ==> e is InvalidParameter,
    {
        let ignore_rust_version = opt_bool(p, "ignore_rust_version")?;
        Ok(CargoGenerateLockfileRequest { ignore_rust_version })
    }

    /// Builds the `cargo generate-lockfile` invocation; never fails.
    pub fn build_cmd(&self) -> (r: Result<Invocation, ToolError>)
        ensures
            r is Ok,
            r matches Ok(inv) ==> {
                &&& inv.program@ == "cargo"@
                &&& inv.args.deep_view() == seq!["generate-lockfile"@] + seg_flag(
                    opt_or(self.ignore_rust_version, false),
                    "--ignore-rust-version"@,
                )
                &&& inv.env.deep_view() == Seq::<(Seq<char>, Seq<char>)>::empty()
                &&& inv.cwd is None
            },
    {
        let mut cmd = Invocation::new("cargo");
        cmd.arg("generate-lockfile");
        proof {
            assert(cmd.args.deep_view() =~= seq!["generate-lockfile"@]);
        }
        cmd.flag_if(opt_true(&self.ignore_rust_version), "--ignore-rust-version");
        Ok(cmd)
    }
}

/// Cleans the target directory for a Rust project.
#[derive(Debug)]
pub struct CargoCleanRequest {
    pub package: Option<Vec<String>>,
    pub profile: Option<String>,
    pub doc: Option<bool>,
    pub dry_run: Option<bool>,
    pub release: Option<bool>,
    pub target: Option<String>,
}

/// Every field of the request decodes.
pub open spec fn spec_clean_decode_ok(m: Seq<(Seq<char>, crate::json::JsonValueV)>) -> bool {
    &&& spec_opt_string_list(m, "package"@) is Ok
    &&& spec_opt_string(m, "profile"@) is Ok
    &&& spec_opt_bool(m, "doc"@) is Ok
    &&& spec_opt_bool(m, "dry_run"@) is Ok
    &&& spec_opt_bool(m, "release"@) is Ok
    &&& spec_opt_string(m, "target"@) is Ok
}

/// Each field of `q` is the decoded value of its parameter.
pub open spec fn spec_clean_fields(
    m: Seq<(Seq<char>, crate::json::JsonValueV)>,
    q: CargoCleanRequest,
) -> bool {
    &&& q.package.deep_view() == spec_opt_string_list(m, "package"@)->Ok_0
    &&& q.profile.deep_view() == spec_opt_string(m, "profile"@)->Ok_0
    &&& q.doc == spec_opt_bool(m, "doc"@)->Ok_0
    &&& q.dry_run == spec_opt_bool(m, "dry_run"@)->Ok_0
    &&& q.release == spec_opt_bool(m, "release"@)->Ok_0
    &&& q.target.deep_view() == spec_opt_string(m, "target"@)->Ok_0
}

/// `e` is the decode error of one of the fields that fail.
pub open spec fn spec_clean_decode_err(
    m: Seq<(Seq<char>, crate::json::JsonValueV)>,
    e: ToolErrorV,
) -> bool {
    ||| (spec_opt_string_list(m, "package"@) is Err && e == spec_opt_string_list(
        m,
        "package"@,
    )->Err_0)
    ||| (spec_opt_string(m, "profile"@) is Err && e == spec_opt_string(m, "profile"@)->Err_0)
    ||| (spec_opt_bool(m, "doc"@) is Err && e == spec_opt_bool(m, "doc"@)->Err_0)
    ||| (spec_opt_bool(m, "dry_run"@) is Err && e == spec_opt_bool(m, "dry_run"@)->Err_0)
    ||| (spec_opt_bool(m, "release"@) is Err && e == spec_opt_bool(m, "release"@)->Err_0)
    ||| (spec_opt_string(m, "target"@) is Err && e == spec_opt_string(m, "target"@)->Err_0)
}

impl CargoCleanRequest {
    /// Decodes the request from raw parameters, leniently.
    pub fn decode(p: &RawParams) -> (r: Result<CargoCleanRequest, ToolError>)
        ensures
            r is Ok <==> spec_clean_decode_ok(p@),
            r matches Ok(q) ==> spec_clean_fields(p@, q),
            r matches Err(e) ==> spec_clean_decode_err(p@, e@),
            r matches Err(e) ==> e is InvalidParameter,
    {
        let package = opt_string_list(p, "package")?;
        let profile = opt_string(p, "profile")?;
        let doc = opt_bool(p, "doc")?;
        let dry_run = opt_bool(p, "dry_run")?;
        let release = opt_bool(p, "release")?;
        let target = opt_string(p, "target")?;
        Ok(CargoCleanRequest { package, profile, doc, dry_run, release, target })
    }

    /// The full argument vector of this request, in order.
    pub open spec fn spec_args(&self) -> Seq<Seq<char>> {
        seq!["clean"@] + seg_each("--package"@, self.package.deep_view()) + seg_opt(
            "--profile"@,
            self.profile.deep_view(),
        ) + seg_flag(opt_or(self.doc, false), "--doc"@) + seg_flag(
            opt_or(self.dry_run, false),
            "--dry-run"@,
        ) + seg_flag(opt_or(self.release, false), "--release"@) + seg_opt(
            "--target"@,
            self.target.deep_view(),
        )
    }

    /// Builds the `cargo clean` invocation; never fails.
    pub fn build_cmd(&self) -> (r: Result<Invocation, ToolError>)
        ensures
            r is Ok,
            r matches Ok(inv) ==> {
                &&& inv.program@ == "cargo"@
                &&& inv.args.deep_view() == self.spec_args()
                &&& inv.env.deep_view() == Seq::<(Seq<char>, Seq<char>)>::empty()
                &&& inv.cwd is None
            },
    {
        let mut cmd = Invocation::new("cargo");
        cmd.arg("clean");
        proof {
            assert(cmd.args.deep_view() =~= seq!["clean"@]);
        }
        cmd.each("--package", &self.package);
        cmd.opt("--profile", &self.profile);
        cmd.flag_if(opt_true(&self.doc), "--doc");
        cmd.flag_if(opt_true(&self.dry_run), "--dry-run");
        cmd.flag_if(opt_true(&self.release), "--release");
        cmd.opt("--target", &self.target);
        Ok(cmd)
    }
}

/// Formats Rust code using rustfmt.
#[derive(Debug)]
pub struct CargoFmtRequest {
    pub package: Option<Vec<String>>,
    pub all: bool,
    pub check: bool,
    pub message_format: Option<String>,
}

/// Every field of the request decodes.
pub open spec fn spec_fmt_decode_ok(m: Seq<(Seq<char>, crate::json::JsonValueV)>) -> bool {
    &&& spec_opt_string_list(m, "package"@) is Ok
    &&& spec_bool_or_false(m, "all"@) is Ok
    &&& spec_bool_or_false(m, "check"@) is Ok
    &&& spec_opt_string(m, "message_format"@) is Ok
}

/// Each field of `q` is the decoded value of its parameter.
pub open spec fn spec_fmt_fields(
    m: Seq<(Seq<char>, crate::json::JsonValueV)>,
    q: CargoFmtRequest,
) -> bool {
    &&& q.package.deep_view() == spec_opt_string_list(m, "package"@)->Ok_0
    &&& q.all == spec_bool_or_false(m, "all"@)->Ok_0
    &&& q.check == spec_bool_or_false(m, "check"@)->Ok_0
    &&& q.message_format.deep_view() == spec_opt_string(m, "message_format"@)->Ok_0
}

/// `e` is the decode error of one of the fields that fail.
pub open spec fn spec_fmt_decode_err(
    m: Seq<(Seq<char>, crate::json::JsonValueV)>,
    e: ToolErrorV,
) -> bool {
    ||| (spec_opt_string_list(m, "package"@) is Err && e == spec_opt_string_list(
        m,
        "package"@,
    )->Err_0)
    ||| (spec_bool_or_false(m, "all"@) is Err && e == spec_bool_or_false(m, "all"@)->Err_0)
    ||| (spec_bool_or_false(m, "check"@) is Err && e == spec_bool_or_false(m, "check"@)->Err_0)
    ||| (spec_opt_string(m, "message_format"@) is Err && e == spec_opt_string(
        m,
        "message_format"@,
    )->Err_0)
}

impl CargoFmtRequest {
    /// Decodes the request from raw parameters, leniently.
    pub fn decode(p: &RawParams) -> (r: Result<CargoFmtRequest, ToolError>)
        ensures
            r is Ok <==> spec_fmt_decode_ok(p@),
            r matches Ok(q) ==> spec_fmt_fields(p@, q),
            r matches Err(e) ==> spec_fmt_decode_err(p@, e@),
            r matches Err(e) ==> e is InvalidParameter,
    {
        let package = opt_string_list(p, "package")?;
        let all = bool_or_false(p, "all")?;
        let check = bool_or_false(p, "check")?;
        let message_format = opt_string(p, "message_format")?;
        Ok(CargoFmtRequest { package, all, check, message_format })
    }

    /// The full argument vector of this request, in order.
    pub open spec fn spec_args(&self) -> Seq<Seq<char>> {
        seq!["fmt"@] + seg_each("--package"@, self.package.deep_view()) + seg_flag(
            self.all,
            "--all"@,
        ) + seg_flag(self.check, "--check"@) + seg_opt(
            "--message-format"@,
            self.message_format.deep_view(),
        )
    }

    /// Builds the `cargo fmt` invocation; never fails.
    pub fn build_cmd(&self) -> (r: Result<Invocation, ToolError>)
        ensures
            r is Ok,
            r matches Ok(inv) ==> {
                &&& inv.program@ == "cargo"@
                &&& inv.args.deep_view() == self.spec_args()
                &&& inv.env.deep_view() == Seq::<(Seq<char>, Seq<char>)>::empty()
                &&& inv.cwd is None
            },
    {
        let mut cmd = Invocation::new("cargo");
        cmd.arg("fmt");
        proof {
            assert(cmd.args.deep_view() =~= seq!["fmt"@]);
        }
        cmd.each("--package", &self.package);
        cmd.flag_if(self.all, "--all");
        cmd.flag_if(self.check, "--check");
        cmd.opt("--message-format", &self.message_format);
        Ok(cmd)
    }
}

/// Creates a new cargo package at the given path.
#[derive(Debug)]
pub struct CargoNewRequest {
    pub path: String,
    pub name: Option<String>,
    pub bin: bool,
    pub lib: Option<bool>,
    pub edition: Option<String>,
    pub vcs: Option<String>,
    pub registry: Option<String>,
}

/// Every field of the request decodes.
pub open spec fn spec_new_decode_ok(m: Seq<(Seq<char>, crate::json::JsonValueV)>) -> bool {
    &&& spec_req_string(m, "path"@) is Ok
    &&& spec_opt_string(m, "name"@) is Ok
    &&& spec_bool_or_false(m, "bin"@) is Ok
    &&& spec_opt_bool(m, "lib"@) is Ok
    &&& spec_opt_string(m, "edition"@) is Ok
    &&& spec_opt_string(m, "vcs"@) is Ok
    &&& spec_opt_string(m, "registry"@) is Ok
}

/// Each field of `q` is the decoded value of its parameter.
pub open spec fn spec_new_fields(
    m: Seq<(Seq<char>, crate::json::JsonValueV)>,
    q: CargoNewRequest,
) -> bool {
    &&& q.path@ == spec_req_string(m, "path"@)->Ok_0
    &&& q.name.deep_view() == spec_opt_string(m, "name"@)->Ok_0
    &&& q.bin == spec_bool_or_false(m, "bin"@)->Ok_0
    &&& q.lib == spec_opt_bool(m, "lib"@)->Ok_0
    &&& q.edition.deep_view() == spec_opt_string(m, "edition"@)->Ok_0
    &&& q.vcs.deep_view() == spec_opt_string(m, "vcs"@)->Ok_0
    &&& q.registry.deep_view() == spec_opt_string(m, "registry"@)->Ok_0
}

/// `e` is the decode error of one of the fields that fail.
pub open spec fn spec_new_decode_err(
    m: Seq<(Seq<char>, crate::json::JsonValueV)>,
    e: ToolErrorV,
) -> bool {
    ||| (spec_req_string(m, "path"@) is Err && e == spec_req_string(m, "path"@)->Err_0)
    ||| (spec_opt_string(m, "name"@) is Err && e == spec_opt_string(m, "name"@)->Err_0)
    ||| (spec_bool_or_false(m, "bin"@) is Err && e == spec_bool_or_false(m, "bin"@)->Err_0)
    ||| (spec_opt_bool(m, "lib"@) is Err && e == spec_opt_bool(m, "lib"@)->Err_0)
    ||| (spec_opt_string(m, "edition"@) is Err && e == spec_opt_string(m, "edition"@)->Err_0)
    ||| (spec_opt_string(m, "vcs"@) is Err && e == spec_opt_string(m, "vcs"@)->Err_0)
    ||| (spec_opt_string(m, "registry"@) is Err && e == spec_opt_string(m, "registry"@)->Err_0)
}

impl CargoNewRequest {
    /// Decodes the request from raw parameters; `path` is required.
    pub fn decode(p: &RawParams) -> (r: Result<CargoNewRequest, ToolError>)
        ensures
            r is Ok <==> spec_new_decode_ok(p@),
            r matches Ok(q) ==> spec_new_fields(p@, q),
            r matches Err(e) ==> spec_new_decode_err(p@, e@),
            r matches Err(e) ==> e is InvalidParameter,
    {
        let path = req_string(p, "path")?;
        let name = opt_string(p, "name")?;
        let bin = bool_or_false(p, "bin")?;
        let lib = opt_bool(p, "lib")?;
        let edition = opt_string(p, "edition")?;
        let vcs = opt_string(p, "vcs")?;
        let registry = opt_string(p, "registry")?;
        Ok(CargoNewRequest { path, name, bin, lib, edition, vcs, registry })
    }

    /// The full argument vector of this request, in order.
    pub open spec fn spec_args(&self) -> Seq<Seq<char>> {
        seq!["new"@, self.path@] + seg_flag(self.bin, "--bin"@) + seg_flag(
            opt_or(self.lib, false),
            "--lib"@,
        ) + seg_opt("--name"@, self.name.deep_view()) + seg_opt(
            "--edition"@,
            self.edition.deep_view(),
        ) + seg_opt("--registry"@, self.registry.deep_view()) + seg_opt(
            "--vcs"@,
            self.vcs.deep_view(),
        )
    }

    /// Builds the `cargo new` invocation; never fails.
    pub fn build_cmd(&self) -> (r: Result<Invocation, ToolError>)
        ensures
            r is Ok,
            r matches Ok(inv) ==> {
                &&& inv.program@ == "cargo"@
                &&& inv.args.deep_view() == self.spec_args()
                &&& inv.env.deep_view() == Seq::<(Seq<char>, Seq<char>)>::empty()
                &&& inv.cwd is None
            },
    {
        let mut cmd = Invocation::new("cargo");
        cmd.arg("new");
        cmd.arg(self.path.as_str());
        proof {
            assert(cmd.args.deep_view() =~= seq!["new"@, self.path@]);
        }
        cmd.flag_if(self.bin, "--bin");
        cmd.flag_if(opt_true(&self.lib), "--lib");
        cmd.opt("--name", &self.name);
        cmd.opt("--edition", &self.edition);
        cmd.opt("--registry", &self.registry);
        cmd.opt("--vcs", &self.vcs);
        Ok(cmd)
    }
}

/// Lists installed cargo subcommands.
#[derive(Debug)]
pub struct CargoListRequest {}

impl CargoListRequest {
    /// Decodes the (empty) request.
    pub fn decode(_p: &RawParams) -> (r: Result<CargoListRequest, ToolError>)
        ensures
            r is Ok,
    {
        Ok(CargoListRequest {  })
    }

    /// Builds the `cargo --list` invocation; never fails.
    pub fn build_cmd(&self) -> (r: Result<Invocation, ToolError>)
        ensures
            r is Ok,
            r matches Ok(inv) ==> {
                &&& inv.program@ == "cargo"@
                &&& inv.args.deep_view() == seq!["--list"@]
                &&& inv.env.deep_view() == Seq::<(Seq<char>, Seq<char>)>::empty()
                &&& inv.cwd is None
            },
    {
        let mut cmd = Invocation::new("cargo");
        cmd.arg("--list");
        proof {
            assert(cmd.args.deep_view() =~= seq!["--list"@]);
        }
        Ok(cmd)
    }
}

/// The registered `cargo-generate_lockfile` tool.
#[derive(Debug)]
pub struct CargoGenerateLockfileRmcpTool;

impl Tool for CargoGenerateLockfileRmcpTool {
    open spec fn spec_name(&self) -> Seq<char> {
        "cargo-generate_lockfile"@
    }

    open spec fn spec_title(&self) -> Seq<char> {
        "Generate Cargo.lock"@
    }

    open spec fn spec_description(&self) -> Seq<char> {
        "Generates or updates the Cargo.lock file for a Rust project. Usually, run without any additional arguments."@
    }

    open spec fn spec_schema(&self) -> Seq<SchemaFieldV> {
        seq![
            field_v("ignore_rust_version"@, FieldType::Boolean, ""@, false),
        ]
    }

    open spec fn spec_prepare_ok(&self, m: Seq<(Seq<char>, crate::json::JsonValueV)>) -> bool {
        spec_opt_bool(m, "ignore_rust_version"@) is Ok
    }

    open spec fn spec_prepared(
        &self,
        m: Seq<(Seq<char>, crate::json::JsonValueV)>,
        root: Option<Seq<char>>,
        pp: Prepared,
    ) -> bool {
        &&& pp.invocation.program@ == "cargo"@
        &&& pp.invocation.args.deep_view() == seq!["generate-lockfile"@] + seg_flag(
            opt_or(spec_opt_bool(m, "ignore_rust_version"@)->Ok_0, false),
            "--ignore-rust-version"@,
        )
        &&& pp.invocation.env.deep_view() == Seq::<(Seq<char>, Seq<char>)>::empty()
        &&& pp.invocation.cwd.deep_view() == root
        &&& pp.pending is Plain
    }

    open spec fn spec_prepare_err(&self, m: Seq<(Seq<char>, crate::json::JsonValueV)>, e: ToolErrorV) -> bool {
        spec_opt_bool(m, "ignore_rust_version"@) is Err && e == spec_opt_bool(
            m,
            "ignore_rust_version"@,
        )->Err_0
    }

    fn name(&self) -> (r: &'static str) {
        "cargo-generate_lockfile"
    }

    fn title(&self) -> (r: &'static str) {
        "Generate Cargo.lock"
    }

    fn description(&self) -> (r: &'static str) {
        "Generates or updates the Cargo.lock file for a Rust project. Usually, run without any additional arguments."
    }

    fn schema(&self) -> (r: Vec<SchemaField>) {
        let mut s: Vec<SchemaField> = Vec::new();
        push_field(&mut s, "ignore_rust_version", FieldType::Boolean, "", false);
        proof {
            assert(s.deep_view() =~= self.spec_schema());
        }
        s
    }

    fn prepare(&self, params: &RawParams, config: &ProcessWideConfig) -> (r: Result<
        Prepared,
        ToolError,
    >) {
        let request = CargoGenerateLockfileRequest::decode(params)?;
        let mut invocation = request.build_cmd()?;
        apply_workspace_root(config, &mut invocation);
        Ok(Prepared { invocation, pending: PendingCall::Plain })
    }
}

/// The registered `cargo-clean` tool.
#[derive(Debug)]
pub struct CargoCleanRmcpTool;

impl Tool for CargoCleanRmcpTool {
    open spec fn spec_name(&self) -> Seq<char> {
        "cargo-clean"@
    }

    open spec fn spec_title(&self) -> Seq<char> {
        "Clean Cargo artifacts"@
    }

    open spec fn spec_description(&self) -> Seq<char> {
        "Cleans the target directory for a Rust project using Cargo. By default, it cleans the entire workspace."@
    }

    open spec fn spec_schema(&self) -> Seq<SchemaFieldV> {
        seq![
            field_v("package"@, FieldType::TextArray, ""@, false),
            field_v("profile"@, FieldType::Text, ""@, false),
            field_v("doc"@, FieldType::Boolean, ""@, false),
            field_v("dry_run"@, FieldType::Boolean, ""@, false),
            field_v("release"@, FieldType::Boolean, ""@, false),
            field_v("target"@, FieldType::Text, ""@, false),
        ]
    }

    open spec fn spec_prepare_ok(&self, m: Seq<(Seq<char>, crate::json::JsonValueV)>) -> bool {
        spec_clean_decode_ok(m)
    }

    open spec fn spec_prepared(
        &self,
        m: Seq<(Seq<char>, crate::json::JsonValueV)>,
        root: Option<Seq<char>>,
        pp: Prepared,
    ) -> bool {
        exists|q: CargoCleanRequest|
            #![trigger spec_clean_fields(m, q)]
            {
                &&& spec_clean_fields(m, q)
                &&& pp.invocation.program@ == "cargo"@
                &&& pp.invocation.args.deep_view() == q.spec_args()
                &&& pp.invocation.env.deep_view() == Seq::<(Seq<char>, Seq<char>)>::empty()
                &&& pp.invocation.cwd.deep_view() == root
                &&& pp.pending is Plain
            }
    }

    open spec fn spec_prepare_err(&self, m: Seq<(Seq<char>, crate::json::JsonValueV)>, e: ToolErrorV) -> bool {
        spec_clean_decode_err(m, e)
    }

    fn name(&self) -> (r: &'static str) {
        "cargo-clean"
    }

    fn title(&self) -> (r: &'static str) {
        "Clean Cargo artifacts"
    }

    fn description(&self) -> (r: &'static str) {
        "Cleans the target directory for a Rust project using Cargo. By default, it cleans the entire workspace."
    }

    fn schema(&self) -> (r: Vec<SchemaField>) {
        let mut s: Vec<SchemaField> = Vec::new();
        push_field(&mut s, "package", FieldType::TextArray, "", false);
        push_field(&mut s, "profile", FieldType::Text, "", false);
        push_field(&mut s, "doc", FieldType::Boolean, "", false);
        push_field(&mut s, "dry_run", FieldType::Boolean, "", false);
        push_field(&mut s, "release", FieldType::Boolean, "", false);
        push_field(&mut s, "target", FieldType::Text, "", false);
        proof {
            assert(s.deep_view() =~= self.spec_schema());
        }
        s
    }

    fn prepare(&self, params: &RawParams, config: &ProcessWideConfig) -> (r: Result<
        Prepared,
        ToolError,
    >) {
        let request = CargoCleanRequest::decode(params)?;
        let mut invocation = request.build_cmd()?;
        apply_workspace_root(config, &mut invocation);
        let prepared = Prepared { invocation, pending: PendingCall::Plain };
        proof {
            assert(spec_clean_fields(params@, request));
            assert(self.spec_prepared(params@, config.workspace_root.deep_view(), prepared));
        }
        Ok(prepared)
    }
}

/// The registered `cargo-fmt` tool.
#[derive(Debug)]
pub struct CargoFmtRmcpTool;

impl Tool for CargoFmtRmcpTool {
    open spec fn spec_name(&self) -> Seq<char> {
        "cargo-fmt"@
    }

    open spec fn spec_title(&self) -> Seq<char> {
        "Format Rust code"@
    }

    open spec fn spec_description(&self) -> Seq<char> {
        "Formats Rust code using rustfmt. Usually, run without any additional arguments."@
    }

    open spec fn spec_schema(&self) -> Seq<SchemaFieldV> {
        seq![
            field_v("package"@, FieldType::TextArray, ""@, false),
            field_v("all"@, FieldType::Boolean, ""@, false),
            field_v("check"@, FieldType::Boolean, ""@, false),
            field_v("message_format"@, FieldType::Text, ""@, false),
        ]
    }

    open spec fn spec_prepare_ok(&self, m: Seq<(Seq<char>, crate::json::JsonValueV)>) -> bool {
        spec_fmt_decode_ok(m)
    }

    open spec fn spec_prepared(
        &self,
        m: Seq<(Seq<char>, crate::json::JsonValueV)>,
        root: Option<Seq<char>>,
        pp: Prepared,
    ) -> bool {
        exists|q: CargoFmtRequest|
            #![trigger spec_fmt_fields(m, q)]
            {
                &&& spec_fmt_fields(m, q)
                &&& pp.invocation.program@ == "cargo"@
                &&& pp.invocation.args.deep_view() == q.spec_args()
                &&& pp.invocation.env.deep_view() == Seq::<(Seq<char>, Seq<char>)>::empty()
                &&& pp.invocation.cwd.deep_view() == root
                &&& pp.pending matches PendingCall::Fmt { check } && check == q.check
            }
    }

    open spec fn spec_prepare_err(&self, m: Seq<(Seq<char>, crate::json::JsonValueV)>, e: ToolErrorV) -> bool {
        spec_fmt_decode_err(m, e)
    }

    fn name(&self) -> (r: &'static str) {
        "cargo-fmt"
    }

    fn title(&self) -> (r: &'static str) {
        "Format Rust code"
    }

    fn description(&self) -> (r: &'static str) {
        "Formats Rust code using rustfmt. Usually, run without any additional arguments."
    }

    fn schema(&self) -> (r: Vec<SchemaField>) {
        let mut s: Vec<SchemaField> = Vec::new();
        push_field(&mut s, "package", FieldType::TextArray, "", false);
        push_field(&mut s, "all", FieldType::Boolean, "", false);
        push_field(&mut s, "check", FieldType::Boolean, "", false);
        push_field(&mut s, "message_format", FieldType::Text, "", false);
        proof {
            assert(s.deep_view() =~= self.spec_schema());
        }
        s
    }

    fn prepare(&self, params: &RawParams, config: &ProcessWideConfig) -> (r: Result<
        Prepared,
        ToolError,
    >) {
        let request = CargoFmtRequest::decode(params)?;
        let check = request.check;
        let mut invocation = request.build_cmd()?;
        apply_workspace_root(config, &mut invocation);
        let prepared = Prepared { invocation, pending: PendingCall::Fmt { check } };
        proof {
            assert(spec_fmt_fields(params@, request));
            assert(self.spec_prepared(params@, config.workspace_root.deep_view(), prepared));
        }
        Ok(prepared)
    }
}

/// The registered `cargo-new` tool.
#[derive(Debug)]
pub struct CargoNewRmcpTool;

impl Tool for CargoNewRmcpTool {
    open spec fn spec_name(&self) -> Seq<char> {
        "cargo-new"@
    }

    open spec fn spec_title(&self) -> Seq<char> {
        "Create new Rust project"@
    }

    open spec fn spec_description(&self) -> Seq<char> {
        "Create a new cargo package at <path>. Creates a new Rust project with the specified name and template."@
    }

    open spec fn spec_schema(&self) -> Seq<SchemaFieldV> {
        seq![
            field_v("path"@, FieldType::Text, ""@, true),
            field_v("name"@, FieldType::Text, ""@, false),
            field_v("bin"@, FieldType::Boolean, ""@, false),
            field_v("lib"@, FieldType::Boolean, ""@, false),
            field_v("edition"@, FieldType::Text, ""@, false),
            field_v("vcs"@, FieldType::Text, ""@, false),
            field_v("registry"@, FieldType::Text, ""@, false),
        ]
    }

    open spec fn spec_prepare_ok(&self, m: Seq<(Seq<char>, crate::json::JsonValueV)>) -> bool {
        spec_new_decode_ok(m)
    }

    open spec fn spec_prepared(
        &self,
        m: Seq<(Seq<char>, crate::json::JsonValueV)>,
        root: Option<Seq<char>>,
        pp: Prepared,
    ) -> bool {
        exists|q: CargoNewRequest|
            #![trigger spec_new_fields(m, q)]
            {
                &&& spec_new_fields(m, q)
                &&& pp.invocation.program@ == "cargo"@
                &&& pp.invocation.args.deep_view() == q.spec_args()
                &&& pp.invocation.env.deep_view() == Seq::<(Seq<char>, Seq<char>)>::empty()
                &&& pp.invocation.cwd.deep_view() == root
                &&& pp.pending is Plain
            }
    }

    open spec fn spec_prepare_err(&self, m: Seq<(Seq<char>, crate::json::JsonValueV)>, e: ToolErrorV) -> bool {
        spec_new_decode_err(m, e)
    }

    fn name(&self) -> (r: &'static str) {
        "cargo-new"
    }

    fn title(&self) -> (r: &'static str) {
        "Create new Rust project"
    }

    fn description(&self) -> (r: &'static str) {
        "Create a new cargo package at <path>. Creates a new Rust project with the specified name and template."
    }

    fn schema(&self) -> (r: Vec<SchemaField>) {
        let mut s: Vec<SchemaField> = Vec::new();
        push_field(&mut s, "path", FieldType::Text, "", true);
        push_field(&mut s, "name", FieldType::Text, "", false);
        push_field(&mut s, "bin", FieldType::Boolean, "", false);
        push_field(&mut s, "lib", FieldType::Boolean, "", false);
        push_field(&mut s, "edition", FieldType::Text, "", false);
        push_field(&mut s, "vcs", FieldType::Text, "", false);
        push_field(&mut s, "registry", FieldType::Text, "", false);
        proof {
            assert(s.deep_view() =~= self.spec_schema());
        }
        s
    }

    fn prepare(&self, params: &RawParams, config: &ProcessWideConfig) -> (r: Result<
        Prepared,
        ToolError,
    >) {
        let request = CargoNewRequest::decode(params)?;
        let mut invocation = request.build_cmd()?;
        apply_workspace_root(config, &mut invocation);
        let prepared = Prepared { invocation, pending: PendingCall::Plain };
        proof {
            assert(spec_new_fields(params@, request));
            assert(self.spec_prepared(params@, config.workspace_root.deep_view(), prepared));
        }
        Ok(prepared)
    }
}

/// The registered `cargo-list` tool.
#[derive(Debug)]
pub struct CargoListRmcpTool;

impl Tool for CargoListRmcpTool {
    open spec fn spec_name(&self) -> Seq<char> {
        "cargo-list"@
    }

    open spec fn spec_title(&self) -> Seq<char> {
        "List cargo commands"@
    }

    open spec fn spec_description(&self) -> Seq<char> {
        "Lists installed cargo commands using 'cargo --list'."@
    }

    open spec fn spec_schema(&self) -> Seq<SchemaFieldV> {
        Seq::<SchemaFieldV>::empty()
    }

    open spec fn spec_prepare_ok(&self, _m: Seq<(Seq<char>, crate::json::JsonValueV)>) -> bool {
        true
    }

    open spec fn spec_prepared(
        &self,
        _m: Seq<(Seq<char>, crate::json::JsonValueV)>,
        root: Option<Seq<char>>,
        pp: Prepared,
    ) -> bool {
        &&& pp.invocation.program@ == "cargo"@
        &&& pp.invocation.args.deep_view() == seq!["--list"@]
        &&& pp.invocation.env.deep_view() == Seq::<(Seq<char>, Seq<char>)>::empty()
        &&& pp.invocation.cwd.deep_view() == root
        &&& pp.pending is Plain
    }

    open spec fn spec_prepare_err(&self, _m: Seq<(Seq<char>, crate::json::JsonValueV)>, _e: ToolErrorV) -> bool {
        false
    }

    fn name(&self) -> (r: &'static str) {
        "cargo-list"
    }

    fn title(&self) -> (r: &'static str) {
        "List cargo commands"
    }

    fn description(&self) -> (r: &'static str) {
        "Lists installed cargo commands using 'cargo --list'."
    }

    fn schema(&self) -> (r: Vec<SchemaField>) {
        let mut s: Vec<SchemaField> = Vec::new();
        proof {
            assert(s.deep_view() =~= self.spec_schema());
        }
        s
    }

    fn prepare(&self, params: &RawParams, config: &ProcessWideConfig) -> (r: Result<
        Prepared,
        ToolError,
    >) {
        let request = CargoListRequest::decode(params)?;
        let mut invocation = request.build_cmd()?;
        apply_workspace_root(config, &mut invocation);
        Ok(Prepared { invocation, pending: PendingCall::Plain })
    }
}

} // verus!
