//! The `cargo update` wrapper.

use vstd::prelude::*;

use crate::decode::{
    opt_bool, opt_string, opt_string_list, spec_opt_bool, spec_opt_string, spec_opt_string_list,
};
use crate::errors::{ToolError, ToolErrorV};
use crate::invocation::{
    Invocation, ProcessWideConfig, apply_workspace_root, opt_or, opt_true, seg_each, seg_flag, seg_items, seg_opt,
};
use crate::json::RawParams;
use crate::schema::{field_v, push_field, FieldType, SchemaField, SchemaFieldV};
use crate::tool::{PendingCall, Prepared, Tool};

verus! {

/// Updates dependencies as recorded in the local lock file.
#[derive(Debug)]
pub struct CargoUpdateRequest {
    pub spec: Option<Vec<String>>,
    pub dry_run: Option<bool>,
    pub recursive: Option<bool>,
    pub precise: Option<String>,
    pub breaking: Option<bool>,
    pub workspace: Option<bool>,
    pub ignore_rust_version: Option<bool>,
    pub config: Option<String>,
    pub unstable_flags: Option<Vec<String>>,
}

/// Every field of the request decodes.
pub open spec fn spec_update_decode_ok(m: Seq<(Seq<char>, crate::json::JsonValueV)>) -> bool {
    &&& spec_opt_string_list(m, "spec"@) is Ok
    &&& spec_opt_bool(m, "dry_run"@) is Ok
    &&& spec_opt_bool(m, "recursive"@) is Ok
    &&& spec_opt_string(m, "precise"@) is Ok
    &&& spec_opt_bool(m, "breaking"@) is Ok
    &&& spec_opt_bool(m, "workspace"@) is Ok
    &&& spec_opt_bool(m, "ignore_rust_version"@) is Ok
    &&& spec_opt_string(m, "config"@) is Ok
    &&& spec_opt_string_list(m, "unstable_flags"@) is Ok
}

/// Each field of `q` is the decoded value of its parameter.
pub open spec fn spec_update_fields(
    m: Seq<(Seq<char>, crate::json::JsonValueV)>,
    q: CargoUpdateRequest,
) -> bool {
    &&& q.spec.deep_view() == spec_opt_string_list(m, "spec"@)->Ok_0
    &&& q.dry_run == spec_opt_bool(m, "dry_run"@)->Ok_0
    &&& q.recursive == spec_opt_bool(m, "recursive"@)->Ok_0
    &&& q.precise.deep_view() == spec_opt_string(m, "precise"@)->Ok_0
    &&& q.breaking == spec_opt_bool(m, "breaking"@)->Ok_0
    &&& q.workspace == spec_opt_bool(m, "workspace"@)->Ok_0
    &&& q.ignore_rust_version == spec_opt_bool(m, "ignore_rust_version"@)->Ok_0
    &&& q.config.deep_view() == spec_opt_string(m, "config"@)->Ok_0
    &&& q.unstable_flags.deep_view() == spec_opt_string_list(m, "unstable_flags"@)->Ok_0
}

/// `e` is the decode error of one of the fields that fail.
pub open spec fn spec_update_decode_err(
    m: Seq<(Seq<char>, crate::json::JsonValueV)>,
    e: ToolErrorV,
) -> bool {
    ||| (spec_opt_string_list(m, "spec"@) is Err && e == spec_opt_string_list(m, "spec"@)->Err_0)
    ||| (spec_opt_bool(m, "dry_run"@) is Err && e == spec_opt_bool(m, "dry_run"@)->Err_0)
    ||| (spec_opt_bool(m, "recursive"@) is Err && e == spec_opt_bool(m, "recursive"@)->Err_0)
    ||| (spec_opt_string(m, "precise"@) is Err && e == spec_opt_string(m, "precise"@)->Err_0)
    ||| (spec_opt_bool(m, "breaking"@) is Err && e == spec_opt_bool(m, "breaking"@)->Err_0)
    ||| (spec_opt_bool(m, "workspace"@) is Err && e == spec_opt_bool(m, "workspace"@)->Err_0)
    ||| (spec_opt_bool(m, "ignore_rust_version"@) is Err && e == spec_opt_bool(
        m,
        "ignore_rust_version"@,
    )->Err_0)
    ||| (spec_opt_string(m, "config"@) is Err && e == spec_opt_string(m, "config"@)->Err_0)
    ||| (spec_opt_string_list(m, "unstable_flags"@) is Err && e == spec_opt_string_list(
        m,
        "unstable_flags"@,
    )->Err_0)
}

impl CargoUpdateRequest {
    /// Decodes the request from raw parameters, leniently.
    pub fn decode(p: &RawParams) -> (r: Result<CargoUpdateRequest, ToolError>)
        ensures
            r is Ok <==> spec_update_decode_ok(p@),
            r matches Ok(q) ==> spec_update_fields(p@, q),
            r matches Err(e) ==> spec_update_decode_err(p@, e@),
            r matches Err(e) ==> e is InvalidParameter,
    {
        let spec = opt_string_list(p, "spec")?;
        let dry_run = opt_bool(p, "dry_run")?;
        let recursive = opt_bool(p, "recursive")?;
        let precise = opt_string(p, "precise")?;
        let breaking = opt_bool(p, "breaking")?;
        let workspace = opt_bool(p, "workspace")?;
        let ignore_rust_version = opt_bool(p, "ignore_rust_version")?;
        let config = opt_string(p, "config")?;
        let unstable_flags = opt_string_list(p, "unstable_flags")?;
        Ok(
            CargoUpdateRequest {
                spec,
                dry_run,
                recursive,
                precise,
                breaking,
                workspace,
                ignore_rust_version,
                config,
                unstable_flags,
            },
        )
    }

    /// The full argument vector of this request: the package specs as
    /// positional arguments, then the update options.
    pub open spec fn spec_args(&self) -> Seq<Seq<char>> {
        seq!["update"@] + seg_items(self.spec.deep_view()) + seg_flag(
            opt_or(self.dry_run, false),
            "--dry-run"@,
        ) + seg_flag(opt_or(self.recursive, false), "--recursive"@) + seg_opt(
            "--precise"@,
            self.precise.deep_view(),
        ) + seg_flag(opt_or(self.breaking, false), "--breaking"@) + seg_flag(
            opt_or(self.workspace, false),
            "--workspace"@,
        ) + seg_flag(opt_or(self.ignore_rust_version, false), "--ignore-rust-version"@) + seg_opt(
            "--config"@,
            self.config.deep_view(),
        ) + seg_each("-Z"@, self.unstable_flags.deep_view())
    }

    /// Builds the `cargo update` invocation; never fails.
    pub fn build_cmd(&self) -> (r: Result<Invocation, ToolError>)
        ensures
            r is Ok,
            r matches Ok(inv) ==> {
                &&& inv.program@ == "cargo"@
                &&& inv.args.deep_view() == self.spec_args()
                &&& inv.env.deep_view() == Seq::<(Seq<char>, Seq<char>)>::empty()
                &&& inv.cwd is None
            },
    {
        let mut cmd = Invocation::new("cargo");
        cmd.arg("update");
        proof {
            assert(cmd.args.deep_view() =~= seq!["update"@]);
        }
        cmd.items(&self.spec);
        cmd.flag_if(opt_true(&self.dry_run), "--dry-run");
        cmd.flag_if(opt_true(&self.recursive), "--recursive");
        cmd.opt("--precise", &self.precise);
        cmd.flag_if(opt_true(&self.breaking), "--breaking");
        cmd.flag_if(opt_true(&self.workspace), "--workspace");
        cmd.flag_if(opt_true(&self.ignore_rust_version), "--ignore-rust-version");
        cmd.opt("--config", &self.config);
        cmd.each("-Z", &self.unstable_flags);
        Ok(cmd)
    }
}

/// The registered `cargo-update` tool.
#[derive(Debug)]
pub struct CargoUpdateRmcpTool;

impl Tool for CargoUpdateRmcpTool {
    open spec fn spec_name(&self) -> Seq<char> {
        "cargo-update"@
    }

    open spec fn spec_title(&self) -> Seq<char> {
        "cargo update"@
    }

    open spec fn spec_description(&self) -> Seq<char> {
        "Update dependencies as recorded in the local lock file. Updates the dependencies in Cargo.lock to their latest compatible versions."@
    }

    open spec fn spec_schema(&self) -> Seq<SchemaFieldV> {
        seq![
            field_v("spec"@, FieldType::TextArray, ""@, false),
            field_v("dry_run"@, FieldType::Boolean, ""@, false),
            field_v("recursive"@, FieldType::Boolean, ""@, false),
            field_v("precise"@, FieldType::Text, ""@, false),
            field_v("breaking"@, FieldType::Boolean, ""@, false),
            field_v("workspace"@, FieldType::Boolean, ""@, false),
            field_v("ignore_rust_version"@, FieldType::Boolean, ""@, false),
            field_v("config"@, FieldType::Text, ""@, false),
            field_v("unstable_flags"@, FieldType::TextArray, ""@, false),
        ]
    }

    open spec fn spec_prepare_ok(&self, m: Seq<(Seq<char>, crate::json::JsonValueV)>) -> bool {
        spec_update_decode_ok(m)
    }

    open spec fn spec_prepared(
        &self,
        m: Seq<(Seq<char>, crate::json::JsonValueV)>,
        root: Option<Seq<char>>,
        pp: Prepared,
    ) -> bool {
        exists|q: CargoUpdateRequest|
            #![trigger spec_update_fields(m, q)]
            {
                &&& spec_update_fields(m, q)
                &&& pp.invocation.program@ == "cargo"@
                &&& pp.invocation.args.deep_view() == q.spec_args()
                &&& pp.invocation.env.deep_view() == Seq::<(Seq<char>, Seq<char>)>::empty()
                &&& pp.invocation.cwd.deep_view() == root
                &&& pp.pending is Plain
            }
    }

    open spec fn spec_prepare_err(&self, m: Seq<(Seq<char>, crate::json::JsonValueV)>, e: ToolErrorV) -> bool {
        spec_update_decode_err(m, e)
    }

    fn name(&self) -> (r: &'static str) {
        "cargo-update"
    }

    fn title(&self) -> (r: &'static str) {
        "cargo update"
    }

    fn description(&self) -> (r: &'static str) {
        "Update dependencies as recorded in the local lock file. Updates the dependencies in Cargo.lock to their latest compatible versions."
    }

    fn schema(&self) -> (r: Vec<SchemaField>) {
        let mut s: Vec<SchemaField> = Vec::new();
        push_field(&mut s, "spec", FieldType::TextArray, "", false);
        push_field(&mut s, "dry_run", FieldType::Boolean, "", false);
        push_field(&mut s, "recursive", FieldType::Boolean, "", false);
        push_field(&mut s, "precise", FieldType::Text, "", false);
        push_field(&mut s, "breaking", FieldType::Boolean, "", false);
        push_field(&mut s, "workspace", FieldType::Boolean, "", false);
        push_field(&mut s, "ignore_rust_version", FieldType::Boolean, "", false);
        push_field(&mut s, "config", FieldType::Text, "", false);
        push_field(&mut s, "unstable_flags", FieldType::TextArray, "", false);
        proof {
            assert(s.deep_view() =~= self.spec_schema());
        }
        s
    }

    fn prepare(&self, params: &RawParams, config: &ProcessWideConfig) -> (r: Result<
        Prepared,
        ToolError,
    >) {
        let request = CargoUpdateRequest::decode(params)?;
        let mut invocation = request.build_cmd()?;
        apply_workspace_root(config, &mut invocation);
        let prepared = Prepared { invocation, pending: PendingCall::Plain };
        proof {
            assert(spec_update_fields(params@, request));
            assert(self.spec_prepared(params@, config.workspace_root.deep_view(), prepared));
        }
        Ok(prepared)
    }
}

} // verus!
