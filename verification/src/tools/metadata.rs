//! The `cargo metadata` wrapper.

use vstd::prelude::*;

use crate::decode::{
    opt_bool, opt_string, opt_string_list, spec_opt_bool, spec_opt_string, spec_opt_string_list,
};
use crate::errors::{ToolError, ToolErrorV};
use crate::invocation::{
    Invocation, ProcessWideConfig, apply_workspace_root, opt_or, opt_true, seg_flag, seg_join_nonempty, seg_opt,
};
use crate::json::RawParams;
use crate::schema::{field_v, push_field, FieldType, SchemaField, SchemaFieldV};
use crate::tool::{PendingCall, Prepared, Tool};

verus! {

/// Outputs a listing of a project's resolved dependencies and
/// metadata in machine-readable form.
#[derive(Debug)]
pub struct CargoMetadataRequest {
    pub filter_platform: Option<String>,
    pub no_deps: Option<bool>,
    pub config: Option<String>,
    pub features: Option<Vec<String>>,
    pub all_features: Option<bool>,
    pub no_default_features: Option<bool>,
}

/// Every field of the request decodes.
pub open spec fn spec_metadata_decode_ok(m: Seq<(Seq<char>, crate::json::JsonValueV)>) -> bool {
    &&& spec_opt_string(m, "filter_platform"@) is Ok
    &&& spec_opt_bool(m, "no_deps"@) is Ok
    &&& spec_opt_string(m, "config"@) is Ok
    &&& spec_opt_string_list(m, "features"@) is Ok
    &&& spec_opt_bool(m, "all_features"@) is Ok
    &&& spec_opt_bool(m, "no_default_features"@) is Ok
}

/// Each field of `q` is the decoded value of its parameter.
pub open spec fn spec_metadata_fields(
    m: Seq<(Seq<char>, crate::json::JsonValueV)>,
    q: CargoMetadataRequest,
) -> bool {
    &&& q.filter_platform.deep_view() == spec_opt_string(m, "filter_platform"@)->Ok_0
    &&& q.no_deps == spec_opt_bool(m, "no_deps"@)->Ok_0
    &&& q.config.deep_view() == spec_opt_string(m, "config"@)->Ok_0
    &&& q.features.deep_view() == spec_opt_string_list(m, "features"@)->Ok_0
    &&& q.all_features == spec_opt_bool(m, "all_features"@)->Ok_0
    &&& q.no_default_features == spec_opt_bool(m, "no_default_features"@)->Ok_0
}

/// `e` is the decode error of one of the fields that fail.
pub open spec fn spec_metadata_decode_err(
    m: Seq<(Seq<char>, crate::json::JsonValueV)>,
    e: ToolErrorV,
) -> bool {
    ||| (spec_opt_string(m, "filter_platform"@) is Err && e == spec_opt_string(
        m,
        "filter_platform"@,
    )->Err_0)
    ||| (spec_opt_bool(m, "no_deps"@) is Err && e == spec_opt_bool(m, "no_deps"@)->Err_0)
    ||| (spec_opt_string(m, "config"@) is Err && e == spec_opt_string(m, "config"@)->Err_0)
    ||| (spec_opt_string_list(m, "features"@) is Err && e == spec_opt_string_list(
        m,
        "features"@,
    )->Err_0)
    ||| (spec_opt_bool(m, "all_features"@) is Err && e == spec_opt_bool(m, "all_features"@)->Err_0)
    ||| (spec_opt_bool(m, "no_default_features"@) is Err && e == spec_opt_bool(
        m,
        "no_default_features"@,
    )->Err_0)
}

impl CargoMetadataRequest {
    /// Decodes the request from raw parameters, leniently.
    pub fn decode(p: &RawParams) -> (r: Result<CargoMetadataRequest, ToolError>)
        ensures
            r is Ok <==> spec_metadata_decode_ok(p@),
            r matches Ok(q) ==> spec_metadata_fields(p@, q),
            r matches Err(e) ==> spec_metadata_decode_err(p@, e@),
            r matches Err(e) ==> e is InvalidParameter,
    {
        let filter_platform = opt_string(p, "filter_platform")?;
        let no_deps = opt_bool(p, "no_deps")?;
        let config = opt_string(p, "config")?;
        let features = opt_string_list(p, "features")?;
        let all_features = opt_bool(p, "all_features")?;
        let no_default_features = opt_bool(p, "no_default_features")?;
        Ok(
            CargoMetadataRequest {
                filter_platform,
                no_deps,
                config,
                features,
                all_features,
                no_default_features,
            },
        )
    }

    /// The full argument vector of this request, pinned to metadata
    /// format version 1. A present-but-empty feature list contributes
    /// nothing.
    pub open spec fn spec_args(&self) -> Seq<Seq<char>> {
        seq!["metadata"@, "--format-version"@, "1"@] + seg_opt(
            "--filter-platform"@,
            self.filter_platform.deep_view(),
        ) + seg_flag(opt_or(self.no_deps, false), "--no-deps"@) + seg_opt(
            "--config"@,
            self.config.deep_view(),
        ) + seg_join_nonempty("--features"@, self.features.deep_view()) + seg_flag(
            opt_or(self.all_features, false),
            "--all-features"@,
        ) + seg_flag(opt_or(self.no_default_features, false), "--no-default-features"@)
    }

    /// Builds the `cargo metadata` invocation; never fails.
    pub fn build_cmd(&self) -> (r: Result<Invocation, ToolError>)
        ensures
            r is Ok,
            r matches Ok(inv) ==> {
                &&& inv.program@ == "cargo"@
                &&& inv.args.deep_view() == self.spec_args()
                &&& inv.env.deep_view() == Seq::<(Seq<char>, Seq<char>)>::empty()
                &&& inv.cwd is None
            },
    {
        let mut cmd = Invocation::new("cargo");
        cmd.arg("metadata");
        cmd.arg("--format-version");
        cmd.arg("1");
        proof {
            assert(cmd.args.deep_view() =~= seq!["metadata"@, "--format-version"@, "1"@]);
        }
        cmd.opt("--filter-platform", &self.filter_platform);
        cmd.flag_if(opt_true(&self.no_deps), "--no-deps");
        cmd.opt("--config", &self.config);
        cmd.join_list_nonempty("--features", &self.features);
        cmd.flag_if(opt_true(&self.all_features), "--all-features");
        cmd.flag_if(opt_true(&self.no_default_features), "--no-default-features");
        Ok(cmd)
    }
}

/// The registered `cargo-metadata` tool.
#[derive(Debug)]
pub struct CargoMetadataRmcpTool;

impl Tool for CargoMetadataRmcpTool {
    open spec fn spec_name(&self) -> Seq<char> {
        "cargo-metadata"@
    }

    open spec fn spec_title(&self) -> Seq<char> {
        "cargo metadata"@
    }

    open spec fn spec_description(&self) -> Seq<char> {
        "Outputs a listing of a project's resolved dependencies and metadata in machine-readable format (JSON)."@
    }

    open spec fn spec_schema(&self) -> Seq<SchemaFieldV> {
        seq![
            field_v("filter_platform"@, FieldType::Text, ""@, false),
            field_v("no_deps"@, FieldType::Boolean, ""@, false),
            field_v("config"@, FieldType::Text, ""@, false),
            field_v("features"@, FieldType::TextArray, ""@, false),
            field_v("all_features"@, FieldType::Boolean, ""@, false),
            field_v("no_default_features"@, FieldType::Boolean, ""@, false),
        ]
    }

    open spec fn spec_prepare_ok(&self, m: Seq<(Seq<char>, crate::json::JsonValueV)>) -> bool {
        spec_metadata_decode_ok(m)
    }

    open spec fn spec_prepared(
        &self,
        m: Seq<(Seq<char>, crate::json::JsonValueV)>,
        root: Option<Seq<char>>,
        pp: Prepared,
    ) -> bool {
        exists|q: CargoMetadataRequest|
            #![trigger spec_metadata_fields(m, q)]
            {
                &&& spec_metadata_fields(m, q)
                &&& pp.invocation.program@ == "cargo"@
                &&& pp.invocation.args.deep_view() == q.spec_args()
                &&& pp.invocation.env.deep_view() == Seq::<(Seq<char>, Seq<char>)>::empty()
                &&& pp.invocation.cwd.deep_view() == root
                &&& pp.pending matches PendingCall::Metadata { no_deps } && no_deps == opt_or(q.no_deps, false)
            }
    }

    open spec fn spec_prepare_err(&self, m: Seq<(Seq<char>, crate::json::JsonValueV)>, e: ToolErrorV) -> bool {
        spec_metadata_decode_err(m, e)
    }

    fn name(&self) -> (r: &'static str) {
        "cargo-metadata"
    }

    fn title(&self) -> (r: &'static str) {
        "cargo metadata"
    }

    fn description(&self) -> (r: &'static str) {
        "Outputs a listing of a project's resolved dependencies and metadata in machine-readable format (JSON)."
    }

    fn schema(&self) -> (r: Vec<SchemaField>) {
        let mut s: Vec<SchemaField> = Vec::new();
        push_field(&mut s, "filter_platform", FieldType::Text, "", false);
        push_field(&mut s, "no_deps", FieldType::Boolean, "", false);
        push_field(&mut s, "config", FieldType::Text, "", false);
        push_field(&mut s, "features", FieldType::TextArray, "", false);
        push_field(&mut s, "all_features", FieldType::Boolean, "", false);
        push_field(&mut s, "no_default_features", FieldType::Boolean, "", false);
        proof {
            assert(s.deep_view() =~= self.spec_schema());
        }
        s
    }

    fn prepare(&self, params: &RawParams, config: &ProcessWideConfig) -> (r: Result<
        Prepared,
        ToolError,
    >) {
        let request = CargoMetadataRequest::decode(params)?;
        let no_deps = opt_true(&request.no_deps);
        let mut invocation = request.build_cmd()?;
        apply_workspace_root(config, &mut invocation);
        let prepared = Prepared { invocation, pending: PendingCall::Metadata { no_deps } };
        proof {
            assert(spec_metadata_fields(params@, request));
            assert(self.spec_prepared(params@, config.workspace_root.deep_view(), prepared));
        }
        Ok(prepared)
    }
}

} // verus!
