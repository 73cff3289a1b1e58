//! The `cargo search` wrapper.

use vstd::prelude::*;

use crate::decode::{
    opt_string, opt_u32, req_string, spec_opt_string, spec_opt_u32, spec_req_string,
};
use crate::errors::{ToolError, ToolErrorV};
use crate::invocation::{
    Invocation, ProcessWideConfig, apply_workspace_root, seg_opt, seg_opt_u32,
};
use crate::json::RawParams;
use crate::schema::{field_v, push_field, FieldType, SchemaField, SchemaFieldV};
use crate::tool::{PendingCall, Prepared, Tool};

verus! {

/// Searches packages in the registry; the default registry is
/// crates.io.
#[derive(Debug)]
pub struct CargoSearchRequest {
    pub query: String,
    pub limit: Option<u32>,
    pub registry: Option<String>,
}

/// Every field of the request decodes.
pub open spec fn spec_search_decode_ok(m: Seq<(Seq<char>, crate::json::JsonValueV)>) -> bool {
    &&& spec_req_string(m, "query"@) is Ok
    &&& spec_opt_u32(m, "limit"@) is Ok
    &&& spec_opt_string(m, "registry"@) is Ok
}

/// Each field of `q` is the decoded value of its parameter.
pub open spec fn spec_search_fields(
    m: Seq<(Seq<char>, crate::json::JsonValueV)>,
    q: CargoSearchRequest,
) -> bool {
    &&& q.query@ == spec_req_string(m, "query"@)->Ok_0
    &&& q.limit == spec_opt_u32(m, "limit"@)->Ok_0
    &&& q.registry.deep_view() == spec_opt_string(m, "registry"@)->Ok_0
}

/// `e` is the decode error of one of the fields that fail.
pub open spec fn spec_search_decode_err(
    m: Seq<(Seq<char>, crate::json::JsonValueV)>,
    e: ToolErrorV,
) -> bool {
    ||| (spec_req_string(m, "query"@) is Err && e == spec_req_string(m, "query"@)->Err_0)
    ||| (spec_opt_u32(m, "limit"@) is Err && e == spec_opt_u32(m, "limit"@)->Err_0)
    ||| (spec_opt_string(m, "registry"@) is Err && e == spec_opt_string(m, "registry"@)->Err_0)
}

impl CargoSearchRequest {
    /// Decodes the request from raw parameters; `query` is required.
    pub fn decode(p: &RawParams) -> (r: Result<CargoSearchRequest, ToolError>)
        ensures
            r is Ok <==> spec_search_decode_ok(p@),
            r matches Ok(q) ==> spec_search_fields(p@, q),
            r matches Err(e) ==> spec_search_decode_err(p@, e@),
            r matches Err(e) ==> e is InvalidParameter,
    {
        let query = req_string(p, "query")?;
        let limit = opt_u32(p, "limit")?;
        let registry = opt_string(p, "registry")?;
        Ok(CargoSearchRequest { query, limit, registry })
    }

    /// The full argument vector of this request, in order.
    pub open spec fn spec_args(&self) -> Seq<Seq<char>> {
        seq!["search"@, self.query@] + seg_opt_u32("--limit"@, self.limit) + seg_opt(
            "--registry"@,
            self.registry.deep_view(),
        )
    }

    /// Builds the `cargo search` invocation; never fails.
    pub fn build_cmd(&self) -> (r: Result<Invocation, ToolError>)
        ensures
            r is Ok,
            r matches Ok(inv) ==> {
                &&& inv.program@ == "cargo"@
                &&& inv.args.deep_view() == self.spec_args()
                &&& inv.env.deep_view() == Seq::<(Seq<char>, Seq<char>)>::empty()
                &&& inv.cwd is None
            },
    {
        let mut cmd = Invocation::new("cargo");
        cmd.arg("search");
        cmd.arg(self.query.as_str());
        proof {
            assert(cmd.args.deep_view() =~= seq!["search"@, self.query@]);
        }
        cmd.opt_u32("--limit", &self.limit);
        cmd.opt("--registry", &self.registry);
        Ok(cmd)
    }
}

/// The registered `cargo-search` tool.
#[derive(Debug)]
pub struct CargoSearchRmcpTool;

impl Tool for CargoSearchRmcpTool {
    open spec fn spec_name(&self) -> Seq<char> {
        "cargo-search"@
    }

    open spec fn spec_title(&self) -> Seq<char> {
        "cargo search"@
    }

    open spec fn spec_description(&self) -> Seq<char> {
        "Search packages in the registry. Default registry is crates.io. Equivalent to 'cargo search <code>QUERY</code>'."@
    }

    open spec fn spec_schema(&self) -> Seq<SchemaFieldV> {
        seq![
            field_v("query"@, FieldType::Text, ""@, true),
            field_v("limit"@, FieldType::Integer, ""@, false),
            field_v("registry"@, FieldType::Text, ""@, false),
        ]
    }

    open spec fn spec_prepare_ok(&self, m: Seq<(Seq<char>, crate::json::JsonValueV)>) -> bool {
        spec_search_decode_ok(m)
    }

    open spec fn spec_prepared(
        &self,
        m: Seq<(Seq<char>, crate::json::JsonValueV)>,
        root: Option<Seq<char>>,
        pp: Prepared,
    ) -> bool {
        exists|q: CargoSearchRequest|
            #![trigger spec_search_fields(m, q)]
            {
                &&& spec_search_fields(m, q)
                &&& pp.invocation.program@ == "cargo"@
                &&& pp.invocation.args.deep_view() == q.spec_args()
                &&& pp.invocation.env.deep_view() == Seq::<(Seq<char>, Seq<char>)>::empty()
                &&& pp.invocation.cwd.deep_view() == root
                &&& pp.pending is Plain
            }
    }

    open spec fn spec_prepare_err(&self, m: Seq<(Seq<char>, crate::json::JsonValueV)>, e: ToolErrorV) -> bool {
        spec_search_decode_err(m, e)
    }

    fn name(&self) -> (r: &'static str) {
        "cargo-search"
    }

    fn title(&self) -> (r: &'static str) {
        "cargo search"
    }

    fn description(&self) -> (r: &'static str) {
        "Search packages in the registry. Default registry is crates.io. Equivalent to 'cargo search <code>QUERY</code>'."
    }

    fn schema(&self) -> (r: Vec<SchemaField>) {
        let mut s: Vec<SchemaField> = Vec::new();
        push_field(&mut s, "query", FieldType::Text, "", true);
        push_field(&mut s, "limit", FieldType::Integer, "", false);
        push_field(&mut s, "registry", FieldType::Text, "", false);
        proof {
            assert(s.deep_view() =~= self.spec_schema());
        }
        s
    }

    fn prepare(&self, params: &RawParams, config: &ProcessWideConfig) -> (r: Result<
        Prepared,
        ToolError,
    >) {
        let request = CargoSearchRequest::decode(params)?;
        let mut invocation = request.build_cmd()?;
        apply_workspace_root(config, &mut invocation);
        let prepared = Prepared { invocation, pending: PendingCall::Plain };
        proof {
            assert(spec_search_fields(params@, request));
            assert(self.spec_prepared(params@, config.workspace_root.deep_view(), prepared));
        }
        Ok(prepared)
    }
}

} // verus!
