//! The `rustc --explain` wrapper.

use vstd::prelude::*;

use crate::decode::{req_string, spec_req_string};
use crate::errors::{ToolError, ToolErrorV};
use crate::invocation::{apply_workspace_root, Invocation, ProcessWideConfig};
use crate::json::RawParams;
use crate::schema::{field_v, push_field, FieldType, SchemaField, SchemaFieldV};
use crate::tool::{PendingCall, Prepared, Tool};

verus! {

/// Explains a Rust compiler error code.
#[derive(Debug)]
pub struct RustcExplainRequest {
    pub error_code: String,
}

impl RustcExplainRequest {
    /// Decodes the request from raw parameters; `error_code` is
    /// required.
    pub fn decode(p: &RawParams) -> (r: Result<RustcExplainRequest, ToolError>)
        ensures
            r is Ok <==> spec_req_string(p@, "error_code"@) is Ok,
            r matches Ok(q) ==> q.error_code@ == spec_req_string(p@, "error_code"@)->Ok_0,
            r matches Err(e) ==> spec_req_string(p@, "error_code"@) == Err::<Seq<char>, ToolErrorV>(
                e@,
            ),
            r matches Err(e) ==> e is InvalidParameter,
    {
        let error_code = req_string(p, "error_code")?;
        Ok(RustcExplainRequest { error_code })
    }

    /// Builds the `rustc --explain` invocation; never fails.
    pub fn build_cmd(&self) -> (r: Result<Invocation, ToolError>)
        ensures
            r is Ok,
            r matches Ok(inv) ==> {
                &&& inv.program@ == "rustc"@
                &&& inv.args.deep_view() == seq!["--explain"@, self.error_code@]
                &&& inv.env.deep_view() == Seq::<(Seq<char>, Seq<char>)>::empty()
                &&& inv.cwd is None
            },
    {
        let mut cmd = Invocation::new("rustc");
        cmd.arg("--explain");
        cmd.arg(self.error_code.as_str());
        proof {
            assert(cmd.args.deep_view() =~= seq!["--explain"@, self.error_code@]);
        }
        Ok(cmd)
    }
}

/// The registered `rustc-explain` tool.
#[derive(Debug)]
pub struct RustcExplainRmcpTool;

impl Tool for RustcExplainRmcpTool {
    open spec fn spec_name(&self) -> Seq<char> {
        "rustc-explain"@
    }

    open spec fn spec_title(&self) -> Seq<char> {
        "Explain Rust error"@
    }

    open spec fn spec_description(&self) -> Seq<char> {
        "Explain Rust compiler error codes (e.g., E0001, E0308). Essential for understanding and resolving compilation errors."@
    }

    open spec fn spec_schema(&self) -> Seq<SchemaFieldV> {
        seq![
            field_v("error_code"@, FieldType::Text, ""@, true),
        ]
    }

    open spec fn spec_prepare_ok(&self, m: Seq<(Seq<char>, crate::json::JsonValueV)>) -> bool {
        spec_req_string(m, "error_code"@) is Ok
    }

    open spec fn spec_prepared(
        &self,
        m: Seq<(Seq<char>, crate::json::JsonValueV)>,
        root: Option<Seq<char>>,
        pp: Prepared,
    ) -> bool {
        &&& pp.invocation.program@ == "rustc"@
        &&& pp.invocation.args.deep_view() == seq!["--explain"@, spec_req_string(m, "error_code"@)->Ok_0]
        &&& pp.invocation.env.deep_view() == Seq::<(Seq<char>, Seq<char>)>::empty()
        &&& pp.invocation.cwd.deep_view() == root
        &&& pp.pending is Plain
    }

    open spec fn spec_prepare_err(&self, m: Seq<(Seq<char>, crate::json::JsonValueV)>, e: ToolErrorV) -> bool {
        spec_req_string(m, "error_code"@) is Err && e == spec_req_string(m, "error_code"@)->Err_0
    }

    fn name(&self) -> (r: &'static str) {
        "rustc-explain"
    }

    fn title(&self) -> (r: &'static str) {
        "Explain Rust error"
    }

    fn description(&self) -> (r: &'static str) {
        "Explain Rust compiler error codes (e.g., E0001, E0308). Essential for understanding and resolving compilation errors."
    }

    fn schema(&self) -> (r: Vec<SchemaField>) {
        let mut s: Vec<SchemaField> = Vec::new();
        push_field(&mut s, "error_code", FieldType::Text, "", true);
        proof {
            assert(s.deep_view() =~= self.spec_schema());
        }
        s
    }

    fn prepare(&self, params: &RawParams, config: &ProcessWideConfig) -> (r: Result<
        Prepared,
        ToolError,
    >) {
        let request = RustcExplainRequest::decode(params)?;
        let mut invocation = request.build_cmd()?;
        apply_workspace_root(config, &mut invocation);
        Ok(Prepared { invocation, pending: PendingCall::Plain })
    }
}

} // verus!
