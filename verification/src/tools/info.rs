//! The `cargo info` wrapper.

use vstd::prelude::*;

use crate::decode::{opt_string, spec_opt_string, spec_req_string};
use crate::errors::{ToolError, ToolErrorV};
use crate::invocation::{Invocation, ProcessWideConfig, apply_workspace_root, seg_opt};
use crate::json::RawParams;
use crate::tools::common::{
    locking_mode_to_cli_flags, output_verbosity_to_cli_flags, spec_locking_flags, spec_pkg_arg,
    spec_verbosity_flags, PackageWithVersion,
};
use crate::schema::{field_v, push_field, FieldType, SchemaField, SchemaFieldV};
use crate::tool::{PendingCall, Prepared, Tool};

verus! {

/// Displays information about a package: description, available
/// features, and so on.
#[derive(Debug)]
pub struct CargoInfoRequest {
    pub package_spec: PackageWithVersion,
    pub index: Option<String>,
    pub registry: Option<String>,
    pub output_verbosity: Option<String>,
    pub config: Option<String>,
    pub locking_mode: Option<String>,
}

/// Every field of the request decodes.
pub open spec fn spec_info_decode_ok(m: Seq<(Seq<char>, crate::json::JsonValueV)>) -> bool {
    &&& spec_req_string(m, "package"@) is Ok
    &&& spec_opt_string(m, "version"@) is Ok
    &&& spec_opt_string(m, "index"@) is Ok
    &&& spec_opt_string(m, "registry"@) is Ok
    &&& spec_opt_string(m, "output_verbosity"@) is Ok
    &&& spec_opt_string(m, "config"@) is Ok
    &&& spec_opt_string(m, "locking_mode"@) is Ok
}

/// Each field of `q` is the decoded value of its parameter.
pub open spec fn spec_info_fields(
    m: Seq<(Seq<char>, crate::json::JsonValueV)>,
    q: CargoInfoRequest,
) -> bool {
    &&& q.package_spec.package@ == spec_req_string(m, "package"@)->Ok_0
    &&& q.package_spec.version.deep_view() == spec_opt_string(m, "version"@)->Ok_0
    &&& q.index.deep_view() == spec_opt_string(m, "index"@)->Ok_0
    &&& q.registry.deep_view() == spec_opt_string(m, "registry"@)->Ok_0
    &&& q.output_verbosity.deep_view() == spec_opt_string(m, "output_verbosity"@)->Ok_0
    &&& q.config.deep_view() == spec_opt_string(m, "config"@)->Ok_0
    &&& q.locking_mode.deep_view() == spec_opt_string(m, "locking_mode"@)->Ok_0
}

/// `e` is the decode error of one of the fields that fail.
pub open spec fn spec_info_decode_err(
    m: Seq<(Seq<char>, crate::json::JsonValueV)>,
    e: ToolErrorV,
) -> bool {
    ||| (spec_req_string(m, "package"@) is Err && e == spec_req_string(m, "package"@)->Err_0)
    ||| (spec_opt_string(m, "version"@) is Err && e == spec_opt_string(m, "version"@)->Err_0)
    ||| (spec_opt_string(m, "index"@) is Err && e == spec_opt_string(m, "index"@)->Err_0)
    ||| (spec_opt_string(m, "registry"@) is Err && e == spec_opt_string(m, "registry"@)->Err_0)
    ||| (spec_opt_string(m, "output_verbosity"@) is Err && e == spec_opt_string(
        m,
        "output_verbosity"@,
    )->Err_0)
    ||| (spec_opt_string(m, "config"@) is Err && e == spec_opt_string(m, "config"@)->Err_0)
    ||| (spec_opt_string(m, "locking_mode"@) is Err && e == spec_opt_string(
        m,
        "locking_mode"@,
    )->Err_0)
}

impl CargoInfoRequest {
    /// Decodes the request from raw parameters; `package` is
    /// required.
    pub fn decode(p: &RawParams) -> (r: Result<CargoInfoRequest, ToolError>)
        ensures
            r is Ok <==> spec_info_decode_ok(p@),
            r matches Ok(q) ==> spec_info_fields(p@, q),
            r matches Err(e) ==> spec_info_decode_err(p@, e@),
            r matches Err(e) ==> e is InvalidParameter,
    {
        let package_spec = PackageWithVersion::decode(p)?;
        let index = opt_string(p, "index")?;
        let registry = opt_string(p, "registry")?;
        let output_verbosity = opt_string(p, "output_verbosity")?;
        let config = opt_string(p, "config")?;
        let locking_mode = opt_string(p, "locking_mode")?;
        Ok(
            CargoInfoRequest {
                package_spec,
                index,
                registry,
                output_verbosity,
                config,
                locking_mode,
            },
        )
    }

    /// The full argument vector of this request when both enumerated
    /// fields are accepted: the package specifier, the registry
    /// options, then the locking and verbosity flags.
    pub open spec fn spec_args(&self) -> Seq<Seq<char>> {
        seq![
            "info"@,
            spec_pkg_arg(self.package_spec.package@, self.package_spec.version.deep_view()),
        ] + seg_opt("--index"@, self.index.deep_view()) + seg_opt(
            "--registry"@,
            self.registry.deep_view(),
        ) + seg_opt("--config"@, self.config.deep_view()) + spec_locking_flags(
            self.locking_mode.deep_view(),
            "locked"@,
        )->Ok_0 + spec_verbosity_flags(self.output_verbosity.deep_view())->Ok_0
    }

    /// Builds the `cargo info` invocation. Fails exactly when the
    /// locking mode or the output verbosity is outside its closed
    /// set; the locking mode is checked first.
    pub fn build_cmd(&self) -> (r: Result<Invocation, ToolError>)
        ensures
            r is Ok <==> (spec_locking_flags(self.locking_mode.deep_view(), "locked"@) is Ok
                && spec_verbosity_flags(self.output_verbosity.deep_view()) is Ok),
            r matches Err(e) ==> {
                ||| (spec_locking_flags(self.locking_mode.deep_view(), "locked"@) is Err && e@
                    == spec_locking_flags(self.locking_mode.deep_view(), "locked"@)->Err_0)
                ||| (spec_locking_flags(self.locking_mode.deep_view(), "locked"@) is Ok
                    && spec_verbosity_flags(self.output_verbosity.deep_view()) is Err && e@
                    == spec_verbosity_flags(self.output_verbosity.deep_view())->Err_0)
            },
            r matches Err(e) ==> e is InvalidParameter,
            r matches Ok(inv) ==> {
                &&& inv.program@ == "cargo"@
                &&& inv.args.deep_view() == self.spec_args()
                &&& inv.env.deep_view() == Seq::<(Seq<char>, Seq<char>)>::empty()
                &&& inv.cwd is None
            },
    {
        let mut cmd = Invocation::new("cargo");
        cmd.arg("info");
        let pkg = self.package_spec.to_spec();
        cmd.arg(pkg.as_str());
        proof {
            assert(cmd.args.deep_view() =~= seq![
                "info"@,
                spec_pkg_arg(self.package_spec.package@, self.package_spec.version.deep_view()),
            ]);
        }
        cmd.opt("--index", &self.index);
        cmd.opt("--registry", &self.registry);
        cmd.opt("--config", &self.config);
        let locking_flags = locking_mode_to_cli_flags(&self.locking_mode, "locked")?;
        cmd.flags(&locking_flags);
        let output_flags = output_verbosity_to_cli_flags(&self.output_verbosity)?;
        cmd.flags(&output_flags);
        Ok(cmd)
    }
}

/// The registered `cargo-info` tool.
#[derive(Debug)]
pub struct CargoInfoRmcpTool;

impl Tool for CargoInfoRmcpTool {
    open spec fn spec_name(&self) -> Seq<char> {
        "cargo-info"@
    }

    open spec fn spec_title(&self) -> Seq<char> {
        "cargo info"@
    }

    open spec fn spec_description(&self) -> Seq<char> {
        "Display information about a package. Information includes package description, list of available features, etc. Equivalent to 'cargo info <SPEC>'."@
    }

    open spec fn spec_schema(&self) -> Seq<SchemaFieldV> {
        seq![
            field_v("package"@, FieldType::Text, "The package name"@, true),
            field_v("version"@, FieldType::Text, "Optional version specification"@, false),
            field_v("index"@, FieldType::Text, "Registry index URL to search packages in"@, false),
            field_v("registry"@, FieldType::Text, "Registry to search packages in"@, false),
            field_v("output_verbosity"@, FieldType::Text, "Output verbosity level. Valid options: \"quiet\" (default), \"normal\", \"verbose\"."@, false),
            field_v("config"@, FieldType::Text, "Override a configuration value"@, false),
            field_v("locking_mode"@, FieldType::Text, "Locking mode for dependency resolution. Valid options: \"locked\" (default), \"unlocked\", \"offline\", \"frozen\"."@, false),
        ]
    }

    open spec fn spec_prepare_ok(&self, m: Seq<(Seq<char>, crate::json::JsonValueV)>) -> bool {
        &&& spec_info_decode_ok(m)
        &&& spec_locking_flags(spec_opt_string(m, "locking_mode"@)->Ok_0, "locked"@) is Ok
        &&& spec_verbosity_flags(spec_opt_string(m, "output_verbosity"@)->Ok_0) is Ok
    }

    open spec fn spec_prepared(
        &self,
        m: Seq<(Seq<char>, crate::json::JsonValueV)>,
        root: Option<Seq<char>>,
        pp: Prepared,
    ) -> bool {
        exists|q: CargoInfoRequest|
            #![trigger spec_info_fields(m, q)]
            {
                &&& spec_info_fields(m, q)
                &&& pp.invocation.program@ == "cargo"@
                &&& pp.invocation.args.deep_view() == q.spec_args()
                &&& pp.invocation.env.deep_view() == Seq::<(Seq<char>, Seq<char>)>::empty()
                &&& pp.invocation.cwd.deep_view() == root
                &&& pp.pending is Plain
            }
    }

    open spec fn spec_prepare_err(&self, m: Seq<(Seq<char>, crate::json::JsonValueV)>, e: ToolErrorV) -> bool {
        ||| spec_info_decode_err(m, e)
        ||| (spec_info_decode_ok(m) && spec_locking_flags(
            spec_opt_string(m, "locking_mode"@)->Ok_0,
            "locked"@,
        ) is Err && e == spec_locking_flags(
            spec_opt_string(m, "locking_mode"@)->Ok_0,
            "locked"@,
        )->Err_0)
        ||| (spec_info_decode_ok(m) && spec_locking_flags(
            spec_opt_string(m, "locking_mode"@)->Ok_0,
            "locked"@,
        ) is Ok && spec_verbosity_flags(spec_opt_string(m, "output_verbosity"@)->Ok_0) is Err && e
            == spec_verbosity_flags(spec_opt_string(m, "output_verbosity"@)->Ok_0)->Err_0)
    }

    fn name(&self) -> (r: &'static str) {
        "cargo-info"
    }

    fn title(&self) -> (r: &'static str) {
        "cargo info"
    }

    fn description(&self) -> (r: &'static str) {
        "Display information about a package. Information includes package description, list of available features, etc. Equivalent to 'cargo info <SPEC>'."
    }

    fn schema(&self) -> (r: Vec<SchemaField>) {
        let mut s: Vec<SchemaField> = Vec::new();
        push_field(&mut s, "package", FieldType::Text, "The package name", true);
        push_field(&mut s, "version", FieldType::Text, "Optional version specification", false);
        push_field(&mut s, "index", FieldType::Text, "Registry index URL to search packages in", false);
        push_field(&mut s, "registry", FieldType::Text, "Registry to search packages in", false);
        push_field(&mut s, "output_verbosity", FieldType::Text, "Output verbosity level. Valid options: \"quiet\" (default), \"normal\", \"verbose\".", false);
        push_field(&mut s, "config", FieldType::Text, "Override a configuration value", false);
        push_field(&mut s, "locking_mode", FieldType::Text, "Locking mode for dependency resolution. Valid options: \"locked\" (default), \"unlocked\", \"offline\", \"frozen\".", false);
        proof {
            assert(s.deep_view() =~= self.spec_schema());
        }
        s
    }

    fn prepare(&self, params: &RawParams, config: &ProcessWideConfig) -> (r: Result<
        Prepared,
        ToolError,
    >) {
        let request = CargoInfoRequest::decode(params)?;
        let mut invocation = request.build_cmd()?;
        apply_workspace_root(config, &mut invocation);
        let prepared = Prepared { invocation, pending: PendingCall::Plain };
        proof {
            assert(spec_info_fields(params@, request));
            assert(self.spec_prepared(params@, config.workspace_root.deep_view(), prepared));
        }
        Ok(prepared)
    }
}

} // verus!
