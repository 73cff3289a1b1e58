//! The `cargo add` and `cargo remove` wrappers.

use vstd::prelude::*;

use crate::decode::{
    bool_or_false, opt_bool, opt_string, opt_string_list, req_string, req_string_array,
    spec_bool_or_false, spec_opt_bool, spec_opt_string, spec_opt_string_list, spec_req_string,
    spec_req_string_array,
};
use crate::errors::{ToolError, ToolErrorV};
use crate::invocation::{
    apply_workspace_root, opt_or, opt_true, seg_flag, seg_join, seg_opt, Invocation,
    ProcessWideConfig,
};
use crate::json::{str_eq, RawParams};
use crate::schema::{field_v, push_field, FieldType, SchemaField, SchemaFieldV};
use crate::tool::{PendingCall, Prepared, Tool};
use crate::tools::common::{spec_pkg_arg, PackageWithVersion};

verus! {

/// The flag a dependency-type keyword maps to: `regular` and absence
/// map to no flag at all; `dev` and `build` map to their section
/// flags; anything else is rejected, naming the value.
pub open spec fn spec_dep_type_flag(dt: Option<Seq<char>>) -> Result<
    Option<Seq<char>>,
    ToolErrorV,
> {
    match dt {
        None => Ok(None),
        Some(d) => if d == "regular"@ {
            Ok(None)
        } else if d == "dev"@ {
            Ok(Some("--dev"@))
        } else if d == "build"@ {
            Ok(Some("--build"@))
        } else {
            Err(ToolErrorV::InvalidParameter("Unknown dependency type: "@ + d))
        },
    }
}

/// The arguments the dependency type contributes when it is accepted.
pub open spec fn seg_dep_type(dt: Option<Seq<char>>) -> Seq<Seq<char>> {
    match spec_dep_type_flag(dt) {
        Ok(Some(f)) => seq![f],
        _ => Seq::<Seq<char>>::empty(),
    }
}

/// Maps a dependency-type keyword to its CLI flag; a value outside
/// `regular`, `dev` and `build` is an `InvalidParameter` naming it.
pub fn dependency_type_to_cli_flag(dependency_type: Option<&str>) -> (r: Result<
    Option<&'static str>,
    ToolError,
>)
    ensures
        match r {
            Ok(f) => spec_dep_type_flag(dependency_type.deep_view()) == Ok::<_, ToolErrorV>(
                f.deep_view(),
            ),
            Err(e) => spec_dep_type_flag(dependency_type.deep_view()) == Err::<
                Option<Seq<char>>,
                _,
            >(e@),
        },
        r matches Err(e) ==> e is InvalidParameter,
{
    match dependency_type {
        None => Ok(None),
        Some(d) => {
            if str_eq(d, "regular") {
                Ok(None)
            } else if str_eq(d, "dev") {
                Ok(Some("--dev"))
            } else if str_eq(d, "build") {
                Ok(Some("--build"))
            } else {
                let mut msg = String::new();
                msg.append("Unknown dependency type: ");
                msg.append(d);
                Err(ToolError::InvalidParameter(msg))
            }
        },
    }
}

/// Adds a dependency to a Rust project using `cargo add`.
#[derive(Debug)]
pub struct CargoAddRequest {
    pub package_spec: PackageWithVersion,
    pub dependency_type: Option<String>,
    pub optional: bool,
    pub no_default_features: Option<bool>,
    pub default_features: bool,
    pub features: Option<Vec<String>>,
    pub rename: Option<String>,
    pub target_package: String,
    pub target: Option<String>,
    pub dry_run: Option<bool>,
}

/// Every field of the request decodes.
pub open spec fn spec_add_decode_ok(m: Seq<(Seq<char>, crate::json::JsonValueV)>) -> bool {
    &&& spec_req_string(m, "package"@) is Ok
    &&& spec_opt_string(m, "version"@) is Ok
    &&& spec_opt_string(m, "dependency_type"@) is Ok
    &&& spec_bool_or_false(m, "optional"@) is Ok
    &&& spec_opt_bool(m, "no_default_features"@) is Ok
    &&& spec_bool_or_false(m, "default_features"@) is Ok
    &&& spec_opt_string_list(m, "features"@) is Ok
    &&& spec_opt_string(m, "rename"@) is Ok
    &&& spec_req_string(m, "target_package"@) is Ok
    &&& spec_opt_string(m, "target"@) is Ok
    &&& spec_opt_bool(m, "dry_run"@) is Ok
}

/// Each field of `q` is the decoded value of its parameter.
pub open spec fn spec_add_fields(
    m: Seq<(Seq<char>, crate::json::JsonValueV)>,
    q: CargoAddRequest,
) -> bool {
    &&& q.package_spec.package@ == spec_req_string(m, "package"@)->Ok_0
    &&& q.package_spec.version.deep_view() == spec_opt_string(m, "version"@)->Ok_0
    &&& q.dependency_type.deep_view() == spec_opt_string(m, "dependency_type"@)->Ok_0
    &&& q.optional == spec_bool_or_false(m, "optional"@)->Ok_0
    &&& q.no_default_features == spec_opt_bool(m, "no_default_features"@)->Ok_0
    &&& q.default_features == spec_bool_or_false(m, "default_features"@)->Ok_0
    &&& q.features.deep_view() == spec_opt_string_list(m, "features"@)->Ok_0
    &&& q.rename.deep_view() == spec_opt_string(m, "rename"@)->Ok_0
    &&& q.target_package@ == spec_req_string(m, "target_package"@)->Ok_0
    &&& q.target.deep_view() == spec_opt_string(m, "target"@)->Ok_0
    &&& q.dry_run == spec_opt_bool(m, "dry_run"@)->Ok_0
}

/// `e` is the decode error of one of the fields that fail.
pub open spec fn spec_add_decode_err(
    m: Seq<(Seq<char>, crate::json::JsonValueV)>,
    e: ToolErrorV,
) -> bool {
    ||| (spec_req_string(m, "package"@) is Err && e == spec_req_string(m, "package"@)->Err_0)
    ||| (spec_opt_string(m, "version"@) is Err && e == spec_opt_string(m, "version"@)->Err_0)
    ||| (spec_opt_string(m, "dependency_type"@) is Err && e == spec_opt_string(
        m,
        "dependency_type"@,
    )->Err_0)
    ||| (spec_bool_or_false(m, "optional"@) is Err && e == spec_bool_or_false(
        m,
        "optional"@,
    )->Err_0)
    ||| (spec_opt_bool(m, "no_default_features"@) is Err && e == spec_opt_bool(
        m,
        "no_default_features"@,
    )->Err_0)
    ||| (spec_bool_or_false(m, "default_features"@) is Err && e == spec_bool_or_false(
        m,
        "default_features"@,
    )->Err_0)
    ||| (spec_opt_string_list(m, "features"@) is Err && e == spec_opt_string_list(
        m,
        "features"@,
    )->Err_0)
    ||| (spec_opt_string(m, "rename"@) is Err && e == spec_opt_string(m, "rename"@)->Err_0)
    ||| (spec_req_string(m, "target_package"@) is Err && e == spec_req_string(
        m,
        "target_package"@,
    )->Err_0)
    ||| (spec_opt_string(m, "target"@) is Err && e == spec_opt_string(m, "target"@)->Err_0)
    ||| (spec_opt_bool(m, "dry_run"@) is Err && e == spec_opt_bool(m, "dry_run"@)->Err_0)
}

impl CargoAddRequest {
    /// Decodes the request from raw parameters, leniently; `package`
    /// and `target_package` are required.
    pub fn decode(p: &RawParams) -> (r: Result<CargoAddRequest, ToolError>)
        ensures
            r is Ok <==> spec_add_decode_ok(p@),
            r matches Ok(q) ==> spec_add_fields(p@, q),
            r matches Err(e) ==> spec_add_decode_err(p@, e@),
            r matches Err(e) ==> e is InvalidParameter,
    {
        let package_spec = PackageWithVersion::decode(p)?;
        let dependency_type = opt_string(p, "dependency_type")?;
        let optional = bool_or_false(p, "optional")?;
        let no_default_features = opt_bool(p, "no_default_features")?;
        let default_features = bool_or_false(p, "default_features")?;
        let features = opt_string_list(p, "features")?;
        let rename = opt_string(p, "rename")?;
        let target_package = req_string(p, "target_package")?;
        let target = opt_string(p, "target")?;
        let dry_run = opt_bool(p, "dry_run")?;
        Ok(
            CargoAddRequest {
                package_spec,
                dependency_type,
                optional,
                no_default_features,
                default_features,
                features,
                rename,
                target_package,
                target,
                dry_run,
            },
        )
    }

    /// The full argument vector of this request when the dependency
    /// type is accepted.
    pub open spec fn spec_args(&self) -> Seq<Seq<char>> {
        seq![
            "add"@,
            spec_pkg_arg(self.package_spec.package@, self.package_spec.version.deep_view()),
        ] + seg_dep_type(self.dependency_type.deep_view()) + seg_flag(self.optional, "--optional"@)
            + seg_flag(opt_or(self.no_default_features, false), "--no-default-features"@)
            + seg_flag(self.default_features, "--default-features"@) + seg_join(
            "--features"@,
            self.features.deep_view(),
        ) + seq!["--package"@, self.target_package@] + seg_opt(
            "--target"@,
            self.target.deep_view(),
        ) + seg_opt("--rename"@, self.rename.deep_view()) + seg_flag(
            opt_or(self.dry_run, false),
            "--dry-run"@,
        )
    }

    /// Builds the `cargo add` invocation. Fails exactly when the
    /// dependency type is outside its closed set, naming the value.
    pub fn build_cmd(&self) -> (r: Result<Invocation, ToolError>)
        ensures
            r is Ok <==> spec_dep_type_flag(self.dependency_type.deep_view()) is Ok,
            r matches Err(e) ==> spec_dep_type_flag(self.dependency_type.deep_view()) == Err::<
                Option<Seq<char>>,
                ToolErrorV,
            >(e@),
            r matches Err(e) ==> e is InvalidParameter,
            r matches Ok(inv) ==> {
                &&& inv.program@ == "cargo"@
                &&& inv.args.deep_view() == self.spec_args()
                &&& inv.env.deep_view() == Seq::<(Seq<char>, Seq<char>)>::empty()
                &&& inv.cwd is None
            },
    {
        let mut cmd = Invocation::new("cargo");
        cmd.arg("add");
        let pkg = self.package_spec.to_spec();
        cmd.arg(pkg.as_str());
        proof {
            assert(cmd.args.deep_view() =~= seq![
                "add"@,
                spec_pkg_arg(self.package_spec.package@, self.package_spec.version.deep_view()),
            ]);
        }
        let dt = match &self.dependency_type {
            Some(s) => Some(s.as_str()),
            None => None,
        };
        let flag = dependency_type_to_cli_flag(dt)?;
        match flag {
            Some(f) => {
                cmd.arg(f);
                proof {
                    assert(seq![f@] =~= seg_dep_type(self.dependency_type.deep_view()));
                }
            },
            None => {
                proof {
                    assert(cmd.args.deep_view() + seg_dep_type(self.dependency_type.deep_view())
                        =~= cmd.args.deep_view());
                }
            },
        }
        cmd.flag_if(self.optional, "--optional");
        cmd.flag_if(opt_true(&self.no_default_features), "--no-default-features");
        cmd.flag_if(self.default_features, "--default-features");
        cmd.join_list("--features", &self.features);
        let ghost before_pkg = cmd.args.deep_view();
        cmd.arg("--package");
        cmd.arg(self.target_package.as_str());
        proof {
            assert(before_pkg + seq!["--package"@] + seq![self.target_package@] =~= before_pkg
                + seq!["--package"@, self.target_package@]);
        }
        cmd.opt("--target", &self.target);
        cmd.opt("--rename", &self.rename);
        cmd.flag_if(opt_true(&self.dry_run), "--dry-run");
        Ok(cmd)
    }
}

/// Removes dependencies from a Cargo.toml manifest file.
#[derive(Debug)]
pub struct CargoRemoveRequest {
    pub dep_id: Vec<String>,
    pub dependency_type: Option<String>,
    pub target: Option<String>,
    pub target_package: String,
    pub dry_run: Option<bool>,
}

/// Every field of the request decodes.
pub open spec fn spec_remove_decode_ok(m: Seq<(Seq<char>, crate::json::JsonValueV)>) -> bool {
    &&& spec_req_string_array(m, "dep_id"@) is Ok
    &&& spec_opt_string(m, "dependency_type"@) is Ok
    &&& spec_opt_string(m, "target"@) is Ok
    &&& spec_req_string(m, "target_package"@) is Ok
    &&& spec_opt_bool(m, "dry_run"@) is Ok
}

/// Each field of `q` is the decoded value of its parameter.
pub open spec fn spec_remove_fields(
    m: Seq<(Seq<char>, crate::json::JsonValueV)>,
    q: CargoRemoveRequest,
) -> bool {
    &&& q.dep_id.deep_view() == spec_req_string_array(m, "dep_id"@)->Ok_0
    &&& q.dependency_type.deep_view() == spec_opt_string(m, "dependency_type"@)->Ok_0
    &&& q.target.deep_view() == spec_opt_string(m, "target"@)->Ok_0
    &&& q.target_package@ == spec_req_string(m, "target_package"@)->Ok_0
    &&& q.dry_run == spec_opt_bool(m, "dry_run"@)->Ok_0
}

/// `e` is the decode error of one of the fields that fail.
pub open spec fn spec_remove_decode_err(
    m: Seq<(Seq<char>, crate::json::JsonValueV)>,
    e: ToolErrorV,
) -> bool {
    ||| (spec_req_string_array(m, "dep_id"@) is Err && e == spec_req_string_array(
        m,
        "dep_id"@,
    )->Err_0)
    ||| (spec_opt_string(m, "dependency_type"@) is Err && e == spec_opt_string(
        m,
        "dependency_type"@,
    )->Err_0)
    ||| (spec_opt_string(m, "target"@) is Err && e == spec_opt_string(m, "target"@)->Err_0)
    ||| (spec_req_string(m, "target_package"@) is Err && e == spec_req_string(
        m,
        "target_package"@,
    )->Err_0)
    ||| (spec_opt_bool(m, "dry_run"@) is Err && e == spec_opt_bool(m, "dry_run"@)->Err_0)
}

impl CargoRemoveRequest {
    /// Decodes the request from raw parameters; `dep_id` is strictly
    /// an array of strings and `target_package` is required.
    pub fn decode(p: &RawParams) -> (r: Result<CargoRemoveRequest, ToolError>)
        ensures
            r is Ok <==> spec_remove_decode_ok(p@),
            r matches Ok(q) ==> spec_remove_fields(p@, q),
            r matches Err(e) ==> spec_remove_decode_err(p@, e@),
            r matches Err(e) ==> e is InvalidParameter,
    {
        let dep_id = req_string_array(p, "dep_id")?;
        let dependency_type = opt_string(p, "dependency_type")?;
        let target = opt_string(p, "target")?;
        let target_package = req_string(p, "target_package")?;
        let dry_run = opt_bool(p, "dry_run")?;
        Ok(CargoRemoveRequest { dep_id, dependency_type, target, target_package, dry_run })
    }

    /// The full argument vector of this request when the dependency
    /// type is accepted.
    pub open spec fn spec_args(&self) -> Seq<Seq<char>> {
        seq!["remove"@] + self.dep_id.deep_view() + seg_dep_type(self.dependency_type.deep_view())
            + seg_opt("--target"@, self.target.deep_view()) + seq![
            "--package"@,
            self.target_package@,
        ] + seg_flag(opt_or(self.dry_run, false), "--dry-run"@)
    }

    /// Builds the `cargo remove` invocation. Fails exactly when the
    /// dependency type is outside its closed set, naming the value.
    pub fn build_cmd(&self) -> (r: Result<Invocation, ToolError>)
        ensures
            r is Ok <==> spec_dep_type_flag(self.dependency_type.deep_view()) is Ok,
            r matches Err(e) ==> spec_dep_type_flag(self.dependency_type.deep_view()) == Err::<
                Option<Seq<char>>,
                ToolErrorV,
            >(e@),
            r matches Err(e) ==> e is InvalidParameter,
            r matches Ok(inv) ==> {
                &&& inv.program@ == "cargo"@
                &&& inv.args.deep_view() == self.spec_args()
                &&& inv.env.deep_view() == Seq::<(Seq<char>, Seq<char>)>::empty()
                &&& inv.cwd is None
            },
    {
        let mut cmd = Invocation::new("cargo");
        cmd.arg("remove");
        proof {
            assert(cmd.args.deep_view() =~= seq!["remove"@]);
        }
        cmd.all_items(&self.dep_id);
        let dt = match &self.dependency_type {
            Some(s) => Some(s.as_str()),
            None => None,
        };
        let flag = dependency_type_to_cli_flag(dt)?;
        match flag {
            Some(f) => {
                cmd.arg(f);
                proof {
                    assert(seq![f@] =~= seg_dep_type(self.dependency_type.deep_view()));
                }
            },
            None => {
                proof {
                    assert(cmd.args.deep_view() + seg_dep_type(self.dependency_type.deep_view())
                        =~= cmd.args.deep_view());
                }
            },
        }
        cmd.opt("--target", &self.target);
        let ghost before_pkg = cmd.args.deep_view();
        cmd.arg("--package");
        cmd.arg(self.target_package.as_str());
        proof {
            assert(before_pkg + seq!["--package"@] + seq![self.target_package@] =~= before_pkg
                + seq!["--package"@, self.target_package@]);
        }
        cmd.flag_if(opt_true(&self.dry_run), "--dry-run");
        Ok(cmd)
    }
}

/// The registered `cargo add` tool.
#[derive(Debug)]
pub struct CargoAddRmcpTool;

impl Tool for CargoAddRmcpTool {
    open spec fn spec_name(&self) -> Seq<char> {
        "cargo-add"@
    }

    open spec fn spec_title(&self) -> Seq<char> {
        "Add Rust dependency"@
    }

    open spec fn spec_description(&self) -> Seq<char> {
        "Adds a dependency to a Rust project using cargo add."@
    }

    open spec fn spec_schema(&self) -> Seq<SchemaFieldV> {
        seq![
            field_v("package"@, FieldType::Text, "The package name"@, true),
            field_v("version"@, FieldType::Text, "Optional version specification"@, false),
            field_v("dependency_type"@, FieldType::Text, ""@, false),
            field_v("optional"@, FieldType::Boolean, ""@, false),
            field_v("no_default_features"@, FieldType::Boolean, ""@, false),
            field_v("default_features"@, FieldType::Boolean, ""@, false),
            field_v("features"@, FieldType::TextArray, ""@, false),
            field_v("rename"@, FieldType::Text, ""@, false),
            field_v("target_package"@, FieldType::Text, ""@, true),
            field_v("target"@, FieldType::Text, ""@, false),
            field_v("dry_run"@, FieldType::Boolean, ""@, false),
        ]
    }

    open spec fn spec_prepare_ok(&self, m: Seq<(Seq<char>, crate::json::JsonValueV)>) -> bool {
        &&& spec_add_decode_ok(m)
        &&& spec_dep_type_flag(spec_opt_string(m, "dependency_type"@)->Ok_0) is Ok
    }

    open spec fn spec_prepared(
        &self,
        m: Seq<(Seq<char>, crate::json::JsonValueV)>,
        root: Option<Seq<char>>,
        pp: Prepared,
    ) -> bool {
        exists|q: CargoAddRequest|
            #![trigger spec_add_fields(m, q)]
            {
                &&& spec_add_fields(m, q)
                &&& pp.invocation.program@ == "cargo"@
                &&& pp.invocation.args.deep_view() == q.spec_args()
                &&& pp.invocation.env.deep_view() == Seq::<(Seq<char>, Seq<char>)>::empty()
                &&& pp.invocation.cwd.deep_view() == root
                &&& pp.pending is Plain
            }
    }

    open spec fn spec_prepare_err(&self, m: Seq<(Seq<char>, crate::json::JsonValueV)>, e: ToolErrorV) -> bool {
        ||| spec_add_decode_err(m, e)
        ||| (spec_add_decode_ok(m) && spec_dep_type_flag(spec_opt_string(m, "dependency_type"@)->Ok_0)
            == Err::<Option<Seq<char>>, ToolErrorV>(e))
    }

    fn name(&self) -> (r: &'static str) {
        "cargo-add"
    }

    fn title(&self) -> (r: &'static str) {
        "Add Rust dependency"
    }

    fn description(&self) -> (r: &'static str) {
        "Adds a dependency to a Rust project using cargo add."
    }

    fn schema(&self) -> (r: Vec<SchemaField>) {
        let mut s: Vec<SchemaField> = Vec::new();
        push_field(&mut s, "package", FieldType::Text, "The package name", true);
        push_field(&mut s, "version", FieldType::Text, "Optional version specification", false);
        push_field(&mut s, "dependency_type", FieldType::Text, "", false);
        push_field(&mut s, "optional", FieldType::Boolean, "", false);
        push_field(&mut s, "no_default_features", FieldType::Boolean, "", false);
        push_field(&mut s, "default_features", FieldType::Boolean, "", false);
        push_field(&mut s, "features", FieldType::TextArray, "", false);
        push_field(&mut s, "rename", FieldType::Text, "", false);
        push_field(&mut s, "target_package", FieldType::Text, "", true);
        push_field(&mut s, "target", FieldType::Text, "", false);
        push_field(&mut s, "dry_run", FieldType::Boolean, "", false);
        proof {
            assert(s.deep_view() =~= self.spec_schema());
        }
        s
    }

    fn prepare(&self, params: &RawParams, config: &ProcessWideConfig) -> (r: Result<
        Prepared,
        ToolError,
    >) {
        let request = CargoAddRequest::decode(params)?;
        let mut invocation = request.build_cmd()?;
        apply_workspace_root(config, &mut invocation);
        let prepared = Prepared { invocation, pending: PendingCall::Plain };
        proof {
            assert(spec_add_fields(params@, request));
            assert(self.spec_prepared(params@, config.workspace_root.deep_view(), prepared));
        }
        Ok(prepared)
    }
}

/// The registered `cargo remove` tool.
#[derive(Debug)]
pub struct CargoRemoveRmcpTool;

impl Tool for CargoRemoveRmcpTool {
    open spec fn spec_name(&self) -> Seq<char> {
        "cargo-remove"@
    }

    open spec fn spec_title(&self) -> Seq<char> {
        "Remove Rust dependency"@
    }

    open spec fn spec_description(&self) -> Seq<char> {
        "Remove dependencies from a Cargo.toml manifest file."@
    }

    open spec fn spec_schema(&self) -> Seq<SchemaFieldV> {
        seq![
            field_v("dep_id"@, FieldType::TextArray, ""@, true),
            field_v("dependency_type"@, FieldType::Text, ""@, false),
            field_v("target"@, FieldType::Text, ""@, false),
            field_v("target_package"@, FieldType::Text, ""@, true),
            field_v("dry_run"@, FieldType::Boolean, ""@, false),
        ]
    }

    open spec fn spec_prepare_ok(&self, m: Seq<(Seq<char>, crate::json::JsonValueV)>) -> bool {
        &&& spec_remove_decode_ok(m)
        &&& spec_dep_type_flag(spec_opt_string(m, "dependency_type"@)->Ok_0) is Ok
    }

    open spec fn spec_prepared(
        &self,
        m: Seq<(Seq<char>, crate::json::JsonValueV)>,
        root: Option<Seq<char>>,
        pp: Prepared,
    ) -> bool {
        exists|q: CargoRemoveRequest|
            #![trigger spec_remove_fields(m, q)]
            {
                &&& spec_remove_fields(m, q)
                &&& pp.invocation.program@ == "cargo"@
                &&& pp.invocation.args.deep_view() == q.spec_args()
                &&& pp.invocation.env.deep_view() == Seq::<(Seq<char>, Seq<char>)>::empty()
                &&& pp.invocation.cwd.deep_view() == root
                &&& pp.pending is Plain
            }
    }

    open spec fn spec_prepare_err(&self, m: Seq<(Seq<char>, crate::json::JsonValueV)>, e: ToolErrorV) -> bool {
        ||| spec_remove_decode_err(m, e)
        ||| (spec_remove_decode_ok(m) && spec_dep_type_flag(spec_opt_string(m, "dependency_type"@)->Ok_0)
            == Err::<Option<Seq<char>>, ToolErrorV>(e))
    }

    fn name(&self) -> (r: &'static str) {
        "cargo-remove"
    }

    fn title(&self) -> (r: &'static str) {
        "Remove Rust dependency"
    }

    fn description(&self) -> (r: &'static str) {
        "Remove dependencies from a Cargo.toml manifest file."
    }

    fn schema(&self) -> (r: Vec<SchemaField>) {
        let mut s: Vec<SchemaField> = Vec::new();
        push_field(&mut s, "dep_id", FieldType::TextArray, "", true);
        push_field(&mut s, "dependency_type", FieldType::Text, "", false);
        push_field(&mut s, "target", FieldType::Text, "", false);
        push_field(&mut s, "target_package", FieldType::Text, "", true);
        push_field(&mut s, "dry_run", FieldType::Boolean, "", false);
        proof {
            assert(s.deep_view() =~= self.spec_schema());
        }
        s
    }

    fn prepare(&self, params: &RawParams, config: &ProcessWideConfig) -> (r: Result<
        Prepared,
        ToolError,
    >) {
        let request = CargoRemoveRequest::decode(params)?;
        let mut invocation = request.build_cmd()?;
        apply_workspace_root(config, &mut invocation);
        let prepared = Prepared { invocation, pending: PendingCall::Plain };
        proof {
            assert(spec_remove_fields(params@, request));
            assert(self.spec_prepared(params@, config.workspace_root.deep_view(), prepared));
        }
        Ok(prepared)
    }
}

} // verus!
