//! The `cargo doc` wrapper, with the path arithmetic that locates the
//! generated documentation index. Probing the filesystem for the index
//! itself is left to the embedding; this module computes the places to
//! look.

use vstd::prelude::*;

use crate::decode::{
    opt_bool, opt_string, opt_string_list, opt_u32, spec_opt_bool, spec_opt_string,
    spec_opt_string_list, spec_opt_u32,
};
use crate::errors::{ToolError, ToolErrorV};
use crate::invocation::{
    Invocation, ProcessWideConfig, apply_workspace_root, opt_or, opt_true, seg_each, seg_flag, seg_join, seg_opt, seg_opt_u32,
};
use crate::json::RawParams;
use crate::strutil::{dash_to_underscore, spec_dash_to_underscore};
use crate::schema::{field_v, push_field, FieldType, SchemaField, SchemaFieldV};
use crate::tool::{PendingCall, Prepared, Tool};

verus! {

/// Builds documentation for a Rust package using Cargo.
#[derive(Debug)]
pub struct CargoDocRequest {
    pub package: Option<Vec<String>>,
    pub workspace: Option<bool>,
    pub exclude: Option<Vec<String>>,
    pub no_deps: Option<bool>,
    pub document_private_items: Option<bool>,
    pub docsrs_config: Option<bool>,
    pub lib: Option<bool>,
    pub bins: Option<bool>,
    pub bin: Option<String>,
    pub examples: Option<bool>,
    pub example: Option<String>,
    pub features: Option<Vec<String>>,
    pub all_features: Option<bool>,
    pub no_default_features: Option<bool>,
    pub release: Option<bool>,
    pub profile: Option<String>,
    pub jobs: Option<u32>,
    pub keep_going: Option<bool>,
    pub target: Option<String>,
}

/// Every field of the request decodes.
pub open spec fn spec_doc_decode_ok(m: Seq<(Seq<char>, crate::json::JsonValueV)>) -> bool {
    &&& spec_opt_string_list(m, "package"@) is Ok
    &&& spec_opt_bool(m, "workspace"@) is Ok
    &&& spec_opt_string_list(m, "exclude"@) is Ok
    &&& spec_opt_bool(m, "no_deps"@) is Ok
    &&& spec_opt_bool(m, "document_private_items"@) is Ok
    &&& spec_opt_bool(m, "docsrs_config"@) is Ok
    &&& spec_opt_bool(m, "lib"@) is Ok
    &&& spec_opt_bool(m, "bins"@) is Ok
    &&& spec_opt_string(m, "bin"@) is Ok
    &&& spec_opt_bool(m, "examples"@) is Ok
    &&& spec_opt_string(m, "example"@) is Ok
    &&& spec_opt_string_list(m, "features"@) is Ok
    &&& spec_opt_bool(m, "all_features"@) is Ok
    &&& spec_opt_bool(m, "no_default_features"@) is Ok
    &&& spec_opt_bool(m, "release"@) is Ok
    &&& spec_opt_string(m, "profile"@) is Ok
    &&& spec_opt_u32(m, "jobs"@) is Ok
    &&& spec_opt_bool(m, "keep_going"@) is Ok
    &&& spec_opt_string(m, "target"@) is Ok
}

/// Each field of `q` is the decoded value of its parameter.
pub open spec fn spec_doc_fields(
    m: Seq<(Seq<char>, crate::json::JsonValueV)>,
    q: CargoDocRequest,
) -> bool {
    &&& q.package.deep_view() == spec_opt_string_list(m, "package"@)->Ok_0
    &&& q.workspace == spec_opt_bool(m, "workspace"@)->Ok_0
    &&& q.exclude.deep_view() == spec_opt_string_list(m, "exclude"@)->Ok_0
    &&& q.no_deps == spec_opt_bool(m, "no_deps"@)->Ok_0
    &&& q.document_private_items == spec_opt_bool(m, "document_private_items"@)->Ok_0
    &&& q.docsrs_config == spec_opt_bool(m, "docsrs_config"@)->Ok_0
    &&& q.lib == spec_opt_bool(m, "lib"@)->Ok_0
    &&& q.bins == spec_opt_bool(m, "bins"@)->Ok_0
    &&& q.bin.deep_view() == spec_opt_string(m, "bin"@)->Ok_0
    &&& q.examples == spec_opt_bool(m, "examples"@)->Ok_0
    &&& q.example.deep_view() == spec_opt_string(m, "example"@)->Ok_0
    &&& q.features.deep_view() == spec_opt_string_list(m, "features"@)->Ok_0
    &&& q.all_features == spec_opt_bool(m, "all_features"@)->Ok_0
    &&& q.no_default_features == spec_opt_bool(m, "no_default_features"@)->Ok_0
    &&& q.release == spec_opt_bool(m, "release"@)->Ok_0
    &&& q.profile.deep_view() == spec_opt_string(m, "profile"@)->Ok_0
    &&& q.jobs == spec_opt_u32(m, "jobs"@)->Ok_0
    &&& q.keep_going == spec_opt_bool(m, "keep_going"@)->Ok_0
    &&& q.target.deep_view() == spec_opt_string(m, "target"@)->Ok_0
}

/// `e` is the decode error of one of the fields that fail.
pub open spec fn spec_doc_decode_err(
    m: Seq<(Seq<char>, crate::json::JsonValueV)>,
    e: ToolErrorV,
) -> bool {
    ||| (spec_opt_string_list(m, "package"@) is Err && e == spec_opt_string_list(
        m,
        "package"@,
    )->Err_0)
    ||| (spec_opt_bool(m, "workspace"@) is Err && e == spec_opt_bool(m, "workspace"@)->Err_0)
    ||| (spec_opt_string_list(m, "exclude"@) is Err && e == spec_opt_string_list(
        m,
        "exclude"@,
    )->Err_0)
    ||| (spec_opt_bool(m, "no_deps"@) is Err && e == spec_opt_bool(m, "no_deps"@)->Err_0)
    ||| (spec_opt_bool(m, "document_private_items"@) is Err && e == spec_opt_bool(
        m,
        "document_private_items"@,
    )->Err_0)
    ||| (spec_opt_bool(m, "docsrs_config"@) is Err && e == spec_opt_bool(
        m,
        "docsrs_config"@,
    )->Err_0)
    ||| (spec_opt_bool(m, "lib"@) is Err && e == spec_opt_bool(m, "lib"@)->Err_0)
    ||| (spec_opt_bool(m, "bins"@) is Err && e == spec_opt_bool(m, "bins"@)->Err_0)
    ||| (spec_opt_string(m, "bin"@) is Err && e == spec_opt_string(m, "bin"@)->Err_0)
    ||| (spec_opt_bool(m, "examples"@) is Err && e == spec_opt_bool(m, "examples"@)->Err_0)
    ||| (spec_opt_string(m, "example"@) is Err && e == spec_opt_string(m, "example"@)->Err_0)
    ||| (spec_opt_string_list(m, "features"@) is Err && e == spec_opt_string_list(
        m,
        "features"@,
    )->Err_0)
    ||| (spec_opt_bool(m, "all_features"@) is Err && e == spec_opt_bool(m, "all_features"@)->Err_0)
    ||| (spec_opt_bool(m, "no_default_features"@) is Err && e == spec_opt_bool(
        m,
        "no_default_features"@,
    )->Err_0)
    ||| (spec_opt_bool(m, "release"@) is Err && e == spec_opt_bool(m, "release"@)->Err_0)
    ||| (spec_opt_string(m, "profile"@) is Err && e == spec_opt_string(m, "profile"@)->Err_0)
    ||| (spec_opt_u32(m, "jobs"@) is Err && e == spec_opt_u32(m, "jobs"@)->Err_0)
    ||| (spec_opt_bool(m, "keep_going"@) is Err && e == spec_opt_bool(m, "keep_going"@)->Err_0)
    ||| (spec_opt_string(m, "target"@) is Err && e == spec_opt_string(m, "target"@)->Err_0)
}

/// The directory the documentation lands in: `target/doc`, or
/// `target/<triple>/doc` under a target, prefixed by the workspace
/// root when one is configured.
pub open spec fn spec_doc_dir(target: Option<Seq<char>>, root: Option<Seq<char>>) -> Seq<char> {
    let rel = match target {
        Some(t) => "target/"@ + t + "/doc"@,
        None => "target/doc"@,
    };
    match root {
        Some(r) => r + "/"@ + rel,
        None => rel,
    }
}

impl CargoDocRequest {
    /// Decodes the request from raw parameters, leniently.
    pub fn decode(p: &RawParams) -> (r: Result<CargoDocRequest, ToolError>)
        ensures
            r is Ok <==> spec_doc_decode_ok(p@),
            r matches Ok(q) ==> spec_doc_fields(p@, q),
            r matches Err(e) ==> spec_doc_decode_err(p@, e@),
            r matches Err(e) ==> e is InvalidParameter,
    {
        let package = opt_string_list(p, "package")?;
        let workspace = opt_bool(p, "workspace")?;
        let exclude = opt_string_list(p, "exclude")?;
        let no_deps = opt_bool(p, "no_deps")?;
        let document_private_items = opt_bool(p, "document_private_items")?;
        let docsrs_config = opt_bool(p, "docsrs_config")?;
        let lib = opt_bool(p, "lib")?;
        let bins = opt_bool(p, "bins")?;
        let bin = opt_string(p, "bin")?;
        let examples = opt_bool(p, "examples")?;
        let example = opt_string(p, "example")?;
        let features = opt_string_list(p, "features")?;
        let all_features = opt_bool(p, "all_features")?;
        let no_default_features = opt_bool(p, "no_default_features")?;
        let release = opt_bool(p, "release")?;
        let profile = opt_string(p, "profile")?;
        let jobs = opt_u32(p, "jobs")?;
        let keep_going = opt_bool(p, "keep_going")?;
        let target = opt_string(p, "target")?;
        Ok(
            CargoDocRequest {
                package,
                workspace,
                exclude,
                no_deps,
                document_private_items,
                docsrs_config,
                lib,
                bins,
                bin,
                examples,
                example,
                features,
                all_features,
                no_default_features,
                release,
                profile,
                jobs,
                keep_going,
                target,
            },
        )
    }

    /// The full argument vector of this request, in order. The
    /// `--no-deps` flag is on unless explicitly disabled.
    pub open spec fn spec_args(&self) -> Seq<Seq<char>> {
        seq!["doc"@] + seg_each("--package"@, self.package.deep_view()) + seg_flag(
            opt_or(self.workspace, false),
            "--workspace"@,
        ) + seg_each("--exclude"@, self.exclude.deep_view()) + seg_flag(
            opt_or(self.no_deps, true),
            "--no-deps"@,
        ) + seg_flag(opt_or(self.document_private_items, false), "--document-private-items"@)
            + seg_flag(opt_or(self.lib, false), "--lib"@) + seg_flag(
            opt_or(self.bins, false),
            "--bins"@,
        ) + seg_opt("--bin"@, self.bin.deep_view()) + seg_flag(
            opt_or(self.examples, false),
            "--examples"@,
        ) + seg_opt("--example"@, self.example.deep_view()) + seg_join(
            "--features"@,
            self.features.deep_view(),
        ) + seg_flag(opt_or(self.all_features, false), "--all-features"@) + seg_flag(
            opt_or(self.no_default_features, false),
            "--no-default-features"@,
        ) + seg_flag(opt_or(self.release, false), "--release"@) + seg_opt(
            "--profile"@,
            self.profile.deep_view(),
        ) + seg_opt_u32("--jobs"@, self.jobs) + seg_flag(
            opt_or(self.keep_going, false),
            "--keep-going"@,
        ) + seg_opt("--target"@, self.target.deep_view())
    }

    /// The environment overrides of this request.
    pub open spec fn spec_env(&self) -> Seq<(Seq<char>, Seq<char>)> {
        if opt_or(self.docsrs_config, false) {
            seq![("RUSTDOCFLAGS"@, "--cfg docsrs"@)]
        } else {
            Seq::<(Seq<char>, Seq<char>)>::empty()
        }
    }

    /// Builds the `cargo doc` invocation; never fails.
    pub fn build_cmd(&self) -> (r: Result<Invocation, ToolError>)
        ensures
            r is Ok,
            r matches Ok(inv) ==> {
                &&& inv.program@ == "cargo"@
                &&& inv.args.deep_view() == self.spec_args()
                &&& inv.env.deep_view() == self.spec_env()
                &&& inv.cwd is None
            },
    {
        let mut cmd = Invocation::new("cargo");
        cmd.arg("doc");
        proof {
            assert(cmd.args.deep_view() =~= seq!["doc"@]);
        }
        cmd.each("--package", &self.package);
        cmd.flag_if(opt_true(&self.workspace), "--workspace");
        cmd.each("--exclude", &self.exclude);
        let no_deps_on = match &self.no_deps {
            Some(b) => *b,
            None => true,
        };
        cmd.flag_if(no_deps_on, "--no-deps");
        cmd.flag_if(opt_true(&self.document_private_items), "--document-private-items");
        cmd.env_if(opt_true(&self.docsrs_config), "RUSTDOCFLAGS", "--cfg docsrs");
        cmd.flag_if(opt_true(&self.lib), "--lib");
        cmd.flag_if(opt_true(&self.bins), "--bins");
        cmd.opt("--bin", &self.bin);
        cmd.flag_if(opt_true(&self.examples), "--examples");
        cmd.opt("--example", &self.example);
        cmd.join_list("--features", &self.features);
        cmd.flag_if(opt_true(&self.all_features), "--all-features");
        cmd.flag_if(opt_true(&self.no_default_features), "--no-default-features");
        cmd.flag_if(opt_true(&self.release), "--release");
        cmd.opt("--profile", &self.profile);
        cmd.opt_u32("--jobs", &self.jobs);
        cmd.flag_if(opt_true(&self.keep_going), "--keep-going");
        cmd.opt("--target", &self.target);
        Ok(cmd)
    }

    /// The documentation directory this request writes into, under the
    /// configured workspace root when one is set.
    pub fn doc_dir(&self, workspace_root: &Option<String>) -> (r: String)
        ensures
            r@ == spec_doc_dir(self.target.deep_view(), workspace_root.deep_view()),
    {
        let mut rel = String::new();
        match &self.target {
            Some(t) => {
                rel.append("target/");
                rel.append(t.as_str());
                rel.append("/doc");
            },
            None => {
                rel.append("target/doc");
            },
        }
        match workspace_root {
            Some(root) => {
                let mut abs = root.clone();
                abs.append("/");
                abs.append(rel.as_str());
                abs
            },
            None => rel,
        }
    }

    /// The index file the first requested package would document to:
    /// the package name with hyphens turned to underscores, under the
    /// documentation directory. `None` when no package is requested.
    pub fn package_index_candidate(&self, workspace_root: &Option<String>) -> (r: Option<String>)
        ensures
            r.deep_view() == match self.package.deep_view() {
                Some(items) => if items.len() > 0 {
                    Some(
                        spec_doc_dir(self.target.deep_view(), workspace_root.deep_view()) + "/"@
                            + spec_dash_to_underscore(items[0]) + "/index.html"@,
                    )
                } else {
                    None
                },
                None => None,
            },
    {
        match &self.package {
            Some(items) => {
                if items.len() > 0 {
                    let mut path = self.doc_dir(workspace_root);
                    path.append("/");
                    let mapped = dash_to_underscore(items[0].as_str());
                    path.append(mapped.as_str());
                    path.append("/index.html");
                    Some(path)
                } else {
                    None
                }
            },
            None => None,
        }
    }

    /// Picks the canonical form of a path when the embedding resolved
    /// one, and the original path otherwise.
    pub fn normalize_path(canonical: Option<String>, fallback: String) -> (r: String)
        ensures
            r@ == match canonical.deep_view() {
                Some(c) => c,
                None => fallback@,
            },
    {
        match canonical {
            Some(c) => c,
            None => fallback,
        }
    }
}

/// The registered `cargo-doc` tool.
#[derive(Debug)]
pub struct CargoDocRmcpTool;

impl Tool for CargoDocRmcpTool {
    open spec fn spec_name(&self) -> Seq<char> {
        "cargo-doc"@
    }

    open spec fn spec_title(&self) -> Seq<char> {
        "Build Rust documentation"@
    }

    open spec fn spec_description(&self) -> Seq<char> {
        "Build documentation for a Rust package using Cargo. Recommended to use with no_deps and specific package for faster builds. Returns path to generated documentation index."@
    }

    open spec fn spec_schema(&self) -> Seq<SchemaFieldV> {
        seq![
            field_v("package"@, FieldType::TextArray, ""@, false),
            field_v("workspace"@, FieldType::Boolean, ""@, false),
            field_v("exclude"@, FieldType::TextArray, ""@, false),
            field_v("no_deps"@, FieldType::Boolean, ""@, false),
            field_v("document_private_items"@, FieldType::Boolean, ""@, false),
            field_v("docsrs_config"@, FieldType::Boolean, ""@, false),
            field_v("lib"@, FieldType::Boolean, ""@, false),
            field_v("bins"@, FieldType::Boolean, ""@, false),
            field_v("bin"@, FieldType::Text, ""@, false),
            field_v("examples"@, FieldType::Boolean, ""@, false),
            field_v("example"@, FieldType::Text, ""@, false),
            field_v("features"@, FieldType::TextArray, ""@, false),
            field_v("all_features"@, FieldType::Boolean, ""@, false),
            field_v("no_default_features"@, FieldType::Boolean, ""@, false),
            field_v("release"@, FieldType::Boolean, ""@, false),
            field_v("profile"@, FieldType::Text, ""@, false),
            field_v("jobs"@, FieldType::Integer, ""@, false),
            field_v("keep_going"@, FieldType::Boolean, ""@, false),
            field_v("target"@, FieldType::Text, ""@, false),
        ]
    }

    open spec fn spec_prepare_ok(&self, m: Seq<(Seq<char>, crate::json::JsonValueV)>) -> bool {
        spec_doc_decode_ok(m)
    }

    open spec fn spec_prepared(
        &self,
        m: Seq<(Seq<char>, crate::json::JsonValueV)>,
        root: Option<Seq<char>>,
        pp: Prepared,
    ) -> bool {
        exists|q: CargoDocRequest|
            #![trigger spec_doc_fields(m, q)]
            {
                &&& spec_doc_fields(m, q)
                &&& pp.invocation.program@ == "cargo"@
                &&& pp.invocation.args.deep_view() == q.spec_args()
                &&& pp.invocation.env.deep_view() == q.spec_env()
                &&& pp.invocation.cwd.deep_view() == root
                &&& pp.pending matches PendingCall::Doc { no_deps, doc_dir, package_index }
                    && no_deps == opt_or(q.no_deps, false) && doc_dir@ == spec_doc_dir(
                    q.target.deep_view(),
                    root,
                ) && package_index.deep_view() == (match q.package.deep_view() {
                    Some(items) => if items.len() > 0 {
                        Some(
                            spec_doc_dir(q.target.deep_view(), root) + "/"@
                                + spec_dash_to_underscore(items[0]) + "/index.html"@,
                        )
                    } else {
                        None
                    },
                    None => None,
                })
            }
    }

    open spec fn spec_prepare_err(&self, m: Seq<(Seq<char>, crate::json::JsonValueV)>, e: ToolErrorV) -> bool {
        spec_doc_decode_err(m, e)
    }

    fn name(&self) -> (r: &'static str) {
        "cargo-doc"
    }

    fn title(&self) -> (r: &'static str) {
        "Build Rust documentation"
    }

    fn description(&self) -> (r: &'static str) {
        "Build documentation for a Rust package using Cargo. Recommended to use with no_deps and specific package for faster builds. Returns path to generated documentation index."
    }

    fn schema(&self) -> (r: Vec<SchemaField>) {
        let mut s: Vec<SchemaField> = Vec::new();
        push_field(&mut s, "package", FieldType::TextArray, "", false);
        push_field(&mut s, "workspace", FieldType::Boolean, "", false);
        push_field(&mut s, "exclude", FieldType::TextArray, "", false);
        push_field(&mut s, "no_deps", FieldType::Boolean, "", false);
        push_field(&mut s, "document_private_items", FieldType::Boolean, "", false);
        push_field(&mut s, "docsrs_config", FieldType::Boolean, "", false);
        push_field(&mut s, "lib", FieldType::Boolean, "", false);
        push_field(&mut s, "bins", FieldType::Boolean, "", false);
        push_field(&mut s, "bin", FieldType::Text, "", false);
        push_field(&mut s, "examples", FieldType::Boolean, "", false);
        push_field(&mut s, "example", FieldType::Text, "", false);
        push_field(&mut s, "features", FieldType::TextArray, "", false);
        push_field(&mut s, "all_features", FieldType::Boolean, "", false);
        push_field(&mut s, "no_default_features", FieldType::Boolean, "", false);
        push_field(&mut s, "release", FieldType::Boolean, "", false);
        push_field(&mut s, "profile", FieldType::Text, "", false);
        push_field(&mut s, "jobs", FieldType::Integer, "", false);
        push_field(&mut s, "keep_going", FieldType::Boolean, "", false);
        push_field(&mut s, "target", FieldType::Text, "", false);
        proof {
            assert(s.deep_view() =~= self.spec_schema());
        }
        s
    }

    fn prepare(&self, params: &RawParams, config: &ProcessWideConfig) -> (r: Result<
        Prepared,
        ToolError,
    >) {
        let request = CargoDocRequest::decode(params)?;
        let no_deps = opt_true(&request.no_deps);
        let doc_dir = request.doc_dir(&config.workspace_root);
        let package_index = request.package_index_candidate(&config.workspace_root);
        let mut invocation = request.build_cmd()?;
        apply_workspace_root(config, &mut invocation);
        let prepared = Prepared {
            invocation,
            pending: PendingCall::Doc { no_deps, doc_dir, package_index },
        };
        proof {
            assert(spec_doc_fields(params@, request));
            assert(self.spec_prepared(params@, config.workspace_root.deep_view(), prepared));
        }
        Ok(prepared)
    }
}

} // verus!
