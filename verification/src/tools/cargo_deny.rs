//! The `cargo deny` wrappers: dependency-graph checking, config
//! bootstrap, license listing, and installation.

use vstd::prelude::*;

use crate::decode::{
    opt_bool, opt_number_text, opt_string, opt_string_list, opt_u32, spec_opt_bool,
    spec_opt_number_text, spec_opt_string, spec_opt_string_list, spec_opt_u32,
};
use crate::errors::{ToolError, ToolErrorV};
use crate::invocation::{
    Invocation, ProcessWideConfig, apply_workspace_root, opt_or, opt_true, seg_each, seg_flag, seg_items, seg_join, seg_opt, seg_opt_item, seg_opt_u32,
};
use crate::json::RawParams;
use crate::schema::{field_v, push_field, FieldType, SchemaField, SchemaFieldV};
use crate::tool::{PendingCall, Prepared, Tool};

verus! {

/// Checks a project's crate graph for security advisories, license
/// compliance and banned crates.
#[derive(Debug)]
pub struct CargoDenyCheckRequest {
    pub which: Option<Vec<String>>,
    pub config: Option<String>,
    pub graph: Option<String>,
    pub hide_inclusion_graph: Option<bool>,
    pub disable_fetch: Option<bool>,
    pub exclude_dev: Option<bool>,
    pub audit_compatible_output: Option<bool>,
    pub show_stats: Option<bool>,
    pub warn: Option<Vec<String>>,
    pub allow: Option<Vec<String>>,
    pub deny: Option<Vec<String>>,
    pub feature_depth: Option<u32>,
    pub log_level: Option<String>,
    pub format: Option<String>,
    pub workspace: Option<bool>,
    pub allow_git_index: Option<bool>,
    pub exclude_unpublished: Option<bool>,
    pub exclude: Option<Vec<String>>,
    pub target: Option<Vec<String>>,
    pub all_features: Option<bool>,
    pub no_default_features: Option<bool>,
    pub features: Option<Vec<String>>,
}

/// Every field of the request decodes.
pub open spec fn spec_deny_check_decode_ok(m: Seq<(Seq<char>, crate::json::JsonValueV)>) -> bool {
    &&& spec_opt_string_list(m, "which"@) is Ok
    &&& spec_opt_string(m, "config"@) is Ok
    &&& spec_opt_string(m, "graph"@) is Ok
    &&& spec_opt_bool(m, "hide_inclusion_graph"@) is Ok
    &&& spec_opt_bool(m, "disable_fetch"@) is Ok
    &&& spec_opt_bool(m, "exclude_dev"@) is Ok
    &&& spec_opt_bool(m, "audit_compatible_output"@) is Ok
    &&& spec_opt_bool(m, "show_stats"@) is Ok
    &&& spec_opt_string_list(m, "warn"@) is Ok
    &&& spec_opt_string_list(m, "allow"@) is Ok
    &&& spec_opt_string_list(m, "deny"@) is Ok
    &&& spec_opt_u32(m, "feature_depth"@) is Ok
    &&& spec_opt_string(m, "log_level"@) is Ok
    &&& spec_opt_string(m, "format"@) is Ok
    &&& spec_opt_bool(m, "workspace"@) is Ok
    &&& spec_opt_bool(m, "allow_git_index"@) is Ok
    &&& spec_opt_bool(m, "exclude_unpublished"@) is Ok
    &&& spec_opt_string_list(m, "exclude"@) is Ok
    &&& spec_opt_string_list(m, "target"@) is Ok
    &&& spec_opt_bool(m, "all_features"@) is Ok
    &&& spec_opt_bool(m, "no_default_features"@) is Ok
    &&& spec_opt_string_list(m, "features"@) is Ok
}

/// Each field of `q` is the decoded value of its parameter.
pub open spec fn spec_deny_check_fields(
    m: Seq<(Seq<char>, crate::json::JsonValueV)>,
    q: CargoDenyCheckRequest,
) -> bool {
    &&& q.which.deep_view() == spec_opt_string_list(m, "which"@)->Ok_0
    &&& q.config.deep_view() == spec_opt_string(m, "config"@)->Ok_0
    &&& q.graph.deep_view() == spec_opt_string(m, "graph"@)->Ok_0
    &&& q.hide_inclusion_graph == spec_opt_bool(m, "hide_inclusion_graph"@)->Ok_0
    &&& q.disable_fetch == spec_opt_bool(m, "disable_fetch"@)->Ok_0
    &&& q.exclude_dev == spec_opt_bool(m, "exclude_dev"@)->Ok_0
    &&& q.audit_compatible_output == spec_opt_bool(m, "audit_compatible_output"@)->Ok_0
    &&& q.show_stats == spec_opt_bool(m, "show_stats"@)->Ok_0
    &&& q.warn.deep_view() == spec_opt_string_list(m, "warn"@)->Ok_0
    &&& q.allow.deep_view() == spec_opt_string_list(m, "allow"@)->Ok_0
    &&& q.deny.deep_view() == spec_opt_string_list(m, "deny"@)->Ok_0
    &&& q.feature_depth == spec_opt_u32(m, "feature_depth"@)->Ok_0
    &&& q.log_level.deep_view() == spec_opt_string(m, "log_level"@)->Ok_0
    &&& q.format.deep_view() == spec_opt_string(m, "format"@)->Ok_0
    &&& q.workspace == spec_opt_bool(m, "workspace"@)->Ok_0
    &&& q.allow_git_index == spec_opt_bool(m, "allow_git_index"@)->Ok_0
    &&& q.exclude_unpublished == spec_opt_bool(m, "exclude_unpublished"@)->Ok_0
    &&& q.exclude.deep_view() == spec_opt_string_list(m, "exclude"@)->Ok_0
    &&& q.target.deep_view() == spec_opt_string_list(m, "target"@)->Ok_0
    &&& q.all_features == spec_opt_bool(m, "all_features"@)->Ok_0
    &&& q.no_default_features == spec_opt_bool(m, "no_default_features"@)->Ok_0
    &&& q.features.deep_view() == spec_opt_string_list(m, "features"@)->Ok_0
}

/// `e` is the decode error of one of the fields that fail.
pub open spec fn spec_deny_check_decode_err(
    m: Seq<(Seq<char>, crate::json::JsonValueV)>,
    e: ToolErrorV,
) -> bool {
    ||| (spec_opt_string_list(m, "which"@) is Err && e == spec_opt_string_list(m, "which"@)->Err_0)
    ||| (spec_opt_string(m, "config"@) is Err && e == spec_opt_string(m, "config"@)->Err_0)
    ||| (spec_opt_string(m, "graph"@) is Err && e == spec_opt_string(m, "graph"@)->Err_0)
    ||| (spec_opt_bool(m, "hide_inclusion_graph"@) is Err && e == spec_opt_bool(
        m,
        "hide_inclusion_graph"@,
    )->Err_0)
    ||| (spec_opt_bool(m, "disable_fetch"@) is Err && e == spec_opt_bool(
        m,
        "disable_fetch"@,
    )->Err_0)
    ||| (spec_opt_bool(m, "exclude_dev"@) is Err && e == spec_opt_bool(m, "exclude_dev"@)->Err_0)
    ||| (spec_opt_bool(m, "audit_compatible_output"@) is Err && e == spec_opt_bool(
        m,
        "audit_compatible_output"@,
    )->Err_0)
    ||| (spec_opt_bool(m, "show_stats"@) is Err && e == spec_opt_bool(m, "show_stats"@)->Err_0)
    ||| (spec_opt_string_list(m, "warn"@) is Err && e == spec_opt_string_list(m, "warn"@)->Err_0)
    ||| (spec_opt_string_list(m, "allow"@) is Err && e == spec_opt_string_list(m, "allow"@)->Err_0)
    ||| (spec_opt_string_list(m, "deny"@) is Err && e == spec_opt_string_list(m, "deny"@)->Err_0)
    ||| (spec_opt_u32(m, "feature_depth"@) is Err && e == spec_opt_u32(m, "feature_depth"@)->Err_0)
    ||| (spec_opt_string(m, "log_level"@) is Err && e == spec_opt_string(m, "log_level"@)->Err_0)
    ||| (spec_opt_string(m, "format"@) is Err && e == spec_opt_string(m, "format"@)->Err_0)
    ||| (spec_opt_bool(m, "workspace"@) is Err && e == spec_opt_bool(m, "workspace"@)->Err_0)
    ||| (spec_opt_bool(m, "allow_git_index"@) is Err && e == spec_opt_bool(
        m,
        "allow_git_index"@,
    )->Err_0)
    ||| (spec_opt_bool(m, "exclude_unpublished"@) is Err && e == spec_opt_bool(
        m,
        "exclude_unpublished"@,
    )->Err_0)
    ||| (spec_opt_string_list(m, "exclude"@) is Err && e == spec_opt_string_list(
        m,
        "exclude"@,
    )->Err_0)
    ||| (spec_opt_string_list(m, "target"@) is Err && e == spec_opt_string_list(
        m,
        "target"@,
    )->Err_0)
    ||| (spec_opt_bool(m, "all_features"@) is Err && e == spec_opt_bool(m, "all_features"@)->Err_0)
    ||| (spec_opt_bool(m, "no_default_features"@) is Err && e == spec_opt_bool(
        m,
        "no_default_features"@,
    )->Err_0)
    ||| (spec_opt_string_list(m, "features"@) is Err && e == spec_opt_string_list(
        m,
        "features"@,
    )->Err_0)
}

impl CargoDenyCheckRequest {
    /// Decodes the request from raw parameters, leniently.
    pub fn decode(p: &RawParams) -> (r: Result<CargoDenyCheckRequest, ToolError>)
        ensures
            r is Ok <==> spec_deny_check_decode_ok(p@),
            r matches Ok(q) ==> spec_deny_check_fields(p@, q),
            r matches Err(e) ==> spec_deny_check_decode_err(p@, e@),
            r matches Err(e) ==> e is InvalidParameter,
    {
        let which = opt_string_list(p, "which")?;
        let config = opt_string(p, "config")?;
        let graph = opt_string(p, "graph")?;
        let hide_inclusion_graph = opt_bool(p, "hide_inclusion_graph")?;
        let disable_fetch = opt_bool(p, "disable_fetch")?;
        let exclude_dev = opt_bool(p, "exclude_dev")?;
        let audit_compatible_output = opt_bool(p, "audit_compatible_output")?;
        let show_stats = opt_bool(p, "show_stats")?;
        let warn = opt_string_list(p, "warn")?;
        let allow = opt_string_list(p, "allow")?;
        let deny = opt_string_list(p, "deny")?;
        let feature_depth = opt_u32(p, "feature_depth")?;
        let log_level = opt_string(p, "log_level")?;
        let format = opt_string(p, "format")?;
        let workspace = opt_bool(p, "workspace")?;
        let allow_git_index = opt_bool(p, "allow_git_index")?;
        let exclude_unpublished = opt_bool(p, "exclude_unpublished")?;
        let exclude = opt_string_list(p, "exclude")?;
        let target = opt_string_list(p, "target")?;
        let all_features = opt_bool(p, "all_features")?;
        let no_default_features = opt_bool(p, "no_default_features")?;
        let features = opt_string_list(p, "features")?;
        Ok(
            CargoDenyCheckRequest {
                which,
                config,
                graph,
                hide_inclusion_graph,
                disable_fetch,
                exclude_dev,
                audit_compatible_output,
                show_stats,
                warn,
                allow,
                deny,
                feature_depth,
                log_level,
                format,
                workspace,
                allow_git_index,
                exclude_unpublished,
                exclude,
                target,
                all_features,
                no_default_features,
                features,
            },
        )
    }

    /// The full argument vector of this request: the global options,
    /// the `check` subcommand, the check-specific options, then the
    /// requested check kinds as positional arguments.
    pub open spec fn spec_args(&self) -> Seq<Seq<char>> {
        seq!["deny"@] + seg_opt("--log-level"@, self.log_level.deep_view()) + seg_opt(
            "--format"@,
            self.format.deep_view(),
        ) + seg_flag(opt_or(self.workspace, false), "--workspace"@) + seg_each(
            "--exclude"@,
            self.exclude.deep_view(),
        ) + seg_each("--target"@, self.target.deep_view()) + seg_flag(
            opt_or(self.all_features, false),
            "--all-features"@,
        ) + seg_flag(opt_or(self.no_default_features, false), "--no-default-features"@) + seg_join(
            "--features"@,
            self.features.deep_view(),
        ) + seg_flag(opt_or(self.allow_git_index, false), "--allow-git-index"@) + seg_flag(
            opt_or(self.exclude_dev, false),
            "--exclude-dev"@,
        ) + seg_flag(opt_or(self.exclude_unpublished, false), "--exclude-unpublished"@)
            + seq!["check"@] + seg_opt("--config"@, self.config.deep_view()) + seg_opt(
            "--graph"@,
            self.graph.deep_view(),
        ) + seg_flag(opt_or(self.hide_inclusion_graph, false), "--hide-inclusion-graph"@)
            + seg_flag(opt_or(self.disable_fetch, false), "--disable-fetch"@) + seg_flag(
            opt_or(self.audit_compatible_output, false),
            "--audit-compatible-output"@,
        ) + seg_flag(opt_or(self.show_stats, false), "--show-stats"@) + seg_each(
            "-W"@,
            self.warn.deep_view(),
        ) + seg_each("-A"@, self.allow.deep_view()) + seg_each("-D"@, self.deny.deep_view())
            + seg_opt_u32("--feature-depth"@, self.feature_depth) + seg_items(
            self.which.deep_view(),
        )
    }

    /// Builds the `cargo deny ... check ...` invocation; never fails.
    #[verifier::rlimit(100)]
    pub fn build_cmd(&self) -> (r: Result<Invocation, ToolError>)
        ensures
            r is Ok,
            r matches Ok(inv) ==> {
                &&& inv.program@ == "cargo"@
                &&& inv.args.deep_view() == self.spec_args()
                &&& inv.env.deep_view() == Seq::<(Seq<char>, Seq<char>)>::empty()
                &&& inv.cwd is None
            },
    {
        let mut cmd = Invocation::new("cargo");
        cmd.arg("deny");
        proof {
            assert(cmd.args.deep_view() =~= seq!["deny"@]);
        }
        cmd.opt("--log-level", &self.log_level);
        cmd.opt("--format", &self.format);
        cmd.flag_if(opt_true(&self.workspace), "--workspace");
        cmd.each("--exclude", &self.exclude);
        cmd.each("--target", &self.target);
        cmd.flag_if(opt_true(&self.all_features), "--all-features");
        cmd.flag_if(opt_true(&self.no_default_features), "--no-default-features");
        cmd.join_list("--features", &self.features);
        cmd.flag_if(opt_true(&self.allow_git_index), "--allow-git-index");
        cmd.flag_if(opt_true(&self.exclude_dev), "--exclude-dev");
        cmd.flag_if(opt_true(&self.exclude_unpublished), "--exclude-unpublished");
        cmd.arg("check");
        cmd.opt("--config", &self.config);
        cmd.opt("--graph", &self.graph);
        cmd.flag_if(opt_true(&self.hide_inclusion_graph), "--hide-inclusion-graph");
        cmd.flag_if(opt_true(&self.disable_fetch), "--disable-fetch");
        cmd.flag_if(opt_true(&self.audit_compatible_output), "--audit-compatible-output");
        cmd.flag_if(opt_true(&self.show_stats), "--show-stats");
        cmd.each("-W", &self.warn);
        cmd.each("-A", &self.allow);
        cmd.each("-D", &self.deny);
        cmd.opt_u32("--feature-depth", &self.feature_depth);
        cmd.items(&self.which);
        Ok(cmd)
    }
}

/// Creates a cargo-deny config from a template.
#[derive(Debug)]
pub struct CargoDenyInitRequest {
    pub config: Option<String>,
}

impl CargoDenyInitRequest {
    /// Decodes the request from raw parameters.
    pub fn decode(p: &RawParams) -> (r: Result<CargoDenyInitRequest, ToolError>)
        ensures
            r is Ok <==> spec_opt_string(p@, "config"@) is Ok,
            r matches Ok(q) ==> q.config.deep_view() == spec_opt_string(p@, "config"@)->Ok_0,
            r matches Err(e) ==> spec_opt_string(p@, "config"@) == Err::<
                Option<Seq<char>>,
                ToolErrorV,
            >(e@),
            r matches Err(e) ==> e is InvalidParameter,
    {
        let config = opt_string(p, "config")?;
        Ok(CargoDenyInitRequest { config })
    }

    /// Builds the `cargo deny init` invocation, with the config path
    /// as a positional argument when given; never fails.
    pub fn build_cmd(&self) -> (r: Result<Invocation, ToolError>)
        ensures
            r is Ok,
            r matches Ok(inv) ==> {
                &&& inv.program@ == "cargo"@
                &&& inv.args.deep_view() == seq!["deny"@, "init"@] + seg_opt_item(
                    self.config.deep_view(),
                )
                &&& inv.env.deep_view() == Seq::<(Seq<char>, Seq<char>)>::empty()
                &&& inv.cwd is None
            },
    {
        let mut cmd = Invocation::new("cargo");
        cmd.arg("deny");
        cmd.arg("init");
        proof {
            assert(cmd.args.deep_view() =~= seq!["deny"@, "init"@]);
        }
        cmd.opt_item(&self.config);
        Ok(cmd)
    }
}

/// Outputs a listing of all licenses and the crates that use them.
/// The threshold is carried as the decimal text of the number the
/// caller sent.
#[derive(Debug)]
pub struct CargoDenyListRequest {
    pub config: Option<String>,
    pub threshold: Option<String>,
    pub format: Option<String>,
    pub layout: Option<String>,
}

/// Every field of the request decodes.
pub open spec fn spec_deny_list_decode_ok(m: Seq<(Seq<char>, crate::json::JsonValueV)>) -> bool {
    &&& spec_opt_string(m, "config"@) is Ok
    &&& spec_opt_number_text(m, "threshold"@) is Ok
    &&& spec_opt_string(m, "format"@) is Ok
    &&& spec_opt_string(m, "layout"@) is Ok
}

/// Each field of `q` is the decoded value of its parameter.
pub open spec fn spec_deny_list_fields(
    m: Seq<(Seq<char>, crate::json::JsonValueV)>,
    q: CargoDenyListRequest,
) -> bool {
    &&& q.config.deep_view() == spec_opt_string(m, "config"@)->Ok_0
    &&& q.threshold.deep_view() == spec_opt_number_text(m, "threshold"@)->Ok_0
    &&& q.format.deep_view() == spec_opt_string(m, "format"@)->Ok_0
    &&& q.layout.deep_view() == spec_opt_string(m, "layout"@)->Ok_0
}

/// `e` is the decode error of one of the fields that fail.
pub open spec fn spec_deny_list_decode_err(
    m: Seq<(Seq<char>, crate::json::JsonValueV)>,
    e: ToolErrorV,
) -> bool {
    ||| (spec_opt_string(m, "config"@) is Err && e == spec_opt_string(m, "config"@)->Err_0)
    ||| (spec_opt_number_text(m, "threshold"@) is Err && e == spec_opt_number_text(
        m,
        "threshold"@,
    )->Err_0)
    ||| (spec_opt_string(m, "format"@) is Err && e == spec_opt_string(m, "format"@)->Err_0)
    ||| (spec_opt_string(m, "layout"@) is Err && e == spec_opt_string(m, "layout"@)->Err_0)
}

impl CargoDenyListRequest {
    /// Decodes the request from raw parameters.
    pub fn decode(p: &RawParams) -> (r: Result<CargoDenyListRequest, ToolError>)
        ensures
            r is Ok <==> spec_deny_list_decode_ok(p@),
            r matches Ok(q) ==> spec_deny_list_fields(p@, q),
            r matches Err(e) ==> spec_deny_list_decode_err(p@, e@),
            r matches Err(e) ==> e is InvalidParameter,
    {
        let config = opt_string(p, "config")?;
        let threshold = opt_number_text(p, "threshold")?;
        let format = opt_string(p, "format")?;
        let layout = opt_string(p, "layout")?;
        Ok(CargoDenyListRequest { config, threshold, format, layout })
    }

    /// The full argument vector of this request, in order.
    pub open spec fn spec_args(&self) -> Seq<Seq<char>> {
        seq!["deny"@, "list"@] + seg_opt("--config"@, self.config.deep_view()) + seg_opt(
            "--threshold"@,
            self.threshold.deep_view(),
        ) + seg_opt("--format"@, self.format.deep_view()) + seg_opt(
            "--layout"@,
            self.layout.deep_view(),
        )
    }

    /// Builds the `cargo deny list` invocation; never fails.
    pub fn build_cmd(&self) -> (r: Result<Invocation, ToolError>)
        ensures
            r is Ok,
            r matches Ok(inv) ==> {
                &&& inv.program@ == "cargo"@
                &&& inv.args.deep_view() == self.spec_args()
                &&& inv.env.deep_view() == Seq::<(Seq<char>, Seq<char>)>::empty()
                &&& inv.cwd is None
            },
    {
        let mut cmd = Invocation::new("cargo");
        cmd.arg("deny");
        cmd.arg("list");
        proof {
            assert(cmd.args.deep_view() =~= seq!["deny"@, "list"@]);
        }
        cmd.opt("--config", &self.config);
        cmd.opt("--threshold", &self.threshold);
        cmd.opt("--format", &self.format);
        cmd.opt("--layout", &self.layout);
        Ok(cmd)
    }
}

/// Installs the cargo-deny tool itself.
#[derive(Debug)]
pub struct CargoDenyInstallRequest {}

impl CargoDenyInstallRequest {
    /// Decodes the (empty) request.
    pub fn decode(_p: &RawParams) -> (r: Result<CargoDenyInstallRequest, ToolError>)
        ensures
            r is Ok,
    {
        Ok(CargoDenyInstallRequest {  })
    }

    /// Builds the `cargo install cargo-deny` invocation; never fails.
    pub fn build_cmd(&self) -> (r: Result<Invocation, ToolError>)
        ensures
            r is Ok,
            r matches Ok(inv) ==> {
                &&& inv.program@ == "cargo"@
                &&& inv.args.deep_view() == seq!["install"@, "cargo-deny"@]
                &&& inv.env.deep_view() == Seq::<(Seq<char>, Seq<char>)>::empty()
                &&& inv.cwd is None
            },
    {
        let mut cmd = Invocation::new("cargo");
        cmd.arg("install");
        cmd.arg("cargo-deny");
        proof {
            assert(cmd.args.deep_view() =~= seq!["install"@, "cargo-deny"@]);
        }
        Ok(cmd)
    }
}

/// The registered `cargo-deny-check` tool.
#[derive(Debug)]
pub struct CargoDenyCheckRmcpTool;

impl Tool for CargoDenyCheckRmcpTool {
    open spec fn spec_name(&self) -> Seq<char> {
        "cargo-deny-check"@
    }

    open spec fn spec_title(&self) -> Seq<char> {
        "Check dependencies"@
    }

    open spec fn spec_description(&self) -> Seq<char> {
        "Checks a project's crate graph for security advisories, license compliance, banned crates."@
    }

    open spec fn spec_schema(&self) -> Seq<SchemaFieldV> {
        seq![
            field_v("which"@, FieldType::TextArray, ""@, false),
            field_v("config"@, FieldType::Text, ""@, false),
            field_v("graph"@, FieldType::Text, ""@, false),
            field_v("hide_inclusion_graph"@, FieldType::Boolean, ""@, false),
            field_v("disable_fetch"@, FieldType::Boolean, ""@, false),
            field_v("exclude_dev"@, FieldType::Boolean, ""@, false),
            field_v("audit_compatible_output"@, FieldType::Boolean, ""@, false),
            field_v("show_stats"@, FieldType::Boolean, ""@, false),
            field_v("warn"@, FieldType::TextArray, ""@, false),
            field_v("allow"@, FieldType::TextArray, ""@, false),
            field_v("deny"@, FieldType::TextArray, ""@, false),
            field_v("feature_depth"@, FieldType::Integer, ""@, false),
            field_v("log_level"@, FieldType::Text, ""@, false),
            field_v("format"@, FieldType::Text, ""@, false),
            field_v("workspace"@, FieldType::Boolean, ""@, false),
            field_v("allow_git_index"@, FieldType::Boolean, ""@, false),
            field_v("exclude_unpublished"@, FieldType::Boolean, ""@, false),
            field_v("exclude"@, FieldType::TextArray, ""@, false),
            field_v("target"@, FieldType::TextArray, ""@, false),
            field_v("all_features"@, FieldType::Boolean, ""@, false),
            field_v("no_default_features"@, FieldType::Boolean, ""@, false),
            field_v("features"@, FieldType::TextArray, ""@, false),
        ]
    }

    open spec fn spec_prepare_ok(&self, m: Seq<(Seq<char>, crate::json::JsonValueV)>) -> bool {
        spec_deny_check_decode_ok(m)
    }

    open spec fn spec_prepared(
        &self,
        m: Seq<(Seq<char>, crate::json::JsonValueV)>,
        root: Option<Seq<char>>,
        pp: Prepared,
    ) -> bool {
        exists|q: CargoDenyCheckRequest|
            #![trigger spec_deny_check_fields(m, q)]
            {
                &&& spec_deny_check_fields(m, q)
                &&& pp.invocation.program@ == "cargo"@
                &&& pp.invocation.args.deep_view() == q.spec_args()
                &&& pp.invocation.env.deep_view() == Seq::<(Seq<char>, Seq<char>)>::empty()
                &&& pp.invocation.cwd.deep_view() == root
                &&& pp.pending is Plain
            }
    }

    open spec fn spec_prepare_err(&self, m: Seq<(Seq<char>, crate::json::JsonValueV)>, e: ToolErrorV) -> bool {
        spec_deny_check_decode_err(m, e)
    }

    fn name(&self) -> (r: &'static str) {
        "cargo-deny-check"
    }

    fn title(&self) -> (r: &'static str) {
        "Check dependencies"
    }

    fn description(&self) -> (r: &'static str) {
        "Checks a project's crate graph for security advisories, license compliance, banned crates."
    }

    fn schema(&self) -> (r: Vec<SchemaField>) {
        let mut s: Vec<SchemaField> = Vec::new();
        push_field(&mut s, "which", FieldType::TextArray, "", false);
        push_field(&mut s, "config", FieldType::Text, "", false);
        push_field(&mut s, "graph", FieldType::Text, "", false);
        push_field(&mut s, "hide_inclusion_graph", FieldType::Boolean, "", false);
        push_field(&mut s, "disable_fetch", FieldType::Boolean, "", false);
        push_field(&mut s, "exclude_dev", FieldType::Boolean, "", false);
        push_field(&mut s, "audit_compatible_output", FieldType::Boolean, "", false);
        push_field(&mut s, "show_stats", FieldType::Boolean, "", false);
        push_field(&mut s, "warn", FieldType::TextArray, "", false);
        push_field(&mut s, "allow", FieldType::TextArray, "", false);
        push_field(&mut s, "deny", FieldType::TextArray, "", false);
        push_field(&mut s, "feature_depth", FieldType::Integer, "", false);
        push_field(&mut s, "log_level", FieldType::Text, "", false);
        push_field(&mut s, "format", FieldType::Text, "", false);
        push_field(&mut s, "workspace", FieldType::Boolean, "", false);
        push_field(&mut s, "allow_git_index", FieldType::Boolean, "", false);
        push_field(&mut s, "exclude_unpublished", FieldType::Boolean, "", false);
        push_field(&mut s, "exclude", FieldType::TextArray, "", false);
        push_field(&mut s, "target", FieldType::TextArray, "", false);
        push_field(&mut s, "all_features", FieldType::Boolean, "", false);
        push_field(&mut s, "no_default_features", FieldType::Boolean, "", false);
        push_field(&mut s, "features", FieldType::TextArray, "", false);
        proof {
            assert(s.deep_view() =~= self.spec_schema());
        }
        s
    }

    fn prepare(&self, params: &RawParams, config: &ProcessWideConfig) -> (r: Result<
        Prepared,
        ToolError,
    >) {
        let request = CargoDenyCheckRequest::decode(params)?;
        let mut invocation = request.build_cmd()?;
        apply_workspace_root(config, &mut invocation);
        let prepared = Prepared { invocation, pending: PendingCall::Plain };
        proof {
            assert(spec_deny_check_fields(params@, request));
            assert(self.spec_prepared(params@, config.workspace_root.deep_view(), prepared));
        }
        Ok(prepared)
    }
}

/// The registered `cargo-deny-init` tool.
#[derive(Debug)]
pub struct CargoDenyInitRmcpTool;

impl Tool for CargoDenyInitRmcpTool {
    open spec fn spec_name(&self) -> Seq<char> {
        "cargo-deny-init"@
    }

    open spec fn spec_title(&self) -> Seq<char> {
        "Initialize cargo-deny config"@
    }

    open spec fn spec_description(&self) -> Seq<char> {
        "Creates a cargo-deny config from a template"@
    }

    open spec fn spec_schema(&self) -> Seq<SchemaFieldV> {
        seq![
            field_v("config"@, FieldType::Text, ""@, false),
        ]
    }

    open spec fn spec_prepare_ok(&self, m: Seq<(Seq<char>, crate::json::JsonValueV)>) -> bool {
        spec_opt_string(m, "config"@) is Ok
    }

    open spec fn spec_prepared(
        &self,
        m: Seq<(Seq<char>, crate::json::JsonValueV)>,
        root: Option<Seq<char>>,
        pp: Prepared,
    ) -> bool {
        &&& pp.invocation.program@ == "cargo"@
        &&& pp.invocation.args.deep_view() == seq!["deny"@, "init"@] + seg_opt_item(spec_opt_string(m, "config"@)->Ok_0)
        &&& pp.invocation.env.deep_view() == Seq::<(Seq<char>, Seq<char>)>::empty()
        &&& pp.invocation.cwd.deep_view() == root
        &&& pp.pending is Plain
    }

    open spec fn spec_prepare_err(&self, m: Seq<(Seq<char>, crate::json::JsonValueV)>, e: ToolErrorV) -> bool {
        spec_opt_string(m, "config"@) is Err && e == spec_opt_string(m, "config"@)->Err_0
    }

    fn name(&self) -> (r: &'static str) {
        "cargo-deny-init"
    }

    fn title(&self) -> (r: &'static str) {
        "Initialize cargo-deny config"
    }

    fn description(&self) -> (r: &'static str) {
        "Creates a cargo-deny config from a template"
    }

    fn schema(&self) -> (r: Vec<SchemaField>) {
        let mut s: Vec<SchemaField> = Vec::new();
        push_field(&mut s, "config", FieldType::Text, "", false);
        proof {
            assert(s.deep_view() =~= self.spec_schema());
        }
        s
    }

    fn prepare(&self, params: &RawParams, config: &ProcessWideConfig) -> (r: Result<
        Prepared,
        ToolError,
    >) {
        let request = CargoDenyInitRequest::decode(params)?;
        let mut invocation = request.build_cmd()?;
        apply_workspace_root(config, &mut invocation);
        Ok(Prepared { invocation, pending: PendingCall::Plain })
    }
}

/// The registered `cargo-deny-list` tool.
#[derive(Debug)]
pub struct CargoDenyListRmcpTool;

impl Tool for CargoDenyListRmcpTool {
    open spec fn spec_name(&self) -> Seq<char> {
        "cargo-deny-list"@
    }

    open spec fn spec_title(&self) -> Seq<char> {
        "List licenses"@
    }

    open spec fn spec_description(&self) -> Seq<char> {
        "Outputs a listing of all licenses and the crates that use them"@
    }

    open spec fn spec_schema(&self) -> Seq<SchemaFieldV> {
        seq![
            field_v("config"@, FieldType::Text, ""@, false),
            field_v("threshold"@, FieldType::Number, ""@, false),
            field_v("format"@, FieldType::Text, ""@, false),
            field_v("layout"@, FieldType::Text, ""@, false),
        ]
    }

    open spec fn spec_prepare_ok(&self, m: Seq<(Seq<char>, crate::json::JsonValueV)>) -> bool {
        spec_deny_list_decode_ok(m)
    }

    open spec fn spec_prepared(
        &self,
        m: Seq<(Seq<char>, crate::json::JsonValueV)>,
        root: Option<Seq<char>>,
        pp: Prepared,
    ) -> bool {
        exists|q: CargoDenyListRequest|
            #![trigger spec_deny_list_fields(m, q)]
            {
                &&& spec_deny_list_fields(m, q)
                &&& pp.invocation.program@ == "cargo"@
                &&& pp.invocation.args.deep_view() == q.spec_args()
                &&& pp.invocation.env.deep_view() == Seq::<(Seq<char>, Seq<char>)>::empty()
                &&& pp.invocation.cwd.deep_view() == root
                &&& pp.pending is Plain
            }
    }

    open spec fn spec_prepare_err(&self, m: Seq<(Seq<char>, crate::json::JsonValueV)>, e: ToolErrorV) -> bool {
        spec_deny_list_decode_err(m, e)
    }

    fn name(&self) -> (r: &'static str) {
        "cargo-deny-list"
    }

    fn title(&self) -> (r: &'static str) {
        "List licenses"
    }

    fn description(&self) -> (r: &'static str) {
        "Outputs a listing of all licenses and the crates that use them"
    }

    fn schema(&self) -> (r: Vec<SchemaField>) {
        let mut s: Vec<SchemaField> = Vec::new();
        push_field(&mut s, "config", FieldType::Text, "", false);
        push_field(&mut s, "threshold", FieldType::Number, "", false);
        push_field(&mut s, "format", FieldType::Text, "", false);
        push_field(&mut s, "layout", FieldType::Text, "", false);
        proof {
            assert(s.deep_view() =~= self.spec_schema());
        }
        s
    }

    fn prepare(&self, params: &RawParams, config: &ProcessWideConfig) -> (r: Result<
        Prepared,
        ToolError,
    >) {
        let request = CargoDenyListRequest::decode(params)?;
        let mut invocation = request.build_cmd()?;
        apply_workspace_root(config, &mut invocation);
        let prepared = Prepared { invocation, pending: PendingCall::Plain };
        proof {
            assert(spec_deny_list_fields(params@, request));
            assert(self.spec_prepared(params@, config.workspace_root.deep_view(), prepared));
        }
        Ok(prepared)
    }
}

/// The registered `cargo-deny-install` tool.
#[derive(Debug)]
pub struct CargoDenyInstallRmcpTool;

impl Tool for CargoDenyInstallRmcpTool {
    open spec fn spec_name(&self) -> Seq<char> {
        "cargo-deny-install"@
    }

    open spec fn spec_title(&self) -> Seq<char> {
        "Install cargo-deny"@
    }

    open spec fn spec_description(&self) -> Seq<char> {
        "Installs cargo-deny tool for dependency graph analysis and security checks"@
    }

    open spec fn spec_schema(&self) -> Seq<SchemaFieldV> {
        Seq::<SchemaFieldV>::empty()
    }

    open spec fn spec_prepare_ok(&self, _m: Seq<(Seq<char>, crate::json::JsonValueV)>) -> bool {
        true
    }

    open spec fn spec_prepared(
        &self,
        _m: Seq<(Seq<char>, crate::json::JsonValueV)>,
        root: Option<Seq<char>>,
        pp: Prepared,
    ) -> bool {
        &&& pp.invocation.program@ == "cargo"@
        &&& pp.invocation.args.deep_view() == seq!["install"@, "cargo-deny"@]
        &&& pp.invocation.env.deep_view() == Seq::<(Seq<char>, Seq<char>)>::empty()
        &&& pp.invocation.cwd.deep_view() == root
        &&& pp.pending is Plain
    }

    open spec fn spec_prepare_err(&self, _m: Seq<(Seq<char>, crate::json::JsonValueV)>, _e: ToolErrorV) -> bool {
        false
    }

    fn name(&self) -> (r: &'static str) {
        "cargo-deny-install"
    }

    fn title(&self) -> (r: &'static str) {
        "Install cargo-deny"
    }

    fn description(&self) -> (r: &'static str) {
        "Installs cargo-deny tool for dependency graph analysis and security checks"
    }

    fn schema(&self) -> (r: Vec<SchemaField>) {
        let mut s: Vec<SchemaField> = Vec::new();
        proof {
            assert(s.deep_view() =~= self.spec_schema());
        }
        s
    }

    fn prepare(&self, params: &RawParams, config: &ProcessWideConfig) -> (r: Result<
        Prepared,
        ToolError,
    >) {
        let request = CargoDenyInstallRequest::decode(params)?;
        let mut invocation = request.build_cmd()?;
        apply_workspace_root(config, &mut invocation);
        Ok(Prepared { invocation, pending: PendingCall::Plain })
    }
}

} // verus!
