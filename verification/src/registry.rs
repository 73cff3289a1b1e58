//! The tool registry: a fixed catalog of registered tools, dispatch
//! by name, and schema enumeration for capability discovery.

use vstd::prelude::*;

use crate::errors::{ToolError, ToolErrorV};
use crate::invocation::ProcessWideConfig;
use crate::json::{str_eq, RawParams};
use crate::schema::ToolDescriptor;
use crate::tool::{Prepared, Tool};
use crate::tools::add_remove::{CargoAddRmcpTool, CargoRemoveRmcpTool};
use crate::tools::cargo::{
    CargoCleanRmcpTool, CargoFmtRmcpTool, CargoGenerateLockfileRmcpTool, CargoListRmcpTool,
    CargoNewRmcpTool,
};
use crate::tools::cargo_deny::{
    CargoDenyCheckRmcpTool, CargoDenyInitRmcpTool, CargoDenyInstallRmcpTool, CargoDenyListRmcpTool,
};
use crate::tools::cargo_hack::{CargoHackInstallRmcpTool, CargoHackRmcpTool};
use crate::tools::check::CargoCheckRmcpTool;
use crate::tools::clippy::CargoClippyRmcpTool;
use crate::tools::doc::CargoDocRmcpTool;
use crate::tools::info::CargoInfoRmcpTool;
use crate::tools::metadata::CargoMetadataRmcpTool;
use crate::tools::package::CargoPackageRmcpTool;
use crate::tools::rustc::RustcExplainRmcpTool;
use crate::tools::search::CargoSearchRmcpTool;
use crate::tools::update::CargoUpdateRmcpTool;

verus! {

broadcast use vstd::string::group_string_axioms;

/// The closed union of every tool the catalog can hold. The tools are
/// heterogeneous in their request shapes but uniform in the contract
/// they implement, so the registry stores this one type.
#[derive(Debug)]
pub enum AnyTool {
    Add(CargoAddRmcpTool),
    Remove(CargoRemoveRmcpTool),
    Check(CargoCheckRmcpTool),
    Clippy(CargoClippyRmcpTool),
    Doc(CargoDocRmcpTool),
    Info(CargoInfoRmcpTool),
    Metadata(CargoMetadataRmcpTool),
    GenerateLockfile(CargoGenerateLockfileRmcpTool),
    Clean(CargoCleanRmcpTool),
    Fmt(CargoFmtRmcpTool),
    New(CargoNewRmcpTool),
    List(CargoListRmcpTool),
    Package(CargoPackageRmcpTool),
    Search(CargoSearchRmcpTool),
    Update(CargoUpdateRmcpTool),
    DenyCheck(CargoDenyCheckRmcpTool),
    DenyInit(CargoDenyInitRmcpTool),
    DenyList(CargoDenyListRmcpTool),
    DenyInstall(CargoDenyInstallRmcpTool),
    Hack(CargoHackRmcpTool),
    HackInstall(CargoHackInstallRmcpTool),
    RustcExplain(RustcExplainRmcpTool),
}

/// The dispatch name of a registered tool.
pub open spec fn spec_tool_name(t: AnyTool) -> Seq<char> {
    match t {
        AnyTool::Add(x) => x.spec_name(),
        AnyTool::Remove(x) => x.spec_name(),
        AnyTool::Check(x) => x.spec_name(),
        AnyTool::Clippy(x) => x.spec_name(),
        AnyTool::Doc(x) => x.spec_name(),
        AnyTool::Info(x) => x.spec_name(),
        AnyTool::Metadata(x) => x.spec_name(),
        AnyTool::GenerateLockfile(x) => x.spec_name(),
        AnyTool::Clean(x) => x.spec_name(),
        AnyTool::Fmt(x) => x.spec_name(),
        AnyTool::New(x) => x.spec_name(),
        AnyTool::List(x) => x.spec_name(),
        AnyTool::Package(x) => x.spec_name(),
        AnyTool::Search(x) => x.spec_name(),
        AnyTool::Update(x) => x.spec_name(),
        AnyTool::DenyCheck(x) => x.spec_name(),
        AnyTool::DenyInit(x) => x.spec_name(),
        AnyTool::DenyList(x) => x.spec_name(),
        AnyTool::DenyInstall(x) => x.spec_name(),
        AnyTool::Hack(x) => x.spec_name(),
        AnyTool::HackInstall(x) => x.spec_name(),
        AnyTool::RustcExplain(x) => x.spec_name(),
    }
}

/// The title of a registered tool.
pub open spec fn spec_tool_title(t: AnyTool) -> Seq<char> {
    match t {
        AnyTool::Add(x) => x.spec_title(),
        AnyTool::Remove(x) => x.spec_title(),
        AnyTool::Check(x) => x.spec_title(),
        AnyTool::Clippy(x) => x.spec_title(),
        AnyTool::Doc(x) => x.spec_title(),
        AnyTool::Info(x) => x.spec_title(),
        AnyTool::Metadata(x) => x.spec_title(),
        AnyTool::GenerateLockfile(x) => x.spec_title(),
        AnyTool::Clean(x) => x.spec_title(),
        AnyTool::Fmt(x) => x.spec_title(),
        AnyTool::New(x) => x.spec_title(),
        AnyTool::List(x) => x.spec_title(),
        AnyTool::Package(x) => x.spec_title(),
        AnyTool::Search(x) => x.spec_title(),
        AnyTool::Update(x) => x.spec_title(),
        AnyTool::DenyCheck(x) => x.spec_title(),
        AnyTool::DenyInit(x) => x.spec_title(),
        AnyTool::DenyList(x) => x.spec_title(),
        AnyTool::DenyInstall(x) => x.spec_title(),
        AnyTool::Hack(x) => x.spec_title(),
        AnyTool::HackInstall(x) => x.spec_title(),
        AnyTool::RustcExplain(x) => x.spec_title(),
    }
}

/// The description of a registered tool.
pub open spec fn spec_tool_description(t: AnyTool) -> Seq<char> {
    match t {
        AnyTool::Add(x) => x.spec_description(),
        AnyTool::Remove(x) => x.spec_description(),
        AnyTool::Check(x) => x.spec_description(),
        AnyTool::Clippy(x) => x.spec_description(),
        AnyTool::Doc(x) => x.spec_description(),
        AnyTool::Info(x) => x.spec_description(),
        AnyTool::Metadata(x) => x.spec_description(),
        AnyTool::GenerateLockfile(x) => x.spec_description(),
        AnyTool::Clean(x) => x.spec_description(),
        AnyTool::Fmt(x) => x.spec_description(),
        AnyTool::New(x) => x.spec_description(),
        AnyTool::List(x) => x.spec_description(),
        AnyTool::Package(x) => x.spec_description(),
        AnyTool::Search(x) => x.spec_description(),
        AnyTool::Update(x) => x.spec_description(),
        AnyTool::DenyCheck(x) => x.spec_description(),
        AnyTool::DenyInit(x) => x.spec_description(),
        AnyTool::DenyList(x) => x.spec_description(),
        AnyTool::DenyInstall(x) => x.spec_description(),
        AnyTool::Hack(x) => x.spec_description(),
        AnyTool::HackInstall(x) => x.spec_description(),
        AnyTool::RustcExplain(x) => x.spec_description(),
    }
}

/// The advertised schema of a registered tool.
pub open spec fn spec_tool_schema(t: AnyTool) -> Seq<crate::schema::SchemaFieldV> {
    match t {
        AnyTool::Add(x) => x.spec_schema(),
        AnyTool::Remove(x) => x.spec_schema(),
        AnyTool::Check(x) => x.spec_schema(),
        AnyTool::Clippy(x) => x.spec_schema(),
        AnyTool::Doc(x) => x.spec_schema(),
        AnyTool::Info(x) => x.spec_schema(),
        AnyTool::Metadata(x) => x.spec_schema(),
        AnyTool::GenerateLockfile(x) => x.spec_schema(),
        AnyTool::Clean(x) => x.spec_schema(),
        AnyTool::Fmt(x) => x.spec_schema(),
        AnyTool::New(x) => x.spec_schema(),
        AnyTool::List(x) => x.spec_schema(),
        AnyTool::Package(x) => x.spec_schema(),
        AnyTool::Search(x) => x.spec_schema(),
        AnyTool::Update(x) => x.spec_schema(),
        AnyTool::DenyCheck(x) => x.spec_schema(),
        AnyTool::DenyInit(x) => x.spec_schema(),
        AnyTool::DenyList(x) => x.spec_schema(),
        AnyTool::DenyInstall(x) => x.spec_schema(),
        AnyTool::Hack(x) => x.spec_schema(),
        AnyTool::HackInstall(x) => x.spec_schema(),
        AnyTool::RustcExplain(x) => x.spec_schema(),
    }
}

/// Preparation succeeds for this tool on the parameter document.
pub open spec fn spec_tool_prepare_ok(t: AnyTool, m: Seq<(Seq<char>, crate::json::JsonValueV)>) -> bool {
    match t {
        AnyTool::Add(x) => x.spec_prepare_ok(m),
        AnyTool::Remove(x) => x.spec_prepare_ok(m),
        AnyTool::Check(x) => x.spec_prepare_ok(m),
        AnyTool::Clippy(x) => x.spec_prepare_ok(m),
        AnyTool::Doc(x) => x.spec_prepare_ok(m),
        AnyTool::Info(x) => x.spec_prepare_ok(m),
        AnyTool::Metadata(x) => x.spec_prepare_ok(m),
        AnyTool::GenerateLockfile(x) => x.spec_prepare_ok(m),
        AnyTool::Clean(x) => x.spec_prepare_ok(m),
        AnyTool::Fmt(x) => x.spec_prepare_ok(m),
        AnyTool::New(x) => x.spec_prepare_ok(m),
        AnyTool::List(x) => x.spec_prepare_ok(m),
        AnyTool::Package(x) => x.spec_prepare_ok(m),
        AnyTool::Search(x) => x.spec_prepare_ok(m),
        AnyTool::Update(x) => x.spec_prepare_ok(m),
        AnyTool::DenyCheck(x) => x.spec_prepare_ok(m),
        AnyTool::DenyInit(x) => x.spec_prepare_ok(m),
        AnyTool::DenyList(x) => x.spec_prepare_ok(m),
        AnyTool::DenyInstall(x) => x.spec_prepare_ok(m),
        AnyTool::Hack(x) => x.spec_prepare_ok(m),
        AnyTool::HackInstall(x) => x.spec_prepare_ok(m),
        AnyTool::RustcExplain(x) => x.spec_prepare_ok(m),
    }
}

/// `pp` is exactly what this tool prepares from `m` under `root`.
pub open spec fn spec_tool_prepared(t: AnyTool, m: Seq<(Seq<char>, crate::json::JsonValueV)>, root: Option<Seq<char>>, pp: Prepared) -> bool {
    match t {
        AnyTool::Add(x) => x.spec_prepared(m, root, pp),
        AnyTool::Remove(x) => x.spec_prepared(m, root, pp),
        AnyTool::Check(x) => x.spec_prepared(m, root, pp),
        AnyTool::Clippy(x) => x.spec_prepared(m, root, pp),
        AnyTool::Doc(x) => x.spec_prepared(m, root, pp),
        AnyTool::Info(x) => x.spec_prepared(m, root, pp),
        AnyTool::Metadata(x) => x.spec_prepared(m, root, pp),
        AnyTool::GenerateLockfile(x) => x.spec_prepared(m, root, pp),
        AnyTool::Clean(x) => x.spec_prepared(m, root, pp),
        AnyTool::Fmt(x) => x.spec_prepared(m, root, pp),
        AnyTool::New(x) => x.spec_prepared(m, root, pp),
        AnyTool::List(x) => x.spec_prepared(m, root, pp),
        AnyTool::Package(x) => x.spec_prepared(m, root, pp),
        AnyTool::Search(x) => x.spec_prepared(m, root, pp),
        AnyTool::Update(x) => x.spec_prepared(m, root, pp),
        AnyTool::DenyCheck(x) => x.spec_prepared(m, root, pp),
        AnyTool::DenyInit(x) => x.spec_prepared(m, root, pp),
        AnyTool::DenyList(x) => x.spec_prepared(m, root, pp),
        AnyTool::DenyInstall(x) => x.spec_prepared(m, root, pp),
        AnyTool::Hack(x) => x.spec_prepared(m, root, pp),
        AnyTool::HackInstall(x) => x.spec_prepared(m, root, pp),
        AnyTool::RustcExplain(x) => x.spec_prepared(m, root, pp),
    }
}

/// `e` is the validation error this tool reports on `m`.
pub open spec fn spec_tool_prepare_err(t: AnyTool, m: Seq<(Seq<char>, crate::json::JsonValueV)>, e: ToolErrorV) -> bool {
    match t {
        AnyTool::Add(x) => x.spec_prepare_err(m, e),
        AnyTool::Remove(x) => x.spec_prepare_err(m, e),
        AnyTool::Check(x) => x.spec_prepare_err(m, e),
        AnyTool::Clippy(x) => x.spec_prepare_err(m, e),
        AnyTool::Doc(x) => x.spec_prepare_err(m, e),
        AnyTool::Info(x) => x.spec_prepare_err(m, e),
        AnyTool::Metadata(x) => x.spec_prepare_err(m, e),
        AnyTool::GenerateLockfile(x) => x.spec_prepare_err(m, e),
        AnyTool::Clean(x) => x.spec_prepare_err(m, e),
        AnyTool::Fmt(x) => x.spec_prepare_err(m, e),
        AnyTool::New(x) => x.spec_prepare_err(m, e),
        AnyTool::List(x) => x.spec_prepare_err(m, e),
        AnyTool::Package(x) => x.spec_prepare_err(m, e),
        AnyTool::Search(x) => x.spec_prepare_err(m, e),
        AnyTool::Update(x) => x.spec_prepare_err(m, e),
        AnyTool::DenyCheck(x) => x.spec_prepare_err(m, e),
        AnyTool::DenyInit(x) => x.spec_prepare_err(m, e),
        AnyTool::DenyList(x) => x.spec_prepare_err(m, e),
        AnyTool::DenyInstall(x) => x.spec_prepare_err(m, e),
        AnyTool::Hack(x) => x.spec_prepare_err(m, e),
        AnyTool::HackInstall(x) => x.spec_prepare_err(m, e),
        AnyTool::RustcExplain(x) => x.spec_prepare_err(m, e),
    }
}

impl AnyTool {
    /// The dispatch name of this tool.
    pub fn name(&self) -> (r: &'static str)
        ensures
            r@ == spec_tool_name(*self),
    {
        match self {
            AnyTool::Add(x) => x.name(),
            AnyTool::Remove(x) => x.name(),
            AnyTool::Check(x) => x.name(),
            AnyTool::Clippy(x) => x.name(),
            AnyTool::Doc(x) => x.name(),
            AnyTool::Info(x) => x.name(),
            AnyTool::Metadata(x) => x.name(),
            AnyTool::GenerateLockfile(x) => x.name(),
            AnyTool::Clean(x) => x.name(),
            AnyTool::Fmt(x) => x.name(),
            AnyTool::New(x) => x.name(),
            AnyTool::List(x) => x.name(),
            AnyTool::Package(x) => x.name(),
            AnyTool::Search(x) => x.name(),
            AnyTool::Update(x) => x.name(),
            AnyTool::DenyCheck(x) => x.name(),
            AnyTool::DenyInit(x) => x.name(),
            AnyTool::DenyList(x) => x.name(),
            AnyTool::DenyInstall(x) => x.name(),
            AnyTool::Hack(x) => x.name(),
            AnyTool::HackInstall(x) => x.name(),
            AnyTool::RustcExplain(x) => x.name(),
        }
    }

    /// The advertised identity and schema of this tool.
    pub fn descriptor(&self) -> (r: ToolDescriptor)
        ensures
            r.name@ == spec_tool_name(*self),
            r.title@ == spec_tool_title(*self),
            r.description@ == spec_tool_description(*self),
            r.schema.deep_view() == spec_tool_schema(*self),
    {
        match self {
            AnyTool::Add(x) => ToolDescriptor {
                name: x.name().to_owned(),
                title: x.title().to_owned(),
                description: x.description().to_owned(),
                schema: x.schema(),
            },
            AnyTool::Remove(x) => ToolDescriptor {
                name: x.name().to_owned(),
                title: x.title().to_owned(),
                description: x.description().to_owned(),
                schema: x.schema(),
            },
            AnyTool::Check(x) => ToolDescriptor {
                name: x.name().to_owned(),
                title: x.title().to_owned(),
                description: x.description().to_owned(),
                schema: x.schema(),
            },
            AnyTool::Clippy(x) => ToolDescriptor {
                name: x.name().to_owned(),
                title: x.title().to_owned(),
                description: x.description().to_owned(),
                schema: x.schema(),
            },
            AnyTool::Doc(x) => ToolDescriptor {
                name: x.name().to_owned(),
                title: x.title().to_owned(),
                description: x.description().to_owned(),
                schema: x.schema(),
            },
            AnyTool::Info(x) => ToolDescriptor {
                name: x.name().to_owned(),
                title: x.title().to_owned(),
                description: x.description().to_owned(),
                schema: x.schema(),
            },
            AnyTool::Metadata(x) => ToolDescriptor {
                name: x.name().to_owned(),
                title: x.title().to_owned(),
                description: x.description().to_owned(),
                schema: x.schema(),
            },
            AnyTool::GenerateLockfile(x) => ToolDescriptor {
                name: x.name().to_owned(),
                title: x.title().to_owned(),
                description: x.description().to_owned(),
                schema: x.schema(),
            },
            AnyTool::Clean(x) => ToolDescriptor {
                name: x.name().to_owned(),
                title: x.title().to_owned(),
                description: x.description().to_owned(),
                schema: x.schema(),
            },
            AnyTool::Fmt(x) => ToolDescriptor {
                name: x.name().to_owned(),
                title: x.title().to_owned(),
                description: x.description().to_owned(),
                schema: x.schema(),
            },
            AnyTool::New(x) => ToolDescriptor {
                name: x.name().to_owned(),
                title: x.title().to_owned(),
                description: x.description().to_owned(),
                schema: x.schema(),
            },
            AnyTool::List(x) => ToolDescriptor {
                name: x.name().to_owned(),
                title: x.title().to_owned(),
                description: x.description().to_owned(),
                schema: x.schema(),
            },
            AnyTool::Package(x) => ToolDescriptor {
                name: x.name().to_owned(),
                title: x.title().to_owned(),
                description: x.description().to_owned(),
                schema: x.schema(),
            },
            AnyTool::Search(x) => ToolDescriptor {
                name: x.name().to_owned(),
                title: x.title().to_owned(),
                description: x.description().to_owned(),
                schema: x.schema(),
            },
            AnyTool::Update(x) => ToolDescriptor {
                name: x.name().to_owned(),
                title: x.title().to_owned(),
                description: x.description().to_owned(),
                schema: x.schema(),
            },
            AnyTool::DenyCheck(x) => ToolDescriptor {
                name: x.name().to_owned(),
                title: x.title().to_owned(),
                description: x.description().to_owned(),
                schema: x.schema(),
            },
            AnyTool::DenyInit(x) => ToolDescriptor {
                name: x.name().to_owned(),
                title: x.title().to_owned(),
                description: x.description().to_owned(),
                schema: x.schema(),
            },
            AnyTool::DenyList(x) => ToolDescriptor {
                name: x.name().to_owned(),
                title: x.title().to_owned(),
                description: x.description().to_owned(),
                schema: x.schema(),
            },
            AnyTool::DenyInstall(x) => ToolDescriptor {
                name: x.name().to_owned(),
                title: x.title().to_owned(),
                description: x.description().to_owned(),
                schema: x.schema(),
            },
            AnyTool::Hack(x) => ToolDescriptor {
                name: x.name().to_owned(),
                title: x.title().to_owned(),
                description: x.description().to_owned(),
                schema: x.schema(),
            },
            AnyTool::HackInstall(x) => ToolDescriptor {
                name: x.name().to_owned(),
                title: x.title().to_owned(),
                description: x.description().to_owned(),
                schema: x.schema(),
            },
            AnyTool::RustcExplain(x) => ToolDescriptor {
                name: x.name().to_owned(),
                title: x.title().to_owned(),
                description: x.description().to_owned(),
                schema: x.schema(),
            },
        }
    }

    /// Prepares one invocation from raw parameters, applying the
    /// process-wide working directory.
    pub fn prepare(&self, params: &RawParams, config: &ProcessWideConfig) -> (r: Result<
        Prepared,
        ToolError,
    >)
        ensures
            r is Ok <==> spec_tool_prepare_ok(*self, params@),
            r matches Ok(pp) ==> spec_tool_prepared(
                *self,
                params@,
                config.workspace_root.deep_view(),
                pp,
            ),
            r matches Ok(pp) ==> pp.invocation.cwd.deep_view()
                == config.workspace_root.deep_view(),
            r matches Err(e) ==> spec_tool_prepare_err(*self, params@, e@) && e
                is InvalidParameter,
    {
        match self {
            AnyTool::Add(x) => x.prepare(params, config),
            AnyTool::Remove(x) => x.prepare(params, config),
            AnyTool::Check(x) => x.prepare(params, config),
            AnyTool::Clippy(x) => x.prepare(params, config),
            AnyTool::Doc(x) => x.prepare(params, config),
            AnyTool::Info(x) => x.prepare(params, config),
            AnyTool::Metadata(x) => x.prepare(params, config),
            AnyTool::GenerateLockfile(x) => x.prepare(params, config),
            AnyTool::Clean(x) => x.prepare(params, config),
            AnyTool::Fmt(x) => x.prepare(params, config),
            AnyTool::New(x) => x.prepare(params, config),
            AnyTool::List(x) => x.prepare(params, config),
            AnyTool::Package(x) => x.prepare(params, config),
            AnyTool::Search(x) => x.prepare(params, config),
            AnyTool::Update(x) => x.prepare(params, config),
            AnyTool::DenyCheck(x) => x.prepare(params, config),
            AnyTool::DenyInit(x) => x.prepare(params, config),
            AnyTool::DenyList(x) => x.prepare(params, config),
            AnyTool::DenyInstall(x) => x.prepare(params, config),
            AnyTool::Hack(x) => x.prepare(params, config),
            AnyTool::HackInstall(x) => x.prepare(params, config),
            AnyTool::RustcExplain(x) => x.prepare(params, config),
        }
    }
}

/// Some registered tool bears this name.
pub open spec fn spec_contains_name(s: Seq<AnyTool>, name: Seq<char>) -> bool {
    exists|i: int| 0 <= i < s.len() && spec_tool_name(s[i]) == name
}

/// Registered names are pairwise distinct, so a name identifies at
/// most one tool.
pub open spec fn spec_registry_wf(s: Seq<AnyTool>) -> bool {
    forall|i: int, j: int|
        0 <= i < j < s.len() ==> spec_tool_name(s[i]) != spec_tool_name(s[j])
}

/// In a well-formed registry, the name used at dispatch time
/// identifies exactly one tool: any two registered tools bearing the
/// same name are the same entry.
pub proof fn lemma_name_identifies_one_tool(s: Seq<AnyTool>, name: Seq<char>, i: int, j: int)
    requires
        spec_registry_wf(s),
        0 <= i < s.len(),
        0 <= j < s.len(),
        spec_tool_name(s[i]) == name,
        spec_tool_name(s[j]) == name,
    ensures
        i == j,
{
}

/// The fixed catalog, in registration order.
pub open spec fn spec_full_catalog() -> Seq<AnyTool> {
    seq![
        AnyTool::Add(CargoAddRmcpTool),
        AnyTool::Remove(CargoRemoveRmcpTool),
        AnyTool::Check(CargoCheckRmcpTool),
        AnyTool::Clippy(CargoClippyRmcpTool),
        AnyTool::Doc(CargoDocRmcpTool),
        AnyTool::Info(CargoInfoRmcpTool),
        AnyTool::Metadata(CargoMetadataRmcpTool),
        AnyTool::GenerateLockfile(CargoGenerateLockfileRmcpTool),
        AnyTool::Clean(CargoCleanRmcpTool),
        AnyTool::Fmt(CargoFmtRmcpTool),
        AnyTool::New(CargoNewRmcpTool),
        AnyTool::List(CargoListRmcpTool),
        AnyTool::Package(CargoPackageRmcpTool),
        AnyTool::Search(CargoSearchRmcpTool),
        AnyTool::Update(CargoUpdateRmcpTool),
        AnyTool::DenyCheck(CargoDenyCheckRmcpTool),
        AnyTool::DenyInit(CargoDenyInitRmcpTool),
        AnyTool::DenyList(CargoDenyListRmcpTool),
        AnyTool::DenyInstall(CargoDenyInstallRmcpTool),
        AnyTool::Hack(CargoHackRmcpTool),
        AnyTool::HackInstall(CargoHackInstallRmcpTool),
        AnyTool::RustcExplain(RustcExplainRmcpTool),
    ]
}

/// The fixed catalog is well-formed: its names are pairwise distinct.
#[verifier::rlimit(100)]
pub proof fn lemma_full_catalog_wf()
    ensures
        spec_registry_wf(spec_full_catalog()),
{
    reveal_strlit("cargo-add");
    reveal_strlit("cargo-remove");
    reveal_strlit("cargo-check");
    reveal_strlit("cargo-clippy");
    reveal_strlit("cargo-doc");
    reveal_strlit("cargo-info");
    reveal_strlit("cargo-metadata");
    reveal_strlit("cargo-generate_lockfile");
    reveal_strlit("cargo-clean");
    reveal_strlit("cargo-fmt");
    reveal_strlit("cargo-new");
    reveal_strlit("cargo-list");
    reveal_strlit("cargo-package");
    reveal_strlit("cargo-search");
    reveal_strlit("cargo-update");
    reveal_strlit("cargo-deny-check");
    reveal_strlit("cargo-deny-init");
    reveal_strlit("cargo-deny-list");
    reveal_strlit("cargo-deny-install");
    reveal_strlit("cargo-hack");
    reveal_strlit("cargo-hack-install");
    reveal_strlit("rustc-explain");
    let names = Seq::new(spec_full_catalog().len(), |i: int| spec_tool_name(spec_full_catalog()[i]));
    assert(names[0] == "cargo-add"@);
    assert(names[1] == "cargo-remove"@);
    assert(names[2] == "cargo-check"@);
    assert(names[3] == "cargo-clippy"@);
    assert(names[4] == "cargo-doc"@);
    assert(names[5] == "cargo-info"@);
    assert(names[6] == "cargo-metadata"@);
    assert(names[7] == "cargo-generate_lockfile"@);
    assert(names[8] == "cargo-clean"@);
    assert(names[9] == "cargo-fmt"@);
    assert(names[10] == "cargo-new"@);
    assert(names[11] == "cargo-list"@);
    assert(names[12] == "cargo-package"@);
    assert(names[13] == "cargo-search"@);
    assert(names[14] == "cargo-update"@);
    assert(names[15] == "cargo-deny-check"@);
    assert(names[16] == "cargo-deny-init"@);
    assert(names[17] == "cargo-deny-list"@);
    assert(names[18] == "cargo-deny-install"@);
    assert(names[19] == "cargo-hack"@);
    assert(names[20] == "cargo-hack-install"@);
    assert(names[21] == "rustc-explain"@);
    assert("cargo-add"@.len() == 9);
    assert("cargo-remove"@.len() == 12);
    assert("cargo-check"@.len() == 11);
    assert("cargo-clippy"@.len() == 12);
    assert("cargo-doc"@.len() == 9);
    assert("cargo-info"@.len() == 10);
    assert("cargo-metadata"@.len() == 14);
    assert("cargo-generate_lockfile"@.len() == 23);
    assert("cargo-clean"@.len() == 11);
    assert("cargo-fmt"@.len() == 9);
    assert("cargo-new"@.len() == 9);
    assert("cargo-list"@.len() == 10);
    assert("cargo-package"@.len() == 13);
    assert("cargo-search"@.len() == 12);
    assert("cargo-update"@.len() == 12);
    assert("cargo-deny-check"@.len() == 16);
    assert("cargo-deny-init"@.len() == 15);
    assert("cargo-deny-list"@.len() == 15);
    assert("cargo-deny-install"@.len() == 18);
    assert("cargo-hack"@.len() == 10);
    assert("cargo-hack-install"@.len() == 18);
    assert("rustc-explain"@.len() == 13);
    assert("cargo-add"@[6] == 'a');
    assert("cargo-doc"@[6] == 'd');
    assert("cargo-fmt"@[6] == 'f');
    assert("cargo-new"@[6] == 'n');
    assert("cargo-info"@[6] == 'i');
    assert("cargo-list"@[6] == 'l');
    assert("cargo-hack"@[6] == 'h');
    assert("cargo-check"@[7] == 'h');
    assert("cargo-clean"@[7] == 'l');
    assert("cargo-remove"@[6] == 'r');
    assert("cargo-clippy"@[6] == 'c');
    assert("cargo-search"@[6] == 's');
    assert("cargo-update"@[6] == 'u');
    assert("cargo-package"@[0] == 'c');
    assert("rustc-explain"@[0] == 'r');
    assert("cargo-deny-init"@[11] == 'i');
    assert("cargo-deny-list"@[11] == 'l');
    assert("cargo-deny-install"@[6] == 'd');
    assert("cargo-hack-install"@[6] == 'h');
    assert forall|i: int, j: int|
        0 <= i < j < spec_full_catalog().len() implies spec_tool_name(spec_full_catalog()[i])
        != spec_tool_name(spec_full_catalog()[j]) by {
        assert(i == 0 || i == 1 || i == 2 || i == 3 || i == 4 || i == 5 || i == 6 || i == 7 || i
            == 8 || i == 9 || i == 10 || i == 11 || i == 12 || i == 13 || i == 14 || i == 15 || i
            == 16 || i == 17 || i == 18 || i == 19 || i == 20 || i == 21);
        assert(j == 1 || j == 2 || j == 3 || j == 4 || j == 5 || j == 6 || j == 7 || j == 8 || j
            == 9 || j == 10 || j == 11 || j == 12 || j == 13 || j == 14 || j == 15 || j == 16 || j
            == 17 || j == 18 || j == 19 || j == 20 || j == 21);
        assert(names[i] == spec_tool_name(spec_full_catalog()[i]));
        assert(names[j] == spec_tool_name(spec_full_catalog()[j]));
        assert(names[i] != names[j]);
    }
}

/// The first registered tool bearing `name`, if any. In a
/// well-formed registry it is the only one.
pub open spec fn spec_lookup_tool(s: Seq<AnyTool>, name: Seq<char>) -> Option<AnyTool>
    decreases s.len(),
{
    if s.len() == 0 {
        None
    } else if spec_tool_name(s[0]) == name {
        Some(s[0])
    } else {
        spec_lookup_tool(s.drop_first(), name)
    }
}

/// A name is found exactly when some registered tool bears it.
pub proof fn lemma_lookup_tool_contains(s: Seq<AnyTool>, name: Seq<char>)
    ensures
        spec_lookup_tool(s, name) is Some <==> spec_contains_name(s, name),
    decreases s.len(),
{
    if s.len() > 0 {
        lemma_lookup_tool_contains(s.drop_first(), name);
        if spec_tool_name(s[0]) != name {
            assert(spec_contains_name(s, name) <==> spec_contains_name(s.drop_first(), name))
                by {
                if spec_contains_name(s, name) {
                    let i = choose|i: int|
                        0 <= i < s.len() && spec_tool_name(s[i]) == name;
                    assert(s.drop_first()[i - 1] == s[i]);
                }
                if spec_contains_name(s.drop_first(), name) {
                    let i = choose|i: int|
                        0 <= i < s.drop_first().len() && spec_tool_name(s.drop_first()[i])
                            == name;
                    assert(s[i + 1] == s.drop_first()[i]);
                }
            }
        }
    }
}

/// In a well-formed registry, the lookup returns exactly the tool any
/// matching index holds: dispatch by name reaches that tool and no
/// other.
pub proof fn lemma_lookup_finds_the_tool(s: Seq<AnyTool>, name: Seq<char>, i: int)
    requires
        spec_registry_wf(s),
        0 <= i < s.len(),
        spec_tool_name(s[i]) == name,
    ensures
        spec_lookup_tool(s, name) == Some(s[i]),
    decreases s.len(),
{
    if i == 0 {
    } else {
        assert(spec_tool_name(s[0]) != name);
        assert(s.drop_first()[i - 1] == s[i]);
        assert(spec_registry_wf(s.drop_first())) by {
            assert forall|a: int, b: int|
                0 <= a < b < s.drop_first().len() implies spec_tool_name(s.drop_first()[a])
                != spec_tool_name(s.drop_first()[b]) by {
                assert(s.drop_first()[a] == s[a + 1]);
                assert(s.drop_first()[b] == s[b + 1]);
            }
        }
        lemma_lookup_finds_the_tool(s.drop_first(), name, i - 1);
    }
}

/// The registry of all tools: populated once at startup, read-only
/// thereafter.
#[derive(Debug)]
pub struct Registry {
    pub tools: Vec<AnyTool>,
}

impl Registry {
    /// An empty registry.
    pub fn new() -> (r: Registry)
        ensures
            r.tools@ == Seq::<AnyTool>::empty(),
    {
        Registry { tools: Vec::new() }
    }

    /// The full catalog: every tool of this crate, in a fixed order,
    /// each under its own name; the result is well-formed, so
    /// dispatch by name is unambiguous.
    pub fn with_all_tools() -> (r: Registry)
        ensures
            r.tools@ == spec_full_catalog(),
            spec_registry_wf(r.tools@),
    {
        let mut tools: Vec<AnyTool> = Vec::new();
        tools.push(AnyTool::Add(CargoAddRmcpTool));
        tools.push(AnyTool::Remove(CargoRemoveRmcpTool));
        tools.push(AnyTool::Check(CargoCheckRmcpTool));
        tools.push(AnyTool::Clippy(CargoClippyRmcpTool));
        tools.push(AnyTool::Doc(CargoDocRmcpTool));
        tools.push(AnyTool::Info(CargoInfoRmcpTool));
        tools.push(AnyTool::Metadata(CargoMetadataRmcpTool));
        tools.push(AnyTool::GenerateLockfile(CargoGenerateLockfileRmcpTool));
        tools.push(AnyTool::Clean(CargoCleanRmcpTool));
        tools.push(AnyTool::Fmt(CargoFmtRmcpTool));
        tools.push(AnyTool::New(CargoNewRmcpTool));
        tools.push(AnyTool::List(CargoListRmcpTool));
        tools.push(AnyTool::Package(CargoPackageRmcpTool));
        tools.push(AnyTool::Search(CargoSearchRmcpTool));
        tools.push(AnyTool::Update(CargoUpdateRmcpTool));
        tools.push(AnyTool::DenyCheck(CargoDenyCheckRmcpTool));
        tools.push(AnyTool::DenyInit(CargoDenyInitRmcpTool));
        tools.push(AnyTool::DenyList(CargoDenyListRmcpTool));
        tools.push(AnyTool::DenyInstall(CargoDenyInstallRmcpTool));
        tools.push(AnyTool::Hack(CargoHackRmcpTool));
        tools.push(AnyTool::HackInstall(CargoHackInstallRmcpTool));
        tools.push(AnyTool::RustcExplain(RustcExplainRmcpTool));
        let r = Registry { tools };
        proof {
            assert(r.tools@ =~= spec_full_catalog());
            lemma_full_catalog_wf();
        }
        r
    }

    /// Whether a tool of this name is registered.
    pub fn contains_name(&self, name: &str) -> (r: bool)
        ensures
            r == spec_contains_name(self.tools@, name@),
    {
        let n = self.tools.len();
        let mut i: usize = 0;
        while i < n
            invariant
                n == self.tools.len(),
                i <= n,
                forall|j: int| 0 <= j < i ==> spec_tool_name(self.tools@[j]) != name@,
            decreases n - i,
        {
            if str_eq(self.tools[i].name(), name) {
                return true;
            }
            i = i + 1;
        }
        false
    }

    /// Registers a tool. Fails, leaving the registry unchanged, when
    /// the name is already taken; registering into a well-formed
    /// registry keeps it well-formed.
    pub fn register(&mut self, t: AnyTool) -> (r: Result<(), ToolError>)
        ensures
            r is Ok <==> !spec_contains_name(old(self).tools@, spec_tool_name(t)),
            r is Ok ==> final(self).tools@ == old(self).tools@.push(t),
            r is Err ==> final(self).tools@ == old(self).tools@,
            r matches Err(e) ==> e@ == ToolErrorV::InvalidParameter(
                "duplicate tool name: "@ + spec_tool_name(t),
            ),
            spec_registry_wf(old(self).tools@) && r is Ok ==> spec_registry_wf(final(self).tools@),
    {
        if self.contains_name(t.name()) {
            let mut msg = String::new();
            msg.append("duplicate tool name: ");
            msg.append(t.name());
            Err(ToolError::InvalidParameter(msg))
        } else {
            let ghost pre = self.tools@;
            let ghost tv = t;
            self.tools.push(t);
            proof {
                assert(self.tools@ =~= pre.push(tv));
                if spec_registry_wf(pre) {
                    assert forall|i: int, j: int|
                        0 <= i < j < self.tools@.len() implies spec_tool_name(self.tools@[i])
                        != spec_tool_name(self.tools@[j]) by {
                        if j < pre.len() {
                        } else {
                            assert(self.tools@[j] == tv);
                            assert(!spec_contains_name(pre, spec_tool_name(tv)));
                        }
                    }
                }
            }
            Ok(())
        }
    }

    /// The descriptors of every registered tool, in registration
    /// order.
    pub fn list(&self) -> (r: Vec<ToolDescriptor>)
        ensures
            r@.len() == self.tools@.len(),
            forall|i: int|
                0 <= i < r@.len() ==> {
                    &&& #[trigger] r@[i].name@ == spec_tool_name(self.tools@[i])
                    &&& r@[i].title@ == spec_tool_title(self.tools@[i])
                    &&& r@[i].description@ == spec_tool_description(self.tools@[i])
                    &&& r@[i].schema.deep_view() == spec_tool_schema(self.tools@[i])
                },
    {
        let n = self.tools.len();
        let mut out: Vec<ToolDescriptor> = Vec::new();
        let mut i: usize = 0;
        while i < n
            invariant
                n == self.tools.len(),
                i <= n,
                out@.len() == i,
                forall|j: int|
                    0 <= j < i ==> {
                        &&& #[trigger] out@[j].name@ == spec_tool_name(self.tools@[j])
                        &&& out@[j].title@ == spec_tool_title(self.tools@[j])
                        &&& out@[j].description@ == spec_tool_description(self.tools@[j])
                        &&& out@[j].schema.deep_view() == spec_tool_schema(self.tools@[j])
                    },
            decreases n - i,
        {
            out.push(self.tools[i].descriptor());
            i = i + 1;
        }
        out
    }

    /// Looks the name up and prepares that tool's invocation. An
    /// unregistered name always yields `UnknownTool`, naming it, and
    /// `UnknownTool` arises in no other way. A registered name is
    /// forwarded to exactly the matching tool: the call succeeds
    /// exactly when that tool accepts the parameters, a prepared call
    /// is pinned by that tool's `spec_prepared` (its working
    /// directory exactly the configured one), and a failure is that
    /// tool's own validation error.
    pub fn dispatch_prepare(
        &self,
        name: &str,
        params: &RawParams,
        config: &ProcessWideConfig,
    ) -> (r: Result<Prepared, ToolError>)
        ensures
            (r matches Err(e) && e is UnknownTool) <==> !spec_contains_name(self.tools@, name@),
            r matches Err(e) ==> (e is UnknownTool ==> e@ == ToolErrorV::UnknownTool(
                "Tool not found: "@ + name@,
            )),
            spec_lookup_tool(self.tools@, name@) matches Some(t) ==> (r is Ok
                <==> spec_tool_prepare_ok(t, params@)),
            spec_lookup_tool(self.tools@, name@) matches Some(t) ==> (r matches Ok(pp)
                ==> spec_tool_prepared(t, params@, config.workspace_root.deep_view(), pp)),
            spec_lookup_tool(self.tools@, name@) matches Some(t) ==> (r matches Err(e)
                ==> spec_tool_prepare_err(t, params@, e@) && e is InvalidParameter),
            r matches Ok(pp) ==> pp.invocation.cwd.deep_view()
                == config.workspace_root.deep_view(),
    {
        let n = self.tools.len();
        let mut i: usize = 0;
        proof {
            assert(self.tools@.skip(0) =~= self.tools@);
        }
        while i < n
            invariant
                n == self.tools.len(),
                i <= n,
                forall|j: int| 0 <= j < i ==> spec_tool_name(self.tools@[j]) != name@,
                spec_lookup_tool(self.tools@, name@) == spec_lookup_tool(
                    self.tools@.skip(i as int),
                    name@,
                ),
            decreases n - i,
        {
            proof {
                assert(self.tools@.skip(i as int)[0] == self.tools@[i as int]);
            }
            if str_eq(self.tools[i].name(), name) {
                proof {
                    assert(spec_contains_name(self.tools@, name@));
                    assert(spec_lookup_tool(self.tools@, name@) == Some(self.tools@[i as int]));
                }
                return self.tools[i].prepare(params, config);
            }
            proof {
                assert(self.tools@.skip(i as int).drop_first() =~= self.tools@.skip(i as int + 1));
            }
            i = i + 1;
        }
        proof {
            assert(self.tools@.skip(n as int) =~= Seq::<AnyTool>::empty());
        }
        let mut msg = String::new();
        msg.append("Tool not found: ");
        msg.append(name);
        Err(ToolError::UnknownTool(msg))
    }
}

} // verus!
