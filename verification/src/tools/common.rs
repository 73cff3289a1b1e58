//! Field kinds shared by several tools: a package-with-version
//! specifier and the closed enumerations for locking mode and output
//! verbosity.

use vstd::prelude::*;

use crate::decode::{opt_string, req_string, spec_opt_string, spec_req_string};
use crate::errors::{res_v, ToolError, ToolErrorV};
use crate::json::{str_eq, RawParams};

verus! {

/// Locking mode for dependency resolution.
///
/// Valid options:
/// - "locked" (default): Assert that `Cargo.lock` will remain unchanged
/// - "unlocked": Allow `Cargo.lock` to be updated
/// - "offline": Run without accessing the network
/// - "frozen": Equivalent to specifying both --locked and --offline
pub const LOCKING_MODE_DESC: &'static str = "Locking mode for dependency resolution. Valid options: \"locked\" (default), \"unlocked\", \"offline\", \"frozen\".";

/// Output verbosity level.
///
/// Valid options:
/// - "quiet" (default): Show only the essential command output
/// - "normal": Show standard output (no additional flags)
/// - "verbose": Show detailed output including build information
pub const OUTPUT_VERBOSITY_DESC: &'static str = "Output verbosity level. Valid options: \"quiet\" (default), \"normal\", \"verbose\".";

/// A package name with an optional version specification.
#[derive(Debug)]
pub struct PackageWithVersion {
    pub package: String,
    pub version: Option<String>,
}

/// The `cargo` package specifier text: `name` or `name@version`.
pub open spec fn spec_pkg_arg(package: Seq<char>, version: Option<Seq<char>>) -> Seq<char> {
    match version {
        Some(v) => package + "@"@ + v,
        None => package,
    }
}

impl PackageWithVersion {
    /// Reads the flattened `package` and `version` fields.
    pub fn decode(p: &RawParams) -> (r: Result<PackageWithVersion, ToolError>)
        ensures
            r is Ok <==> (spec_req_string(p@, "package"@) is Ok && spec_opt_string(p@, "version"@)
                is Ok),
            r matches Ok(q) ==> {
                &&& q.package@ == spec_req_string(p@, "package"@)->Ok_0
                &&& q.version.deep_view() == spec_opt_string(p@, "version"@)->Ok_0
            },
            r matches Err(e) ==> {
                ||| spec_req_string(p@, "package"@) == Err::<Seq<char>, ToolErrorV>(e@)
                ||| spec_opt_string(p@, "version"@) == Err::<Option<Seq<char>>, ToolErrorV>(e@)
            },
            r matches Err(e) ==> e is InvalidParameter,
    {
        let package = req_string(p, "package")?;
        let version = opt_string(p, "version")?;
        Ok(PackageWithVersion { package, version })
    }

    /// The specifier handed to `cargo`: the package name, with
    /// `@version` appended when a version was given.
    pub fn to_spec(&self) -> (r: String)
        ensures
            r@ == spec_pkg_arg(self.package@, self.version.deep_view()),
    {
        match &self.version {
            Some(v) => {
                let mut s = self.package.clone();
                s.append("@");
                s.append(v.as_str());
                s
            },
            None => self.package.clone(),
        }
    }
}

/// The flags a locking mode stands for, after applying the default:
/// `locked`, `unlocked`, `offline` and `frozen` are the only accepted
/// values.
pub open spec fn spec_locking_flags(mode: Option<Seq<char>>, default_mode: Seq<char>) -> Result<
    Seq<Seq<char>>,
    ToolErrorV,
> {
    let m = match mode {
        Some(s) => s,
        None => default_mode,
    };
    if m == "locked"@ {
        Ok(seq!["--locked"@])
    } else if m == "unlocked"@ {
        Ok(Seq::<Seq<char>>::empty())
    } else if m == "offline"@ {
        Ok(seq!["--offline"@])
    } else if m == "frozen"@ {
        Ok(seq!["--frozen"@])
    } else {
        Err(ToolErrorV::InvalidParameter("Unknown locking mode: "@ + m))
    }
}

/// Maps a locking-mode keyword to its `cargo` flags; a value outside
/// the closed set is an `InvalidParameter` naming it.
pub fn locking_mode_to_cli_flags(mode: &Option<String>, default_mode: &str) -> (r: Result<
    Vec<&'static str>,
    ToolError,
>)
    ensures
        res_v(r) == spec_locking_flags(mode.deep_view(), default_mode@),
        r matches Err(e) ==> e is InvalidParameter,
{
    let m: &str = match mode {
        Some(s) => s.as_str(),
        None => default_mode,
    };
    let mut flags: Vec<&'static str> = Vec::new();
    if str_eq(m, "locked") {
        flags.push("--locked");
        proof {
            assert(flags.deep_view() =~= seq!["--locked"@]);
        }
        Ok(flags)
    } else if str_eq(m, "unlocked") {
        proof {
            assert(flags.deep_view() =~= Seq::<Seq<char>>::empty());
        }
        Ok(flags)
    } else if str_eq(m, "offline") {
        flags.push("--offline");
        proof {
            assert(flags.deep_view() =~= seq!["--offline"@]);
        }
        Ok(flags)
    } else if str_eq(m, "frozen") {
        flags.push("--frozen");
        proof {
            assert(flags.deep_view() =~= seq!["--frozen"@]);
        }
        Ok(flags)
    } else {
        let mut msg = String::new();
        msg.append("Unknown locking mode: ");
        msg.append(m);
        Err(ToolError::InvalidParameter(msg))
    }
}

/// The flags an output verbosity stands for: `quiet` (the default),
/// `normal` and `verbose` are the only accepted values.
pub open spec fn spec_verbosity_flags(mode: Option<Seq<char>>) -> Result<
    Seq<Seq<char>>,
    ToolErrorV,
> {
    let m = match mode {
        Some(s) => s,
        None => "quiet"@,
    };
    if m == "quiet"@ {
        Ok(seq!["--quiet"@])
    } else if m == "normal"@ {
        Ok(Seq::<Seq<char>>::empty())
    } else if m == "verbose"@ {
        Ok(seq!["--verbose"@])
    } else {
        Err(ToolErrorV::InvalidParameter("Unknown output verbosity: "@ + m))
    }
}

/// Maps an output-verbosity keyword to its `cargo` flags; a value
/// outside the closed set is an `InvalidParameter` naming it.
pub fn output_verbosity_to_cli_flags(mode: &Option<String>) -> (r: Result<
    Vec<&'static str>,
    ToolError,
>)
    ensures
        res_v(r) == spec_verbosity_flags(mode.deep_view()),
        r matches Err(e) ==> e is InvalidParameter,
{
    let m: &str = match mode {
        Some(s) => s.as_str(),
        None => "quiet",
    };
    let mut flags: Vec<&'static str> = Vec::new();
    if str_eq(m, "quiet") {
        flags.push("--quiet");
        proof {
            assert(flags.deep_view() =~= seq!["--quiet"@]);
        }
        Ok(flags)
    } else if str_eq(m, "normal") {
        proof {
            assert(flags.deep_view() =~= Seq::<Seq<char>>::empty());
        }
        Ok(flags)
    } else if str_eq(m, "verbose") {
        flags.push("--verbose");
        proof {
            assert(flags.deep_view() =~= seq!["--verbose"@]);
        }
        Ok(flags)
    } else {
        let mut msg = String::new();
        msg.append("Unknown output verbosity: ");
        msg.append(m);
        Err(ToolError::InvalidParameter(msg))
    }
}

} // verus!
