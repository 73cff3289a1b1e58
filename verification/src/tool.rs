//! The uniform tool contract: every wrapped command exposes a name, a
//! title, a description, a parameter schema, and a preparation step
//! that turns raw parameters into one process invocation. What happens
//! after the process ran — wrapping the outcome and attaching
//! tool-specific recommendations — is carried by a `PendingCall`.

use vstd::prelude::*;

use crate::errors::{ToolError, ToolErrorV};
use crate::invocation::{Invocation, ProcessWideConfig};
use crate::outcome::ExecutionOutcome;
use crate::response::{spec_outcome_content, ContentBlockV, Response};
use crate::schema::{SchemaField, SchemaFieldV};
use crate::json::{JsonValueV, RawParams};

verus! {

/// A prepared call: the invocation to run, and what to do with its
/// outcome.
#[derive(Debug)]
pub struct Prepared {
    pub invocation: Invocation,
    pub pending: PendingCall,
}

/// The tool-specific work left after the process exits.
#[derive(Debug)]
pub enum PendingCall {
    /// Wrap the outcome and nothing more.
    Plain,
    /// `cargo fmt`: recommend a plain run when a `--check` run failed.
    Fmt { check: bool },
    /// `cargo clippy`: recommend `--fix` on diagnostics, and a format
    /// pass after fixes.
    Clippy { fix: bool },
    /// `cargo metadata`: recommend trimming the output.
    Metadata { no_deps: bool },
    /// `cargo doc`: report where the documentation landed, and
    /// recommend `--no-deps` after a slow run. The directory and the
    /// package index candidate say where the embedding should look.
    Doc { no_deps: bool, doc_dir: String, package_index: Option<String> },
}

/// The extra text block a successful documentation build adds: the
/// index path when one was found.
pub open spec fn spec_doc_info_text(doc_index: Option<Seq<char>>) -> Seq<char> {
    match doc_index {
        Some(path) => "Documentation generated successfully!\nDocumentation file: "@ + path
            + "\nOpen this file in your browser to view the docs"@,
        None => "Documentation generated successfully!"@,
    }
}

/// The content of a finished call: the captured streams, plus the
/// documentation note after a successful `cargo doc` run.
pub open spec fn spec_finish_content(
    p: PendingCall,
    o: ExecutionOutcome,
    doc_index: Option<Seq<char>>,
) -> Seq<ContentBlockV> {
    let base = spec_outcome_content(o.stdout.deep_view(), o.stderr.deep_view());
    match p {
        PendingCall::Doc { .. } => if o.success {
            base.push(ContentBlockV::Text(spec_doc_info_text(doc_index)))
        } else {
            base
        },
        _ => base,
    }
}

/// The recommendations of a finished call, in order.
pub open spec fn spec_finish_recs(p: PendingCall, o: ExecutionOutcome) -> Seq<Seq<char>> {
    match p {
        PendingCall::Plain => Seq::<Seq<char>>::empty(),
        PendingCall::Fmt { check } => if !o.success && check {
            seq!["Run #cargo-fmt with `check: false` to automatically format the code"@]
        } else {
            Seq::<Seq<char>>::empty()
        },
        PendingCall::Clippy { fix } => (
        if !fix && o.stderr is Some {
            seq![
                "Run #cargo-clippy with the `fix` and `allow_dirty` options to automatically fix the issues"@,
            ]
        } else {
            Seq::<Seq<char>>::empty()
        }) + (
        if fix {
            seq!["Run #cargo-fmt to format code after applying fixes"@]
        } else {
            Seq::<Seq<char>>::empty()
        }),
        PendingCall::Metadata { no_deps } => (
        if !no_deps {
            seq![
                "Set no_deps=true to return only workspace member metadata, reducing output size and token usage"@,
            ]
        } else {
            Seq::<Seq<char>>::empty()
        }) + seq!["Use #cargo-workspace_info if you don't need full metadata"@],
        PendingCall::Doc { no_deps, .. } => if o.success && o.duration_ms >= 30000 && !no_deps {
            seq![
                "For faster documentation builds, consider using `no_deps: true` to build only local documentation"@,
            ]
        } else {
            Seq::<Seq<char>>::empty()
        },
    }
}

impl PendingCall {
    /// Wraps a completed process outcome into the final response. The
    /// error flag is exactly the negation of process success; the
    /// content carries the captured streams (and, for a successful
    /// documentation build, where the index landed); the
    /// recommendations are the tool's advisory hints, never touching
    /// the error flag. `doc_index` is consulted only by the
    /// documentation tool.
    pub fn finish(&self, outcome: &ExecutionOutcome, doc_index: Option<String>) -> (r: Response)
        ensures
            r.is_error == !outcome.success,
            r.content.deep_view() == spec_finish_content(*self, *outcome, doc_index.deep_view()),
            r.recommendations.deep_view() == spec_finish_recs(*self, *outcome),
    {
        let mut response = Response::from_outcome(outcome);
        proof {
            assert(response.recommendations.deep_view() =~= Seq::<Seq<char>>::empty());
        }
        match self {
            PendingCall::Plain => {},
            PendingCall::Fmt { check } => {
                if !outcome.success && *check {
                    response.add_recommendation(
                        "Run #cargo-fmt with `check: false` to automatically format the code".to_owned(),
                    );
                    proof {
                        assert(response.recommendations.deep_view() =~= spec_finish_recs(
                            *self,
                            *outcome,
                        ));
                    }
                }
            },
            PendingCall::Clippy { fix } => {
                let has_stderr = match &outcome.stderr {
                    Some(_) => true,
                    None => false,
                };
                if !*fix && has_stderr {
                    response.add_recommendation(
                        "Run #cargo-clippy with the `fix` and `allow_dirty` options to automatically fix the issues".to_owned(),
                    );
                }
                if *fix {
                    response.add_recommendation(
                        "Run #cargo-fmt to format code after applying fixes".to_owned(),
                    );
                }
                proof {
                    assert(response.recommendations.deep_view() =~= spec_finish_recs(
                        *self,
                        *outcome,
                    ));
                }
            },
            PendingCall::Metadata { no_deps } => {
                if !*no_deps {
                    response.add_recommendation(
                        "Set no_deps=true to return only workspace member metadata, reducing output size and token usage".to_owned(),
                    );
                }
                response.add_recommendation(
                    "Use #cargo-workspace_info if you don't need full metadata".to_owned(),
                );
                proof {
                    assert(response.recommendations.deep_view() =~= spec_finish_recs(
                        *self,
                        *outcome,
                    ));
                }
            },
            PendingCall::Doc { no_deps, .. } => {
                if outcome.success {
                    let info = match &doc_index {
                        Some(path) => {
                            let mut s = String::new();
                            s.append("Documentation generated successfully!\nDocumentation file: ");
                            s.append(path.as_str());
                            s.append("\nOpen this file in your browser to view the docs");
                            s
                        },
                        None => "Documentation generated successfully!".to_owned(),
                    };
                    response.add_content(crate::response::ContentBlock::Text(info));
                    if outcome.duration_ms >= 30000 && !*no_deps {
                        response.add_recommendation(
                            "For faster documentation builds, consider using `no_deps: true` to build only local documentation".to_owned(),
                        );
                    }
                }
                proof {
                    assert(response.recommendations.deep_view() =~= spec_finish_recs(
                        *self,
                        *outcome,
                    ));
                }
            },
        }
        response
    }
}

/// Two calls prepared against the same process-wide configuration
/// observe the same working directory, whatever their interleaving:
/// each prepared invocation's directory is exactly the configured
/// value, which preparation never writes.
pub proof fn lemma_config_read_consistently(
    config: crate::invocation::ProcessWideConfig,
    a: Prepared,
    b: Prepared,
)
    requires
        a.invocation.cwd.deep_view() == config.workspace_root.deep_view(),
        b.invocation.cwd.deep_view() == config.workspace_root.deep_view(),
    ensures
        a.invocation.cwd.deep_view() == b.invocation.cwd.deep_view(),
{
}

/// The uniform capability every wrapped command implements: a stable
/// unique name, a human-readable title and description, a parameter
/// schema, and the preparation of one process invocation from raw
/// parameters. Preparation applies the process-wide working directory,
/// so every prepared invocation observes the same configured value.
pub trait Tool: Sized {
    /// The stable dispatch name.
    spec fn spec_name(&self) -> Seq<char>;

    /// The human-readable title.
    spec fn spec_title(&self) -> Seq<char>;

    /// The tool description.
    spec fn spec_description(&self) -> Seq<char>;

    /// The advertised parameter schema.
    spec fn spec_schema(&self) -> Seq<SchemaFieldV>;

    /// Preparation succeeds on this parameter document: every field
    /// decodes and every enumerated value is inside its closed set.
    spec fn spec_prepare_ok(&self, m: Seq<(Seq<char>, JsonValueV)>) -> bool;

    /// `pp` is exactly what this tool prepares from `m` under the
    /// configured working directory `root`: the program, the full
    /// argument vector, the environment overrides, the directory, and
    /// the pending post-processing step.
    spec fn spec_prepared(
        &self,
        m: Seq<(Seq<char>, JsonValueV)>,
        root: Option<Seq<char>>,
        pp: Prepared,
    ) -> bool;

    /// `e` is the validation error this tool reports on `m`.
    spec fn spec_prepare_err(&self, m: Seq<(Seq<char>, JsonValueV)>, e: ToolErrorV) -> bool;

    /// The stable dispatch name.
    fn name(&self) -> (r: &'static str)
        ensures
            r@ == self.spec_name(),
    ;

    /// The human-readable title.
    fn title(&self) -> (r: &'static str)
        ensures
            r@ == self.spec_title(),
    ;

    /// The tool description.
    fn description(&self) -> (r: &'static str)
        ensures
            r@ == self.spec_description(),
    ;

    /// The advertised parameter schema.
    fn schema(&self) -> (r: Vec<SchemaField>)
        ensures
            r.deep_view() == self.spec_schema(),
    ;

    /// Decodes the raw parameters, builds the invocation, and applies
    /// the process-wide working directory. Succeeds exactly when the
    /// parameters are valid for this tool; the prepared call is then
    /// pinned by `spec_prepared`, with the working directory exactly
    /// the configured one. A validation failure is always an
    /// `InvalidParameter` pinned by `spec_prepare_err`; no tool ever
    /// reports `UnknownTool` or `ExecutionFailure` here.
    fn prepare(&self, params: &RawParams, config: &ProcessWideConfig) -> (r: Result<
        Prepared,
        ToolError,
    >)
        ensures
            r is Ok <==> self.spec_prepare_ok(params@),
            r matches Ok(pp) ==> self.spec_prepared(
                params@,
                config.workspace_root.deep_view(),
                pp,
            ),
            r matches Ok(pp) ==> pp.invocation.cwd.deep_view()
                == config.workspace_root.deep_view(),
            r matches Err(e) ==> self.spec_prepare_err(params@, e@) && e is InvalidParameter,
    ;
}

} // verus!
