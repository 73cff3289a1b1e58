//! The uniform payload handed back to the caller: ordered text content,
//! a derived error flag, and ordered advisory recommendations.

use vstd::prelude::*;

use crate::errors::{spec_error_message, ToolError};
use crate::outcome::ExecutionOutcome;

verus! {

/// A content block of a response; currently only text.
#[derive(Debug, Clone)]
pub enum ContentBlock {
    Text(String),
}

/// Mathematical image of a `ContentBlock`.
pub enum ContentBlockV {
    Text(Seq<char>),
}

impl View for ContentBlock {
    type V = ContentBlockV;

    open spec fn view(&self) -> ContentBlockV {
        match self {
            ContentBlock::Text(s) => ContentBlockV::Text(s@),
        }
    }
}

impl DeepView for ContentBlock {
    type V = ContentBlockV;

    open spec fn deep_view(&self) -> ContentBlockV {
        self.view()
    }
}

/// The structured result of one tool call.
#[derive(Debug)]
pub struct Response {
    /// Ordered content blocks.
    pub content: Vec<ContentBlock>,
    /// Whether the call is to be reported as failed.
    pub is_error: bool,
    /// Ordered free-text advisory hints; never validated, never
    /// affecting the error flag.
    pub recommendations: Vec<String>,
}

/// The content an outcome turns into: one text block with standard
/// output (empty text when there was none), then one with standard
/// error if present and non-empty.
pub open spec fn spec_outcome_content(
    stdout: Option<Seq<char>>,
    stderr: Option<Seq<char>>,
) -> Seq<ContentBlockV> {
    seq![
        ContentBlockV::Text(
            match stdout {
                Some(s) => s,
                None => Seq::<char>::empty(),
            },
        ),
    ] + match stderr {
        Some(s) => if s.len() > 0 {
            seq![ContentBlockV::Text(s)]
        } else {
            Seq::<ContentBlockV>::empty()
        },
        None => Seq::<ContentBlockV>::empty(),
    }
}

impl Response {
    /// Presents a completed execution: the error flag is exactly the
    /// negation of process success, the content carries the captured
    /// streams, and no recommendation is attached yet.
    pub fn from_outcome(outcome: &ExecutionOutcome) -> (r: Response)
        ensures
            r.is_error == !outcome.success,
            r.content.deep_view() == spec_outcome_content(
                outcome.stdout.deep_view(),
                outcome.stderr.deep_view(),
            ),
            r.recommendations@.len() == 0,
    {
        let mut content: Vec<ContentBlock> = Vec::new();
        let stdout_text = match &outcome.stdout {
            Some(s) => s.clone(),
            None => String::new(),
        };
        content.push(ContentBlock::Text(stdout_text));
        match &outcome.stderr {
            Some(s) => {
                if !s.as_str().is_empty() {
                    content.push(ContentBlock::Text(s.clone()));
                }
            },
            None => {},
        }
        proof {
            assert(content.deep_view() =~= spec_outcome_content(
                outcome.stdout.deep_view(),
                outcome.stderr.deep_view(),
            ));
        }
        Response { content, is_error: !outcome.success, recommendations: Vec::new() }
    }

    /// Presents a pre-execution validation error: the error flag is
    /// set and the content is a single text block with the message.
    pub fn from_error(e: &ToolError) -> (r: Response)
        ensures
            r.is_error == true,
            r.content.deep_view() == seq![ContentBlockV::Text(spec_error_message(e@))],
            r.recommendations@.len() == 0,
    {
        let mut content: Vec<ContentBlock> = Vec::new();
        content.push(ContentBlock::Text(e.message().clone()));
        proof {
            assert(content.deep_view() =~= seq![ContentBlockV::Text(spec_error_message(e@))]);
        }
        Response { content, is_error: true, recommendations: Vec::new() }
    }

    /// Appends one advisory hint; purely additive and ordered.
    pub fn add_recommendation(&mut self, hint: String)
        ensures
            final(self).recommendations.deep_view() == old(self).recommendations.deep_view().push(
                hint@,
            ),
            final(self).content == old(self).content,
            final(self).is_error == old(self).is_error,
    {
        let ghost pre = self.recommendations.deep_view();
        let ghost h = hint@;
        self.recommendations.push(hint);
        proof {
            assert(self.recommendations.deep_view() =~= pre.push(h));
        }
    }

    /// Appends one content block.
    pub fn add_content(&mut self, block: ContentBlock)
        ensures
            final(self).content.deep_view() == old(self).content.deep_view().push(block@),
            final(self).recommendations == old(self).recommendations,
            final(self).is_error == old(self).is_error,
    {
        let ghost pre = self.content.deep_view();
        let ghost b = block@;
        self.content.push(block);
        proof {
            assert(self.content.deep_view() =~= pre.push(b));
        }
    }
}

} // verus!
