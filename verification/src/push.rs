//! How the two push commands decide the outcome of a sync attempt.

use crate::command::{CommandOutput, OutputView};
use vstd::prelude::*;

verus! {

/// The outcome of pushing branches and tags to the mirror remote.
#[derive(Debug, PartialEq, Eq)]
pub enum PushVerdict {
    /// The branches reached the mirror. `tags_pushed` tells whether the tags
    /// did too; their failure alone does not fail the sync.
    Mirrored { tags_pushed: bool },
    /// The branches did not reach the mirror; `message` is the standard error
    /// text of the branch push, verbatim.
    Failed { message: String },
}

/// The mathematical content of a [`PushVerdict`].
pub ghost enum VerdictView {
    Mirrored { tags_pushed: bool },
    Failed { message: Seq<char> },
}

impl View for PushVerdict {
    type V = VerdictView;

    open spec fn view(&self) -> VerdictView {
        match self {
            PushVerdict::Mirrored { tags_pushed } => VerdictView::Mirrored {
                tags_pushed: *tags_pushed,
            },
            PushVerdict::Failed { message } => VerdictView::Failed { message: message@ },
        }
    }
}

/// The verdict on a branch push that ended with `branches` and a tag push
/// that ended with `tags`: the branch push alone decides between success and
/// failure.
pub open spec fn verdict_of(branches: OutputView, tags: OutputView) -> VerdictView {
    if branches.success {
        VerdictView::Mirrored { tags_pushed: tags.success }
    } else {
        VerdictView::Failed { message: branches.stderr }
    }
}

/// Judges a push from the outputs of its two commands.
pub fn judge_push(branches: CommandOutput, tags: &CommandOutput) -> (verdict: PushVerdict)
    ensures
        verdict@ == verdict_of(branches@, tags@),
{
    if branches.success {
        PushVerdict::Mirrored { tags_pushed: tags.success }
    } else {
        PushVerdict::Failed { message: branches.stderr }
    }
}

} // verus!
