use vstd::prelude::*;

use crate::branch::{
    branch_from_query, branch_plan, branch_query_error, branch_query_ok, queried_branch,
    BranchPlan, ToolOutcome,
};
use crate::errors::AppError;
use crate::gateway::{classify_fetch_reply, fetch_classification, FetchReply};

verus! {

/// One piece of outside work the open-merge-request operation asks its
/// driver to perform.
#[derive(Debug, PartialEq, Eq)]
pub enum OpenMrAction {
    /// Run the local branch query tool.
    QueryLocalBranch,
    /// Fetch the open merge request of `project_path` whose source branch
    /// is `branch`.
    FetchMergeRequest { project_path: String, branch: String },
    /// Open this link in the default browser.
    OpenUrl { url: String },
}

/// What the driver observed after performing the most recent action.
#[derive(Debug, PartialEq, Eq)]
pub enum OpenMrEvent {
    /// The branch query tool's outcome.
    BranchQueried(ToolOutcome),
    /// The fetch reply, or the transport failure that prevented it.
    FetchReplied(Result<FetchReply, String>),
    /// Whether the browser accepted the link.
    UrlOpened(Result<(), String>),
}

/// Where the open-merge-request operation stands.
#[derive(Debug, Clone, Copy, PartialEq, Eq, Structural)]
pub enum OpenMrPhase {
    Starting,
    QueryingBranch,
    Fetching,
    Opening,
    Done,
}

/// What `step` hands back: one more action to perform, or the operation's
/// result.
#[derive(Debug, PartialEq, Eq)]
pub enum OpenMrStep {
    Continue(OpenMrAction),
    Finished(Result<(), AppError>),
}

/// The open-merge-request operation: resolves the branch, fetches the
/// matching merge request and opens its link in the browser. Nothing
/// remote is ever mutated.
pub struct OpenMrFlow {
    pub phase: OpenMrPhase,
    pub project_path: String,
    /// The branch override, taken verbatim when non-empty.
    pub explicit_branch: Option<String>,
    /// Whether the local branch query tool was ever asked to run.
    pub queried_local: Ghost<bool>,
}

impl OpenMrFlow {
    /// True when a non-empty branch override was supplied.
    pub open spec fn has_explicit_branch(self) -> bool {
        self.explicit_branch matches Some(b) && b@.len() > 0
    }

    /// The inputs of the operation never change over its lifetime.
    pub open spec fn same_setup(self, other: Self) -> bool {
        &&& self.project_path == other.project_path
        &&& self.explicit_branch == other.explicit_branch
    }

    /// The operation's invariant: an explicit branch override keeps the
    /// local query tool out of the run.
    pub open spec fn wf(self) -> bool {
        &&& (self.has_explicit_branch() ==> !self.queried_local@)
        &&& (self.phase == OpenMrPhase::Starting ==> !self.queried_local@)
    }

    /// Which events the protocol admits next.
    pub open spec fn expects(self, e: OpenMrEvent) -> bool {
        match self.phase {
            OpenMrPhase::Starting => false,
            OpenMrPhase::QueryingBranch => e is BranchQueried,
            OpenMrPhase::Fetching => e is FetchReplied,
            OpenMrPhase::Opening => e is UrlOpened,
            OpenMrPhase::Done => false,
        }
    }

    /// Sets the operation up; nothing is asked of the driver yet.
    pub fn new(project_path: String, explicit_branch: Option<String>) -> (f: Self)
        ensures
            f.wf(),
            f.phase == OpenMrPhase::Starting,
            f.project_path@ == project_path@,
            f.explicit_branch == explicit_branch,
            !f.queried_local@,
    {
        OpenMrFlow {
            phase: OpenMrPhase::Starting,
            project_path,
            explicit_branch,
            queried_local: Ghost(false),
        }
    }

    /// Hands out the operation's first action: fetching directly when a
    /// non-empty branch override was supplied — the local branch query
    /// tool is then never invoked — and the branch query otherwise.
    pub fn begin(&mut self) -> (a: OpenMrAction)
        requires
            old(self).wf(),
            old(self).phase == OpenMrPhase::Starting,
        ensures
            final(self).wf(),
            final(self).same_setup(*old(self)),
            old(self).has_explicit_branch() ==> (a matches OpenMrAction::FetchMergeRequest {
                project_path,
                branch,
            } && project_path@ == old(self).project_path@ && (old(self).explicit_branch matches
                Some(b) && branch@ == b@) && final(self).phase == OpenMrPhase::Fetching && !final(self).queried_local@),
            !old(self).has_explicit_branch() ==> (a == OpenMrAction::QueryLocalBranch && final(self).phase == OpenMrPhase::QueryingBranch && final(self).queried_local@),
    {
        let explicit = match &self.explicit_branch {
            Some(b) => Some(b.clone()),
            None => None,
        };
        match branch_plan(explicit) {
            BranchPlan::UseExplicit(branch) => {
                self.phase = OpenMrPhase::Fetching;
                OpenMrAction::FetchMergeRequest {
                    project_path: self.project_path.clone(),
                    branch,
                }
            },
            BranchPlan::QueryLocal => {
                self.phase = OpenMrPhase::QueryingBranch;
                self.queried_local = Ghost(true);
                OpenMrAction::QueryLocalBranch
            },
        }
    }

    /// Consumes the driver's observation of the last action and hands out
    /// the next action, or the operation's result: the merge request's
    /// link is handed to the browser, and any failure on the way finishes
    /// the operation with that error.
    pub fn step(&mut self, event: OpenMrEvent) -> (r: OpenMrStep)
        requires
            old(self).wf(),
            old(self).expects(event),
        ensures
            final(self).wf(),
            final(self).same_setup(*old(self)),
            r is Continue <==> final(self).phase != OpenMrPhase::Done,
            r is Finished <==> final(self).phase == OpenMrPhase::Done,
            final(self).queried_local@ == old(self).queried_local@,
            event matches OpenMrEvent::BranchQueried(o) ==> (if branch_query_ok(o) {
                (r matches OpenMrStep::Continue(a) && a matches OpenMrAction::FetchMergeRequest {
                    project_path,
                    branch,
                } && project_path@ == old(self).project_path@ && branch@ == queried_branch(o)
                    && final(self).phase == OpenMrPhase::Fetching)
            } else {
                (r matches OpenMrStep::Finished(res) && res matches Err(e) && branch_query_error(
                    o,
                    e,
                ))
            }),
            event matches OpenMrEvent::FetchReplied(fr) ==> match fr {
                Err(d) => (r matches OpenMrStep::Finished(res) && res matches Err(e) && e matches
                    AppError::Transport { details } && details@ == d@),
                Ok(reply) => ((r matches OpenMrStep::Finished(res) ==> (res matches Err(e)
                    && fetch_classification(old(self).project_path@, reply, Err(e)))) && (
                r matches OpenMrStep::Continue(a) ==> (a matches OpenMrAction::OpenUrl { url }
                    && (exists|mr: crate::gateway::FetchedMergeRequest| fetch_classification(
                        old(self).project_path@,
                        reply,
                        Ok(mr),
                    ) && url@ == mr.web_url@) && final(self).phase == OpenMrPhase::Opening))),
            },
            event matches OpenMrEvent::UrlOpened(uo) ==> match uo {
                Ok(_) => (r matches OpenMrStep::Finished(res) && res is Ok),
                Err(d) => (r matches OpenMrStep::Finished(res) && res matches Err(e) && e matches
                    AppError::ExternalTool { command, details } && command@ == "open"@ && details@
                    == d@),
            },
    {
        match event {
            OpenMrEvent::BranchQueried(outcome) => {
                match branch_from_query(outcome) {
                    Ok(branch) => {
                        self.phase = OpenMrPhase::Fetching;
                        OpenMrStep::Continue(OpenMrAction::FetchMergeRequest {
                            project_path: self.project_path.clone(),
                            branch,
                        })
                    },
                    Err(e) => {
                        self.phase = OpenMrPhase::Done;
                        OpenMrStep::Finished(Err(e))
                    },
                }
            },
            OpenMrEvent::FetchReplied(fr) => {
                match fr {
                    Err(details) => {
                        self.phase = OpenMrPhase::Done;
                        OpenMrStep::Finished(Err(AppError::Transport { details }))
                    },
                    Ok(reply) => {
                        match classify_fetch_reply(&self.project_path, reply) {
                            Err(e) => {
                                self.phase = OpenMrPhase::Done;
                                OpenMrStep::Finished(Err(e))
                            },
                            Ok(mr) => {
                                self.phase = OpenMrPhase::Opening;
                                OpenMrStep::Continue(OpenMrAction::OpenUrl { url: mr.web_url })
                            },
                        }
                    },
                }
            },
            OpenMrEvent::UrlOpened(uo) => {
                self.phase = OpenMrPhase::Done;
                match uo {
                    Ok(_) => OpenMrStep::Finished(Ok(())),
                    Err(details) => OpenMrStep::Finished(
                        Err(
                            AppError::ExternalTool {
                                command: String::from_str("open"),
                                details,
                            },
                        ),
                    ),
                }
            },
        }
    }
}

} // verus!
