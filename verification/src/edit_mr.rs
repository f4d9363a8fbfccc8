use vstd::prelude::*;
use vstd::pervasive::unreached;

use crate::branch::{
    branch_from_query, branch_plan, branch_query_error, branch_query_ok, queried_branch,
    BranchPlan, ToolOutcome,
};
use crate::errors::AppError;
use crate::gateway::{
    classify_fetch_reply, classify_update_reply, fetch_classification, update_classification,
    FetchReply, FetchedMergeRequest, UpdateReply,
};
use crate::session::{EditSession, EditSessionConfig, SessionPhase};

verus! {

/// One piece of outside work the edit-merge-request operation asks its
/// driver to perform.
pub enum EditMrAction {
    /// Run the local branch query tool.
    QueryLocalBranch,
    /// Fetch the open merge request of `project_path` whose source branch
    /// is `branch`.
    FetchMergeRequest { project_path: String, branch: String },
    /// Drive the enclosed edit session to its result.
    RunSession(EditSession),
    /// Send the edited text to the remote as the merge request's new
    /// description.
    UpdateDescription { project_path: String, iid: String, new_description: String },
}

/// What the driver observed after performing the most recent action.
#[derive(Debug, PartialEq, Eq)]
pub enum EditMrEvent {
    /// The branch query tool's outcome.
    BranchQueried(ToolOutcome),
    /// The fetch reply, or the transport failure that prevented it.
    FetchReplied(Result<FetchReply, String>),
    /// The edit session's result.
    SessionDone(Result<String, AppError>),
    /// The update reply, or the transport failure that prevented it.
    UpdateReplied(Result<UpdateReply, String>),
}

/// Where the edit-merge-request operation stands.
#[derive(Debug, Clone, Copy, PartialEq, Eq, Structural)]
pub enum EditMrPhase {
    Starting,
    QueryingBranch,
    Fetching,
    Editing,
    Updating,
    Done,
}

/// What `step` hands back: one more action to perform, or the operation's
/// result.
pub enum EditMrStep {
    Continue(EditMrAction),
    Finished(Result<(), AppError>),
}

/// The edit-merge-request operation: resolves the branch, fetches the
/// matching merge request, runs an edit session over its description and
/// sends the result back — in that order, with any failure aborting the
/// rest.
///
/// The remote's state is only ever touched by the final update action,
/// and that action is handed out exactly once, only after the edit
/// session has succeeded.
pub struct EditMrFlow {
    pub phase: EditMrPhase,
    pub project_path: String,
    /// The branch override, taken verbatim when non-empty.
    pub explicit_branch: Option<String>,
    pub config: EditSessionConfig,
    /// The fetched merge request, once one has been resolved.
    pub mr: Option<FetchedMergeRequest>,
    /// Whether the local branch query tool was ever asked to run.
    pub queried_local: Ghost<bool>,
    /// Whether the remote update was ever asked for.
    pub update_requested: Ghost<bool>,
}

impl EditMrFlow {
    /// True when a non-empty branch override was supplied.
    pub open spec fn has_explicit_branch(self) -> bool {
        self.explicit_branch matches Some(b) && b@.len() > 0
    }

    /// The inputs of the operation never change over its lifetime.
    pub open spec fn same_setup(self, other: Self) -> bool {
        &&& self.project_path == other.project_path
        &&& self.explicit_branch == other.explicit_branch
        &&& self.config == other.config
    }

    /// The operation's invariant: an explicit branch override keeps the
    /// local query tool out of the run, a merge request is at hand exactly
    /// from the editing phase on, and no update is requested before the
    /// updating phase.
    pub open spec fn wf(self) -> bool {
        &&& (self.has_explicit_branch() ==> !self.queried_local@)
        &&& match self.phase {
            EditMrPhase::Starting => self.mr is None && !self.update_requested@
                && !self.queried_local@,
            EditMrPhase::QueryingBranch | EditMrPhase::Fetching => self.mr is None
                && !self.update_requested@,
            EditMrPhase::Editing => self.mr is Some && !self.update_requested@,
            EditMrPhase::Updating => self.mr is Some && self.update_requested@,
            EditMrPhase::Done => true,
        }
    }

    /// Which events the protocol admits next.
    pub open spec fn expects(self, e: EditMrEvent) -> bool {
        match self.phase {
            EditMrPhase::Starting => false,
            EditMrPhase::QueryingBranch => e is BranchQueried,
            EditMrPhase::Fetching => e is FetchReplied,
            EditMrPhase::Editing => e is SessionDone,
            EditMrPhase::Updating => e is UpdateReplied,
            EditMrPhase::Done => false,
        }
    }

    /// Sets the operation up; nothing is asked of the driver yet.
    pub fn new(project_path: String, explicit_branch: Option<String>, config: EditSessionConfig)
        -> (f: Self)
        ensures
            f.wf(),
            f.phase == EditMrPhase::Starting,
            f.project_path@ == project_path@,
            f.explicit_branch == explicit_branch,
            f.config == config,
            !f.queried_local@,
    {
        EditMrFlow {
            phase: EditMrPhase::Starting,
            project_path,
            explicit_branch,
            config,
            mr: None,
            queried_local: Ghost(false),
            update_requested: Ghost(false),
        }
    }

    /// Hands out the operation's first action: fetching directly when a
    /// non-empty branch override was supplied — the local branch query
    /// tool is then never invoked — and the branch query otherwise.
    pub fn begin(&mut self) -> (a: EditMrAction)
        requires
            old(self).wf(),
            old(self).phase == EditMrPhase::Starting,
        ensures
            final(self).wf(),
            final(self).same_setup(*old(self)),
            old(self).has_explicit_branch() ==> (a matches EditMrAction::FetchMergeRequest {
                project_path,
                branch,
            } && project_path@ == old(self).project_path@ && (old(self).explicit_branch matches Some(b) && branch@ == b@) && final(self).phase
                == EditMrPhase::Fetching && !final(self).queried_local@),
            !old(self).has_explicit_branch() ==> (a == EditMrAction::QueryLocalBranch && final(self).phase == EditMrPhase::QueryingBranch && final(self).queried_local@),
    {
        let explicit = match &self.explicit_branch {
            Some(b) => Some(b.clone()),
            None => None,
        };
        match branch_plan(explicit) {
            BranchPlan::UseExplicit(branch) => {
                self.phase = EditMrPhase::Fetching;
                EditMrAction::FetchMergeRequest {
                    project_path: self.project_path.clone(),
                    branch,
                }
            },
            BranchPlan::QueryLocal => {
                self.phase = EditMrPhase::QueryingBranch;
                self.queried_local = Ghost(true);
                EditMrAction::QueryLocalBranch
            },
        }
    }

    /// Consumes the driver's observation of the last action and hands out
    /// the next action, or the operation's result.
    ///
    /// The contract carries the operation's guarantees: a failed branch
    /// query, fetch or edit session finishes the operation with that
    /// error and the update is never requested — in particular, an edit
    /// session that failed (an editor exiting non-zero included) reaches
    /// no remote update; and the update carries exactly the text the
    /// session returned.
    pub fn step(&mut self, event: EditMrEvent) -> (r: EditMrStep)
        requires
            old(self).wf(),
            old(self).expects(event),
        ensures
            final(self).wf(),
            final(self).same_setup(*old(self)),
            r is Continue <==> final(self).phase != EditMrPhase::Done,
            r is Finished <==> final(self).phase == EditMrPhase::Done,
            final(self).queried_local@ == old(self).queried_local@,
            event matches EditMrEvent::BranchQueried(o) ==> (if branch_query_ok(o) {
                (r matches EditMrStep::Continue(a) && a matches EditMrAction::FetchMergeRequest {
                    project_path,
                    branch,
                } && project_path@ == old(self).project_path@ && branch@ == queried_branch(o)
                    && final(self).phase == EditMrPhase::Fetching)
            } else {
                (r matches EditMrStep::Finished(res) && res matches Err(e) && branch_query_error(
                    o,
                    e,
                ) && !final(self).update_requested@)
            }),
            event matches EditMrEvent::FetchReplied(fr) ==> match fr {
                Err(d) => (r matches EditMrStep::Finished(res) && res matches Err(e) && e matches
                    AppError::Transport { details } && details@ == d@ && !final(self).update_requested@),
                Ok(reply) => ((r matches EditMrStep::Finished(res) ==> (res matches Err(e)
                    && fetch_classification(old(self).project_path@, reply, Err(e)) && !final(self).update_requested@)) && (r matches EditMrStep::Continue(a) ==> (a matches
                    EditMrAction::RunSession(sess) && final(self).mr matches Some(m)
                    && fetch_classification(old(self).project_path@, reply, Ok(m)) && sess.wf()
                    && sess.phase == SessionPhase::Starting && sess.iid@ == m.iid@
                    && sess.original_description@ == m.description@ && sess.use_alternate_markup
                    == old(self).config.use_alternate_markup && sess.editor_command@ == old(self).config.editor_command@ && final(self).phase == EditMrPhase::Editing))),
            },
            event matches EditMrEvent::SessionDone(sr) ==> match sr {
                Err(e) => (r matches EditMrStep::Finished(res) && res matches Err(e2) && e2 == e
                    && !final(self).update_requested@),
                Ok(text) => (r matches EditMrStep::Continue(a) && a matches
                    EditMrAction::UpdateDescription { project_path, iid, new_description }
                    && project_path@ == old(self).project_path@ && (old(self).mr matches Some(m) && iid@ == m.iid@) && new_description@ == text@ && final(self).phase == EditMrPhase::Updating && final(self).update_requested@),
            },
            event matches EditMrEvent::UpdateReplied(ur) ==> match ur {
                Err(d) => (r matches EditMrStep::Finished(res) && res matches Err(e) && e matches
                    AppError::Transport { details } && details@ == d@),
                Ok(reply) => (r matches EditMrStep::Finished(res) && update_classification(
                    reply,
                    res,
                )),
            },
    {
        match event {
            EditMrEvent::BranchQueried(outcome) => {
                match branch_from_query(outcome) {
                    Ok(branch) => {
                        self.phase = EditMrPhase::Fetching;
                        EditMrStep::Continue(EditMrAction::FetchMergeRequest {
                            project_path: self.project_path.clone(),
                            branch,
                        })
                    },
                    Err(e) => {
                        self.phase = EditMrPhase::Done;
                        EditMrStep::Finished(Err(e))
                    },
                }
            },
            EditMrEvent::FetchReplied(fr) => {
                match fr {
                    Err(details) => {
                        self.phase = EditMrPhase::Done;
                        EditMrStep::Finished(Err(AppError::Transport { details }))
                    },
                    Ok(reply) => {
                        match classify_fetch_reply(&self.project_path, reply) {
                            Err(e) => {
                                self.phase = EditMrPhase::Done;
                                EditMrStep::Finished(Err(e))
                            },
                            Ok(mr) => {
                                let cfg = EditSessionConfig {
                                    use_alternate_markup: self.config.use_alternate_markup,
                                    editor_command: self.config.editor_command.clone(),
                                };
                                let session = EditSession::new(
                                    mr.iid.as_str(),
                                    mr.description.clone(),
                                    cfg,
                                );
                                self.mr = Some(mr);
                                self.phase = EditMrPhase::Editing;
                                EditMrStep::Continue(EditMrAction::RunSession(session))
                            },
                        }
                    },
                }
            },
            EditMrEvent::SessionDone(sr) => {
                match sr {
                    Err(e) => {
                        self.phase = EditMrPhase::Done;
                        EditMrStep::Finished(Err(e))
                    },
                    Ok(text) => {
                        let iid = match &self.mr {
                            Some(m) => m.iid.clone(),
                            None => unreached(),
                        };
                        self.phase = EditMrPhase::Updating;
                        self.update_requested = Ghost(true);
                        EditMrStep::Continue(EditMrAction::UpdateDescription {
                            project_path: self.project_path.clone(),
                            iid,
                            new_description: text,
                        })
                    },
                }
            },
            EditMrEvent::UpdateReplied(ur) => {
                match ur {
                    Err(details) => {
                        self.phase = EditMrPhase::Done;
                        EditMrStep::Finished(Err(AppError::Transport { details }))
                    },
                    Ok(reply) => {
                        let res = classify_update_reply(reply);
                        self.phase = EditMrPhase::Done;
                        EditMrStep::Finished(res)
                    },
                }
            },
        }
    }
}

/// Law: with a non-empty explicit branch override, no reachable state of
/// the operation has ever asked for the local branch query tool.
pub proof fn lemma_explicit_branch_never_queries(f: EditMrFlow)
    requires
        f.wf(),
        f.has_explicit_branch(),
    ensures
        !f.queried_local@,
{
}

} // verus!
