use vstd::prelude::*;
use vstd::pervasive::unreached;

use crate::draft::{first_sep, parse_draft};
use crate::errors::AppError;
use crate::gateway::{
    classify_create_issue_reply, issue_classification, CreateIssueReply, GitlabCreatedIssue,
};
use crate::markup::MarkupDialect;

verus! {

/// One piece of outside work the create-issue operation asks its driver
/// to perform. File names are relative to the operation's scratch
/// directory.
#[derive(Debug, PartialEq, Eq)]
pub enum CreateIssueAction {
    /// Create the scratch directory.
    CreateScratchDir,
    /// Launch the editor on the named file and block until it exits. The
    /// editor is trusted to create the file; it does not exist beforehand.
    LaunchEditor { command: String, file_name: String },
    /// Run the markup converter from `from` to `to`, reading the first
    /// named file and writing the second.
    Convert { from: MarkupDialect, to: MarkupDialect, input_name: String, output_name: String },
    /// Read the named scratch file in full.
    ReadFile { name: String },
    /// Remove the scratch directory and everything in it.
    RemoveScratchDir,
    /// Create the issue remotely with this title and description.
    SubmitIssue { project_path: String, title: String, description: Option<String> },
}

/// What the driver observed after performing the most recent action.
#[derive(Debug, PartialEq, Eq)]
pub enum CreateIssueEvent {
    DirCreated,
    DirFailed { details: String },
    EditorExited { status: i32 },
    EditorStartFailed { details: String },
    ConversionDone,
    ConversionFailed { tool_exit_code: i32, stderr_excerpt: String },
    FileContents { text: String },
    ReadFailed { details: String },
    DirRemoved,
    RemoveFailed { details: String },
    /// The create-issue reply, or the transport failure that prevented it.
    IssueReplied(Result<CreateIssueReply, String>),
}

/// Where the create-issue operation stands.
#[derive(Debug, Clone, Copy, PartialEq, Eq, Structural)]
pub enum CreateIssuePhase {
    Starting,
    CreatingDir,
    AwaitingEditor,
    ConvertingBack,
    ReadingBack,
    CleaningUp,
    Submitting,
    Done,
}

/// What `step` hands back: one more action to perform, or the operation's
/// result.
#[derive(Debug, PartialEq, Eq)]
pub enum CreateIssueStep {
    Continue(CreateIssueAction),
    Finished(Result<GitlabCreatedIssue, AppError>),
}

/// The create-issue operation: opens the editor on a fresh scratch file,
/// optionally converts the input from OrgMode to Markdown, splits it into
/// title and description on the first blank line and creates the issue
/// remotely — with the scratch directory removed before the remote is
/// touched, on every exit path.
pub struct CreateIssueFlow {
    pub phase: CreateIssuePhase,
    pub project_path: String,
    /// When set, the editor input is expected in OrgMode and converted to
    /// Markdown before upload.
    pub use_alternate_markup: bool,
    pub editor_command: String,
    /// The editor input decided before cleanup, carried through it.
    pub pending: Option<Result<String, AppError>>,
    /// Whether the driver ever reported the scratch directory as created.
    pub dir_created: Ghost<bool>,
    /// Whether the scratch directory exists, going by the driver's events.
    pub dir_live: Ghost<bool>,
    /// Whether the operation has asked for the scratch directory's
    /// removal.
    pub remove_requested: Ghost<bool>,
}

impl CreateIssueFlow {
    /// The name of the scratch file the editor works on.
    pub open spec fn spec_edited_name(self) -> Seq<char> {
        if self.use_alternate_markup {
            "new_issue.org"@
        } else {
            "new_issue.md"@
        }
    }

    /// The inputs of the operation never change over its lifetime.
    pub open spec fn same_setup(self, other: Self) -> bool {
        &&& self.project_path == other.project_path
        &&& self.use_alternate_markup == other.use_alternate_markup
        &&& self.editor_command == other.editor_command
    }

    /// The operation's invariant: the scratch bookkeeping agrees with the
    /// phase, an input is pending exactly while cleanup runs, and the
    /// remote is only reached after the scratch directory is gone.
    pub open spec fn wf(self) -> bool {
        &&& (self.pending is Some <==> self.phase == CreateIssuePhase::CleaningUp)
        &&& match self.phase {
            CreateIssuePhase::Starting | CreateIssuePhase::CreatingDir => !self.dir_created@
                && !self.dir_live@ && !self.remove_requested@,
            CreateIssuePhase::AwaitingEditor | CreateIssuePhase::ReadingBack => self.dir_created@
                && self.dir_live@ && !self.remove_requested@,
            CreateIssuePhase::ConvertingBack => self.use_alternate_markup && self.dir_created@
                && self.dir_live@ && !self.remove_requested@,
            CreateIssuePhase::CleaningUp => self.dir_created@ && self.dir_live@
                && self.remove_requested@,
            CreateIssuePhase::Submitting => self.dir_created@ && !self.dir_live@
                && self.remove_requested@,
            CreateIssuePhase::Done => true,
        }
    }

    /// Which events the protocol admits next.
    pub open spec fn expects(self, e: CreateIssueEvent) -> bool {
        match self.phase {
            CreateIssuePhase::Starting => false,
            CreateIssuePhase::CreatingDir => e is DirCreated || e is DirFailed,
            CreateIssuePhase::AwaitingEditor => e is EditorExited || e is EditorStartFailed,
            CreateIssuePhase::ConvertingBack => e is ConversionDone || e is ConversionFailed,
            CreateIssuePhase::ReadingBack => e is FileContents || e is ReadFailed,
            CreateIssuePhase::CleaningUp => e is DirRemoved || e is RemoveFailed,
            CreateIssuePhase::Submitting => e is IssueReplied,
            CreateIssuePhase::Done => false,
        }
    }

    /// Sets the operation up; nothing is asked of the driver yet.
    pub fn new(project_path: String, use_alternate_markup: bool, editor_command: String) -> (f:
        Self)
        ensures
            f.wf(),
            f.phase == CreateIssuePhase::Starting,
            f.project_path@ == project_path@,
            f.use_alternate_markup == use_alternate_markup,
            f.editor_command@ == editor_command@,
    {
        CreateIssueFlow {
            phase: CreateIssuePhase::Starting,
            project_path,
            use_alternate_markup,
            editor_command,
            pending: None,
            dir_created: Ghost(false),
            dir_live: Ghost(false),
            remove_requested: Ghost(false),
        }
    }

    /// Hands out the operation's first action: acquiring the scratch
    /// directory.
    pub fn begin(&mut self) -> (a: CreateIssueAction)
        requires
            old(self).wf(),
            old(self).phase == CreateIssuePhase::Starting,
        ensures
            final(self).wf(),
            final(self).same_setup(*old(self)),
            final(self).phase == CreateIssuePhase::CreatingDir,
            a == CreateIssueAction::CreateScratchDir,
    {
        self.phase = CreateIssuePhase::CreatingDir;
        CreateIssueAction::CreateScratchDir
    }

    /// Consumes the driver's observation of the last action and hands out
    /// the next action, or the operation's result.
    ///
    /// The contract carries the operation's guarantees:
    /// - whenever the operation finishes, removal of the scratch
    ///   directory was requested if its creation ever succeeded, and the
    ///   remote submission is only ever asked for once the directory is
    ///   gone;
    /// - the submitted title and description are exactly the split of the
    ///   editor input on its first blank line, as [`parse_draft`] makes
    ///   it;
    /// - any editor, conversion or read failure finishes the operation
    ///   with that error and nothing is submitted.
    pub fn step(&mut self, event: CreateIssueEvent) -> (r: CreateIssueStep)
        requires
            old(self).wf(),
            old(self).expects(event),
        ensures
            final(self).wf(),
            final(self).same_setup(*old(self)),
            r is Continue <==> final(self).phase != CreateIssuePhase::Done,
            r is Finished <==> final(self).phase == CreateIssuePhase::Done,
            r is Finished ==> (final(self).dir_created@ ==> final(self).remove_requested@),
            r is Finished ==> (final(self).dir_live@ ==> event matches
                CreateIssueEvent::RemoveFailed { .. }),
            event is DirCreated ==> (r matches CreateIssueStep::Continue(a) && a matches
                CreateIssueAction::LaunchEditor { command, file_name } && command@ == old(self).editor_command@ && file_name@ == old(self).spec_edited_name() && final(self).phase
                == CreateIssuePhase::AwaitingEditor && final(self).dir_created@ && final(self).dir_live@),
            event matches CreateIssueEvent::DirFailed { details } ==> (r matches
                CreateIssueStep::Finished(res) && res matches Err(e) && e matches
                AppError::Scratch { details: d } && d@ == details@ && !final(self).dir_created@),
            event matches CreateIssueEvent::EditorExited { status } ==> (if status == 0 {
                if old(self).use_alternate_markup {
                    (r matches CreateIssueStep::Continue(a) && a matches
                        CreateIssueAction::Convert { from, to, input_name, output_name } && from
                        == MarkupDialect::OrgMode && to == MarkupDialect::Markdown && input_name@
                        == "new_issue.org"@ && output_name@ == "new_issue.md"@ && final(self).phase == CreateIssuePhase::ConvertingBack)
                } else {
                    (r matches CreateIssueStep::Continue(a) && a matches
                        CreateIssueAction::ReadFile { name } && name@ == "new_issue.md"@ && final(self).phase == CreateIssuePhase::ReadingBack)
                }
            } else {
                (r matches CreateIssueStep::Continue(a) && a
                    == CreateIssueAction::RemoveScratchDir && final(self).phase
                    == CreateIssuePhase::CleaningUp && (final(self).pending matches Some(p)
                    && p matches Err(e) && e == AppError::EditorFailed { status }))
            }),
            event matches CreateIssueEvent::EditorStartFailed { details } ==> (r matches
                CreateIssueStep::Continue(a) && a == CreateIssueAction::RemoveScratchDir && final(self).phase == CreateIssuePhase::CleaningUp && (final(self).pending matches Some(p)
                && p matches Err(e) && e matches AppError::ExternalTool { command, details: d }
                && command@ == old(self).editor_command@ && d@ == details@)),
            event is ConversionDone ==> (r matches CreateIssueStep::Continue(a) && a matches
                CreateIssueAction::ReadFile { name } && name@ == "new_issue.md"@ && final(self).phase == CreateIssuePhase::ReadingBack),
            event matches CreateIssueEvent::ConversionFailed { tool_exit_code, stderr_excerpt }
                ==> (r matches CreateIssueStep::Continue(a) && a
                == CreateIssueAction::RemoveScratchDir && final(self).phase
                == CreateIssuePhase::CleaningUp && (final(self).pending matches Some(p)
                && p matches Err(e) && e matches AppError::ConversionFailed {
                tool_exit_code: c,
                stderr_excerpt: s,
            } && c == tool_exit_code && s@ == stderr_excerpt@)),
            event matches CreateIssueEvent::FileContents { text } ==> (r matches
                CreateIssueStep::Continue(a) && a == CreateIssueAction::RemoveScratchDir && final(self).phase == CreateIssuePhase::CleaningUp && (final(self).pending matches Some(p)
                && p matches Ok(t) && t@ == text@)),
            event matches CreateIssueEvent::ReadFailed { details } ==> (r matches
                CreateIssueStep::Continue(a) && a == CreateIssueAction::RemoveScratchDir && final(self).phase == CreateIssuePhase::CleaningUp && (final(self).pending matches Some(p)
                && p matches Err(e) && e matches AppError::Scratch { details: d } && d@
                == details@)),
            event is DirRemoved ==> (old(self).pending matches Some(p) && !final(self).dir_live@
                && (match p {
                Ok(text) => (r matches CreateIssueStep::Continue(a) && a matches
                    CreateIssueAction::SubmitIssue { project_path, title, description }
                    && project_path@ == old(self).project_path@ && final(self).phase
                    == CreateIssuePhase::Submitting && (first_sep(text@) == -1 ==> title@ == text@
                    && description is None) && (first_sep(text@) >= 0 ==> (
                description matches Some(d) && title@ == text@.subrange(0, first_sep(text@)) && d@
                    == text@.subrange(first_sep(text@) + 2, text@.len() as int)))),
                Err(e) => (r matches CreateIssueStep::Finished(res) && res matches Err(e2) && e2
                    == e),
            })),
            event matches CreateIssueEvent::RemoveFailed { details } ==> (r matches
                CreateIssueStep::Finished(res) && old(self).pending matches Some(p) && (match p {
                Ok(_) => (res matches Err(e) && e matches AppError::Cleanup { details: d } && d@
                    == details@),
                Err(pe) => (res matches Err(e) && e == pe),
            })),
            event matches CreateIssueEvent::IssueReplied(ir) ==> match ir {
                Err(d) => (r matches CreateIssueStep::Finished(res) && res matches Err(e)
                    && e matches AppError::Transport { details } && details@ == d@),
                Ok(reply) => (r matches CreateIssueStep::Finished(res) && issue_classification(
                    reply,
                    res,
                )),
            },
    {
        match event {
            CreateIssueEvent::DirCreated => {
                self.phase = CreateIssuePhase::AwaitingEditor;
                self.dir_created = Ghost(true);
                self.dir_live = Ghost(true);
                let file_name = if self.use_alternate_markup {
                    String::from_str("new_issue.org")
                } else {
                    String::from_str("new_issue.md")
                };
                CreateIssueStep::Continue(CreateIssueAction::LaunchEditor {
                    command: self.editor_command.clone(),
                    file_name,
                })
            },
            CreateIssueEvent::DirFailed { details } => {
                self.phase = CreateIssuePhase::Done;
                CreateIssueStep::Finished(Err(AppError::Scratch { details }))
            },
            CreateIssueEvent::EditorExited { status } => {
                if status == 0 {
                    if self.use_alternate_markup {
                        self.phase = CreateIssuePhase::ConvertingBack;
                        CreateIssueStep::Continue(CreateIssueAction::Convert {
                            from: MarkupDialect::OrgMode,
                            to: MarkupDialect::Markdown,
                            input_name: String::from_str("new_issue.org"),
                            output_name: String::from_str("new_issue.md"),
                        })
                    } else {
                        self.phase = CreateIssuePhase::ReadingBack;
                        CreateIssueStep::Continue(CreateIssueAction::ReadFile {
                            name: String::from_str("new_issue.md"),
                        })
                    }
                } else {
                    self.phase = CreateIssuePhase::CleaningUp;
                    self.pending = Some(Err(AppError::EditorFailed { status }));
                    self.remove_requested = Ghost(true);
                    CreateIssueStep::Continue(CreateIssueAction::RemoveScratchDir)
                }
            },
            CreateIssueEvent::EditorStartFailed { details } => {
                self.phase = CreateIssuePhase::CleaningUp;
                self.pending = Some(
                    Err(
                        AppError::ExternalTool {
                            command: self.editor_command.clone(),
                            details,
                        },
                    ),
                );
                self.remove_requested = Ghost(true);
                CreateIssueStep::Continue(CreateIssueAction::RemoveScratchDir)
            },
            CreateIssueEvent::ConversionDone => {
                self.phase = CreateIssuePhase::ReadingBack;
                CreateIssueStep::Continue(CreateIssueAction::ReadFile {
                    name: String::from_str("new_issue.md"),
                })
            },
            CreateIssueEvent::ConversionFailed { tool_exit_code, stderr_excerpt } => {
                self.phase = CreateIssuePhase::CleaningUp;
                self.pending = Some(
                    Err(AppError::ConversionFailed { tool_exit_code, stderr_excerpt }),
                );
                self.remove_requested = Ghost(true);
                CreateIssueStep::Continue(CreateIssueAction::RemoveScratchDir)
            },
            CreateIssueEvent::FileContents { text } => {
                self.phase = CreateIssuePhase::CleaningUp;
                self.pending = Some(Ok(text));
                self.remove_requested = Ghost(true);
                CreateIssueStep::Continue(CreateIssueAction::RemoveScratchDir)
            },
            CreateIssueEvent::ReadFailed { details } => {
                self.phase = CreateIssuePhase::CleaningUp;
                self.pending = Some(Err(AppError::Scratch { details }));
                self.remove_requested = Ghost(true);
                CreateIssueStep::Continue(CreateIssueAction::RemoveScratchDir)
            },
            CreateIssueEvent::DirRemoved => {
                self.dir_live = Ghost(false);
                match self.pending.take() {
                    Some(Ok(text)) => {
                        self.phase = CreateIssuePhase::Submitting;
                        let draft = parse_draft(text.as_str());
                        CreateIssueStep::Continue(CreateIssueAction::SubmitIssue {
                            project_path: self.project_path.clone(),
                            title: draft.title,
                            description: draft.description,
                        })
                    },
                    Some(Err(e)) => {
                        self.phase = CreateIssuePhase::Done;
                        CreateIssueStep::Finished(Err(e))
                    },
                    None => unreached(),
                }
            },
            CreateIssueEvent::RemoveFailed { details } => {
                self.phase = CreateIssuePhase::Done;
                match self.pending.take() {
                    Some(Ok(_)) => CreateIssueStep::Finished(
                        Err(AppError::Cleanup { details }),
                    ),
                    Some(Err(e)) => CreateIssueStep::Finished(Err(e)),
                    None => unreached(),
                }
            },
            CreateIssueEvent::IssueReplied(ir) => {
                self.phase = CreateIssuePhase::Done;
                match ir {
                    Err(details) => CreateIssueStep::Finished(
                        Err(AppError::Transport { details }),
                    ),
                    Ok(reply) => CreateIssueStep::Finished(classify_create_issue_reply(reply)),
                }
            },
        }
    }
}

} // verus!
