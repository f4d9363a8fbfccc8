use vstd::prelude::*;
use vstd::pervasive::unreached;

use crate::errors::AppError;
use crate::markup::MarkupDialect;

verus! {

/// Configuration of one edit session, resolved once per invocation.
#[derive(Debug, Clone, PartialEq, Eq)]
pub struct EditSessionConfig {
    /// When set, the staged Markdown text is converted to OrgMode for
    /// editing and converted back afterwards.
    pub use_alternate_markup: bool,
    /// The command the editor is launched with.
    pub editor_command: String,
}

/// One piece of outside work the session asks its driver to perform. File
/// names are relative to the session's scratch directory.
#[derive(Debug, Clone, PartialEq, Eq)]
pub enum SessionAction {
    /// Create the scratch directory.
    CreateScratchDir,
    /// Write `contents` to the named scratch file, creating or truncating
    /// it.
    WriteFile { name: String, contents: String },
    /// Run the markup converter from `from` to `to`, reading the first
    /// named file and writing the second.
    Convert { from: MarkupDialect, to: MarkupDialect, input_name: String, output_name: String },
    /// Launch the editor on the named file and block until it exits.
    LaunchEditor { command: String, file_name: String },
    /// Read the named scratch file in full.
    ReadFile { name: String },
    /// Remove the scratch directory and everything in it.
    RemoveScratchDir,
}

/// What the driver observed after performing the most recent action.
#[derive(Debug, Clone, PartialEq, Eq)]
pub enum SessionEvent {
    /// The scratch directory exists now.
    DirCreated,
    /// The scratch directory could not be created.
    DirFailed { details: String },
    /// The staged file was written in full.
    FileWritten,
    /// The staged file could not be written.
    WriteFailed { details: String },
    /// The converter exited with status zero.
    ConversionDone,
    /// The converter exited non-zero with this status, or could not be
    /// started (a negative placeholder status chosen by the driver).
    ConversionFailed { tool_exit_code: i32, stderr_excerpt: String },
    /// The editor exited with this status.
    EditorExited { status: i32 },
    /// The editor could not be started.
    EditorStartFailed { details: String },
    /// The named file was read back in full.
    FileContents { text: String },
    /// The named file could not be read.
    ReadFailed { details: String },
    /// The scratch directory and its contents are gone.
    DirRemoved,
    /// The scratch directory could not be removed.
    RemoveFailed { details: String },
}

/// Where an edit session stands in its linear pipeline.
#[derive(Debug, Clone, Copy, PartialEq, Eq, Structural)]
pub enum SessionPhase {
    /// Nothing has been asked of the driver yet.
    Starting,
    /// Waiting for the scratch directory.
    CreatingDir,
    /// Waiting for the original description to reach its scratch file.
    WritingOriginal,
    /// Waiting for the staged Markdown to become OrgMode.
    ConvertingIn,
    /// Waiting for the editor to exit.
    AwaitingEditor,
    /// Waiting for the edited OrgMode to become Markdown again.
    ConvertingOut,
    /// Waiting for the edited text to be read back.
    ReadingBack,
    /// Waiting for the scratch directory to be removed; the session's
    /// result is already decided.
    CleaningUp,
    /// The session has returned its result.
    Done,
}

/// What `step` hands back: one more action to perform, or the session's
/// result.
#[derive(Debug, PartialEq, Eq)]
pub enum SessionStep {
    Continue(SessionAction),
    Finished(Result<String, AppError>),
}

/// The edit-session orchestrator: stages a merge request's description
/// into a scratch file, optionally converts it to the alternate markup,
/// hands it to the editor, converts it back, reads the result and cleans
/// the scratch directory up on every exit path.
///
/// The session never performs outside work itself: it hands out one
/// [`SessionAction`] at a time and consumes the [`SessionEvent`] the
/// driver observed, until it finishes with the edited text or a classified
/// error. No remote state is touched by a session; its caller decides what
/// to do with the result.
pub struct EditSession {
    pub phase: SessionPhase,
    pub use_alternate_markup: bool,
    pub editor_command: String,
    pub original_description: String,
    /// Name of the Markdown scratch file, `<iid>.md`.
    pub primary_name: String,
    /// Name of the OrgMode scratch file, `<iid>.org`.
    pub secondary_name: String,
    /// The result decided before cleanup, returned once cleanup is done.
    pub pending: Option<Result<String, AppError>>,
    /// The identifier the scratch files are named after.
    pub iid: Ghost<Seq<char>>,
    /// Whether the driver ever reported the scratch directory as created.
    pub dir_created: Ghost<bool>,
    /// Whether the scratch directory exists, going by the driver's events.
    pub dir_live: Ghost<bool>,
    /// Whether the session has asked for the scratch directory's removal.
    pub remove_requested: Ghost<bool>,
    /// The editor's exit status, once it has been reported.
    pub editor_status: Ghost<Option<i32>>,
    /// Every conversion asked of the driver, in order, as (from, to).
    pub converts: Ghost<Seq<(MarkupDialect, MarkupDialect)>>,
}

impl EditSession {
    /// The conversions a session has asked for once the staged text is
    /// ready for the editor.
    pub open spec fn in_converts(self) -> Seq<(MarkupDialect, MarkupDialect)> {
        if self.use_alternate_markup {
            seq![(MarkupDialect::Markdown, MarkupDialect::OrgMode)]
        } else {
            Seq::empty()
        }
    }

    /// The conversions a completed session has asked for: one in each
    /// direction with the alternate markup, none without.
    pub open spec fn out_converts(self) -> Seq<(MarkupDialect, MarkupDialect)> {
        if self.use_alternate_markup {
            seq![
                (MarkupDialect::Markdown, MarkupDialect::OrgMode),
                (MarkupDialect::OrgMode, MarkupDialect::Markdown),
            ]
        } else {
            Seq::empty()
        }
    }

    /// The configuration and scratch-file names never change over a
    /// session's lifetime.
    pub open spec fn same_setup(self, other: Self) -> bool {
        &&& self.use_alternate_markup == other.use_alternate_markup
        &&& self.editor_command == other.editor_command
        &&& self.original_description == other.original_description
        &&& self.primary_name == other.primary_name
        &&& self.secondary_name == other.secondary_name
        &&& self.iid == other.iid
    }

    /// What must hold of the already-decided result while cleanup runs.
    pub open spec fn cleanup_ok(self, p: Result<String, AppError>) -> bool {
        &&& p is Ok ==> self.editor_status@ == Some(0i32) && self.converts@ == self.out_converts()
        &&& (self.editor_status@ matches Some(st) ==> (st != 0 ==> (p matches Err(e)
            && e matches AppError::EditorFailed { status } && status == st)))
    }

    /// The session's invariant: scratch files are named after the
    /// identifier, the bookkeeping of directory, editor and conversions
    /// agrees with the phase, and the decided result agrees with the
    /// history.
    pub open spec fn wf(self) -> bool {
        &&& self.primary_name@ == self.iid@ + ".md"@
        &&& self.secondary_name@ == self.iid@ + ".org"@
        &&& (self.pending is Some <==> self.phase == SessionPhase::CleaningUp)
        &&& (!self.use_alternate_markup ==> self.converts@ == Seq::<(
            MarkupDialect,
            MarkupDialect,
        )>::empty())
        &&& match self.phase {
            SessionPhase::Starting | SessionPhase::CreatingDir => !self.dir_created@
                && !self.dir_live@ && !self.remove_requested@ && self.editor_status@ is None
                && self.converts@ == Seq::<(MarkupDialect, MarkupDialect)>::empty(),
            SessionPhase::WritingOriginal => self.dir_created@ && self.dir_live@
                && !self.remove_requested@ && self.editor_status@ is None && self.converts@
                == Seq::<(MarkupDialect, MarkupDialect)>::empty(),
            SessionPhase::ConvertingIn => self.use_alternate_markup && self.dir_created@
                && self.dir_live@ && !self.remove_requested@ && self.editor_status@ is None
                && self.converts@ == self.in_converts(),
            SessionPhase::AwaitingEditor => self.dir_created@ && self.dir_live@
                && !self.remove_requested@ && self.editor_status@ is None && self.converts@
                == self.in_converts(),
            SessionPhase::ConvertingOut => self.use_alternate_markup && self.dir_created@
                && self.dir_live@ && !self.remove_requested@ && self.editor_status@ == Some(0i32)
                && self.converts@ == self.out_converts(),
            SessionPhase::ReadingBack => self.dir_created@ && self.dir_live@
                && !self.remove_requested@ && self.editor_status@ == Some(0i32) && self.converts@
                == self.out_converts(),
            SessionPhase::CleaningUp => self.dir_created@ && self.dir_live@
                && self.remove_requested@ && (self.pending matches Some(p) && self.cleanup_ok(p)),
            SessionPhase::Done => true,
        }
    }

    /// Which events the protocol admits next: exactly the outcomes of the
    /// action the session handed out last.
    pub open spec fn expects(self, e: SessionEvent) -> bool {
        match self.phase {
            SessionPhase::Starting => false,
            SessionPhase::CreatingDir => e is DirCreated || e is DirFailed,
            SessionPhase::WritingOriginal => e is FileWritten || e is WriteFailed,
            SessionPhase::ConvertingIn | SessionPhase::ConvertingOut => e is ConversionDone
                || e is ConversionFailed,
            SessionPhase::AwaitingEditor => e is EditorExited || e is EditorStartFailed,
            SessionPhase::ReadingBack => e is FileContents || e is ReadFailed,
            SessionPhase::CleaningUp => e is DirRemoved || e is RemoveFailed,
            SessionPhase::Done => false,
        }
    }

    /// Builds a session over the original description of the merge request
    /// named by `iid`. The primary scratch file carries the Markdown
    /// extension, the secondary one the OrgMode extension.
    pub fn new(iid: &str, original_description: String, config: EditSessionConfig) -> (s: Self)
        ensures
            s.wf(),
            s.phase == SessionPhase::Starting,
            s.use_alternate_markup == config.use_alternate_markup,
            s.editor_command@ == config.editor_command@,
            s.original_description@ == original_description@,
            s.iid@ == iid@,
    {
        let primary = String::from_str(iid).concat(".md");
        let secondary = String::from_str(iid).concat(".org");
        EditSession {
            phase: SessionPhase::Starting,
            use_alternate_markup: config.use_alternate_markup,
            editor_command: config.editor_command,
            original_description,
            primary_name: primary,
            secondary_name: secondary,
            pending: None,
            iid: Ghost(iid@),
            dir_created: Ghost(false),
            dir_live: Ghost(false),
            remove_requested: Ghost(false),
            editor_status: Ghost(None),
            converts: Ghost(Seq::empty()),
        }
    }

    /// Hands out the session's first action: acquiring the scratch
    /// directory.
    pub fn begin(&mut self) -> (a: SessionAction)
        requires
            old(self).wf(),
            old(self).phase == SessionPhase::Starting,
        ensures
            final(self).wf(),
            final(self).same_setup(*old(self)),
            final(self).phase == SessionPhase::CreatingDir,
            a == SessionAction::CreateScratchDir,
    {
        self.phase = SessionPhase::CreatingDir;
        SessionAction::CreateScratchDir
    }

    /// Consumes the driver's observation of the last action and hands out
    /// the next action, or the session's result.
    ///
    /// Besides the step-by-step data flow, the contract carries the
    /// session's guarantees:
    /// - whenever the session finishes, removal of the scratch directory
    ///   was requested if its creation ever succeeded, and a successful
    ///   session has seen it removed — no scratch files outlive the
    ///   session on any exit path;
    /// - an editor that exited non-zero makes the whole session fail with
    ///   that status, so no caller can take its text for a result;
    /// - a successful session asked for exactly the conversions of
    ///   [`out_converts`](Self::out_converts): Markdown to OrgMode and
    ///   back with the alternate markup, none otherwise, and a conversion
    ///   is asked of the driver exactly when the conversion record grows.
    pub fn step(&mut self, event: SessionEvent) -> (r: SessionStep)
        requires
            old(self).wf(),
            old(self).expects(event),
        ensures
            final(self).wf(),
            final(self).same_setup(*old(self)),
            r is Continue <==> final(self).phase != SessionPhase::Done,
            r is Finished <==> final(self).phase == SessionPhase::Done,
            // cleanup happens on every exit path
            r is Finished ==> (final(self).dir_created@ ==> final(self).remove_requested@),
            r matches SessionStep::Finished(res) && res is Ok ==> !final(self).dir_live@,
            r is Finished ==> (final(self).dir_live@ ==> event matches
                SessionEvent::RemoveFailed { .. }),
            // an editor failure decides the whole session
            r matches SessionStep::Finished(res) ==> (final(self).editor_status@ matches Some(
                st,
            ) ==> (st != 0 ==> (res matches Err(e) && e matches AppError::EditorFailed { status }
                && status == st))),
            // a successful session converted exactly as configured
            r matches SessionStep::Finished(res) && res is Ok ==> final(self).converts@ == final(self).out_converts(),
            // the conversion record grows exactly with Convert actions
            match r {
                SessionStep::Continue(a) => match a {
                    SessionAction::Convert { from, to, .. } => final(self).converts@ == old(self).converts@.push((from, to)),
                    _ => final(self).converts@ == old(self).converts@,
                },
                SessionStep::Finished(_) => final(self).converts@ == old(self).converts@,
            },
            // the transitions themselves
            event is DirCreated ==> (r matches SessionStep::Continue(a) && a matches
                SessionAction::WriteFile { name, contents } && name@ == old(self).primary_name@
                && contents@ == old(self).original_description@ && final(self).phase
                == SessionPhase::WritingOriginal && final(self).dir_created@ && final(self).dir_live@),
            event matches SessionEvent::DirFailed { details } ==> (r matches
                SessionStep::Finished(res) && res matches Err(e) && e matches AppError::Scratch {
                details: d } && d@ == details@ && !final(self).dir_created@),
            event is FileWritten ==> (if old(self).use_alternate_markup {
                (r matches SessionStep::Continue(a) && a matches SessionAction::Convert {
                    from,
                    to,
                    input_name,
                    output_name,
                } && from == MarkupDialect::Markdown && to == MarkupDialect::OrgMode && input_name@
                    == old(self).primary_name@ && output_name@ == old(self).secondary_name@
                    && final(self).phase == SessionPhase::ConvertingIn)
            } else {
                (r matches SessionStep::Continue(a) && a matches SessionAction::LaunchEditor {
                    command,
                    file_name,
                } && command@ == old(self).editor_command@ && file_name@ == old(self).primary_name@ && final(self).phase == SessionPhase::AwaitingEditor)
            }),
            event matches SessionEvent::WriteFailed { details } ==> (r matches
                SessionStep::Continue(a) && a == SessionAction::RemoveScratchDir && final(self).phase == SessionPhase::CleaningUp && (final(self).pending matches Some(p)
                && p matches Err(e) && e matches AppError::Scratch { details: d } && d@
                == details@)),
            old(self).phase == SessionPhase::ConvertingIn && event is ConversionDone ==> (
            r matches SessionStep::Continue(a) && a matches SessionAction::LaunchEditor {
                command,
                file_name,
            } && command@ == old(self).editor_command@ && file_name@ == old(self).secondary_name@
                && final(self).phase == SessionPhase::AwaitingEditor),
            old(self).phase == SessionPhase::ConvertingOut && event is ConversionDone ==> (
            r matches SessionStep::Continue(a) && a matches SessionAction::ReadFile { name }
                && name@ == old(self).primary_name@ && final(self).phase
                == SessionPhase::ReadingBack),
            event matches SessionEvent::ConversionFailed { tool_exit_code, stderr_excerpt } ==> (
            r matches SessionStep::Continue(a) && a == SessionAction::RemoveScratchDir && final(self).phase == SessionPhase::CleaningUp && (final(self).pending matches Some(p)
                && p matches Err(e) && e matches AppError::ConversionFailed {
                tool_exit_code: c,
                stderr_excerpt: s,
            } && c == tool_exit_code && s@ == stderr_excerpt@)),
            event matches SessionEvent::EditorExited { status } ==> ((if status == 0 {
                if old(self).use_alternate_markup {
                    (r matches SessionStep::Continue(a) && a matches SessionAction::Convert {
                        from,
                        to,
                        input_name,
                        output_name,
                    } && from == MarkupDialect::OrgMode && to == MarkupDialect::Markdown
                        && input_name@ == old(self).secondary_name@ && output_name@ == old(self).primary_name@ && final(self).phase == SessionPhase::ConvertingOut)
                } else {
                    (r matches SessionStep::Continue(a) && a matches SessionAction::ReadFile {
                        name } && name@ == old(self).primary_name@ && final(self).phase
                        == SessionPhase::ReadingBack)
                }
            } else {
                (r matches SessionStep::Continue(a) && a == SessionAction::RemoveScratchDir
                    && final(self).phase == SessionPhase::CleaningUp && (final(self).pending matches Some(p) && p matches Err(e) && e == AppError::EditorFailed {
                    status,
                }))
            }) && final(self).editor_status@ == Some(status)),
            event matches SessionEvent::EditorStartFailed { details } ==> (r matches
                SessionStep::Continue(a) && a == SessionAction::RemoveScratchDir && final(self).phase == SessionPhase::CleaningUp && (final(self).pending matches Some(p)
                && p matches Err(e) && e matches AppError::ExternalTool { command, details: d }
                && command@ == old(self).editor_command@ && d@ == details@)),
            event matches SessionEvent::FileContents { text } ==> (r matches
                SessionStep::Continue(a) && a == SessionAction::RemoveScratchDir && final(self).phase == SessionPhase::CleaningUp && (final(self).pending matches Some(p)
                && p matches Ok(t) && t@ == text@)),
            event matches SessionEvent::ReadFailed { details } ==> (r matches
                SessionStep::Continue(a) && a == SessionAction::RemoveScratchDir && final(self).phase == SessionPhase::CleaningUp && (final(self).pending matches Some(p)
                && p matches Err(e) && e matches AppError::Scratch { details: d } && d@
                == details@)),
            event is DirRemoved ==> (r matches SessionStep::Finished(res) && old(self).pending matches Some(p) && res == p && !final(self).dir_live@),
            event matches SessionEvent::RemoveFailed { details } ==> (r matches
                SessionStep::Finished(res) && old(self).pending matches Some(p) && (match p {
                Ok(_) => (res matches Err(e) && e matches AppError::Cleanup { details: d } && d@
                    == details@),
                Err(pe) => (res matches Err(e) && e == pe),
            }) && final(self).dir_live@ == old(self).dir_live@),
    {
        match event {
            SessionEvent::DirCreated => {
                self.phase = SessionPhase::WritingOriginal;
                self.dir_created = Ghost(true);
                self.dir_live = Ghost(true);
                SessionStep::Continue(SessionAction::WriteFile {
                    name: self.primary_name.clone(),
                    contents: self.original_description.clone(),
                })
            },
            SessionEvent::DirFailed { details } => {
                self.phase = SessionPhase::Done;
                SessionStep::Finished(Err(AppError::Scratch { details }))
            },
            SessionEvent::FileWritten => {
                if self.use_alternate_markup {
                    self.phase = SessionPhase::ConvertingIn;
                    self.converts = Ghost(
                        self.converts@.push((MarkupDialect::Markdown, MarkupDialect::OrgMode)),
                    );
                    proof {
                        assert(self.converts@ =~= self.in_converts());
                    }
                    SessionStep::Continue(SessionAction::Convert {
                        from: MarkupDialect::Markdown,
                        to: MarkupDialect::OrgMode,
                        input_name: self.primary_name.clone(),
                        output_name: self.secondary_name.clone(),
                    })
                } else {
                    self.phase = SessionPhase::AwaitingEditor;
                    SessionStep::Continue(SessionAction::LaunchEditor {
                        command: self.editor_command.clone(),
                        file_name: self.primary_name.clone(),
                    })
                }
            },
            SessionEvent::WriteFailed { details } => {
                self.phase = SessionPhase::CleaningUp;
                self.pending = Some(Err(AppError::Scratch { details }));
                self.remove_requested = Ghost(true);
                SessionStep::Continue(SessionAction::RemoveScratchDir)
            },
            SessionEvent::ConversionDone => {
                match self.phase {
                    SessionPhase::ConvertingIn => {
                        self.phase = SessionPhase::AwaitingEditor;
                        SessionStep::Continue(SessionAction::LaunchEditor {
                            command: self.editor_command.clone(),
                            file_name: self.secondary_name.clone(),
                        })
                    },
                    SessionPhase::ConvertingOut => {
                        self.phase = SessionPhase::ReadingBack;
                        SessionStep::Continue(SessionAction::ReadFile {
                            name: self.primary_name.clone(),
                        })
                    },
                    _ => unreached(),
                }
            },
            SessionEvent::ConversionFailed { tool_exit_code, stderr_excerpt } => {
                self.phase = SessionPhase::CleaningUp;
                self.pending = Some(
                    Err(AppError::ConversionFailed { tool_exit_code, stderr_excerpt }),
                );
                self.remove_requested = Ghost(true);
                SessionStep::Continue(SessionAction::RemoveScratchDir)
            },
            SessionEvent::EditorExited { status } => {
                self.editor_status = Ghost(Some(status));
                if status == 0 {
                    if self.use_alternate_markup {
                        self.phase = SessionPhase::ConvertingOut;
                        self.converts = Ghost(
                            self.converts@.push((MarkupDialect::OrgMode, MarkupDialect::Markdown)),
                        );
                        proof {
                            assert(self.converts@ =~= self.out_converts());
                        }
                        SessionStep::Continue(SessionAction::Convert {
                            from: MarkupDialect::OrgMode,
                            to: MarkupDialect::Markdown,
                            input_name: self.secondary_name.clone(),
                            output_name: self.primary_name.clone(),
                        })
                    } else {
                        self.phase = SessionPhase::ReadingBack;
                        SessionStep::Continue(SessionAction::ReadFile {
                            name: self.primary_name.clone(),
                        })
                    }
                } else {
                    self.phase = SessionPhase::CleaningUp;
                    self.pending = Some(Err(AppError::EditorFailed { status }));
                    self.remove_requested = Ghost(true);
                    SessionStep::Continue(SessionAction::RemoveScratchDir)
                }
            },
            SessionEvent::EditorStartFailed { details } => {
                self.phase = SessionPhase::CleaningUp;
                self.pending = Some(
                    Err(
                        AppError::ExternalTool {
                            command: self.editor_command.clone(),
                            details,
                        },
                    ),
                );
                self.remove_requested = Ghost(true);
                SessionStep::Continue(SessionAction::RemoveScratchDir)
            },
            SessionEvent::FileContents { text } => {
                self.phase = SessionPhase::CleaningUp;
                self.pending = Some(Ok(text));
                self.remove_requested = Ghost(true);
                SessionStep::Continue(SessionAction::RemoveScratchDir)
            },
            SessionEvent::ReadFailed { details } => {
                self.phase = SessionPhase::CleaningUp;
                self.pending = Some(Err(AppError::Scratch { details }));
                self.remove_requested = Ghost(true);
                SessionStep::Continue(SessionAction::RemoveScratchDir)
            },
            SessionEvent::DirRemoved => {
                self.phase = SessionPhase::Done;
                self.dir_live = Ghost(false);
                match self.pending.take() {
                    Some(res) => SessionStep::Finished(res),
                    None => unreached(),
                }
            },
            SessionEvent::RemoveFailed { details } => {
                self.phase = SessionPhase::Done;
                match self.pending.take() {
                    Some(res) => match res {
                        Ok(_) => SessionStep::Finished(Err(AppError::Cleanup { details })),
                        Err(e) => SessionStep::Finished(Err(e)),
                    },
                    None => unreached(),
                }
            },
        }
    }
}

} // verus!
