use forge::errors::AppError;
use forge::markup::MarkupDialect;
use forge::session::{EditSession, EditSessionConfig, SessionAction, SessionEvent, SessionStep};

fn config(use_alternate_markup: bool) -> EditSessionConfig {
    EditSessionConfig {
        use_alternate_markup,
        editor_command: String::from("vi"),
    }
}

/// Runs a whole session: the scratch work always succeeds, the editor
/// exits with `editor_status`, and reading the primary file back yields
/// `edited_text`. Returns every action the session asked for, whether the
/// simulated scratch directory still exists, and the session's result.
fn drive(
    mut s: EditSession,
    editor_status: i32,
    edited_text: &str,
) -> (Vec<SessionAction>, bool, Result<String, AppError>) {
    let mut actions: Vec<SessionAction> = Vec::new();
    let mut dir_exists = false;
    let mut action = s.begin();
    loop {
        actions.push(action.clone());
        let event = match &action {
            SessionAction::CreateScratchDir => {
                dir_exists = true;
                SessionEvent::DirCreated
            }
            SessionAction::WriteFile { .. } => SessionEvent::FileWritten,
            SessionAction::Convert { .. } => SessionEvent::ConversionDone,
            SessionAction::LaunchEditor { .. } => SessionEvent::EditorExited {
                status: editor_status,
            },
            SessionAction::ReadFile { .. } => SessionEvent::FileContents {
                text: String::from(edited_text),
            },
            SessionAction::RemoveScratchDir => {
                dir_exists = false;
                SessionEvent::DirRemoved
            }
        };
        match s.step(event) {
            SessionStep::Continue(a) => action = a,
            SessionStep::Finished(res) => return (actions, dir_exists, res),
        }
    }
}

fn conversions(actions: &[SessionAction]) -> Vec<(MarkupDialect, MarkupDialect)> {
    actions
        .iter()
        .filter_map(|a| match a {
            SessionAction::Convert { from, to, .. } => Some((*from, *to)),
            _ => None,
        })
        .collect()
}

#[test]
fn session_without_conversion_returns_edited_text() {
    let s = EditSession::new("42", String::from("old text"), config(false));
    let (actions, dir_exists, res) = drive(s, 0, "new text");
    assert_eq!(res, Ok(String::from("new text")));
    assert!(!dir_exists);
    assert_eq!(actions[0], SessionAction::CreateScratchDir);
    assert_eq!(
        actions[1],
        SessionAction::WriteFile {
            name: String::from("42.md"),
            contents: String::from("old text"),
        }
    );
    assert_eq!(
        actions[2],
        SessionAction::LaunchEditor {
            command: String::from("vi"),
            file_name: String::from("42.md"),
        }
    );
    assert_eq!(
        actions[3],
        SessionAction::ReadFile {
            name: String::from("42.md"),
        }
    );
    assert_eq!(actions[4], SessionAction::RemoveScratchDir);
    assert_eq!(actions.len(), 5);
    assert_eq!(conversions(&actions).len(), 0);
}

#[test]
fn session_with_alternate_markup_converts_once_each_way() {
    let s = EditSession::new("7", String::from("# heading"), config(true));
    let (actions, dir_exists, res) = drive(s, 0, "# heading");
    assert_eq!(res, Ok(String::from("# heading")));
    assert!(!dir_exists);
    assert_eq!(
        conversions(&actions),
        vec![
            (MarkupDialect::Markdown, MarkupDialect::OrgMode),
            (MarkupDialect::OrgMode, MarkupDialect::Markdown),
        ]
    );
    // the editor works on the OrgMode file
    assert_eq!(
        actions[3],
        SessionAction::LaunchEditor {
            command: String::from("vi"),
            file_name: String::from("7.org"),
        }
    );
    // the text read back comes from the Markdown file
    assert_eq!(
        actions[5],
        SessionAction::ReadFile {
            name: String::from("7.md"),
        }
    );
}

#[test]
fn session_editor_failure_aborts_with_status() {
    let s = EditSession::new("9", String::from("text"), config(false));
    let (actions, dir_exists, res) = drive(s, 7, "ignored");
    assert_eq!(res, Err(AppError::EditorFailed { status: 7 }));
    assert!(!dir_exists);
    // nothing is read back after the editor failed
    assert!(actions
        .iter()
        .all(|a| !matches!(a, SessionAction::ReadFile { .. })));
    // the scratch directory is still cleaned up
    assert_eq!(actions.last(), Some(&SessionAction::RemoveScratchDir));
}

#[test]
fn session_editor_failure_skips_second_conversion() {
    let s = EditSession::new("9", String::from("text"), config(true));
    let (actions, dir_exists, res) = drive(s, 1, "ignored");
    assert_eq!(res, Err(AppError::EditorFailed { status: 1 }));
    assert!(!dir_exists);
    assert_eq!(
        conversions(&actions),
        vec![(MarkupDialect::Markdown, MarkupDialect::OrgMode)]
    );
}

#[test]
fn session_conversion_failure_aborts_before_editor() {
    let mut s = EditSession::new("5", String::from("text"), config(true));
    assert_eq!(s.begin(), SessionAction::CreateScratchDir);
    let step = s.step(SessionEvent::DirCreated);
    assert!(matches!(
        step,
        SessionStep::Continue(SessionAction::WriteFile { .. })
    ));
    let step = s.step(SessionEvent::FileWritten);
    assert!(matches!(
        step,
        SessionStep::Continue(SessionAction::Convert { .. })
    ));
    let step = s.step(SessionEvent::ConversionFailed {
        tool_exit_code: 65,
        stderr_excerpt: String::from("parse error"),
    });
    assert_eq!(
        step,
        SessionStep::Continue(SessionAction::RemoveScratchDir)
    );
    let step = s.step(SessionEvent::DirRemoved);
    assert_eq!(
        step,
        SessionStep::Finished(Err(AppError::ConversionFailed {
            tool_exit_code: 65,
            stderr_excerpt: String::from("parse error"),
        }))
    );
}

#[test]
fn session_cleanup_failure_masks_success() {
    let mut s = EditSession::new("3", String::from("a"), config(false));
    s.begin();
    s.step(SessionEvent::DirCreated);
    s.step(SessionEvent::FileWritten);
    s.step(SessionEvent::EditorExited { status: 0 });
    let step = s.step(SessionEvent::FileContents {
        text: String::from("b"),
    });
    assert_eq!(
        step,
        SessionStep::Continue(SessionAction::RemoveScratchDir)
    );
    let step = s.step(SessionEvent::RemoveFailed {
        details: String::from("busy"),
    });
    assert_eq!(
        step,
        SessionStep::Finished(Err(AppError::Cleanup {
            details: String::from("busy"),
        }))
    );
}

#[test]
fn session_cleanup_failure_keeps_the_original_error() {
    let mut s = EditSession::new("3", String::from("a"), config(false));
    s.begin();
    s.step(SessionEvent::DirCreated);
    s.step(SessionEvent::FileWritten);
    s.step(SessionEvent::EditorExited { status: 2 });
    let step = s.step(SessionEvent::RemoveFailed {
        details: String::from("busy"),
    });
    assert_eq!(
        step,
        SessionStep::Finished(Err(AppError::EditorFailed { status: 2 }))
    );
}

#[test]
fn session_write_failure_is_reported_and_cleaned_up() {
    let mut s = EditSession::new("8", String::from("a"), config(false));
    s.begin();
    s.step(SessionEvent::DirCreated);
    let step = s.step(SessionEvent::WriteFailed {
        details: String::from("disk full"),
    });
    assert_eq!(
        step,
        SessionStep::Continue(SessionAction::RemoveScratchDir)
    );
    let step = s.step(SessionEvent::DirRemoved);
    assert_eq!(
        step,
        SessionStep::Finished(Err(AppError::Scratch {
            details: String::from("disk full"),
        }))
    );
}

#[test]
fn session_dir_creation_failure_ends_immediately() {
    let mut s = EditSession::new("8", String::from("a"), config(false));
    s.begin();
    let step = s.step(SessionEvent::DirFailed {
        details: String::from("permission denied"),
    });
    assert_eq!(
        step,
        SessionStep::Finished(Err(AppError::Scratch {
            details: String::from("permission denied"),
        }))
    );
}

#[test]
fn session_editor_start_failure_names_the_editor() {
    let mut s = EditSession::new("8", String::from("a"), config(false));
    s.begin();
    s.step(SessionEvent::DirCreated);
    s.step(SessionEvent::FileWritten);
    let step = s.step(SessionEvent::EditorStartFailed {
        details: String::from("not found"),
    });
    assert_eq!(
        step,
        SessionStep::Continue(SessionAction::RemoveScratchDir)
    );
    let step = s.step(SessionEvent::DirRemoved);
    assert_eq!(
        step,
        SessionStep::Finished(Err(AppError::ExternalTool {
            command: String::from("vi"),
            details: String::from("not found"),
        }))
    );
}
