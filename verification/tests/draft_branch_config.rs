use forge::branch::{branch_from_query, branch_plan, trim_whitespace, BranchPlan, ToolOutcome};
use forge::config::resolve_editor;
use forge::draft::parse_draft;
use forge::errors::AppError;
use forge::markup::MarkupDialect;

#[test]
fn parse_draft_splits_on_first_blank_line() {
    let d = parse_draft("My title\n\nMy body");
    assert_eq!(d.title, "My title");
    assert_eq!(d.description, Some(String::from("My body")));
}

#[test]
fn parse_draft_without_separator_is_all_title() {
    let d = parse_draft("just a title, no body");
    assert_eq!(d.title, "just a title, no body");
    assert_eq!(d.description, None);
}

#[test]
fn parse_draft_keeps_description_verbatim() {
    let d = parse_draft("T\n\nfirst\n\nsecond\n");
    assert_eq!(d.title, "T");
    assert_eq!(d.description, Some(String::from("first\n\nsecond\n")));
}

#[test]
fn parse_draft_empty_input() {
    let d = parse_draft("");
    assert_eq!(d.title, "");
    assert_eq!(d.description, None);
}

#[test]
fn parse_draft_separator_at_start() {
    let d = parse_draft("\n\nbody only");
    assert_eq!(d.title, "");
    assert_eq!(d.description, Some(String::from("body only")));
}

#[test]
fn parse_draft_three_newlines() {
    let d = parse_draft("T\n\n\nB");
    assert_eq!(d.title, "T");
    assert_eq!(d.description, Some(String::from("\nB")));
}

#[test]
fn parse_draft_single_newline_is_no_separator() {
    let d = parse_draft("line one\nline two");
    assert_eq!(d.title, "line one\nline two");
    assert_eq!(d.description, None);
}

#[test]
fn trim_removes_surrounding_whitespace() {
    assert_eq!(trim_whitespace(" main\n"), "main");
    assert_eq!(trim_whitespace("\t\r\nfeature/x \t"), "feature/x");
}

#[test]
fn trim_keeps_inner_whitespace() {
    assert_eq!(trim_whitespace("  a b  "), "a b");
}

#[test]
fn trim_of_all_whitespace_is_empty() {
    assert_eq!(trim_whitespace(" \n\t\r"), "");
    assert_eq!(trim_whitespace(""), "");
}

#[test]
fn trim_of_clean_text_is_identity() {
    assert_eq!(trim_whitespace("main"), "main");
}

#[test]
fn branch_plan_explicit_override_is_verbatim() {
    let p = branch_plan(Some(String::from("feature/x")));
    assert_eq!(p, BranchPlan::UseExplicit(String::from("feature/x")));
}

#[test]
fn branch_plan_empty_override_queries_local() {
    assert_eq!(branch_plan(Some(String::new())), BranchPlan::QueryLocal);
}

#[test]
fn branch_plan_without_override_queries_local() {
    assert_eq!(branch_plan(None), BranchPlan::QueryLocal);
}

#[test]
fn branch_from_clean_query_is_trimmed_stdout() {
    let r = branch_from_query(ToolOutcome::Output {
        status: 0,
        stdout: String::from("main\n"),
    });
    assert_eq!(r, Ok(String::from("main")));
}

#[test]
fn branch_from_failed_query_is_tool_error() {
    let r = branch_from_query(ToolOutcome::Output {
        status: 128,
        stdout: String::new(),
    });
    match r {
        Err(AppError::ExternalTool { command, .. }) => {
            assert_eq!(command, "git branch --show-current");
        }
        other => panic!("unexpected result: {:?}", other),
    }
}

#[test]
fn branch_from_unstartable_query_keeps_details() {
    let r = branch_from_query(ToolOutcome::StartFailed {
        details: String::from("no such file"),
    });
    match r {
        Err(AppError::ExternalTool { command, details }) => {
            assert_eq!(command, "git branch --show-current");
            assert_eq!(details, "no such file");
        }
        other => panic!("unexpected result: {:?}", other),
    }
}

#[test]
fn branch_from_non_text_output_is_tool_error() {
    assert!(matches!(
        branch_from_query(ToolOutcome::NotText),
        Err(AppError::ExternalTool { .. })
    ));
}

#[test]
fn editor_argument_wins_over_environment() {
    let r = resolve_editor(Some(String::from("vi")), Some(String::from("emacs")));
    assert_eq!(r, Ok(String::from("vi")));
}

#[test]
fn editor_falls_back_to_environment() {
    let r = resolve_editor(None, Some(String::from("emacs")));
    assert_eq!(r, Ok(String::from("emacs")));
}

#[test]
fn missing_editor_is_a_config_error() {
    match resolve_editor(None, None) {
        Err(AppError::Config { details }) => {
            assert_eq!(details, "Missing EDITOR environment variable");
        }
        other => panic!("unexpected result: {:?}", other),
    }
}

#[test]
fn dialect_extensions() {
    assert_eq!(MarkupDialect::Markdown.extension(), "md");
    assert_eq!(MarkupDialect::OrgMode.extension(), "org");
}

#[test]
fn dialect_converter_names() {
    assert_eq!(MarkupDialect::Markdown.converter_name(), "markdown");
    assert_eq!(MarkupDialect::OrgMode.converter_name(), "org");
}
