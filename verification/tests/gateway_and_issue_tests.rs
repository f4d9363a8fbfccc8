use forge::create_issue::{
    CreateIssueAction, CreateIssueEvent, CreateIssueFlow, CreateIssueStep,
};
use forge::errors::AppError;
use forge::gateway::{
    classify_create_issue_reply, classify_fetch_reply, classify_update_reply, parse_mr_response,
    CreateIssueData, CreateIssuePayload, CreateIssueReply, FetchReply, GitlabCreatedIssue,
    IssueNode, MrConnection, MrNode, MrProject, MrQueryData, UpdateReply,
};
use forge::markup::MarkupDialect;

fn full_data(iid: &str, description: Option<&str>, web_url: Option<&str>) -> MrQueryData {
    MrQueryData {
        project: Some(MrProject {
            merge_requests: Some(MrConnection {
                nodes: Some(vec![Some(MrNode {
                    iid: String::from(iid),
                    description: description.map(String::from),
                    web_url: web_url.map(String::from),
                })]),
            }),
        }),
    }
}

fn shape_details(r: Result<forge::gateway::FetchedMergeRequest, AppError>) -> String {
    match r {
        Err(AppError::GraphqlError { details, .. }) => details,
        other => panic!("expected a malformed-reply error, got {:?}", other),
    }
}

#[test]
fn mr_response_resolves_first_node() {
    let pp = String::from("group/proj");
    let r = parse_mr_response(&pp, Some(full_data("42", Some("text"), Some("url"))));
    let mr = r.expect("a full reply resolves");
    assert_eq!(mr.project_path, "group/proj");
    assert_eq!(mr.iid, "42");
    assert_eq!(mr.description, "text");
    assert_eq!(mr.web_url, "url");
}

#[test]
fn mr_response_missing_text_fields_become_empty() {
    let pp = String::from("p");
    let mr = parse_mr_response(&pp, Some(full_data("1", None, None))).unwrap();
    assert_eq!(mr.description, "");
    assert_eq!(mr.web_url, "");
}

#[test]
fn mr_response_missing_levels_are_named() {
    let pp = String::from("p");
    assert_eq!(shape_details(parse_mr_response(&pp, None)), "missing data");
    assert_eq!(
        shape_details(parse_mr_response(&pp, Some(MrQueryData { project: None }))),
        "missing project"
    );
    assert_eq!(
        shape_details(parse_mr_response(
            &pp,
            Some(MrQueryData {
                project: Some(MrProject {
                    merge_requests: None,
                }),
            })
        )),
        "missing merge requests"
    );
    assert_eq!(
        shape_details(parse_mr_response(
            &pp,
            Some(MrQueryData {
                project: Some(MrProject {
                    merge_requests: Some(MrConnection { nodes: None }),
                }),
            })
        )),
        "missing merge requests"
    );
    assert_eq!(
        shape_details(parse_mr_response(
            &pp,
            Some(MrQueryData {
                project: Some(MrProject {
                    merge_requests: Some(MrConnection {
                        nodes: Some(vec![]),
                    }),
                }),
            })
        )),
        "missing merge request"
    );
    assert_eq!(
        shape_details(parse_mr_response(
            &pp,
            Some(MrQueryData {
                project: Some(MrProject {
                    merge_requests: Some(MrConnection {
                        nodes: Some(vec![None]),
                    }),
                }),
            })
        )),
        "missing merge request"
    );
}

#[test]
fn fetch_reply_error_payload_wins() {
    let pp = String::from("p");
    let reply = FetchReply {
        errors: Some(vec![String::from("first"), String::from("second")]),
        data: Some(full_data("1", Some("t"), Some("u"))),
    };
    match classify_fetch_reply(&pp, reply) {
        Err(AppError::GraphqlError { message, details }) => {
            assert_eq!(
                message,
                "Gitlab returned an error while fetching the merge request details"
            );
            assert_eq!(details, "first");
        }
        other => panic!("expected the remote's error, got {:?}", other),
    }
}

#[test]
fn fetch_reply_empty_error_list_is_no_error() {
    let pp = String::from("p");
    let reply = FetchReply {
        errors: Some(vec![]),
        data: Some(full_data("1", Some("t"), Some("u"))),
    };
    assert!(classify_fetch_reply(&pp, reply).is_ok());
}

#[test]
fn update_reply_without_errors_succeeds() {
    assert_eq!(classify_update_reply(UpdateReply { errors: None }), Ok(()));
}

#[test]
fn update_reply_with_errors_fails() {
    let r = classify_update_reply(UpdateReply {
        errors: Some(vec![String::from("nope")]),
    });
    match r {
        Err(AppError::GraphqlError { message, details }) => {
            assert_eq!(
                message,
                "Gitlab returned an error while updating the merge request description"
            );
            assert_eq!(details, "nope");
        }
        other => panic!("expected the remote's error, got {:?}", other),
    }
}

#[test]
fn create_issue_reply_resolves_the_issue() {
    let reply = CreateIssueReply {
        errors: None,
        data: Some(CreateIssueData {
            create_issue: Some(CreateIssuePayload {
                issue: Some(IssueNode {
                    id: String::from("77"),
                    web_url: String::from("https://gitlab.example/issues/77"),
                }),
            }),
        }),
    };
    assert_eq!(
        classify_create_issue_reply(reply),
        Ok(GitlabCreatedIssue {
            iid: String::from("77"),
            web_url: String::from("https://gitlab.example/issues/77"),
        })
    );
}

#[test]
fn create_issue_reply_missing_levels_fail() {
    let r = classify_create_issue_reply(CreateIssueReply {
        errors: None,
        data: Some(CreateIssueData { create_issue: None }),
    });
    match r {
        Err(AppError::GraphqlError { details, .. }) => {
            assert_eq!(details, "missing createIssue");
        }
        other => panic!("expected a malformed-reply error, got {:?}", other),
    }
}

#[test]
fn create_issue_reply_error_payload_wins() {
    let r = classify_create_issue_reply(CreateIssueReply {
        errors: Some(vec![String::from("quota exceeded")]),
        data: None,
    });
    match r {
        Err(AppError::GraphqlError { message, details }) => {
            assert_eq!(message, "Gitlab returned an error while creating the issue");
            assert_eq!(details, "quota exceeded");
        }
        other => panic!("expected the remote's error, got {:?}", other),
    }
}

#[test]
fn create_issue_flow_submits_the_split_draft() {
    let mut flow = CreateIssueFlow::new(
        String::from("group/proj"),
        true,
        String::from("vi"),
    );
    assert_eq!(flow.begin(), CreateIssueAction::CreateScratchDir);
    let step = flow.step(CreateIssueEvent::DirCreated);
    assert_eq!(
        step,
        CreateIssueStep::Continue(CreateIssueAction::LaunchEditor {
            command: String::from("vi"),
            file_name: String::from("new_issue.org"),
        })
    );
    let step = flow.step(CreateIssueEvent::EditorExited { status: 0 });
    assert_eq!(
        step,
        CreateIssueStep::Continue(CreateIssueAction::Convert {
            from: MarkupDialect::OrgMode,
            to: MarkupDialect::Markdown,
            input_name: String::from("new_issue.org"),
            output_name: String::from("new_issue.md"),
        })
    );
    let step = flow.step(CreateIssueEvent::ConversionDone);
    assert_eq!(
        step,
        CreateIssueStep::Continue(CreateIssueAction::ReadFile {
            name: String::from("new_issue.md"),
        })
    );
    let step = flow.step(CreateIssueEvent::FileContents {
        text: String::from("My title\n\nMy body"),
    });
    assert_eq!(
        step,
        CreateIssueStep::Continue(CreateIssueAction::RemoveScratchDir)
    );
    // the scratch directory is gone before anything remote happens
    let step = flow.step(CreateIssueEvent::DirRemoved);
    assert_eq!(
        step,
        CreateIssueStep::Continue(CreateIssueAction::SubmitIssue {
            project_path: String::from("group/proj"),
            title: String::from("My title"),
            description: Some(String::from("My body")),
        })
    );
    let reply = CreateIssueReply {
        errors: None,
        data: Some(CreateIssueData {
            create_issue: Some(CreateIssuePayload {
                issue: Some(IssueNode {
                    id: String::from("5"),
                    web_url: String::from("https://gitlab.example/issues/5"),
                }),
            }),
        }),
    };
    let step = flow.step(CreateIssueEvent::IssueReplied(Ok(reply)));
    assert_eq!(
        step,
        CreateIssueStep::Finished(Ok(GitlabCreatedIssue {
            iid: String::from("5"),
            web_url: String::from("https://gitlab.example/issues/5"),
        }))
    );
}

#[test]
fn create_issue_flow_without_markup_conversion() {
    let mut flow = CreateIssueFlow::new(
        String::from("group/proj"),
        false,
        String::from("nano"),
    );
    flow.begin();
    let step = flow.step(CreateIssueEvent::DirCreated);
    assert_eq!(
        step,
        CreateIssueStep::Continue(CreateIssueAction::LaunchEditor {
            command: String::from("nano"),
            file_name: String::from("new_issue.md"),
        })
    );
    let step = flow.step(CreateIssueEvent::EditorExited { status: 0 });
    assert_eq!(
        step,
        CreateIssueStep::Continue(CreateIssueAction::ReadFile {
            name: String::from("new_issue.md"),
        })
    );
    let step = flow.step(CreateIssueEvent::FileContents {
        text: String::from("only a title"),
    });
    assert_eq!(
        step,
        CreateIssueStep::Continue(CreateIssueAction::RemoveScratchDir)
    );
    let step = flow.step(CreateIssueEvent::DirRemoved);
    assert_eq!(
        step,
        CreateIssueStep::Continue(CreateIssueAction::SubmitIssue {
            project_path: String::from("group/proj"),
            title: String::from("only a title"),
            description: None,
        })
    );
}

#[test]
fn create_issue_flow_editor_failure_submits_nothing() {
    let mut flow = CreateIssueFlow::new(
        String::from("group/proj"),
        false,
        String::from("vi"),
    );
    flow.begin();
    flow.step(CreateIssueEvent::DirCreated);
    let step = flow.step(CreateIssueEvent::EditorExited { status: 9 });
    assert_eq!(
        step,
        CreateIssueStep::Continue(CreateIssueAction::RemoveScratchDir)
    );
    let step = flow.step(CreateIssueEvent::DirRemoved);
    assert_eq!(
        step,
        CreateIssueStep::Finished(Err(AppError::EditorFailed { status: 9 }))
    );
}

#[test]
fn create_issue_flow_transport_failure_is_reported() {
    let mut flow = CreateIssueFlow::new(
        String::from("group/proj"),
        false,
        String::from("vi"),
    );
    flow.begin();
    flow.step(CreateIssueEvent::DirCreated);
    flow.step(CreateIssueEvent::EditorExited { status: 0 });
    flow.step(CreateIssueEvent::FileContents {
        text: String::from("t"),
    });
    flow.step(CreateIssueEvent::DirRemoved);
    let step = flow.step(CreateIssueEvent::IssueReplied(Err(String::from(
        "timeout",
    ))));
    assert_eq!(
        step,
        CreateIssueStep::Finished(Err(AppError::Transport {
            details: String::from("timeout"),
        }))
    );
}

#[test]
fn create_issue_flow_conversion_failure_is_cleaned_up() {
    let mut flow = CreateIssueFlow::new(
        String::from("group/proj"),
        true,
        String::from("vi"),
    );
    flow.begin();
    flow.step(CreateIssueEvent::DirCreated);
    flow.step(CreateIssueEvent::EditorExited { status: 0 });
    let step = flow.step(CreateIssueEvent::ConversionFailed {
        tool_exit_code: 2,
        stderr_excerpt: String::from("unknown format"),
    });
    assert_eq!(
        step,
        CreateIssueStep::Continue(CreateIssueAction::RemoveScratchDir)
    );
    let step = flow.step(CreateIssueEvent::DirRemoved);
    assert_eq!(
        step,
        CreateIssueStep::Finished(Err(AppError::ConversionFailed {
            tool_exit_code: 2,
            stderr_excerpt: String::from("unknown format"),
        }))
    );
}
