use vstd::prelude::*;

use crate::errors::AppError;

verus! {

/// A merge request as resolved from a fetch reply: the project it belongs
/// to, its project-scoped number, its description text and its display
/// link.
#[derive(Debug, Clone, PartialEq, Eq)]
pub struct FetchedMergeRequest {
    pub project_path: String,
    pub iid: String,
    pub description: String,
    pub web_url: String,
}

/// A freshly created issue as the remote reports it.
#[derive(Debug, Clone, PartialEq, Eq)]
pub struct GitlabCreatedIssue {
    pub iid: String,
    pub web_url: String,
}

/// A merge request's identity and text as reported back after an update.
#[derive(Debug, Clone, PartialEq, Eq)]
pub struct GetMRResponse {
    pub project_path: String,
    pub iid: String,
    pub description: String,
}

/// One merge request node of a fetch reply. The remote leaves the text
/// fields optional.
#[derive(Debug, Clone, PartialEq, Eq)]
pub struct MrNode {
    pub iid: String,
    pub description: Option<String>,
    pub web_url: Option<String>,
}

/// The list of merge requests matching the queried branch.
#[derive(Debug, Clone, PartialEq, Eq)]
pub struct MrConnection {
    pub nodes: Option<Vec<Option<MrNode>>>,
}

/// The queried project, when the remote knows it.
#[derive(Debug, Clone, PartialEq, Eq)]
pub struct MrProject {
    pub merge_requests: Option<MrConnection>,
}

/// The data payload of a fetch reply. Every level is optional in the
/// remote's schema.
#[derive(Debug, Clone, PartialEq, Eq)]
pub struct MrQueryData {
    pub project: Option<MrProject>,
}

/// A fetch reply: the error payload (each error as one rendered line) and
/// the data payload, either of which may be missing.
#[derive(Debug, Clone, PartialEq, Eq)]
pub struct FetchReply {
    pub errors: Option<Vec<String>>,
    pub data: Option<MrQueryData>,
}

/// An update reply: only its error payload matters.
#[derive(Debug, Clone, PartialEq, Eq)]
pub struct UpdateReply {
    pub errors: Option<Vec<String>>,
}

/// The data payload of a create-issue reply.
#[derive(Debug, Clone, PartialEq, Eq)]
pub struct CreateIssueData {
    pub create_issue: Option<CreateIssuePayload>,
}

/// The mutation payload of a create-issue reply.
#[derive(Debug, Clone, PartialEq, Eq)]
pub struct CreateIssuePayload {
    pub issue: Option<IssueNode>,
}

/// The created issue as it stands in a create-issue reply.
#[derive(Debug, Clone, PartialEq, Eq)]
pub struct IssueNode {
    pub id: String,
    pub web_url: String,
}

/// A create-issue reply: error payload and data payload.
#[derive(Debug, Clone, PartialEq, Eq)]
pub struct CreateIssueReply {
    pub errors: Option<Vec<String>>,
    pub data: Option<CreateIssueData>,
}

/// True when a reply's error payload holds at least one error.
pub open spec fn has_reply_errors(errors: Option<Vec<String>>) -> bool {
    errors matches Some(v) && v@.len() > 0
}

/// What a malformed fetch reply is reported as: which level of the data
/// payload was missing.
pub open spec fn fetch_shape_error(e: AppError, level: Seq<char>) -> bool {
    e matches AppError::GraphqlError { message, details }
        && message@ == "Failed to get merge request details from graphql response"@
        && details@ == level
}

/// How a fetch reply's data payload resolves to a merge request: the first
/// node of the merge-request list wins, missing text fields become the
/// empty string, and each missing level is reported by name.
pub open spec fn mr_resolution(
    project_path: Seq<char>,
    data: Option<MrQueryData>,
    r: Result<FetchedMergeRequest, AppError>,
) -> bool {
    match data {
        None => r matches Err(e) && fetch_shape_error(e, "missing data"@),
        Some(d) => match d.project {
            None => r matches Err(e) && fetch_shape_error(e, "missing project"@),
            Some(p) => match p.merge_requests {
                None => r matches Err(e) && fetch_shape_error(e, "missing merge requests"@),
                Some(c) => match c.nodes {
                    None => r matches Err(e) && fetch_shape_error(e, "missing merge requests"@),
                    Some(nodes) => if nodes@.len() == 0 || nodes@[0] is None {
                        r matches Err(e) && fetch_shape_error(e, "missing merge request"@)
                    } else {
                        (r matches Ok(mr) && nodes@[0] matches Some(node) && mr.project_path@
                            == project_path && mr.iid@ == node.iid@ && mr.description@ == (
                        match node.description {
                            Some(t) => t@,
                            None => Seq::<char>::empty(),
                        }) && mr.web_url@ == (match node.web_url {
                            Some(u) => u@,
                            None => Seq::<char>::empty(),
                        }))
                    },
                },
            },
        },
    }
}

/// Resolves the merge request out of a fetch reply's data payload, as
/// [`mr_resolution`] describes.
pub fn parse_mr_response(project_path: &String, data: Option<MrQueryData>) -> (r: Result<
    FetchedMergeRequest,
    AppError,
>)
    ensures
        mr_resolution(project_path@, data, r),
{
    let shape_message = "Failed to get merge request details from graphql response";
    match data {
        None => Err(AppError::GraphqlError {
            message: String::from_str(shape_message),
            details: String::from_str("missing data"),
        }),
        Some(d) => match d.project {
            None => Err(AppError::GraphqlError {
                message: String::from_str(shape_message),
                details: String::from_str("missing project"),
            }),
            Some(p) => match p.merge_requests {
                None => Err(AppError::GraphqlError {
                    message: String::from_str(shape_message),
                    details: String::from_str("missing merge requests"),
                }),
                Some(c) => match c.nodes {
                    None => Err(AppError::GraphqlError {
                        message: String::from_str(shape_message),
                        details: String::from_str("missing merge requests"),
                    }),
                    Some(nodes) => {
                        if nodes.len() == 0 {
                            Err(AppError::GraphqlError {
                                message: String::from_str(shape_message),
                                details: String::from_str("missing merge request"),
                            })
                        } else {
                            match &nodes[0] {
                                None => Err(AppError::GraphqlError {
                                    message: String::from_str(shape_message),
                                    details: String::from_str("missing merge request"),
                                }),
                                Some(node) => Ok(
                                    FetchedMergeRequest {
                                        project_path: project_path.clone(),
                                        iid: node.iid.clone(),
                                        description: match &node.description {
                                            Some(t) => t.clone(),
                                            None => String::new(),
                                        },
                                        web_url: match &node.web_url {
                                            Some(u) => u.clone(),
                                            None => String::new(),
                                        },
                                    },
                                ),
                            }
                        }
                    },
                },
            },
        },
    }
}

/// How a fetch reply is classified: a reply with an error payload is
/// reported as the remote's error (its first rendered line as the
/// details), and an error-free reply resolves as [`mr_resolution`]
/// describes.
pub open spec fn fetch_classification(
    project_path: Seq<char>,
    reply: FetchReply,
    r: Result<FetchedMergeRequest, AppError>,
) -> bool {
    if has_reply_errors(reply.errors) {
        (r matches Err(e) && reply.errors matches Some(errs) && e matches AppError::GraphqlError {
            message,
            details,
        } && message@ == "Gitlab returned an error while fetching the merge request details"@
            && details@ == errs@[0]@)
    } else {
        mr_resolution(project_path, reply.data, r)
    }
}

/// Classifies a fetch reply, as [`fetch_classification`] describes.
pub fn classify_fetch_reply(project_path: &String, reply: FetchReply) -> (r: Result<
    FetchedMergeRequest,
    AppError,
>)
    ensures
        fetch_classification(project_path@, reply, r),
{
    let FetchReply { errors, data } = reply;
    match errors {
        Some(errs) => {
            if errs.len() > 0 {
                let first = errs[0].clone();
                Err(AppError::GraphqlError {
                    message: String::from_str(
                        "Gitlab returned an error while fetching the merge request details",
                    ),
                    details: first,
                })
            } else {
                parse_mr_response(project_path, data)
            }
        },
        None => parse_mr_response(project_path, data),
    }
}

/// How an update reply is classified: an error payload is reported as the
/// remote's error, anything else means the update took effect.
pub open spec fn update_classification(reply: UpdateReply, r: Result<(), AppError>) -> bool {
    if has_reply_errors(reply.errors) {
        (r matches Err(e) && reply.errors matches Some(errs) && e matches AppError::GraphqlError {
            message,
            details,
        } && message@ == "Gitlab returned an error while updating the merge request description"@
            && details@ == errs@[0]@)
    } else {
        r is Ok
    }
}

/// Classifies an update reply, as [`update_classification`] describes.
pub fn classify_update_reply(reply: UpdateReply) -> (r: Result<(), AppError>)
    ensures
        update_classification(reply, r),
{
    let UpdateReply { errors } = reply;
    match errors {
        Some(errs) => {
            if errs.len() > 0 {
                let first = errs[0].clone();
                Err(AppError::GraphqlError {
                    message: String::from_str(
                        "Gitlab returned an error while updating the merge request description",
                    ),
                    details: first,
                })
            } else {
                Ok(())
            }
        },
        None => Ok(()),
    }
}

/// How an error-free create-issue reply resolves to the created issue:
/// every level of the data payload must be present; a missing level is a
/// malformed reply, reported by name.
pub open spec fn issue_resolution(
    data: Option<CreateIssueData>,
    r: Result<GitlabCreatedIssue, AppError>,
) -> bool {
    match data {
        None => r matches Err(e) && issue_shape_error(e, "missing data"@),
        Some(d) => match d.create_issue {
            None => r matches Err(e) && issue_shape_error(e, "missing createIssue"@),
            Some(p) => match p.issue {
                None => r matches Err(e) && issue_shape_error(e, "missing issue"@),
                Some(issue) => (r matches Ok(created) && created.iid@ == issue.id@
                    && created.web_url@ == issue.web_url@),
            },
        },
    }
}

/// What a malformed create-issue reply is reported as.
pub open spec fn issue_shape_error(e: AppError, level: Seq<char>) -> bool {
    e matches AppError::GraphqlError { message, details }
        && message@ == "Failed to read the created issue from the graphql response"@
        && details@ == level
}

/// How a create-issue reply is classified: an error payload is reported
/// as the remote's error; otherwise the created issue is read out of the
/// data payload as [`issue_resolution`] describes.
pub open spec fn issue_classification(
    reply: CreateIssueReply,
    r: Result<GitlabCreatedIssue, AppError>,
) -> bool {
    if has_reply_errors(reply.errors) {
        (r matches Err(e) && reply.errors matches Some(errs) && e matches AppError::GraphqlError {
            message,
            details,
        } && message@ == "Gitlab returned an error while creating the issue"@ && details@
            == errs@[0]@)
    } else {
        issue_resolution(reply.data, r)
    }
}

/// Classifies a create-issue reply, as [`issue_classification`] describes.
pub fn classify_create_issue_reply(reply: CreateIssueReply) -> (r: Result<
    GitlabCreatedIssue,
    AppError,
>)
    ensures
        issue_classification(reply, r),
{
    let shape_message = "Failed to read the created issue from the graphql response";
    let CreateIssueReply { errors, data } = reply;
    match errors {
        Some(errs) if errs.len() > 0 => {
            let first = errs[0].clone();
            Err(AppError::GraphqlError {
                message: String::from_str("Gitlab returned an error while creating the issue"),
                details: first,
            })
        },
        _ => match data {
            None => Err(AppError::GraphqlError {
                message: String::from_str(shape_message),
                details: String::from_str("missing data"),
            }),
            Some(d) => match d.create_issue {
                None => Err(AppError::GraphqlError {
                    message: String::from_str(shape_message),
                    details: String::from_str("missing createIssue"),
                }),
                Some(p) => match p.issue {
                    None => Err(AppError::GraphqlError {
                        message: String::from_str(shape_message),
                        details: String::from_str("missing issue"),
                    }),
                    Some(issue) => Ok(
                        GitlabCreatedIssue { iid: issue.id, web_url: issue.web_url },
                    ),
                },
            },
        },
    }
}

} // verus!
