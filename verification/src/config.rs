use vstd::prelude::*;

use crate::errors::AppError;

verus! {

/// The settings shared by every operation, resolved once per invocation
/// from command-line arguments and the environment.
#[derive(Debug, Clone, PartialEq, Eq)]
pub struct GlobalArgs {
    /// The authentication token sent to the remote forge.
    pub token: String,
    /// The path of the project, such as `group/project`.
    pub project_path: String,
    /// The command the editor is launched with.
    pub editor_cmd: String,
}

/// Resolves the editor command: an explicit argument wins over the
/// environment's choice, and with neither present the invocation is
/// refused before any other work happens.
pub fn resolve_editor(cli_editor: Option<String>, env_editor: Option<String>) -> (r: Result<
    String,
    AppError,
>)
    ensures
        cli_editor matches Some(e) ==> (r matches Ok(s) && s@ == e@),
        cli_editor is None ==> match env_editor {
            Some(e) => r matches Ok(s) && s@ == e@,
            None => (r matches Err(err) && err matches AppError::Config { details } && details@
                == "Missing EDITOR environment variable"@),
        },
{
    match cli_editor {
        Some(e) => Ok(e),
        None => match env_editor {
            Some(e) => Ok(e),
            None => Err(AppError::Config {
                details: String::from_str("Missing EDITOR environment variable"),
            }),
        },
    }
}

} // verus!
