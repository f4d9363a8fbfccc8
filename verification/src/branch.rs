use vstd::prelude::*;

use crate::errors::AppError;

verus! {

/// True of the characters stripped from both ends of the branch query's
/// output.
pub open spec fn is_ws(c: char) -> bool {
    c == ' ' || c == '\n' || c == '\t' || c == '\r'
}

/// The first position at or after `i` holding a non-whitespace character,
/// or the length when there is none.
pub open spec fn ws_start(s: Seq<char>, i: int) -> int
    decreases s.len() - i when 0 <= i <= s.len()
{
    if i < s.len() && is_ws(s[i]) {
        ws_start(s, i + 1)
    } else {
        i
    }
}

/// One past the last position before `i` holding a non-whitespace
/// character, or zero when there is none.
pub open spec fn ws_end(s: Seq<char>, i: int) -> int
    decreases i when 0 <= i <= s.len()
{
    if i > 0 && is_ws(s[i - 1]) {
        ws_end(s, i - 1)
    } else {
        i
    }
}

/// `s` with leading and trailing whitespace removed.
pub open spec fn spec_trim(s: Seq<char>) -> Seq<char> {
    let a = ws_start(s, 0);
    let b = ws_end(s, s.len() as int);
    if a <= b {
        s.subrange(a, b)
    } else {
        Seq::empty()
    }
}

/// A prefix of whitespace up to a stop at `a` determines `ws_start`.
proof fn lemma_ws_start_at(s: Seq<char>, i: int, a: int)
    requires
        0 <= i <= a <= s.len(),
        forall|j: int| i <= j < a ==> is_ws(s[j]),
        a == s.len() || !is_ws(s[a]),
    ensures
        ws_start(s, i) == a,
    decreases a - i,
{
    if i < a {
        lemma_ws_start_at(s, i + 1, a);
    }
}

/// A suffix of whitespace down to a stop at `b` determines `ws_end`.
proof fn lemma_ws_end_at(s: Seq<char>, i: int, b: int)
    requires
        0 <= b <= i <= s.len(),
        forall|j: int| b <= j < i ==> is_ws(s[j]),
        b == 0 || !is_ws(s[b - 1]),
    ensures
        ws_end(s, i) == b,
    decreases i - b,
{
    if i > b {
        lemma_ws_end_at(s, i - 1, b);
    }
}

/// Removes leading and trailing whitespace (spaces, tabs, carriage returns
/// and newlines) from `s`.
pub fn trim_whitespace(s: &str) -> (r: String)
    ensures
        r@ == spec_trim(s@),
{
    let n = s.unicode_len();
    let mut a: usize = 0;
    while a < n && is_ws_char(s.get_char(a))
        invariant
            n == s@.len(),
            0 <= a <= n,
            forall|j: int| 0 <= j < a ==> is_ws(s@[j]),
        decreases n - a,
    {
        a = a + 1;
    }
    proof {
        lemma_ws_start_at(s@, 0, a as int);
    }
    let mut b: usize = n;
    while b > a && is_ws_char(s.get_char(b - 1))
        invariant
            n == s@.len(),
            a <= b <= n,
            forall|j: int| b <= j < n ==> is_ws(s@[j]),
        decreases b,
    {
        b = b - 1;
    }
    if a == b {
        proof {
            // the two scans can only meet when the whole text is whitespace
            if a < n {
                assert(is_ws(s@[a as int]));
            }
            lemma_ws_end_at(s@, n as int, 0);
            assert(spec_trim(s@) =~= Seq::<char>::empty());
        }
        String::new()
    } else {
        proof {
            lemma_ws_end_at(s@, n as int, b as int);
        }
        let r = String::from_str(s.substring_char(a, b));
        proof {
            assert(r@ =~= spec_trim(s@));
        }
        r
    }
}

/// Whether `c` counts as whitespace for trimming.
pub fn is_ws_char(c: char) -> (r: bool)
    ensures
        r == is_ws(c),
{
    c == ' ' || c == '\n' || c == '\t' || c == '\r'
}

/// How the branch to operate on is determined: an explicit override is
/// taken verbatim; otherwise the local version-control tool is asked for
/// the checked-out branch.
#[derive(Debug, Clone, PartialEq, Eq)]
pub enum BranchPlan {
    UseExplicit(String),
    QueryLocal,
}

/// What the driver observed when running the local branch query tool.
#[derive(Debug, Clone, PartialEq, Eq)]
pub enum ToolOutcome {
    /// The tool ran to completion with this exit status and standard
    /// output.
    Output { status: i32, stdout: String },
    /// The tool could not be started.
    StartFailed { details: String },
    /// The tool's output was not valid text.
    NotText,
}

/// Decides whether the branch query tool must run at all. An explicit,
/// non-empty override is returned verbatim, with no validation against the
/// remote and without ever invoking the local tool.
pub fn branch_plan(explicit: Option<String>) -> (p: BranchPlan)
    ensures
        match explicit {
            Some(b) => if b@.len() > 0 {
                p matches BranchPlan::UseExplicit(r) && r@ == b@
            } else {
                p == BranchPlan::QueryLocal
            },
            None => p == BranchPlan::QueryLocal,
        },
{
    match explicit {
        Some(b) => {
            if b.as_str().unicode_len() > 0 {
                BranchPlan::UseExplicit(b)
            } else {
                BranchPlan::QueryLocal
            }
        },
        None => BranchPlan::QueryLocal,
    }
}

/// True when the branch query tool ran and exited cleanly.
pub open spec fn branch_query_ok(o: ToolOutcome) -> bool {
    o matches ToolOutcome::Output { status, .. } && status == 0
}

/// The branch name a clean query resolves to: the tool's standard output
/// with surrounding whitespace trimmed.
pub open spec fn queried_branch(o: ToolOutcome) -> Seq<char>
    recommends
        branch_query_ok(o),
{
    match o {
        ToolOutcome::Output { stdout, .. } => spec_trim(stdout@),
        _ => Seq::empty(),
    }
}

/// What a failed branch query is reported as: an error naming the tool,
/// with details matching the way it failed.
pub open spec fn branch_query_error(o: ToolOutcome, e: AppError) -> bool {
    match o {
        ToolOutcome::Output { status, .. } => status != 0 && (e matches AppError::ExternalTool {
            command,
            details,
        } && command@ == branch_query_command() && details@ == "exited with a non-zero status"@),
        ToolOutcome::StartFailed { details } => (e matches AppError::ExternalTool {
            command,
            details: d,
        } && command@ == branch_query_command() && d@ == details@),
        ToolOutcome::NotText => (e matches AppError::ExternalTool { command, details }
            && command@ == branch_query_command() && details@ == "output is not valid text"@),
    }
}

/// Turns the branch query tool's outcome into the branch name: the tool's
/// standard output with surrounding whitespace trimmed when it exited
/// cleanly, and an error naming the tool otherwise.
pub fn branch_from_query(outcome: ToolOutcome) -> (r: Result<String, AppError>)
    ensures
        branch_query_ok(outcome) ==> (r matches Ok(b) && b@ == queried_branch(outcome)),
        !branch_query_ok(outcome) ==> (r matches Err(e) && branch_query_error(outcome, e)),
{
    match outcome {
        ToolOutcome::Output { status, stdout } => {
            if status == 0 {
                Ok(trim_whitespace(stdout.as_str()))
            } else {
                Err(AppError::ExternalTool {
                    command: String::from_str("git branch --show-current"),
                    details: String::from_str("exited with a non-zero status"),
                })
            }
        },
        ToolOutcome::StartFailed { details } => Err(AppError::ExternalTool {
            command: String::from_str("git branch --show-current"),
            details,
        }),
        ToolOutcome::NotText => Err(AppError::ExternalTool {
            command: String::from_str("git branch --show-current"),
            details: String::from_str("output is not valid text"),
        }),
    }
}

/// The fixed command line of the local branch query.
pub open spec fn branch_query_command() -> Seq<char> {
    "git branch --show-current"@
}

} // verus!
