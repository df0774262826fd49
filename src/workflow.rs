//! Decisions of the commit workflow: which git state to diff, which files go
//! into it, how prompts are built, and what is done with the generated message.
use crate::error::{error_heading, error_text, GatewayError};
use crate::file_pattern::{filter_excluded_files, kept_files, views};
use crate::providers::{lower_of, provider_of_name, ProviderType};
use crate::text::{find, find_first, has_char, lemma_find_from, to_chars};
use crate::settings::PromptTemplates;
use crate::types::ChatResponse;
use vstd::prelude::*;
use vstd::string::*;

verus! {

/// What `str::trim` returns for a string.
pub uninterp spec fn trim_of(s: Seq<char>) -> Seq<char>;

/// Relies on `str::trim`: the result depends on the characters alone.
#[verifier::external_body]
fn trimmed(s: &str) -> (r: String)
    ensures
        r@ == trim_of(s@),
{
    s.trim().to_string()
}

/// A line without the carriage return that preceded its newline.
pub open spec fn strip_cr(line: Seq<char>) -> Seq<char> {
    if line.len() > 0 && line.last() == '\r' {
        line.drop_last()
    } else {
        line
    }
}

/// The lines of `s` after the partial line `cur`: split at `\n`, a `\r` before
/// the `\n` dropped, no empty line after a final `\n`.
pub open spec fn lines_after(s: Seq<char>, cur: Seq<char>) -> Seq<Seq<char>>
    decreases s.len(),
{
    if s.len() == 0 {
        if cur.len() == 0 {
            Seq::empty()
        } else {
            seq![cur]
        }
    } else if s[0] == '\n' {
        seq![strip_cr(cur)] + lines_after(s.drop_first(), Seq::empty())
    } else {
        lines_after(s.drop_first(), cur.push(s[0]))
    }
}

/// The lines of `s`.
pub open spec fn lines_of(s: Seq<char>) -> Seq<Seq<char>> {
    lines_after(s, Seq::empty())
}

/// Splits command output into its lines.
pub fn split_lines(s: &str) -> (r: Vec<String>)
    ensures
        views(r@) == lines_of(s@),
{
    let n = s.unicode_len();
    let mut r: Vec<String> = Vec::new();
    let mut start: usize = 0;
    let mut i: usize = 0;
    proof {
        assert(s@.subrange(0, 0) =~= Seq::<char>::empty());
        assert(s@.subrange(0, n as int) =~= s@);
    }
    while i < n
        invariant
            n == s@.len(),
            start <= i <= n,
            lines_of(s@) == views(r@) + lines_after(
                s@.subrange(i as int, n as int),
                s@.subrange(start as int, i as int),
            ),
        decreases n - i,
    {
        let c = s.get_char(i);
        let ghost rest = s@.subrange(i as int, n as int);
        let ghost cur = s@.subrange(start as int, i as int);
        proof {
            assert(rest.drop_first() =~= s@.subrange(i + 1, n as int));
            assert(rest[0] == c);
        }
        if c == '\n' {
            let mut end = i;
            if end > start && s.get_char(end - 1) == '\r' {
                end = end - 1;
            }
            let line = String::from_str(s.substring_char(start, end));
            let ghost before = r@;
            proof {
                assert(line@ =~= strip_cr(cur));
            }
            r.push(line);
            proof {
                assert(views(r@) =~= views(before) + seq![strip_cr(cur)]);
                assert(s@.subrange(i + 1, i + 1) =~= Seq::<char>::empty());
                assert(views(r@) + lines_after(s@.subrange(i + 1, n as int), Seq::empty())
                    =~= views(before) + (seq![strip_cr(cur)] + lines_after(
                    rest.drop_first(),
                    Seq::empty(),
                )));
            }
            start = i + 1;
        } else {
            proof {
                assert(cur.push(c) =~= s@.subrange(start as int, i + 1));
            }
        }
        i += 1;
    }
    if start < n {
        let ghost before = r@;
        r.push(String::from_str(s.substring_char(start, n)));
        proof {
            assert(views(r@) =~= views(before) + seq![s@.subrange(start as int, n as int)]);
        }
    }
    proof {
        assert(s@.subrange(n as int, n as int) =~= Seq::<char>::empty());
        assert(views(r@) =~= views(r@) + Seq::<Seq<char>>::empty());
    }
    r
}


/// The fixed part of the system prompt.
pub const SYSTEM_PROMPT_BASE: &'static str = "You are an expert at writing clear, concise git commit messages following conventional commit format.

Rules for commit messages:
1. Use conventional commit format: type(scope): description
2. Types: feat, fix, docs, style, refactor, test, chore, perf, ci, build
3. Keep the first line under 50 characters
4. Use imperative mood (e.g., \"add\" not \"added\" or \"adds\")
5. Don't end the subject line with a period
6. If needed, add a blank line and more detailed explanation
7. Don't output in markdown format

Examples:
- feat: add user authentication system
- fix: resolve memory leak in data processing
- docs: update API documentation for v2.0
- refactor: simplify error handling logic";

/// The system prompt: the fixed rules, any additional rules, and the request.
pub open spec fn system_prompt_of(rules: Option<Seq<char>>) -> Seq<char> {
    SYSTEM_PROMPT_BASE@ + (match rules {
        Some(r) => "\n\nAdditional rules:\n"@ + r,
        None => Seq::empty(),
    }) + "\n\nGenerate a commit message based on the provided git diff."@
}

/// The user prompt: the request, any additional context, and the diff in a
/// fenced block.
pub open spec fn user_prompt_of(diff: Seq<char>, context: Option<Seq<char>>) -> Seq<char> {
    "Please generate a commit message for the following changes:"@ + (match context {
        Some(c) => "\n\nAdditional context about these changes:\n"@ + c,
        None => Seq::empty(),
    }) + "\n\n```diff\n"@ + diff + "\n```"@
}

/// Builds the system prompt for commit message generation.
pub fn create_system_prompt(additional_rules: Option<&str>) -> (r: String)
    ensures
        r@ == system_prompt_of(
            match additional_rules {
                Some(x) => Some(x@),
                None => None,
            },
        ),
{
    let mut prompt = String::from_str(SYSTEM_PROMPT_BASE);
    if let Some(rules) = additional_rules {
        prompt.append("\n\nAdditional rules:\n");
        prompt.append(rules);
    }
    prompt.append("\n\nGenerate a commit message based on the provided git diff.");
    proof {
        if let Some(x) = additional_rules {
            assert(prompt@ =~= system_prompt_of(Some(x@)));
        } else {
            assert(prompt@ =~= system_prompt_of(None));
        }
    }
    prompt
}

/// Builds the user prompt holding the diff and any additional context.
pub fn create_user_prompt(diff: &str, additional_context: Option<&str>) -> (r: String)
    ensures
        r@ == user_prompt_of(
            diff@,
            match additional_context {
                Some(x) => Some(x@),
                None => None,
            },
        ),
{
    let mut prompt = String::from_str(
        "Please generate a commit message for the following changes:",
    );
    if let Some(context) = additional_context {
        prompt.append("\n\nAdditional context about these changes:\n");
        prompt.append(context);
    }
    prompt.append("\n\n```diff\n");
    prompt.append(diff);
    prompt.append("\n```");
    proof {
        if let Some(x) = additional_context {
            assert(prompt@ =~= user_prompt_of(diff@, Some(x@)));
        } else {
            assert(prompt@ =~= user_prompt_of(diff@, None));
        }
    }
    prompt
}

/// The text added to a system prompt for additional rules.
pub open spec fn rules_part(rules: Option<Seq<char>>) -> Seq<char> {
    match rules {
        Some(r) => "\n\nAdditional rules:\n"@ + r,
        None => Seq::empty(),
    }
}

/// The text added to a user prompt for additional context.
pub open spec fn context_part(context: Option<Seq<char>>) -> Seq<char> {
    match context {
        Some(c) => "\n\nAdditional context about these changes:\n"@ + c,
        None => Seq::empty(),
    }
}

/// The view of an optional string slice.
pub open spec fn opt_str(o: Option<&str>) -> Option<Seq<char>> {
    match o {
        Some(x) => Some(x@),
        None => None,
    }
}

/// The system and user prompts: from the configured templates when there are
/// any (the diff replacing each `{{diff}}` of the user template), else the
/// built-in prompts; additional rules and context are appended either way.
pub fn build_prompts(
    templates: Option<&PromptTemplates>,
    diff: &str,
    additional_rules: Option<&str>,
    additional_context: Option<&str>,
) -> (r: (String, String))
    ensures
        match templates {
            Some(t) => r.0@ == t.system@ + rules_part(opt_str(additional_rules)) && r.1@
                == replace_all(t.user@, diff_placeholder(), diff@) + context_part(
                opt_str(additional_context),
            ),
            None => r.0@ == system_prompt_of(opt_str(additional_rules)) && r.1@ == user_prompt_of(
                diff@,
                opt_str(additional_context),
            ),
        },
{
    match templates {
        None => (
            create_system_prompt(additional_rules),
            create_user_prompt(diff, additional_context),
        ),
        Some(t) => {
            let mut system = t.system.clone();
            if let Some(rules) = additional_rules {
                system.append("\n\nAdditional rules:\n");
                system.append(rules);
            }
            let mut user = render_template(t.user.as_str(), diff);
            if let Some(context) = additional_context {
                user.append("\n\nAdditional context about these changes:\n");
                user.append(context);
            }
            proof {
                if let Some(x) = additional_rules {
                    assert(system@ =~= t.system@ + rules_part(Some(x@)));
                } else {
                    assert(system@ =~= t.system@ + rules_part(None));
                }
                if let Some(x) = additional_context {
                    assert(user@ =~= replace_all(t.user@, diff_placeholder(), diff@)
                        + context_part(Some(x@)));
                } else {
                    assert(user@ =~= replace_all(t.user@, diff_placeholder(), diff@)
                        + context_part(None));
                }
            }
            (system, user)
        },
    }
}

/// `s` with every occurrence of `pat`, scanning left to right, replaced by `rep`.
pub open spec fn replace_all(s: Seq<char>, pat: Seq<char>, rep: Seq<char>) -> Seq<char>
    decreases s.len(),
{
    if s.len() == 0 {
        Seq::empty()
    } else if pat.len() > 0 && pat.len() <= s.len() && s.subrange(0, pat.len() as int) == pat {
        rep + replace_all(s.subrange(pat.len() as int, s.len() as int), pat, rep)
    } else {
        seq![s[0]] + replace_all(s.drop_first(), pat, rep)
    }
}

/// The placeholder that a user prompt template holds for the diff.
pub open spec fn diff_placeholder() -> Seq<char> {
    seq!['{', '{', 'd', 'i', 'f', 'f', '}', '}']
}

/// Fills a prompt template: every `{{diff}}` is replaced by the diff verbatim.
pub fn render_template(template: &str, diff: &str) -> (r: String)
    ensures
        r@ == replace_all(template@, diff_placeholder(), diff@),
{
    let t = to_chars(template);
    let n = t.len();
    let mut r = String::new();
    let mut i: usize = 0;
    proof {
        assert(t@.subrange(0, n as int) =~= t@);
    }
    while i < n
        invariant
            n == t@.len(),
            t@ == template@,
            i <= n,
            r@ + replace_all(t@.subrange(i as int, n as int), diff_placeholder(), diff@)
                == replace_all(template@, diff_placeholder(), diff@),
        decreases n - i,
    {
        let ghost rest = t@.subrange(i as int, n as int);
        let ghost before = r@;
        if n - i >= 8 && t[i] == '{' && t[i + 1] == '{' && t[i + 2] == 'd' && t[i + 3] == 'i'
            && t[i + 4] == 'f' && t[i + 5] == 'f' && t[i + 6] == '}' && t[i + 7] == '}' {
            proof {
                assert(rest.subrange(0, 8) =~= diff_placeholder());
                assert(rest.subrange(8, rest.len() as int) =~= t@.subrange(i + 8, n as int));
            }
            r.append(diff);
            proof {
                assert(r@ + replace_all(t@.subrange(i + 8, n as int), diff_placeholder(), diff@)
                    =~= before + replace_all(rest, diff_placeholder(), diff@));
            }
            i = i + 8;
        } else {
            proof {
                if rest.len() >= 8 && rest.subrange(0, 8) == diff_placeholder() {
                    assert(rest.subrange(0, 8)[0] == t@[i as int]);
                    assert(rest.subrange(0, 8)[1] == t@[i + 1]);
                    assert(rest.subrange(0, 8)[2] == t@[i + 2]);
                    assert(rest.subrange(0, 8)[3] == t@[i + 3]);
                    assert(rest.subrange(0, 8)[4] == t@[i + 4]);
                    assert(rest.subrange(0, 8)[5] == t@[i + 5]);
                    assert(rest.subrange(0, 8)[6] == t@[i + 6]);
                    assert(rest.subrange(0, 8)[7] == t@[i + 7]);
                }
                assert(rest.drop_first() =~= t@.subrange(i + 1, n as int));
            }
            r.append(template.substring_char(i, i + 1));
            proof {
                assert(r@ + replace_all(t@.subrange(i + 1, n as int), diff_placeholder(), diff@)
                    =~= before + replace_all(rest, diff_placeholder(), diff@));
            }
            i = i + 1;
        }
    }
    proof {
        assert(r@ + Seq::<char>::empty() =~= r@);
    }
    r
}


/// Whether a new commit is created or the last one rewritten.
#[derive(Debug, Clone, Copy, PartialEq, Eq, Structural)]
pub enum CommitMode {
    Normal,
    Amend,
}

/// Why a run of the workflow stopped.
#[derive(Debug, Clone)]
pub enum WorkflowError {
    /// Amend was asked for, but the repository has no commit
    NoCommits,
    /// There is nothing to describe once excluded files are left out
    NoChanges,
    /// The provider returned no choice
    EmptyResponse,
    /// The provider named on the command line is unknown
    InvalidProvider(String),
    /// The gateway failed
    Gateway(GatewayError),
    /// A git command failed before any commit was attempted
    Git(String),
    /// Creating the commit failed
    Commit(String),
    /// Amending the commit failed
    Amend(String),
}

impl WorkflowError {
    /// The message shown to a user.
    pub fn describe(&self) -> (r: String)
        ensures
            r@ == match *self {
                WorkflowError::NoCommits => "No commits found to amend message for"@,
                WorkflowError::NoChanges => "No changes detected. Please stage some changes first."@,
                WorkflowError::EmptyResponse => "No content in response"@,
                WorkflowError::InvalidProvider(m) => m@,
                WorkflowError::Gateway(e) => error_heading(e) + error_text(e),
                WorkflowError::Git(m) => "Git command failed: "@ + m@,
                WorkflowError::Commit(m) => "Failed to create commit: "@ + m@,
                WorkflowError::Amend(m) => "Failed to amend commit: "@ + m@,
            },
    {
        match self {
            WorkflowError::NoCommits => String::from_str("No commits found to amend message for"),
            WorkflowError::NoChanges => String::from_str(
                "No changes detected. Please stage some changes first.",
            ),
            WorkflowError::EmptyResponse => String::from_str("No content in response"),
            WorkflowError::InvalidProvider(m) => m.clone(),
            WorkflowError::Gateway(e) => e.describe(),
            WorkflowError::Git(m) => String::from_str("Git command failed: ").concat(m.as_str()),
            WorkflowError::Commit(m) => String::from_str("Failed to create commit: ").concat(
                m.as_str(),
            ),
            WorkflowError::Amend(m) => String::from_str("Failed to amend commit: ").concat(
                m.as_str(),
            ),
        }
    }
}

/// Checks what the chosen mode needs before anything is sent: staged changes
/// for a new commit, an existing commit for an amend.
pub fn check_preconditions(mode: CommitMode, has_staged_changes: bool, has_head: bool) -> (r: Result<
    (),
    WorkflowError,
>)
    ensures
        mode == CommitMode::Normal ==> (r is Ok <==> has_staged_changes),
        mode == CommitMode::Amend ==> (r is Ok <==> has_head),
        r matches Err(e) ==> (if mode == CommitMode::Normal {
            e is NoChanges
        } else {
            e is NoCommits
        }),
{
    match mode {
        CommitMode::Normal => if has_staged_changes {
            Ok(())
        } else {
            Err(WorkflowError::NoChanges)
        },
        CommitMode::Amend => if has_head {
            Ok(())
        } else {
            Err(WorkflowError::NoCommits)
        },
    }
}

/// The files whose changes go into the diff: those that no pattern excludes;
/// none left means there is nothing to describe.
pub fn select_diff_files(files: Vec<String>, exclude_patterns: Vec<String>) -> (r: Result<
    Vec<String>,
    WorkflowError,
>)
    ensures
        r is Err <==> kept_files(views(files@), views(exclude_patterns@)).len() == 0,
        r matches Err(e) ==> e is NoChanges,
        r matches Ok(v) ==> views(v@) == kept_files(views(files@), views(exclude_patterns@)),
{
    let kept = filter_excluded_files(files, exclude_patterns);
    if kept.len() == 0 {
        proof {
            assert(views(kept@).len() == kept@.len());
        }
        Err(WorkflowError::NoChanges)
    } else {
        Ok(kept)
    }
}

/// The git arguments that print the diff of `files`: the staged changes, or
/// the last commit against its parent.
pub fn diff_args(mode: CommitMode, files: &Vec<String>) -> (r: Vec<String>)
    ensures
        views(r@) == (if mode == CommitMode::Normal {
            seq!["diff"@, "--staged"@, "--"@]
        } else {
            seq!["show"@, "--format="@, "HEAD"@, "--"@]
        }) + views(files@),
{
    let mut r: Vec<String> = Vec::new();
    match mode {
        CommitMode::Normal => {
            r.push(String::from_str("diff"));
            r.push(String::from_str("--staged"));
            r.push(String::from_str("--"));
        },
        CommitMode::Amend => {
            r.push(String::from_str("show"));
            r.push(String::from_str("--format="));
            r.push(String::from_str("HEAD"));
            r.push(String::from_str("--"));
        },
    }
    let ghost head = views(r@);
    proof {
        if mode == CommitMode::Normal {
            assert(head =~= seq!["diff"@, "--staged"@, "--"@]);
        } else {
            assert(head =~= seq!["show"@, "--format="@, "HEAD"@, "--"@]);
        }
    }
    let mut i: usize = 0;
    while i < files.len()
        invariant
            i <= files.len(),
            views(r@) == head + views(files@).subrange(0, i as int),
        decreases files.len() - i,
    {
        let ghost before = r@;
        r.push(files[i].clone());
        proof {
            assert(views(r@) =~= views(before).push(files@[i as int]@));
            assert(views(files@).subrange(0, i + 1) =~= views(files@).subrange(0, i as int).push(
                files@[i as int]@,
            ));
        }
        i += 1;
    }
    proof {
        assert(views(files@).subrange(0, files.len() as int) =~= views(files@));
    }
    r
}

/// Accepts the diff of the staged changes unless it is blank.
pub fn accept_diff(diff: String) -> (r: Result<String, WorkflowError>)
    ensures
        r is Err <==> trim_of(diff@).len() == 0,
        r matches Ok(d) ==> d@ == diff@,
        r matches Err(e) ==> e is NoChanges,
{
    let t = trimmed(diff.as_str());
    if t.as_str().unicode_len() == 0 {
        Err(WorkflowError::NoChanges)
    } else {
        Ok(diff)
    }
}

/// The line that separates the last commit's diff from changes staged since.
pub const STAGED_MARKER: &'static str = "\n\n=== Additional staged changes ===\n\n";

/// The diff described when amending: the last commit's diff, then the changes
/// staged since, if there are any, after a marker. A file in both parts
/// appears twice.
pub fn combine_amend_diff(last_commit_diff: String, staged_diff: String) -> (r: String)
    ensures
        r@ == (if staged_diff@.len() == 0 {
            last_commit_diff@
        } else {
            last_commit_diff@ + STAGED_MARKER@ + staged_diff@
        }),
{
    if staged_diff.as_str().unicode_len() == 0 {
        last_commit_diff
    } else {
        last_commit_diff.concat(STAGED_MARKER).concat(staged_diff.as_str())
    }
}

/// The commit message in a response: the first choice's content without
/// surrounding whitespace.
pub fn extract_commit_message(response: &ChatResponse) -> (r: Result<String, WorkflowError>)
    ensures
        r is Err <==> response.choices@.len() == 0,
        r matches Ok(m) ==> m@ == trim_of(response.choices@[0].message.content@),
        r matches Err(e) ==> e is EmptyResponse,
{
    match response.content() {
        Some(c) => Ok(trimmed(c)),
        None => Err(WorkflowError::EmptyResponse),
    }
}

/// How a `provider` or `provider/model` argument is read.
pub open spec fn model_spec_of(s: Seq<char>) -> Result<(ProviderType, Option<Seq<char>>), Seq<char>> {
    let i = find_first(s, seq!['/']);
    if i >= 0 && !s.subrange(i + 1, s.len() as int).contains('/') {
        let head = s.subrange(0, i);
        match provider_of_name(lower_of(head)) {
            Some(t) => Ok((t, Some(s.subrange(i + 1, s.len() as int)))),
            None => Err("Invalid provider: "@ + head),
        }
    } else {
        match provider_of_name(lower_of(s)) {
            Some(t) => Ok((t, None)),
            None => Err("Invalid provider: "@ + s),
        }
    }
}

/// Reads a `provider` or `provider/model` argument; with exactly one `/` the
/// part after it names the model.
pub fn parse_model_spec(spec: &str) -> (r: Result<(ProviderType, Option<String>), String>)
    ensures
        match model_spec_of(spec@) {
            Ok((t, m)) => r matches Ok((t2, m2)) && t2 == t && (m2 is Some <==> m is Some) && (
            m2 matches Some(x) ==> x@ == m->0),
            Err(msg) => r matches Err(e) && e@ == msg,
        },
{
    let c = to_chars(spec);
    let n = c.len();
    let slash: Vec<char> = vec!['/'];
    proof {
        assert(slash@ =~= seq!['/']);
        lemma_find_from(c@, slash@, 0);
    }
    if let Some(i) = find(&c, &slash) {
        let rest = crate::text::slice(&c, i + 1, n);
        if !has_char(&rest, '/') {
            let head = spec.substring_char(0, i);
            return match ProviderType::parse(head) {
                Ok(t) => Ok((t, Some(String::from_str(spec.substring_char(i + 1, n))))),
                Err(_) => Err(String::from_str("Invalid provider: ").concat(head)),
            };
        }
    }
    match ProviderType::parse(spec) {
        Ok(t) => Ok((t, None)),
        Err(_) => Err(String::from_str("Invalid provider: ").concat(spec)),
    }
}


/// The flags that shape one run of the generator.
#[derive(Debug, Clone, Copy)]
pub struct GenerateOptions {
    /// Create a new commit or amend the last one
    pub mode: CommitMode,
    /// Show the message without touching the repository
    pub dry_run: bool,
    /// Stage every change before looking at the repository
    pub add_all: bool,
}

/// Where a run of the generator stands.
#[derive(Debug, Clone, Copy, PartialEq, Eq, Structural)]
pub enum GenerateState {
    Idle,
    AcquiringDiff,
    Generating,
    DryRunDone,
    Committing,
    Done,
    Failed,
}

/// What the surrounding program reports back after performing an action.
#[derive(Debug, Clone)]
pub enum GenerateEvent {
    /// The run begins
    Started,
    /// The diff to describe was read
    DiffAcquired(String),
    /// The provider produced this message
    MessageGenerated(String),
    /// The commit or amend succeeded
    Committed,
    /// The last action failed
    Failure(WorkflowError),
}

/// What the surrounding program is to do next.
#[derive(Debug, Clone)]
pub enum GenerateAction {
    /// Stage everything if asked to, check the preconditions, and read the diff
    AcquireDiff { stage_all: bool, mode: CommitMode },
    /// Ask the provider for a message describing this diff
    RequestMessage(String),
    /// Show the message; nothing is committed
    ShowMessage(String),
    /// Create a commit with this message
    Commit(String),
    /// Amend the last commit with this message
    Amend(String),
    /// Report that the commit or amend succeeded
    ReportSuccess { mode: CommitMode },
    /// Report the failure
    ReportFailure(WorkflowError),
    /// The event does not apply in this state
    Ignore,
}

impl GenerateState {
    /// No further event changes the state.
    pub open spec fn is_terminal(self) -> bool {
        self == GenerateState::DryRunDone || self == GenerateState::Done || self
            == GenerateState::Failed
    }
}

/// One step of the generator: from the current state and the outcome of the
/// last action to the next state and action.
pub fn next_step(opts: &GenerateOptions, state: GenerateState, event: GenerateEvent) -> (r: (
    GenerateState,
    GenerateAction,
))
    ensures
        state == GenerateState::Idle && event is Started ==> (r.0 == GenerateState::AcquiringDiff
            && r.1 == (GenerateAction::AcquireDiff { stage_all: opts.add_all, mode: opts.mode })),
        state == GenerateState::AcquiringDiff && event is DiffAcquired ==> (r.0
            == GenerateState::Generating && r.1 == GenerateAction::RequestMessage(
            event->DiffAcquired_0,
        )),
        state == GenerateState::Generating && event is MessageGenerated && opts.dry_run ==> (r.0
            == GenerateState::DryRunDone && r.1 == GenerateAction::ShowMessage(
            event->MessageGenerated_0,
        )),
        state == GenerateState::Generating && event is MessageGenerated && !opts.dry_run
            && opts.mode == CommitMode::Normal ==> (r.0 == GenerateState::Committing && r.1
            == GenerateAction::Commit(event->MessageGenerated_0)),
        state == GenerateState::Generating && event is MessageGenerated && !opts.dry_run
            && opts.mode == CommitMode::Amend ==> (r.0 == GenerateState::Committing && r.1
            == GenerateAction::Amend(event->MessageGenerated_0)),
        state == GenerateState::Committing && event is Committed ==> (r.0 == GenerateState::Done
            && r.1 == (GenerateAction::ReportSuccess { mode: opts.mode })),
        !state.is_terminal() && event is Failure ==> (r.0 == GenerateState::Failed && r.1
            == GenerateAction::ReportFailure(event->Failure_0)),
        !(state == GenerateState::Idle && event is Started) && !(state
            == GenerateState::AcquiringDiff && event is DiffAcquired) && !(state
            == GenerateState::Generating && event is MessageGenerated) && !(state
            == GenerateState::Committing && event is Committed) && !(!state.is_terminal()
            && event is Failure) ==> (r.0 == state && r.1 is Ignore),
{
    match (state, event) {
        (GenerateState::Idle, GenerateEvent::Started) => (
            GenerateState::AcquiringDiff,
            GenerateAction::AcquireDiff { stage_all: opts.add_all, mode: opts.mode },
        ),
        (GenerateState::AcquiringDiff, GenerateEvent::DiffAcquired(d)) => (
            GenerateState::Generating,
            GenerateAction::RequestMessage(d),
        ),
        (GenerateState::Generating, GenerateEvent::MessageGenerated(m)) => {
            if opts.dry_run {
                (GenerateState::DryRunDone, GenerateAction::ShowMessage(m))
            } else {
                match opts.mode {
                    CommitMode::Normal => (GenerateState::Committing, GenerateAction::Commit(m)),
                    CommitMode::Amend => (GenerateState::Committing, GenerateAction::Amend(m)),
                }
            }
        },
        (GenerateState::Committing, GenerateEvent::Committed) => (
            GenerateState::Done,
            GenerateAction::ReportSuccess { mode: opts.mode },
        ),
        (GenerateState::Idle, GenerateEvent::Failure(e)) => (
            GenerateState::Failed,
            GenerateAction::ReportFailure(e),
        ),
        (GenerateState::AcquiringDiff, GenerateEvent::Failure(e)) => (
            GenerateState::Failed,
            GenerateAction::ReportFailure(e),
        ),
        (GenerateState::Generating, GenerateEvent::Failure(e)) => (
            GenerateState::Failed,
            GenerateAction::ReportFailure(e),
        ),
        (GenerateState::Committing, GenerateEvent::Failure(e)) => (
            GenerateState::Failed,
            GenerateAction::ReportFailure(e),
        ),
        (s, _) => (s, GenerateAction::Ignore),
    }
}

} // verus!
