use fuckmit::providers::ProviderType;
use fuckmit::settings::{
    config_display_name, config_file_name, config_list_entry, get_commit_config,
    is_config_file, pad_right, parse_property_path, provider_row, AuthConfig, CommitConfig,
    ProviderConfig,
};
use fuckmit::version::version_label;
use fuckmit::types::{ChatChoice, ChatMessage, ChatResponse, Usage};
use fuckmit::workflow::{
    accept_diff, build_prompts, check_preconditions, combine_amend_diff, create_system_prompt,
    create_user_prompt, diff_args, extract_commit_message, next_step, parse_model_spec,
    render_template, select_diff_files, split_lines, CommitMode, GenerateAction, GenerateEvent,
    GenerateOptions, GenerateState, WorkflowError, STAGED_MARKER, SYSTEM_PROMPT_BASE,
};

fn s(x: &str) -> String {
    x.to_string()
}

fn response_with(content: &str) -> ChatResponse {
    ChatResponse {
        id: s("r"),
        object: s("chat.completion"),
        created: 1,
        model: s("m"),
        choices: vec![ChatChoice {
            index: 0,
            message: ChatMessage::assistant(s(content)),
            finish_reason: None,
        }],
        usage: Usage { prompt_tokens: 0, completion_tokens: 0, total_tokens: 0 },
        system_fingerprint: None,
    }
}

#[test]
fn dry_run_prints_exactly_the_provider_content() {
    let opts = GenerateOptions { mode: CommitMode::Normal, dry_run: true, add_all: false };
    let (st, act) = next_step(&opts, GenerateState::Idle, GenerateEvent::Started);
    assert_eq!(st, GenerateState::AcquiringDiff);
    assert!(matches!(act, GenerateAction::AcquireDiff { stage_all: false, mode: CommitMode::Normal }));
    assert!(check_preconditions(CommitMode::Normal, true, true).is_ok());
    let files = select_diff_files(vec![s("a.txt")], vec![]).unwrap();
    assert_eq!(files, vec![s("a.txt")]);
    let diff = accept_diff(s("diff --git a/a.txt b/a.txt\n+hello\n")).unwrap();
    let (st, act) = next_step(&opts, st, GenerateEvent::DiffAcquired(diff.clone()));
    assert_eq!(st, GenerateState::Generating);
    match act {
        GenerateAction::RequestMessage(d) => assert_eq!(d, diff),
        _ => panic!("expected a request"),
    }
    let message = extract_commit_message(&response_with("feat: say hello")).unwrap();
    let (st, act) = next_step(&opts, st, GenerateEvent::MessageGenerated(message));
    assert_eq!(st, GenerateState::DryRunDone);
    match act {
        GenerateAction::ShowMessage(m) => assert_eq!(m, "feat: say hello"),
        _ => panic!("expected the message to be shown"),
    }
    let (st2, act2) = next_step(&opts, st, GenerateEvent::Committed);
    assert_eq!(st2, GenerateState::DryRunDone);
    assert!(matches!(act2, GenerateAction::Ignore));
}

#[test]
fn no_staged_changes_fails_before_any_request() {
    let opts = GenerateOptions { mode: CommitMode::Normal, dry_run: false, add_all: false };
    let err = check_preconditions(CommitMode::Normal, false, true).unwrap_err();
    assert!(matches!(err, WorkflowError::NoChanges));
    let (st, _) = next_step(&opts, GenerateState::Idle, GenerateEvent::Started);
    let (st, act) = next_step(&opts, st, GenerateEvent::Failure(err));
    assert_eq!(st, GenerateState::Failed);
    assert!(matches!(act, GenerateAction::ReportFailure(WorkflowError::NoChanges)));
    let (st, act) = next_step(&opts, st, GenerateEvent::MessageGenerated(s("late")));
    assert_eq!(st, GenerateState::Failed);
    assert!(matches!(act, GenerateAction::Ignore));
    assert!(matches!(accept_diff(s("  \n\t")), Err(WorkflowError::NoChanges)));
    assert!(matches!(
        select_diff_files(vec![s("dist/a.js")], vec![s("dist/**")]),
        Err(WorkflowError::NoChanges)
    ));
}

#[test]
fn amend_without_commits_fails() {
    assert!(matches!(
        check_preconditions(CommitMode::Amend, true, false),
        Err(WorkflowError::NoCommits)
    ));
    assert!(check_preconditions(CommitMode::Amend, false, true).is_ok());
}

#[test]
fn commit_and_amend_actions() {
    let normal = GenerateOptions { mode: CommitMode::Normal, dry_run: false, add_all: true };
    let (st, act) = next_step(&normal, GenerateState::Generating, GenerateEvent::MessageGenerated(s("m")));
    assert_eq!(st, GenerateState::Committing);
    assert!(matches!(act, GenerateAction::Commit(ref m) if m == "m"));
    let (st, act) = next_step(&normal, st, GenerateEvent::Committed);
    assert_eq!(st, GenerateState::Done);
    assert!(matches!(act, GenerateAction::ReportSuccess { mode: CommitMode::Normal }));
    let amend = GenerateOptions { mode: CommitMode::Amend, dry_run: false, add_all: false };
    let (_, act) = next_step(&amend, GenerateState::Generating, GenerateEvent::MessageGenerated(s("m2")));
    assert!(matches!(act, GenerateAction::Amend(ref m) if m == "m2"));
}

#[test]
fn git_arguments_and_lines() {
    let files = vec![s("a.txt"), s("b c.txt")];
    assert_eq!(
        diff_args(CommitMode::Normal, &files),
        vec![s("diff"), s("--staged"), s("--"), s("a.txt"), s("b c.txt")]
    );
    assert_eq!(
        diff_args(CommitMode::Amend, &files),
        vec![s("show"), s("--format="), s("HEAD"), s("--"), s("a.txt"), s("b c.txt")]
    );
    assert_eq!(split_lines("a\r\nb\n\nc"), vec![s("a"), s("b"), s(""), s("c")]);
    assert_eq!(split_lines("x\n"), vec![s("x")]);
    assert_eq!(split_lines(""), Vec::<String>::new());
}

#[test]
fn amend_diff_shows_staged_changes_after_marker() {
    assert_eq!(combine_amend_diff(s("L"), s("")), "L");
    assert_eq!(
        combine_amend_diff(s("L"), s("S")),
        format!("L{}S", STAGED_MARKER)
    );
}

#[test]
fn commit_message_is_trimmed_first_choice() {
    assert_eq!(
        extract_commit_message(&response_with("  fix: x \n")).unwrap(),
        "fix: x"
    );
    let mut empty = response_with("");
    empty.choices.clear();
    assert!(matches!(
        extract_commit_message(&empty),
        Err(WorkflowError::EmptyResponse)
    ));
}

#[test]
fn prompts_are_assembled() {
    let sys = create_system_prompt(None);
    assert!(sys.starts_with(SYSTEM_PROMPT_BASE));
    assert!(sys.ends_with("\n\nGenerate a commit message based on the provided git diff."));
    let sys = create_system_prompt(Some("be brief"));
    assert!(sys.contains("\n\nAdditional rules:\nbe brief\n\n"));
    assert_eq!(
        create_user_prompt("+x", None),
        "Please generate a commit message for the following changes:\n\n```diff\n+x\n```"
    );
    assert_eq!(
        create_user_prompt("+x", Some("ctx")),
        "Please generate a commit message for the following changes:\n\nAdditional context about these changes:\nctx\n\n```diff\n+x\n```"
    );
    assert_eq!(render_template("D: {{diff}} / {{diff}}", "+a"), "D: +a / +a");
    assert_eq!(render_template("{{dif}}", "+a"), "{{dif}}");
}

#[test]
fn model_argument_is_parsed() {
    assert_eq!(
        parse_model_spec("openai/gpt-4").unwrap(),
        (ProviderType::OpenAI, Some(s("gpt-4")))
    );
    assert_eq!(parse_model_spec("Azure").unwrap(), (ProviderType::Azure, None));
    assert_eq!(parse_model_spec("nope/x").unwrap_err(), "Invalid provider: nope");
    assert_eq!(parse_model_spec("a/b/c").unwrap_err(), "Invalid provider: a/b/c");
}

#[test]
fn auth_config_tracks_providers() {
    let mut auth = AuthConfig::new();
    assert!(!auth.has_providers());
    assert!(auth.get_active_provider().is_err());
    auth.add_provider("openai", "k1").unwrap();
    auth.add_provider("qwen", "k2").unwrap();
    assert_eq!(auth.get_active_provider().unwrap(), "openai");
    assert_eq!(auth.get_active_provider_name(), Some("openai"));
    assert_eq!(auth.set_active_provider("qwen").unwrap(), true);
    assert_eq!(auth.set_active_provider("azure").unwrap(), false);
    assert_eq!(auth.get_active_provider_name(), Some("qwen"));
    auth.add_provider("openai", "k3").unwrap();
    assert_eq!(auth.get_provider_config("openai").unwrap().api_key, "k3");
    assert_eq!(auth.get_providers().len(), 2);
    auth.set_provider_property("qwen", "model", "qwen-max").unwrap();
    auth.set_provider_property("qwen", "endpoint", "https://q").unwrap();
    let q = auth.get_provider_config("qwen").unwrap();
    assert_eq!(q.model, Some(s("qwen-max")));
    assert_eq!(q.endpoint, Some(s("https://q")));
    assert_eq!(q.api_key, "k2");
    assert_eq!(
        auth.set_provider_property("qwen", "color", "x").unwrap_err(),
        "Invalid property: color"
    );
    assert_eq!(
        auth.set_provider_property("none", "model", "x").unwrap_err(),
        "Provider not found"
    );
    assert_eq!(
        auth.get_provider_config("none").unwrap_err(),
        "Provider not found: none"
    );
}

#[test]
fn commit_config_defaults() {
    let c = CommitConfig::new(vec![s("*.lock")]);
    assert_eq!(c.exclude, vec![s("*.lock")]);
    assert!(c.prompt.user.contains("{{diff}}"));
    let d = get_commit_config(None);
    assert!(d.exclude.is_empty());
    let found = get_commit_config(Some(c.clone()));
    assert_eq!(found.exclude, vec![s("*.lock")]);
}

#[test]
fn configuration_file_names() {
    assert!(is_config_file("default.fuckmit.yml"));
    assert!(is_config_file("x.fuckmit.yaml"));
    assert!(!is_config_file("x.yml"));
    assert_eq!(config_display_name("custom1.fuckmit.yml"), "custom1");
    assert_eq!(config_display_name("c.fuckmit.yaml"), "c");
    assert_eq!(config_display_name("notes.txt"), "notes.txt");
    assert_eq!(config_file_name("custom"), "custom.fuckmit.yml");
    assert_eq!(config_file_name("custom.fuckmit.yaml"), "custom.fuckmit.yaml");
    assert_eq!(parse_property_path("openai.model").unwrap(), (s("openai"), s("model")));
    assert!(parse_property_path("openai").is_err());
    assert_eq!(
        parse_property_path("a.b.c").unwrap_err(),
        "Invalid property path format. Use provider.property"
    );
}

#[test]
fn version_strings() {
    assert_eq!(version_label(Some(s("v1.2.0")), Some(s("abc1234")), true), "v1.2.0");
    assert_eq!(version_label(Some(s("v1.2.0")), Some(s("abc1234")), false), "v1.2.0-abc1234");
    assert_eq!(version_label(Some(s("v1.2.0")), None, false), "v1.2.0");
    assert_eq!(version_label(None, Some(s("abc1234")), false), "v0.1.0-abc1234");
    assert_eq!(version_label(None, None, false), "v0.1.0");
}

#[test]
fn listing_lines() {
    assert_eq!(config_list_entry("custom.fuckmit.yml", Some("custom.fuckmit.yml")), "  custom (active)");
    assert_eq!(config_list_entry("default.fuckmit.yml", Some("custom.fuckmit.yml")), "  default");
    assert_eq!(config_list_entry("x.fuckmit.yaml", None), "  x");
    assert_eq!(pad_right("ab", 4), "ab  ");
    assert_eq!(pad_right("abcdef", 4), "abcdef");
    let row = provider_row(
        true,
        "openai",
        &ProviderConfig { api_key: s("k"), model: None, endpoint: Some(s("https://e")) },
    );
    assert_eq!(row, format!("{:<2} {:<15} {:<25} {}", "*", "openai", "<not set>", "https://e"));
}

#[test]
fn auth_config_parts_round_trip() {
    let parts = vec![
        (s("openai"), ProviderConfig { api_key: s("a"), model: None, endpoint: None }),
        (s("openai"), ProviderConfig { api_key: s("b"), model: None, endpoint: None }),
    ];
    let auth = AuthConfig::from_parts(parts, None);
    assert_eq!(auth.get_provider_config("openai").unwrap().api_key, "b");
    assert_eq!(auth.get_active_provider_name(), None);
    let (entries, active) = auth.into_parts();
    assert_eq!(entries.len(), 2);
    assert_eq!(active, None);
}

#[test]
fn workflow_errors_are_described() {
    assert_eq!(WorkflowError::NoCommits.describe(), "No commits found to amend message for");
    assert_eq!(WorkflowError::Commit(s("x")).describe(), "Failed to create commit: x");
    assert_eq!(
        WorkflowError::Gateway(fuckmit::error::GatewayError::Timeout(s("t"))).describe(),
        "Timeout error: t"
    );
}

#[test]
fn prompts_from_templates_or_built_in() {
    let templates = fuckmit::settings::PromptTemplates {
        system: s("Be terse."),
        user: s("Changes:\n{{diff}}"),
    };
    let (sys, user) = build_prompts(Some(&templates), "+a", Some("r1"), Some("c1"));
    assert_eq!(sys, "Be terse.\n\nAdditional rules:\nr1");
    assert_eq!(user, "Changes:\n+a\n\nAdditional context about these changes:\nc1");
    let (sys, user) = build_prompts(None, "+a", None, None);
    assert_eq!(sys, create_system_prompt(None));
    assert_eq!(user, create_user_prompt("+a", None));
}
