use talkcody_llm::git_message_service::{GitMessageContext, GitMessageService};

#[test]
fn post_process_takes_the_first_line_trimmed() {
    let service = GitMessageService::new();
    assert_eq!(service.post_process_message("  feat: add x  \nmore\n"), "feat: add x");
    assert_eq!(service.post_process_message("\n\n fix: y\r\nbody"), "fix: y");
    assert_eq!(service.post_process_message("   \n\t "), "");
    assert_eq!(service.post_process_message(""), "");
    assert_eq!(service.post_process_message("one"), "one");
}

#[test]
fn prepare_rejects_a_blank_diff() {
    let service = GitMessageService::new();
    let context = GitMessageContext {
        diff_text: "  \n ".to_string(),
        user_input: None,
        model: None,
    };
    assert_eq!(service.prepare(&context), Err("No diff text provided".to_string()));
}

#[test]
fn prepare_builds_the_prompt() {
    let service = GitMessageService::new();
    let context = GitMessageContext {
        diff_text: "+a".to_string(),
        user_input: Some("tidy".to_string()),
        model: None,
    };
    let prompt = service.prepare(&context).unwrap();
    assert!(prompt.starts_with(
        "You are an AI assistant that generates concise and meaningful git commit messages following conventional commit format.\n\nUser task description: \"tidy\"\nFile changes (git diff):\n+a\n\nGenerate a concise git commit message"
    ));
    assert!(prompt.ends_with("Provide ONLY the commit message without any explanations or formatting."));
    let bare = GitMessageContext { diff_text: "+a".to_string(), user_input: None, model: None };
    let prompt = service.build_prompt(&bare);
    assert!(prompt.contains("format.\n\nFile changes (git diff):\n+a\n\n"));
    assert!(prompt.contains("5. Use imperative mood (e.g., \"add\", \"fix\", \"update\")\n\nExamples:\n- feat(auth)"));
}

#[test]
fn finish_rejects_an_empty_message() {
    let service = GitMessageService::new();
    assert_eq!(service.finish(" \n "), Err("Empty commit message generated".to_string()));
    let found = service.finish("chore: bump\n\ndetails").unwrap();
    assert_eq!(found.message, "chore: bump");
    assert!(found.suggestions.is_none());
}

#[test]
fn preferred_model_is_the_light_one() {
    assert_eq!(GitMessageService::preferred_model(), "gemini-2.5-flash-lite");
}

#[test]
fn commit_prompt_is_exact() {
    let service = GitMessageService::new();
    for user_input in [None, Some("tidy up".to_string())] {
        let context = GitMessageContext {
            diff_text: "diff --git a/x b/x\n+line".to_string(),
            user_input: user_input.clone(),
            model: None,
        };
        let user_input_section = user_input
            .as_ref()
            .map(|input| format!("User task description: \"{}\"\n", input))
            .unwrap_or_default();
        let expected = format!(
            "You are an AI assistant that generates concise and meaningful git commit messages following conventional commit format.\n\n\
             {}\
             File changes (git diff):\n\
             {}\n\n\
             Generate a concise git commit message that follows these guidelines:\n\
             1. Use conventional commit format: type(scope): description\n\
             2. Types: feat, fix, docs, style, refactor, test, chore\n\
             3. Keep the message under 72 characters for the subject line\n\
             4. Be specific about what was changed based on the actual diff content\n\
             5. Use imperative mood (e.g., \"add\", \"fix\", \"update\")\n\n\
             Examples:\n\
             - feat(auth): add user authentication system\n\
             - fix(api): resolve data validation error\n\
             - docs: update installation instructions\n\
             - refactor: simplify user service logic\n\n\
             Provide ONLY the commit message without any explanations or formatting.",
            user_input_section, context.diff_text
        );
        assert_eq!(service.build_prompt(&context), expected);
    }
}
