//! Commit messages: the prompt made of a diff, and the message taken out of
//! what the model answered.

use vstd::prelude::*;
use vstd::string::*;
use crate::text::{
    blank, drop_trailing_whitespace, first_line, is_blank, opt_view, owned, scan_line, slice,
    to_chars, trim_bounds, trimmed,
};

verus! {

/// What the caller knows when it asks for a commit message.
#[derive(Debug, Clone, PartialEq)]
pub struct GitMessageContext {
    pub diff_text: String,
    pub user_input: Option<String>,
    pub model: Option<String>,
}

/// A commit message, and alternatives where there are any.
#[derive(Debug, Clone, PartialEq)]
pub struct GitMessageResult {
    pub message: String,
    pub suggestions: Option<Vec<String>>,
}

/// How long a commit message may take to collect, in seconds.
pub const GIT_MESSAGE_TIMEOUT_SECS: u64 = 30;

/// The failure reported when the diff is blank.
pub open spec fn no_diff_message() -> Seq<char> {
    "No diff text provided"@
}

/// The failure reported when the model's answer holds no message.
pub open spec fn empty_message() -> Seq<char> {
    "Empty commit message generated"@
}

/// The part of the prompt that states the user's task, where one is given.
pub open spec fn user_input_section(user_input: Option<Seq<char>>) -> Seq<char> {
    match user_input {
        Some(input) => "User task description: \""@ + input + "\"\n"@,
        None => Seq::empty(),
    }
}

/// The prompt for a commit message.
pub open spec fn spec_prompt(user_input: Option<Seq<char>>, diff_text: Seq<char>) -> Seq<char> {
    "You are an AI assistant that generates concise and meaningful git commit messages following conventional commit format.\n\n"@
        + user_input_section(user_input) + "File changes (git diff):\n"@ + diff_text
        + "\n\nGenerate a concise git commit message that follows these guidelines:\n1. Use conventional commit format: type(scope): description\n2. Types: feat, fix, docs, style, refactor, test, chore\n3. Keep the message under 72 characters for the subject line\n4. Be specific about what was changed based on the actual diff content\n5. Use imperative mood (e.g., \"add\", \"fix\", \"update\")\n\nExamples:\n- feat(auth): add user authentication system\n- fix(api): resolve data validation error\n- docs: update installation instructions\n- refactor: simplify user service logic\n\nProvide ONLY the commit message without any explanations or formatting."@
}

/// The message in an answer: the first line of the trimmed answer, trimmed.
pub open spec fn spec_post_process(raw: Seq<char>) -> Seq<char> {
    trimmed(first_line(trimmed(raw)))
}

/// Trimmed text does not start with whitespace.
pub proof fn lemma_trimmed_start(s: Seq<char>)
    ensures
        trimmed(s).len() > 0 ==> !crate::text::is_whitespace(trimmed(s)[0]),
    decreases s.len(),
{
    let skipped = crate::text::skip_leading_whitespace(s);
    lemma_skip_start(s);
    lemma_drop_prefix(skipped);
}

/// Text whose leading whitespace was skipped does not start with whitespace.
pub proof fn lemma_skip_start(s: Seq<char>)
    ensures
        crate::text::skip_leading_whitespace(s).len() > 0 ==> !crate::text::is_whitespace(
            crate::text::skip_leading_whitespace(s)[0],
        ),
    decreases s.len(),
{
    if s.len() > 0 && crate::text::is_whitespace(s[0]) {
        lemma_skip_start(s.drop_first());
    }
}

/// Dropping trailing whitespace leaves a prefix.
pub proof fn lemma_drop_prefix(s: Seq<char>)
    ensures
        drop_trailing_whitespace(s).len() <= s.len(),
        drop_trailing_whitespace(s) == s.take(drop_trailing_whitespace(s).len() as int),
    decreases s.len(),
{
    if s.len() > 0 && crate::text::is_whitespace(s.last()) {
        lemma_drop_prefix(s.drop_last());
        let d = drop_trailing_whitespace(s.drop_last());
        assert(s.drop_last().take(d.len() as int) =~= s.take(d.len() as int));
    } else {
        assert(s.take(s.len() as int) =~= s);
    }
}

/// The commit message service.
pub struct GitMessageService;

impl GitMessageService {
    /// The service.
    pub fn new() -> (service: Self) {
        Self
    }

    /// Builds the prompt for a commit message.
    pub fn build_prompt(&self, context: &GitMessageContext) -> (prompt: String)
        ensures
            prompt@ == spec_prompt(opt_view(context.user_input), context.diff_text@),
    {
        let mut out = String::from_str(
            "You are an AI assistant that generates concise and meaningful git commit messages following conventional commit format.\n\n",
        );
        match &context.user_input {
            Some(input) => {
                out.append("User task description: \"");
                out.append(input.as_str());
                out.append("\"\n");
            },
            None => {},
        }
        out.append("File changes (git diff):\n");
        out.append(context.diff_text.as_str());
        out.append(
            "\n\nGenerate a concise git commit message that follows these guidelines:\n1. Use conventional commit format: type(scope): description\n2. Types: feat, fix, docs, style, refactor, test, chore\n3. Keep the message under 72 characters for the subject line\n4. Be specific about what was changed based on the actual diff content\n5. Use imperative mood (e.g., \"add\", \"fix\", \"update\")\n\nExamples:\n- feat(auth): add user authentication system\n- fix(api): resolve data validation error\n- docs: update installation instructions\n- refactor: simplify user service logic\n\nProvide ONLY the commit message without any explanations or formatting.",
        );
        out
    }

    /// Takes the message out of the model's answer.
    pub fn post_process_message(&self, raw: &str) -> (message: String)
        ensures
            message@ == spec_post_process(raw@),
    {
        let chars = to_chars(raw);
        let (start, end) = trim_bounds(&chars);
        let line = scan_line(&chars, start, end);
        let ghost body = chars@.subrange(start as int, end as int);
        proof {
            assert(first_line(body) =~= chars@.subrange(start as int, line as int));
            lemma_trimmed_start(chars@);
        }
        let ghost head = chars@.subrange(start as int, line as int);
        // The line starts where the trimmed text starts, so only its end can
        // still hold whitespace.
        let mut stop: usize = line;
        while stop > start && crate::text::char_is_whitespace(chars[stop - 1])
            invariant
                start <= stop <= line,
                line <= chars.len(),
                drop_trailing_whitespace(head) == drop_trailing_whitespace(
                    chars@.subrange(start as int, stop as int),
                ),
                head == chars@.subrange(start as int, line as int),
            decreases stop,
        {
            proof {
                let cur = chars@.subrange(start as int, stop as int);
                assert(cur.drop_last() =~= chars@.subrange(start as int, stop - 1));
            }
            stop -= 1;
        }
        slice(raw, start, stop)
    }

    /// The prompt for `context`, or the failure for a blank diff.
    pub fn prepare(&self, context: &GitMessageContext) -> (result: Result<String, String>)
        ensures
            match result {
                Ok(prompt) => !is_blank(context.diff_text@) && prompt@ == spec_prompt(
                    opt_view(context.user_input),
                    context.diff_text@,
                ),
                Err(message) => is_blank(context.diff_text@) && message@ == no_diff_message(),
            },
    {
        if blank(context.diff_text.as_str()) {
            return Err(owned("No diff text provided"));
        }
        Ok(self.build_prompt(context))
    }

    /// The result for the model's answer `text`, or the failure for an
    /// answer that holds no message.
    pub fn finish(&self, text: &str) -> (result: Result<GitMessageResult, String>)
        ensures
            match result {
                Ok(found) => found.message@ == spec_post_process(text@) && found.message@.len() > 0
                    && found.suggestions is None,
                Err(message) => spec_post_process(text@).len() == 0 && message@ == empty_message(),
            },
    {
        let message = self.post_process_message(text);
        if message.as_str().is_empty() {
            return Err(owned("Empty commit message generated"));
        }
        Ok(GitMessageResult { message, suggestions: None })
    }

    /// The model preferred for commit messages.
    pub fn preferred_model() -> (name: &'static str)
        ensures
            name@ == "gemini-2.5-flash-lite"@,
    {
        "gemini-2.5-flash-lite"
    }
}

} // verus!
