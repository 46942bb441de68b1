//! Code completion: the text around the cursor, the prompt made of it, and
//! the result handed back to the editor.

use vstd::prelude::*;
use vstd::string::*;
use vstd::utf8::*;
use crate::text::{join_lines, join_with, slice, split_on, split_spans, to_chars};
use crate::utf::{
    byte_index_of, chars_within, lemma_chars_within_bound, lemma_prefix_is_boundary,
    lemma_prefix_length, utf16_width, utf8_length, utf8_width,
};

verus! {

/// What the editor knows when it asks for a completion. `cursor_position`
/// counts UTF-16 code units from the start of `file_content`.
#[derive(Debug, Clone, PartialEq)]
pub struct CompletionContext {
    pub file_name: String,
    pub language: String,
    pub file_content: String,
    pub cursor_position: usize,
    pub model: Option<String>,
}

/// A completion, and the range of the file that it replaces where it
/// replaces one.
#[derive(Debug, Clone, PartialEq)]
pub struct CompletionResult {
    pub completion: String,
    pub range: Option<(usize, usize)>,
}

/// How many lines before the cursor's line go into a prompt.
pub const LINES_BEFORE: usize = 10;

/// How many lines from the cursor on go into a prompt.
pub const LINES_AFTER: usize = 5;

/// How long a completion may take to collect, in seconds.
pub const COMPLETION_TIMEOUT_SECS: u64 = 30;

/// The characters of `content` that its first `cursor` bytes encode; all of
/// them where `cursor` lies past the end.
pub open spec fn chars_before(content: Seq<char>, cursor: int) -> Seq<char> {
    if cursor <= utf8_length(content) {
        decode_utf8(encode_utf8(content).subrange(0, cursor))
    } else {
        content
    }
}

/// The characters of `content` that its bytes from `cursor` on encode; none
/// where `cursor` lies past the end.
pub open spec fn chars_after(content: Seq<char>, cursor: int) -> Seq<char> {
    if cursor <= utf8_length(content) {
        decode_utf8(encode_utf8(content).subrange(cursor, utf8_length(content) as int))
    } else {
        Seq::empty()
    }
}

/// Whether byte offset `cursor` can be a cursor in `content`: it lies past
/// the end, or between two characters.
pub open spec fn cursor_ok(content: Seq<char>, cursor: int) -> bool {
    cursor <= utf8_length(content) ==> is_char_boundary(encode_utf8(content), cursor)
}

/// The lines before the cursor's line: at most `lines_before` of them, the
/// nearest ones, joined by line feeds.
pub open spec fn previous_context(before: Seq<char>, lines_before: int) -> Seq<char> {
    let lines = split_on(before, '\n');
    let count = lines.len() - 1;
    let first = if count > lines_before {
        count - lines_before
    } else {
        0
    };
    join_with(lines.subrange(first, count), '\n')
}

/// The part of the cursor's line that stands before the cursor.
pub open spec fn current_line(before: Seq<char>) -> Seq<char> {
    split_on(before, '\n').last()
}

/// The text from the cursor on: at most `lines_after` lines, the first of
/// them the rest of the cursor's line, joined by line feeds.
pub open spec fn after_context(after: Seq<char>, lines_after: int) -> Seq<char> {
    let lines = split_on(after, '\n');
    let count = if lines_after < lines.len() {
        lines_after
    } else {
        lines.len() as int
    };
    join_with(lines.take(count), '\n')
}

/// The prompt for a completion.
pub open spec fn spec_prompt(
    file_name: Seq<char>,
    language: Seq<char>,
    previous: Seq<char>,
    current: Seq<char>,
    after: Seq<char>,
) -> Seq<char> {
    "You are an AI code completion assistant. Complete the following "@ + language
        + " code.\n\nFile: "@ + file_name + "\nContext (previous lines):\n```"@ + language + "\n"@
        + previous + "\n```\n\nCurrent incomplete line: \""@ + current
        + "\"\n\nAfter cursor:\n```"@ + language + "\n"@ + after
        + "\n```\n\nProvide ONLY the completion text that should be inserted at the cursor position. Do not include the existing text or explanations.\nResponse should be plain text without markdown formatting.\nKeep the completion concise and relevant to the current context."@
}

/// The prompt for the completion that `context` asks for.
pub open spec fn spec_prompt_for(context: CompletionContext) -> Seq<char> {
    let content = context.file_content@;
    let cursor = byte_index_of(content, context.cursor_position as nat) as int;
    spec_prompt(
        context.file_name@,
        context.language@,
        previous_context(chars_before(content, cursor), LINES_BEFORE as int),
        current_line(chars_before(content, cursor)),
        after_context(chars_after(content, cursor), LINES_AFTER as int),
    )
}

/// The byte index in `text` of the character that holds UTF-16 offset
/// `utf16_offset`; the length of `text` in bytes where the offset lies at or
/// past its end. An offset inside a character counts for that character.
pub fn utf16_offset_to_byte_index(text: &str, utf16_offset: usize) -> (index: usize)
    ensures
        index == byte_index_of(text@, utf16_offset as nat),
        index <= utf8_length(text@),
        is_char_boundary(encode_utf8(text@), index as int),
{
    let total = text.as_bytes().len();
    let mut count: usize = 0;
    let mut byte_index: usize = 0;
    proof {
        assert(text@.skip(0) =~= text@);
        lemma_chars_within_bound(text@, utf16_offset as nat);
    }
    for c in it: text.chars()
        invariant
            it.seq() == text@,
            total == utf8_length(text@),
            count <= utf16_offset,
            byte_index == utf8_length(text@.take(it.index() as int)),
            byte_index <= total,
            chars_within(text@, utf16_offset as nat) == it.index() + chars_within(
                text@.skip(it.index() as int),
                (utf16_offset - count) as nat,
            ),
    {
        let ghost i = it.index() as int;
        proof {
            assert(text@.skip(i).drop_first() =~= text@.skip(i + 1));
            lemma_prefix_length(text@, i);
            lemma_prefix_length(text@, i + 1);
        }
        let units = utf16_width(c);
        if units > utf16_offset - count {
            proof {
                lemma_prefix_is_boundary(text@, i);
            }
            return byte_index;
        }
        count += units;
        byte_index += utf8_width(c);
    }
    proof {
        lemma_prefix_is_boundary(text@, text@.len() as int);
    }
    total
}

/// The completion service.
pub struct CompletionService;

impl CompletionService {
    /// The service.
    pub fn new() -> (service: Self) {
        Self
    }

    /// The text around the cursor: the lines before the cursor's line, the
    /// part of that line before the cursor, and the text from the cursor on.
    /// `cursor_pos` is a byte offset into `content`.
    pub fn extract_context(
        content: &str,
        cursor_pos: usize,
        lines_before: usize,
        lines_after: usize,
    ) -> (parts: (String, String, String))
        requires
            cursor_ok(content@, cursor_pos as int),
        ensures
            parts.0@ == previous_context(
                chars_before(content@, cursor_pos as int),
                lines_before as int,
            ),
            parts.1@ == current_line(chars_before(content@, cursor_pos as int)),
            parts.2@ == after_context(chars_after(content@, cursor_pos as int), lines_after as int),
    {
        let total = content.as_bytes().len();
        let (before, after): (&str, &str) = if cursor_pos <= total {
            let halves = content.split_at(cursor_pos);
            proof {
                encode_utf8_decode_utf8(halves.0@);
                encode_utf8_decode_utf8(halves.1@);
            }
            halves
        } else {
            proof {
                reveal_strlit("");
            }
            (content, "")
        };

        let before_chars = to_chars(before);
        let spans = split_spans(&before_chars, '\n');
        let count = spans.len() - 1;
        let first = if count > lines_before {
            count - lines_before
        } else {
            0
        };
        let previous = join_lines(before, &spans, first, count);
        let current = slice(before, spans[count].0, spans[count].1);

        let after_chars = to_chars(after);
        let after_spans = split_spans(&after_chars, '\n');
        let taken = if lines_after < after_spans.len() {
            lines_after
        } else {
            after_spans.len()
        };
        let following = join_lines(after, &after_spans, 0, taken);
        (previous, current, following)
    }

    /// Builds the prompt for a completion.
    pub fn build_prompt(
        &self,
        file_name: &str,
        language: &str,
        previous_context: &str,
        current_line: &str,
        after_context: &str,
    ) -> (prompt: String)
        ensures
            prompt@ == spec_prompt(
                file_name@,
                language@,
                previous_context@,
                current_line@,
                after_context@,
            ),
    {
        let mut out = String::from_str(
            "You are an AI code completion assistant. Complete the following ",
        );
        out.append(language);
        out.append(" code.\n\nFile: ");
        out.append(file_name);
        out.append("\nContext (previous lines):\n```");
        out.append(language);
        out.append("\n");
        out.append(previous_context);
        out.append("\n```\n\nCurrent incomplete line: \"");
        out.append(current_line);
        out.append("\"\n\nAfter cursor:\n```");
        out.append(language);
        out.append("\n");
        out.append(after_context);
        out.append(
            "\n```\n\nProvide ONLY the completion text that should be inserted at the cursor position. Do not include the existing text or explanations.\nResponse should be plain text without markdown formatting.\nKeep the completion concise and relevant to the current context.",
        );
        out
    }

    /// The prompt for the completion that `context` asks for: ten lines
    /// before the cursor's line, that line, and five lines from the cursor on.
    pub fn prompt_for(&self, context: &CompletionContext) -> (prompt: String)
        ensures
            prompt@ == spec_prompt_for(*context),
    {
        let content = context.file_content.as_str();
        let byte_offset = utf16_offset_to_byte_index(content, context.cursor_position);
        let (previous, current, after) = Self::extract_context(
            content,
            byte_offset,
            LINES_BEFORE,
            LINES_AFTER,
        );
        self.build_prompt(
            context.file_name.as_str(),
            context.language.as_str(),
            previous.as_str(),
            current.as_str(),
            after.as_str(),
        )
    }

    /// The result handed to the editor for the text that the model gave.
    pub fn result_from(text: String) -> (result: CompletionResult)
        ensures
            result.completion@ == text@,
            result.range is None,
    {
        CompletionResult { completion: text, range: None }
    }
}

} // verus!
