use talkcody_llm::completion_service::{
    utf16_offset_to_byte_index, CompletionContext, CompletionService,
};

#[test]
fn extract_context_gets_correct_lines() {
    let content =
        "line1\nline2\nline3\nline4\nline5\nline6\nline7\nline8\nline9\nline10\nline11\nline12";

    // Cursor at the beginning of line12 (after "\n" at end of line11)
    let cursor_pos = content.find("line12").unwrap();

    let (prev, current, after) = CompletionService::extract_context(content, cursor_pos, 10, 5);

    // prev should contain lines 2-11 (10 lines before cursor)
    assert!(prev.contains("line2"));
    assert!(prev.contains("line10"));
    assert!(prev.contains("line11"));
    // current is empty because cursor is at start of a new line
    assert_eq!(current, "");
    assert_eq!(after, "line12");
}

#[test]
fn extract_context_handles_cursor_at_end() {
    let content = "line1\nline2";
    let cursor_pos = content.len();

    let (prev, current, after) = CompletionService::extract_context(content, cursor_pos, 10, 5);

    assert_eq!(prev, "line1");
    assert_eq!(current, "line2");
    assert_eq!(after, "");
}

#[test]
fn extract_context_handles_empty_after() {
    let content = "line1\nline2";
    let cursor_pos = content.len();

    let (_, _, after) = CompletionService::extract_context(content, cursor_pos, 10, 5);

    assert_eq!(after, "");
}

#[test]
fn build_prompt_contains_all_parts() {
    let service = CompletionService::new();
    let prompt = service.build_prompt(
        "test.ts",
        "typescript",
        "const x = 1;",
        "const y = ",
        "console.log(y);",
    );

    assert!(prompt.contains("test.ts"));
    assert!(prompt.contains("typescript"));
    assert!(prompt.contains("const x = 1;"));
    assert!(prompt.contains("const y = "));
    assert!(prompt.contains("console.log(y);"));
    assert!(prompt.contains("AI code completion assistant"));
}

#[test]
fn build_prompt_escapes_correctly() {
    let service = CompletionService::new();
    let prompt = service.build_prompt(
        "file.rs",
        "rust",
        "fn main() {",
        "    let x = \"test\";",
        "}",
    );

    assert!(prompt.contains("```rust"));
    assert!(prompt.contains("file.rs"));
}

#[test]
fn utf16_offset_to_byte_index_handles_multibyte_chars() {
    let text = "ab\u{1F600}\u{4E2D}";
    // UTF-16 code units: a(1) b(1) U+1F600(2) U+4E2D(1)
    assert_eq!(utf16_offset_to_byte_index(text, 0), 0);
    assert_eq!(utf16_offset_to_byte_index(text, 1), 1);
    assert_eq!(utf16_offset_to_byte_index(text, 2), 2);
    // After the emoji (2 code units) -> byte index after it
    assert_eq!(utf16_offset_to_byte_index(text, 4), "ab\u{1F600}".len());
    assert_eq!(utf16_offset_to_byte_index(text, 5), text.len());

    // The same bytes read as single-byte Turkish text: nine characters of
    // one code unit each.
    let text = "abğŸ˜€ä¸\u{AD}";
    assert_eq!(utf16_offset_to_byte_index(text, 0), 0);
    assert_eq!(utf16_offset_to_byte_index(text, 2), 2);
    assert_eq!(utf16_offset_to_byte_index(text, 6), "abğŸ˜€".len());
    assert_eq!(utf16_offset_to_byte_index(text, 9), text.len());
}

#[test]
fn utf16_offset_inside_a_surrogate_pair_counts_for_its_character() {
    let text = "ab\u{1F600}\u{4E2D}";
    assert_eq!(utf16_offset_to_byte_index(text, 3), 2);
    assert_eq!(utf16_offset_to_byte_index(text, 100), text.len());
    assert_eq!(utf16_offset_to_byte_index("", 0), 0);
}

#[test]
fn extract_context_keeps_the_nearest_lines() {
    let content = "a\nb\nc\nd|e\nf\ng\nh";
    let cursor = content.find('|').unwrap();
    let (prev, current, after) = CompletionService::extract_context(content, cursor, 2, 2);
    assert_eq!(prev, "b\nc");
    assert_eq!(current, "d");
    assert_eq!(after, "|e\nf");
    let (prev, current, after) = CompletionService::extract_context(content, cursor, 0, 0);
    assert_eq!(prev, "");
    assert_eq!(current, "d");
    assert_eq!(after, "");
}

#[test]
fn extract_context_past_the_end_takes_the_whole_text() {
    let content = "x\ny\n";
    let (prev, current, after) = CompletionService::extract_context(content, 99, 10, 5);
    assert_eq!(prev, "x\ny");
    assert_eq!(current, "");
    assert_eq!(after, "");
}

#[test]
fn build_prompt_is_exact() {
    let service = CompletionService::new();
    let prompt = service.build_prompt("f.rs", "rust", "P", "C", "A");
    assert_eq!(
        prompt,
        "You are an AI code completion assistant. Complete the following rust code.\n\n\
         File: f.rs\n\
         Context (previous lines):\n\
         ```rust\n\
         P\n\
         ```\n\n\
         Current incomplete line: \"C\"\n\n\
         After cursor:\n\
         ```rust\n\
         A\n\
         ```\n\n\
         Provide ONLY the completion text that should be inserted at the cursor position. \
         Do not include the existing text or explanations.\n\
         Response should be plain text without markdown formatting.\n\
         Keep the completion concise and relevant to the current context."
    );
}

#[test]
fn prompt_for_reads_the_cursor_in_utf16_units() {
    let service = CompletionService::new();
    let context = CompletionContext {
        file_name: "a.txt".to_string(),
        language: "text".to_string(),
        file_content: "\u{1F600}x\ny".to_string(),
        cursor_position: 3,
        model: None,
    };
    let prompt = service.prompt_for(&context);
    let expected = service.build_prompt("a.txt", "text", "", "\u{1F600}x", "\ny");
    assert_eq!(prompt, expected);
    let result = CompletionService::result_from("done".to_string());
    assert_eq!(result.completion, "done");
    assert!(result.range.is_none());
}
