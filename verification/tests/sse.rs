use talkcody_llm::protocols::stream_parser::StreamFrame;
use talkcody_llm::sse::SseDecoder;

fn frame(event_type: Option<&str>, data: &str) -> StreamFrame {
    StreamFrame { event_type: event_type.map(|t| t.to_string()), data: data.to_string() }
}

#[test]
fn sse_frames_end_at_empty_lines() {
    let mut decoder = SseDecoder::new();
    let frames = decoder.feed("data: one\n\nevent: delta\ndata: two\ndata:three\r\n\r\n: ping\n\ndata: four");
    assert_eq!(
        frames,
        vec![frame(None, "one"), frame(Some("delta"), "two\nthree")]
    );
    assert_eq!(decoder.partial, "data: four");
    assert_eq!(decoder.data, None);
    let frames = decoder.feed("\n");
    assert!(frames.is_empty());
    assert_eq!(decoder.data.as_deref(), Some("four"));
    assert_eq!(decoder.feed("\n"), vec![frame(None, "four")]);
    // a frame without data is not handed on, and its type is forgotten
    assert!(decoder.feed("event: lonely\n\n").is_empty());
    assert_eq!(decoder.feed("data\n\n"), vec![frame(None, "")]);
    assert_eq!(decoder.feed("id: 7\nretry: 5\ndata:  two spaces\n\n"), vec![frame(None, " two spaces")]);
}

#[test]
fn sse_frames_do_not_depend_on_the_chunking() {
    let stream = "event: a\r\ndata: {\"x\":1}\r\n\r\ndata: [DONE]\n\ndata: tail";
    let mut whole = SseDecoder::new();
    let expected = whole.feed(stream);
    assert_eq!(expected, vec![frame(Some("a"), "{\"x\":1}"), frame(None, "[DONE]")]);
    for cut in 0..=stream.len() {
        let mut decoder = SseDecoder::new();
        let mut frames = decoder.feed(&stream[..cut]);
        frames.extend(decoder.feed(&stream[cut..]));
        assert_eq!(frames, expected);
        assert_eq!(decoder, whole);
    }
    let mut decoder = SseDecoder::new();
    let mut frames = Vec::new();
    for c in stream.chars() {
        frames.extend(decoder.feed(&c.to_string()));
    }
    assert_eq!(frames, expected);
}
