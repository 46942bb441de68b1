//! Server-sent events: the bytes of a stream, as they arrive in chunks of
//! any size, cut into frames.
//!
//! A stream is made of lines that end in a line feed, with or without a
//! carriage return before it. A line `event: x` names the type of the frame
//! being read, a line `data: y` adds a line to its data, a line that begins
//! with a colon is a comment, and an empty line ends the frame. A frame
//! without data is not handed on.

use vstd::prelude::*;
use vstd::string::*;
use crate::protocols::stream_parser::StreamFrame;
use crate::text::{
    clone_opt, concat2, lemma_split_nonempty, lemma_until_bounds, opt_view, scan_until, slice,
    spans_view, spans_within, split_on, split_spans, str_eq, to_chars, until,
};

verus! {

/// The decoder of one stream: the line that has not ended yet, and what has
/// been read of the frame that has not ended yet.
#[derive(Debug, Clone, PartialEq)]
pub struct SseDecoder {
    pub partial: String,
    pub event_type: Option<String>,
    pub data: Option<String>,
}

/// The content of a decoder.
pub ghost struct SseV {
    pub partial: Seq<char>,
    pub event_type: Option<Seq<char>>,
    pub data: Option<Seq<char>>,
}

/// The content of a frame.
pub ghost struct FrameV {
    pub event_type: Option<Seq<char>>,
    pub data: Seq<char>,
}

impl View for SseDecoder {
    type V = SseV;

    open spec fn view(&self) -> SseV {
        SseV {
            partial: self.partial@,
            event_type: opt_view(self.event_type),
            data: opt_view(self.data),
        }
    }
}

impl View for StreamFrame {
    type V = FrameV;

    open spec fn view(&self) -> FrameV {
        FrameV { event_type: opt_view(self.event_type), data: self.data@ }
    }
}

/// The contents of a sequence of frames.
pub open spec fn frames_view(frames: Seq<StreamFrame>) -> Seq<FrameV> {
    frames.map_values(|f: StreamFrame| f@)
}

/// A line without the carriage return at its end, where it has one.
pub open spec fn strip_cr(line: Seq<char>) -> Seq<char> {
    if line.len() > 0 && line.last() == '\r' {
        line.drop_last()
    } else {
        line
    }
}

/// The name of the field of a line: what stands before its first colon.
pub open spec fn field_name(line: Seq<char>) -> Seq<char> {
    line.take(until(line, ':'))
}

/// The value of the field of a line: what stands after its first colon,
/// without the one space that may follow the colon; nothing where the line
/// has no colon.
pub open spec fn field_value(line: Seq<char>) -> Seq<char> {
    let colon = until(line, ':');
    if colon >= line.len() {
        Seq::empty()
    } else if colon + 1 < line.len() && line[colon + 1] == ' ' {
        line.skip(colon + 2)
    } else {
        line.skip(colon + 1)
    }
}

/// The data of a frame with one more line.
pub open spec fn add_data(data: Option<Seq<char>>, line: Seq<char>) -> Seq<char> {
    match data {
        Some(d) => d + seq!['\n'] + line,
        None => line,
    }
}

/// The decoder after one whole line, and the frame that the line ends,
/// where it ends one that has data.
pub open spec fn apply_line(decoder: SseV, raw: Seq<char>) -> (SseV, Option<FrameV>) {
    let line = strip_cr(raw);
    if line.len() == 0 {
        (
            SseV { partial: decoder.partial, event_type: None, data: None },
            match decoder.data {
                Some(data) => Some(FrameV { event_type: decoder.event_type, data }),
                None => None,
            },
        )
    } else if line[0] == ':' {
        (decoder, None)
    } else if field_name(line) == "event"@ {
        (SseV { event_type: Some(field_value(line)), ..decoder }, None)
    } else if field_name(line) == "data"@ {
        (SseV { data: Some(add_data(decoder.data, field_value(line))), ..decoder }, None)
    } else {
        (decoder, None)
    }
}

/// The decoder after a sequence of whole lines, and the frames that they
/// end, in order.
pub open spec fn apply_lines(decoder: SseV, lines: Seq<Seq<char>>) -> (SseV, Seq<FrameV>)
    decreases lines.len(),
{
    if lines.len() == 0 {
        (decoder, Seq::empty())
    } else {
        let (before, frames) = apply_lines(decoder, lines.drop_last());
        let (after, frame) = apply_line(before, lines.last());
        (
            after,
            match frame {
                Some(f) => frames.push(f),
                None => frames,
            },
        )
    }
}

/// The decoder after one chunk, and the frames that end within the chunk.
/// The chunk is joined to the line that had not ended; every line that
/// ends is applied; what follows the last line feed waits for the next
/// chunk.
pub open spec fn spec_feed(decoder: SseV, chunk: Seq<char>) -> (SseV, Seq<FrameV>) {
    let pieces = split_on(decoder.partial + chunk, '\n');
    let (after, frames) = apply_lines(decoder, pieces.drop_last());
    (SseV { partial: pieces.last(), ..after }, frames)
}

impl SseDecoder {
    /// The decoder at the start of a stream.
    pub fn new() -> (decoder: SseDecoder)
        ensures
            decoder@ == (SseV { partial: Seq::empty(), event_type: None, data: None }),
    {
        SseDecoder { partial: String::new(), event_type: None, data: None }
    }

    /// Applies the whole line `text[from..to]`.
    fn line(&mut self, text: &str, chars: &Vec<char>, from: usize, to: usize) -> (frame: Option<
        StreamFrame,
    >)
        requires
            chars@ == text@,
            from <= to <= chars.len(),
        ensures
            final(self)@ == apply_line(old(self)@, text@.subrange(from as int, to as int)).0,
            match frame {
                Some(f) => apply_line(old(self)@, text@.subrange(from as int, to as int)).1
                    == Some(f@),
                None => apply_line(old(self)@, text@.subrange(from as int, to as int)).1 is None,
            },
    {
        let ghost raw = text@.subrange(from as int, to as int);
        let end = if to > from && chars[to - 1] == '\r' {
            to - 1
        } else {
            to
        };
        let ghost line = strip_cr(raw);
        assert(line =~= text@.subrange(from as int, end as int));
        if end == from {
            let event_type = clone_opt(&self.event_type);
            let frame = match &self.data {
                Some(data) => Some(StreamFrame { event_type, data: data.clone() }),
                None => None,
            };
            self.event_type = None;
            self.data = None;
            return frame;
        }
        if chars[from] == ':' {
            return None;
        }
        let colon = scan_until(chars, from, end, ':');
        proof {
            lemma_until_bounds(line, ':');
        }
        let name = slice(text, from, colon);
        assert(name@ =~= field_name(line));
        let value = if colon >= end {
            String::new()
        } else if colon + 1 < end && chars[colon + 1] == ' ' {
            slice(text, colon + 2, end)
        } else {
            slice(text, colon + 1, end)
        };
        assert(value@ =~= field_value(line));
        if str_eq(name.as_str(), "event") {
            self.event_type = Some(value);
        } else if str_eq(name.as_str(), "data") {
            let joined = match &self.data {
                Some(data) => {
                    proof {
                        reveal_strlit("\n");
                        assert("\n"@ =~= seq!['\n']);
                    }
                    let mut out = data.clone();
                    out.append("\n");
                    out.append(value.as_str());
                    out
                },
                None => value,
            };
            self.data = Some(joined);
        }
        None
    }

    /// Takes one chunk of the stream in and hands out the frames that end
    /// within it, in order.
    pub fn feed(&mut self, chunk: &str) -> (frames: Vec<StreamFrame>)
        ensures
            final(self)@ == spec_feed(old(self)@, chunk@).0,
            frames_view(frames@) == spec_feed(old(self)@, chunk@).1,
    {
        let text = concat2(self.partial.as_str(), chunk);
        let chars = to_chars(text.as_str());
        let spans = split_spans(&chars, '\n');
        let ghost pieces = split_on(text@, '\n');
        let last = spans.len() - 1;
        let mut frames: Vec<StreamFrame> = Vec::new();
        let mut i: usize = 0;
        while i < last
            invariant
                i <= last,
                last == spans.len() - 1,
                chars@ == text@,
                pieces == split_on(text@, '\n'),
                spans_within(spans@, chars.len() as int),
                spans_view(chars@, spans@) == pieces,
                apply_lines(old(self)@, pieces.drop_last().take(i as int)) == (
                    self@,
                    frames_view(frames@),
                ),
            decreases last - i,
        {
            let ghost lines = pieces.drop_last();
            proof {
                assert(lines.take(i + 1).drop_last() =~= lines.take(i as int));
            }
            match self.line(text.as_str(), &chars, spans[i].0, spans[i].1) {
                Some(frame) => {
                    frames.push(frame);
                },
                None => {},
            }
            i += 1;
        }
        proof {
            assert(pieces.drop_last().take(i as int) =~= pieces.drop_last());
        }
        self.partial = slice(text.as_str(), spans[last].0, spans[last].1);
        frames
    }
}

/// A piece of a splitting holds no separator.
pub proof fn lemma_pieces_hold_no_separator(s: Seq<char>, sep: char)
    ensures
        forall|i: int, j: int|
            0 <= i < split_on(s, sep).len() && 0 <= j < split_on(s, sep)[i].len() ==> (
            #[trigger] split_on(s, sep)[i][j]) != sep,
    decreases s.len(),
{
    if s.len() > 0 {
        lemma_pieces_hold_no_separator(s.drop_last(), sep);
        lemma_split_nonempty(s.drop_last(), sep);
    }
}

/// A text without the separator is its own single piece.
pub proof fn lemma_split_of_a_piece(s: Seq<char>, sep: char)
    requires
        forall|j: int| 0 <= j < s.len() ==> s[j] != sep,
    ensures
        split_on(s, sep) == seq![s],
    decreases s.len(),
{
    if s.len() > 0 {
        let init = s.drop_last();
        assert forall|j: int| 0 <= j < init.len() implies init[j] != sep by {
            assert(init[j] == s[j]);
        }
        lemma_split_of_a_piece(init, sep);
        assert(init.push(s.last()) =~= s);
        assert(seq![init].update(0, init.push(s.last())) =~= seq![s]);
    } else {
        assert(s =~= Seq::<char>::empty());
        assert(seq![Seq::<char>::empty()] =~= seq![s]);
    }
}

/// Splitting a text that goes on: the pieces that had ended stay, and the
/// piece that had not ended goes on with what follows.
pub proof fn lemma_split_goes_on(x: Seq<char>, y: Seq<char>, sep: char)
    ensures
        split_on(x + y, sep) == split_on(x, sep).drop_last() + split_on(
            split_on(x, sep).last() + y,
            sep,
        ),
    decreases y.len(),
{
    let pieces = split_on(x, sep);
    lemma_split_nonempty(x, sep);
    let open = pieces.last();
    if y.len() == 0 {
        assert(x + y =~= x);
        assert(open + y =~= open);
        lemma_pieces_hold_no_separator(x, sep);
        assert forall|j: int| 0 <= j < open.len() implies open[j] != sep by {
            assert(split_on(x, sep)[pieces.len() - 1][j] != sep);
        }
        lemma_split_of_a_piece(open, sep);
        assert(pieces.drop_last() + seq![open] =~= pieces);
    } else {
        let init = y.drop_last();
        lemma_split_goes_on(x, init, sep);
        assert((x + y).drop_last() =~= x + init);
        assert((open + y).drop_last() =~= open + init);
        assert((x + y).last() == y.last());
        assert((open + y).last() == y.last());
        let whole = split_on(x + init, sep);
        let tail = split_on(open + init, sep);
        lemma_split_nonempty(open + init, sep);
        if y.last() == sep {
            assert(whole.push(Seq::empty()) =~= pieces.drop_last() + tail.push(Seq::empty()));
        } else {
            assert(whole.update(whole.len() - 1, whole.last().push(y.last()))
                =~= pieces.drop_last() + tail.update(
                tail.len() - 1,
                tail.last().push(y.last()),
            ));
        }
    }
}

/// Applying lines one sequence after another is applying them all.
pub proof fn lemma_apply_lines_concat(decoder: SseV, first: Seq<Seq<char>>, second: Seq<Seq<char>>)
    ensures
        apply_lines(decoder, first + second).0 == apply_lines(
            apply_lines(decoder, first).0,
            second,
        ).0,
        apply_lines(decoder, first + second).1 == apply_lines(decoder, first).1 + apply_lines(
            apply_lines(decoder, first).0,
            second,
        ).1,
    decreases second.len(),
{
    if second.len() == 0 {
        assert(first + second =~= first);
        assert(apply_lines(decoder, first).1 + Seq::<FrameV>::empty() =~= apply_lines(
            decoder,
            first,
        ).1);
    } else {
        assert((first + second).drop_last() =~= first + second.drop_last());
        lemma_apply_lines_concat(decoder, first, second.drop_last());
        let mid = apply_lines(decoder, first);
        let before = apply_lines(mid.0, second.drop_last());
        let step = apply_line(before.0, second.last());
        match step.1 {
            Some(f) => {
                assert((mid.1 + before.1).push(f) =~= mid.1 + before.1.push(f));
            },
            None => {},
        }
    }
}

/// Applying whole lines leaves the line that has not ended as it was.
pub proof fn lemma_lines_keep_partial(decoder: SseV, lines: Seq<Seq<char>>)
    ensures
        apply_lines(decoder, lines).0.partial == decoder.partial,
    decreases lines.len(),
{
    if lines.len() > 0 {
        lemma_lines_keep_partial(decoder, lines.drop_last());
    }
}

/// What applying lines gives does not depend on the line that has not
/// ended.
pub proof fn lemma_lines_ignore_partial(decoder: SseV, partial: Seq<char>, lines: Seq<Seq<char>>)
    ensures
        apply_lines(SseV { partial, ..decoder }, lines).1 == apply_lines(decoder, lines).1,
        apply_lines(SseV { partial, ..decoder }, lines).0 == (SseV {
            partial,
            ..apply_lines(decoder, lines).0
        }),
    decreases lines.len(),
{
    if lines.len() > 0 {
        lemma_lines_ignore_partial(decoder, partial, lines.drop_last());
    }
}

/// The frames of a stream do not depend on how the network cuts it into
/// chunks: taking two chunks in, one after the other, leaves the decoder
/// where taking them in as one chunk leaves it, and hands out the same
/// frames in the same order.
pub proof fn law_chunking_does_not_matter(decoder: SseV, first: Seq<char>, second: Seq<char>)
    ensures
        ({
            let a = spec_feed(decoder, first);
            let b = spec_feed(a.0, second);
            let whole = spec_feed(decoder, first + second);
            whole.0 == b.0 && whole.1 == a.1 + b.1
        }),
{
    let x = decoder.partial + first;
    let pieces = split_on(x, '\n');
    lemma_split_nonempty(x, '\n');
    let a = spec_feed(decoder, first);
    let rest = split_on(pieces.last() + second, '\n');
    lemma_split_nonempty(pieces.last() + second, '\n');
    assert(decoder.partial + (first + second) =~= x + second);
    lemma_split_goes_on(x, second, '\n');
    let all = split_on(x + second, '\n');
    assert(all.drop_last() =~= pieces.drop_last() + rest.drop_last());
    assert(all.last() == rest.last());
    lemma_apply_lines_concat(decoder, pieces.drop_last(), rest.drop_last());
    let mid = apply_lines(decoder, pieces.drop_last());
    lemma_lines_ignore_partial(mid.0, pieces.last(), rest.drop_last());
    assert(a.0 == (SseV { partial: pieces.last(), ..mid.0 }));
    assert(a.0.partial + second == pieces.last() + second);
}

} // verus!
