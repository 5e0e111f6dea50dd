//! The stream decoder: from the raw chunks of a server-sent-event body to
//! provider-agnostic stream events.

use crate::adapter::{AdapterProfile, Profile};
use crate::json::{json_of, parse, Json, JsonValue, Step};
use crate::text::{
    decode_lossy, str_eq, to_chars, trim, trim_end, trim_start, trimmed, utf8_lossy,
};
use vstd::prelude::*;
use vstd::string::{StrSliceExecFns, StringExecFns};

verus! {

/// What the decoder hands to the session.
#[derive(Debug, PartialEq, Eq)]
pub enum StreamEvent {
    /// A fragment of the model's text.
    TextDelta(String),
    /// An error that the vendor reported, with its message.
    Error(String),
    /// The sequence has ended.
    Done,
}

/// The mathematical value of a [`StreamEvent`].
pub enum Event {
    TextDelta(Seq<char>),
    Error(Seq<char>),
    Done,
}

impl View for StreamEvent {
    type V = Event;

    open spec fn view(&self) -> Event {
        match *self {
            StreamEvent::TextDelta(t) => Event::TextDelta(t@),
            StreamEvent::Error(m) => Event::Error(m@),
            StreamEvent::Done => Event::Done,
        }
    }
}

impl Clone for StreamEvent {
    fn clone(&self) -> (r: StreamEvent)
        ensures
            r@ == self@,
    {
        match self {
            StreamEvent::TextDelta(t) => StreamEvent::TextDelta(t.clone()),
            StreamEvent::Error(m) => StreamEvent::Error(m.clone()),
            StreamEvent::Done => StreamEvent::Done,
        }
    }
}

/// The prefix that marks a data line: `data: `.
pub open spec fn data_prefix() -> Seq<char> {
    seq!['d', 'a', 't', 'a', ':', ' ']
}

/// The sentinel that ends the payload of a stream: `[DONE]`.
pub open spec fn done_sentinel() -> Seq<char> {
    seq!['[', 'D', 'O', 'N', 'E', ']']
}

/// The payload is the sentinel, white space around it aside.
pub open spec fn is_done(payload: Seq<char>) -> bool {
    trim(payload) == done_sentinel()
}

/// Where the line that starts at `from` ends: at the next line feed, or at
/// the end of the text.
pub open spec fn line_end(text: Seq<char>, from: int) -> int
    decreases text.len() - from,
{
    if from < 0 || from >= text.len() {
        text.len() as int
    } else if text[from] == '\n' {
        from
    } else {
        line_end(text, from + 1)
    }
}

/// The line that starts at `from`, without its line ending: a line feed, or a
/// carriage return and a line feed.
pub open spec fn line_at(text: Seq<char>, from: int) -> Seq<char> {
    let end = line_end(text, from);
    if end < text.len() && from < end && text[end - 1] == '\r' {
        text.subrange(from, end - 1)
    } else {
        text.subrange(from, end)
    }
}

/// Where the line after the one that starts at `from` starts.
pub open spec fn next_line(text: Seq<char>, from: int) -> int {
    let end = line_end(text, from);
    if end < text.len() {
        end + 1
    } else {
        end
    }
}

/// A line ends at or after its start, and within the text.
pub proof fn lemma_line_end(text: Seq<char>, from: int)
    requires
        0 <= from <= text.len(),
    ensures
        from <= line_end(text, from) <= text.len(),
        forall|k: int| from <= k < line_end(text, from) ==> text[k] != '\n',
        line_end(text, from) < text.len() ==> text[line_end(text, from)] == '\n',
    decreases text.len() - from,
{
    if from < text.len() && text[from] != '\n' {
        lemma_line_end(text, from + 1);
    }
}

/// The payload of a data line: what follows the prefix `data: `. Any other
/// line has none.
pub open spec fn data_payload(line: Seq<char>) -> Option<Seq<char>> {
    if data_prefix().is_prefix_of(line) {
        Some(line.skip(6))
    } else {
        None
    }
}

/// What one decoded payload amounts to: the vendor's error where it reports
/// one, else the text at the first content path that leads to a string, else
/// nothing.
pub open spec fn json_event(profile: Profile, value: JsonValue) -> Option<Event> {
    match value.text_at(profile.error_path) {
        Some(message) => Some(Event::Error(message)),
        None => match value.first_text(profile.stream_paths) {
            Some(text) => Some(Event::TextDelta(text)),
            None => None,
        },
    }
}

/// What one line amounts to. A line that is no data line, the sentinel and a
/// payload that is no JSON document amount to nothing.
pub open spec fn line_event(profile: Profile, line: Seq<char>) -> Option<Event> {
    match data_payload(line) {
        None => None,
        Some(payload) => if is_done(payload) {
            None
        } else {
            match json_of(payload) {
                Some(value) => json_event(profile, value),
                None => None,
            }
        },
    }
}

/// `text` put in front of what follows, where what follows is text.
pub open spec fn prepend(text: Seq<char>, rest: Result<Seq<char>, Seq<char>>) -> Result<
    Seq<char>,
    Seq<char>,
> {
    match rest {
        Ok(more) => Ok(text + more),
        Err(message) => Err(message),
    }
}

/// What the lines from `from` on amount to: the message of the first error
/// among them, or else their texts in order, joined.
pub open spec fn lines_text(profile: Profile, text: Seq<char>, from: int) -> Result<
    Seq<char>,
    Seq<char>,
>
    decreases text.len() - from,
{
    if from < 0 || from >= text.len() {
        Ok(Seq::empty())
    } else {
        proof {
            lemma_line_end(text, from);
        }
        let rest = lines_text(profile, text, next_line(text, from));
        match line_event(profile, line_at(text, from)) {
            Some(Event::Error(message)) => Err(message),
            Some(Event::TextDelta(t)) => prepend(t, rest),
            _ => rest,
        }
    }
}

/// The event that a chunk of text yields: the first error that one of its
/// lines reports; else the texts of its lines, joined, where that is any
/// text at all; else none. The sentinel, comments and payloads that are no
/// JSON therefore yield no event.
pub open spec fn chunk_event(profile: Profile, text: Seq<char>) -> Option<Event> {
    match lines_text(profile, text, 0) {
        Err(message) => Some(Event::Error(message)),
        Ok(joined) => if joined.len() > 0 {
            Some(Event::TextDelta(joined))
        } else {
            None
        },
    }
}

/// A line that is no data line amounts to nothing.
pub proof fn lemma_other_line(profile: Profile, line: Seq<char>)
    requires
        !data_prefix().is_prefix_of(line),
    ensures
        line_event(profile, line) is None,
{
}

/// A data line whose payload is the sentinel amounts to nothing.
pub proof fn lemma_done_line(profile: Profile, payload: Seq<char>)
    requires
        is_done(payload),
    ensures
        line_event(profile, data_prefix() + payload) is None,
{
    let line = data_prefix() + payload;
    assert(line.subrange(0, 6) =~= data_prefix());
    assert(line.skip(6) =~= payload);
}

/// A data line whose payload is no JSON document raises no error and
/// contributes no text: it amounts to nothing.
pub proof fn lemma_malformed_line(profile: Profile, payload: Seq<char>)
    requires
        json_of(payload) is None,
    ensures
        line_event(profile, data_prefix() + payload) is None,
{
    let line = data_prefix() + payload;
    assert(line.subrange(0, 6) =~= data_prefix());
    assert(line.skip(6) =~= payload);
}

/// A data line whose payload is a JSON document amounts to what the document
/// amounts to.
pub proof fn lemma_data_line(profile: Profile, payload: Seq<char>, value: JsonValue)
    requires
        !is_done(payload),
        json_of(payload) == Some(value),
    ensures
        line_event(profile, data_prefix() + payload) == json_event(profile, value),
{
    let line = data_prefix() + payload;
    assert(line.subrange(0, 6) =~= data_prefix());
    assert(line.skip(6) =~= payload);
}

/// Every line from `from` on amounts to nothing.
pub open spec fn lines_silent(profile: Profile, text: Seq<char>, from: int) -> bool
    decreases text.len() - from,
{
    if from < 0 || from >= text.len() {
        true
    } else {
        proof {
            lemma_line_end(text, from);
        }
        line_event(profile, line_at(text, from)) is None && lines_silent(
            profile,
            text,
            next_line(text, from),
        )
    }
}

/// Lines that all amount to nothing join to the empty text.
pub proof fn lemma_silent_lines(profile: Profile, text: Seq<char>, from: int)
    requires
        lines_silent(profile, text, from),
    ensures
        lines_text(profile, text, from) == Ok::<Seq<char>, Seq<char>>(Seq::empty()),
    decreases text.len() - from,
{
    if 0 <= from < text.len() {
        lemma_line_end(text, from);
        lemma_silent_lines(profile, text, next_line(text, from));
    }
}

/// A chunk whose lines all amount to nothing yields no event: no error, and
/// nothing for the accumulator.
pub proof fn lemma_silent_text(profile: Profile, text: Seq<char>)
    requires
        lines_silent(profile, text, 0),
    ensures
        chunk_event(profile, text) is None,
{
    lemma_silent_lines(profile, text, 0);
}

/// An event that a chunk yields is an error or a text that is not empty.
pub proof fn lemma_chunk_event_kinds(profile: Profile, text: Seq<char>)
    ensures
        match chunk_event(profile, text) {
            Some(Event::TextDelta(t)) => t.len() > 0,
            Some(Event::Error(_)) => true,
            Some(Event::Done) => false,
            None => true,
        },
{
}

/// The document `{"choices":[{"delta":{"content":x}}]}`.
pub open spec fn delta_document(x: Seq<char>) -> JsonValue {
    JsonValue::Object(
        seq![
            (
                "choices"@,
                JsonValue::Array(
                    seq![
                        JsonValue::Object(
                            seq![("delta"@, JsonValue::Object(seq![("content"@, JsonValue::Text(x))]))],
                        ),
                    ],
                ),
            ),
        ],
    )
}

/// For an OpenAI-compatible endpoint, the document
/// `{"choices":[{"delta":{"content":x}}]}` amounts to exactly the text `x`.
pub proof fn lemma_delta_document(x: Seq<char>)
    ensures
        json_event(crate::adapter::openai_profile(), delta_document(x)) == Some(Event::TextDelta(x)),
{
    let doc = delta_document(x);
    let profile = crate::adapter::openai_profile();
    reveal_strlit("choices");
    reveal_strlit("error_msg");
    assert("choices"@ != "error_msg"@) by {
        assert("choices"@.len() != "error_msg"@.len());
    }
    let members = doc->Object_0;
    assert(members.drop_first() =~= Seq::<(Seq<char>, JsonValue)>::empty());
    assert(doc.member("error_msg"@) is None) by {
        reveal_with_fuel(crate::json::first_with_key, 2);
    }
    let error_path = profile.error_path;
    assert(doc.text_at(error_path) is None) by {
        reveal_with_fuel(JsonValue::lookup, 2);
    }
    let path = crate::adapter::delta_content_path();
    let after_choices = path.drop_first();
    let after_index = after_choices.drop_first();
    let after_delta = after_index.drop_first();
    let after_content = after_delta.drop_first();
    assert(after_content =~= Seq::<Step>::empty());
    let choices = doc.member("choices"@)->0;
    let first = choices.element(0)->0;
    let delta = first.member("delta"@)->0;
    let content = delta.member("content"@)->0;
    assert(content == JsonValue::Text(x));
    assert(content.lookup(after_content) == Some(content));
    assert(delta.lookup(after_delta) == Some(content));
    assert(first.lookup(after_index) == Some(content));
    assert(choices.lookup(after_choices) == Some(content));
    assert(doc.lookup(path) == Some(content));
    assert(doc.text_at(path) == Some(x));
    assert(profile.stream_paths[0] == path);
}

/// Without a line feed from `from` on, the line that starts there runs to the
/// end of the text.
pub proof fn lemma_last_line(text: Seq<char>, from: int)
    requires
        0 <= from <= text.len(),
        forall|k: int| from <= k < text.len() ==> text[k] != '\n',
    ensures
        line_end(text, from) == text.len(),
    decreases text.len() - from,
{
    if from < text.len() {
        lemma_last_line(text, from + 1);
    }
}

/// A chunk that is one line without a line feed yields what the line
/// amounts to, unless that is empty text.
pub proof fn lemma_one_line(profile: Profile, line: Seq<char>)
    requires
        forall|k: int| 0 <= k < line.len() ==> line[k] != '\n',
    ensures
        chunk_event(profile, line) == match line_event(profile, line) {
            Some(Event::Error(message)) => Some(Event::Error(message)),
            Some(Event::TextDelta(t)) => if t.len() > 0 {
                Some(Event::TextDelta(t))
            } else {
                None
            },
            _ => None,
        },
{
    if line.len() > 0 {
        lemma_last_line(line, 0);
        assert(line.subrange(0, line.len() as int) =~= line);
        assert(line_at(line, 0) == line);
        assert(next_line(line, 0) == line.len());
        assert(lines_text(profile, line, line.len() as int) == Ok::<Seq<char>, Seq<char>>(
            Seq::empty(),
        ));
        assert(lines_text(profile, line, 0) == match line_event(profile, line) {
            Some(Event::Error(message)) => Err::<Seq<char>, Seq<char>>(message),
            Some(Event::TextDelta(t)) => Ok(t + Seq::<char>::empty()),
            _ => Ok(Seq::empty()),
        });
        match line_event(profile, line) {
            Some(Event::TextDelta(t)) => {
                assert(t + Seq::<char>::empty() =~= t);
            },
            _ => {},
        }
    } else {
        lemma_other_line(profile, line);
    }
}

/// One delta and then the sentinel yield exactly one text: for an
/// OpenAI-compatible endpoint, a chunk that is the data line of the
/// document `{"choices":[{"delta":{"content":x}}]}` yields the text `x` and
/// nothing else, and a chunk that is the data line of the sentinel yields no
/// event at all.
pub proof fn lemma_delta_then_done(x: Seq<char>, payload: Seq<char>)
    requires
        x.len() > 0,
        json_of(payload) == Some(delta_document(x)),
        !is_done(payload),
        forall|k: int| 0 <= k < payload.len() ==> payload[k] != '\n',
    ensures
        chunk_event(crate::adapter::openai_profile(), data_prefix() + payload) == Some(
            Event::TextDelta(x),
        ),
        chunk_event(crate::adapter::openai_profile(), data_prefix() + done_sentinel()) is None,
{
    let profile = crate::adapter::openai_profile();
    lemma_delta_document(x);
    lemma_data_line(profile, payload, delta_document(x));
    lemma_one_line(profile, data_prefix() + payload);
    let done = done_sentinel();
    assert(trim_start(done) == done);
    assert(trim_end(done) == done);
    lemma_done_line(profile, done);
    lemma_one_line(profile, data_prefix() + done);
}

/// Whether `line` starts with `data: `.
fn has_data_prefix(line: &Vec<char>) -> (b: bool)
    ensures
        b == data_prefix().is_prefix_of(line@),
{
    if line.len() < 6 {
        return false;
    }
    let b = line[0] == 'd' && line[1] == 'a' && line[2] == 't' && line[3] == 'a' && line[4] == ':'
        && line[5] == ' ';
    proof {
        let p = data_prefix();
        let head = line@.subrange(0, 6);
        if b {
            assert(p =~= head);
        } else {
            if p =~= head {
                assert(head[0] == 'd' && head[1] == 'a' && head[2] == 't' && head[3] == 'a'
                    && head[4] == ':' && head[5] == ' ');
            }
        }
    }
    b
}

/// Whether `payload` is the sentinel, white space around it aside.
fn is_done_payload(payload: &str) -> (b: bool)
    ensures
        b == is_done(payload@),
{
    proof {
        reveal_strlit("[DONE]");
        assert("[DONE]"@ =~= done_sentinel());
    }
    str_eq(trimmed(payload), "[DONE]")
}

/// What one decoded payload amounts to.
pub fn event_of_json(profile: &AdapterProfile, value: &Json) -> (r: Option<StreamEvent>)
    ensures
        match r {
            Some(e) => json_event(profile@, value@) == Some(e@),
            None => json_event(profile@, value@) is None,
        },
{
    match value.text_at(&profile.error_path) {
        Some(message) => Some(StreamEvent::Error(message.to_string())),
        None => match value.first_text(&profile.stream_paths) {
            Some(text) => Some(StreamEvent::TextDelta(text.to_string())),
            None => None,
        },
    }
}

/// What one line of a stream amounts to.
pub fn decode_line(profile: &AdapterProfile, line: &str) -> (r: Option<StreamEvent>)
    ensures
        match r {
            Some(e) => line_event(profile@, line@) == Some(e@),
            None => line_event(profile@, line@) is None,
        },
{
    let chars = to_chars(line);
    if !has_data_prefix(&chars) {
        return None;
    }
    let payload = line.substring_char(6, chars.len());
    assert(payload@ =~= line@.skip(6));
    if is_done_payload(payload) {
        return None;
    }
    match parse(payload) {
        Some(value) => event_of_json(profile, &value),
        None => None,
    }
}

/// Where the line that starts at `from` ends.
fn find_line_end(chars: &Vec<char>, from: usize) -> (end: usize)
    requires
        from <= chars.len(),
    ensures
        end == line_end(chars@, from as int),
        from <= end <= chars.len(),
{
    let mut end: usize = from;
    while end < chars.len() && chars[end] != '\n'
        invariant
            from <= end <= chars.len(),
            line_end(chars@, from as int) == line_end(chars@, end as int),
        decreases chars.len() - end,
    {
        end += 1;
    }
    end
}

/// The event that a chunk of text yields.
pub fn decode_text(profile: &AdapterProfile, text: &str) -> (r: Option<StreamEvent>)
    ensures
        match r {
            Some(e) => chunk_event(profile@, text@) == Some(e@),
            None => chunk_event(profile@, text@) is None,
        },
{
    let chars = to_chars(text);
    let n = chars.len();
    let mut acc = String::new();
    let mut from: usize = 0;
    proof {
        match lines_text(profile@, text@, 0) {
            Ok(r) => {
                assert(Seq::<char>::empty() + r =~= r);
            },
            Err(_) => {},
        }
    }
    while from < n
        invariant
            from <= n,
            n == chars.len(),
            chars@ == text@,
            lines_text(profile@, text@, 0) == prepend(
                acc@,
                lines_text(profile@, text@, from as int),
            ),
        decreases n - from,
    {
        let end = find_line_end(&chars, from);
        let stop = if end < n && from < end && chars[end - 1] == '\r' {
            end - 1
        } else {
            end
        };
        let next = if end < n {
            end + 1
        } else {
            end
        };
        let line = text.substring_char(from, stop);
        assert(line@ == line_at(text@, from as int));
        assert(next == next_line(text@, from as int));
        let ghost rest = lines_text(profile@, text@, next as int);
        match decode_line(profile, line) {
            Some(StreamEvent::Error(message)) => {
                return Some(StreamEvent::Error(message));
            },
            Some(StreamEvent::TextDelta(t)) => {
                proof {
                    match rest {
                        Ok(r) => {
                            assert(acc@ + (t@ + r) =~= (acc@ + t@) + r);
                        },
                        Err(_) => {},
                    }
                }
                acc.append(t.as_str());
            },
            _ => {},
        }
        from = next;
    }
    assert(acc@ + Seq::<char>::empty() =~= acc@);
    if acc.as_str().is_empty() {
        None
    } else {
        Some(StreamEvent::TextDelta(acc))
    }
}

/// The event that a chunk of bytes yields. Bytes that are no UTF-8 are read
/// as the replacement character.
pub fn decode_chunk(profile: &AdapterProfile, chunk: &[u8]) -> (r: Option<StreamEvent>)
    ensures
        match r {
            Some(e) => chunk_event(profile@, utf8_lossy(chunk@)) == Some(e@),
            None => chunk_event(profile@, utf8_lossy(chunk@)) is None,
        },
{
    let text = decode_lossy(chunk);
    decode_text(profile, text.as_str())
}

/// The decoder of one response body: it turns chunk after chunk into stream
/// events until the body ends or the turn is cancelled, and then stays ended.
pub struct Decoder {
    profile: AdapterProfile,
    ended: bool,
}

impl Decoder {
    /// The profile by which the decoder reads.
    pub closed spec fn profile(&self) -> Profile {
        self.profile@
    }

    /// Whether the sequence has ended.
    pub closed spec fn ended(&self) -> bool {
        self.ended
    }

    /// A decoder at the start of a body.
    pub fn new(profile: AdapterProfile) -> (d: Decoder)
        ensures
            d.profile() == profile@,
            !d.ended(),
    {
        Decoder { profile, ended: false }
    }

    /// Whether the sequence has ended.
    pub fn is_ended(&self) -> (b: bool)
        ensures
            b == self.ended(),
    {
        self.ended
    }

    /// Takes the next chunk of the body and answers with the event that it
    /// yields, if any. `running` is the cancellation flag as read just before:
    /// once it is false the sequence ends, the chunk is not looked at, and
    /// this and every later call answer `Done`.
    pub fn feed(&mut self, chunk: &[u8], running: bool) -> (r: Option<StreamEvent>)
        ensures
            final(self).profile() == old(self).profile(),
            final(self).ended() == (old(self).ended() || !running),
            final(self).ended() ==> r == Some(StreamEvent::Done),
            !final(self).ended() ==> match r {
                Some(e) => chunk_event(old(self).profile(), utf8_lossy(chunk@)) == Some(e@),
                None => chunk_event(old(self).profile(), utf8_lossy(chunk@)) is None,
            },
    {
        if self.ended || !running {
            self.ended = true;
            Some(StreamEvent::Done)
        } else {
            decode_chunk(&self.profile, chunk)
        }
    }

    /// Ends the sequence: the body has no more chunks.
    pub fn finish(&mut self) -> (r: StreamEvent)
        ensures
            final(self).profile() == old(self).profile(),
            final(self).ended(),
            r is Done,
    {
        self.ended = true;
        StreamEvent::Done
    }
}

} // verus!
