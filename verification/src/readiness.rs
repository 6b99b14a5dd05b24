//! Telling whether the Harness web server is up.
//!
//! The server binds its port at once and answers 404 until its front end is mounted. Showing that
//! answer would leave a white page, so an open port is not enough: the index page must be the real
//! one, which sets `window.__DSH_BOOT__`, and the event route must ask for an upgrade.
use vstd::prelude::*;
use vstd::utf8::{
    decode_utf8, decode_utf8_first_scalar, decode_utf8_split, encode_scalar, is_ascii_chars,
    is_char_boundary_iff_not_is_continuation_byte, pop_first_scalar, take_first_scalar, valid_utf8,
    valid_utf8_split,
};

use crate::text::{chars_of, decimal, decimal_text, join};

verus! {

/// The port that the web server listens on.
pub const PORT: u16 = 3080;

/// The page that shows whether the front end is mounted.
pub const INDEX_ROUTE: &'static str = "/";

/// The route that shows whether the connection plugin is mounted.
pub const EVENTS_ROUTE: &'static str = "/api/events.host";

/// A reply is read until it has grown beyond this many bytes.
pub const REPLY_LIMIT: usize = 65536;

/// How long the web server may take to come up, in milliseconds.
pub const READY_DEADLINE_MS: u64 = 90000;

/// The pause between two looks at the web server, in milliseconds.
pub const POLL_INTERVAL_MS: u64 = 300;

/// The address of the web server.
pub fn url() -> (address: String)
    ensures
        address@ == "http://127.0.0.1:"@ + decimal(PORT as nat),
        address@ == "http://127.0.0.1:3080"@,
{
    let address: String = "http://127.0.0.1:".to_owned().concat(
        decimal_text(PORT as u32).as_str(),
    );
    proof {
        reveal_with_fuel(decimal, 5);
        reveal_strlit("http://127.0.0.1:");
        reveal_strlit("http://127.0.0.1:3080");
        assert(address@ == "http://127.0.0.1:3080"@);
    }
    address
}

/// The ASCII text `text` stands in `buf` at `at`.
pub open spec fn ascii_at(buf: Seq<u8>, text: Seq<char>, at: int) -> bool {
    &&& 0 <= at
    &&& at + text.len() <= buf.len()
    &&& forall|i: int| 0 <= i < text.len() ==> buf[at + i] as u32 == #[trigger] text[i] as u32
}

/// The ASCII text `text` stands somewhere in `buf`.
pub open spec fn ascii_inside(buf: Seq<u8>, text: Seq<char>) -> bool {
    exists|at: int| ascii_at(buf, text, at)
}

/// A reply with the given status, in the form of HTTP/1.1 or HTTP/1.0.
pub open spec fn http_status(buf: Seq<u8>, in_1_1: Seq<char>, in_1_0: Seq<char>) -> bool {
    ascii_at(buf, in_1_1, 0) || ascii_at(buf, in_1_0, 0)
}

/// The index page of a Harness whose front end is mounted.
pub open spec fn dsh_index(buf: Seq<u8>) -> bool {
    http_status(buf, "HTTP/1.1 200"@, "HTTP/1.0 200"@) && ascii_inside(buf, "__DSH_BOOT__"@)
}

/// The event route of a Harness whose connection plugin is mounted.
pub open spec fn dsh_api(buf: Seq<u8>) -> bool {
    http_status(buf, "HTTP/1.1 426"@, "HTTP/1.0 426"@)
}

fn has_ascii_at(buf: &[u8], text: &Vec<char>, at: usize) -> (yes: bool)
    requires
        at <= buf@.len(),
    ensures
        yes == ascii_at(buf@, text@, at as int),
{
    let n: usize = buf.len();
    if text.len() > n - at {
        return false;
    }
    let mut i: usize = 0;
    while i < text.len()
        invariant
            n == buf@.len(),
            at + text@.len() <= n,
            i <= text@.len(),
            forall|k: int| 0 <= k < i ==> buf@[at + k] as u32 == #[trigger] text@[k] as u32,
        decreases text@.len() - i,
    {
        if buf[at + i] as u32 != text[i] as u32 {
            assert(buf@[at + i] as u32 != text@[i as int] as u32);
            return false;
        }
        i += 1;
    }
    true
}

fn has_prefix(buf: &[u8], text: &str) -> (yes: bool)
    ensures
        yes == ascii_at(buf@, text@, 0),
{
    has_ascii_at(buf, &chars_of(text), 0)
}

fn has_inside(buf: &[u8], text: &str) -> (yes: bool)
    ensures
        yes == ascii_inside(buf@, text@),
{
    let pattern: Vec<char> = chars_of(text);
    let mut at: usize = 0;
    while at < buf.len()
        invariant
            pattern@ == text@,
            at <= buf@.len(),
            forall|q: int| 0 <= q < at ==> !ascii_at(buf@, text@, q),
        decreases buf@.len() - at,
    {
        if has_ascii_at(buf, &pattern, at) {
            return true;
        }
        at += 1;
    }
    has_ascii_at(buf, &pattern, at)
}

/// Whether a reply is the real index page.
pub fn looks_like_dsh_index(buf: &[u8]) -> (yes: bool)
    ensures
        yes == dsh_index(buf@),
{
    (has_prefix(buf, "HTTP/1.1 200") || has_prefix(buf, "HTTP/1.0 200")) && has_inside(
        buf,
        "__DSH_BOOT__",
    )
}

/// Whether a reply of the event route shows that the connection plugin is mounted.
pub fn looks_like_dsh_api(buf: &[u8]) -> (yes: bool)
    ensures
        yes == dsh_api(buf@),
{
    has_prefix(buf, "HTTP/1.1 426") || has_prefix(buf, "HTTP/1.0 426")
}

/// What a reply holds; no reply counts as an empty one.
pub open spec fn reply_bytes(reply: Option<Vec<u8>>) -> Seq<u8> {
    match reply {
        Some(buf) => buf@,
        None => seq![],
    }
}

/// Both routes answer as those of a mounted Harness do.
pub open spec fn web_ready(index: Seq<u8>, api: Seq<u8>) -> bool {
    dsh_index(index) && dsh_api(api)
}

/// Whether the reply of the index page makes it worth asking the event route.
pub fn index_is_up(index: &Option<Vec<u8>>) -> (yes: bool)
    ensures
        yes == dsh_index(reply_bytes(*index)),
{
    match index {
        Some(buf) => looks_like_dsh_index(buf.as_slice()),
        None => {
            let empty: Vec<u8> = Vec::new();
            looks_like_dsh_index(empty.as_slice())
        },
    }
}

/// Whether the web server is up, by the replies of its index page and its event route. The event
/// route need not be asked where `index_is_up` says no.
pub fn is_web_ready(index: &Option<Vec<u8>>, api: &Option<Vec<u8>>) -> (ready: bool)
    ensures
        ready == web_ready(reply_bytes(*index), reply_bytes(*api)),
        !dsh_index(reply_bytes(*index)) ==> !ready,
{
    if !index_is_up(index) {
        return false;
    }
    match api {
        Some(buf) => looks_like_dsh_api(buf.as_slice()),
        None => {
            let empty: Vec<u8> = Vec::new();
            looks_like_dsh_api(empty.as_slice())
        },
    }
}

/// The request for `path`, as it is sent to the web server.
pub open spec fn request_text(port: u16, path: Seq<char>) -> Seq<char> {
    "GET "@ + path + " HTTP/1.1\r\nHost: 127.0.0.1:"@ + decimal(port as nat)
        + "\r\nConnection: close\r\n\r\n"@
}

/// The request for `path`, as it is sent to the web server.
pub fn http_request(port: u16, path: &str) -> (request: String)
    ensures
        request@ == request_text(port, path@),
{
    let mut request: String = "GET ".to_owned();
    request.append(path);
    request.append(" HTTP/1.1\r\nHost: 127.0.0.1:");
    request.append(decimal_text(port as u32).as_str());
    request.append("\r\nConnection: close\r\n\r\n");
    request
}

/// What one attempt to read from the connection gave.
#[derive(Debug)]
pub enum ReadEvent {
    /// The other side has closed the connection.
    Closed,
    /// Some bytes arrived.
    Chunk(Vec<u8>),
    /// Reading failed or took too long.
    Failed,
}

/// What one attempt to read from the connection gave.
pub enum ReadView {
    Closed,
    Chunk(Seq<u8>),
    Failed,
}

impl View for ReadEvent {
    type V = ReadView;

    open spec fn view(&self) -> ReadView {
        match self {
            ReadEvent::Closed => ReadView::Closed,
            ReadEvent::Chunk(chunk) => ReadView::Chunk(chunk@),
            ReadEvent::Failed => ReadView::Failed,
        }
    }
}

/// Whether more of a reply is to be read.
#[derive(Clone, Copy, Debug, PartialEq, Eq, Structural)]
pub enum ReadAction {
    Continue,
    Stop,
}

fn append_bytes(buf: &mut Vec<u8>, chunk: &Vec<u8>)
    ensures
        final(buf)@ == old(buf)@ + chunk@,
{
    let ghost before = buf@;
    let mut i: usize = 0;
    while i < chunk.len()
        invariant
            i <= chunk@.len(),
            buf@ == before + chunk@.take(i as int),
        decreases chunk@.len() - i,
    {
        buf.push(chunk[i]);
        assert(chunk@.take(i + 1) == chunk@.take(i as int).push(chunk@[i as int]));
        i += 1;
    }
    assert(chunk@.take(i as int) == chunk@);
}

/// What is there of a reply, and whether more is to be read, after `buf` was there and `event`
/// happened.
pub open spec fn taken(buf: Seq<u8>, event: ReadView) -> (Seq<u8>, ReadAction) {
    match event {
        ReadView::Chunk(chunk) => (
            buf + chunk,
            if chunk.len() > 0 && (buf + chunk).len() <= REPLY_LIMIT {
                ReadAction::Continue
            } else {
                ReadAction::Stop
            },
        ),
        _ => (buf, ReadAction::Stop),
    }
}

/// Takes in what was read of a reply. Bytes are kept in the order in which they arrive, also those
/// that go beyond the limit; an empty chunk is the end of the reply.
pub fn take_reply(buf: &mut Vec<u8>, event: &ReadEvent) -> (action: ReadAction)
    ensures
        (final(buf)@, action) == taken(old(buf)@, event@),
{
    match event {
        ReadEvent::Chunk(chunk) => {
            append_bytes(buf, chunk);
            if chunk.len() == 0 || buf.len() > REPLY_LIMIT {
                ReadAction::Stop
            } else {
                ReadAction::Continue
            }
        },
        _ => ReadAction::Stop,
    }
}

/// What is there of a reply when reading stops, or `events` are used up, after `buf` was there.
pub open spec fn reply_after(buf: Seq<u8>, events: Seq<ReadView>) -> Seq<u8>
    decreases events.len(),
{
    if events.len() == 0 {
        buf
    } else {
        let (next, action) = taken(buf, events[0]);
        if action == ReadAction::Stop {
            next
        } else {
            reply_after(next, events.drop_first())
        }
    }
}

/// What the server sent in the course of `events`: the chunks up to the end of the connection, or to
/// an attempt to read that failed.
pub open spec fn sent(events: Seq<ReadView>) -> Seq<u8>
    decreases events.len(),
{
    if events.len() == 0 {
        seq![]
    } else {
        match events[0] {
            ReadView::Chunk(chunk) if chunk.len() > 0 => chunk + sent(events.drop_first()),
            _ => seq![],
        }
    }
}

/// No chunk holds more than `most` bytes.
pub open spec fn chunks_within(events: Seq<ReadView>, most: nat) -> bool {
    forall|i: int|
        0 <= i < events.len() ==> (#[trigger] events[i] matches ReadView::Chunk(chunk)
            ==> chunk.len() <= most)
}

proof fn lemma_reply_after(buf: Seq<u8>, events: Seq<ReadView>, most: nat)
    requires
        buf.len() <= REPLY_LIMIT,
        chunks_within(events, most),
    ensures
        reply_after(buf, events).is_prefix_of(buf + sent(events)),
        (buf + sent(events)).len() <= REPLY_LIMIT ==> reply_after(buf, events) == buf + sent(
            events,
        ),
        (buf + sent(events)).len() > REPLY_LIMIT ==> reply_after(buf, events).len() > REPLY_LIMIT,
        reply_after(buf, events).len() <= REPLY_LIMIT + most,
    decreases events.len(),
{
    if events.len() > 0 {
        let rest = events.drop_first();
        let (next, action) = taken(buf, events[0]);
        match events[0] {
            ReadView::Chunk(chunk) if chunk.len() > 0 => {
                assert(buf + sent(events) == next + sent(rest));
                if action == ReadAction::Continue {
                    assert forall|i: int| 0 <= i < rest.len() implies (#[trigger] rest[i] matches ReadView::Chunk(
                        piece,
                    ) ==> piece.len() <= most) by {
                        assert(rest[i] == events[i + 1]);
                    }
                    lemma_reply_after(next, rest, most);
                } else {
                    assert(next.is_prefix_of(next + sent(rest)));
                }
            },
            _ => {
                assert(buf + sent(events) == buf);
                assert(next == buf);
            },
        }
    } else {
        assert(buf + sent(events) == buf);
    }
}

/// A reply that was read is the beginning of what the server sent: all of it where that is within
/// the limit, and otherwise more than the limit, but by no more than one chunk.
pub proof fn law_reply_is_what_was_sent(events: Seq<ReadView>, most: nat)
    requires
        chunks_within(events, most),
    ensures
        reply_after(seq![], events).is_prefix_of(sent(events)),
        sent(events).len() <= REPLY_LIMIT ==> reply_after(seq![], events) == sent(events),
        sent(events).len() > REPLY_LIMIT ==> reply_after(seq![], events).len() > REPLY_LIMIT,
        reply_after(seq![], events).len() <= REPLY_LIMIT + most,
{
    let empty = Seq::<u8>::empty();
    lemma_reply_after(empty, events, most);
    assert(empty + sent(events) == sent(events));
}

/// What the wait for the web server does next.
#[derive(Clone, Copy, Debug, PartialEq, Eq, Structural)]
pub enum PollStep {
    /// The server is up: say so, and end the wait.
    Ready,
    /// The process that was waited for is gone: end the wait silently.
    Abandoned,
    /// The time is up: say so, and end the wait.
    TimedOut,
    /// Look again after `POLL_INTERVAL_MS`.
    Wait,
}

/// The next step of the wait for the web server.
pub open spec fn next_poll(
    ready: bool,
    require_owned: bool,
    owned: bool,
    elapsed_ms: int,
) -> PollStep {
    if ready {
        PollStep::Ready
    } else if require_owned && !owned {
        PollStep::Abandoned
    } else if elapsed_ms >= READY_DEADLINE_MS {
        PollStep::TimedOut
    } else {
        PollStep::Wait
    }
}

/// The next step of the wait for the web server. `owned` says whether this application still runs a
/// server process, which matters only if the wait is for that process.
pub fn poll_step(ready: bool, require_owned: bool, owned: bool, elapsed_ms: u64) -> (step: PollStep)
    ensures
        step == next_poll(ready, require_owned, owned, elapsed_ms as int),
{
    if ready {
        PollStep::Ready
    } else if require_owned && !owned {
        PollStep::Abandoned
    } else if elapsed_ms >= READY_DEADLINE_MS {
        PollStep::TimedOut
    } else {
        PollStep::Wait
    }
}

/// The event that a step of the wait announces, if it announces one.
pub fn poll_event(step: PollStep) -> (event: Option<&'static str>)
    ensures
        match step {
            PollStep::Ready => event matches Some(e) && e@ == "server:ready"@,
            PollStep::TimedOut => event matches Some(e) && e@ == "server:timeout"@,
            _ => event is None,
        },
{
    match step {
        PollStep::Ready => Some("server:ready"),
        PollStep::TimedOut => Some("server:timeout"),
        _ => None,
    }
}

/// `word` stands in `text` at `at`.
pub open spec fn word_at(text: Seq<char>, word: Seq<char>, at: int) -> bool {
    0 <= at && at + word.len() <= text.len() && text.subrange(at, at + word.len()) == word
}

/// `word` stands somewhere in `text`.
pub open spec fn word_inside(text: Seq<char>, word: Seq<char>) -> bool {
    exists|at: int| word_at(text, word, at)
}

/// In UTF-8 the first character is `c`, an ASCII one, exactly if the first byte is.
proof fn lemma_first_ascii(buf: Seq<u8>, c: char)
    requires
        valid_utf8(buf),
        buf.len() > 0,
        (c as u32) < 0x80,
    ensures
        decode_utf8(buf).len() > 0,
        decode_utf8(buf)[0] == c <==> buf[0] as u32 == c as u32,
        decode_utf8(buf)[0] == c ==> pop_first_scalar(buf) == buf.drop_first(),
        decode_utf8(buf).drop_first() == decode_utf8(pop_first_scalar(buf)),
{
    let b = buf[0];
    let n = c as u32;
    assert(b <= 0x7f ==> (b & 0x7f) == b) by (bit_vector);
    assert(n < 0x80 ==> ((n & 0x7f) as u8) as u32 == n) by (bit_vector);
    assert(decode_utf8(buf).drop_first() == decode_utf8(pop_first_scalar(buf)));
    if decode_utf8(buf)[0] == c {
        decode_utf8_first_scalar(buf);
        assert(encode_scalar(n) == take_first_scalar(buf));
        assert(take_first_scalar(buf)[0] == b);
        assert(pop_first_scalar(buf) == buf.drop_first());
    }
}

proof fn lemma_ascii_prefix(buf: Seq<u8>, word: Seq<char>)
    requires
        valid_utf8(buf),
        is_ascii_chars(word),
    ensures
        ascii_at(buf, word, 0) <==> word_at(decode_utf8(buf), word, 0),
    decreases word.len(),
{
    let text = decode_utf8(buf);
    if word.len() == 0 {
        assert(text.subrange(0, 0) == word);
    } else if buf.len() > 0 {
        let rest = word.drop_first();
        lemma_first_ascii(buf, word[0]);
        if buf[0] as u32 == word[0] as u32 {
            let tail = pop_first_scalar(buf);
            lemma_ascii_prefix(tail, rest);
            if ascii_at(buf, word, 0) {
                assert forall|i: int| 0 <= i < rest.len() implies tail[0 + i] as u32
                    == #[trigger] rest[i] as u32 by {
                    assert(buf[0 + (i + 1)] as u32 == word[i + 1] as u32);
                }
                assert(decode_utf8(tail).subrange(0, rest.len() as int) == rest);
                assert(text.subrange(0, word.len() as int) == word) by {
                    assert forall|i: int| 0 <= i < word.len() implies text[i] == word[i] by {
                        if i > 0 {
                            assert(text.drop_first()[i - 1] == rest[i - 1]) by {
                                assert(decode_utf8(tail).subrange(0, rest.len() as int)[i - 1]
                                    == rest[i - 1]);
                            }
                        }
                    }
                }
            }
            if word_at(text, word, 0) {
                assert(decode_utf8(tail).subrange(0, rest.len() as int) == rest) by {
                    assert forall|i: int| 0 <= i < rest.len() implies decode_utf8(tail)[i]
                        == rest[i] by {
                        assert(text.drop_first()[i] == text[i + 1]);
                        assert(text.subrange(0, word.len() as int)[i + 1] == word[i + 1]);
                    }
                }
                assert forall|i: int| 0 <= i < word.len() implies buf[0 + i] as u32
                    == #[trigger] word[i] as u32 by {
                    if i > 0 {
                        assert(tail[0 + (i - 1)] as u32 == rest[i - 1] as u32);
                    }
                }
            }
        } else {
            if word_at(text, word, 0) {
                assert(text.subrange(0, word.len() as int)[0] == word[0]);
            }
            if ascii_at(buf, word, 0) {
                assert(word[0] as u32 == buf[0] as u32);
            }
        }
    }
}

/// A word that stands in the text of a reply stands in its bytes.
proof fn lemma_word_inside_bytes(buf: Seq<u8>, word: Seq<char>, at: int)
    requires
        valid_utf8(buf),
        is_ascii_chars(word),
        word_at(decode_utf8(buf), word, at),
    ensures
        ascii_inside(buf, word),
    decreases at,
{
    lemma_ascii_prefix(buf, word);
    if at == 0 {
        assert(ascii_at(buf, word, 0));
    } else {
        let text = decode_utf8(buf);
        let tail = pop_first_scalar(buf);
        let step = buf.len() - tail.len();
        assert(text.drop_first() == decode_utf8(tail));
        assert(text.drop_first().subrange(at - 1, at - 1 + word.len()) == text.subrange(
            at,
            at + word.len(),
        ));
        lemma_word_inside_bytes(tail, word, at - 1);
        let q = choose|q: int| ascii_at(tail, word, q);
        assert(ascii_at(buf, word, q + step)) by {
            assert forall|i: int| 0 <= i < word.len() implies buf[q + step + i] as u32
                == #[trigger] word[i] as u32 by {
                assert(tail[q + i] as u32 == word[i] as u32);
            }
        }
    }
}

/// An ASCII word that stands in the bytes of a reply stands in its text.
proof fn lemma_bytes_inside_word(buf: Seq<u8>, word: Seq<char>, at: int)
    requires
        valid_utf8(buf),
        is_ascii_chars(word),
        word.len() > 0,
        ascii_at(buf, word, at),
    ensures
        word_inside(decode_utf8(buf), word),
{
    let tail = buf.subrange(at, buf.len() as int);
    assert(buf[at + 0] as u32 == word[0] as u32);
    is_char_boundary_iff_not_is_continuation_byte(buf, at);
    valid_utf8_split(buf, at);
    decode_utf8_split(buf, at);
    assert(ascii_at(tail, word, 0)) by {
        assert forall|i: int| 0 <= i < word.len() implies tail[0 + i] as u32
            == #[trigger] word[i] as u32 by {
            assert(buf[at + i] as u32 == word[i] as u32);
        }
    }
    lemma_ascii_prefix(tail, word);
    let text = decode_utf8(buf);
    let skipped = decode_utf8(buf.subrange(0, at)).len() as int;
    assert(text.subrange(skipped, skipped + word.len()) == decode_utf8(tail).subrange(
        0,
        word.len() as int,
    ));
    assert(word_at(text, word, skipped));
}

/// Of a reply that is UTF-8 the bytes decide as its text would: the status stands at the start of
/// the text, and the mark of the real index page somewhere in it.
pub proof fn law_bytes_decide_as_text(buf: Seq<u8>)
    requires
        valid_utf8(buf),
    ensures
        dsh_index(buf) <==> (word_at(decode_utf8(buf), "HTTP/1.1 200"@, 0) || word_at(
            decode_utf8(buf),
            "HTTP/1.0 200"@,
            0,
        )) && word_inside(decode_utf8(buf), "__DSH_BOOT__"@),
        dsh_api(buf) <==> word_at(decode_utf8(buf), "HTTP/1.1 426"@, 0) || word_at(
            decode_utf8(buf),
            "HTTP/1.0 426"@,
            0,
        ),
{
    reveal_strlit("HTTP/1.1 200");
    reveal_strlit("HTTP/1.0 200");
    reveal_strlit("HTTP/1.1 426");
    reveal_strlit("HTTP/1.0 426");
    reveal_strlit("__DSH_BOOT__");
    lemma_ascii_prefix(buf, "HTTP/1.1 200"@);
    lemma_ascii_prefix(buf, "HTTP/1.0 200"@);
    lemma_ascii_prefix(buf, "HTTP/1.1 426"@);
    lemma_ascii_prefix(buf, "HTTP/1.0 426"@);
    let mark = "__DSH_BOOT__"@;
    if ascii_inside(buf, mark) {
        lemma_bytes_inside_word(buf, mark, choose|at: int| ascii_at(buf, mark, at));
    }
    if word_inside(decode_utf8(buf), mark) {
        lemma_word_inside_bytes(buf, mark, choose|at: int| word_at(decode_utf8(buf), mark, at));
    }
}

/// The answers that the server gives before its front end is mounted never count as ready, whatever
/// stands in them and whatever the event route says.
pub proof fn law_startup_404_is_not_ready(index: Seq<u8>, api: Seq<u8>)
    requires
        ascii_at(index, "HTTP/1.1 404"@, 0) || ascii_at(index, "HTTP/1.0 404"@, 0),
    ensures
        !web_ready(index, api),
{
    reveal_strlit("HTTP/1.1 404");
    reveal_strlit("HTTP/1.0 404");
    reveal_strlit("HTTP/1.1 200");
    reveal_strlit("HTTP/1.0 200");
    assert("HTTP/1.1 200"@[9] == '2');
    assert("HTTP/1.0 200"@[9] == '2');
    assert("HTTP/1.1 404"@[9] == '4');
    assert("HTTP/1.0 404"@[9] == '4');
}

/// A port that accepts connections but sends nothing is not ready.
pub proof fn law_silence_is_not_ready(index: Seq<u8>, api: Seq<u8>)
    requires
        index.len() == 0 || api.len() == 0,
    ensures
        !web_ready(index, api),
{
    reveal_strlit("HTTP/1.1 200");
    reveal_strlit("HTTP/1.0 200");
    reveal_strlit("HTTP/1.1 426");
    reveal_strlit("HTTP/1.0 426");
}

/// The wait for the server pauses only a bounded number of times: `elapsed` holds the time that had
/// passed at each look which led to another pause, and the pauses lie between the looks.
pub proof fn law_wait_is_bounded(require_owned: bool, owned: Seq<bool>, elapsed: Seq<int>)
    requires
        owned.len() == elapsed.len(),
        forall|i: int|
            0 <= i < elapsed.len() ==> next_poll(false, require_owned, owned[i], #[trigger] elapsed[i])
                == PollStep::Wait && elapsed[i] >= i * POLL_INTERVAL_MS,
    ensures
        elapsed.len() * POLL_INTERVAL_MS <= READY_DEADLINE_MS,
        elapsed.len() <= 300,
{
    if elapsed.len() > 0 {
        let last = elapsed.len() - 1;
        assert(elapsed[last] >= last * POLL_INTERVAL_MS);
    }
}

/// The bytes of an ASCII text.
pub open spec fn ascii_bytes(text: Seq<char>) -> Seq<u8> {
    text.map_values(|c: char| c as u8)
}

proof fn lemma_ascii_at_is_subrange(buf: Seq<u8>, text: Seq<char>, at: int)
    requires
        is_ascii_chars(text),
    ensures
        ascii_at(buf, text, at) <==> 0 <= at && at + text.len() <= buf.len() && buf.subrange(
            at,
            at + text.len(),
        ) == ascii_bytes(text),
{
    let bytes = ascii_bytes(text);
    assert forall|i: int| 0 <= i < text.len() implies (#[trigger] text[i]) as u32 == bytes[i] as u32 by {
        let n = text[i] as u32;
        assert(n < 0x80 ==> (n as u8) as u32 == n) by (bit_vector);
    }
    if 0 <= at && at + text.len() <= buf.len() {
        let part = buf.subrange(at, at + text.len());
        if ascii_at(buf, text, at) {
            assert forall|i: int| 0 <= i < part.len() implies part[i] == bytes[i] by {
                assert(text[i] as u32 == bytes[i] as u32);
                assert(buf[at + i] as u32 == text[i] as u32);
            }
            assert(part == bytes);
        }
        if part == bytes {
            assert forall|i: int| 0 <= i < text.len() implies buf[at + i] as u32
                == #[trigger] text[i] as u32 by {
                assert(part[i] == bytes[i]);
            }
        }
    }
}

/// The bytes of `word` stand somewhere in `buf`.
pub open spec fn bytes_inside(buf: Seq<u8>, word: Seq<u8>) -> bool {
    exists|front: Seq<u8>, back: Seq<u8>| buf == #[trigger] (front + word + back)
}

/// The web server counts as up exactly if the index page is answered with the status 200 and holds
/// the mark of the real page, and the event route is answered with the status 426. Both versions of
/// HTTP count, and nothing else does.
pub proof fn law_ready_iff_both_routes_are_mounted(index: Seq<u8>, api: Seq<u8>)
    ensures
        web_ready(index, api) <==> (ascii_bytes("HTTP/1.1 200"@).is_prefix_of(index)
            || ascii_bytes("HTTP/1.0 200"@).is_prefix_of(index)) && bytes_inside(
            index,
            ascii_bytes("__DSH_BOOT__"@),
        ) && (ascii_bytes("HTTP/1.1 426"@).is_prefix_of(api) || ascii_bytes(
            "HTTP/1.0 426"@,
        ).is_prefix_of(api)),
        web_ready(index, api) <==> dsh_index(index) && dsh_api(api),
        dsh_index(index) <==> (ascii_bytes("HTTP/1.1 200"@).is_prefix_of(index) || ascii_bytes(
            "HTTP/1.0 200"@,
        ).is_prefix_of(index)) && bytes_inside(index, ascii_bytes("__DSH_BOOT__"@)),
        dsh_api(api) <==> (ascii_bytes("HTTP/1.1 426"@).is_prefix_of(api) || ascii_bytes(
            "HTTP/1.0 426"@,
        ).is_prefix_of(api)),
{
    reveal_strlit("HTTP/1.1 200");
    reveal_strlit("HTTP/1.0 200");
    reveal_strlit("HTTP/1.1 426");
    reveal_strlit("HTTP/1.0 426");
    reveal_strlit("__DSH_BOOT__");
    lemma_ascii_at_is_subrange(index, "HTTP/1.1 200"@, 0);
    lemma_ascii_at_is_subrange(index, "HTTP/1.0 200"@, 0);
    lemma_ascii_at_is_subrange(api, "HTTP/1.1 426"@, 0);
    lemma_ascii_at_is_subrange(api, "HTTP/1.0 426"@, 0);
    let mark = "__DSH_BOOT__"@;
    let word = ascii_bytes(mark);
    if ascii_inside(index, mark) {
        let at = choose|at: int| ascii_at(index, mark, at);
        lemma_ascii_at_is_subrange(index, mark, at);
        let front = index.take(at);
        let back = index.skip(at + mark.len());
        assert(index == front + word + back) by {
            assert(index == front + index.subrange(at, at + mark.len()) + back);
        }
    }
    if bytes_inside(index, word) {
        let (front, back) = choose|front: Seq<u8>, back: Seq<u8>|
            index == #[trigger] (front + word + back);
        let at = front.len() as int;
        assert(index.subrange(at, at + mark.len()) == word);
        lemma_ascii_at_is_subrange(index, mark, at);
        assert(ascii_at(index, mark, at));
    }
}

/// A route that was not answered counts as one that was answered with nothing.
pub proof fn law_no_reply_is_an_empty_one(buf: Vec<u8>)
    ensures
        reply_bytes(Some(buf)) == buf@,
        reply_bytes(None) == Seq::<u8>::empty(),
{
}

/// A request is the lines that HTTP asks for, an empty one at the end.
pub proof fn law_request_is_made_of_lines(port: u16, path: Seq<char>)
    ensures
        request_text(port, path) == join(
            seq![
                "GET "@ + path + " HTTP/1.1"@,
                "Host: 127.0.0.1:"@ + decimal(port as nat),
                "Connection: close"@,
                ""@,
                ""@,
            ],
            "\r\n"@,
        ),
{
    reveal_strlit(" HTTP/1.1\r\nHost: 127.0.0.1:");
    reveal_strlit("\r\nConnection: close\r\n\r\n");
    reveal_strlit(" HTTP/1.1");
    reveal_strlit("Host: 127.0.0.1:");
    reveal_strlit("Connection: close");
    reveal_strlit("");
    reveal_strlit("\r\n");
    let first = "GET "@ + path + " HTTP/1.1"@;
    let second = "Host: 127.0.0.1:"@ + decimal(port as nat);
    let third = "Connection: close"@;
    let eol = "\r\n"@;
    assert(seq![first, second, third, ""@, ""@].drop_last() == seq![first, second, third, ""@]);
    assert(seq![first, second, third, ""@].drop_last() == seq![first, second, third]);
    assert(seq![first, second, third].drop_last() == seq![first, second]);
    assert(seq![first, second].drop_last() == seq![first]);
    reveal_with_fuel(join, 6);
    assert(" HTTP/1.1\r\nHost: 127.0.0.1:"@ == " HTTP/1.1"@ + eol + "Host: 127.0.0.1:"@);
    assert("\r\nConnection: close\r\n\r\n"@ == eol + third + eol + ""@ + eol + ""@);
    assert(request_text(port, path) == first + eol + second + eol + third + eol + ""@ + eol + ""@);
}

/// A look that finds the server up ends the wait as ready, whoever runs the server and however long
/// it took, and no other look does. Otherwise the wait is given up exactly if it was for a process
/// that is gone, and ends as timed out exactly if ninety seconds have passed; until then it goes on.
pub proof fn law_wait_ends_for_its_reason(
    ready: bool,
    require_owned: bool,
    owned: bool,
    elapsed_ms: int,
)
    ensures
        next_poll(ready, require_owned, owned, elapsed_ms) == PollStep::Ready <==> ready,
        next_poll(ready, require_owned, owned, elapsed_ms) == PollStep::Abandoned <==> !ready
            && require_owned && !owned,
        next_poll(ready, require_owned, owned, elapsed_ms) == PollStep::TimedOut <==> !ready && (
        require_owned ==> owned) && elapsed_ms >= 90000,
        next_poll(ready, require_owned, owned, elapsed_ms) == PollStep::Wait <==> !ready && (
        require_owned ==> owned) && elapsed_ms < 90000,
{
}

/// A server that comes up is announced at the first look that finds it up, as long as the wait has
/// not ended before.
pub proof fn law_wait_is_patient(require_owned: bool, owned: bool, other: bool, early: int, late: int)
    requires
        early <= late,
        next_poll(false, require_owned, owned, late) == PollStep::Wait,
    ensures
        next_poll(false, require_owned, owned, early) == PollStep::Wait,
        next_poll(true, require_owned, other, late) == PollStep::Ready,
{
}

/// Reading goes on exactly as long as bytes come and no more than 65536 of them are there.
pub proof fn law_reading_goes_on_within_the_limit(buf: Seq<u8>, event: ReadView)
    ensures
        taken(buf, event).1 == ReadAction::Continue <==> (event matches ReadView::Chunk(chunk)
            && chunk.len() > 0 && buf.len() + chunk.len() <= 65536),
        buf.is_prefix_of(taken(buf, event).0),
        event matches ReadView::Chunk(chunk) ==> taken(buf, event).0 == buf + chunk,
        !(event is Chunk) ==> taken(buf, event).0 == buf,
{
}

} // verus!
