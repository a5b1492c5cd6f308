//! The history renderer: formats a bounded window over the most recent
//! fetched messages — at most the last fifteen, shown oldest-first — one
//! display line per message, joined with carriage-return/newline pairs, and
//! composes the full screen text around it. Timestamps are rendered in the
//! machine's local time zone through chrono; a timestamp that does not parse
//! falls back to its raw text rather than aborting the render pass.

use vstd::prelude::*;
use vstd::string::StringExecFns;

verus! {

/// How many messages the window shows at most.
pub const WINDOW_SIZE: usize = 15;

/// A chat message as fetched from the gateway: an RFC 3339 timestamp
/// string, an optional sender name, and the body text.
pub struct Message {
    pub date: String,
    pub from: Option<String>,
    pub body: String,
}

/// The mathematical value of a message: its three fields as sequences.
pub struct MessageView {
    pub date: Seq<char>,
    pub from: Option<Seq<char>>,
    pub body: Seq<char>,
}

impl View for Message {
    type V = MessageView;

    open spec fn view(&self) -> MessageView {
        MessageView {
            date: self.date@,
            from: match self.from {
                Some(n) => Some(n@),
                None => None,
            },
            body: self.body@,
        }
    }
}

/// The sender name a message displays: its own when it carries one, the
/// sentinel otherwise.
pub open spec fn sender_of(m: MessageView) -> Seq<char> {
    match m.from {
        Some(n) => n,
        None => "Unknown"@,
    }
}

impl Message {
    /// The sender name to display, defaulting to the sentinel when the
    /// message carries none.
    pub fn sender(&self) -> (r: &str)
        ensures
            r@ == sender_of(self@),
    {
        match &self.from {
            Some(n) => n.as_str(),
            None => "Unknown",
        }
    }
}

/// Whether chrono accepts a string as an RFC 3339 date-time; this depends on
/// the characters alone.
pub uninterp spec fn rfc3339_valid(date: Seq<char>) -> bool;

/// Relies on chrono's DateTime::parse_from_rfc3339, DateTime::with_timezone
/// with chrono::Local, and DateTime::format with "%m/%d %H:%M". Whether the
/// parse succeeds depends on the date string alone; the rendered text also
/// depends on the machine's time zone, so nothing is stated of its
/// characters.
#[verifier::external_body]
fn local_stamp(date: &str) -> (r: Option<String>)
    ensures
        r is Some <==> rfc3339_valid(date@),
{
    match chrono::DateTime::parse_from_rfc3339(date) {
        Ok(t) => Some(t.with_timezone(&chrono::Local).format("%m/%d %H:%M").to_string()),
        Err(_) => None,
    }
}

/// The timestamp text a message line shows: the localized rendering when
/// the date parses, the raw date text otherwise.
fn stamp_for(date: &str) -> (r: String)
    ensures
        !rfc3339_valid(date@) ==> r@ == date@,
{
    match local_stamp(date) {
        Some(s) => s,
        None => date.to_owned(),
    }
}

/// One display line: `[<timestamp>] [<sender>]: <body>`.
pub open spec fn line_text(stamp: Seq<char>, sender: Seq<char>, body: Seq<char>) -> Seq<char> {
    "["@ + stamp + "] ["@ + sender + "]: "@ + body
}

/// Build one display line from its three parts.
pub fn format_line(stamp: &str, sender: &str, body: &str) -> (r: String)
    ensures
        r@ == line_text(stamp@, sender@, body@),
{
    let mut r = "[".to_owned();
    r.append(stamp);
    r.append("] [");
    r.append(sender);
    r.append("]: ");
    r.append(body);
    proof {
        assert(r@ =~= line_text(stamp@, sender@, body@));
    }
    r
}

/// Where the displayed window starts in a history of `m` messages.
pub open spec fn window_start(m: int) -> int {
    if m <= 15 {
        0
    } else {
        m - 15
    }
}

/// How many lines the window shows of a history of `m` messages: all of
/// them up to fifteen.
pub open spec fn window_len(m: int) -> int {
    if m <= 15 {
        m
    } else {
        15
    }
}

/// The display lines of the window: one per selected message, in the
/// original chronological order, oldest of the selected subset first.
pub open spec fn window_lines(msgs: Seq<MessageView>, stamps: Seq<Seq<char>>) -> Seq<Seq<char>> {
    Seq::new(
        window_len(msgs.len() as int) as nat,
        |i: int|
            line_text(
                stamps[i],
                sender_of(msgs[window_start(msgs.len() as int) + i]),
                msgs[window_start(msgs.len() as int) + i].body,
            ),
    )
}

/// Lines joined with carriage-return/newline pairs into one block of text.
pub open spec fn joined(lines: Seq<Seq<char>>) -> Seq<char>
    decreases lines.len(),
{
    if lines.len() == 0 {
        Seq::<char>::empty()
    } else if lines.len() == 1 {
        lines[0]
    } else {
        joined(lines.drop_last()) + "\r\n"@ + lines.last()
    }
}

/// The whole rendered window of a history, given the timestamp text of each
/// selected message.
pub open spec fn window_text(msgs: Seq<MessageView>, stamps: Seq<Seq<char>>) -> Seq<char> {
    joined(window_lines(msgs, stamps))
}

/// The message values of a fetched history.
pub open spec fn msg_views(ms: Seq<Message>) -> Seq<MessageView> {
    ms.map_values(|m: Message| m@)
}

/// The text values of a sequence of strings.
pub open spec fn str_views(ss: Seq<String>) -> Seq<Seq<char>> {
    ss.map_values(|s: String| s@)
}

/// Law: the rendered window of a history of `M` messages has exactly
/// `min(M, 15)` lines, and line `i` shows the message at `window_start + i`
/// — the selected messages keep their original chronological order, none
/// reordered, none dropped, none repeated.
pub proof fn lemma_window_shape(msgs: Seq<MessageView>, stamps: Seq<Seq<char>>)
    ensures
        window_lines(msgs, stamps).len() == window_len(msgs.len() as int),
        forall|i: int|
            0 <= i < window_len(msgs.len() as int) ==> window_lines(msgs, stamps)[i] == line_text(
                stamps[i],
                sender_of(msgs[window_start(msgs.len() as int) + i]),
                msgs[window_start(msgs.len() as int) + i].body,
            ),
{
}

/// Law: rendering is deterministic in the fetched messages and their
/// timestamp texts — two refreshes whose gateway responses and rendered
/// timestamps agree produce identical output.
pub proof fn lemma_render_idempotent(
    msgs1: Seq<MessageView>,
    stamps1: Seq<Seq<char>>,
    msgs2: Seq<MessageView>,
    stamps2: Seq<Seq<char>>,
)
    requires
        msgs1 == msgs2,
        stamps1 == stamps2,
    ensures
        window_text(msgs1, stamps1) == window_text(msgs2, stamps2),
{
}

/// Render the window lines of a history, given one timestamp text per
/// selected message.
pub fn render_lines(messages: &Vec<Message>, stamps: &Vec<String>) -> (r: String)
    requires
        stamps@.len() == window_len(messages@.len() as int),
    ensures
        r@ == window_text(msg_views(messages@), str_views(stamps@)),
{
    let ghost mv = msg_views(messages@);
    let ghost sv = str_views(stamps@);
    let len = messages.len();
    let start = if len <= WINDOW_SIZE {
        0
    } else {
        len - WINDOW_SIZE
    };
    let n = stamps.len();
    let mut r = String::new();
    let mut k: usize = 0;
    while k < n
        invariant
            n == stamps@.len(),
            len == messages@.len(),
            n == window_len(len as int),
            start == window_start(len as int),
            start + n == len,
            mv == msg_views(messages@),
            sv == str_views(stamps@),
            k <= n,
            r@ == joined(window_lines(mv, sv).take(k as int)),
        decreases n - k,
    {
        let m = &messages[start + k];
        let line = format_line(stamps[k].as_str(), m.sender(), m.body.as_str());
        proof {
            assert(mv[start + k] == messages@[start + k as int]@);
            assert(sv[k as int] == stamps@[k as int]@);
            assert(line@ == window_lines(mv, sv)[k as int]);
        }
        if k == 0 {
            r = line;
        } else {
            r.append("\r\n");
            r.append(line.as_str());
        }
        proof {
            let wl = window_lines(mv, sv);
            assert(wl.take(k + 1).drop_last() =~= wl.take(k as int));
            assert(wl.take(k + 1).last() == wl[k as int]);
            assert(r@ == joined(wl.take(k + 1)));
        }
        k += 1;
    }
    proof {
        assert(window_lines(mv, sv).take(n as int) =~= window_lines(mv, sv));
    }
    r
}

/// Whether a sequence of timestamp texts is one that rendering a history
/// can have produced: one per selected message, each the raw date text
/// wherever that date is not a valid RFC 3339 date-time. (Where the date is
/// valid, the text came from the machine's local clock rules and nothing
/// more is known of it.)
pub open spec fn stamps_admissible(msgs: Seq<MessageView>, stamps: Seq<Seq<char>>) -> bool {
    &&& stamps.len() == window_len(msgs.len() as int)
    &&& forall|i: int|
        0 <= i < stamps.len() ==> (!rfc3339_valid(
            msgs[window_start(msgs.len() as int) + i].date,
        ) ==> stamps[i] == msgs[window_start(msgs.len() as int) + i].date)
}

/// Format the window over the most recent messages: at most the last
/// fifteen, oldest-first, one line each, with localized timestamps falling
/// back to the raw date text when parsing fails.
pub fn format_window(messages: &Vec<Message>) -> (r: String)
    ensures
        exists|stamps: Seq<Seq<char>>|
            stamps_admissible(msg_views(messages@), stamps) && r@ == window_text(
                msg_views(messages@),
                stamps,
            ),
{
    let ghost mv = msg_views(messages@);
    let len = messages.len();
    let start = if len <= WINDOW_SIZE {
        0
    } else {
        len - WINDOW_SIZE
    };
    let mut stamps: Vec<String> = Vec::new();
    let mut idx = start;
    while idx < len
        invariant
            len == messages@.len(),
            mv == msg_views(messages@),
            start == window_start(len as int),
            start <= idx <= len,
            stamps@.len() == idx - start,
            forall|i: int|
                0 <= i < stamps@.len() ==> (!rfc3339_valid(mv[start + i].date) ==> stamps@[i]@
                    == mv[start + i].date),
        decreases len - idx,
    {
        let s = stamp_for(messages[idx].date.as_str());
        proof {
            assert(mv[idx as int] == messages@[idx as int]@);
        }
        stamps.push(s);
        idx += 1;
    }
    let r = render_lines(messages, &stamps);
    proof {
        let sv = str_views(stamps@);
        assert(stamps_admissible(mv, sv));
    }
    r
}

/// The full screen text: the history block, then the separator line of
/// dashes, then the prompt marker, each part led in by a
/// carriage-return/newline pair.
pub open spec fn screen_text(history: Seq<char>) -> Seq<char> {
    history + "\r\n ------------------------------------------------------------ \r\n> "@
}

/// Compose the full screen around a rendered history block.
pub fn compose_screen(history: &str) -> (r: String)
    ensures
        r@ == screen_text(history@),
{
    let mut r = history.to_owned();
    r.append("\r\n ------------------------------------------------------------ \r\n> ");
    r
}

} // verus!
