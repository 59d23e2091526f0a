//! The chat log that the window shows, and how inbound frames change it.

use vstd::prelude::*;
use crate::protocol::InboundData;

verus! {

/// A colour as red, green and blue components.
#[derive(Clone, Copy, Debug, PartialEq, Eq, Structural)]
pub struct Rgb {
    pub red: u8,
    pub green: u8,
    pub blue: u8,
}

/// The value of a hexadecimal digit, either case.
pub open spec fn hex_value(c: char) -> Option<nat> {
    if '0' <= c && c <= '9' {
        Some((c as nat - '0' as nat) as nat)
    } else if 'a' <= c && c <= 'f' {
        Some((c as nat - 'a' as nat + 10) as nat)
    } else if 'A' <= c && c <= 'F' {
        Some((c as nat - 'A' as nat + 10) as nat)
    } else {
        None
    }
}

pub open spec fn is_hex(c: char) -> bool {
    hex_value(c) is Some
}

/// The byte that two hexadecimal digits spell, high digit first.
pub open spec fn hex_pair(hi: char, lo: char) -> nat {
    hex_value(hi)->Some_0 * 16 + hex_value(lo)->Some_0
}

/// The colour that a six-digit hexadecimal code `rrggbb` names; any other
/// text names none.
pub open spec fn color_of(s: Seq<char>) -> Option<Rgb> {
    if s.len() == 6 && forall|i: int| 0 <= i < 6 ==> is_hex(#[trigger] s[i]) {
        Some(
            Rgb {
                red: hex_pair(s[0], s[1]) as u8,
                green: hex_pair(s[2], s[3]) as u8,
                blue: hex_pair(s[4], s[5]) as u8,
            },
        )
    } else {
        None
    }
}

fn hex_digit(c: char) -> (r: Option<u8>)
    ensures
        match r {
            Some(v) => hex_value(c) == Some(v as nat) && v < 16,
            None => hex_value(c) is None,
        },
{
    if '0' <= c && c <= '9' {
        Some((c as u32 - '0' as u32) as u8)
    } else if 'a' <= c && c <= 'f' {
        Some((c as u32 - 'a' as u32 + 10) as u8)
    } else if 'A' <= c && c <= 'F' {
        Some((c as u32 - 'A' as u32 + 10) as u8)
    } else {
        None
    }
}

/// Reads a colour code such as `ff0000`.
pub fn parse_color(code: &str) -> (r: Option<Rgb>)
    ensures
        r == color_of(code@),
{
    if code.unicode_len() != 6 {
        return None;
    }
    let mut digits: Vec<u8> = Vec::new();
    let mut i: usize = 0;
    while i < 6
        invariant
            code@.len() == 6,
            i <= 6,
            digits@.len() == i,
            forall|k: int| 0 <= k < i ==> is_hex(#[trigger] code@[k]),
            forall|k: int| 0 <= k < i ==> hex_value(code@[k]) == Some(#[trigger] digits@[k] as nat),
            forall|k: int| 0 <= k < i ==> #[trigger] digits@[k] < 16,
        decreases 6 - i,
    {
        match hex_digit(code.get_char(i)) {
            Some(v) => digits.push(v),
            None => {
                assert(!is_hex(code@[i as int]));
                return None;
            },
        }
        i = i + 1;
    }
    let red = digits[0] * 16 + digits[1];
    let green = digits[2] * 16 + digits[3];
    let blue = digits[4] * 16 + digits[5];
    Some(Rgb { red, green, blue })
}

/// Text with its HTML character references decoded, as html-escape does it.
pub uninterp spec fn html_decoded(s: Seq<char>) -> Seq<char>;

/// Relies on `html_escape::decode_html_entities_to_string`: it appends the
/// decoded text to the buffer it is given, here an empty one.
#[verifier::external_body]
fn decode_entities(text: &str) -> (r: String)
    ensures
        r@ == html_decoded(text@),
{
    let mut out = String::new();
    html_escape::decode_html_entities_to_string(text, &mut out);
    out
}

/// The line break that server messages carry.
pub open spec fn line_break() -> Seq<char> {
    seq!['<', 'b', 'r', '>']
}

/// Puts `p` in front of the first piece.
pub open spec fn prepend(p: Seq<char>, pieces: Seq<Seq<char>>) -> Seq<Seq<char>> {
    pieces.update(0, p + pieces[0])
}

/// The pieces of `s` between line breaks, scanning from the left; a break
/// at either end gives an empty piece there.
pub open spec fn lines(s: Seq<char>) -> Seq<Seq<char>>
    decreases s.len(),
{
    if s.len() == 0 {
        seq![seq![]]
    } else if s.len() >= 4 && s.take(4) == line_break() {
        seq![seq![]] + lines(s.skip(4))
    } else {
        prepend(seq![s[0]], lines(s.drop_first()))
    }
}

proof fn lines_not_empty(s: Seq<char>)
    ensures
        lines(s).len() >= 1,
    decreases s.len(),
{
    if s.len() >= 4 && s.take(4) == line_break() {
        lines_not_empty(s.skip(4));
    } else if s.len() > 0 {
        lines_not_empty(s.drop_first());
    }
}

fn break_at(text: &str, i: usize) -> (r: bool)
    requires
        i <= text@.len(),
    ensures
        r == (text@.skip(i as int).len() >= 4 && text@.skip(i as int).take(4) == line_break()),
{
    if text.unicode_len() - i < 4 {
        return false;
    }
    let r = text.get_char(i) == '<' && text.get_char(i + 1) == 'b' && text.get_char(i + 2) == 'r'
        && text.get_char(i + 3) == '>';
    assert(r ==> text@.skip(i as int).take(4) =~= line_break());
    assert(text@.skip(i as int).take(4) =~= line_break() ==> r) by {
        if text@.skip(i as int).take(4) =~= line_break() {
            assert(text@.skip(i as int).take(4)[0] == text@[i as int]);
            assert(text@.skip(i as int).take(4)[1] == text@[i + 1]);
            assert(text@.skip(i as int).take(4)[2] == text@[i + 2]);
            assert(text@.skip(i as int).take(4)[3] == text@[i + 3]);
        }
    }
    r
}

/// Splits a server message into the lines that its `<br>` breaks mark.
pub fn system_lines(text: &str) -> (r: Vec<String>)
    ensures
        r@.map_values(|p: String| p@) == lines(text@),
{
    let n = text.unicode_len();
    let mut pieces: Vec<String> = Vec::new();
    let mut start: usize = 0;
    let mut i: usize = 0;
    assert(text@.skip(0) =~= text@);
    assert(text@.subrange(0, 0) =~= seq![]);
    proof {
        lines_not_empty(text@);
        assert(prepend(seq![], lines(text@)) =~= lines(text@));
    }
    while i < n
        invariant
            n == text@.len(),
            start <= i <= n,
            lines(text@) == pieces@.map_values(|p: String| p@) + prepend(
                text@.subrange(start as int, i as int),
                lines(text@.skip(i as int)),
            ),
        decreases n - i,
    {
        let rest = Ghost(text@.skip(i as int));
        proof {
            lines_not_empty(rest@);
        }
        if break_at(text, i) {
            let piece = text.substring_char(start, i).to_string();
            proof {
                assert(rest@.skip(4) =~= text@.skip(i + 4));
                lines_not_empty(text@.skip(i + 4));
                let tail = lines(text@.skip(i + 4));
                assert(prepend(text@.subrange(start as int, i as int), seq![seq![]] + tail)
                    =~= seq![text@.subrange(start as int, i as int)] + tail);
                assert(prepend(text@.subrange(i + 4, i + 4), tail) =~= tail);
            }
            let ghost before = pieces@.map_values(|p: String| p@);
            pieces.push(piece);
            assert(pieces@.map_values(|p: String| p@) =~= before.push(piece@));
            i = i + 4;
            start = i;
        } else {
            proof {
                assert(rest@.drop_first() =~= text@.skip(i + 1));
                lines_not_empty(text@.skip(i + 1));
                let tail = lines(text@.skip(i + 1));
                assert(text@.subrange(start as int, i as int) + seq![text@[i as int]]
                    =~= text@.subrange(start as int, i + 1));
                let a = text@.subrange(start as int, i as int);
                let b = seq![text@[i as int]];
                assert(a + (b + tail[0]) =~= (a + b) + tail[0]);
                assert(prepend(text@.subrange(start as int, i as int), prepend(seq![text@[i as int]], tail))
                    =~= prepend(text@.subrange(start as int, i + 1), tail));
            }
            i = i + 1;
        }
    }
    let last = text.substring_char(start, n).to_string();
    proof {
        assert(text@.skip(n as int) =~= seq![]);
        assert(prepend(text@.subrange(start as int, n as int), seq![seq![]])
            =~= seq![text@.subrange(start as int, n as int)]);
    }
    let ghost before = pieces@.map_values(|p: String| p@);
    pieces.push(last);
    assert(pieces@.map_values(|p: String| p@) =~= before.push(last@));
    pieces
}

/// One line of the chat log.
#[derive(Clone, Debug)]
pub enum LogEntry {
    Join(String),
    Leave(String),
    Normal { author: String, color: Option<Rgb>, content: String, id: usize, time: usize },
    System(String),
}

/// Mathematical value of a [`LogEntry`].
pub enum LogEntryView {
    Join(Seq<char>),
    Leave(Seq<char>),
    Normal { author: Seq<char>, color: Option<Rgb>, content: Seq<char>, id: usize, time: usize },
    System(Seq<char>),
}

impl View for LogEntry {
    type V = LogEntryView;

    open spec fn view(&self) -> LogEntryView {
        match self {
            LogEntry::Join(n) => LogEntryView::Join(n@),
            LogEntry::Leave(n) => LogEntryView::Leave(n@),
            LogEntry::Normal { author, color, content, id, time } => LogEntryView::Normal {
                author: author@,
                color: *color,
                content: content@,
                id: *id,
                time: *time,
            },
            LogEntry::System(m) => LogEntryView::System(m@),
        }
    }
}

/// Whether a deletion of the messages `ids` removes `e`.
pub open spec fn deleted_by(e: LogEntryView, ids: Seq<usize>) -> bool {
    match e {
        LogEntryView::Normal { id, .. } => ids.contains(id),
        _ => false,
    }
}

/// The entries that a deletion of `ids` keeps, in their order.
pub open spec fn kept(entries: Seq<LogEntryView>, ids: Seq<usize>) -> Seq<LogEntryView>
    decreases entries.len(),
{
    if entries.len() == 0 {
        seq![]
    } else {
        let rest = kept(entries.drop_last(), ids);
        if deleted_by(entries.last(), ids) {
            rest
        } else {
            rest.push(entries.last())
        }
    }
}

/// The log as plain values.
pub struct ChatLogView {
    pub entries: Seq<LogEntryView>,
    pub username: Option<Seq<char>>,
}

/// The log after an inbound frame, and whether it gained or lost lines.
pub open spec fn applied(log: ChatLogView, d: crate::protocol::InboundDataView) -> (ChatLogView, bool) {
    match d {
        crate::protocol::InboundDataView::Chat { author, author_color, message, id, time, .. } => (
            ChatLogView {
                entries: log.entries.push(
                    LogEntryView::Normal {
                        author,
                        color: color_of(author_color),
                        content: html_decoded(message),
                        id,
                        time,
                    },
                ),
                ..log
            },
            true,
        ),
        crate::protocol::InboundDataView::Delete { messages } => (
            ChatLogView { entries: kept(log.entries, messages), ..log },
            true,
        ),
        crate::protocol::InboundDataView::GetUserConf { name, .. } => (
            ChatLogView { username: Some(name), ..log },
            false,
        ),
        crate::protocol::InboundDataView::Join { name } => (
            ChatLogView { entries: log.entries.push(LogEntryView::Join(name)), ..log },
            true,
        ),
        crate::protocol::InboundDataView::Part { name } => (
            ChatLogView { entries: log.entries.push(LogEntryView::Leave(name)), ..log },
            true,
        ),
        crate::protocol::InboundDataView::ServerMsg { message } => (
            ChatLogView { entries: log.entries.push(LogEntryView::System(message)), ..log },
            true,
        ),
        _ => (log, false),
    }
}

/// The lines shown in the window and the name the server gave this user.
pub struct ChatLog {
    entries: Vec<LogEntry>,
    username: Option<String>,
}

impl View for ChatLog {
    type V = ChatLogView;

    closed spec fn view(&self) -> ChatLogView {
        ChatLogView {
            entries: self.entries@.map_values(|e: LogEntry| e@),
            username: match self.username {
                Some(n) => Some(n@),
                None => None,
            },
        }
    }
}

/// The window title: `user@server - ElmKC`, or `server - ElmKC` before the
/// server has named the user.
pub open spec fn title_text(username: Option<Seq<char>>, server: Seq<char>) -> Seq<char> {
    match username {
        Some(u) => u + "@"@ + server + " - ElmKC"@,
        None => server + " - ElmKC"@,
    }
}

fn contains_id(ids: &Vec<usize>, id: usize) -> (r: bool)
    ensures
        r == ids@.contains(id),
{
    let mut i: usize = 0;
    while i < ids.len()
        invariant
            i <= ids@.len(),
            forall|k: int| 0 <= k < i ==> ids@[k] != id,
        decreases ids@.len() - i,
    {
        if ids[i] == id {
            return true;
        }
        i = i + 1;
    }
    false
}

impl LogEntry {
    /// A chat line from its parts; `content` is the message as it is to be
    /// shown, its HTML references already decoded.
    pub fn chat(author: &str, color_code: &str, content: String, id: usize, time: usize) -> (r: LogEntry)
        ensures
            r@ == (LogEntryView::Normal {
                author: author@,
                color: color_of(color_code@),
                content: content@,
                id,
                time,
            }),
    {
        LogEntry::Normal { author: author.to_string(), color: parse_color(color_code), content, id, time }
    }
}

fn copy_entry(e: &LogEntry) -> (r: LogEntry)
    ensures
        r@ == e@,
{
    match e {
        LogEntry::Join(n) => LogEntry::Join(n.clone()),
        LogEntry::Leave(n) => LogEntry::Leave(n.clone()),
        LogEntry::Normal { author, color, content, id, time } => LogEntry::Normal {
            author: author.clone(),
            color: *color,
            content: content.clone(),
            id: *id,
            time: *time,
        },
        LogEntry::System(m) => LogEntry::System(m.clone()),
    }
}

fn is_deleted(e: &LogEntry, ids: &Vec<usize>) -> (r: bool)
    ensures
        r == deleted_by(e@, ids@),
{
    match e {
        LogEntry::Normal { id, .. } => contains_id(ids, *id),
        _ => false,
    }
}

impl ChatLog {
    pub fn new() -> (r: ChatLog)
        ensures
            r@.entries.len() == 0,
            r@.username is None,
    {
        ChatLog { entries: Vec::new(), username: None }
    }

    pub fn entries(&self) -> (r: &Vec<LogEntry>)
        ensures
            r@.map_values(|e: LogEntry| e@) == self@.entries,
    {
        &self.entries
    }

    pub fn username(&self) -> (r: Option<&String>)
        ensures
            match r {
                Some(n) => self@.username == Some(n@),
                None => self@.username is None,
            },
    {
        match &self.username {
            Some(n) => Some(n),
            None => None,
        }
    }

    pub fn title(&self, server: &str) -> (r: String)
        ensures
            r@ == title_text(self@.username, server@),
    {
        let mut out = String::new();
        match &self.username {
            Some(u) => {
                out.append(u.as_str());
                out.append("@");
            },
            None => {},
        }
        out.append(server);
        out.append(" - ElmKC");
        assert(out@ =~= title_text(self@.username, server@));
        out
    }

    fn remove_messages(&mut self, ids: &Vec<usize>)
        ensures
            final(self)@ == (ChatLogView { entries: kept(old(self)@.entries, ids@), ..old(self)@ }),
    {
        let ghost old_entries = self@.entries;
        let mut out: Vec<LogEntry> = Vec::new();
        let mut i: usize = 0;
        while i < self.entries.len()
            invariant
                i <= self.entries@.len(),
                self@ == old(self)@,
                old_entries == self@.entries,
                out@.map_values(|e: LogEntry| e@) == kept(old_entries.take(i as int), ids@),
            decreases self.entries@.len() - i,
        {
            assert(old_entries.take(i + 1).drop_last() =~= old_entries.take(i as int));
            assert(old_entries.take(i + 1).last() == self.entries@[i as int]@);
            if !is_deleted(&self.entries[i], ids) {
                out.push(copy_entry(&self.entries[i]));
            }
            assert(out@.map_values(|e: LogEntry| e@) =~= kept(old_entries.take(i + 1), ids@));
            i = i + 1;
        }
        assert(old_entries.take(i as int) =~= old_entries);
        self.entries = out;
    }

    /// Takes in an inbound frame. Returns whether lines were added or
    /// removed, so that the view can follow the end of the log.
    pub fn apply(&mut self, data: &InboundData) -> (r: bool)
        ensures
            (final(self)@, r) == applied(old(self)@, data@),
    {
        match data {
            InboundData::Chat { author, author_color, message, id, time, .. } => {
                let content = decode_entities(message.as_str());
                let entry = LogEntry::chat(author.as_str(), author_color.as_str(), content, *id, *time);
                self.entries.push(entry);
                assert(self@.entries =~= old(self)@.entries.push(entry@));
                true
            },
            InboundData::Delete { messages } => {
                self.remove_messages(messages);
                true
            },
            InboundData::GetUserConf { name, .. } => {
                self.username = Some(name.clone());
                false
            },
            InboundData::Join { name } => {
                let entry = LogEntry::Join(name.clone());
                self.entries.push(entry);
                assert(self@.entries =~= old(self)@.entries.push(entry@));
                true
            },
            InboundData::Part { name } => {
                let entry = LogEntry::Leave(name.clone());
                self.entries.push(entry);
                assert(self@.entries =~= old(self)@.entries.push(entry@));
                true
            },
            InboundData::ServerMsg { message } => {
                let entry = LogEntry::System(message.clone());
                self.entries.push(entry);
                assert(self@.entries =~= old(self)@.entries.push(entry@));
                true
            },
            _ => false,
        }
    }
}

} // verus!
