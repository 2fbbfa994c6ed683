//! What the terminal client draws, decided from its state: which screen, the
//! shortened identifiers, the peer list rows, the status line and the key hints.
//! Drawing itself happens outside.

use vstd::prelude::*;
use vstd::utf8::*;
use crate::text::{byte_prefix, concat, concat3, decimal, decimal_string, spec_byte_prefix};
use crate::tui::{App, InputMode, ModeView, ChatEntry};

verus! {

broadcast use vstd::string::group_string_axioms, vstd::utf8::group_utf8_lib;

/// A terminal area.
#[derive(PartialEq, Eq, Clone, Copy, Debug)]
pub struct Rect {
    pub x: u16,
    pub y: u16,
    pub width: u16,
    pub height: u16,
}

/// The area inside a one-cell border.
pub fn inner_rect(r: Rect) -> (i: Rect)
    requires
        r.x < u16::MAX,
        r.y < u16::MAX,
    ensures
        i.x == r.x + 1,
        i.y == r.y + 1,
        i.width == if r.width >= 2 { r.width - 2 } else { 0 },
        i.height == if r.height >= 2 { r.height - 2 } else { 0 },
{
    Rect {
        x: r.x + 1,
        y: r.y + 1,
        width: if r.width >= 2 { r.width - 2 } else { 0 },
        height: if r.height >= 2 { r.height - 2 } else { 0 },
    }
}

/// `id` cut to its first `max` bytes followed by an ellipsis when it is longer.
pub open spec fn spec_shorten(id: Seq<char>, max: nat) -> Seq<char> {
    if encode_utf8(id).len() > max {
        spec_byte_prefix(id, max) + seq!['\u{2026}']
    } else {
        id
    }
}

/// Whether `id` can be shortened to `max` bytes: the cut falls on a character
/// boundary, and the byte length fits in `usize`, as for any string in memory.
pub open spec fn shortenable(id: Seq<char>, max: nat) -> bool {
    &&& encode_utf8(id).len() <= usize::MAX
    &&& encode_utf8(id).len() > max ==> is_char_boundary(encode_utf8(id), max as int)
}

/// Shortens an identifier for display.
pub fn shorten(id: &str, max: usize) -> (r: String)
    requires
        shortenable(id@, max as nat),
    ensures
        r@ == spec_shorten(id@, max as nat),
{
    if id.len() > max {
        let head = byte_prefix(id, max);
        proof {
            reveal_strlit("\u{2026}");
        }
        concat(head.as_str(), "\u{2026}")
    } else {
        id.to_owned()
    }
}

/// The screen being shown.
pub enum Screen {
    Main,
    Chat { peer_id: String },
}

/// How a status line is coloured.
#[derive(PartialEq, Eq, Clone, Copy, Debug)]
pub enum Tone {
    Success,
    Failure,
}

/// Status lines that begin with a check mark report success.
pub open spec fn spec_tone(msg: Seq<char>) -> Tone {
    if msg.len() > 0 && msg[0] == '\u{2713}' {
        Tone::Success
    } else {
        Tone::Failure
    }
}

/// The colour of a status line.
pub fn status_tone(msg: &str) -> (t: Tone)
    ensures
        t == spec_tone(msg@),
{
    let v = crate::text::chars_of(msg);
    if v.len() > 0 && v[0] == '\u{2713}' {
        Tone::Success
    } else {
        Tone::Failure
    }
}

/// What the input box of the main screen shows.
pub enum InputPanel {
    /// The NodeID prompt with the text typed so far.
    Prompt,
    /// The last status message, coloured by its tone.
    Status { message: String, tone: Tone },
    /// Nothing.
    Empty,
}

/// Colour of a row of key hints.
#[derive(PartialEq, Eq, Clone, Copy, Debug)]
pub enum Accent {
    Cyan,
    Yellow,
}

/// One key hint: the key and what it does.
pub struct Hint {
    pub key: &'static str,
    pub label: &'static str,
}

/// A [`Hint`] as plain values.
pub open spec fn hint_view(h: Hint) -> (Seq<char>, Seq<char>) {
    (h.key@, h.label@)
}

/// A row of key hints.
pub struct HintBar {
    pub accent: Accent,
    pub hints: Vec<Hint>,
}

/// The hints of the main screen in each mode.
pub open spec fn spec_main_hints(m: ModeView) -> (Accent, Seq<(Seq<char>, Seq<char>)>) {
    match m {
        ModeView::Normal => (
            Accent::Cyan,
            seq![("[c]"@, " connect  "@), ("[t]"@, " chat  "@), ("[q]"@, " quit"@)],
        ),
        ModeView::Connecting => (Accent::Yellow, seq![("[enter]"@, " dial  "@), ("[esc]"@, " cancel"@)]),
        ModeView::ChatBrowse => (
            Accent::Yellow,
            seq![("[\u{2191}\u{2193}]"@, " select  "@), ("[enter]"@, " open chat  "@), ("[esc]"@, " cancel"@)],
        ),
        _ => (Accent::Cyan, Seq::empty()),
    }
}

/// The hints of the chat screen in each mode.
pub open spec fn spec_chat_hints(m: ModeView) -> (Accent, Seq<(Seq<char>, Seq<char>)>) {
    match m {
        ModeView::Chatting(_) => (Accent::Cyan, seq![("[i]"@, " type  "@), ("[esc]"@, " back"@)]),
        ModeView::ChatInput(_) => (Accent::Yellow, seq![("[enter]"@, " send  "@), ("[esc]"@, " cancel"@)]),
        _ => (Accent::Cyan, Seq::empty()),
    }
}

/// A row of the peer list.
pub struct PeerRow {
    pub label: String,
    pub selected: bool,
}

/// A row of the chat history: who wrote it and what.
pub struct ChatRow {
    pub label: &'static str,
    pub text: String,
    pub from_self: bool,
}

/// The label shown before a history line.
pub open spec fn spec_chat_label(from_self: bool) -> Seq<char> {
    if from_self {
        "  you  "@
    } else {
        " them  "@
    }
}

fn hint(key: &'static str, label: &'static str) -> (h: Hint)
    ensures
        h.key == key,
        h.label == label,
{
    Hint { key, label }
}

impl App {
    /// The screen to draw: the chat screen while chatting with a peer, else the main screen.
    pub fn screen(&self) -> (s: Screen)
        ensures
            match self@.input_mode {
                ModeView::Chatting(p) | ModeView::ChatInput(p) => s matches Screen::Chat { peer_id }
                    && peer_id@ == p,
                _ => s is Main,
            },
    {
        match &self.input_mode {
            InputMode::Chatting { peer_id } | InputMode::ChatInput { peer_id } => Screen::Chat {
                peer_id: peer_id.clone(),
            },
            _ => Screen::Main,
        }
    }

    /// The NodeID shown in the header, cut to 24 bytes.
    pub fn node_id_display(&self) -> (r: String)
        requires
            shortenable(self@.node_id, 24),
        ensures
            r@ == spec_shorten(self@.node_id, 24),
    {
        shorten(self.node_id.as_str(), 24)
    }

    /// Title of the peer list: ` peers (<count>) `.
    pub fn peers_title(&self) -> (r: String)
        ensures
            r@ == " peers ("@ + decimal(self@.peers.len()) + ") "@,
    {
        let n = decimal_string(self.peers.len() as u64);
        concat3(" peers (", n.as_str(), ") ")
    }

    /// Whether the peer list is being browsed (its border is highlighted).
    pub fn browsing(&self) -> (r: bool)
        ensures
            r == (self@.input_mode is ChatBrowse),
    {
        match self.input_mode {
            InputMode::ChatBrowse => true,
            _ => false,
        }
    }

    /// The rows of the peer list: each NodeID cut to 32 bytes, and the cursor's
    /// row selected while browsing.
    pub fn peer_rows(&self) -> (r: Vec<PeerRow>)
        requires
            forall|i: int| 0 <= i < self@.peers.len() ==> shortenable(#[trigger] self@.peers[i], 32),
        ensures
            r@.len() == self@.peers.len(),
            forall|i: int|
                0 <= i < r@.len() ==> (#[trigger] r@[i]).label@ == spec_shorten(self@.peers[i], 32)
                    && r@[i].selected == (self@.input_mode is ChatBrowse && i == self@.peer_cursor),
    {
        let browse = self.browsing();
        let mut rows: Vec<PeerRow> = Vec::new();
        let n = self.peers.len();
        let mut k: usize = 0;
        while k < n
            invariant
                n == self@.peers.len(),
                k <= n,
                browse == (self@.input_mode is ChatBrowse),
                forall|i: int| 0 <= i < self@.peers.len() ==> shortenable(#[trigger] self@.peers[i], 32),
                rows@.len() == k,
                forall|i: int|
                    0 <= i < k ==> (#[trigger] rows@[i]).label@ == spec_shorten(self@.peers[i], 32)
                        && rows@[i].selected == (browse && i == self.peer_cursor),
            decreases n - k,
        {
            assert(self@.peers[k as int] == self.peers@[k as int]@);
            let label = shorten(self.peers[k].as_str(), 32);
            rows.push(PeerRow { label, selected: browse && k == self.peer_cursor });
            k = k + 1;
        }
        rows
    }

    /// What the input box of the main screen shows: the prompt while typing a
    /// NodeID, the status message on the main screen and while browsing, else nothing.
    pub fn input_panel(&self) -> (p: InputPanel)
        ensures
            match self@.input_mode {
                ModeView::Connecting => p is Prompt,
                ModeView::Normal | ModeView::ChatBrowse => match self@.status_msg {
                    Some(m) => p matches InputPanel::Status { message, tone } && message@ == m
                        && tone == spec_tone(m),
                    None => p is Empty,
                },
                _ => p is Empty,
            },
    {
        match &self.input_mode {
            InputMode::Connecting => InputPanel::Prompt,
            InputMode::Normal | InputMode::ChatBrowse => match &self.status_msg {
                Some(m) => InputPanel::Status { message: m.clone(), tone: status_tone(m.as_str()) },
                None => InputPanel::Empty,
            },
            _ => InputPanel::Empty,
        }
    }

    /// The key hints under the main screen.
    pub fn main_hints(&self) -> (h: HintBar)
        ensures
            (h.accent, h.hints@.map_values(|x: Hint| hint_view(x))) == spec_main_hints(self@.input_mode),
    {
        let mut hints: Vec<Hint> = Vec::new();
        let accent = match self.input_mode {
            InputMode::Normal => {
                hints.push(hint("[c]", " connect  "));
                hints.push(hint("[t]", " chat  "));
                hints.push(hint("[q]", " quit"));
                Accent::Cyan
            },
            InputMode::Connecting => {
                hints.push(hint("[enter]", " dial  "));
                hints.push(hint("[esc]", " cancel"));
                Accent::Yellow
            },
            InputMode::ChatBrowse => {
                hints.push(hint("[\u{2191}\u{2193}]", " select  "));
                hints.push(hint("[enter]", " open chat  "));
                hints.push(hint("[esc]", " cancel"));
                Accent::Yellow
            },
            _ => Accent::Cyan,
        };
        assert(hints@.map_values(|x: Hint| hint_view(x)) =~= spec_main_hints(self@.input_mode).1);
        HintBar { accent, hints }
    }

    /// The key hints under the chat screen.
    pub fn chat_hints(&self) -> (h: HintBar)
        ensures
            (h.accent, h.hints@.map_values(|x: Hint| hint_view(x))) == spec_chat_hints(self@.input_mode),
    {
        let mut hints: Vec<Hint> = Vec::new();
        let accent = match self.input_mode {
            InputMode::Chatting { .. } => {
                hints.push(hint("[i]", " type  "));
                hints.push(hint("[esc]", " back"));
                Accent::Cyan
            },
            InputMode::ChatInput { .. } => {
                hints.push(hint("[enter]", " send  "));
                hints.push(hint("[esc]", " cancel"));
                Accent::Yellow
            },
            _ => Accent::Cyan,
        };
        assert(hints@.map_values(|x: Hint| hint_view(x)) =~= spec_chat_hints(self@.input_mode).1);
        HintBar { accent, hints }
    }

    /// Whether a message is being typed on the chat screen.
    pub fn typing(&self) -> (r: bool)
        ensures
            r == (self@.input_mode is ChatInput),
    {
        match self.input_mode {
            InputMode::ChatInput { .. } => true,
            _ => false,
        }
    }

    /// Title of the chat input box.
    pub fn chat_input_title(&self) -> (r: &'static str)
        ensures
            r@ == if self@.input_mode is ChatInput {
                " message "@
            } else {
                " press [i] to type "@
            },
    {
        if self.typing() {
            " message "
        } else {
            " press [i] to type "
        }
    }

    /// The rows of the chat history, oldest first.
    pub fn chat_rows(&self) -> (r: Vec<ChatRow>)
        ensures
            r@.len() == self@.chat_history.len(),
            forall|i: int|
                0 <= i < r@.len() ==> (#[trigger] r@[i]).label@ == spec_chat_label(
                    self@.chat_history[i].0,
                ) && r@[i].from_self == self@.chat_history[i].0 && r@[i].text@
                    == self@.chat_history[i].1,
    {
        let mut rows: Vec<ChatRow> = Vec::new();
        let n = self.chat_history.len();
        let mut k: usize = 0;
        while k < n
            invariant
                n == self.chat_history@.len(),
                k <= n,
                rows@.len() == k,
                forall|i: int|
                    0 <= i < k ==> (#[trigger] rows@[i]).label@ == spec_chat_label(
                        self.chat_history@[i].from_self,
                    ) && rows@[i].from_self == self.chat_history@[i].from_self && rows@[i].text@
                        == self.chat_history@[i].text@,
            decreases n - k,
        {
            let e: &ChatEntry = &self.chat_history[k];
            let label = if e.from_self {
                "  you  "
            } else {
                " them  "
            };
            rows.push(ChatRow { label, text: e.text.clone(), from_self: e.from_self });
            k = k + 1;
        }
        rows
    }

    /// Where the terminal cursor sits while typing: after the typed text inside
    /// the box at `area` (the text's byte length, kept to 16 bits, as the column offset).
    pub fn input_cursor(&self, area: Rect) -> (c: (u16, u16))
        requires
            encode_utf8(self@.input_buf).len() <= usize::MAX,
            area.x + 1 + (encode_utf8(self@.input_buf).len() % 65536) <= u16::MAX,
            area.y < u16::MAX,
        ensures
            c.0 == area.x + 1 + (encode_utf8(self@.input_buf).len() % 65536),
            c.1 == area.y + 1,
    {
        let len = self.input_buf.as_str().len();
        let off: u16 = ((len as u64) % 65536) as u16;
        (area.x + 1 + off, area.y + 1)
    }
}

/// Title of the chat screen with `peer_id`: its NodeID cut to 16 bytes.
pub fn chat_title(peer_id: &str) -> (r: String)
    requires
        shortenable(peer_id@, 16),
    ensures
        r@ == " chat \u{2194} "@ + spec_shorten(peer_id@, 16) + " "@,
{
    let short = shorten(peer_id, 16);
    concat3(" chat \u{2194} ", short.as_str(), " ")
}

} // verus!
