//! The terminal client's state machine: how each key press and each answer of
//! the daemon changes what the client shows, and which request it sends next.
//! The event loop itself (terminal, timers, HTTP) runs outside and feeds the
//! key presses and answers in.

use vstd::prelude::*;
use crate::text::{byte_prefix, concat, concat3, pop_char, push_char, spec_byte_prefix, starts_with, strip_prefixes, trim, trim_start_matches, trimmed};
use crate::json::{decode_string_list, encode_string, json_parse_string_list, json_string_text};
use crate::api::bearer;
use crate::text::{decimal, decimal_string};
use crate::chat::ChatMessage;
use vstd::utf8::*;
use vstd::string::StringSliceAdditionalSpecFns;

verus! {

broadcast use vstd::string::group_string_axioms, vstd::utf8::group_utf8_lib;

/// What the client is doing, which decides what keys mean.
pub enum InputMode {
    /// The main screen.
    Normal,
    /// Typing a NodeID to dial.
    Connecting,
    /// Choosing a peer to chat with.
    ChatBrowse,
    /// The chat screen with a peer.
    Chatting { peer_id: String },
    /// Typing a message to a peer.
    ChatInput { peer_id: String },
}

/// An [`InputMode`] as plain values.
pub enum ModeView {
    Normal,
    Connecting,
    ChatBrowse,
    Chatting(Seq<char>),
    ChatInput(Seq<char>),
}

impl View for InputMode {
    type V = ModeView;

    open spec fn view(&self) -> ModeView {
        match self {
            InputMode::Normal => ModeView::Normal,
            InputMode::Connecting => ModeView::Connecting,
            InputMode::ChatBrowse => ModeView::ChatBrowse,
            InputMode::Chatting { peer_id } => ModeView::Chatting(peer_id@),
            InputMode::ChatInput { peer_id } => ModeView::ChatInput(peer_id@),
        }
    }
}

/// One line of the chat history.
pub struct ChatEntry {
    pub from_self: bool,
    pub text: String,
}

/// A [`ChatEntry`] as plain values.
pub open spec fn entry_view(e: ChatEntry) -> (bool, Seq<char>) {
    (e.from_self, e.text@)
}

/// The client's state.
pub struct App {
    pub node_id: String,
    pub mode_label: String,
    pub peers: Vec<String>,
    /// Selected index in `peers`.
    pub peer_cursor: usize,
    pub input_mode: InputMode,
    pub input_buf: String,
    pub status_msg: Option<String>,
    /// Messages of the active chat session.
    pub chat_history: Vec<ChatEntry>,
    pub api_base: String,
    pub api_key: String,
}

/// An [`App`] as plain values.
#[verifier::ext_equal]
pub struct AppView {
    pub node_id: Seq<char>,
    pub mode_label: Seq<char>,
    pub peers: Seq<Seq<char>>,
    pub peer_cursor: usize,
    pub input_mode: ModeView,
    pub input_buf: Seq<char>,
    pub status_msg: Option<Seq<char>>,
    pub chat_history: Seq<(bool, Seq<char>)>,
    pub api_base: Seq<char>,
    pub api_key: Seq<char>,
}

impl View for App {
    type V = AppView;

    open spec fn view(&self) -> AppView {
        AppView {
            node_id: self.node_id@,
            mode_label: self.mode_label@,
            peers: self.peers.deep_view(),
            peer_cursor: self.peer_cursor,
            input_mode: self.input_mode@,
            input_buf: self.input_buf@,
            status_msg: match self.status_msg {
                Some(m) => Some(m@),
                None => None,
            },
            chat_history: self.chat_history@.map_values(|e: ChatEntry| entry_view(e)),
            api_base: self.api_base@,
            api_key: self.api_key@,
        }
    }
}

/// A key press, as far as the client tells keys apart.
pub enum KeyInput {
    Char(char),
    Enter,
    Esc,
    Backspace,
    Up,
    Down,
    Other,
}

/// What the event loop does after a key press.
pub enum Command {
    Nothing,
    Quit,
    /// Ask the daemon to dial this NodeID.
    Connect { node_id: String },
    /// Ask the daemon to send this message to this peer.
    SendChat { peer_id: String, message: String },
}

/// A [`Command`] as plain values.
pub enum CommandView {
    Nothing,
    Quit,
    Connect(Seq<char>),
    SendChat(Seq<char>, Seq<char>),
}

impl View for Command {
    type V = CommandView;

    open spec fn view(&self) -> CommandView {
        match self {
            Command::Nothing => CommandView::Nothing,
            Command::Quit => CommandView::Quit,
            Command::Connect { node_id } => CommandView::Connect(node_id@),
            Command::SendChat { peer_id, message } => CommandView::SendChat(peer_id@, message@),
        }
    }
}

/// The client's state invariant: while there are peers, the cursor selects one.
pub open spec fn cursor_ok(a: AppView) -> bool {
    a.peers.len() > 0 ==> a.peer_cursor < a.peers.len()
}

/// Editing of the input line: Backspace drops the last character, a character key appends it.
pub open spec fn edit_line(buf: Seq<char>, k: KeyInput) -> Seq<char> {
    match k {
        KeyInput::Backspace => if buf.len() > 0 {
            buf.drop_last()
        } else {
            buf
        },
        KeyInput::Char(c) => buf.push(c),
        _ => buf,
    }
}

/// The effect of a key press on the client, and the command it leads to.
pub open spec fn key_step(a: AppView, k: KeyInput) -> (AppView, CommandView) {
    match a.input_mode {
        ModeView::Normal => match k {
            KeyInput::Char('q') => (a, CommandView::Quit),
            KeyInput::Char('c') => (
                AppView {
                    input_mode: ModeView::Connecting,
                    input_buf: Seq::empty(),
                    status_msg: None,
                    ..a
                },
                CommandView::Nothing,
            ),
            KeyInput::Char('t') => if a.peers.len() > 0 {
                (AppView { input_mode: ModeView::ChatBrowse, ..a }, CommandView::Nothing)
            } else {
                (AppView { status_msg: Some("\u{2717} no peers connected"@), ..a }, CommandView::Nothing)
            },
            _ => (a, CommandView::Nothing),
        },
        ModeView::Connecting => match k {
            KeyInput::Esc => (
                AppView { input_mode: ModeView::Normal, input_buf: Seq::empty(), ..a },
                CommandView::Nothing,
            ),
            KeyInput::Enter => {
                let node = trimmed(a.input_buf);
                (
                    AppView { input_mode: ModeView::Normal, input_buf: Seq::empty(), ..a },
                    if node.len() > 0 {
                        CommandView::Connect(node)
                    } else {
                        CommandView::Nothing
                    },
                )
            },
            KeyInput::Backspace | KeyInput::Char(_) => (
                AppView { input_buf: edit_line(a.input_buf, k), ..a },
                CommandView::Nothing,
            ),
            _ => (a, CommandView::Nothing),
        },
        ModeView::ChatBrowse => match k {
            KeyInput::Esc => (AppView { input_mode: ModeView::Normal, ..a }, CommandView::Nothing),
            KeyInput::Up => (
                AppView {
                    peer_cursor: if a.peer_cursor > 0 {
                        (a.peer_cursor - 1) as usize
                    } else {
                        a.peer_cursor
                    },
                    ..a
                },
                CommandView::Nothing,
            ),
            KeyInput::Down => (
                AppView {
                    peer_cursor: if a.peer_cursor + 1 < a.peers.len() {
                        (a.peer_cursor + 1) as usize
                    } else {
                        a.peer_cursor
                    },
                    ..a
                },
                CommandView::Nothing,
            ),
            KeyInput::Enter => if a.peer_cursor < a.peers.len() {
                (
                    AppView {
                        chat_history: Seq::empty(),
                        input_mode: ModeView::Chatting(a.peers[a.peer_cursor as int]),
                        ..a
                    },
                    CommandView::Nothing,
                )
            } else {
                (a, CommandView::Nothing)
            },
            _ => (a, CommandView::Nothing),
        },
        ModeView::Chatting(p) => match k {
            KeyInput::Esc => (
                AppView { input_mode: ModeView::Normal, chat_history: Seq::empty(), ..a },
                CommandView::Nothing,
            ),
            KeyInput::Char('i') => (
                AppView { input_mode: ModeView::ChatInput(p), input_buf: Seq::empty(), ..a },
                CommandView::Nothing,
            ),
            _ => (a, CommandView::Nothing),
        },
        ModeView::ChatInput(p) => match k {
            KeyInput::Esc => (
                AppView { input_mode: ModeView::Chatting(p), input_buf: Seq::empty(), ..a },
                CommandView::Nothing,
            ),
            KeyInput::Enter => {
                let msg = trimmed(a.input_buf);
                (
                    AppView { input_mode: ModeView::Chatting(p), input_buf: Seq::empty(), ..a },
                    if msg.len() > 0 {
                        CommandView::SendChat(p, msg)
                    } else {
                        CommandView::Nothing
                    },
                )
            },
            KeyInput::Backspace | KeyInput::Char(_) => (
                AppView { input_buf: edit_line(a.input_buf, k), ..a },
                CommandView::Nothing,
            ),
            _ => (a, CommandView::Nothing),
        },
    }
}

impl App {
    /// The state the client starts in, before it has heard from the daemon.
    pub fn new(api_base: String, api_key: String) -> (r: App)
        ensures
            r@.node_id == "connecting..."@,
            r@.mode_label == Seq::<char>::empty(),
            r@.peers == Seq::<Seq<char>>::empty(),
            r@.peer_cursor == 0,
            r@.input_mode == ModeView::Normal,
            r@.input_buf == Seq::<char>::empty(),
            r@.status_msg is None,
            r@.chat_history == Seq::<(bool, Seq<char>)>::empty(),
            r@.api_base == api_base@,
            r@.api_key == api_key@,
    {
        let r = App {
            node_id: "connecting...".to_owned(),
            mode_label: String::new(),
            peers: Vec::new(),
            peer_cursor: 0,
            input_mode: InputMode::Normal,
            input_buf: String::new(),
            status_msg: None,
            chat_history: Vec::new(),
            api_base,
            api_key,
        };
        assert(r@.peers =~= Seq::<Seq<char>>::empty());
        assert(r@.chat_history =~= Seq::<(bool, Seq<char>)>::empty());
        r
    }

    fn edit_input(&mut self, key: &KeyInput)
        ensures
            final(self)@ == (AppView { input_buf: edit_line(old(self)@.input_buf, *key), ..old(self)@ }),
    {
        match key {
            KeyInput::Backspace => {
                let _ = pop_char(&mut self.input_buf);
            },
            KeyInput::Char(c) => {
                push_char(&mut self.input_buf, *c);
            },
            _ => {},
        }
    }

    /// Applies a key press and returns what the event loop must do next.
    pub fn handle_key(&mut self, key: KeyInput) -> (r: Command)
        ensures
            (final(self)@, r@) == key_step(old(self)@, key),
    {
        let ghost a = self@;
        match &self.input_mode {
            InputMode::Normal => match key {
                KeyInput::Char('q') => Command::Quit,
                KeyInput::Char('c') => {
                    self.input_mode = InputMode::Connecting;
                    self.input_buf = String::new();
                    self.status_msg = None;
                    Command::Nothing
                },
                KeyInput::Char('t') => {
                    if self.peers.len() > 0 {
                        self.input_mode = InputMode::ChatBrowse;
                    } else {
                        self.status_msg = Some("\u{2717} no peers connected".to_owned());
                    }
                    Command::Nothing
                },
                _ => Command::Nothing,
            },
            InputMode::Connecting => match key {
                KeyInput::Esc => {
                    self.input_mode = InputMode::Normal;
                    self.input_buf = String::new();
                    Command::Nothing
                },
                KeyInput::Enter => {
                    let node_id = trim(self.input_buf.as_str());
                    self.input_mode = InputMode::Normal;
                    self.input_buf = String::new();
                    if !node_id.as_str().is_empty() {
                        Command::Connect { node_id }
                    } else {
                        Command::Nothing
                    }
                },
                KeyInput::Backspace | KeyInput::Char(_) => {
                    self.edit_input(&key);
                    Command::Nothing
                },
                _ => Command::Nothing,
            },
            InputMode::ChatBrowse => match key {
                KeyInput::Esc => {
                    self.input_mode = InputMode::Normal;
                    Command::Nothing
                },
                KeyInput::Up => {
                    if self.peer_cursor > 0 {
                        self.peer_cursor = self.peer_cursor - 1;
                    }
                    Command::Nothing
                },
                KeyInput::Down => {
                    if self.peers.len() > 0 && self.peer_cursor < self.peers.len() - 1 {
                        self.peer_cursor = self.peer_cursor + 1;
                    }
                    Command::Nothing
                },
                KeyInput::Enter => {
                    if self.peer_cursor < self.peers.len() {
                        let peer_id = self.peers[self.peer_cursor].clone();
                        self.chat_history = Vec::new();
                        self.input_mode = InputMode::Chatting { peer_id };
                        assert(self@ =~= key_step(a, key).0);
                    }
                    Command::Nothing
                },
                _ => Command::Nothing,
            },
            InputMode::Chatting { peer_id } => match key {
                KeyInput::Esc => {
                    self.input_mode = InputMode::Normal;
                    self.chat_history = Vec::new();
                    assert(self@ =~= key_step(a, key).0);
                    Command::Nothing
                },
                KeyInput::Char('i') => {
                    let p = peer_id.clone();
                    self.input_mode = InputMode::ChatInput { peer_id: p };
                    self.input_buf = String::new();
                    Command::Nothing
                },
                _ => Command::Nothing,
            },
            InputMode::ChatInput { peer_id } => match key {
                KeyInput::Esc => {
                    let p = peer_id.clone();
                    self.input_mode = InputMode::Chatting { peer_id: p };
                    self.input_buf = String::new();
                    Command::Nothing
                },
                KeyInput::Enter => {
                    let p = peer_id.clone();
                    let message = trim(self.input_buf.as_str());
                    self.input_mode = InputMode::Chatting { peer_id: p.clone() };
                    self.input_buf = String::new();
                    if !message.as_str().is_empty() {
                        Command::SendChat { peer_id: p, message }
                    } else {
                        Command::Nothing
                    }
                },
                KeyInput::Backspace | KeyInput::Char(_) => {
                    self.edit_input(&key);
                    Command::Nothing
                },
                _ => Command::Nothing,
            },
        }
    }
}

/// Interval, in milliseconds, between refreshes of the status and the peer list.
pub const POLL_INTERVAL_MS: u64 = 2000;

/// Interval, in milliseconds, between polls of the chat inbox while chatting.
pub const CHAT_POLL_INTERVAL_MS: u64 = 500;

/// Whether the status and peer list are due for a refresh, `elapsed_ms` after the last one.
pub fn refresh_due(elapsed_ms: u64) -> (r: bool)
    ensures
        r == (elapsed_ms >= POLL_INTERVAL_MS),
{
    elapsed_ms >= POLL_INTERVAL_MS
}

/// The base URL of the daemon's API on this machine.
pub fn api_base_url(port: u16) -> (r: String)
    ensures
        r@ == "http://127.0.0.1:"@ + decimal(port as nat),
{
    let p = decimal_string(port as u64);
    concat("http://127.0.0.1:", p.as_str())
}

fn json_text(s: &str) -> (r: String)
    ensures
        r@ == json_string_text(s@),
{
    match encode_string(s) {
        Ok(t) => t,
        // cannot happen: encoding a string always succeeds
        Err(_) => String::new(),
    }
}

/// Body of `POST /connect`: the JSON object `{"node_id":<node_id>}`.
pub fn connect_request_body(node_id: &str) -> (r: String)
    ensures
        r@ == "{\"node_id\":"@ + json_string_text(node_id@) + "}"@,
{
    let id = json_text(node_id);
    concat3("{\"node_id\":", id.as_str(), "}")
}

/// Body of `POST /chat/send`: the JSON object
/// `{"message":<message>,"node_id":<peer_id>}`, keys in sorted order as a
/// `serde_json` object writes them.
pub fn chat_send_request_body(peer_id: &str, message: &str) -> (r: String)
    ensures
        r@ == "{\"message\":"@ + json_string_text(message@) + ",\"node_id\":"@ + json_string_text(
            peer_id@,
        ) + "}"@,
{
    let m = json_text(message);
    let p = json_text(peer_id);
    let head = concat3("{\"message\":", m.as_str(), ",\"node_id\":");
    concat3(head.as_str(), p.as_str(), "}")
}

/// The daemon's answer to a request, or why none came.
pub enum Reply {
    /// An HTTP answer: whether its status is a success, and its body.
    Answered { success: bool, text: String },
    /// The request failed, with the error's text.
    Failed { error: String },
}

/// The effect of a `GET /status` answer (`None` when the daemon could not be reached).
pub open spec fn status_update(a: AppView, body: Option<Seq<char>>) -> AppView {
    match body {
        None => AppView { node_id: "daemon unreachable"@, mode_label: Seq::empty(), ..a },
        Some(b) => if "NodeID:"@.is_prefix_of(b) {
            AppView {
                node_id: trimmed(strip_prefixes(b, "NodeID:"@)),
                mode_label: "iroh active"@,
                ..a
            }
        } else {
            AppView { node_id: "\u{2014}"@, mode_label: "reticulum-only"@, ..a }
        },
    }
}

/// The effect of a peer list (`None` when the answer was not a JSON array of
/// strings): the list replaces the peers and the cursor is pulled back into it.
pub open spec fn peers_update(a: AppView, ids: Option<Seq<Seq<char>>>) -> AppView {
    match ids {
        Some(v) => AppView {
            peers: v,
            peer_cursor: if v.len() > 0 && a.peer_cursor > v.len() - 1 {
                (v.len() - 1) as usize
            } else {
                a.peer_cursor
            },
            ..a
        },
        None => AppView { peers: Seq::empty(), ..a },
    }
}

/// A [`Reply`] as plain values: `Ok((success, body))` or `Err(error)`.
pub open spec fn reply_view(r: Reply) -> Result<(bool, Seq<char>), Seq<char>> {
    match r {
        Reply::Answered { success, text } => Ok((success, text@)),
        Reply::Failed { error } => Err(error@),
    }
}

/// The status line after a `POST /connect` reply.
pub open spec fn connect_status(r: Result<(bool, Seq<char>), Seq<char>>) -> Seq<char> {
    match r {
        Ok((true, t)) => "\u{2713} "@ + t,
        Ok((false, t)) => "\u{2717} "@ + t,
        Err(e) => "\u{2717} request failed: "@ + e,
    }
}

/// The effect of a `POST /chat/send` reply for `message`: on success the message
/// joins the history as the user's own, otherwise the status line reports why not.
pub open spec fn send_update(a: AppView, message: Seq<char>, r: Result<(bool, Seq<char>), Seq<char>>) -> AppView {
    match r {
        Ok((true, _)) => AppView { chat_history: a.chat_history.push((true, message)), ..a },
        Ok((false, t)) => AppView { status_msg: Some("\u{2717} "@ + t), ..a },
        Err(e) => AppView { status_msg: Some("\u{2717} send failed: "@ + e), ..a },
    }
}

/// How many leading bytes of a sender's NodeID the chat shows.
pub open spec fn sender_prefix_len(from: Seq<char>) -> nat {
    let n = encode_utf8(from).len();
    if n < 8 {
        n
    } else {
        8
    }
}

/// The history line for a received message: the sender's first 8 bytes, `: `, the text.
pub open spec fn inbox_line(m: ChatMessage) -> (bool, Seq<char>) {
    (false, spec_byte_prefix(m.from@, sender_prefix_len(m.from@)) + ": "@ + m.text@)
}

/// Whether the sender prefix of every message can be cut (falls on a character
/// boundary); every sender's byte length fits in `usize`, as for any string in memory.
pub open spec fn inbox_cuttable(msgs: Seq<ChatMessage>) -> bool {
    forall|i: int|
        0 <= i < msgs.len() ==> {
            &&& encode_utf8(#[trigger] msgs[i].from@).len() <= usize::MAX
            &&& is_char_boundary(encode_utf8(msgs[i].from@), sender_prefix_len(msgs[i].from@) as int)
        }
}

impl App {
    /// Takes in the answer of `GET /status` (`None` when the request failed).
    pub fn apply_status(&mut self, body: Option<String>)
        ensures
            final(self)@ == status_update(
                old(self)@,
                match body {
                    Some(b) => Some(b@),
                    None => None,
                },
            ),
    {
        proof {
            reveal_strlit("NodeID:");
        }
        match body {
            None => {
                self.node_id = "daemon unreachable".to_owned();
                self.mode_label = String::new();
            },
            Some(b) => {
                if starts_with(b.as_str(), "NodeID:") {
                    let rest = trim_start_matches(b.as_str(), "NodeID:");
                    self.node_id = trim(rest.as_str());
                    self.mode_label = "iroh active".to_owned();
                } else {
                    self.node_id = "\u{2014}".to_owned();
                    self.mode_label = "reticulum-only".to_owned();
                }
            },
        }
    }

    /// Takes in a peer list (`None` when the answer was not a JSON array of strings).
    pub fn apply_peer_list(&mut self, ids: Option<Vec<String>>)
        ensures
            final(self)@ == peers_update(
                old(self)@,
                match ids {
                    Some(v) => Some(v.deep_view()),
                    None => None,
                },
            ),
    {
        match ids {
            Some(v) => {
                if v.len() > 0 && self.peer_cursor > v.len() - 1 {
                    self.peer_cursor = v.len() - 1;
                }
                self.peers = v;
            },
            None => {
                self.peers = Vec::new();
                assert(self.peers.deep_view() =~= Seq::<Seq<char>>::empty());
            },
        }
    }

    /// Takes in the answer of `GET /peers` (`None` when the request failed, which
    /// leaves the client as it was).
    pub fn apply_peers_body(&mut self, body: Option<String>)
        ensures
            match body {
                Some(b) => final(self)@ == peers_update(old(self)@, json_parse_string_list(b@)),
                None => final(self)@ == old(self)@,
            },
    {
        match body {
            Some(b) => {
                let ids = decode_string_list(b.as_str());
                self.apply_peer_list(ids);
            },
            None => {},
        }
    }

    /// Takes in the reply to `POST /connect`; returns whether the peer list is to
    /// be fetched again (after a successful dial).
    pub fn apply_connect_reply(&mut self, reply: Reply) -> (refresh: bool)
        ensures
            final(self)@ == (AppView { status_msg: Some(connect_status(reply_view(reply))), ..old(self)@ }),
            refresh == (reply_view(reply) matches Ok((s, _)) && s),
    {
        match reply {
            Reply::Answered { success, text } => {
                if success {
                    self.status_msg = Some(concat("\u{2713} ", text.as_str()));
                    true
                } else {
                    self.status_msg = Some(concat("\u{2717} ", text.as_str()));
                    false
                }
            },
            Reply::Failed { error } => {
                self.status_msg = Some(concat("\u{2717} request failed: ", error.as_str()));
                false
            },
        }
    }

    /// Takes in the reply to `POST /chat/send` for `message`.
    pub fn apply_send_reply(&mut self, message: &str, reply: Reply)
        ensures
            final(self)@ == send_update(old(self)@, message@, reply_view(reply)),
    {
        let ghost a = self@;
        match reply {
            Reply::Answered { success, text } => {
                if success {
                    let entry = ChatEntry { from_self: true, text: message.to_owned() };
                    self.chat_history.push(entry);
                    assert(self@.chat_history =~= a.chat_history.push((true, message@)));
                } else {
                    self.status_msg = Some(concat("\u{2717} ", text.as_str()));
                }
            },
            Reply::Failed { error } => {
                self.status_msg = Some(concat("\u{2717} send failed: ", error.as_str()));
            },
        }
        assert(self@ =~= send_update(a, message@, reply_view(reply)));
    }

    /// Takes in the messages drained from the daemon's inbox: each joins the
    /// history as the peer's, prefixed with the first 8 bytes of its sender's NodeID.
    pub fn apply_inbox(&mut self, messages: Vec<ChatMessage>)
        requires
            inbox_cuttable(messages@),
        ensures
            final(self)@ == (AppView {
                chat_history: old(self)@.chat_history + messages@.map_values(|m: ChatMessage| inbox_line(m)),
                ..old(self)@
            }),
    {
        let ghost a = self@;
        let n = messages.len();
        let mut k: usize = 0;
        while k < n
            invariant
                n == messages@.len(),
                k <= n,
                inbox_cuttable(messages@),
                self@ == (AppView {
                    chat_history: a.chat_history + messages@.take(k as int).map_values(|m: ChatMessage| inbox_line(m)),
                    ..a
                }),
            decreases n - k,
        {
            let m = &messages[k];
            let fs = m.from.as_str();
            let flen = fs.len();
            let cut = if flen < 8 { flen } else { 8 };
            assert(fs.spec_bytes() == encode_utf8(m.from@));
            assert(cut == sender_prefix_len(m.from@));
            assert(is_char_boundary(encode_utf8(messages@[k as int].from@), sender_prefix_len(messages@[k as int].from@) as int));
            let head = byte_prefix(fs, cut);
            proof {
                reveal_strlit(": ");
            }
            let line = concat3(head.as_str(), ": ", m.text.as_str());
            let ghost before = self@.chat_history;
            self.chat_history.push(ChatEntry { from_self: false, text: line });
            assert(self@.chat_history =~= before.push(inbox_line(messages@[k as int])));
            assert(messages@.take(k + 1).map_values(|m: ChatMessage| inbox_line(m)) =~= messages@.take(k as int).map_values(|m: ChatMessage| inbox_line(m)).push(inbox_line(messages@[k as int])));
            assert(self@ =~= (AppView {
                chat_history: a.chat_history + messages@.take(k + 1).map_values(|m: ChatMessage| inbox_line(m)),
                ..a
            }));
            k = k + 1;
        }
        assert(messages@.take(n as int) =~= messages@);
    }

    /// The `Authorization` header every request carries: `Bearer <api key>`.
    pub fn authorization(&self) -> (r: String)
        ensures
            r@ == bearer(self@.api_key),
    {
        concat("Bearer ", self.api_key.as_str())
    }

    /// The URL of the API endpoint at `path` (such as `/status`).
    pub fn endpoint_url(&self, path: &str) -> (r: String)
        ensures
            r@ == self@.api_base + path@,
    {
        concat(self.api_base.as_str(), path)
    }

    /// Whether the chat inbox is due for a poll, `elapsed_ms` after the last one:
    /// only while the chat screen is shown.
    pub fn chat_poll_due(&self, elapsed_ms: u64) -> (r: bool)
        ensures
            r == ((self@.input_mode is Chatting || self@.input_mode is ChatInput) && elapsed_ms
                >= CHAT_POLL_INTERVAL_MS),
    {
        self.in_chat() && elapsed_ms >= CHAT_POLL_INTERVAL_MS
    }

    /// Whether the chat screen is shown (and the inbox is polled).
    pub fn in_chat(&self) -> (r: bool)
        ensures
            r == (self@.input_mode is Chatting || self@.input_mode is ChatInput),
    {
        match self.input_mode {
            InputMode::Chatting { .. } | InputMode::ChatInput { .. } => true,
            _ => false,
        }
    }
}

} // verus!
