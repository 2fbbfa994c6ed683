//! Properties that hold across the library's operations.

use vstd::prelude::*;
use crate::api::spec_status_response;
use crate::identity::{hex_digit, spec_hex};
use crate::interfaces::{Interface, occurs_in, spec_adapter, spec_adapters, spec_classify};
use crate::tui::CommandView;
use crate::text::{is_white_space, strip_prefixes, trim_end, trim_start, trimmed};
use crate::tui::{
    AppView, KeyInput, ModeView, connect_status, cursor_ok, key_step, peers_update, send_update,
    status_update,
};

verus! {

broadcast use vstd::string::group_string_axioms;

/// Every key press keeps the client's cursor on a peer while there are peers.
pub proof fn law_key_keeps_cursor(a: AppView, k: KeyInput)
    requires
        cursor_ok(a),
    ensures
        cursor_ok(key_step(a, k).0),
{
}

/// A new peer list always leaves the cursor on a peer when the list is not empty,
/// whatever the cursor was before.
pub proof fn law_peer_list_places_cursor(a: AppView, ids: Option<Seq<Seq<char>>>)
    ensures
        cursor_ok(peers_update(a, ids)),
{
}

/// Answers to status, connect and send requests keep the cursor invariant.
pub proof fn law_replies_keep_cursor(
    a: AppView,
    body: Option<Seq<char>>,
    reply: Result<(bool, Seq<char>), Seq<char>>,
    message: Seq<char>,
)
    requires
        cursor_ok(a),
    ensures
        cursor_ok(status_update(a, body)),
        cursor_ok(AppView { status_msg: Some(connect_status(reply)), ..a }),
        cursor_ok(send_update(a, message, reply)),
{
}

/// While a NodeID or a message is being typed, Backspace undoes a character key.
pub proof fn law_backspace_undoes_char(a: AppView, c: char)
    requires
        a.input_mode is Connecting || a.input_mode is ChatInput,
    ensures
        key_step(key_step(a, KeyInput::Char(c)).0, KeyInput::Backspace).0 == a,
{
    assert(a.input_buf.push(c).drop_last() =~= a.input_buf);
    assert(key_step(key_step(a, KeyInput::Char(c)).0, KeyInput::Backspace).0 =~= a);
}

/// Opening the NodeID prompt with `c` and cancelling it with Esc returns to the
/// main screen with an empty input line and no status message, all else unchanged.
pub proof fn law_cancel_connect(a: AppView)
    requires
        a.input_mode is Normal,
    ensures
        key_step(key_step(a, KeyInput::Char('c')).0, KeyInput::Esc).0 == (AppView {
            input_buf: Seq::empty(),
            status_msg: None,
            ..a
        }),
{
    assert(key_step(key_step(a, KeyInput::Char('c')).0, KeyInput::Esc).0 =~= (AppView {
        input_buf: Seq::empty(),
        status_msg: None,
        ..a
    }));
}

/// Starting to type a message and cancelling with Esc leaves the chat screen with
/// the same peer and an empty input line.
pub proof fn law_cancel_typing(a: AppView, p: Seq<char>)
    requires
        a.input_mode == ModeView::Chatting(p),
    ensures
        key_step(key_step(a, KeyInput::Char('i')).0, KeyInput::Esc).0 == (AppView {
            input_buf: Seq::empty(),
            ..a
        }),
{
    assert(key_step(key_step(a, KeyInput::Char('i')).0, KeyInput::Esc).0 =~= (AppView {
        input_buf: Seq::empty(),
        ..a
    }));
}

proof fn lemma_trim_leading_space(id: Seq<char>)
    ensures
        trimmed(seq![' '] + id) == trimmed(id),
{
    let s = seq![' '] + id;
    assert(is_white_space(s[0]));
    assert(s.drop_first() =~= id);
}

/// The client reads back the NodeID that the daemon's `/status` reports, provided
/// the NodeID has no surrounding whitespace, and shows Iroh as active.
pub proof fn law_status_roundtrip(a: AppView, id: Seq<char>)
    requires
        trimmed(id) == id,
    ensures
        status_update(a, Some(spec_status_response(Some(id)).1)).node_id == id,
        status_update(a, Some(spec_status_response(Some(id)).1)).mode_label == "iroh active"@,
{
    reveal_strlit("NodeID: ");
    reveal_strlit("NodeID:");
    let body = "NodeID: "@ + id;
    let p = "NodeID:"@;
    assert(p.is_prefix_of(body)) by {
        assert(body.subrange(0, 7) =~= p);
    }
    let rest = body.skip(7);
    assert(rest =~= seq![' '] + id);
    assert(!p.is_prefix_of(rest)) by {
        if p.is_prefix_of(rest) {
            assert(rest.subrange(0, 7)[0] == p[0]);
        }
    }
    assert(strip_prefixes(rest, p) == rest);
    assert(strip_prefixes(body, p) == rest);
    lemma_trim_leading_space(id);
}

/// The client shows "reticulum-only" when the daemon runs without Iroh.
pub proof fn law_status_reticulum_only(a: AppView)
    ensures
        status_update(a, Some(spec_status_response(None).1)).mode_label == "reticulum-only"@,
{
    reveal_strlit("NodeID:");
    reveal_strlit("Running in Reticulum-only mode, iroh disabled");
    let body = "Running in Reticulum-only mode, iroh disabled"@;
    assert(!"NodeID:"@.is_prefix_of(body)) by {
        assert(body.subrange(0, 7)[0] != "NodeID:"@[0]);
    }
}

/// Detection never reports a loopback adapter (name starting with `lo`), and
/// every adapter it reports is taken as powered up.
pub proof fn law_no_loopback(names: Seq<Seq<char>>)
    ensures
        forall|i: int|
            0 <= i < spec_adapters(names).len() ==> !"lo"@.is_prefix_of(
                #[trigger] spec_adapters(names)[i].1,
            ) && spec_adapters(names)[i].2,
    decreases names.len(),
{
    if names.len() > 0 {
        let prev = spec_adapters(names.drop_last());
        law_no_loopback(names.drop_last());
        match spec_adapter(names.last()) {
            Some(x) => {
                assert(spec_adapters(names) == prev.push(x));
                assert forall|i: int| 0 <= i < prev.push(x).len() implies !"lo"@.is_prefix_of(
                    #[trigger] prev.push(x)[i].1,
                ) && prev.push(x)[i].2 by {
                    if i < prev.len() {
                        assert(prev.push(x)[i] == prev[i]);
                    }
                }
            },
            None => {},
        }
    }
}

proof fn lemma_hex_digit_not_space(d: nat)
    requires
        d < 16,
    ensures
        !is_white_space(hex_digit(d)),
{
    if d < 10 {
        assert(((d + 48) as u32) as char as u32 == d + 48);
    } else {
        assert(((d + 87) as u32) as char as u32 == d + 87);
    }
}

proof fn lemma_hex_no_space(b: Seq<u8>)
    ensures
        forall|i: int| 0 <= i < spec_hex(b).len() ==> !is_white_space(#[trigger] spec_hex(b)[i]),
    decreases b.len(),
{
    if b.len() > 0 {
        let prev = spec_hex(b.drop_last());
        lemma_hex_no_space(b.drop_last());
        let hi = hex_digit((b.last() / 16) as nat);
        let lo = hex_digit((b.last() % 16) as nat);
        lemma_hex_digit_not_space((b.last() / 16) as nat);
        lemma_hex_digit_not_space((b.last() % 16) as nat);
        assert(spec_hex(b) == prev + seq![hi, lo]);
        assert forall|i: int| 0 <= i < spec_hex(b).len() implies !is_white_space(
            #[trigger] spec_hex(b)[i],
        ) by {
            if i < prev.len() {
                assert(spec_hex(b)[i] == prev[i]);
            }
        }
    }
}

/// A generated API key reads back unchanged from its key file: hex digits are
/// not whitespace, so trimming the stored key gives the key itself.
pub proof fn law_api_key_reads_back(b: Seq<u8>)
    ensures
        trimmed(spec_hex(b)) == spec_hex(b),
{
    let s = spec_hex(b);
    lemma_hex_no_space(b);
    if s.len() > 0 {
        assert(!is_white_space(s[0]));
        assert(!is_white_space(s.last()));
    }
    assert(trim_start(s) == s);
    assert(trim_end(s) == s);
}

/// Classification never yields LoRa: LoRa nodes present as serial ports.
pub proof fn law_classify_never_lora(name: Seq<char>)
    ensures
        spec_classify(name) != Interface::LoRa,
{
}

/// A name with none of the Wi-Fi, Ethernet or serial prefixes and without `bt`
/// or `bluetooth` in it counts as Ethernet.
pub proof fn law_classify_falls_back_to_ethernet(n: Seq<char>)
    requires
        !("wlan"@.is_prefix_of(n) || "wlp"@.is_prefix_of(n) || "wi"@.is_prefix_of(n)
            || "en0"@.is_prefix_of(n)),
        !("eth"@.is_prefix_of(n) || "enp"@.is_prefix_of(n) || "eno"@.is_prefix_of(n)
            || "en1"@.is_prefix_of(n)),
        !("tty"@.is_prefix_of(n) || "serial"@.is_prefix_of(n) || "cu."@.is_prefix_of(n)
            || "ttyusb"@.is_prefix_of(n)),
        !occurs_in("bt"@, n),
        !occurs_in("bluetooth"@, n),
    ensures
        spec_classify(n) == Interface::Ethernet,
{
}

proof fn lemma_trim_start_cut(s: Seq<char>) -> (i: int)
    ensures
        0 <= i <= s.len(),
        trim_start(s) == s.subrange(i, s.len() as int),
        forall|k: int| 0 <= k < i ==> is_white_space(#[trigger] s[k]),
        i < s.len() ==> !is_white_space(s[i]),
    decreases s.len(),
{
    if s.len() > 0 && is_white_space(s[0]) {
        let i0 = lemma_trim_start_cut(s.drop_first());
        assert(s.drop_first().subrange(i0, s.drop_first().len() as int) =~= s.subrange(
            i0 + 1,
            s.len() as int,
        ));
        assert forall|k: int| 0 <= k < i0 + 1 implies is_white_space(#[trigger] s[k]) by {
            if k > 0 {
                assert(s[k] == s.drop_first()[k - 1]);
            }
        }
        i0 + 1
    } else {
        assert(s.subrange(0, s.len() as int) =~= s);
        0
    }
}

proof fn lemma_trim_end_cut(s: Seq<char>) -> (j: int)
    ensures
        0 <= j <= s.len(),
        trim_end(s) == s.subrange(0, j),
        forall|k: int| j <= k < s.len() ==> is_white_space(#[trigger] s[k]),
        j > 0 ==> !is_white_space(s[j - 1]),
    decreases s.len(),
{
    if s.len() > 0 && is_white_space(s.last()) {
        let j0 = lemma_trim_end_cut(s.drop_last());
        assert(s.drop_last().subrange(0, j0) =~= s.subrange(0, j0));
        assert forall|k: int| j0 <= k < s.len() implies is_white_space(#[trigger] s[k]) by {
            if k < s.len() - 1 {
                assert(s[k] == s.drop_last()[k]);
            }
        }
        j0
    } else {
        assert(s.subrange(0, s.len() as int) =~= s);
        s.len() as int
    }
}

/// Trimming removes exactly the whitespace at both ends, as std's `str::trim`:
/// the result is a contiguous piece of the text, everything cut off before and
/// after it is whitespace, and it neither begins nor ends with whitespace.
pub proof fn law_trim_cuts_only_outer_whitespace(s: Seq<char>)
    ensures
        exists|i: int, j: int|
            0 <= i <= j <= s.len() && trimmed(s) == s.subrange(i, j) && (forall|k: int|
                0 <= k < i ==> is_white_space(#[trigger] s[k])) && (forall|k: int|
                j <= k < s.len() ==> is_white_space(#[trigger] s[k])),
        trimmed(s).len() > 0 ==> !is_white_space(trimmed(s)[0]) && !is_white_space(
            trimmed(s).last(),
        ),
{
    let i = lemma_trim_start_cut(s);
    let rest = s.subrange(i, s.len() as int);
    let j0 = lemma_trim_end_cut(rest);
    let t = trimmed(s);
    assert(t == rest.subrange(0, j0));
    assert(rest.subrange(0, j0) =~= s.subrange(i, i + j0));
    assert forall|k: int| i + j0 <= k < s.len() implies is_white_space(#[trigger] s[k]) by {
        assert(s[k] == rest[k - i]);
    }
    if t.len() > 0 {
        assert(t[0] == s[i]);
        assert(t.last() == rest[j0 - 1]);
    }
    assert(0 <= i <= i + j0 <= s.len() && trimmed(s) == s.subrange(i, i + j0));
}

/// Enter on the peer list opens the chat with the peer under the cursor, with
/// an empty history, and sends nothing.
pub proof fn law_browse_enter_opens_selected_peer(a: AppView)
    requires
        a.input_mode is ChatBrowse,
        a.peer_cursor < a.peers.len(),
    ensures
        key_step(a, KeyInput::Enter).0.input_mode == ModeView::Chatting(a.peers[a.peer_cursor as int]),
        key_step(a, KeyInput::Enter).0.chat_history.len() == 0,
        key_step(a, KeyInput::Enter).0.peers == a.peers,
        key_step(a, KeyInput::Enter).0.peer_cursor == a.peer_cursor,
        key_step(a, KeyInput::Enter).1 == CommandView::Nothing,
{
}

/// Up and Down move the cursor by one peer within the list and change nothing
/// else (the list, held in memory, has at most `usize::MAX` peers).
pub proof fn law_browse_moves_cursor_by_one(a: AppView)
    requires
        a.input_mode is ChatBrowse,
        a.peers.len() <= usize::MAX,
    ensures
        key_step(a, KeyInput::Up).0.peer_cursor == if a.peer_cursor > 0 {
            a.peer_cursor - 1
        } else {
            0
        },
        key_step(a, KeyInput::Down).0.peer_cursor == if a.peer_cursor + 1 < a.peers.len() {
            a.peer_cursor + 1
        } else {
            a.peer_cursor as int
        },
        key_step(a, KeyInput::Up).0 == (AppView { peer_cursor: key_step(a, KeyInput::Up).0.peer_cursor, ..a }),
        key_step(a, KeyInput::Down).0 == (AppView { peer_cursor: key_step(a, KeyInput::Down).0.peer_cursor, ..a }),
{
    assert(key_step(a, KeyInput::Up).0 =~= (AppView { peer_cursor: key_step(a, KeyInput::Up).0.peer_cursor, ..a }));
    assert(key_step(a, KeyInput::Down).0 =~= (AppView { peer_cursor: key_step(a, KeyInput::Down).0.peer_cursor, ..a }));
}

/// Enter on the NodeID prompt dials the typed text with the whitespace at both
/// ends removed (see [`law_trim_cuts_only_outer_whitespace`]), and dials nothing
/// when only whitespace was typed; the prompt closes either way.
pub proof fn law_connect_dials_trimmed_text(a: AppView)
    requires
        a.input_mode is Connecting,
    ensures
        key_step(a, KeyInput::Enter).1 == if trimmed(a.input_buf).len() > 0 {
            CommandView::Connect(trimmed(a.input_buf))
        } else {
            CommandView::Nothing
        },
        key_step(a, KeyInput::Enter).0.input_mode is Normal,
        key_step(a, KeyInput::Enter).0.input_buf.len() == 0,
{
}

/// Enter in the message box sends the typed text, whitespace at both ends
/// removed, to the peer of the chat, and sends nothing for a blank line.
pub proof fn law_chat_sends_trimmed_text(a: AppView, p: Seq<char>)
    requires
        a.input_mode == ModeView::ChatInput(p),
    ensures
        key_step(a, KeyInput::Enter).1 == if trimmed(a.input_buf).len() > 0 {
            CommandView::SendChat(p, trimmed(a.input_buf))
        } else {
            CommandView::Nothing
        },
        key_step(a, KeyInput::Enter).0.input_mode == ModeView::Chatting(p),
        key_step(a, KeyInput::Enter).0.input_buf.len() == 0,
{
}

/// While a NodeID or a message is being typed, a character key appends exactly
/// that character to the input line and changes nothing else.
pub proof fn law_typing_appends_the_character(a: AppView, c: char)
    requires
        a.input_mode is Connecting || a.input_mode is ChatInput,
    ensures
        key_step(a, KeyInput::Char(c)).0 == (AppView { input_buf: a.input_buf.push(c), ..a }),
        key_step(a, KeyInput::Char(c)).1 == CommandView::Nothing,
{
    assert(key_step(a, KeyInput::Char(c)).0 =~= (AppView { input_buf: a.input_buf.push(c), ..a }));
}

/// A refreshed, non-empty peer list replaces the old one and keeps the cursor
/// where it was, pulling it back to the last peer only when the list shrank below it.
pub proof fn law_refresh_keeps_selection(a: AppView, v: Seq<Seq<char>>)
    requires
        v.len() > 0,
    ensures
        peers_update(a, Some(v)).peers == v,
        peers_update(a, Some(v)).peer_cursor == if a.peer_cursor < v.len() {
            a.peer_cursor as int
        } else {
            v.len() - 1
        },
{
}

/// Names beginning with a Wi-Fi prefix (`wlan`, `wlp`, `wi`, `en0`) are Wi-Fi.
pub proof fn law_wifi_prefixes(n: Seq<char>)
    requires
        "wlan"@.is_prefix_of(n) || "wlp"@.is_prefix_of(n) || "wi"@.is_prefix_of(n)
            || "en0"@.is_prefix_of(n),
    ensures
        spec_classify(n) == Interface::Wifi,
{
}

/// Names beginning with an Ethernet prefix (`eth`, `enp`, `eno`, `en1`) and no
/// Wi-Fi prefix are Ethernet.
pub proof fn law_ethernet_prefixes(n: Seq<char>)
    requires
        "eth"@.is_prefix_of(n) || "enp"@.is_prefix_of(n) || "eno"@.is_prefix_of(n)
            || "en1"@.is_prefix_of(n),
        !("wlan"@.is_prefix_of(n) || "wlp"@.is_prefix_of(n) || "wi"@.is_prefix_of(n)
            || "en0"@.is_prefix_of(n)),
    ensures
        spec_classify(n) == Interface::Ethernet,
{
}

/// Names beginning with a serial prefix (`tty`, `serial`, `cu.`, `ttyusb`) and
/// no Wi-Fi or Ethernet prefix are serial links.
pub proof fn law_serial_prefixes(n: Seq<char>)
    requires
        "tty"@.is_prefix_of(n) || "serial"@.is_prefix_of(n) || "cu."@.is_prefix_of(n)
            || "ttyusb"@.is_prefix_of(n),
        !("wlan"@.is_prefix_of(n) || "wlp"@.is_prefix_of(n) || "wi"@.is_prefix_of(n)
            || "en0"@.is_prefix_of(n)),
        !("eth"@.is_prefix_of(n) || "enp"@.is_prefix_of(n) || "eno"@.is_prefix_of(n)
            || "en1"@.is_prefix_of(n)),
    ensures
        spec_classify(n) == Interface::Serial,
{
}

/// Names with no Wi-Fi, Ethernet or serial prefix that contain `bt` or
/// `bluetooth` are Bluetooth.
pub proof fn law_bluetooth_names(n: Seq<char>)
    requires
        occurs_in("bt"@, n) || occurs_in("bluetooth"@, n),
        !("wlan"@.is_prefix_of(n) || "wlp"@.is_prefix_of(n) || "wi"@.is_prefix_of(n)
            || "en0"@.is_prefix_of(n)),
        !("eth"@.is_prefix_of(n) || "enp"@.is_prefix_of(n) || "eno"@.is_prefix_of(n)
            || "en1"@.is_prefix_of(n)),
        !("tty"@.is_prefix_of(n) || "serial"@.is_prefix_of(n) || "cu."@.is_prefix_of(n)
            || "ttyusb"@.is_prefix_of(n)),
    ensures
        spec_classify(n) == Interface::Bluetooth,
{
}

} // verus!
