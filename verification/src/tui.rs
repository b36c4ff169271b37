//! The terminal front end's decisions and texts. Drawing and reading keys
//! are the caller's; what a key means and what a panel says is decided
//! here.

use crate::config::{Profile, ProfileView};
use crate::state::{RealStatus, StatusView};
use crate::text::{decimal, decimal_text};
use vstd::arithmetic::div_mod::{lemma_add_mod_noop, lemma_mod_self_0, lemma_small_mod};
use vstd::prelude::*;
use vstd::string::*;

verus! {

/// The keys that the front end tells apart.
#[derive(Clone, Copy, Debug, PartialEq, Eq, Structural)]
pub enum Key {
    Quit,
    Down,
    Up,
    Enter,
    Stop,
    Delete,
    Other,
}

/// What the operator asked for.
#[derive(Clone, Copy, Debug, PartialEq, Eq, Structural)]
pub enum Intent {
    Nothing,
    Quit,
    /// Start the profile at this position.
    Start { index: usize },
    Stop,
    /// Delete the profile at this position.
    Delete { index: usize },
}

/// The selection after a key, and what is to be done.
#[derive(Clone, Copy, Debug, PartialEq, Eq, Structural)]
pub struct Step {
    pub selected: usize,
    pub intent: Intent,
}

/// The selection after `key`, with `count` profiles listed: down moves on
/// and wraps behind the last profile, up moves back and stops at the
/// first, every other key leaves it.
pub open spec fn selection_after(key: Key, selected: usize, count: usize) -> int {
    match key {
        Key::Down => if count > 0 {
            (selected + 1) % (count as int)
        } else {
            selected as int
        },
        Key::Up => if selected > 0 {
            selected - 1
        } else {
            0
        },
        _ => selected as int,
    }
}

/// What `key` asks for: enter and delete act on the selected profile, and
/// on nothing where the selection points behind the list.
pub open spec fn intent_of(key: Key, selected: usize, count: usize) -> Intent {
    match key {
        Key::Quit => Intent::Quit,
        Key::Stop => Intent::Stop,
        Key::Enter => if selected < count {
            Intent::Start { index: selected }
        } else {
            Intent::Nothing
        },
        Key::Delete => if selected < count {
            Intent::Delete { index: selected }
        } else {
            Intent::Nothing
        },
        _ => Intent::Nothing,
    }
}

/// Handles one key with `count` profiles listed and `selected` marked.
pub fn on_key(key: Key, selected: usize, count: usize) -> (step: Step)
    ensures
        step.selected == selection_after(key, selected, count),
        step.intent == intent_of(key, selected, count),
{
    match key {
        Key::Quit => Step { selected, intent: Intent::Quit },
        Key::Stop => Step { selected, intent: Intent::Stop },
        Key::Down => {
            if count == 0 {
                Step { selected, intent: Intent::Nothing }
            } else {
                let at: usize = selected % count;
                let next: usize = if at + 1 == count { 0 } else { at + 1 };
                proof {
                    let m = count as int;
                    lemma_add_mod_noop(selected as int, 1, m);
                    if m == 1 {
                        lemma_mod_self_0(m);
                    } else {
                        lemma_small_mod(1, count as nat);
                    }
                    if at + 1 == count {
                        lemma_mod_self_0(m);
                    } else {
                        lemma_small_mod((at + 1) as nat, count as nat);
                    }
                }
                Step { selected: next, intent: Intent::Nothing }
            }
        },
        Key::Up => {
            let next: usize = if selected > 0 { selected - 1 } else { 0 };
            Step { selected: next, intent: Intent::Nothing }
        },
        Key::Enter => {
            if selected < count {
                Step { selected, intent: Intent::Start { index: selected } }
            } else {
                Step { selected, intent: Intent::Nothing }
            }
        },
        Key::Delete => {
            if selected < count {
                Step { selected, intent: Intent::Delete { index: selected } }
            } else {
                Step { selected, intent: Intent::Nothing }
            }
        },
        Key::Other => Step { selected, intent: Intent::Nothing },
    }
}

/// The status panel's line. An error shows apart from a disconnection.
pub open spec fn status_text(status: StatusView) -> Seq<char> {
    match status {
        StatusView::Disconnected => "🔴 Disconnected"@,
        StatusView::Connecting { profile } => "🟡 Connecting to "@ + profile,
        StatusView::Connected { profile, pid } => "🟢 Connected to "@ + profile + " (pid "@
            + decimal_text(pid as nat) + ")"@,
        StatusView::Error { message } => "❌ "@ + message,
    }
}

/// Builds the status panel's line.
pub fn status_line(status: &RealStatus) -> (s: String)
    ensures
        s@ == status_text(status@),
{
    match status {
        RealStatus::Disconnected => String::from_str("🔴 Disconnected"),
        RealStatus::Connecting { profile } => {
            let mut s = String::from_str("🟡 Connecting to ");
            s.append(profile.as_str());
            s
        },
        RealStatus::Connected { profile, pid } => {
            let digits = decimal(*pid as usize);
            let mut s = String::from_str("🟢 Connected to ");
            s.append(profile.as_str());
            s.append(" (pid ");
            s.append(digits.as_str());
            s.append(")");
            s
        },
        RealStatus::Error { message } => {
            let mut s = String::from_str("❌ ");
            s.append(message.as_str());
            s
        },
    }
}

/// The details panel's text for a profile.
pub open spec fn details_text(p: ProfileView) -> Seq<char> {
    "Name: "@ + p.name + "\nType: \"VLESS\"\nServer: "@ + p.server + ":"@ + decimal_text(
        p.server_port as nat,
    )
        + "\nTLS Server Name: "@ + p.tls_server_name + "\nUTLS Fingerprint: "@ + p.fingerprint
        + "\nReality PK: "@ + p.public_key + "\nTransport: "@ + p.service_name
}

/// The details panel's text: the selected profile, or a note that none is.
pub open spec fn profile_text(selected: Option<ProfileView>) -> Seq<char> {
    match selected {
        Some(p) => details_text(p),
        None => "No profile selected"@,
    }
}

/// Builds the details of a profile from its fields.
pub fn details(p: &Profile) -> (s: String)
    ensures
        s@ == details_text(p@),
{
    let port = decimal(p.server_port as usize);
    let mut s = String::from_str("Name: ");
    s.append(p.name.as_str());
    s.append("\nType: \"VLESS\"\nServer: ");
    s.append(p.server.as_str());
    s.append(":");
    s.append(port.as_str());
    s.append("\nTLS Server Name: ");
    s.append(p.tls.server_name.as_str());
    s.append("\nUTLS Fingerprint: ");
    s.append(p.tls.utls.fingerprint.as_str());
    s.append("\nReality PK: ");
    s.append(p.tls.reality.public_key.as_str());
    s.append("\nTransport: ");
    s.append(p.tls.transport.service_name.as_str());
    s
}

/// Builds the details panel's text.
pub fn profile_details(selected: Option<&Profile>) -> (s: String)
    ensures
        s@ == profile_text(
            match selected {
                Some(p) => Some(p@),
                None => None,
            },
        ),
{
    match selected {
        Some(p) => details(p),
        None => String::from_str("No profile selected"),
    }
}

/// One row of the log panel: the time of day, a blank, the message.
pub fn log_row(clock: &str, message: &str) -> (s: String)
    ensures
        s@ == clock@ + " "@ + message@,
{
    let mut s = String::from_str(clock);
    s.append(" ");
    s.append(message);
    s
}

/// The texts of a run of rows, in order.
pub open spec fn row_texts(rows: Seq<String>) -> Seq<Seq<char>> {
    rows.map_values(|r: String| r@)
}

/// The log panel's text for rows given oldest first: the newest row comes
/// first, one row to a line.
pub open spec fn panel_text(rows: Seq<Seq<char>>) -> Seq<char>
    decreases rows.len(),
{
    if rows.len() == 0 {
        Seq::empty()
    } else if rows.len() == 1 {
        rows[0]
    } else {
        panel_text(rows.drop_first()) + "\n"@ + rows[0]
    }
}

/// Builds the log panel's text from its rows, given oldest first.
pub fn log_panel(rows: &Vec<String>) -> (s: String)
    ensures
        s@ == panel_text(row_texts(rows@)),
{
    let len: usize = rows.len();
    if len == 0 {
        return String::new();
    }
    let ghost texts = row_texts(rows@);
    let mut i: usize = len - 1;
    let mut s = String::from_str(rows[i].as_str());
    assert(texts.subrange(i as int, len as int).len() == 1);
    while i > 0
        invariant
            len == rows@.len(),
            texts == row_texts(rows@),
            i < len,
            s@ == panel_text(texts.subrange(i as int, len as int)),
        decreases i,
    {
        i = i - 1;
        s.append("\n");
        s.append(rows[i].as_str());
        assert(texts.subrange(i as int, len as int).drop_first() =~= texts.subrange(
            i + 1,
            len as int,
        ));
    }
    assert(texts.subrange(0, len as int) =~= texts);
    s
}

} // verus!
