//! What the tray menu needs computed: the pixels of its icon and the
//! command that opens the terminal front end.

use crate::config::Platform;
use crate::vpn::{CommandLine, CommandView};
use vstd::prelude::*;
use vstd::string::*;

verus! {

/// Width of the tray icon, in pixels.
pub const ICON_WIDTH: u32 = 16;

/// Height of the tray icon, in pixels.
pub const ICON_HEIGHT: u32 = 16;

/// The byte at position `i` of the icon's RGBA buffer: every pixel is
/// opaque blue.
pub open spec fn icon_byte(i: int) -> u8 {
    if i % 4 == 0 || i % 4 == 1 {
        0
    } else {
        255
    }
}

/// The icon as rows of RGBA pixels, four bytes each.
pub fn load_icon() -> (rgba: Vec<u8>)
    ensures
        rgba@.len() == ICON_WIDTH * ICON_HEIGHT * 4,
        rgba@.len() == 1024,
        forall|i: int| 0 <= i < rgba@.len() ==> #[trigger] rgba@[i] == icon_byte(i),
{
    let pixels: u32 = ICON_WIDTH * ICON_HEIGHT;
    let mut rgba: Vec<u8> = Vec::new();
    let mut n: u32 = 0;
    while n < pixels
        invariant
            pixels == 256,
            n <= pixels,
            rgba@.len() == n * 4,
            forall|i: int| 0 <= i < rgba@.len() ==> #[trigger] rgba@[i] == icon_byte(i),
        decreases pixels - n,
    {
        rgba.push(0);
        rgba.push(0);
        rgba.push(255);
        rgba.push(255);
        n = n + 1;
    }
    rgba
}

/// The command that opens the terminal front end in `terminal`.
pub open spec fn terminal_line(platform: Platform, terminal: Seq<char>) -> CommandView {
    match platform {
        Platform::Linux => CommandView { program: terminal, args: seq!["-e"@, "./tui"@] },
        Platform::Windows => CommandView {
            program: "cmd"@,
            args: seq!["/c"@, "start"@, terminal, "/k"@, "./tui"@],
        },
    }
}

/// Builds the command that opens the terminal front end.
pub fn open_tui_action(platform: Platform, terminal: &str) -> (c: CommandLine)
    ensures
        c@ == terminal_line(platform, terminal@),
{
    let mut args: Vec<String> = Vec::new();
    let c = match platform {
        Platform::Linux => {
            args.push(String::from_str("-e"));
            args.push(String::from_str("./tui"));
            CommandLine { program: String::from_str(terminal), args }
        },
        Platform::Windows => {
            args.push(String::from_str("/c"));
            args.push(String::from_str("start"));
            args.push(String::from_str(terminal));
            args.push(String::from_str("/k"));
            args.push(String::from_str("./tui"));
            CommandLine { program: String::from_str("cmd"), args }
        },
    };
    assert(c@.args =~= terminal_line(platform, terminal@).args);
    c
}

} // verus!
