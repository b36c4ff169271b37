//! The connection controller: the status transitions of starting and
//! stopping the managed client, and the commands that do the outside work.
//!
//! The controller is optimistic. It records what was attempted, not what
//! the client achieved: nothing here moves the status to `Connected`.

use crate::config::Platform;
use crate::state::{entry, AppState, RealStatus, StateView, StatusView};
use crate::text::join;
use vstd::prelude::*;
use vstd::string::*;

verus! {

/// A program and its arguments, ready to be run by the caller.
#[derive(Clone, Debug, PartialEq, Eq)]
pub struct CommandLine {
    pub program: String,
    pub args: Vec<String>,
}

/// A command, as plain values.
pub struct CommandView {
    pub program: Seq<char>,
    pub args: Seq<Seq<char>>,
}

impl View for CommandLine {
    type V = CommandView;

    open spec fn view(&self) -> CommandView {
        CommandView { program: self.program@, args: self.args@.map_values(|a: String| a@) }
    }
}

/// The command that launches the client for `profile`: on Linux a restart
/// of the managing service, on Windows a detached process.
pub open spec fn launch_line(platform: Platform, profile: Seq<char>) -> CommandView {
    match platform {
        Platform::Linux => CommandView {
            program: "sudo"@,
            args: seq!["systemctl"@, "restart"@, "netx-singbox.service"@],
        },
        Platform::Windows => CommandView {
            program: "powershell"@,
            args: seq![
                "-Command"@,
                "Start-Process -FilePath \""@ + profile
                    + "\" -ArgumentList \"--config config\\config.json\""@,
            ],
        },
    }
}

/// The command that stops the client.
pub open spec fn stop_line(platform: Platform) -> CommandView {
    match platform {
        Platform::Linux => CommandView {
            program: "sudo"@,
            args: seq!["systemctl"@, "stop"@, "netx-singbox.service"@],
        },
        Platform::Windows => CommandView {
            program: "powershell"@,
            args: seq!["-Command"@, "Stop-Process -Name sing-box"@],
        },
    }
}

/// The state after a start of `profile` at `time`: connecting, whatever
/// the status was, and one line more in the log.
pub open spec fn started(s: StateView, profile: Seq<char>, time: i64) -> StateView {
    s.with_status(StatusView::Connecting { profile }).logged(
        entry(time, "starting sing-box for "@ + profile),
    )
}

/// The state after a stop at `time`: disconnected, whatever the status
/// was, and one line more in the log.
pub open spec fn stopped(s: StateView, time: i64) -> StateView {
    s.with_status(StatusView::Disconnected).logged(entry(time, "sing-box stopped"@))
}

/// The state after a launch that could not be made, reported at `time`.
pub open spec fn launch_failed(s: StateView, message: Seq<char>, time: i64) -> StateView {
    s.with_status(StatusView::Error { message }).logged(
        entry(time, "failed to start sing-box: "@ + message),
    )
}

/// Builds the command that launches the client for `profile`.
pub fn launch_command(platform: Platform, profile: &str) -> (c: CommandLine)
    ensures
        c@ == launch_line(platform, profile@),
{
    let mut args: Vec<String> = Vec::new();
    let c = match platform {
        Platform::Linux => {
            args.push(String::from_str("systemctl"));
            args.push(String::from_str("restart"));
            args.push(String::from_str("netx-singbox.service"));
            CommandLine { program: String::from_str("sudo"), args }
        },
        Platform::Windows => {
            let head = join("Start-Process -FilePath \"", profile);
            let script = join(head.as_str(), "\" -ArgumentList \"--config config\\config.json\"");
            args.push(String::from_str("-Command"));
            args.push(script);
            CommandLine { program: String::from_str("powershell"), args }
        },
    };
    assert(c@.args =~= launch_line(platform, profile@).args);
    c
}

/// Builds the command that stops the client.
pub fn stop_command(platform: Platform) -> (c: CommandLine)
    ensures
        c@ == stop_line(platform),
{
    let mut args: Vec<String> = Vec::new();
    let c = match platform {
        Platform::Linux => {
            args.push(String::from_str("systemctl"));
            args.push(String::from_str("stop"));
            args.push(String::from_str("netx-singbox.service"));
            CommandLine { program: String::from_str("sudo"), args }
        },
        Platform::Windows => {
            args.push(String::from_str("-Command"));
            args.push(String::from_str("Stop-Process -Name sing-box"));
            CommandLine { program: String::from_str("powershell"), args }
        },
    };
    assert(c@.args =~= stop_line(platform).args);
    c
}

/// Starts `profile` at `time`: the status becomes `Connecting` for it,
/// whatever it was before, the attempt is logged, and the command that
/// launches the client is handed back. The caller runs it without waiting
/// for a tunnel and reports with `launch_finished`.
pub fn start(profile: String, state: &mut AppState, platform: Platform, time: i64) -> (command:
    CommandLine)
    ensures
        command@ == launch_line(platform, profile@),
        final(state)@ == started(old(state)@, profile@, time),
        final(state)@.status == (StatusView::Connecting { profile: profile@ }),
        final(state).config == old(state).config,
{
    let command = launch_command(platform, profile.as_str());
    let message = join("starting sing-box for ", profile.as_str());
    state.set_status(RealStatus::Connecting { profile });
    state.push_log(message.as_str(), time);
    command
}

/// Takes the outcome of the launch at `time`. A launch that was made
/// changes nothing: the status stays `Connecting`. One that could not be
/// made turns the status into `Error` with its message, and is logged.
pub fn launch_finished(outcome: Result<(), String>, state: &mut AppState, time: i64)
    ensures
        outcome is Ok ==> *final(state) == *old(state),
        outcome matches Err(m) ==> final(state)@ == launch_failed(old(state)@, m@, time),
        final(state).config == old(state).config,
{
    match outcome {
        Ok(()) => {},
        Err(m) => {
            let message = join("failed to start sing-box: ", m.as_str());
            state.set_status(RealStatus::Error { message: m });
            state.push_log(message.as_str(), time);
        },
    }
}

/// Ends a stop at `time`. `outcome` is what running `stop_command` gave;
/// it is not looked at: the status becomes `Disconnected`, whatever it was
/// and whatever the outcome, and the stop is logged.
pub fn stop(outcome: Result<(), String>, state: &mut AppState, time: i64)
    ensures
        final(state)@ == stopped(old(state)@, time),
        final(state)@.status == StatusView::Disconnected,
        final(state).config == old(state).config,
{
    state.set_status(RealStatus::Disconnected);
    state.push_log("sing-box stopped", time);
}

/// A start sets the status to `Connecting` for its profile from any state,
/// a stop that follows sets it to `Disconnected`, and each writes one line
/// to the log: the last two lines are theirs, in that order.
pub proof fn law_start_then_stop(s: StateView, profile: Seq<char>, t1: i64, t2: i64)
    ensures
        started(s, profile, t1).status == (StatusView::Connecting { profile }),
        stopped(started(s, profile, t1), t2).status == StatusView::Disconnected,
        stopped(started(s, profile, t1), t2).config == s.config,
        started(s, profile, t1).logs.last() == entry(t1, "starting sing-box for "@ + profile),
        stopped(started(s, profile, t1), t2).logs.last() == entry(t2, "sing-box stopped"@),
        stopped(started(s, profile, t1), t2).logs.len() >= 2,
        stopped(started(s, profile, t1), t2).logs[stopped(started(s, profile, t1), t2).logs.len()
            - 2] == entry(t1, "starting sing-box for "@ + profile),
{
}

} // verus!
