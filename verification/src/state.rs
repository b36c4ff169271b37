//! The shared state that the front ends read and the controller writes:
//! a cached configuration, the connection status and a bounded log.

use crate::config::{
    default_config, Config, ConfigManager, ConfigView, Platform, Profile, StoreError,
};
use crate::text::{decimal, decimal_text, join};
use vstd::prelude::*;
use vstd::string::*;

verus! {

/// The most log lines that the state keeps; older ones leave first.
pub const LOG_CAPACITY: usize = 200;

/// Keeps the last `n` items of a sequence, in their order.
pub open spec fn keep_last<T>(s: Seq<T>, n: nat) -> Seq<T> {
    if s.len() <= n {
        s
    } else {
        s.subrange(s.len() - n, s.len() as int)
    }
}

/// One log line. `time` is the instant it was written, in milliseconds
/// since the Unix epoch.
#[derive(Clone, Debug, PartialEq, Eq)]
pub struct LogLine {
    pub time: i64,
    pub message: String,
}

/// What a log line holds, as plain values.
pub struct LogEntry {
    pub time: i64,
    pub message: Seq<char>,
}

impl View for LogLine {
    type V = LogEntry;

    open spec fn view(&self) -> LogEntry {
        LogEntry { time: self.time, message: self.message@ }
    }
}

/// The entry written at `time` with the text `message`.
pub open spec fn entry(time: i64, message: Seq<char>) -> LogEntry {
    LogEntry { time, message }
}

/// The views of a run of log lines, in order.
pub open spec fn log_entries(lines: Seq<LogLine>) -> Seq<LogEntry> {
    lines.map_values(|l: LogLine| l@)
}

impl LogLine {
    /// A copy of the line.
    pub fn duplicate(&self) -> (l: LogLine)
        ensures
            l == *self,
    {
        LogLine { time: self.time, message: self.message.clone() }
    }
}

/// What the controller believes of the connection. Replaced as a whole.
#[derive(Clone, Debug, PartialEq, Eq)]
pub enum RealStatus {
    Disconnected,
    Connecting { profile: String },
    Connected { profile: String, pid: u32 },
    Error { message: String },
}

/// A status, as plain values.
pub enum StatusView {
    Disconnected,
    Connecting { profile: Seq<char> },
    Connected { profile: Seq<char>, pid: u32 },
    Error { message: Seq<char> },
}

impl View for RealStatus {
    type V = StatusView;

    open spec fn view(&self) -> StatusView {
        match *self {
            RealStatus::Disconnected => StatusView::Disconnected,
            RealStatus::Connecting { profile } => StatusView::Connecting { profile: profile@ },
            RealStatus::Connected { profile, pid } => StatusView::Connected {
                profile: profile@,
                pid,
            },
            RealStatus::Error { message } => StatusView::Error { message: message@ },
        }
    }
}

impl RealStatus {
    /// A copy of the status.
    pub fn duplicate(&self) -> (s: RealStatus)
        ensures
            s == *self,
    {
        match self {
            RealStatus::Disconnected => RealStatus::Disconnected,
            RealStatus::Connecting { profile } => RealStatus::Connecting {
                profile: profile.clone(),
            },
            RealStatus::Connected { profile, pid } => RealStatus::Connected {
                profile: profile.clone(),
                pid: *pid,
            },
            RealStatus::Error { message } => RealStatus::Error { message: message.clone() },
        }
    }
}

/// Cached configuration, status and log. One owner changes it at a time;
/// callers that share it put it behind a lock of their own.
#[derive(Clone, Debug, PartialEq, Eq)]
pub struct AppState {
    pub config: Config,
    pub status: RealStatus,
    pub logs: Vec<LogLine>,
}

/// The state, as plain values.
pub struct StateView {
    pub config: ConfigView,
    pub status: StatusView,
    pub logs: Seq<LogEntry>,
}

impl View for AppState {
    type V = StateView;

    open spec fn view(&self) -> StateView {
        StateView { config: self.config@, status: self.status@, logs: log_entries(self.logs@) }
    }
}

impl StateView {
    /// The state with `e` written to the log: `e` comes last, and of what
    /// was there the oldest lines leave until `LOG_CAPACITY` are left.
    pub open spec fn logged(self, e: LogEntry) -> StateView {
        StateView { logs: keep_last(self.logs.push(e), LOG_CAPACITY as nat), ..self }
    }

    /// The state with its status replaced.
    pub open spec fn with_status(self, status: StatusView) -> StateView {
        StateView { status, ..self }
    }

    /// The state with the cached profile at position `i` taken out.
    pub open spec fn without_profile(self, i: int) -> StateView
        recommends
            0 <= i < self.config.profiles.len(),
    {
        StateView { config: self.config.without_profile(i), ..self }
    }
}

/// The line that records the removal of the profile at `index`.
pub open spec fn deletion_text(index: nat) -> Seq<char> {
    "Profile at index "@ + decimal_text(index) + " deleted"@
}

/// Builds the line that records the removal of the profile at `index`.
pub fn deletion_notice(index: usize) -> (s: String)
    ensures
        s@ == deletion_text(index as nat),
{
    let digits = decimal(index);
    let head = join("Profile at index ", digits.as_str());
    join(head.as_str(), " deleted")
}

impl AppState {
    /// A fresh state round what the load gave: the loaded configuration,
    /// or the platform's default where the load failed. Disconnected,
    /// nothing logged.
    pub fn new(loaded: Result<Config, StoreError>, platform: Platform) -> (s: AppState)
        ensures
            loaded matches Ok(c) ==> s.config == c,
            loaded is Err ==> s.config@ == default_config(platform),
            s@.status == StatusView::Disconnected,
            s@.logs == Seq::<LogEntry>::empty(),
    {
        let config = match loaded {
            Ok(c) => c,
            Err(_) => Config::default_for(platform),
        };
        let s = AppState { config, status: RealStatus::Disconnected, logs: Vec::new() };
        assert(s@.logs =~= Seq::<LogEntry>::empty());
        s
    }

    /// The profiles to list, from what a load of the durable document
    /// gave just now: its profiles in their stored order, or none where
    /// the load failed. The cached configuration is not consulted.
    pub fn profiles(loaded: Result<Config, StoreError>) -> (p: Vec<Profile>)
        ensures
            loaded matches Ok(c) ==> p == c.profiles,
            loaded is Err ==> p@.len() == 0,
    {
        match loaded {
            Ok(c) => c.profiles,
            Err(_) => Vec::new(),
        }
    }

    /// A whole copy of the current status.
    pub fn read_status(&self) -> (s: RealStatus)
        ensures
            s == self.status,
    {
        self.status.duplicate()
    }

    /// Replaces the status; configuration and log stay.
    pub fn set_status(&mut self, status: RealStatus)
        ensures
            final(self).status == status,
            final(self).config == old(self).config,
            final(self).logs == old(self).logs,
            final(self)@ == old(self)@.with_status(status@),
    {
        self.status = status;
    }

    /// Writes `line` to the log and evicts the oldest lines beyond
    /// `LOG_CAPACITY`.
    pub fn push_line(&mut self, line: LogLine)
        ensures
            final(self)@ == old(self)@.logged(line@),
            final(self).logs@ == keep_last(old(self).logs@.push(line), LOG_CAPACITY as nat),
            final(self).logs@.len() <= LOG_CAPACITY,
            final(self).config == old(self).config,
            final(self).status == old(self).status,
    {
        self.logs.push(line);
        let len: usize = self.logs.len();
        if len > LOG_CAPACITY {
            let kept = self.logs.split_off(len - LOG_CAPACITY);
            self.logs = kept;
        }
        assert(self.logs@ =~= keep_last(old(self).logs@.push(line), LOG_CAPACITY as nat));
        assert(log_entries(self.logs@) =~= keep_last(
            log_entries(old(self).logs@).push(line@),
            LOG_CAPACITY as nat,
        ));
    }

    /// Writes `message` to the log, stamped with `time`, the instant the
    /// caller read from its clock.
    pub fn push_log(&mut self, message: &str, time: i64)
        ensures
            final(self)@ == old(self)@.logged(entry(time, message@)),
            final(self).logs@.len() <= LOG_CAPACITY,
            final(self).config == old(self).config,
            final(self).status == old(self).status,
    {
        let line = LogLine { time, message: String::from_str(message) };
        self.push_line(line);
    }

    /// The last `n` log lines, or all of them where there are fewer, the
    /// most recent last.
    pub fn read_logs(&self, n: usize) -> (lines: Vec<LogLine>)
        ensures
            lines@ == keep_last(self.logs@, n as nat),
            log_entries(lines@) == keep_last(log_entries(self.logs@), n as nat),
    {
        let len: usize = self.logs.len();
        let start: usize = if len <= n { 0 } else { len - n };
        let mut lines: Vec<LogLine> = Vec::new();
        let mut i: usize = start;
        while i < len
            invariant
                len == self.logs@.len(),
                start <= i <= len,
                lines@ == self.logs@.subrange(start as int, i as int),
            decreases len - i,
        {
            lines.push(self.logs[i].duplicate());
            assert(lines@ =~= self.logs@.subrange(start as int, i + 1));
            i = i + 1;
        }
        assert(lines@ =~= keep_last(self.logs@, n as nat));
        assert(log_entries(lines@) =~= keep_last(log_entries(self.logs@), n as nat));
        lines
    }

    /// Takes the profile at `index` out of the cached configuration and
    /// records it in the log at `time`. An index behind the last profile is
    /// refused: nothing changes and nothing is logged.
    pub fn delete_profile(&mut self, index: usize, time: i64) -> (r: Result<(), StoreError>)
        ensures
            index < old(self).config.profiles@.len() ==> r is Ok && final(self)@ == old(
                self,
            )@.without_profile(index as int).logged(entry(time, deletion_text(index as nat))),
            index >= old(self).config.profiles@.len() ==> r == Err::<(), StoreError>(
                StoreError::Index { index, len: old(self).config.profiles@.len() as usize },
            ) && *final(self) == *old(self),
    {
        match ConfigManager::delete_profile(&mut self.config, index) {
            Ok(()) => {
                let notice = deletion_notice(index);
                self.push_log(notice.as_str(), time);
                Ok(())
            },
            Err(e) => Err(e),
        }
    }
}

/// The log after each of `items` was written to it in turn.
pub open spec fn logged_all(logs: Seq<LogEntry>, items: Seq<LogEntry>) -> Seq<LogEntry>
    decreases items.len(),
{
    if items.len() == 0 {
        logs
    } else {
        keep_last(logged_all(logs, items.drop_last()).push(items.last()), LOG_CAPACITY as nat)
    }
}

/// Cutting twice is cutting once to the smaller length.
pub proof fn lemma_keep_last_twice<T>(s: Seq<T>, m: nat, n: nat)
    requires
        n <= m,
    ensures
        keep_last(keep_last(s, m), n) == keep_last(s, n),
{
    assert(keep_last(keep_last(s, m), n) =~= keep_last(s, n));
}

/// The log never outgrows its capacity, and a run of writes leaves the
/// newest `LOG_CAPACITY` lines of all that was there and all that was
/// written, in the order of writing.
pub proof fn law_writes_keep_newest(logs: Seq<LogEntry>, items: Seq<LogEntry>)
    requires
        logs.len() <= LOG_CAPACITY,
    ensures
        logged_all(logs, items).len() <= LOG_CAPACITY,
        logged_all(logs, items) == keep_last(logs + items, LOG_CAPACITY as nat),
    decreases items.len(),
{
    if items.len() == 0 {
        assert(logs + items =~= logs);
    } else {
        law_writes_keep_newest(logs, items.drop_last());
        let before = logs + items.drop_last();
        assert(before.push(items.last()) =~= logs + items);
        assert(keep_last(keep_last(before, LOG_CAPACITY as nat).push(items.last()), LOG_CAPACITY as nat)
            =~= keep_last(before.push(items.last()), LOG_CAPACITY as nat));
    }
}

/// After a run of writes, reading the last `n` lines gives the last `n` of
/// all that was there and all that was written, the most recent last.
pub proof fn law_recent_after_writes(logs: Seq<LogEntry>, items: Seq<LogEntry>, n: nat)
    requires
        logs.len() <= LOG_CAPACITY,
        n <= LOG_CAPACITY,
    ensures
        keep_last(logged_all(logs, items), n) == keep_last(logs + items, n),
        n <= items.len() ==> keep_last(logged_all(logs, items), n) == keep_last(items, n),
{
    law_writes_keep_newest(logs, items);
    lemma_keep_last_twice(logs + items, LOG_CAPACITY as nat, n);
    if n <= items.len() {
        assert(keep_last(logs + items, n) =~= keep_last(items, n));
    }
}

} // verus!
