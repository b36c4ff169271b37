//! The stored configuration: global settings and the ordered list of
//! connection profiles, with the decisions of the profile store.

use crate::text::{blank, decimal, decimal_text, is_blank, join};
use vstd::prelude::*;
use vstd::string::*;

verus! {

/// Path of the durable configuration document.
pub const NETX_CONFIG_TOML: &'static str = "config/config.toml";

/// Directory that holds the configuration document.
pub const NETX_CONFIG_DIR: &'static str = "config";

/// Path under which a new document is written before it takes the place of
/// the old one.
pub const NETX_CONFIG_TOML_NEW: &'static str = "config/config.toml.new";

/// Path of the template from which the client's own configuration is made.
pub const SING_BOX_TEMPLATE_CONFIG_JSON: &'static str = "config/config.json.template";

/// Path of the client's own configuration.
pub const SING_BOX_CONFIG_JSON: &'static str = "config/config.json";

/// The operating systems whose defaults and commands the library knows.
#[derive(Clone, Copy, Debug, PartialEq, Eq, Structural)]
pub enum Platform {
    Linux,
    Windows,
}

/// Log verbosity, from the most to the least talkative; the derived order
/// is trace < debug < info < warn < error.
#[derive(Clone, Copy, Debug, PartialEq, Eq, PartialOrd, Ord, Structural)]
pub enum LogLevel {
    Trace,
    Debug,
    Info,
    Warn,
    Error,
}

#[derive(Clone, Copy, Debug, PartialEq, Eq)]
pub struct LogConfig {
    pub level: LogLevel,
}

/// Transport of a profile. One variant today; more may follow.
#[derive(Clone, Copy, Debug, PartialEq, Eq, Structural)]
pub enum ProfileType {
    Vless,
}

#[derive(Clone, Debug, PartialEq, Eq)]
pub struct UTLS {
    pub fingerprint: String,
}

#[derive(Clone, Debug, PartialEq, Eq)]
pub struct Reality {
    pub public_key: String,
    pub short_id: String,
}

#[derive(Clone, Debug, PartialEq, Eq)]
pub struct Transport {
    pub service_name: String,
}

#[derive(Clone, Debug, PartialEq, Eq)]
pub struct TLS {
    pub server_name: String,
    pub utls: UTLS,
    pub reality: Reality,
    pub transport: Transport,
}

/// One connection target. A value record: an edit is a delete and an add.
#[derive(Clone, Debug, PartialEq, Eq)]
pub struct Profile {
    pub name: String,
    pub uuid: String,
    pub kind: ProfileType,
    pub server: String,
    pub server_port: u16,
    pub tls: TLS,
}

/// What a profile holds, as plain values.
pub struct ProfileView {
    pub name: Seq<char>,
    pub uuid: Seq<char>,
    pub kind: ProfileType,
    pub server: Seq<char>,
    pub server_port: u16,
    pub tls_server_name: Seq<char>,
    pub fingerprint: Seq<char>,
    pub public_key: Seq<char>,
    pub short_id: Seq<char>,
    pub service_name: Seq<char>,
}

impl View for Profile {
    type V = ProfileView;

    open spec fn view(&self) -> ProfileView {
        ProfileView {
            name: self.name@,
            uuid: self.uuid@,
            kind: self.kind,
            server: self.server@,
            server_port: self.server_port,
            tls_server_name: self.tls.server_name@,
            fingerprint: self.tls.utls.fingerprint@,
            public_key: self.tls.reality.public_key@,
            short_id: self.tls.reality.short_id@,
            service_name: self.tls.transport.service_name@,
        }
    }
}

/// The views of a list of profiles, in order.
pub open spec fn profile_views(profiles: Seq<Profile>) -> Seq<ProfileView> {
    profiles.map_values(|p: Profile| p@)
}

/// Process-wide settings and the ordered profiles.
#[derive(Clone, Debug, PartialEq, Eq)]
pub struct Config {
    pub version: u8,
    pub terminal: String,
    pub singbox: String,
    pub log: LogConfig,
    pub profiles: Vec<Profile>,
}

/// What a configuration holds, as plain values.
pub struct ConfigView {
    pub version: u8,
    pub terminal: Seq<char>,
    pub singbox: Seq<char>,
    pub level: LogLevel,
    pub profiles: Seq<ProfileView>,
}

impl View for Config {
    type V = ConfigView;

    open spec fn view(&self) -> ConfigView {
        ConfigView {
            version: self.version,
            terminal: self.terminal@,
            singbox: self.singbox@,
            level: self.log.level,
            profiles: profile_views(self.profiles@),
        }
    }
}

impl ConfigView {
    /// The same settings with `p` added behind the last profile.
    pub open spec fn with_profile(self, p: ProfileView) -> ConfigView {
        ConfigView { profiles: self.profiles.push(p), ..self }
    }

    /// The same settings without the profile at position `i`.
    pub open spec fn without_profile(self, i: int) -> ConfigView
        recommends
            0 <= i < self.profiles.len(),
    {
        ConfigView { profiles: self.profiles.remove(i), ..self }
    }
}

/// The configuration that stands in for a missing or empty document.
pub open spec fn default_config(platform: Platform) -> ConfigView {
    ConfigView {
        version: 1,
        terminal: match platform {
            Platform::Linux => "alacritty"@,
            Platform::Windows => "cmd"@,
        },
        singbox: match platform {
            Platform::Linux => "/usr/bin/sing-box"@,
            Platform::Windows => "C:\\Program Files\\sing-box\\sing-box.exe"@,
        },
        level: LogLevel::Warn,
        profiles: Seq::empty(),
    }
}

impl Config {
    /// The default configuration of a platform: its terminal, its path of
    /// the client binary, warnings and errors logged, no profile.
    pub fn default_for(platform: Platform) -> (c: Config)
        ensures
            c@ == default_config(platform),
    {
        let terminal = match platform {
            Platform::Linux => String::from_str("alacritty"),
            Platform::Windows => String::from_str("cmd"),
        };
        let singbox = match platform {
            Platform::Linux => String::from_str("/usr/bin/sing-box"),
            Platform::Windows => String::from_str("C:\\Program Files\\sing-box\\sing-box.exe"),
        };
        let c = Config {
            version: 1,
            terminal,
            singbox,
            log: LogConfig { level: LogLevel::Warn },
            profiles: Vec::new(),
        };
        assert(c@.profiles =~= Seq::empty());
        c
    }
}

/// What reading the durable document gave.
#[derive(Clone, Debug, PartialEq, Eq)]
pub enum FileRead {
    /// No document at the path.
    Missing,
    /// The document exists and could not be read.
    Unreadable { message: String },
    /// The document's text.
    Text { content: String },
}

/// Why the profile store refused.
#[derive(Clone, Debug, PartialEq, Eq)]
pub enum StoreError {
    /// The document is not empty and cannot be decoded.
    Parse { message: String },
    /// Reading or writing the document failed.
    Io { message: String },
    /// No profile at `index`: the list holds `len` profiles.
    Index { index: usize, len: usize },
}

/// The text of an error, for a status line or a log.
pub open spec fn error_text(e: StoreError) -> Seq<char> {
    match e {
        StoreError::Parse { message } => "malformed configuration: "@ + message@,
        StoreError::Io { message } => "configuration not accessible: "@ + message@,
        StoreError::Index { index, len } => "no profile at index "@ + decimal_text(index as nat),
    }
}

impl StoreError {
    /// Describes the error in words.
    pub fn describe(&self) -> (s: String)
        ensures
            s@ == error_text(*self),
    {
        match self {
            StoreError::Parse { message } => join("malformed configuration: ", message.as_str()),
            StoreError::Io { message } => join("configuration not accessible: ", message.as_str()),
            StoreError::Index { index, len } => {
                let digits = decimal(*index);
                join("no profile at index ", digits.as_str())
            },
        }
    }
}

/// One step of saving the document.
#[derive(Clone, Debug, PartialEq, Eq)]
pub enum WriteStep {
    /// Create the directory and those above it, where they are missing.
    CreateDir { path: String },
    /// Write the whole content to the path, replacing what is there.
    WriteFile { path: String, content: String },
    /// Move the file at `from` to `to` in one step.
    Rename { from: String, to: String },
}

/// A step of saving, as plain values.
pub enum WriteStepView {
    CreateDir { path: Seq<char> },
    WriteFile { path: Seq<char>, content: Seq<char> },
    Rename { from: Seq<char>, to: Seq<char> },
}

impl View for WriteStep {
    type V = WriteStepView;

    open spec fn view(&self) -> WriteStepView {
        match *self {
            WriteStep::CreateDir { path } => WriteStepView::CreateDir { path: path@ },
            WriteStep::WriteFile { path, content } => WriteStepView::WriteFile {
                path: path@,
                content: content@,
            },
            WriteStep::Rename { from, to } => WriteStepView::Rename { from: from@, to: to@ },
        }
    }
}

/// The steps that save `text`: the directory is made, the text is written
/// beside the document, and only the finished file takes the document's
/// place. A failure at any step leaves the old document whole.
pub open spec fn write_plan(text: Seq<char>) -> Seq<WriteStepView> {
    seq![
        WriteStepView::CreateDir { path: NETX_CONFIG_DIR@ },
        WriteStepView::WriteFile { path: NETX_CONFIG_TOML_NEW@, content: text },
        WriteStepView::Rename { from: NETX_CONFIG_TOML_NEW@, to: NETX_CONFIG_TOML@ },
    ]
}

/// What to do with what was read.
#[derive(Clone, Debug, PartialEq, Eq)]
pub enum LoadStep {
    /// Write this default configuration and use it.
    WriteDefault(Config),
    /// Decode this text.
    Decode(String),
    /// Give up with this error.
    Fail(StoreError),
}

/// The step that `read` calls for on `platform`.
pub open spec fn load_step_is(read: FileRead, platform: Platform, step: LoadStep) -> bool {
    match read {
        FileRead::Missing => step matches LoadStep::WriteDefault(c) && c@ == default_config(
            platform,
        ),
        FileRead::Unreadable { message } => step matches LoadStep::Fail(
            StoreError::Io { message: m },
        ) && m@ == message@,
        FileRead::Text { content } => if blank(content@) {
            step matches LoadStep::WriteDefault(c) && c@ == default_config(platform)
        } else {
            step matches LoadStep::Decode(t) && t@ == content@
        },
    }
}

/// The profile store's rules. The document itself is read, decoded and
/// written by the caller; every change is one load, one change, one save.
pub struct ConfigManager {}

impl ConfigManager {
    /// Decides what a load does with what was read: a missing document, or
    /// one that is empty or white space only, is replaced by the platform's
    /// default; an unreadable one fails; any other text is to be decoded.
    pub fn load_config(read: FileRead, platform: Platform) -> (step: LoadStep)
        ensures
            load_step_is(read, platform, step),
    {
        match read {
            FileRead::Missing => LoadStep::WriteDefault(Config::default_for(platform)),
            FileRead::Unreadable { message } => LoadStep::Fail(StoreError::Io { message }),
            FileRead::Text { content } => {
                if is_blank(content.as_str()) {
                    LoadStep::WriteDefault(Config::default_for(platform))
                } else {
                    LoadStep::Decode(content)
                }
            },
        }
    }

    /// Ends a load with what decoding gave: the configuration, or a parse
    /// error that carries the decoder's message.
    pub fn decoded(outcome: Result<Config, String>) -> (r: Result<Config, StoreError>)
        ensures
            match outcome {
                Ok(c) => r == Ok::<Config, StoreError>(c),
                Err(message) => r matches Err(StoreError::Parse { message: m }) && m@ == message@,
            },
    {
        match outcome {
            Ok(c) => Ok(c),
            Err(message) => Err(StoreError::Parse { message }),
        }
    }

    /// Plans the saving of the encoded document `text`. The caller runs the
    /// steps in order and stops at the first that fails.
    pub fn write_config(text: String) -> (steps: Vec<WriteStep>)
        ensures
            steps@.len() == 3,
            steps@.map_values(|s: WriteStep| s@) == write_plan(text@),
    {
        let mut steps: Vec<WriteStep> = Vec::new();
        steps.push(WriteStep::CreateDir { path: String::from_str(NETX_CONFIG_DIR) });
        steps.push(
            WriteStep::WriteFile { path: String::from_str(NETX_CONFIG_TOML_NEW), content: text },
        );
        steps.push(
            WriteStep::Rename {
                from: String::from_str(NETX_CONFIG_TOML_NEW),
                to: String::from_str(NETX_CONFIG_TOML),
            },
        );
        assert(steps@.map_values(|s: WriteStep| s@) =~= write_plan(text@));
        steps
    }

    /// Ends a save with what running the steps gave: a failure becomes an
    /// I/O error that carries its message.
    pub fn written(outcome: Result<(), String>) -> (r: Result<(), StoreError>)
        ensures
            outcome is Ok ==> r is Ok,
            outcome matches Err(message) ==> r matches Err(StoreError::Io { message: m }) && m@
                == message@,
    {
        match outcome {
            Ok(()) => Ok(()),
            Err(message) => Err(StoreError::Io { message }),
        }
    }

    /// Adds `profile` behind the last profile; nothing else changes.
    pub fn add_profile(config: &mut Config, profile: Profile)
        ensures
            final(config)@ == old(config)@.with_profile(profile@),
            final(config).profiles@ == old(config).profiles@.push(profile),
    {
        config.profiles.push(profile);
        assert(profile_views(config.profiles@) =~= profile_views(old(config).profiles@).push(
            profile@,
        ));
    }

    /// Removes the profile at `index` and keeps the others in their order.
    /// An index behind the last profile is refused and nothing changes.
    pub fn delete_profile(config: &mut Config, index: usize) -> (r: Result<(), StoreError>)
        ensures
            index < old(config).profiles@.len() ==> r is Ok && final(config)@ == old(
                config,
            )@.without_profile(index as int) && final(config).profiles@ == old(
                config,
            ).profiles@.remove(index as int),
            index >= old(config).profiles@.len() ==> r == Err::<(), StoreError>(
                StoreError::Index { index, len: old(config).profiles@.len() as usize },
            ) && *final(config) == *old(config),
    {
        let len: usize = config.profiles.len();
        if index >= len {
            return Err(StoreError::Index { index, len });
        }
        let _ = config.profiles.remove(index);
        assert(profile_views(config.profiles@) =~= profile_views(old(config).profiles@).remove(
            index as int,
        ));
        Ok(())
    }
}

/// A missing document and one that is empty or white space only load
/// alike: each gives the platform's default configuration, to be written
/// before it is used, and that configuration holds no profile.
pub proof fn law_missing_and_blank_load_the_default(
    content: String,
    platform: Platform,
    step: LoadStep,
)
    requires
        blank(content@),
        load_step_is(FileRead::Text { content }, platform, step),
    ensures
        load_step_is(FileRead::Missing, platform, step),
        step matches LoadStep::WriteDefault(c) && c@ == default_config(platform)
            && c@.profiles.len() == 0,
{
}

/// Adding a profile makes the list one longer, puts the profile last and
/// leaves every other profile and every setting as it was.
pub proof fn law_added_profile_is_last(c: ConfigView, p: ProfileView)
    ensures
        c.with_profile(p).profiles.len() == c.profiles.len() + 1,
        c.with_profile(p).profiles.last() == p,
        forall|j: int|
            0 <= j < c.profiles.len() ==> #[trigger] c.with_profile(p).profiles[j]
                == c.profiles[j],
        c.with_profile(p).version == c.version,
        c.with_profile(p).terminal == c.terminal,
        c.with_profile(p).singbox == c.singbox,
        c.with_profile(p).level == c.level,
{
}

/// Deleting the profile at a position within the list makes the list one
/// shorter: the profiles before it stay where they were, those behind it
/// move up by one, in their order, and every setting stays.
pub proof fn law_deleted_profile_leaves_the_rest(c: ConfigView, i: int)
    requires
        0 <= i < c.profiles.len(),
    ensures
        c.without_profile(i).profiles.len() == c.profiles.len() - 1,
        forall|j: int| 0 <= j < i ==> #[trigger] c.without_profile(i).profiles[j] == c.profiles[j],
        forall|j: int|
            i <= j < c.profiles.len() - 1 ==> #[trigger] c.without_profile(i).profiles[j]
                == c.profiles[j + 1],
        c.without_profile(i).version == c.version,
        c.without_profile(i).terminal == c.terminal,
        c.without_profile(i).singbox == c.singbox,
        c.without_profile(i).level == c.level,
{
}

} // verus!
