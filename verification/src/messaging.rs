//! What the core tells the user interface: the kinds of message on the event bus, and log
//! entries.

use vstd::prelude::*;
use vstd::string::*;

use crate::text::str_eq;

verus! {

/// How many messages a channel between two actors holds before its senders wait.
pub const CHANNEL_CAPACITY: usize = 32;

/// The kinds of message that the event bus carries.
#[derive(Clone, Copy, Debug, PartialEq, Eq, Structural)]
pub enum AppMessageType {
    AmplifierManagerState,
    AmplifierState,
    AppLog,
    Devices,
    IsActivating,
    IsDiscovering,
    IsInitializingStreamMagicManager,
    StreamerSystemInfo,
    StreamerSystemPower,
    StreamerSystemSources,
    StreamerPresets,
    StreamerQueueList,
    StreamerZoneNowPlaying,
    StreamerZonePlayState,
    StreamerZonePlayStatePosition,
    StreamerZonePosition,
    StreamerZoneState,
    StreamMagicManagerState,
    StreamMagicManagerStatus,
    WebSocketClientStatus,
}

impl AppMessageType {
    /// The name under which messages of this kind are published: the variant's own name.
    pub open spec fn name_text(self) -> Seq<char> {
        match self {
            AppMessageType::AmplifierManagerState => "AmplifierManagerState"@,
            AppMessageType::AmplifierState => "AmplifierState"@,
            AppMessageType::AppLog => "AppLog"@,
            AppMessageType::Devices => "Devices"@,
            AppMessageType::IsActivating => "IsActivating"@,
            AppMessageType::IsDiscovering => "IsDiscovering"@,
            AppMessageType::IsInitializingStreamMagicManager => "IsInitializingStreamMagicManager"@,
            AppMessageType::StreamerSystemInfo => "StreamerSystemInfo"@,
            AppMessageType::StreamerSystemPower => "StreamerSystemPower"@,
            AppMessageType::StreamerSystemSources => "StreamerSystemSources"@,
            AppMessageType::StreamerPresets => "StreamerPresets"@,
            AppMessageType::StreamerQueueList => "StreamerQueueList"@,
            AppMessageType::StreamerZoneNowPlaying => "StreamerZoneNowPlaying"@,
            AppMessageType::StreamerZonePlayState => "StreamerZonePlayState"@,
            AppMessageType::StreamerZonePlayStatePosition => "StreamerZonePlayStatePosition"@,
            AppMessageType::StreamerZonePosition => "StreamerZonePosition"@,
            AppMessageType::StreamerZoneState => "StreamerZoneState"@,
            AppMessageType::StreamMagicManagerState => "StreamMagicManagerState"@,
            AppMessageType::StreamMagicManagerStatus => "StreamMagicManagerStatus"@,
            AppMessageType::WebSocketClientStatus => "WebSocketClientStatus"@,
        }
    }

    /// The name under which messages of this kind are published.
    pub fn name(&self) -> (text: String)
        ensures
            text@ == self.name_text(),
    {
        let text: &str = match self {
            AppMessageType::AmplifierManagerState => "AmplifierManagerState",
            AppMessageType::AmplifierState => "AmplifierState",
            AppMessageType::AppLog => "AppLog",
            AppMessageType::Devices => "Devices",
            AppMessageType::IsActivating => "IsActivating",
            AppMessageType::IsDiscovering => "IsDiscovering",
            AppMessageType::IsInitializingStreamMagicManager => "IsInitializingStreamMagicManager",
            AppMessageType::StreamerSystemInfo => "StreamerSystemInfo",
            AppMessageType::StreamerSystemPower => "StreamerSystemPower",
            AppMessageType::StreamerSystemSources => "StreamerSystemSources",
            AppMessageType::StreamerPresets => "StreamerPresets",
            AppMessageType::StreamerQueueList => "StreamerQueueList",
            AppMessageType::StreamerZoneNowPlaying => "StreamerZoneNowPlaying",
            AppMessageType::StreamerZonePlayState => "StreamerZonePlayState",
            AppMessageType::StreamerZonePlayStatePosition => "StreamerZonePlayStatePosition",
            AppMessageType::StreamerZonePosition => "StreamerZonePosition",
            AppMessageType::StreamerZoneState => "StreamerZoneState",
            AppMessageType::StreamMagicManagerState => "StreamMagicManagerState",
            AppMessageType::StreamMagicManagerStatus => "StreamMagicManagerStatus",
            AppMessageType::WebSocketClientStatus => "WebSocketClientStatus",
        };
        String::from_str(text)
    }
}

/// How grave a log entry is.
#[derive(Clone, Copy, Debug, PartialEq, Eq, Structural)]
pub enum SerializableLevel {
    Error,
    Warn,
    Info,
    Debug,
    Trace,
}

impl SerializableLevel {
    /// The level's name in lower case, as the user interface spells it.
    pub open spec fn label_text(self) -> Seq<char> {
        match self {
            SerializableLevel::Error => "error"@,
            SerializableLevel::Warn => "warn"@,
            SerializableLevel::Info => "info"@,
            SerializableLevel::Debug => "debug"@,
            SerializableLevel::Trace => "trace"@,
        }
    }

    /// The level's name in lower case.
    pub fn label(&self) -> (text: String)
        ensures
            text@ == self.label_text(),
    {
        let text: &str = match self {
            SerializableLevel::Error => "error",
            SerializableLevel::Warn => "warn",
            SerializableLevel::Info => "info",
            SerializableLevel::Debug => "debug",
            SerializableLevel::Trace => "trace",
        };
        String::from_str(text)
    }
}

/// The level that the user interface means by `label`. A label that names no level counts
/// as `info`.
pub open spec fn level_of_label(label: Seq<char>) -> SerializableLevel {
    if label == "debug"@ {
        SerializableLevel::Debug
    } else if label == "error"@ {
        SerializableLevel::Error
    } else if label == "trace"@ {
        SerializableLevel::Trace
    } else if label == "warn"@ {
        SerializableLevel::Warn
    } else {
        SerializableLevel::Info
    }
}

impl SerializableLevel {
    /// The level that the user interface means by `label`.
    pub fn from_label(label: &str) -> (level: SerializableLevel)
        ensures
            level == level_of_label(label@),
    {
        if str_eq(label, "debug") {
            SerializableLevel::Debug
        } else if str_eq(label, "error") {
            SerializableLevel::Error
        } else if str_eq(label, "trace") {
            SerializableLevel::Trace
        } else if str_eq(label, "warn") {
            SerializableLevel::Warn
        } else {
            SerializableLevel::Info
        }
    }
}

/// Every level is the level that its own label means.
pub proof fn lemma_label_names_its_level(level: SerializableLevel)
    ensures
        level_of_label(level.label_text()) == level,
{
    reveal_strlit("debug");
    reveal_strlit("error");
    reveal_strlit("trace");
    reveal_strlit("warn");
    reveal_strlit("info");
    assert("debug"@[0] == 'd');
    assert("error"@[0] == 'e');
    assert("trace"@[0] == 't');
    assert("warn"@[0] == 'w');
    assert("info"@[0] == 'i');
}

/// One entry of the log that the user interface shows.
#[derive(Clone, Debug, PartialEq, Eq)]
pub struct AppLog {
    pub level: SerializableLevel,
    pub message: String,
    /// When the entry was made, in milliseconds since the start of 1970.
    pub when: u128,
}

/// A log entry as mathematics sees it.
pub struct LogView {
    pub level: SerializableLevel,
    pub message: Seq<char>,
    pub when: u128,
}

impl View for AppLog {
    type V = LogView;

    open spec fn view(&self) -> LogView {
        LogView { level: self.level, message: self.message@, when: self.when }
    }
}

/// `std::time::SystemTime`: a moment of the system clock.
#[verifier::external_type_specification]
#[verifier::external_body]
pub struct ExSystemTime(std::time::SystemTime);

/// `std::time::SystemTimeError`: what `SystemTime::duration_since` gives for a moment that
/// lies before the one it is measured from.
#[verifier::external_type_specification]
#[verifier::external_body]
pub struct ExSystemTimeError(std::time::SystemTimeError);

/// `std::time::SystemTime::now`: the moment that the system clock shows. Nothing is claimed
/// of it.
#[verifier::external_body]
fn clock_now() -> (moment: std::time::SystemTime) {
    std::time::SystemTime::now()
}

/// `std::time::SystemTime::duration_since`, measured from the start of 1970: the time
/// between the two, or an error where `moment` lies before 1970. Nothing else is claimed.
#[verifier::external_body]
fn since_epoch(moment: &std::time::SystemTime) -> (elapsed: Result<
    core::time::Duration,
    std::time::SystemTimeError,
>) {
    moment.duration_since(std::time::UNIX_EPOCH)
}

/// `core::time::Duration::as_millis`: the whole milliseconds of a duration. Nothing is
/// claimed of their number.
#[verifier::external_body]
fn millis_of(elapsed: &core::time::Duration) -> (millis: u128) {
    elapsed.as_millis()
}

/// The milliseconds that the system clock counts since the start of 1970, or nothing where
/// the clock stands before it.
fn unix_millis() -> (millis: Option<u128>) {
    let moment = clock_now();
    match since_epoch(&moment) {
        Ok(elapsed) => Some(millis_of(&elapsed)),
        Err(_) => None,
    }
}

/// The time of an entry that is made when the clock reads `reading`: the milliseconds that
/// it counts since the start of 1970, and 0 where the clock stands before it.
pub open spec fn time_of(reading: Option<u128>) -> u128 {
    match reading {
        Some(millis) => millis,
        None => 0,
    }
}

/// The time of an entry that is made when the clock reads `reading`.
pub fn entry_time(reading: Option<u128>) -> (time: u128)
    ensures
        time == time_of(reading),
{
    match reading {
        Some(millis) => millis,
        None => 0,
    }
}

impl AppLog {
    /// An entry made at the moment `when`.
    pub fn at(level: SerializableLevel, message: &str, when: u128) -> (entry: AppLog)
        ensures
            entry.level == level,
            entry.message@ == message@,
            entry.when == when,
    {
        AppLog { level, message: String::from_str(message), when }
    }

    /// An entry made now: at the time that `entry_time` makes of what the clock reads.
    pub fn new(level: SerializableLevel, message: &str) -> (entry: AppLog)
        ensures
            entry.level == level,
            entry.message@ == message@,
    {
        AppLog::at(level, message, entry_time(unix_millis()))
    }

    /// A copy of this entry.
    pub fn duplicate(&self) -> (entry: AppLog)
        ensures
            entry == *self,
    {
        AppLog { level: self.level, message: self.message.clone(), when: self.when }
    }
}

} // verus!
