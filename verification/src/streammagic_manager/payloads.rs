//! What travels between the manager and the streamer: the messages that control the streamer
//! and ask for its updates, and the payloads of the updates that it sends.
//!
//! Every message to the streamer is JSON text with a `path` and, mostly, `params`. Most fields
//! of the payloads are optional, so that an update which leaves some of them out is still
//! taken in.

use vstd::prelude::*;
use vstd::string::*;

use crate::text::{
    decimal_string, decimal_text, json_escape, json_escaped, lemma_plain_text_is_not_escaped,
    needs_escape, str_eq,
};

verus! {

// ================================================================================================
// Paths
// ================================================================================================

/// The paths on which the streamer sends its updates and takes its commands.
pub const QUEUE_INFO_PATH: &'static str = "/queue/info";

pub const QUEUE_LIST_PATH: &'static str = "/queue/list";

pub const PRESETS_LIST_PATH: &'static str = "/presets/list";

pub const SYSTEM_INFO_PATH: &'static str = "/system/info";

pub const SYSTEM_POWER_PATH: &'static str = "/system/power";

pub const SYSTEM_SOURCES_PATH: &'static str = "/system/sources";

pub const ZONE_NOW_PLAYING_PATH: &'static str = "/zone/now_playing";

pub const ZONE_PLAY_STATE_PATH: &'static str = "/zone/play_state";

pub const ZONE_POSITION_PATH: &'static str = "/zone/play_state/position";

pub const ZONE_STATE_PATH: &'static str = "/zone/state";

pub const PLAY_CONTROL_PATH: &'static str = "/zone/play_control";

pub const RECALL_PRESET_PATH: &'static str = "/zone/recall_preset";

/// What a path of the streamer stands for.
#[derive(Clone, Copy, Debug, PartialEq, Eq, Structural)]
pub enum StreamerPath {
    QueueInfo,
    QueueList,
    PresetsList,
    SystemInfo,
    SystemPower,
    SystemSources,
    ZoneNowPlaying,
    ZonePlayState,
    ZonePosition,
    ZoneState,
    /// The streamer's answer to a play control message.
    PlayControl,
    /// The streamer's answer to the recall of a preset.
    RecallPreset,
}

impl StreamerPath {
    /// The path as the streamer spells it.
    pub open spec fn text(self) -> Seq<char> {
        match self {
            StreamerPath::QueueInfo => QUEUE_INFO_PATH@,
            StreamerPath::QueueList => QUEUE_LIST_PATH@,
            StreamerPath::PresetsList => PRESETS_LIST_PATH@,
            StreamerPath::SystemInfo => SYSTEM_INFO_PATH@,
            StreamerPath::SystemPower => SYSTEM_POWER_PATH@,
            StreamerPath::SystemSources => SYSTEM_SOURCES_PATH@,
            StreamerPath::ZoneNowPlaying => ZONE_NOW_PLAYING_PATH@,
            StreamerPath::ZonePlayState => ZONE_PLAY_STATE_PATH@,
            StreamerPath::ZonePosition => ZONE_POSITION_PATH@,
            StreamerPath::ZoneState => ZONE_STATE_PATH@,
            StreamerPath::PlayControl => PLAY_CONTROL_PATH@,
            StreamerPath::RecallPreset => RECALL_PRESET_PATH@,
        }
    }

    /// Whether updates on this path carry a payload that is kept.
    pub open spec fn has_slot(self) -> bool {
        !(self is PlayControl) && !(self is RecallPreset)
    }

    /// What `path` stands for, if it is a path that the manager knows. Where two known paths
    /// were spelled alike, the one that stands first in the list of paths would win.
    pub open spec fn of_text(path: Seq<char>) -> Option<StreamerPath> {
        if path == QUEUE_INFO_PATH@ {
            Some(StreamerPath::QueueInfo)
        } else if path == QUEUE_LIST_PATH@ {
            Some(StreamerPath::QueueList)
        } else if path == PRESETS_LIST_PATH@ {
            Some(StreamerPath::PresetsList)
        } else if path == SYSTEM_INFO_PATH@ {
            Some(StreamerPath::SystemInfo)
        } else if path == SYSTEM_POWER_PATH@ {
            Some(StreamerPath::SystemPower)
        } else if path == SYSTEM_SOURCES_PATH@ {
            Some(StreamerPath::SystemSources)
        } else if path == ZONE_NOW_PLAYING_PATH@ {
            Some(StreamerPath::ZoneNowPlaying)
        } else if path == ZONE_PLAY_STATE_PATH@ {
            Some(StreamerPath::ZonePlayState)
        } else if path == ZONE_POSITION_PATH@ {
            Some(StreamerPath::ZonePosition)
        } else if path == ZONE_STATE_PATH@ {
            Some(StreamerPath::ZoneState)
        } else if path == PLAY_CONTROL_PATH@ {
            Some(StreamerPath::PlayControl)
        } else if path == RECALL_PRESET_PATH@ {
            Some(StreamerPath::RecallPreset)
        } else {
            None
        }
    }

    /// What `path` stands for, if it is a path that the manager knows.
    pub fn parse(path: &str) -> (known: Option<StreamerPath>)
        ensures
            known == StreamerPath::of_text(path@),
    {
        if str_eq(path, QUEUE_INFO_PATH) {
            Some(StreamerPath::QueueInfo)
        } else if str_eq(path, QUEUE_LIST_PATH) {
            Some(StreamerPath::QueueList)
        } else if str_eq(path, PRESETS_LIST_PATH) {
            Some(StreamerPath::PresetsList)
        } else if str_eq(path, SYSTEM_INFO_PATH) {
            Some(StreamerPath::SystemInfo)
        } else if str_eq(path, SYSTEM_POWER_PATH) {
            Some(StreamerPath::SystemPower)
        } else if str_eq(path, SYSTEM_SOURCES_PATH) {
            Some(StreamerPath::SystemSources)
        } else if str_eq(path, ZONE_NOW_PLAYING_PATH) {
            Some(StreamerPath::ZoneNowPlaying)
        } else if str_eq(path, ZONE_PLAY_STATE_PATH) {
            Some(StreamerPath::ZonePlayState)
        } else if str_eq(path, ZONE_POSITION_PATH) {
            Some(StreamerPath::ZonePosition)
        } else if str_eq(path, ZONE_STATE_PATH) {
            Some(StreamerPath::ZoneState)
        } else if str_eq(path, PLAY_CONTROL_PATH) {
            Some(StreamerPath::PlayControl)
        } else if str_eq(path, RECALL_PRESET_PATH) {
            Some(StreamerPath::RecallPreset)
        } else {
            None
        }
    }
}

// ================================================================================================
// Envelopes
// ================================================================================================

/// A payload that belongs to a zone of the streamer.
#[derive(Clone, Debug, PartialEq, Eq)]
pub struct WithZone<T> {
    pub zone: String,
    pub data: T,
}

/// A payload that belongs to the streamer as a whole.
#[derive(Clone, Debug, PartialEq, Eq)]
pub struct WithoutZone<T> {
    pub data: T,
}

/// The two shapes that the parameters of an update come in.
#[derive(Clone, Copy, Debug, PartialEq, Eq, Structural)]
pub enum Params {
    WithZone,
    WithoutZone,
}

/// The message that asks the streamer to send every change on `path`, which is written as
/// a JSON string.
pub open spec fn update_request(path: Seq<char>) -> Seq<char> {
    "{\"path\": \""@ + json_escape(path) + "\", \"params\": {\"update\": 1}}"@
}

/// The message that asks the streamer to send every change on `path`.
pub fn update_request_msg(path: &str) -> (message: String)
    ensures
        message@ == update_request(path@),
{
    String::from_str("{\"path\": \"").concat(json_escaped(path).as_str()).concat(
        "\", \"params\": {\"update\": 1}}",
    )
}

/// The paths that the manager knows hold nothing that is written otherwise inside a JSON
/// string: the message that asks for the updates on such a path spells the path as it
/// stands.
pub proof fn lemma_known_paths_are_plain(path: StreamerPath)
    ensures
        json_escape(path.text()) == path.text(),
        update_request(path.text()) == "{\"path\": \""@ + path.text()
            + "\", \"params\": {\"update\": 1}}"@,
{
    reveal_strlit("/queue/info");
    reveal_strlit("/queue/list");
    reveal_strlit("/presets/list");
    reveal_strlit("/system/info");
    reveal_strlit("/system/power");
    reveal_strlit("/system/sources");
    reveal_strlit("/zone/now_playing");
    reveal_strlit("/zone/play_state");
    reveal_strlit("/zone/play_state/position");
    reveal_strlit("/zone/state");
    reveal_strlit("/zone/play_control");
    reveal_strlit("/zone/recall_preset");
    let text = path.text();
    assert forall|i: int| 0 <= i < text.len() implies !needs_escape(#[trigger] text[i]) by {}
    lemma_plain_text_is_not_escaped(text);
}

/// The payloads whose changes the streamer can be asked to send.
pub trait RequestUpdates {
    /// The path on which the streamer sends the payload.
    spec fn path() -> Seq<char>;

    /// The message that asks the streamer to send every change of the payload.
    fn request_updates_msg() -> (message: String)
        ensures
            message@ == update_request(Self::path()),
    ;
}

// ================================================================================================
// Messages that control the streamer
// ================================================================================================

/// How a message that carries a number or a name is padded: it stands on a line of its
/// own, indented.
pub open spec fn padded(body: Seq<char>) -> Seq<char> {
    "\n            "@ + body + "\n        "@
}

/// A message to `path_and_key` (all that stands before the value) with the value `value`.
pub open spec fn padded_message(path_and_key: Seq<char>, value: Seq<char>) -> Seq<char> {
    padded(path_and_key + value + "}}"@)
}

/// A padded message.
fn padded_msg(path_and_key: &str, value: &str) -> (message: String)
    ensures
        message@ == padded_message(path_and_key@, value@),
{
    let message = String::from_str("\n            ").concat(path_and_key).concat(value).concat(
        "}}",
    ).concat("\n        ");
    assert(message@ =~= padded_message(path_and_key@, value@));
    message
}

/// A message to `path_and_key` with the value `value`, on one line.
pub open spec fn plain_message(path_and_key: Seq<char>, value: Seq<char>) -> Seq<char> {
    path_and_key + value + "}}"@
}

/// A message on one line.
fn plain_msg(path_and_key: &str, value: &str) -> (message: String)
    ensures
        message@ == plain_message(path_and_key@, value@),
{
    String::from_str(path_and_key).concat(value).concat("}}")
}

/// The two states of repeat and of shuffle.
#[derive(Clone, Copy, Debug, PartialEq, Eq, Structural)]
pub enum TransportToggleState {
    All,
    Off,
}

impl TransportToggleState {
    /// The state as the streamer spells it: in lower case.
    pub open spec fn label_text(self) -> Seq<char> {
        match self {
            TransportToggleState::All => "all"@,
            TransportToggleState::Off => "off"@,
        }
    }

    /// The state as the streamer spells it.
    pub fn label(&self) -> (text: &'static str)
        ensures
            text@ == self.label_text(),
    {
        match self {
            TransportToggleState::All => "all",
            TransportToggleState::Off => "off",
        }
    }
}

/// The messages that control playback.
pub struct PlayControl {}

impl PlayControl {
    /// The message that skips to the next track.
    pub fn next_track_msg() -> (message: String)
        ensures
            message@ == "{\"path\": \"/zone/play_control\", \"params\": {\"skip_track\": 1}}"@,
    {
        String::from_str("{\"path\": \"/zone/play_control\", \"params\": {\"skip_track\": 1}}")
    }

    /// The message that pauses playback.
    pub fn pause_msg() -> (message: String)
        ensures
            message@ == "{\"path\": \"/zone/play_control\", \"params\": {\"action\": \"pause\"}}"@,
    {
        String::from_str("{\"path\": \"/zone/play_control\", \"params\": {\"action\": \"pause\"}}")
    }

    /// The message that starts playback.
    pub fn play_msg() -> (message: String)
        ensures
            message@ == "{\"path\": \"/zone/play_control\", \"params\": {\"action\": \"play\"}}"@,
    {
        String::from_str("{\"path\": \"/zone/play_control\", \"params\": {\"action\": \"play\"}}")
    }

    /// The message that plays the entry `queue_id` of the queue.
    pub fn play_queue_id_msg(queue_id: i32) -> (message: String)
        ensures
            message@ == padded_message(
                "{\"path\": \"/zone/play_control\", \"params\": {\"queue_id\": "@,
                decimal_text(queue_id as int),
            ),
    {
        padded_msg(
            "{\"path\": \"/zone/play_control\", \"params\": {\"queue_id\": ",
            decimal_string(queue_id as i128).as_str(),
        )
    }

    /// The message that skips to the track before.
    pub fn previous_track_msg() -> (message: String)
        ensures
            message@ == "{\"path\": \"/zone/play_control\", \"params\": {\"skip_track\": -1}}"@,
    {
        String::from_str("{\"path\": \"/zone/play_control\", \"params\": {\"skip_track\": -1}}")
    }

    /// The message that moves to `position` seconds into the track.
    pub fn seek_msg(position: i32) -> (message: String)
        ensures
            message@ == padded_message(
                "{\"path\": \"/zone/play_control\", \"params\": {\"position\": "@,
                decimal_text(position as int),
            ),
    {
        padded_msg(
            "{\"path\": \"/zone/play_control\", \"params\": {\"position\": ",
            decimal_string(position as i128).as_str(),
        )
    }

    /// The message that sets repeat to `state`.
    pub fn set_repeat_msg(state: TransportToggleState) -> (message: String)
        ensures
            message@ == padded_message(
                "{\"path\": \"/zone/play_control\", \"params\": {\"mode_repeat\": \""@,
                state.label_text() + "\""@,
            ),
    {
        let value = String::from_str(state.label()).concat("\"");
        padded_msg(
            "{\"path\": \"/zone/play_control\", \"params\": {\"mode_repeat\": \"",
            value.as_str(),
        )
    }

    /// The message that sets shuffle to `state`.
    pub fn set_shuffle_msg(state: TransportToggleState) -> (message: String)
        ensures
            message@ == padded_message(
                "{\"path\": \"/zone/play_control\", \"params\": {\"mode_shuffle\": \""@,
                state.label_text() + "\""@,
            ),
    {
        let value = String::from_str(state.label()).concat("\"");
        padded_msg(
            "{\"path\": \"/zone/play_control\", \"params\": {\"mode_shuffle\": \"",
            value.as_str(),
        )
    }

    /// The message that stops playback.
    pub fn stop_msg() -> (message: String)
        ensures
            message@ == "{\"path\": \"/zone/play_control\", \"params\": {\"action\": \"stop\"}}"@,
    {
        String::from_str("{\"path\": \"/zone/play_control\", \"params\": {\"action\": \"stop\"}}")
    }

    /// The message that pauses playback where it runs, and starts it where it does not.
    pub fn toggle_playback_msg() -> (message: String)
        ensures
            message@ == "{\"path\": \"/zone/play_control\", \"params\": {\"action\": \"toggle\"}}"@,
    {
        String::from_str("{\"path\": \"/zone/play_control\", \"params\": {\"action\": \"toggle\"}}")
    }
}

/// The message that recalls a preset.
pub struct RecallPreset {}

impl RecallPreset {
    /// The message that plays the preset `preset_id`.
    pub fn play_preset_id_msg(preset_id: i32) -> (message: String)
        ensures
            message@ == padded_message(
                "{\"path\": \"/zone/recall_preset\", \"params\": {\"preset\": "@,
                decimal_text(preset_id as int),
            ),
    {
        padded_msg(
            "{\"path\": \"/zone/recall_preset\", \"params\": {\"preset\": ",
            decimal_string(preset_id as i128).as_str(),
        )
    }
}

// ================================================================================================
// Payloads of the streamer's updates
// ================================================================================================

/// The states of playback that the streamer reports.
#[derive(Clone, Copy, Debug, PartialEq, Eq, Structural)]
pub enum ZonePlayStateState {
    Buffering,
    Connecting,
    NoSignal,
    NotReady,
    Pause,
    Play,
    Ready,
    Stop,
}

/// What is known of one entry of the queue.
#[derive(Clone, Debug, PartialEq, Eq)]
pub struct QueueListItemMetadata {
    pub class: Option<String>,
    pub source: Option<String>,
    pub name: Option<String>,
    pub title: Option<String>,
    pub art_url: Option<String>,
    pub track_number: Option<i32>,
    pub duration: Option<i32>,
    pub genre: Option<String>,
    pub album: Option<String>,
    pub artist: Option<String>,
}

/// One entry of the queue.
#[derive(Clone, Debug, PartialEq, Eq)]
pub struct QueueListItem {
    pub id: Option<i32>,
    pub position: Option<i32>,
    pub metadata: Option<QueueListItemMetadata>,
}

/// The queue, entry by entry.
#[derive(Clone, Debug, PartialEq, Eq)]
pub struct QueueList {
    pub start: Option<i32>,
    pub count: Option<i32>,
    pub total: Option<i32>,
    pub play_postition: Option<i32>,
    pub play_id: Option<i32>,
    pub items: Option<Vec<QueueListItem>>,
}

/// The queue in short: which entries it holds and which one plays.
#[derive(Clone, Debug, PartialEq, Eq)]
pub struct QueueInfo {
    pub ids: Option<Vec<i64>>,
    pub total: Option<i64>,
    pub id_array_token: Option<i64>,
    pub play_postition: Option<i64>,
    pub play_id: Option<i64>,
}

/// One preset.
#[derive(Clone, Debug, PartialEq, Eq)]
pub struct PresetItem {
    pub id: Option<i32>,
    pub name: Option<String>,
    pub preset_type: Option<String>,
    pub class: Option<String>,
    pub state: Option<String>,
    pub is_playing: Option<bool>,
    pub art_url: Option<String>,
    pub airable_radio_id: Option<i64>,
}

/// The presets of the streamer.
#[derive(Clone, Debug, PartialEq, Eq)]
pub struct Presets {
    pub start: Option<i32>,
    pub end: Option<i32>,
    pub max_presets: Option<i32>,
    pub presettable: Option<bool>,
    pub presets: Option<Vec<PresetItem>>,
}

/// The version of one component of the streamer.
#[derive(Clone, Debug, PartialEq, Eq)]
pub struct SystemInfoVersion {
    pub component: Option<String>,
    pub version: Option<String>,
}

/// What the streamer says of itself.
#[derive(Clone, Debug, PartialEq, Eq)]
pub struct SystemInfo {
    pub name: Option<String>,
    pub timezone: Option<String>,
    pub locale: Option<String>,
    pub usage_reports: Option<bool>,
    pub setup: Option<bool>,
    pub sources_setup: Option<bool>,
    pub versions: Option<Vec<SystemInfoVersion>>,
    pub udn: Option<String>,
    pub hcv: Option<i64>,
    pub model: Option<String>,
    pub unit_id: Option<String>,
    pub max_http_body_size: Option<i64>,
    pub api: Option<String>,
}

/// Whether the streamer is on.
#[derive(Clone, Debug, PartialEq, Eq)]
pub struct SystemPower {
    pub power: String,
}

/// One source that the streamer can play from.
#[derive(Clone, Debug, PartialEq, Eq)]
pub struct Source {
    pub id: String,
    pub name: String,
    pub default_name: String,
    pub class: String,
    pub nameable: bool,
    pub ui_selectable: bool,
    pub description: String,
    pub description_locale: String,
    pub preferred_order: i64,
}

/// The sources that the streamer can play from.
#[derive(Clone, Debug, PartialEq, Eq)]
pub struct SystemSources {
    pub sources: Vec<Source>,
}

/// Where in the queue the streamer plays.
#[derive(Clone, Debug, PartialEq, Eq)]
pub struct ZoneNowPlayingQueue {
    pub length: Option<i32>,
    pub position: Option<i32>,
    pub shuffle: Option<String>,
    pub repeat: Option<String>,
}

/// How far the streamer is in what it plays.
#[derive(Clone, Debug, PartialEq, Eq)]
pub struct ZoneNowPlayingProgress {
    pub position: Option<i32>,
    pub duration: Option<i32>,
}

/// What the streamer shows of what it plays.
#[derive(Clone, Debug, PartialEq, Eq)]
pub struct ZoneNowPlayingDisplay {
    pub line1: Option<String>,
    pub line2: Option<String>,
    pub line3: Option<String>,
    pub format: Option<String>,
    pub mqa: Option<String>,
    pub playback_source: Option<String>,
    pub class: Option<String>,
    pub art_url: Option<String>,
    pub art_file: Option<String>,
    pub progress: Option<ZoneNowPlayingProgress>,
    pub context: Option<String>,
}

/// The source that the streamer plays from.
#[derive(Clone, Debug, PartialEq, Eq)]
pub struct ZoneNowPlayingSource {
    pub id: Option<String>,
    pub name: Option<String>,
}

/// What the streamer plays.
#[derive(Clone, Debug, PartialEq, Eq)]
pub struct ZoneNowPlaying {
    pub state: Option<String>,
    pub source: Option<ZoneNowPlayingSource>,
    pub display: Option<ZoneNowPlayingDisplay>,
    pub queue: Option<ZoneNowPlayingQueue>,
    pub controls: Option<Vec<String>>,
}

/// What is known of the track that plays.
#[derive(Clone, Debug, PartialEq, Eq)]
pub struct ZonePlayStateMetadata {
    pub class: Option<String>,
    pub source: Option<String>,
    pub name: Option<String>,
    pub playback_source: Option<String>,
    pub track_number: Option<i32>,
    pub duration: Option<i32>,
    pub album: Option<String>,
    pub artist: Option<String>,
    pub title: Option<String>,
    pub art_url: Option<String>,
    pub sample_format: Option<String>,
    pub mqa: Option<String>,
    pub codec: Option<String>,
    pub lossless: Option<bool>,
    pub sample_rate: Option<i32>,
    pub bit_depth: Option<i32>,
    pub encoding: Option<String>,
    pub station: Option<String>,
    pub bitrate: Option<i64>,
    pub radio_id: Option<i64>,
}

/// How the streamer plays.
#[derive(Clone, Debug, PartialEq, Eq)]
pub struct ZonePlayState {
    pub state: Option<ZonePlayStateState>,
    pub position: Option<i32>,
    pub presettable: Option<bool>,
    pub queue_index: Option<i32>,
    pub queue_length: Option<i32>,
    pub queue_id: Option<i32>,
    pub mode_repeat: Option<String>,
    pub mode_shuffle: Option<String>,
    pub metadata: Option<ZonePlayStateMetadata>,
}

/// How far the streamer is in the track, in seconds.
#[derive(Clone, Debug, PartialEq, Eq)]
pub struct ZonePosition {
    pub position: i32,
}

/// The state of the streamer's zone.
#[derive(Clone, Debug, PartialEq, Eq)]
pub struct ZoneState {
    pub source: Option<String>,
    pub power: Option<bool>,
    pub pre_amp_mode: Option<bool>,
    pub pre_amp_state: Option<String>,
    pub mute: Option<bool>,
    pub volume_step: Option<u8>,
    pub volume_percent: Option<u8>,
    pub volume_db: Option<i64>,
    pub cbus: Option<String>,
}

/// `QueueList` as the streamer sends it, without a zone.
#[derive(Clone, Debug, PartialEq, Eq)]
pub struct StreamerQueueList(pub WithoutZone<QueueList>);

/// `QueueInfo` as the streamer sends it, without a zone.
#[derive(Clone, Debug, PartialEq, Eq)]
pub struct StreamerQueueInfo(pub WithoutZone<QueueInfo>);

/// `Presets` as the streamer sends it, without a zone.
#[derive(Clone, Debug, PartialEq, Eq)]
pub struct StreamerPresets(pub WithoutZone<Presets>);

/// `SystemInfo` as the streamer sends it, without a zone.
#[derive(Clone, Debug, PartialEq, Eq)]
pub struct StreamerSystemInfo(pub WithoutZone<SystemInfo>);

/// `SystemPower` as the streamer sends it, without a zone.
#[derive(Clone, Debug, PartialEq, Eq)]
pub struct StreamerSystemPower(pub WithoutZone<SystemPower>);

/// `SystemSources` as the streamer sends it, without a zone.
#[derive(Clone, Debug, PartialEq, Eq)]
pub struct StreamerSystemSources(pub WithoutZone<SystemSources>);

/// `ZoneNowPlaying` as the streamer sends it, with its zone.
#[derive(Clone, Debug, PartialEq, Eq)]
pub struct StreamerZoneNowPlaying(pub WithZone<ZoneNowPlaying>);

/// `ZonePlayState` as the streamer sends it, with its zone.
#[derive(Clone, Debug, PartialEq, Eq)]
pub struct StreamerZonePlayState(pub WithZone<ZonePlayState>);

/// `ZonePosition` as the streamer sends it, with its zone.
#[derive(Clone, Debug, PartialEq, Eq)]
pub struct StreamerZonePosition(pub WithZone<ZonePosition>);

/// `ZoneState` as the streamer sends it, with its zone.
#[derive(Clone, Debug, PartialEq, Eq)]
pub struct StreamerZoneState(pub WithZone<ZoneState>);

impl QueueList {
    /// The message that asks the streamer for the whole queue.
    pub fn request_state_msg() -> (message: String)
        ensures
            message@ == "{\"path\": \"/queue/list\"}"@,
    {
        String::from_str("{\"path\": \"/queue/list\"}")
    }
}

impl SystemPower {
    /// The message that switches the streamer on.
    pub fn on_msg() -> (message: String)
        ensures
            message@ == "{\"path\": \"/system/power\", \"params\": {\"power\": \"ON\"}}"@,
    {
        String::from_str("{\"path\": \"/system/power\", \"params\": {\"power\": \"ON\"}}")
    }

    /// The message that sends the streamer to network standby.
    pub fn standby_msg() -> (message: String)
        ensures
            message@ == "{\"path\": \"/system/power\", \"params\": {\"power\": \"NETWORK\"}}"@,
    {
        String::from_str("{\"path\": \"/system/power\", \"params\": {\"power\": \"NETWORK\"}}")
    }

    /// The message that switches the streamer on where it is off, and off where it is on.
    pub fn toggle_msg() -> (message: String)
        ensures
            message@ == "{\"path\": \"/system/power\", \"params\": {\"power\": \"toggle\"}}"@,
    {
        String::from_str("{\"path\": \"/system/power\", \"params\": {\"power\": \"toggle\"}}")
    }
}

/// `true` or `false`, as JSON spells them.
pub open spec fn bool_text(value: bool) -> Seq<char> {
    if value {
        "true"@
    } else {
        "false"@
    }
}

impl ZoneState {
    /// The message that mutes the zone, or ends its muting.
    pub fn set_mute_msg(is_muted: bool) -> (message: String)
        ensures
            message@ == plain_message(
                "{\"path\": \"/zone/state\", \"params\": {\"mute\": "@,
                bool_text(is_muted),
            ),
    {
        plain_msg(
            "{\"path\": \"/zone/state\", \"params\": {\"mute\": ",
            if is_muted {
                "true"
            } else {
                "false"
            },
        )
    }

    /// The message that makes the zone play from the source `source_id`, which is written
    /// as a JSON string: whatever the identifier holds, the message is one JSON object.
    pub fn set_source_id_msg(source_id: String) -> (message: String)
        ensures
            message@ == plain_message(
                "{\"path\": \"/zone/state\", \"params\": {\"source\": \""@,
                json_escape(source_id@) + "\""@,
            ),
    {
        let value = json_escaped(source_id.as_str()).concat("\"");
        plain_msg("{\"path\": \"/zone/state\", \"params\": {\"source\": \"", value.as_str())
    }

    /// The message that sets the volume to `percent` of its range.
    pub fn set_volume_percent_msg(percent: u8) -> (message: String)
        ensures
            message@ == plain_message(
                "{\"path\": \"/zone/state\", \"params\": {\"volume_percent\": "@,
                decimal_text(percent as int),
            ),
    {
        plain_msg(
            "{\"path\": \"/zone/state\", \"params\": {\"volume_percent\": ",
            decimal_string(percent as i128).as_str(),
        )
    }

    /// The message that changes the volume by `degree` steps.
    pub fn change_volume_step_msg(degree: i8) -> (message: String)
        ensures
            message@ == plain_message(
                "{\"path\": \"/zone/state\", \"params\": {\"volume_step_change\": "@,
                decimal_text(degree as int),
            ),
    {
        plain_msg(
            "{\"path\": \"/zone/state\", \"params\": {\"volume_step_change\": ",
            decimal_string(degree as i128).as_str(),
        )
    }

    /// The message that sets the volume to the step `step`.
    pub fn set_volume_step_msg(step: u8) -> (message: String)
        ensures
            message@ == plain_message(
                "{\"path\": \"/zone/state\", \"params\": {\"volume_step\": "@,
                decimal_text(step as int),
            ),
    {
        plain_msg(
            "{\"path\": \"/zone/state\", \"params\": {\"volume_step\": ",
            decimal_string(step as i128).as_str(),
        )
    }
}

impl RequestUpdates for QueueInfo {
    open spec fn path() -> Seq<char> {
        QUEUE_INFO_PATH@
    }

    fn request_updates_msg() -> (message: String) {
        update_request_msg(QUEUE_INFO_PATH)
    }
}

impl RequestUpdates for Presets {
    open spec fn path() -> Seq<char> {
        PRESETS_LIST_PATH@
    }

    fn request_updates_msg() -> (message: String) {
        update_request_msg(PRESETS_LIST_PATH)
    }
}

impl RequestUpdates for SystemInfo {
    open spec fn path() -> Seq<char> {
        SYSTEM_INFO_PATH@
    }

    fn request_updates_msg() -> (message: String) {
        update_request_msg(SYSTEM_INFO_PATH)
    }
}

impl RequestUpdates for SystemPower {
    open spec fn path() -> Seq<char> {
        SYSTEM_POWER_PATH@
    }

    fn request_updates_msg() -> (message: String) {
        update_request_msg(SYSTEM_POWER_PATH)
    }
}

impl RequestUpdates for SystemSources {
    open spec fn path() -> Seq<char> {
        SYSTEM_SOURCES_PATH@
    }

    fn request_updates_msg() -> (message: String) {
        update_request_msg(SYSTEM_SOURCES_PATH)
    }
}

impl RequestUpdates for ZoneNowPlaying {
    open spec fn path() -> Seq<char> {
        ZONE_NOW_PLAYING_PATH@
    }

    fn request_updates_msg() -> (message: String) {
        update_request_msg(ZONE_NOW_PLAYING_PATH)
    }
}

impl RequestUpdates for ZonePlayState {
    open spec fn path() -> Seq<char> {
        ZONE_PLAY_STATE_PATH@
    }

    fn request_updates_msg() -> (message: String) {
        update_request_msg(ZONE_PLAY_STATE_PATH)
    }
}

impl RequestUpdates for ZonePosition {
    open spec fn path() -> Seq<char> {
        ZONE_POSITION_PATH@
    }

    fn request_updates_msg() -> (message: String) {
        update_request_msg(ZONE_POSITION_PATH)
    }
}

impl RequestUpdates for ZoneState {
    open spec fn path() -> Seq<char> {
        ZONE_STATE_PATH@
    }

    fn request_updates_msg() -> (message: String) {
        update_request_msg(ZONE_STATE_PATH)
    }
}

// ================================================================================================
// The payloads that are kept
// ================================================================================================

/// The payload of one update, whatever its kind.
#[derive(Clone, Debug, PartialEq, Eq)]
pub enum StreamerPayload {
    QueueInfo(StreamerQueueInfo),
    QueueList(StreamerQueueList),
    Presets(StreamerPresets),
    SystemInfo(StreamerSystemInfo),
    SystemPower(StreamerSystemPower),
    SystemSources(StreamerSystemSources),
    ZoneNowPlaying(StreamerZoneNowPlaying),
    ZonePlayState(StreamerZonePlayState),
    ZonePosition(StreamerZonePosition),
    ZoneState(StreamerZoneState),
}

impl StreamerPayload {
    /// The path on which the streamer sends payloads of this kind.
    pub open spec fn path(self) -> StreamerPath {
        match self {
            StreamerPayload::QueueInfo(_) => StreamerPath::QueueInfo,
            StreamerPayload::QueueList(_) => StreamerPath::QueueList,
            StreamerPayload::Presets(_) => StreamerPath::PresetsList,
            StreamerPayload::SystemInfo(_) => StreamerPath::SystemInfo,
            StreamerPayload::SystemPower(_) => StreamerPath::SystemPower,
            StreamerPayload::SystemSources(_) => StreamerPath::SystemSources,
            StreamerPayload::ZoneNowPlaying(_) => StreamerPath::ZoneNowPlaying,
            StreamerPayload::ZonePlayState(_) => StreamerPath::ZonePlayState,
            StreamerPayload::ZonePosition(_) => StreamerPath::ZonePosition,
            StreamerPayload::ZoneState(_) => StreamerPath::ZoneState,
        }
    }

    /// The path on which the streamer sends payloads of this kind.
    pub fn kind(&self) -> (path: StreamerPath)
        ensures
            path == self.path(),
    {
        match self {
            StreamerPayload::QueueInfo(_) => StreamerPath::QueueInfo,
            StreamerPayload::QueueList(_) => StreamerPath::QueueList,
            StreamerPayload::Presets(_) => StreamerPath::PresetsList,
            StreamerPayload::SystemInfo(_) => StreamerPath::SystemInfo,
            StreamerPayload::SystemPower(_) => StreamerPath::SystemPower,
            StreamerPayload::SystemSources(_) => StreamerPath::SystemSources,
            StreamerPayload::ZoneNowPlaying(_) => StreamerPath::ZoneNowPlaying,
            StreamerPayload::ZonePlayState(_) => StreamerPath::ZonePlayState,
            StreamerPayload::ZonePosition(_) => StreamerPath::ZonePosition,
            StreamerPayload::ZoneState(_) => StreamerPath::ZoneState,
        }
    }
}

/// The last payload of every kind that the streamer has sent.
#[derive(Clone, Debug, PartialEq, Eq)]
pub struct StreamerPayloadCache {
    pub presets: Option<StreamerPresets>,
    pub queue_info: Option<StreamerQueueInfo>,
    pub queue_list: Option<StreamerQueueList>,
    pub system_info: Option<StreamerSystemInfo>,
    pub system_power: Option<StreamerSystemPower>,
    pub system_sources: Option<StreamerSystemSources>,
    pub zone_now_playing: Option<StreamerZoneNowPlaying>,
    pub zone_play_state: Option<StreamerZonePlayState>,
    pub zone_position: Option<StreamerZonePosition>,
    pub zone_state: Option<StreamerZoneState>,
}

impl StreamerPayloadCache {
    /// The cache in which no payload has been kept.
    pub open spec fn empty_cache() -> StreamerPayloadCache {
        StreamerPayloadCache {
            presets: None,
            queue_info: None,
            queue_list: None,
            system_info: None,
            system_power: None,
            system_sources: None,
            zone_now_playing: None,
            zone_play_state: None,
            zone_position: None,
            zone_state: None,
        }
    }

    /// The cache with `payload` in the slot of its kind and every other slot as it was.
    pub open spec fn with(self, payload: StreamerPayload) -> StreamerPayloadCache {
        match payload {
            StreamerPayload::QueueInfo(p) => StreamerPayloadCache { queue_info: Some(p), ..self },
            StreamerPayload::QueueList(p) => StreamerPayloadCache { queue_list: Some(p), ..self },
            StreamerPayload::Presets(p) => StreamerPayloadCache { presets: Some(p), ..self },
            StreamerPayload::SystemInfo(p) => StreamerPayloadCache { system_info: Some(p), ..self },
            StreamerPayload::SystemPower(p) => StreamerPayloadCache {
                system_power: Some(p),
                ..self
            },
            StreamerPayload::SystemSources(p) => StreamerPayloadCache {
                system_sources: Some(p),
                ..self
            },
            StreamerPayload::ZoneNowPlaying(p) => StreamerPayloadCache {
                zone_now_playing: Some(p),
                ..self
            },
            StreamerPayload::ZonePlayState(p) => StreamerPayloadCache {
                zone_play_state: Some(p),
                ..self
            },
            StreamerPayload::ZonePosition(p) => StreamerPayloadCache {
                zone_position: Some(p),
                ..self
            },
            StreamerPayload::ZoneState(p) => StreamerPayloadCache { zone_state: Some(p), ..self },
        }
    }

    /// A cache in which no payload has been kept.
    pub fn new() -> (cache: StreamerPayloadCache)
        ensures
            cache == StreamerPayloadCache::empty_cache(),
    {
        StreamerPayloadCache {
            presets: None,
            queue_info: None,
            queue_list: None,
            system_info: None,
            system_power: None,
            system_sources: None,
            zone_now_playing: None,
            zone_play_state: None,
            zone_position: None,
            zone_state: None,
        }
    }

    /// Keeps `payload` in the slot of its kind, in place of what the slot held.
    pub fn store(&mut self, payload: StreamerPayload)
        ensures
            *final(self) == old(self).with(payload),
    {
        match payload {
            StreamerPayload::QueueInfo(p) => {
                self.queue_info = Some(p);
            },
            StreamerPayload::QueueList(p) => {
                self.queue_list = Some(p);
            },
            StreamerPayload::Presets(p) => {
                self.presets = Some(p);
            },
            StreamerPayload::SystemInfo(p) => {
                self.system_info = Some(p);
            },
            StreamerPayload::SystemPower(p) => {
                self.system_power = Some(p);
            },
            StreamerPayload::SystemSources(p) => {
                self.system_sources = Some(p);
            },
            StreamerPayload::ZoneNowPlaying(p) => {
                self.zone_now_playing = Some(p);
            },
            StreamerPayload::ZonePlayState(p) => {
                self.zone_play_state = Some(p);
            },
            StreamerPayload::ZonePosition(p) => {
                self.zone_position = Some(p);
            },
            StreamerPayload::ZoneState(p) => {
                self.zone_state = Some(p);
            },
        }
    }
}

} // verus!
