use punytunes::amplifier_manager::discovery::{
    AmplifierDevice, AmplifierDiscovery, DiscoveryEffect as AmplifierDiscoveryEffect,
};
use punytunes::amplifier_manager::AmplifierManagerAction;
use punytunes::average::RunningAverage;
use punytunes::clock::exceeded;
use punytunes::discovery::{label, DeviceDescription, Scan, Sighting};
use punytunes::errors::PunyTunesError;
use punytunes::messaging::{AppLog, AppMessageType, SerializableLevel};
use punytunes::streammagic_manager::discovery::{
    duplicate_devices, DiscoveryEffect, StreamMagicDevice, StreamerDiscovery,
};
use punytunes::streammagic_manager::StreamMagicManagerAction;
use punytunes::text::{chars_of, contains, joined, str_eq};
use punytunes::utils::host_from_url;

// Text

#[test]
fn texts_are_compared_character_by_character() {
    assert!(str_eq("", ""));
    assert!(str_eq("Hegel", "Hegel"));
    assert!(!str_eq("Hegel", "hegel"));
    assert!(!str_eq("Hegel", "Hegel "));
    assert!(str_eq("Größe", "Größe"));
}

#[test]
fn the_characters_of_a_text_are_not_its_bytes() {
    assert_eq!(chars_of("aß€"), vec!['a', 'ß', '€']);
    assert_eq!(chars_of(""), Vec::<char>::new());
    assert_eq!(joined("ab", "cd"), "abcd");
}

#[test]
fn a_pattern_is_found_wherever_it_stands() {
    assert!(contains("missing field `data` at line 1", "missing field `data`"));
    assert!(contains("Error(\"missing field `data`\")", "missing field `data`"));
    assert!(contains("x missing field `data`", "missing field `data`"));
    assert!(contains("missing field `data`", "missing field `data`"));
    assert!(!contains("missing field `date`", "missing field `data`"));
    assert!(!contains("missing field `dat", "missing field `data`"));
    assert!(!contains("", "a"));
    assert!(contains("abc", ""));
    assert!(contains("", ""));
    assert!(contains("aab", "ab"));
    assert!(contains("größer", "öß"));
    assert!(!contains("grösser", "öß"));
}

// Messages and log entries

#[test]
fn messages_are_published_under_the_names_of_their_kinds() {
    assert_eq!(AppMessageType::AmplifierManagerState.name(), "AmplifierManagerState");
    assert_eq!(AppMessageType::AppLog.name(), "AppLog");
    assert_eq!(AppMessageType::StreamerZonePlayStatePosition.name(), "StreamerZonePlayStatePosition");
    assert_eq!(AppMessageType::StreamMagicManagerState.name(), "StreamMagicManagerState");
    assert_eq!(AppMessageType::WebSocketClientStatus.name(), "WebSocketClientStatus");
    let all = [
        AppMessageType::AmplifierManagerState,
        AppMessageType::AmplifierState,
        AppMessageType::AppLog,
        AppMessageType::Devices,
        AppMessageType::IsActivating,
        AppMessageType::IsDiscovering,
        AppMessageType::IsInitializingStreamMagicManager,
        AppMessageType::StreamerSystemInfo,
        AppMessageType::StreamerSystemPower,
        AppMessageType::StreamerSystemSources,
        AppMessageType::StreamerPresets,
        AppMessageType::StreamerQueueList,
        AppMessageType::StreamerZoneNowPlaying,
        AppMessageType::StreamerZonePlayState,
        AppMessageType::StreamerZonePlayStatePosition,
        AppMessageType::StreamerZonePosition,
        AppMessageType::StreamerZoneState,
        AppMessageType::StreamMagicManagerState,
        AppMessageType::StreamMagicManagerStatus,
        AppMessageType::WebSocketClientStatus,
    ];
    for kind in all {
        assert_eq!(kind.name(), format!("{kind:?}"));
    }
}

#[test]
fn levels_are_spelled_in_lower_case_and_read_back() {
    let levels = [
        (SerializableLevel::Error, "error"),
        (SerializableLevel::Warn, "warn"),
        (SerializableLevel::Info, "info"),
        (SerializableLevel::Debug, "debug"),
        (SerializableLevel::Trace, "trace"),
    ];
    for (level, text) in levels {
        assert_eq!(level.label(), text);
        assert_eq!(SerializableLevel::from_label(text), level);
    }
    assert_eq!(SerializableLevel::from_label("Error"), SerializableLevel::Info);
    assert_eq!(SerializableLevel::from_label("verbose"), SerializableLevel::Info);
    assert_eq!(SerializableLevel::from_label(""), SerializableLevel::Info);
}

#[test]
fn a_log_entry_keeps_its_level_its_message_and_its_time() {
    let entry = AppLog::at(SerializableLevel::Warn, "careful", 1_700_000_000_123);
    assert_eq!(entry.level, SerializableLevel::Warn);
    assert_eq!(entry.message, "careful");
    assert_eq!(entry.when, 1_700_000_000_123);
    assert_eq!(entry.duplicate(), entry);

    let now = AppLog::new(SerializableLevel::Debug, "now");
    assert_eq!(now.level, SerializableLevel::Debug);
    assert_eq!(now.message, "now");
    // The clock of any machine that runs this stands after the year 2020.
    assert!(now.when > 1_577_836_800_000);
}

#[test]
fn every_failure_is_put_into_words() {
    assert_eq!(
        PunyTunesError::UnknownDevice(String::from("uuid:x")).message(),
        "The device with UDN 'uuid:x' is not in the list of discovered devices"
    );
    assert_eq!(PunyTunesError::Store(String::from("disk full")).message(), "disk full");
    assert_eq!(PunyTunesError::UPnP(String::from("no network")).message(), "no network");
    assert_eq!(PunyTunesError::Io(String::from("refused")).message(), "refused");
    assert_eq!(PunyTunesError::WebSocket(String::from("bad frame")).message(), "bad frame");
    assert_eq!(
        PunyTunesError::WebSocketConnectionClosed.message(),
        "WebSocket connection closed by server"
    );
    assert_eq!(PunyTunesError::WebSocketTimeout.message(), "WebSocket timeout");
    assert_eq!(
        PunyTunesError::WebSocketClientLostConnection.message(),
        "WebSocket client has lost its connection to the server"
    );
    assert_eq!(PunyTunesError::Amplifier(String::from("no host")).message(), "no host");
}

// URLs

#[test]
fn the_host_of_a_url_is_found_whatever_its_scheme() {
    let host = |url: &str| host_from_url(url);
    assert_eq!(host("http://192.168.1.10:49152/description.xml"), Some(String::from("192.168.1.10")));
    assert_eq!(host("ws://192.168.1.10:80/smoip"), Some(String::from("192.168.1.10")));
    assert_eq!(host("https://user@Streamer.Local/x?y=1#z"), Some(String::from("streamer.local")));
    assert_eq!(host("http://[fe80::1]:80/"), Some(String::from("[fe80::1]")));
}

#[test]
fn a_text_that_names_no_host_has_none() {
    assert_eq!(host_from_url(""), None);
    assert_eq!(host_from_url("192.168.1.10"), None);
    assert_eq!(host_from_url("description.xml"), None);
    assert_eq!(host_from_url("mailto:someone@example.com"), None);
    assert_eq!(host_from_url("data:text/plain,Stuff"), None);
    assert_eq!(host_from_url("http://"), None);
}

// Time and averages

#[test]
fn a_limit_is_exceeded_only_by_more_than_itself() {
    assert!(!exceeded(1_500, 0, 1_500));
    assert!(exceeded(1_501, 0, 1_500));
    assert!(!exceeded(10, 20, 0));
    assert!(exceeded(u64::MAX, 0, u64::MAX - 1));
    assert!(!exceeded(u64::MAX, 0, u64::MAX));
}

#[test]
fn a_window_keeps_its_newest_values() {
    let mut window = RunningAverage::new(3);
    assert_eq!((window.len(), window.sum()), (0, 0));
    for (value, sum) in [(10, 10), (20, 30), (30, 60), (40, 90), (50, 120)] {
        window.add(value);
        assert_eq!(window.sum(), sum);
    }
    assert_eq!(window.len(), 3);
}

#[test]
fn a_window_without_room_stays_empty() {
    let mut window = RunningAverage::new(0);
    window.add(7);
    assert_eq!((window.len(), window.sum()), (0, 0));
    assert!(!window.is_outrun_by(0));
    assert!(window.is_outrun_by(1) == false);
}

#[test]
fn a_gap_outruns_an_average_by_more_than_a_quarter() {
    let mut window = RunningAverage::new(10);
    for value in [10, 10, 10, 10] {
        window.add(value);
    }
    assert!(!window.is_outrun_by(12));
    assert!(window.is_outrun_by(13));
    let mut window = RunningAverage::new(10);
    for value in [4, 4] {
        window.add(value);
    }
    assert!(!window.is_outrun_by(5));
    assert!(window.is_outrun_by(6));
    let mut window = RunningAverage::new(2);
    window.add(u64::MAX);
    window.add(u64::MAX);
    assert_eq!(window.sum(), 2 * (u64::MAX as u128));
    assert!(!window.is_outrun_by(u64::MAX));
}

// Discovery

fn description(name: &str, manufacturer: &str, udn: &str) -> DeviceDescription {
    DeviceDescription {
        friendly_name: String::from(name),
        manufacturer: String::from(manufacturer),
        model_name: String::from("M1"),
        model_number: Some(String::from("7")),
        serial_number: None,
        url: format!("http://192.168.1.30/{udn}.xml"),
        udn: String::from(udn),
    }
}

#[test]
fn a_device_is_named_by_its_name_its_model_and_its_udn() {
    assert_eq!(label("Study", "CXN", "uuid:1"), "'Study' (CXN) [uuid:1]");
    let device = StreamMagicDevice::from_description(description("Study", "Cambridge Audio", "uuid:1"));
    assert_eq!(device.label(), "'Study' (M1) [uuid:1]");
    assert_eq!(device.model_number, Some(String::from("7")));
    assert_eq!(device.url, "http://192.168.1.30/uuid:1.xml");
    assert!(!device.is_active && !device.is_activating);
    assert_eq!(device.duplicate(), device);
    assert_eq!(duplicate_devices(&vec![device.clone(), device.clone()]), vec![device.clone(), device]);

    let amplifier = AmplifierDevice::from_description(description("Living room", "Hegel", "uuid:2"));
    assert_eq!(amplifier.label(), "'Living room' (M1) [uuid:2]");
    assert_eq!(amplifier.manufacturer, "Hegel");
    assert_eq!(amplifier.duplicate(), amplifier);
}

#[test]
fn a_scan_looks_at_every_udn_once() {
    let mut scan = Scan::new();
    assert!(!scan.has_seen("uuid:1"));
    assert_eq!(scan.observe("uuid:1", "Hegel", "Hegel"), Sighting::Wanted);
    assert_eq!(scan.observe("uuid:1", "Hegel", "Hegel"), Sighting::Seen);
    assert_eq!(scan.observe("uuid:2", "Acme", "Hegel"), Sighting::Foreign);
    assert_eq!(scan.observe("uuid:2", "Hegel", "Hegel"), Sighting::Seen);
    assert_eq!(scan.observe("uuid:3", "hegel", "Hegel"), Sighting::Foreign);
    assert_eq!(scan.observe("uuid:4", "Hegel", "Hegel"), Sighting::Wanted);
    assert!(scan.has_seen("uuid:2") && !scan.has_seen("uuid:5"));
    for udn in ["uuid:1", "uuid:2", "uuid:3", "uuid:4"] {
        assert!(scan.has_seen(udn));
    }
    assert_eq!(scan.seen_count(), 4);
    assert_eq!(scan.found_count, 2);
}

#[test]
fn a_count_stops_at_the_largest_number() {
    let mut scan = Scan::new();
    scan.found_count = usize::MAX;
    assert_eq!(scan.observe("uuid:1", "Hegel", "Hegel"), Sighting::Wanted);
    assert_eq!(scan.found_count, usize::MAX);
}

#[test]
fn a_discovery_hands_every_streamer_to_the_manager_once() {
    let mut discovery = StreamerDiscovery::new(true);
    assert_eq!(
        discovery.begin(),
        vec![DiscoveryEffect::Log(
            SerializableLevel::Info,
            String::from("Performing streamer UPnP discovery (MediaRenderer only)")
        )]
    );
    let study = description("Study", "Cambridge Audio", "uuid:1");
    let effects = discovery.on_device(study.clone());
    assert_eq!(
        effects,
        vec![
            DiscoveryEffect::Log(
                SerializableLevel::Info,
                String::from(
                    "StreamMagic device discovered: 'Study' (M1) [uuid:1] @ http://192.168.1.30/uuid:1.xml"
                )
            ),
            DiscoveryEffect::Tell(StreamMagicManagerAction::ProcessDiscoveredDevice(
                StreamMagicDevice::from_description(study.clone())
            )),
            DiscoveryEffect::Tell(StreamMagicManagerAction::ActivateUdn(String::from("uuid:1"))),
        ]
    );
    assert_eq!(discovery.on_device(study), vec![]);
    let effects = discovery.on_device(description("Amp", "Hegel", "uuid:2"));
    assert_eq!(
        effects,
        vec![DiscoveryEffect::Log(
            SerializableLevel::Info,
            String::from(
                "Streamer UPnP discovery is ignoring MediaRenderer device 'Amp' (M1) from Hegel"
            )
        )]
    );
    assert_eq!(
        discovery.finish(),
        vec![
            DiscoveryEffect::Log(
                SerializableLevel::Info,
                String::from("Streamer UPnP discovery found 1 streamer")
            ),
            DiscoveryEffect::Tell(StreamMagicManagerAction::SetIsDiscovering(false)),
        ]
    );
}

#[test]
fn a_discovery_that_is_not_to_activate_does_not() {
    let mut discovery = StreamerDiscovery::new(false);
    let effects = discovery.on_device(description("Study", "Cambridge Audio", "uuid:1"));
    assert_eq!(effects.len(), 2);
    discovery.on_device(description("Kitchen", "Cambridge Audio", "uuid:2"));
    assert_eq!(
        discovery.finish()[0],
        DiscoveryEffect::Log(
            SerializableLevel::Info,
            String::from("Streamer UPnP discovery found 2 streamers")
        )
    );
    assert_eq!(
        StreamerDiscovery::new(false).finish()[0],
        DiscoveryEffect::Log(
            SerializableLevel::Info,
            String::from("Streamer UPnP discovery found 0 streamer")
        )
    );
}

#[test]
fn a_discovery_that_fails_tells_the_manager_that_it_is_over() {
    let discovery = StreamerDiscovery::new(false);
    assert_eq!(
        discovery.on_search_failed("no route"),
        vec![DiscoveryEffect::Log(
            SerializableLevel::Error,
            String::from("Streamer UPnP discovery error: no route")
        )]
    );
    assert_eq!(
        discovery.abort("bad answer"),
        vec![
            DiscoveryEffect::Log(
                SerializableLevel::Error,
                String::from("Streamer discovery failed with error: bad answer")
            ),
            DiscoveryEffect::Tell(StreamMagicManagerAction::SetIsDiscovering(false)),
        ]
    );
}

#[test]
fn a_discovery_hands_every_hegel_amplifier_to_the_manager_once() {
    let mut discovery = AmplifierDiscovery::new();
    assert_eq!(
        discovery.begin(),
        vec![AmplifierDiscoveryEffect::Log(
            SerializableLevel::Info,
            String::from("Performing amplifier UPnP discovery (MediaRenderer only)")
        )]
    );
    let amp = description("Living room", "Hegel", "uuid:2");
    let effects = discovery.on_device(amp.clone());
    assert_eq!(
        effects,
        vec![
            AmplifierDiscoveryEffect::Log(
                SerializableLevel::Info,
                String::from(
                    "Amplifier device discovered: 'Living room' (M1) [uuid:2] @ http://192.168.1.30/uuid:2.xml"
                )
            ),
            AmplifierDiscoveryEffect::Tell(AmplifierManagerAction::ProcessDiscoveredDevice(
                AmplifierDevice::from_description(amp.clone())
            )),
        ]
    );
    assert_eq!(discovery.on_device(amp), vec![]);
    let effects = discovery.on_device(description("Study", "Cambridge Audio", "uuid:1"));
    assert_eq!(
        effects,
        vec![AmplifierDiscoveryEffect::Log(
            SerializableLevel::Info,
            String::from(
                "Amplifier UPnP discovery is ignoring MediaRenderer device 'Study' (M1) from Cambridge Audio"
            )
        )]
    );
    assert_eq!(
        discovery.finish(),
        vec![
            AmplifierDiscoveryEffect::Log(
                SerializableLevel::Info,
                String::from("Amplifier UPnP discovery found 1 amplifier")
            ),
            AmplifierDiscoveryEffect::Tell(AmplifierManagerAction::SetIsDiscovering(false)),
        ]
    );
    assert_eq!(
        discovery.on_search_failed("x"),
        vec![AmplifierDiscoveryEffect::Log(
            SerializableLevel::Error,
            String::from("Amplifier UPnP discovery error: x")
        )]
    );
    assert_eq!(discovery.abort("y").len(), 2);
}

#[test]
fn numbers_are_read_and_written_in_base_ten() {
    assert_eq!(punytunes::text::decimal_string(0), "0");
    assert_eq!(punytunes::text::decimal_string(7), "7");
    assert_eq!(punytunes::text::decimal_string(10), "10");
    assert_eq!(punytunes::text::decimal_string(15_000), "15000");
    assert_eq!(punytunes::text::decimal_string(-1), "-1");
    assert_eq!(punytunes::text::decimal_string(-120), "-120");
    assert_eq!(punytunes::text::decimal_string(i128::MAX), i128::MAX.to_string());
    assert_eq!(punytunes::text::decimal_string(i128::MIN), i128::MIN.to_string());
    for n in 0..=255u8 {
        assert_eq!(punytunes::text::decimal_string(n as i128), n.to_string());
        assert_eq!(punytunes::text::parse_u8(&n.to_string()), Some(n));
    }
    for text in ["", "+", "-", "-1", "256", "999", "1000000000000000000000", "1a", "a1", " 1", "1 ", "٣", "++1", "+-1", "1.0"] {
        assert_eq!(punytunes::text::parse_u8(text), text.parse::<u8>().ok(), "{text:?}");
        assert_eq!(punytunes::text::parse_u8(text), None, "{text:?}");
    }
    for text in ["0", "+0", "007", "+25", "255", "0255", "00000000000000000000000000001"] {
        assert_eq!(punytunes::text::parse_u8(text), text.parse::<u8>().ok(), "{text:?}");
        assert!(punytunes::text::parse_u8(text).is_some(), "{text:?}");
    }
}

#[test]
fn a_clock_before_1970_counts_as_zero() {
    assert_eq!(punytunes::messaging::entry_time(None), 0);
    assert_eq!(punytunes::messaging::entry_time(Some(0)), 0);
    assert_eq!(punytunes::messaging::entry_time(Some(1_700_000_000_123)), 1_700_000_000_123);
    assert_eq!(punytunes::messaging::entry_time(Some(u128::MAX)), u128::MAX);
}
