use punytunes::amplifier_manager::connection::HegelConnection;
use punytunes::amplifier_manager::hegel::{
    frame_for_action, get_line, ByteCursor, Frame, FrameError, HegelCommand,
};
use punytunes::amplifier_manager::AmplifierAction;

// Invalid Frames into Commands

#[test]
fn test_command_from_invalid_frames() {
    let invalid_frame_data = [
        // Invalid format
        "",
        "v",
        "10",
        "v.10",
        "v10",
        "-v10",
        "-v.10.90",
        // Invalid codes
        "-f.10",
        // Invalid values
        "-p.-1",
        "-p.2",
        "-p.i",
        "-p.invalid",
        "-i.-1",
        "-i.0",
        "-i.14",
        "-i.i",
        "-i.invalid",
        "-v.-1",
        "-v.101",
        "-v.i",
        "-v.invalid",
        "-m.-1",
        "-m.2",
        "-m.i",
        "-m.invalid",
    ];

    for invalid in invalid_frame_data {
        let result: Result<HegelCommand, _> = Frame::Data(invalid.into()).try_into();

        match result {
            Ok(_command) => {
                panic!("Invalid Frame data was incorrectly converted into a Command: {invalid}")
            }
            Err(_) => {}
        }
    }
}

// Valid Frames into Commands

#[test]
fn test_mute_off_command_from_frame() {
    let frame = Frame::Data(String::from("-m.0"));
    let result: Result<HegelCommand, _> = frame.try_into();

    match result {
        Ok(command) => {
            if let HegelCommand::Mute(value) = command {
                assert_eq!(value, Some(false));
            } else {
                panic!("Expected Command::Mute, but got a different variant");
            }
        }
        Err(_) => panic!("Could not convert Frame into a Command::Mute"),
    }
}

#[test]
fn test_mute_on_command_from_frame() {
    let frame = Frame::Data(String::from("-m.1"));
    let result: Result<HegelCommand, _> = frame.try_into();

    match result {
        Ok(command) => {
            if let HegelCommand::Mute(value) = command {
                assert_eq!(value, Some(true));
            } else {
                panic!("Expected Command::Mute, but got a different variant");
            }
        }
        Err(_) => panic!("Could not convert Frame into a Command::Mute"),
    }
}

#[test]
fn test_power_off_command_from_frame() {
    let frame = Frame::Data(String::from("-p.0"));
    let result: Result<HegelCommand, _> = frame.try_into();

    match result {
        Ok(command) => {
            if let HegelCommand::Power(value) = command {
                assert_eq!(value, Some(false));
            } else {
                panic!("Expected Command::Power, but got a different variant");
            }
        }
        Err(_) => panic!("Could not convert Frame into a Command::Power"),
    }
}

#[test]
fn test_power_on_command_from_frame() {
    let frame = Frame::Data(String::from("-p.1"));
    let result: Result<HegelCommand, _> = frame.try_into();

    match result {
        Ok(command) => {
            if let HegelCommand::Power(value) = command {
                assert_eq!(value, Some(true));
            } else {
                panic!("Expected Command::Power, but got a different variant");
            }
        }
        Err(_) => panic!("Could not convert Frame into a Command::Power"),
    }
}

#[test]
fn test_source_command_from_frame() {
    let frame = Frame::Data(String::from("-i.5"));
    let result: Result<HegelCommand, _> = frame.try_into();

    match result {
        Ok(command) => {
            if let HegelCommand::Source(value) = command {
                assert_eq!(value, Some(5));
            } else {
                panic!("Expected Command::Source, but got a different variant");
            }
        }
        Err(_) => panic!("Could not convert Frame into a Command::Source"),
    }
}

#[test]
fn test_volume_command_from_frame() {
    let frame = Frame::Data(String::from("-v.10"));
    let result: Result<HegelCommand, _> = frame.try_into();

    match result {
        Ok(command) => {
            if let HegelCommand::Volume(value) = command {
                assert_eq!(value, Some(10));
            } else {
                panic!("Expected Command::Volume, but got a different variant");
            }
        }
        Err(_) => panic!("Could not convert Frame into a Command::Volume"),
    }
}

#[test]
fn test_error_command_from_frame() {
    let frame = Frame::Data(String::from("-e.2"));
    let result: Result<HegelCommand, _> = frame.try_into();

    match result {
        Ok(command) => {
            if let HegelCommand::Error(value) = command {
                assert_eq!(value, "2");
            } else {
                panic!("Expected Command::Error, but got a different variant");
            }
        }
        Err(_) => panic!("Could not convert Frame into a Command::Error"),
    }
}

// Valid Commands into strings

#[test]
fn test_mute_off_frame_from_command() {
    let command = HegelCommand::Mute(Some(false));
    let result: Result<Frame, _> = command.try_into();

    match result {
        Ok(frame) => {
            let Frame::Data(frame_string) = frame;
            assert_eq!(frame_string, "-m.0\r");
        }
        Err(e) => panic!("Could not convert Command::Mute (off) into Frame: {e}"),
    }
}

#[test]
fn test_mute_on_frame_from_command() {
    let command = HegelCommand::Mute(Some(true));
    let result: Result<Frame, _> = command.try_into();

    match result {
        Ok(frame) => {
            let Frame::Data(frame_string) = frame;
            assert_eq!(frame_string, "-m.1\r");
        }
        Err(e) => panic!("Could not convert Command::Mute (on) into Frame: {e}"),
    }
}

#[test]
fn test_power_off_frame_from_command() {
    let command = HegelCommand::Power(Some(false));
    let result: Result<Frame, _> = command.try_into();

    match result {
        Ok(frame) => {
            let Frame::Data(frame_string) = frame;
            assert_eq!(frame_string, "-p.0\r");
        }
        Err(e) => panic!("Could not convert Command::Power (off) into Frame: {e}"),
    }
}

#[test]
fn test_power_on_frame_from_command() {
    let command = HegelCommand::Power(Some(true));
    let result: Result<Frame, _> = command.try_into();

    match result {
        Ok(frame) => {
            let Frame::Data(frame_string) = frame;
            assert_eq!(frame_string, "-p.1\r");
        }
        Err(e) => panic!("Could not convert Command::Power (on) into Frame: {e}"),
    }
}

#[test]
fn test_source_frame_from_command() {
    let command = HegelCommand::Source(Some(5));
    let result: Result<Frame, _> = command.try_into();

    match result {
        Ok(frame) => {
            let Frame::Data(frame_string) = frame;
            assert_eq!(frame_string, "-i.5\r");
        }
        Err(e) => panic!("Could not convert Command::Source into Frame: {e}"),
    }
}

#[test]
fn test_volume_frame_from_command() {
    let command = HegelCommand::Volume(Some(25));
    let result: Result<Frame, _> = command.try_into();

    match result {
        Ok(frame) => {
            let Frame::Data(frame_string) = frame;
            assert_eq!(frame_string, "-v.25\r");
        }
        Err(e) => panic!("Could not convert Command::Volume into Frame: {e}"),
    }
}

// Codes, requests, toggles and steps

fn one_of_each() -> Vec<HegelCommand> {
    vec![
        HegelCommand::Error(String::from("x")),
        HegelCommand::Mute(None),
        HegelCommand::Power(None),
        HegelCommand::Source(None),
        HegelCommand::Volume(None),
    ]
}

#[test]
fn codes_name_the_five_kinds() {
    let codes: Vec<char> = one_of_each().iter().map(|command| command.code()).collect();
    assert_eq!(codes, vec!['e', 'm', 'p', 'i', 'v']);
}

#[test]
fn requests_end_in_a_question_mark() {
    let lines: Vec<String> = one_of_each().iter().map(|command| command.request()).collect();
    assert_eq!(lines, vec!["-e.?", "-m.?", "-p.?", "-i.?", "-v.?"]);
}

#[test]
fn only_mute_and_power_toggle() {
    let lines: Vec<String> = one_of_each().iter().map(|command| command.toggle()).collect();
    assert_eq!(lines, vec!["", "-m.t", "-p.t", "", ""]);
}

#[test]
fn only_the_volume_steps() {
    let up: Vec<String> = one_of_each().iter().map(|command| command.up()).collect();
    let down: Vec<String> = one_of_each().iter().map(|command| command.down()).collect();
    assert_eq!(up, vec!["", "", "", "", "-v.u"]);
    assert_eq!(down, vec!["", "", "", "", "-v.d"]);
}

// Reading commands: what the pattern and the number reader accept

fn read(line: &str) -> Result<HegelCommand, String> {
    HegelCommand::try_from(Frame::Data(String::from(line)))
}

#[test]
fn an_error_carries_any_text_without_a_line_feed() {
    assert_eq!(read("-e."), Ok(HegelCommand::Error(String::new())));
    assert_eq!(read("-e.no such source"), Ok(HegelCommand::Error(String::from("no such source"))));
    assert_eq!(read("-e.a\rb"), Ok(HegelCommand::Error(String::from("a\rb"))));
    assert_eq!(read("-e.a\nb"), Err(String::from("Invalid Frame data: -e.a\nb")));
}

#[test]
fn numbers_are_read_as_std_reads_them() {
    assert_eq!(read("-v.007"), Ok(HegelCommand::Volume(Some(7))));
    assert_eq!(read("-v.+25"), Ok(HegelCommand::Volume(Some(25))));
    assert_eq!(read("-i.+13"), Ok(HegelCommand::Source(Some(13))));
    assert_eq!(read("-v.0"), Ok(HegelCommand::Volume(Some(0))));
    assert_eq!(read("-v.100"), Ok(HegelCommand::Volume(Some(100))));
    assert_eq!(read("-i.1"), Ok(HegelCommand::Source(Some(1))));
    assert_eq!(read("-v."), Err(String::from("Invalid volume value: ")));
    assert_eq!(read("-v.+"), Err(String::from("Invalid volume value: +")));
    assert_eq!(read("-v. 5"), Err(String::from("Invalid volume value:  5")));
    assert_eq!(read("-v.256"), Err(String::from("Invalid volume value: 256")));
}

#[test]
fn every_refusal_says_why() {
    assert_eq!(read("v.10"), Err(String::from("Invalid Frame data: v.10")));
    assert_eq!(read("-f.10"), Err(String::from("Invalid Frame data: -f.10")));
    assert_eq!(read("-i.0"), Err(String::from("Source value out of range (valid is 1-13): 0")));
    assert_eq!(read("-i.14"), Err(String::from("Source value out of range (valid is 1-13): 14")));
    assert_eq!(read("-i.x"), Err(String::from("Invalid source value: x")));
    assert_eq!(read("-m.2"), Err(String::from("Invalid mute value: 2")));
    assert_eq!(read("-p.on"), Err(String::from("Invalid power value: on")));
    assert_eq!(
        read("-v.101"),
        Err(String::from("Volume value out of range (valid is 0-100): 101"))
    );
    assert_eq!(read("-v.loud"), Err(String::from("Invalid volume value: loud")));
}

#[test]
fn a_frame_with_its_carriage_return_is_no_command() {
    assert_eq!(read("-v.25\r"), Err(String::from("Invalid volume value: 25\r")));
}

// Writing commands

#[test]
fn commands_without_a_value_in_range_have_no_frame() {
    assert_eq!(
        Frame::try_from(HegelCommand::Mute(None)),
        Err(String::from("Mute value must be a bool"))
    );
    assert_eq!(
        Frame::try_from(HegelCommand::Power(None)),
        Err(String::from("Power value must be a bool"))
    );
    assert_eq!(
        Frame::try_from(HegelCommand::Source(None)),
        Err(String::from("Source id must be a u8 between 1 and 13"))
    );
    assert_eq!(
        Frame::try_from(HegelCommand::Source(Some(0))),
        Err(String::from("Source id must be between 1 and 13"))
    );
    assert_eq!(
        Frame::try_from(HegelCommand::Source(Some(14))),
        Err(String::from("Source id must be between 1 and 13"))
    );
    assert_eq!(
        Frame::try_from(HegelCommand::Volume(None)),
        Err(String::from("Volume level must be a u8 between 0 and 100"))
    );
    assert_eq!(
        Frame::try_from(HegelCommand::Volume(Some(101))),
        Err(String::from("Volume level must be between 0 and 100"))
    );
}

#[test]
fn an_error_command_is_written_with_its_text() {
    assert_eq!(
        Frame::try_from(HegelCommand::Error(String::from("3"))),
        Ok(Frame::Data(String::from("-e.3\r")))
    );
}

#[test]
fn a_frame_travels_as_the_bytes_of_its_text() {
    assert_eq!(Frame::Data(String::from("-v.25\r")).as_bytes(), b"-v.25\r");
    assert_eq!(Frame::Data(String::from("-e.ü")).as_bytes(), &[b'-', b'e', b'.', 0xc3, 0xbc]);
}

#[test]
fn a_line_becomes_a_frame_by_a_carriage_return() {
    assert_eq!(Frame::from(String::from("-p.?")), Frame::Data(String::from("-p.?\r")));
    assert_eq!(Frame::from(String::new()), Frame::Data(String::from("\r")));
}

#[test]
fn actions_are_written_as_the_protocol_says() {
    let written = |action: AmplifierAction| frame_for_action(action).map(|Frame::Data(text)| text);
    assert_eq!(written(AmplifierAction::MuteSet(false)), Ok(String::from("-m.0\r")));
    assert_eq!(written(AmplifierAction::MuteSet(true)), Ok(String::from("-m.1\r")));
    assert_eq!(written(AmplifierAction::PowerSet(false)), Ok(String::from("-p.0\r")));
    assert_eq!(written(AmplifierAction::PowerSet(true)), Ok(String::from("-p.1\r")));
    assert_eq!(written(AmplifierAction::SourceSet(5)), Ok(String::from("-i.5\r")));
    assert_eq!(written(AmplifierAction::VolumeSet(25)), Ok(String::from("-v.25\r")));
    assert_eq!(written(AmplifierAction::MuteToggle), Ok(String::from("-m.t\r")));
    assert_eq!(written(AmplifierAction::PowerToggle), Ok(String::from("-p.t\r")));
    assert_eq!(written(AmplifierAction::VolumeUp), Ok(String::from("-v.u\r")));
    assert_eq!(written(AmplifierAction::VolumeDown), Ok(String::from("-v.d\r")));
    assert_eq!(
        written(AmplifierAction::SourceSet(14)),
        Err(String::from("Source id must be between 1 and 13"))
    );
    assert_eq!(
        written(AmplifierAction::VolumeSet(200)),
        Err(String::from("Volume level must be between 0 and 100"))
    );
}

// Reading is the inverse of writing

fn there_and_back(command: HegelCommand) -> Result<HegelCommand, String> {
    let Frame::Data(text) = Frame::try_from(command)?;
    let mut connection = HegelConnection::new();
    connection.receive(text.as_bytes());
    let frame = connection.parse_frame().ok_or(String::from("no frame"))?;
    assert!(connection.is_drained());
    HegelCommand::try_from(frame)
}

#[test]
fn every_value_of_every_kind_reads_back_as_itself() {
    for muted in [false, true] {
        assert_eq!(there_and_back(HegelCommand::Mute(Some(muted))), Ok(HegelCommand::Mute(Some(muted))));
        assert_eq!(
            there_and_back(HegelCommand::Power(Some(muted))),
            Ok(HegelCommand::Power(Some(muted)))
        );
    }
    for source in 1u8..=13 {
        assert_eq!(
            there_and_back(HegelCommand::Source(Some(source))),
            Ok(HegelCommand::Source(Some(source)))
        );
    }
    for level in 0u8..=100 {
        assert_eq!(
            there_and_back(HegelCommand::Volume(Some(level))),
            Ok(HegelCommand::Volume(Some(level)))
        );
    }
    assert_eq!(
        there_and_back(HegelCommand::Error(String::from("Fehler: Überlast"))),
        Ok(HegelCommand::Error(String::from("Fehler: Überlast")))
    );
}

// Lines and frames in a run of bytes

#[test]
fn a_line_ends_at_the_next_carriage_return() {
    let data = b"-v.25\r-m.1\rrest";
    let mut cursor = ByteCursor::new(data);
    assert_eq!(get_line(&mut cursor).unwrap(), b"-v.25");
    assert_eq!(cursor.position, 6);
    assert_eq!(get_line(&mut cursor).unwrap(), b"-m.1");
    assert_eq!(cursor.position, 11);
    assert!(matches!(get_line(&mut cursor), Err(FrameError::Incomplete)));
    assert_eq!(cursor.position, 11);
}

#[test]
fn a_cursor_beyond_the_end_finds_no_line() {
    let data = b"-v.25\r";
    let mut cursor = ByteCursor { data, position: 40 };
    assert!(matches!(get_line(&mut cursor), Err(FrameError::Incomplete)));
    assert_eq!(cursor.position, 40);
}

#[test]
fn check_passes_over_a_line_and_parse_reads_it() {
    let data = b"-v.25\r-m.1";
    let mut cursor = ByteCursor::new(data);
    assert!(Frame::check(&mut cursor).is_ok());
    assert_eq!(cursor.position, 6);
    assert!(matches!(Frame::check(&mut cursor), Err(FrameError::Incomplete)));
    assert_eq!(cursor.position, 6);

    let mut cursor = ByteCursor::new(data);
    assert_eq!(Frame::parse(&mut cursor).unwrap(), Frame::Data(String::from("-v.25")));
    assert!(matches!(Frame::parse(&mut cursor), Err(FrameError::Incomplete)));
}

#[test]
fn parse_reports_a_line_that_is_no_text() {
    let data = [0xff, 0xfe, b'\r', b'-', b'p', b'.', b'1', b'\r'];
    let mut cursor = ByteCursor::new(&data);
    assert!(matches!(Frame::parse(&mut cursor), Err(FrameError::Parse(_))));
    assert_eq!(cursor.position, 3);
    assert_eq!(Frame::parse(&mut cursor).unwrap(), Frame::Data(String::from("-p.1")));
}

#[test]
fn two_frames_in_one_run_of_bytes_come_out_in_order() {
    let mut connection = HegelConnection::new();
    connection.receive(b"-v.25\r-m.1\r");
    let first = connection.parse_frame().unwrap();
    let second = connection.parse_frame().unwrap();
    assert_eq!(HegelCommand::try_from(first), Ok(HegelCommand::Volume(Some(25))));
    assert_eq!(HegelCommand::try_from(second), Ok(HegelCommand::Mute(Some(true))));
    assert_eq!(connection.parse_frame(), None);
    assert!(connection.is_drained());
}

#[test]
fn a_frame_appears_once_its_carriage_return_has_arrived() {
    let mut connection = HegelConnection::new();
    connection.receive(b"-v.25");
    assert_eq!(connection.parse_frame(), None);
    assert!(!connection.is_drained());
    connection.receive(b"\r");
    assert_eq!(connection.parse_frame(), Some(Frame::Data(String::from("-v.25"))));
    assert!(connection.is_drained());
}

#[test]
fn a_line_that_is_no_text_is_dropped_and_the_next_one_is_read() {
    let mut connection = HegelConnection::new();
    connection.receive(&[0xc3, 0x28, b'\r']);
    connection.receive(b"-m.0\r-v");
    assert_eq!(connection.parse_frame(), Some(Frame::Data(String::from("-m.0"))));
    assert_eq!(connection.parse_frame(), None);
    assert!(!connection.is_drained());
}

#[test]
fn only_lines_that_are_no_text_leave_nothing() {
    let mut connection = HegelConnection::new();
    connection.receive(&[0xff, b'\r', 0xfe, b'\r']);
    assert_eq!(connection.parse_frame(), None);
    assert!(connection.is_drained());
}
