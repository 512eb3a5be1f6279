//! The Hegel line protocol: commands, the frames that carry them, and the buffer that cuts a
//! byte stream into frames.
//!
//! A line reads `-` code `.` value, where the code is one of `e` (error), `i` (source),
//! `m` (mute), `p` (power) and `v` (volume). On the wire each line ends with a carriage return.

use vstd::prelude::*;
use vstd::slice::*;
use vstd::string::*;
use vstd::utf8::*;

use crate::amplifier_manager::AmplifierAction;
use crate::text::{
    decimal_string, decimal_text, joined, lemma_decimal_digits_value, parse_u8, parse_u8_text,
    str_eq,
};

verus! {

/// The byte that ends a line on the wire.
pub const CR: u8 = 13;

/// The lowest and highest source that the amplifier knows.
pub const MIN_SOURCE: u8 = 1;

pub const MAX_SOURCE: u8 = 13;

/// The highest volume that the amplifier knows.
pub const MAX_VOLUME: u8 = 100;

// ================================================================================================
// Commands
// ================================================================================================

/// One command of the protocol. A value of `None` stands for "no value given", as in a request.
#[derive(Clone, Debug, PartialEq, Eq)]
pub enum HegelCommand {
    Error(String),
    Mute(Option<bool>),
    Power(Option<bool>),
    Source(Option<u8>),
    Volume(Option<u8>),
}

/// A command as mathematics sees it: the error text is a sequence of characters.
pub enum CommandView {
    Error(Seq<char>),
    Mute(Option<bool>),
    Power(Option<bool>),
    Source(Option<u8>),
    Volume(Option<u8>),
}

impl View for HegelCommand {
    type V = CommandView;

    open spec fn view(&self) -> CommandView {
        match *self {
            HegelCommand::Error(text) => CommandView::Error(text@),
            HegelCommand::Mute(value) => CommandView::Mute(value),
            HegelCommand::Power(value) => CommandView::Power(value),
            HegelCommand::Source(value) => CommandView::Source(value),
            HegelCommand::Volume(value) => CommandView::Volume(value),
        }
    }
}

/// The letter that names a command's kind on the wire.
pub open spec fn code_of(command: CommandView) -> char {
    match command {
        CommandView::Error(_) => 'e',
        CommandView::Mute(_) => 'm',
        CommandView::Power(_) => 'p',
        CommandView::Source(_) => 'i',
        CommandView::Volume(_) => 'v',
    }
}

/// Whether `c` names a kind of command.
pub open spec fn is_command_code(c: char) -> bool {
    c == 'e' || c == 'i' || c == 'm' || c == 'p' || c == 'v'
}

/// How every line of the kind `code` begins.
pub open spec fn line_prefix(code: char) -> Seq<char> {
    seq!['-', code, '.']
}

/// The line that asks the amplifier for the value of `command`'s kind.
pub open spec fn request_line(command: CommandView) -> Seq<char> {
    line_prefix(code_of(command)).push('?')
}

/// The line that toggles `command`'s kind; empty for a kind that cannot be toggled.
pub open spec fn toggle_line(command: CommandView) -> Seq<char> {
    match command {
        CommandView::Mute(_) | CommandView::Power(_) => line_prefix(code_of(command)).push('t'),
        _ => Seq::empty(),
    }
}

/// The line that steps the volume up; empty for every other kind.
pub open spec fn up_line(command: CommandView) -> Seq<char> {
    match command {
        CommandView::Volume(_) => line_prefix('v').push('u'),
        _ => Seq::empty(),
    }
}

/// The line that steps the volume down; empty for every other kind.
pub open spec fn down_line(command: CommandView) -> Seq<char> {
    match command {
        CommandView::Volume(_) => line_prefix('v').push('d'),
        _ => Seq::empty(),
    }
}

impl HegelCommand {
    /// The letter that names this command's kind.
    pub fn code(&self) -> (c: char)
        ensures
            c == code_of(self@),
    {
        match self {
            HegelCommand::Error(_) => 'e',
            HegelCommand::Mute(_) => 'm',
            HegelCommand::Power(_) => 'p',
            HegelCommand::Source(_) => 'i',
            HegelCommand::Volume(_) => 'v',
        }
    }

    /// The first three characters of every line of this command's kind.
    fn prefix(&self) -> (text: String)
        ensures
            text@ == line_prefix(code_of(self@)),
    {
        proof {
            reveal_strlit("-e.");
            reveal_strlit("-m.");
            reveal_strlit("-p.");
            reveal_strlit("-i.");
            reveal_strlit("-v.");
        }
        let text = match self {
            HegelCommand::Error(_) => String::from_str("-e."),
            HegelCommand::Mute(_) => String::from_str("-m."),
            HegelCommand::Power(_) => String::from_str("-p."),
            HegelCommand::Source(_) => String::from_str("-i."),
            HegelCommand::Volume(_) => String::from_str("-v."),
        };
        assert(text@ =~= line_prefix(code_of(self@)));
        text
    }

    /// The line that asks the amplifier for the current value of this command's kind.
    pub fn request(&self) -> (line: String)
        ensures
            line@ == request_line(self@),
    {
        proof {
            reveal_strlit("?");
        }
        let line = self.prefix().concat("?");
        assert(line@ =~= request_line(self@));
        line
    }

    /// The line that toggles this command's value. Only mute and power can be toggled: for
    /// the other kinds the line is empty.
    pub fn toggle(&self) -> (line: String)
        ensures
            line@ == toggle_line(self@),
    {
        proof {
            reveal_strlit("t");
        }
        match self {
            HegelCommand::Mute(_) | HegelCommand::Power(_) => {
                let line = self.prefix().concat("t");
                assert(line@ =~= toggle_line(self@));
                line
            },
            _ => String::new(),
        }
    }

    /// The line that steps this command's value up. Only the volume can be stepped: for the
    /// other kinds the line is empty.
    pub fn up(&self) -> (line: String)
        ensures
            line@ == up_line(self@),
    {
        proof {
            reveal_strlit("u");
        }
        match self {
            HegelCommand::Volume(_) => {
                let line = self.prefix().concat("u");
                assert(line@ =~= up_line(self@));
                line
            },
            _ => String::new(),
        }
    }

    /// The line that steps this command's value down. Only the volume can be stepped: for
    /// the other kinds the line is empty.
    pub fn down(&self) -> (line: String)
        ensures
            line@ == down_line(self@),
    {
        proof {
            reveal_strlit("d");
        }
        match self {
            HegelCommand::Volume(_) => {
                let line = self.prefix().concat("d");
                assert(line@ =~= down_line(self@));
                line
            },
            _ => String::new(),
        }
    }
}

// ================================================================================================
// Reading a command from a line
// ================================================================================================

/// The pattern that every line of the protocol matches.
pub const LINE_PATTERN: &'static str = r"^-([eimpv])\.(.*)$";

/// Whether `line` has the shape of a command: a dash, a command code, a dot and a value in
/// which no line feed occurs.
pub open spec fn line_matches(line: Seq<char>) -> bool {
    &&& line.len() >= 3
    &&& line[0] == '-'
    &&& is_command_code(line[1])
    &&& line[2] == '.'
    &&& forall|i: int| 3 <= i < line.len() ==> line[i] != '\n'
}

/// The value that a line of the right shape carries: all that follows the dot.
pub open spec fn line_value(line: Seq<char>) -> Seq<char> {
    line.subrange(3, line.len() as int)
}

/// The command that a line stands for, or the reason why it stands for none.
pub open spec fn command_of_line(line: Seq<char>) -> Result<CommandView, Seq<char>> {
    let value = line_value(line);
    if !line_matches(line) {
        Err("Invalid Frame data: "@ + line)
    } else if line[1] == 'e' {
        Ok(CommandView::Error(value))
    } else if line[1] == 'i' {
        match parse_u8_text(value) {
            Some(source) => if MIN_SOURCE <= source <= MAX_SOURCE {
                Ok(CommandView::Source(Some(source)))
            } else {
                Err("Source value out of range (valid is 1-13): "@ + decimal_text(source as int))
            },
            None => Err("Invalid source value: "@ + value),
        }
    } else if line[1] == 'm' {
        if value == seq!['0'] {
            Ok(CommandView::Mute(Some(false)))
        } else if value == seq!['1'] {
            Ok(CommandView::Mute(Some(true)))
        } else {
            Err("Invalid mute value: "@ + value)
        }
    } else if line[1] == 'p' {
        if value == seq!['0'] {
            Ok(CommandView::Power(Some(false)))
        } else if value == seq!['1'] {
            Ok(CommandView::Power(Some(true)))
        } else {
            Err("Invalid power value: "@ + value)
        }
    } else {
        match parse_u8_text(value) {
            Some(volume) => if volume <= MAX_VOLUME {
                Ok(CommandView::Volume(Some(volume)))
            } else {
                Err("Volume value out of range (valid is 0-100): "@ + decimal_text(volume as int))
            },
            None => Err("Invalid volume value: "@ + value),
        }
    }
}

/// `regex::Regex::new` and `Regex::captures`, for the line pattern alone. In that pattern `^`
/// and `$` stand for the two ends of the text, `[eimpv]` for one of five letters, `\.` for a
/// dot and `.*` for any run of characters other than a line feed; the pattern is well formed,
/// so that compiling it succeeds. A text matches exactly when it has the shape that
/// `line_matches` describes; the first group is its second character and the second group is
/// all that follows the dot.
#[verifier::external_body]
fn match_line(pattern: &str, line: &str) -> (groups: Option<(String, String)>)
    requires
        pattern@ == LINE_PATTERN@,
    ensures
        match groups {
            Some((code, value)) => line_matches(line@) && code@ == seq![line@[1]] && value@
                == line_value(line@),
            None => !line_matches(line@),
        },
{
    let captures = regex::Regex::new(pattern).ok()?.captures(line)?;
    Some((captures.get(1)?.as_str().to_owned(), captures.get(2)?.as_str().to_owned()))
}

/// Reads a source or a volume: a `u8` between `low` and `high`.
fn ranged_value(
    value: &str,
    low: u8,
    high: u8,
    out_of_range: &str,
    invalid: &str,
) -> (res: Result<u8, String>)
    ensures
        match parse_u8_text(value@) {
            Some(n) => if low <= n <= high {
                res == Ok::<u8, String>(n)
            } else {
                res is Err && res->Err_0@ == out_of_range@ + decimal_text(n as int)
            },
            None => res is Err && res->Err_0@ == invalid@ + value@,
        },
{
    match parse_u8(value) {
        Some(n) => {
            if low <= n && n <= high {
                Ok(n)
            } else {
                let digits = decimal_string(n as i128);
                Err(joined(out_of_range, digits.as_str()))
            }
        },
        None => Err(joined(invalid, value)),
    }
}

/// Reads a mute or a power value: `0` for off, `1` for on.
fn switch_value(value: &str, invalid: &str) -> (res: Result<bool, String>)
    ensures
        if value@ == seq!['0'] {
            res == Ok::<bool, String>(false)
        } else if value@ == seq!['1'] {
            res == Ok::<bool, String>(true)
        } else {
            res is Err && res->Err_0@ == invalid@ + value@
        },
{
    proof {
        reveal_strlit("0");
        reveal_strlit("1");
    }
    assert("0"@ =~= seq!['0']);
    assert("1"@ =~= seq!['1']);
    if str_eq(value, "0") {
        Ok(false)
    } else if str_eq(value, "1") {
        Ok(true)
    } else {
        Err(joined(invalid, value))
    }
}

impl TryFrom<Frame> for HegelCommand {
    type Error = String;

    /// Reads the command that a frame of one line carries. A line of another shape, an
    /// unknown code and a value outside its kind's range are refused, each with its reason.
    fn try_from(frame: Frame) -> (res: Result<HegelCommand, String>)
        ensures
            match command_of_line(frame@) {
                Ok(command) => res is Ok && res->Ok_0@ == command,
                Err(reason) => res is Err && res->Err_0@ == reason,
            },
    {
        let line = match frame {
            Frame::Data(line) => line,
        };
        match match_line(LINE_PATTERN, line.as_str()) {
            None => Err(joined("Invalid Frame data: ", line.as_str())),
            Some((code, value)) => {
                proof {
                    reveal_strlit("e");
                    reveal_strlit("i");
                    reveal_strlit("m");
                    reveal_strlit("p");
                }
                assert("e"@ =~= seq!['e']);
                assert("i"@ =~= seq!['i']);
                assert("m"@ =~= seq!['m']);
                assert("p"@ =~= seq!['p']);
                assert(code@[0] == line@[1]);
                if str_eq(code.as_str(), "e") {
                    Ok(HegelCommand::Error(value))
                } else if str_eq(code.as_str(), "i") {
                    match ranged_value(
                        value.as_str(),
                        MIN_SOURCE,
                        MAX_SOURCE,
                        "Source value out of range (valid is 1-13): ",
                        "Invalid source value: ",
                    ) {
                        Ok(source) => Ok(HegelCommand::Source(Some(source))),
                        Err(reason) => Err(reason),
                    }
                } else if str_eq(code.as_str(), "m") {
                    match switch_value(value.as_str(), "Invalid mute value: ") {
                        Ok(muted) => Ok(HegelCommand::Mute(Some(muted))),
                        Err(reason) => Err(reason),
                    }
                } else if str_eq(code.as_str(), "p") {
                    match switch_value(value.as_str(), "Invalid power value: ") {
                        Ok(powered) => Ok(HegelCommand::Power(Some(powered))),
                        Err(reason) => Err(reason),
                    }
                } else {
                    match ranged_value(
                        value.as_str(),
                        0,
                        MAX_VOLUME,
                        "Volume value out of range (valid is 0-100): ",
                        "Invalid volume value: ",
                    ) {
                        Ok(volume) => Ok(HegelCommand::Volume(Some(volume))),
                        Err(reason) => Err(reason),
                    }
                }
            },
        }
    }
}

/// What `try_from` promises is stated on the function itself, over the views of the frame
/// and of the command; the general law of conversions is not claimed.
impl vstd::std_specs::convert::TryFromSpecImpl<Frame> for HegelCommand {
    open spec fn obeys_try_from_spec() -> bool {
        false
    }

    open spec fn try_from_spec(frame: Frame) -> Result<HegelCommand, String> {
        arbitrary()
    }
}

// ================================================================================================
// Frames
// ================================================================================================

/// Why no frame could be taken from a buffer.
#[derive(Debug)]
pub enum FrameError {
    /// The buffer holds no complete line yet.
    Incomplete,
    /// The line is not valid UTF-8; the text says where it went wrong.
    Parse(String),
}

/// One line of the protocol. A frame that was read holds the line without its carriage
/// return; a frame that is to be written holds it with the carriage return.
#[derive(Clone, Debug, PartialEq, Eq)]
pub enum Frame {
    Data(String),
}

impl View for Frame {
    type V = Seq<char>;

    open spec fn view(&self) -> Seq<char> {
        match *self {
            Frame::Data(text) => text@,
        }
    }
}

/// A place in a run of bytes: all that stands before `position` has been read.
pub struct ByteCursor<'a> {
    pub data: &'a [u8],
    pub position: usize,
}

impl<'a> ByteCursor<'a> {
    /// A cursor at the start of `data`.
    pub fn new(data: &'a [u8]) -> (cursor: ByteCursor<'a>)
        ensures
            cursor.data@ == data@,
            cursor.position == 0,
    {
        ByteCursor { data, position: 0 }
    }
}

/// The index of the first carriage return at or after `start`, or the length of `data` where
/// there is none.
pub open spec fn line_end(data: Seq<u8>, start: int) -> int
    decreases data.len() - start,
{
    if start < 0 || start >= data.len() {
        data.len() as int
    } else if data[start] == CR {
        start
    } else {
        line_end(data, start + 1)
    }
}

/// `line_end` is the first carriage return: nothing before it is one.
pub proof fn lemma_line_end(data: Seq<u8>, start: int)
    requires
        0 <= start,
    ensures
        start <= line_end(data, start) || line_end(data, start) == data.len(),
        line_end(data, start) <= data.len(),
        line_end(data, start) < data.len() ==> data[line_end(data, start)] == CR,
        forall|i: int| start <= i < line_end(data, start) ==> data[i] != CR,
    decreases data.len() - start,
{
    if start < data.len() && data[start] != CR {
        lemma_line_end(data, start + 1);
    }
}

/// Takes the next line from the cursor: the bytes up to the next carriage return, which is
/// passed over. Without a carriage return ahead the cursor stays where it is.
pub fn get_line<'a>(src: &mut ByteCursor<'a>) -> (res: Result<&'a [u8], FrameError>)
    ensures
        final(src).data@ == old(src).data@,
        match res {
            Ok(line) => {
                let end = line_end(old(src).data@, old(src).position as int);
                &&& end < old(src).data@.len()
                &&& line@ == old(src).data@.subrange(old(src).position as int, end)
                &&& final(src).position == end + 1
            },
            Err(error) => {
                &&& error is Incomplete
                &&& line_end(old(src).data@, old(src).position as int) == old(src).data@.len()
                &&& final(src).position == old(src).position
            },
        },
{
    let data: &'a [u8] = src.data;
    let start: usize = src.position;
    let end: usize = data.len();
    let mut i: usize = start;
    while i < end
        invariant
            data@ == old(src).data@,
            src.data@ == old(src).data@,
            src.position == start,
            start == old(src).position,
            end == data@.len(),
            start <= i,
            line_end(data@, start as int) == line_end(data@, i as int),
        decreases end - i,
    {
        if data[i] == CR {
            src.position = i + 1;
            return Ok(slice_subrange(data, start, i));
        }
        i = i + 1;
    }
    Err(FrameError::Incomplete)
}

/// `String::from_utf8`: std gives the text that the bytes encode where they are valid UTF-8,
/// and an error where they are not. The error is handed on as its description.
#[verifier::external_body]
fn text_of_bytes(bytes: Vec<u8>) -> (res: Result<String, String>)
    ensures
        valid_utf8(bytes@) ==> res is Ok && res->Ok_0@ == decode_utf8(bytes@),
        !valid_utf8(bytes@) ==> res is Err,
{
    String::from_utf8(bytes).map_err(|error| format!("{:?}", error))
}

impl Frame {
    /// The bytes that carry the frame on the wire: its text in UTF-8.
    pub fn as_bytes(&self) -> (bytes: &[u8])
        ensures
            bytes@ == encode_utf8(self@),
    {
        match self {
            Frame::Data(text) => text.as_str().as_bytes(),
        }
    }

    /// Whether a whole line stands ahead of the cursor. The cursor moves as in `get_line`.
    pub fn check(src: &mut ByteCursor) -> (res: Result<(), FrameError>)
        ensures
            final(src).data@ == old(src).data@,
            match res {
                Ok(_) => {
                    let end = line_end(old(src).data@, old(src).position as int);
                    end < old(src).data@.len() && final(src).position == end + 1
                },
                Err(error) => {
                    &&& error is Incomplete
                    &&& line_end(old(src).data@, old(src).position as int) == old(
                        src,
                    ).data@.len()
                    &&& final(src).position == old(src).position
                },
            },
    {
        match get_line(src) {
            Ok(_) => Ok(()),
            Err(error) => Err(error),
        }
    }

    /// Takes the next line from the cursor as a frame. The cursor moves as in `get_line`; a
    /// line that is not valid UTF-8 is passed over and reported.
    pub fn parse(src: &mut ByteCursor) -> (res: Result<Frame, FrameError>)
        ensures
            final(src).data@ == old(src).data@,
            ({
                let start = old(src).position as int;
                let end = line_end(old(src).data@, start);
                let line = old(src).data@.subrange(start, end);
                if end >= old(src).data@.len() {
                    &&& res is Err
                    &&& res->Err_0 is Incomplete
                    &&& final(src).position == old(src).position
                } else if valid_utf8(line) {
                    &&& res is Ok
                    &&& res->Ok_0@ == decode_utf8(line)
                    &&& final(src).position == end + 1
                } else {
                    &&& res is Err
                    &&& res->Err_0 is Parse
                    &&& final(src).position == end + 1
                }
            }),
    {
        match get_line(src) {
            Ok(line) => match text_of_bytes(slice_to_vec(line)) {
                Ok(text) => Ok(Frame::Data(text)),
                Err(detail) => Err(FrameError::Parse(detail)),
            },
            Err(error) => Err(error),
        }
    }
}

impl From<String> for Frame {
    /// The frame that carries `line` on the wire: the line and a carriage return.
    fn from(line: String) -> (frame: Frame)
        ensures
            frame@ == line@.push('\r'),
    {
        proof {
            reveal_strlit("\r");
        }
        let text = line.concat("\r");
        assert(text@ =~= line@.push('\r'));
        Frame::Data(text)
    }
}

/// What `from` promises is stated on the function itself, over the views of the line and
/// of the frame; the general law of conversions is not claimed.
impl vstd::std_specs::convert::FromSpecImpl<String> for Frame {
    open spec fn obeys_from_spec() -> bool {
        false
    }

    open spec fn from_spec(line: String) -> Frame {
        arbitrary()
    }
}

/// The line that sets the amplifier to the value of `command`, or the reason why there is
/// none: a command without a value, or with a value outside its kind's range.
pub open spec fn line_of_command(command: CommandView) -> Result<Seq<char>, Seq<char>> {
    match command {
        CommandView::Error(text) => Ok(line_prefix('e') + text),
        CommandView::Mute(Some(muted)) => Ok(line_prefix('m').push(if muted { '1' } else { '0' })),
        CommandView::Mute(None) => Err("Mute value must be a bool"@),
        CommandView::Power(Some(powered)) => Ok(
            line_prefix('p').push(if powered { '1' } else { '0' }),
        ),
        CommandView::Power(None) => Err("Power value must be a bool"@),
        CommandView::Source(Some(source)) => if MIN_SOURCE <= source <= MAX_SOURCE {
            Ok(line_prefix('i') + decimal_text(source as int))
        } else {
            Err("Source id must be between 1 and 13"@)
        },
        CommandView::Source(None) => Err("Source id must be a u8 between 1 and 13"@),
        CommandView::Volume(Some(level)) => if level <= MAX_VOLUME {
            Ok(line_prefix('v') + decimal_text(level as int))
        } else {
            Err("Volume level must be between 0 and 100"@)
        },
        CommandView::Volume(None) => Err("Volume level must be a u8 between 0 and 100"@),
    }
}

/// Whether `text` can stand in a line: no line feed occurs in it.
pub open spec fn fits_a_line(text: Seq<char>) -> bool {
    forall|i: int| 0 <= i < text.len() ==> text[i] != '\n'
}

/// Reading is the inverse of writing: the line that sets the amplifier to a command's value
/// reads back as that command. It holds of every command that has such a line; of an
/// error command where its text can stand in a line.
pub proof fn lemma_command_round_trip(command: CommandView)
    requires
        line_of_command(command) is Ok,
        command matches CommandView::Error(text) ==> fits_a_line(text),
    ensures
        command_of_line(line_of_command(command)->Ok_0) == Ok::<CommandView, Seq<char>>(command),
{
    let line = line_of_command(command)->Ok_0;
    match command {
        CommandView::Error(text) => {
            assert(line_value(line) =~= text);
        },
        CommandView::Mute(value) => {
            let digit = if value->Some_0 { '1' } else { '0' };
            assert(line_value(line) =~= seq![digit]);
        },
        CommandView::Power(value) => {
            let digit = if value->Some_0 { '1' } else { '0' };
            assert(line_value(line) =~= seq![digit]);
        },
        CommandView::Source(value) => {
            let n = value->Some_0;
            lemma_decimal_digits_value(n as nat);
            assert(line_value(line) =~= decimal_text(n as int));
        },
        CommandView::Volume(value) => {
            let n = value->Some_0;
            lemma_decimal_digits_value(n as nat);
            assert(line_value(line) =~= decimal_text(n as int));
        },
    }
    assert(line_matches(line));
}

/// What `line_of_command` gives, as it travels: with a carriage return behind the line.
pub open spec fn frame_of_command(command: CommandView) -> Result<Seq<char>, Seq<char>> {
    match line_of_command(command) {
        Ok(line) => Ok(line.push('\r')),
        Err(reason) => Err(reason),
    }
}

/// `0` for off and `1` for on.
fn switch_text(on: bool) -> (text: &'static str)
    ensures
        text@ == seq![if on { '1' } else { '0' }],
{
    proof {
        reveal_strlit("0");
        reveal_strlit("1");
    }
    if on {
        assert("1"@ =~= seq!['1']);
        "1"
    } else {
        assert("0"@ =~= seq!['0']);
        "0"
    }
}

impl TryFrom<HegelCommand> for Frame {
    type Error = String;

    /// The frame that sets the amplifier to the value of `command`.
    fn try_from(command: HegelCommand) -> (res: Result<Frame, String>)
        ensures
            match frame_of_command(command@) {
                Ok(text) => res is Ok && res->Ok_0@ == text,
                Err(reason) => res is Err && res->Err_0@ == reason,
            },
    {
        let prefix = command.prefix();
        let line = match command {
            HegelCommand::Error(text) => prefix.concat(text.as_str()),
            HegelCommand::Mute(value) => match value {
                Some(muted) => {
                    let line = prefix.concat(switch_text(muted));
                    assert(line@ =~= line_prefix('m').push(if muted { '1' } else { '0' }));
                    line
                },
                None => {
                    return Err(String::from_str("Mute value must be a bool"));
                },
            },
            HegelCommand::Power(value) => match value {
                Some(powered) => {
                    let line = prefix.concat(switch_text(powered));
                    assert(line@ =~= line_prefix('p').push(if powered { '1' } else { '0' }));
                    line
                },
                None => {
                    return Err(String::from_str("Power value must be a bool"));
                },
            },
            HegelCommand::Source(value) => match value {
                Some(source) => {
                    if MIN_SOURCE <= source && source <= MAX_SOURCE {
                        prefix.concat(decimal_string(source as i128).as_str())
                    } else {
                        return Err(String::from_str("Source id must be between 1 and 13"));
                    }
                },
                None => {
                    return Err(String::from_str("Source id must be a u8 between 1 and 13"));
                },
            },
            HegelCommand::Volume(value) => match value {
                Some(level) => {
                    if level <= MAX_VOLUME {
                        prefix.concat(decimal_string(level as i128).as_str())
                    } else {
                        return Err(String::from_str("Volume level must be between 0 and 100"));
                    }
                },
                None => {
                    return Err(String::from_str("Volume level must be a u8 between 0 and 100"));
                },
            },
        };
        Ok(Frame::from(line))
    }
}

/// What `try_from` promises is stated on the function itself, over the views of the
/// command and of the frame; the general law of conversions is not claimed.
impl vstd::std_specs::convert::TryFromSpecImpl<HegelCommand> for Frame {
    open spec fn obeys_try_from_spec() -> bool {
        false
    }

    open spec fn try_from_spec(command: HegelCommand) -> Result<Frame, String> {
        arbitrary()
    }
}

/// The frame that carries out `action`, as it travels, or the reason why there is none.
pub open spec fn frame_of_action(action: AmplifierAction) -> Result<Seq<char>, Seq<char>> {
    match action {
        AmplifierAction::MuteSet(muted) => frame_of_command(CommandView::Mute(Some(muted))),
        AmplifierAction::MuteToggle => Ok(toggle_line(CommandView::Mute(None)).push('\r')),
        AmplifierAction::PowerSet(powered) => frame_of_command(CommandView::Power(Some(powered))),
        AmplifierAction::PowerToggle => Ok(toggle_line(CommandView::Power(None)).push('\r')),
        AmplifierAction::SourceSet(source) => frame_of_command(CommandView::Source(Some(source))),
        AmplifierAction::VolumeDown => Ok(down_line(CommandView::Volume(None)).push('\r')),
        AmplifierAction::VolumeSet(level) => frame_of_command(CommandView::Volume(Some(level))),
        AmplifierAction::VolumeUp => Ok(up_line(CommandView::Volume(None)).push('\r')),
    }
}

/// The frame that carries out a user's action.
pub fn frame_for_action(action: AmplifierAction) -> (res: Result<Frame, String>)
    ensures
        match frame_of_action(action) {
            Ok(text) => res is Ok && res->Ok_0@ == text,
            Err(reason) => res is Err && res->Err_0@ == reason,
        },
{
    match action {
        AmplifierAction::MuteSet(muted) => Frame::try_from(HegelCommand::Mute(Some(muted))),
        AmplifierAction::MuteToggle => Ok(Frame::from(HegelCommand::Mute(None).toggle())),
        AmplifierAction::PowerSet(powered) => Frame::try_from(HegelCommand::Power(Some(powered))),
        AmplifierAction::PowerToggle => Ok(Frame::from(HegelCommand::Power(None).toggle())),
        AmplifierAction::SourceSet(source) => Frame::try_from(HegelCommand::Source(Some(source))),
        AmplifierAction::VolumeDown => Ok(Frame::from(HegelCommand::Volume(None).down())),
        AmplifierAction::VolumeSet(level) => Frame::try_from(HegelCommand::Volume(Some(level))),
        AmplifierAction::VolumeUp => Ok(Frame::from(HegelCommand::Volume(None).up())),
    }
}

} // verus!
