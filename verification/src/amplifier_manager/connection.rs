//! The receiving side of a connection to the amplifier: the bytes that have arrived and have
//! not been read as frames yet.

use vstd::prelude::*;
use vstd::utf8::*;

use crate::amplifier_manager::hegel::{
    command_of_line, fits_a_line, frame_of_command, lemma_command_round_trip, lemma_line_end,
    line_end, line_of_command, ByteCursor, CommandView, Frame, FrameError, CR,
};
use crate::text::{decimal_text, is_digit, lemma_decimal_digits_value};

verus! {

/// `bytes::BytesMut`: a buffer of bytes, of which the library knows what it holds and
/// nothing else.
#[verifier::external_type_specification]
#[verifier::external_body]
pub struct ExBytesMut(bytes::BytesMut);

/// The bytes that a buffer holds, oldest first.
pub uninterp spec fn buffered(buffer: bytes::BytesMut) -> Seq<u8>;

/// `bytes::BytesMut::with_capacity`: the new buffer holds no bytes, whatever its capacity.
#[verifier::external_body]
fn buffer_with_capacity(capacity: usize) -> (buffer: bytes::BytesMut)
    ensures
        buffered(buffer) == Seq::<u8>::empty(),
{
    bytes::BytesMut::with_capacity(capacity)
}

/// `Deref` of `bytes::BytesMut`: the bytes that the buffer holds, as a slice.
#[verifier::external_body]
fn buffer_contents(buffer: &bytes::BytesMut) -> (contents: &[u8])
    ensures
        contents@ == buffered(*buffer),
{
    &buffer[..]
}

/// `bytes::Buf::advance` on a `BytesMut`: drops the first `count` bytes. It panics where the
/// buffer holds fewer.
#[verifier::external_body]
fn buffer_advance(buffer: &mut bytes::BytesMut, count: usize)
    requires
        count <= buffered(*old(buffer)).len(),
    ensures
        buffered(*final(buffer)) == buffered(*old(buffer)).subrange(
            count as int,
            buffered(*old(buffer)).len() as int,
        ),
{
    bytes::Buf::advance(buffer, count)
}

/// `bytes::BytesMut::extend_from_slice`: appends `data` behind what the buffer holds.
#[verifier::external_body]
fn buffer_extend(buffer: &mut bytes::BytesMut, data: &[u8])
    ensures
        buffered(*final(buffer)) == buffered(*old(buffer)) + data@,
{
    buffer.extend_from_slice(data)
}

/// The first frame that `bytes` holds and what is left behind it. Lines that are not valid
/// UTF-8 are passed over; without a complete line nothing is taken.
pub open spec fn next_frame(bytes: Seq<u8>) -> (Option<Seq<char>>, Seq<u8>)
    decreases bytes.len(),
{
    let end = line_end(bytes, 0);
    if end < 0 || end >= bytes.len() {
        (None, bytes)
    } else {
        let line = bytes.subrange(0, end);
        let rest = bytes.subrange(end + 1, bytes.len() as int);
        if valid_utf8(line) {
            (Some(decode_utf8(line)), rest)
        } else {
            next_frame(rest)
        }
    }
}

/// What goes onto the wire comes off it again: a line of ASCII characters without a
/// carriage return, written with a carriage return behind it, is cut from the bytes as that
/// line, and nothing is left.
pub proof fn lemma_frame_round_trip(line: Seq<char>)
    requires
        is_ascii_chars(line),
        forall|i: int| 0 <= i < line.len() ==> line[i] != '\r',
    ensures
        next_frame(encode_utf8(line.push('\r'))) == (Some(line), Seq::<u8>::empty()),
{
    let written = line.push('\r');
    let bytes = encode_utf8(written);
    assert(is_ascii_chars(written)) by {
        assert forall|i: int| 0 <= i < written.len() implies '\0' <= #[trigger] written[i]
            <= '\u{7f}' by {
            if i < line.len() {
                assert(written[i] == line[i]);
            }
        }
    }
    is_ascii_chars_encode_utf8(written);
    is_ascii_chars_encode_utf8(line);
    let end = line.len() as int;
    assert(bytes[end] == CR) by {
        assert(written[end] == '\r');
        assert('\r' as u8 == 13u8);
    }
    assert forall|i: int| 0 <= i < end implies bytes[i] != CR by {
        assert(written[i] == line[i]);
        assert(line[i] != '\r');
        assert('\0' <= line[i] <= '\u{7f}');
        assert(bytes[i] == line[i] as u8);
        assert('\r' as u32 == 13u32);
        assert(line[i] as u32 != 13u32);
        assert(line[i] as u32 <= 127u32);
    }
    lemma_line_end(bytes, 0);
    assert(line_end(bytes, 0) == end);
    assert(bytes.subrange(0, end) =~= encode_utf8(line));
    assert(bytes.subrange(end + 1, bytes.len() as int) =~= Seq::<u8>::empty());
    encode_utf8_valid_utf8(line);
    encode_utf8_decode_utf8(line);
}

/// Whether `text` can travel as the text of an error: it is ASCII and holds neither a
/// carriage return nor a line feed.
pub open spec fn travels(text: Seq<char>) -> bool {
    &&& is_ascii_chars(text)
    &&& fits_a_line(text)
    &&& forall|i: int| 0 <= i < text.len() ==> text[i] != '\r'
}

/// A command survives the wire: written as a frame, sent as bytes, cut from the bytes and
/// read, it is the command that was written. It holds of every command that has a frame;
/// of an error command where its text can travel.
pub proof fn lemma_command_survives_the_wire(command: CommandView)
    requires
        line_of_command(command) is Ok,
        command matches CommandView::Error(text) ==> travels(text),
    ensures
        frame_of_command(command) == Ok::<Seq<char>, Seq<char>>(
            line_of_command(command)->Ok_0.push('\r'),
        ),
        next_frame(encode_utf8(frame_of_command(command)->Ok_0)).1 == Seq::<u8>::empty(),
        next_frame(encode_utf8(frame_of_command(command)->Ok_0)).0 matches Some(line)
            && command_of_line(line) == Ok::<CommandView, Seq<char>>(command),
{
    let line = line_of_command(command)->Ok_0;
    assert(is_ascii_chars(line) && forall|i: int| 0 <= i < line.len() ==> line[i] != '\r') by {
        let value = line.subrange(3, line.len() as int);
        match command {
            CommandView::Error(text) => {
                assert(value =~= text);
            },
            CommandView::Mute(_) => {},
            CommandView::Power(_) => {},
            CommandView::Source(source) => {
                lemma_decimal_digits_value(source->Some_0 as nat);
                assert(value =~= decimal_text(source->Some_0 as int));
            },
            CommandView::Volume(level) => {
                lemma_decimal_digits_value(level->Some_0 as nat);
                assert(value =~= decimal_text(level->Some_0 as int));
            },
        }
        assert forall|i: int| 0 <= i < line.len() implies '\0' <= #[trigger] line[i] <= '\u{7f}'
            && line[i] != '\r' by {
            if i >= 3 {
                assert(line[i] == value[i - 3]);
                if !(command is Error) && !(command is Mute) && !(command is Power) {
                    assert(is_digit(value[i - 3]));
                }
            }
        }
    }
    lemma_frame_round_trip(line);
    lemma_command_round_trip(command);
}

/// How many bytes a connection's buffer is made for at the start.
pub const INITIAL_CAPACITY: usize = 1024;

/// The bytes received from the amplifier that no frame has been cut from yet.
pub struct HegelConnection {
    buffer: bytes::BytesMut,
}

impl View for HegelConnection {
    type V = Seq<u8>;

    closed spec fn view(&self) -> Seq<u8> {
        buffered(self.buffer)
    }
}

impl HegelConnection {
    /// A connection on which nothing has arrived.
    pub fn new() -> (connection: HegelConnection)
        ensures
            connection@ == Seq::<u8>::empty(),
    {
        HegelConnection { buffer: buffer_with_capacity(INITIAL_CAPACITY) }
    }

    /// Takes in bytes that have arrived.
    pub fn receive(&mut self, data: &[u8])
        ensures
            final(self)@ == old(self)@ + data@,
    {
        buffer_extend(&mut self.buffer, data);
    }

    /// Whether the stream may end here without loss: nothing is waiting to be read.
    pub fn is_drained(&self) -> (drained: bool)
        ensures
            drained == (self@.len() == 0),
    {
        buffer_contents(&self.buffer).len() == 0
    }

    /// Cuts the next frame from what has arrived. A line that is not valid UTF-8 is dropped
    /// and the search goes on behind it; `None` says that more bytes are needed.
    pub fn parse_frame(&mut self) -> (frame: Option<Frame>)
        ensures
            match frame {
                Some(f) => Some(f@) == next_frame(old(self)@).0,
                None => next_frame(old(self)@).0 is None,
            },
            final(self)@ == next_frame(old(self)@).1,
    {
        loop
            invariant
                next_frame(self@) == next_frame(old(self)@),
            decreases self@.len(),
        {
            let contents = buffer_contents(&self.buffer);
            let mut cursor = ByteCursor::new(contents);
            let outcome = Frame::parse(&mut cursor);
            let taken: usize = cursor.position;
            proof {
                lemma_line_end(self@, 0);
            }
            match outcome {
                Ok(frame) => {
                    buffer_advance(&mut self.buffer, taken);
                    return Some(frame);
                },
                Err(FrameError::Incomplete) => {
                    return None;
                },
                Err(FrameError::Parse(_)) => {
                    buffer_advance(&mut self.buffer, taken);
                },
            }
        }
    }
}

} // verus!
