//! Commands read from the control channel and the acknowledgements sent back.

use vstd::prelude::*;
use crate::number::{parse_u32, parse_u32_spec};

verus! {

/// Compares two texts character by character.
pub(crate) fn same_text(a: &str, b: &str) -> (r: bool)
    ensures
        r == (a@ == b@),
{
    let n = a.unicode_len();
    if n != b.unicode_len() {
        return false;
    }
    let mut i: usize = 0;
    while i < n
        invariant
            i <= n,
            n == a@.len(),
            n == b@.len(),
            a@.take(i as int) == b@.take(i as int),
        decreases n - i,
    {
        if a.get_char(i) != b.get_char(i) {
            return false;
        }
        assert(a@.take(i + 1) =~= a@.take(i as int).push(a@[i as int]));
        assert(b@.take(i + 1) =~= b@.take(i as int).push(b@[i as int]));
        i = i + 1;
    }
    assert(a@ =~= a@.take(n as int));
    assert(b@ =~= b@.take(n as int));
    true
}

/// The first frame of a control message says which command it opens.
#[derive(Clone, Copy, Debug, PartialEq, Eq, Structural)]
pub enum CommandHead {
    /// `"start"`: four frames follow (name, fps, width, height).
    Start,
    /// `"stop"`: nothing follows.
    Stop,
    /// Anything else.
    Unknown,
}

pub open spec fn head_of(message: Seq<char>) -> CommandHead {
    if message == "start"@ {
        CommandHead::Start
    } else if message == "stop"@ {
        CommandHead::Stop
    } else {
        CommandHead::Unknown
    }
}

/// Tells which command a message's first frame opens.
pub fn classify(message: &str) -> (r: CommandHead)
    ensures
        r == head_of(message@),
{
    if same_text(message, "start") {
        CommandHead::Start
    } else if same_text(message, "stop") {
        CommandHead::Stop
    } else {
        CommandHead::Unknown
    }
}

/// What a new encoder session is bound to.
#[derive(Clone, Debug)]
pub struct EncoderSettings {
    /// Path of the video file to write.
    pub name: String,
    pub fps: u32,
    pub width: u32,
    pub height: u32,
}

/// A decoded control directive.
#[derive(Clone, Debug)]
pub enum Command {
    Start(EncoderSettings),
    Stop,
    Unknown(String),
}

/// The numeric fields of a start command, in the order they arrive.
#[derive(Clone, Copy, Debug, PartialEq, Eq, Structural)]
pub enum StartField {
    Fps,
    Width,
    Height,
}

/// A start command whose field does not read as an unsigned 32-bit number.
#[derive(Clone, Debug)]
pub struct CommandDecodeError {
    pub field: StartField,
    pub text: String,
}

/// What the four frames after `"start"` decode to.
pub open spec fn decode_start_spec(name: String, fps: String, width: String, height: String) -> Result<
    EncoderSettings,
    CommandDecodeError,
> {
    if parse_u32_spec(fps@) is None {
        Err(CommandDecodeError { field: StartField::Fps, text: fps })
    } else if parse_u32_spec(width@) is None {
        Err(CommandDecodeError { field: StartField::Width, text: width })
    } else if parse_u32_spec(height@) is None {
        Err(CommandDecodeError { field: StartField::Height, text: height })
    } else {
        Ok(
            EncoderSettings {
                name,
                fps: parse_u32_spec(fps@).unwrap(),
                width: parse_u32_spec(width@).unwrap(),
                height: parse_u32_spec(height@).unwrap(),
            },
        )
    }
}

/// Decodes the four frames that follow `"start"`. The first field that does
/// not read as a number is reported; the name is taken as it is.
pub fn decode_start(name: String, fps: String, width: String, height: String) -> (r: Result<
    EncoderSettings,
    CommandDecodeError,
>)
    ensures
        r == decode_start_spec(name, fps, width, height),
{
    let f = match parse_u32(fps.as_str()) {
        Some(v) => v,
        None => {
            return Err(CommandDecodeError { field: StartField::Fps, text: fps });
        },
    };
    let w = match parse_u32(width.as_str()) {
        Some(v) => v,
        None => {
            return Err(CommandDecodeError { field: StartField::Width, text: width });
        },
    };
    let h = match parse_u32(height.as_str()) {
        Some(v) => v,
        None => {
            return Err(CommandDecodeError { field: StartField::Height, text: height });
        },
    };
    Ok(EncoderSettings { name, fps: f, width: w, height: h })
}

/// An outward event, stamped with the nanosecond time at which its command
/// was received.
#[derive(Clone, Copy, Debug, PartialEq, Eq, Structural)]
pub enum Acknowledgement {
    Started(u128),
    Stopped(u128),
}

impl Acknowledgement {
    pub open spec fn topic_spec(self) -> Seq<char> {
        match self {
            Acknowledgement::Started(_) => "start"@,
            Acknowledgement::Stopped(_) => "stop"@,
        }
    }

    /// The first frame of the acknowledgement.
    pub fn topic(&self) -> (r: &'static str)
        ensures
            r@ == self.topic_spec(),
    {
        match self {
            Acknowledgement::Started(_) => "start",
            Acknowledgement::Stopped(_) => "stop",
        }
    }

    /// The nanosecond time carried by the acknowledgement.
    pub fn timestamp(&self) -> (r: u128)
        ensures
            r == match *self {
                Acknowledgement::Started(t) => t,
                Acknowledgement::Stopped(t) => t,
            },
    {
        match self {
            Acknowledgement::Started(t) => *t,
            Acknowledgement::Stopped(t) => *t,
        }
    }
}

/// How far the reader is through a message.
pub enum ReaderModel {
    /// Waiting for the first frame of a command.
    Idle,
    /// Inside a start command, with these fields read so far.
    Start(Seq<String>),
}

/// The outcome of reading one frame.
#[derive(Clone, Debug)]
pub enum ReadStep {
    /// The command needs more frames.
    NeedMore,
    Done(Command),
    /// A start command whose numbers do not decode; it is dropped.
    Malformed(CommandDecodeError),
}

pub open spec fn read_step(m: ReaderModel, frame: String) -> (ReaderModel, ReadStep) {
    match m {
        ReaderModel::Idle => match head_of(frame@) {
            CommandHead::Start => (ReaderModel::Start(Seq::empty()), ReadStep::NeedMore),
            CommandHead::Stop => (ReaderModel::Idle, ReadStep::Done(Command::Stop)),
            CommandHead::Unknown => (ReaderModel::Idle, ReadStep::Done(Command::Unknown(frame))),
        },
        ReaderModel::Start(fs) => if fs.len() < 3 {
            (ReaderModel::Start(fs.push(frame)), ReadStep::NeedMore)
        } else {
            (
                ReaderModel::Idle,
                match decode_start_spec(fs[0], fs[1], fs[2], frame) {
                    Ok(settings) => ReadStep::Done(Command::Start(settings)),
                    Err(e) => ReadStep::Malformed(e),
                },
            )
        },
    }
}

/// Turns the ordered text frames of the control channel into commands.
pub struct CommandReader {
    in_start: bool,
    fields: Vec<String>,
}

impl View for CommandReader {
    type V = ReaderModel;

    closed spec fn view(&self) -> ReaderModel {
        if self.in_start {
            ReaderModel::Start(self.fields@)
        } else {
            ReaderModel::Idle
        }
    }
}

impl CommandReader {
    pub closed spec fn wf(&self) -> bool {
        &&& self.fields@.len() <= 3
        &&& !self.in_start ==> self.fields@.len() == 0
    }

    pub fn new() -> (r: CommandReader)
        ensures
            r@ == ReaderModel::Idle,
            r.wf(),
    {
        CommandReader { in_start: false, fields: Vec::new() }
    }

    /// Reads the next frame of the control channel.
    pub fn push(&mut self, frame: String) -> (r: ReadStep)
        requires
            old(self).wf(),
        ensures
            final(self).wf(),
            (final(self)@, r) == read_step(old(self)@, frame),
    {
        if !self.in_start {
            match classify(frame.as_str()) {
                CommandHead::Start => {
                    assert(self.fields@ =~= Seq::<String>::empty());
                    self.in_start = true;
                    ReadStep::NeedMore
                },
                CommandHead::Stop => ReadStep::Done(Command::Stop),
                CommandHead::Unknown => ReadStep::Done(Command::Unknown(frame)),
            }
        } else if self.fields.len() < 3 {
            self.fields.push(frame);
            assert(self.fields@.len() <= 3);
            ReadStep::NeedMore
        } else {
            let ghost fs = self.fields@;
            let width = self.fields.pop().unwrap();
            let fps = self.fields.pop().unwrap();
            let name = self.fields.pop().unwrap();
            assert(name == fs[0] && fps == fs[1] && width == fs[2]);
            self.in_start = false;
            match decode_start(name, fps, width, frame) {
                Ok(settings) => ReadStep::Done(Command::Start(settings)),
                Err(e) => ReadStep::Malformed(e),
            }
        }
    }
}

} // verus!
