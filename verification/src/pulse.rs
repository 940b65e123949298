//! What the audio mixer reports, as plain values, and what is made of it.

use vstd::prelude::*;
use crate::text::{
    chars_of, decimal, decimal_is_digits, decimal_reads_back, is_digit, is_space, parse_u32,
    parse_u32_at, strip_end, strip_end_at, strip_end_of_push, trim, trim_end, trim_end_at,
    trim_start_at, trim_start_of_padded,
};

verus! {

/// Volume and mute flag of an output device at the time of a query.
///
/// `value` is a percentage; the mixer may report more than 100 for an
/// amplified device.
#[derive(Clone, Copy, Debug, PartialEq, Eq, Structural)]
pub struct Volume {
    pub value: u32,
    pub muted: bool,
}

/// What the mixer tells of an output device: the volume of its loudest
/// channel, as the mixer prints it, and whether it is muted.
#[derive(Debug, PartialEq, Eq)]
pub struct SinkInfo {
    pub volume: String,
    pub mute: bool,
}

/// A query of the mixer brought no answer to go on.
#[derive(Clone, Copy, Debug, PartialEq, Eq, Structural)]
pub enum QueryError {
    /// The server names no default sink.
    NoDefaultSink,
    /// The server knows no sink of the name that was asked for.
    SinkNotFound,
    /// The volume that came back for the sink is no percentage.
    MalformedVolume,
}

impl QueryError {
    pub open spec fn spec_message(self) -> Seq<char> {
        match self {
            QueryError::NoDefaultSink => "No default sink"@,
            QueryError::SinkNotFound => "Sink not found"@,
            QueryError::MalformedVolume => "Malformed volume"@,
        }
    }

    /// The error in words.
    pub fn message(self) -> (message: &'static str)
        ensures
            message@ == self.spec_message(),
    {
        match self {
            QueryError::NoDefaultSink => "No default sink",
            QueryError::SinkNotFound => "Sink not found",
            QueryError::MalformedVolume => "Malformed volume",
        }
    }
}

/// A part of the connection to the mixer could not be made.
#[derive(Clone, Copy, Debug, PartialEq, Eq, Structural)]
pub enum ConnectionError {
    Proplist,
    Mainloop,
    Context,
}

impl ConnectionError {
    pub open spec fn spec_message(self) -> Seq<char> {
        match self {
            ConnectionError::Proplist => "Proplist creation failed"@,
            ConnectionError::Mainloop => "Mainloop creation failed"@,
            ConnectionError::Context => "Context creation failed"@,
        }
    }

    /// The error in words.
    pub fn message(self) -> (message: &'static str)
        ensures
            message@ == self.spec_message(),
    {
        match self {
            ConnectionError::Proplist => "Proplist creation failed",
            ConnectionError::Mainloop => "Mainloop creation failed",
            ConnectionError::Context => "Context creation failed",
        }
    }
}

/// How far the connection to the mixer has come.
#[derive(Clone, Copy, Debug, PartialEq, Eq, Structural)]
pub enum ContextState {
    Unconnected,
    Connecting,
    Authorizing,
    SettingName,
    Ready,
    Failed,
    Terminated,
}

impl ContextState {
    pub open spec fn spec_is_ready(self) -> bool {
        self == ContextState::Ready
    }

    /// Whether queries can be made. Until then the connection is waited for.
    #[verifier::when_used_as_spec(spec_is_ready)]
    pub fn is_ready(self) -> (ready: bool)
        ensures
            ready == self.spec_is_ready(),
    {
        match self {
            ContextState::Ready => true,
            _ => false,
        }
    }
}

/// How far a query of the mixer has come.
#[derive(Clone, Copy, Debug, PartialEq, Eq, Structural)]
pub enum OperationState {
    Running,
    Done,
    Cancelled,
}

impl OperationState {
    pub open spec fn spec_is_done(self) -> bool {
        self == OperationState::Done
    }

    /// Whether the answer is in. Until then the query is waited for.
    #[verifier::when_used_as_spec(spec_is_done)]
    pub fn is_done(self) -> (done: bool)
        ensures
            done == self.spec_is_done(),
    {
        match self {
            OperationState::Done => true,
            _ => false,
        }
    }
}

/// The kind of object of the mixer that a change is about.
#[derive(Clone, Copy, Debug, PartialEq, Eq, Structural)]
pub enum Facility {
    Sink,
    Source,
    SinkInput,
    SourceOutput,
    Module,
    Client,
    SampleCache,
    Server,
    Card,
}

impl Facility {
    /// The number that the mixer uses for the facility.
    pub open spec fn spec_code(self) -> u32 {
        match self {
            Facility::Sink => 0,
            Facility::Source => 1,
            Facility::SinkInput => 2,
            Facility::SourceOutput => 3,
            Facility::Module => 4,
            Facility::Client => 5,
            Facility::SampleCache => 6,
            Facility::Server => 7,
            Facility::Card => 9,
        }
    }

    /// The bit that asks the mixer for the changes of the facility: the
    /// bit at the place of the facility's number.
    pub open spec fn spec_interest(self) -> u32 {
        1u32 << self.spec_code()
    }

    #[verifier::when_used_as_spec(spec_code)]
    pub fn code(self) -> (code: u32)
        ensures
            code == self.spec_code(),
    {
        match self {
            Facility::Sink => 0,
            Facility::Source => 1,
            Facility::SinkInput => 2,
            Facility::SourceOutput => 3,
            Facility::Module => 4,
            Facility::Client => 5,
            Facility::SampleCache => 6,
            Facility::Server => 7,
            Facility::Card => 9,
        }
    }

    #[verifier::when_used_as_spec(spec_interest)]
    pub fn interest(self) -> (bit: u32)
        ensures
            bit == self.spec_interest(),
    {
        1u32 << self.code()
    }
}

/// The changes that the mixer is asked for: those of the sinks, of the
/// sink inputs and of the server.
pub open spec fn spec_interest_mask() -> u32 {
    0x085
}

#[verifier::when_used_as_spec(spec_interest_mask)]
pub fn interest_mask() -> (mask: u32)
    ensures
        mask == spec_interest_mask(),
        mask == Facility::Sink.spec_interest() | Facility::SinkInput.spec_interest()
            | Facility::Server.spec_interest(),
{
    proof {
        assert((1u32 << 0u32) | (1u32 << 2u32) | (1u32 << 7u32) == 0x085) by (bit_vector);
    }
    Facility::Sink.interest() | Facility::SinkInput.interest() | Facility::Server.interest()
}

/// The percentage in a volume as the mixer prints it: the number that is
/// left when the percent signs at the end and the white space around are
/// taken off. Where that is no number, the text holds no percentage.
pub open spec fn printed_percent(text: Seq<char>) -> Option<u32> {
    parse_u32(trim(strip_end(text, '%')))
}

/// A percentage that is printed as the mixer prints it, in decimal with
/// white space before it and a percent sign after it, is read back as it
/// was.
pub proof fn printed_percent_reads_back(pad: Seq<char>, percent: u32)
    requires
        forall|i: int| 0 <= i < pad.len() ==> is_space(#[trigger] pad[i]),
    ensures
        printed_percent(pad + decimal(percent as nat) + seq!['%']) == Some(percent),
{
    let number = decimal(percent as nat);
    let padded = pad + number;
    decimal_is_digits(percent as nat);
    decimal_reads_back(percent);
    assert(is_digit(number[0]));
    assert(is_digit(number.last()));
    assert(padded.last() == number.last());
    assert(padded + seq!['%'] =~= padded.push('%'));
    strip_end_of_push(padded, '%');
    assert(strip_end(padded, '%') == padded);
    assert(trim_end(padded) == padded);
    trim_start_of_padded(pad, number);
    assert(trim(padded) == number);
}

/// Reads the percentage out of a printed volume, if it holds one.
pub fn volume_percent(text: &str) -> (value: Option<u32>)
    ensures
        value == printed_percent(text@),
{
    let chars = chars_of(text);
    let stripped = strip_end_at(&chars, chars.len(), '%');
    let end = trim_end_at(&chars, stripped);
    let start = trim_start_at(&chars, end);
    proof {
        assert(chars@.take(chars.len() as int) =~= text@);
    }
    parse_u32_at(&chars, start, end)
}

/// The name of the default output device, from what the server reported.
pub fn get_default_sink_name(reported: Option<String>) -> (name: Result<String, QueryError>)
    ensures
        name == match reported {
            Some(sink) => Ok::<String, QueryError>(sink),
            None => Err(QueryError::NoDefaultSink),
        },
{
    match reported {
        Some(sink) => Ok(sink),
        None => Err(QueryError::NoDefaultSink),
    }
}

/// The volume of an output device, from what the mixer reported of it. A
/// sink that was not reported is an error, and so is one whose printed
/// volume is no percentage: no volume is made up for it.
pub fn get_sink_volume(reported: Option<&SinkInfo>) -> (volume: Result<Volume, QueryError>)
    ensures
        volume == match reported {
            None => Err::<Volume, QueryError>(QueryError::SinkNotFound),
            Some(info) => match printed_percent(info.volume@) {
                Some(value) => Ok(Volume { value, muted: info.mute }),
                None => Err(QueryError::MalformedVolume),
            },
        },
{
    match reported {
        None => Err(QueryError::SinkNotFound),
        Some(info) => match volume_percent(info.volume.as_str()) {
            Some(value) => Ok(Volume { value, muted: info.mute }),
            None => Err(QueryError::MalformedVolume),
        },
    }
}

} // verus!
