//! The data that the extraction logic reads, and the errors it reports.

use vstd::prelude::*;
use vstd::string::*;

verus! {

/// An embedded image: its raw bytes and the MIME type its tag declares, if any.
#[derive(Debug)]
pub struct Picture {
    pub data: Vec<u8>,
    pub mime_type: Option<String>,
}

/// A metadata block: its embedded pictures in the order the block lists them.
#[derive(Debug)]
pub struct Tag {
    pub pictures: Vec<Picture>,
}

/// A playback duration: whole seconds and the nanoseconds beyond them.
#[derive(Clone, Copy, Debug, PartialEq, Eq)]
pub struct StreamDuration {
    pub secs: u64,
    pub subsec_nanos: u32,
}

/// Nanoseconds in one second.
pub const NANOS_PER_SEC: u32 = 1_000_000_000u32;

impl StreamDuration {
    /// The nanosecond part is a proper fraction of a second.
    pub open spec fn wf(self) -> bool {
        self.subsec_nanos < NANOS_PER_SEC
    }

    /// A duration of `secs` seconds and `subsec_nanos` nanoseconds, unless the
    /// nanoseconds amount to a second or more.
    pub fn new(secs: u64, subsec_nanos: u32) -> (made: Option<StreamDuration>)
        ensures
            made == (if subsec_nanos < NANOS_PER_SEC {
                Some(StreamDuration { secs, subsec_nanos })
            } else {
                None
            }),
    {
        if subsec_nanos < NANOS_PER_SEC {
            Some(StreamDuration { secs, subsec_nanos })
        } else {
            None
        }
    }
}

/// One parsed audio file: its tag blocks in file order, the position among them
/// of the tag that the format designates as primary, and the stream duration.
#[derive(Debug)]
pub struct AudioContainer {
    pub tags: Vec<Tag>,
    pub primary: Option<usize>,
    pub duration: StreamDuration,
}

impl AudioContainer {
    /// The primary position, if any, points at one of the tags, and the
    /// duration is well formed.
    pub open spec fn wf(self) -> bool {
        &&& self.duration.wf()
        &&& match self.primary {
            Some(i) => i < self.tags@.len(),
            None => true,
        }
    }

    /// A container of these parts, unless `primary` points past the tags or
    /// the duration is not well formed.
    pub fn new(tags: Vec<Tag>, primary: Option<usize>, duration: StreamDuration) -> (made: Option<
        AudioContainer,
    >)
        ensures
            made is Some <==> (AudioContainer { tags, primary, duration }).wf(),
            made is Some ==> made->Some_0 == (AudioContainer { tags, primary, duration }),
    {
        let in_range = match primary {
            Some(i) => i < tags.len(),
            None => true,
        };
        if in_range && duration.subsec_nanos < NANOS_PER_SEC {
            Some(AudioContainer { tags, primary, duration })
        } else {
            None
        }
    }
}

/// Why an extraction failed.
#[derive(Debug)]
pub enum ExtractionError {
    /// The file could not be opened or parsed; holds the parser's own words.
    ReadFailed(String),
    /// The file was parsed and holds no tag at all.
    NoMetadata,
    /// The temporary file could not be written; holds the system's own words.
    IoFailed(String),
}

/// An `ExtractionError` with its texts as sequences of characters.
pub enum Failure {
    ReadFailed(Seq<char>),
    NoMetadata,
    IoFailed(Seq<char>),
}

impl View for ExtractionError {
    type V = Failure;

    open spec fn view(&self) -> Failure {
        match *self {
            ExtractionError::ReadFailed(cause) => Failure::ReadFailed(cause@),
            ExtractionError::NoMetadata => Failure::NoMetadata,
            ExtractionError::IoFailed(cause) => Failure::IoFailed(cause@),
        }
    }
}

/// The text shown for a failure.
pub open spec fn failure_message(failure: Failure) -> Seq<char> {
    match failure {
        Failure::ReadFailed(cause) => "Failed to read audio file: "@ + cause,
        Failure::NoMetadata => "No metadata found in audio file"@,
        Failure::IoFailed(cause) => "Failed to write temp file: "@ + cause,
    }
}

impl ExtractionError {
    /// The human-readable text of this error.
    pub fn message(&self) -> (text: String)
        ensures
            text@ == failure_message(self@),
    {
        match self {
            ExtractionError::ReadFailed(cause) => {
                String::from_str("Failed to read audio file: ").concat(cause.as_str())
            },
            ExtractionError::NoMetadata => String::from_str("No metadata found in audio file"),
            ExtractionError::IoFailed(cause) => {
                String::from_str("Failed to write temp file: ").concat(cause.as_str())
            },
        }
    }
}

} // verus!
