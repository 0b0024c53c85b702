use vstd::prelude::*;
use crate::resolution::OutputResolution;
use crate::text::{lower_of, lowercase};

verus! {

/// A copy of an optional text.
pub fn copy_text(t: &Option<String>) -> (r: Option<String>)
    ensures
        r == *t,
{
    match t {
        Some(s) => Some(s.clone()),
        None => None,
    }
}

/// The values the composite services fall back on.
pub struct ServiceDefaults {
    /// The thumbnail timestamp used where none is requested.
    pub timestamp: String,
    /// The duration used where the analysis does not give one.
    pub duration: String,
}

impl ServiceDefaults {
    /// One second into the media for both.
    pub fn standard() -> (r: ServiceDefaults)
        ensures
            r.timestamp@ == "00:00:01"@,
            r.duration@ == "00:00:01"@,
    {
        ServiceDefaults { timestamp: String::from_str("00:00:01"), duration: String::from_str("00:00:01") }
    }

    /// The same values once more.
    pub fn duplicate(&self) -> (r: ServiceDefaults)
        ensures
            r == *self,
    {
        ServiceDefaults { timestamp: self.timestamp.clone(), duration: self.duration.clone() }
    }
}

/// A thumbnail extraction request.
pub struct ThumbnailRequest {
    /// A timestamp of the form `hh:mm:ss`.
    pub timestamp: Option<String>,
    /// The file to take the thumbnail from.
    pub input_file: Option<String>,
    /// Where to save the thumbnail.
    pub output_file: Option<String>,
    /// The input's duration in `hh:mm:ss` form, where it is already known.
    pub input_duration: Option<String>,
}

impl ThumbnailRequest {
    /// A request, or none where neither an input nor an output is given.
    pub fn new(timestamp: &Option<String>, input_file: &Option<String>, output_file: &Option<String>) -> (r:
        Option<ThumbnailRequest>)
        ensures
            (input_file is None && output_file is None) <==> r is None,
            r is Some ==> r->Some_0 == (ThumbnailRequest {
                timestamp: *timestamp,
                input_file: *input_file,
                output_file: *output_file,
                input_duration: None,
            }),
    {
        if output_file.is_none() && input_file.is_none() {
            return None;
        }
        Some(
            ThumbnailRequest {
                timestamp: copy_text(timestamp),
                input_file: copy_text(input_file),
                output_file: copy_text(output_file),
                input_duration: None,
            },
        )
    }
}

/// Where a thumbnail was saved.
pub struct ThumbnailResponse {
    pub output: String,
}

/// The formats the analysis tool can write.
#[derive(Debug, Clone, Copy, PartialEq, Eq, Structural)]
pub enum InfoFormat {
    Json,
    Html,
    Xml,
}

/// The format that a lower-case name stands for; JSON for any other name.
pub open spec fn format_named(name: Seq<char>) -> InfoFormat {
    if name == "html"@ {
        InfoFormat::Html
    } else if name == "xml"@ {
        InfoFormat::Xml
    } else {
        InfoFormat::Json
    }
}

/// The format that an already lower-cased name stands for.
pub fn format_from_lowercase(name: &String) -> (r: InfoFormat)
    ensures
        r == format_named(name@),
{
    if *name == String::from_str("html") {
        InfoFormat::Html
    } else if *name == String::from_str("xml") {
        InfoFormat::Xml
    } else {
        InfoFormat::Json
    }
}

/// Reads a format name, ignoring case: `json`, `html` or `xml`; any other
/// name gives JSON.
pub fn parse_info_format(input: Option<String>) -> (r: Option<InfoFormat>)
    ensures
        match input {
            Some(s) => r == Some(format_named(lower_of(s@))),
            None => r is None,
        },
{
    match input {
        Some(format) => Some(format_from_lowercase(&lowercase(format.as_str()))),
        None => None,
    }
}

/// Where an analysis goes.
#[derive(Debug, Clone, Copy, PartialEq, Eq, Structural)]
pub enum InfoOutputType {
    /// Printed to standard output.
    Stdout,
    /// Written to a file.
    File,
    /// Returned as text.
    Plain,
}

/// The output type that a lower-case name stands for: `file` gives `File`,
/// any other name `Stdout`.
pub open spec fn output_type_named(name: Seq<char>) -> InfoOutputType {
    if name == "file"@ {
        InfoOutputType::File
    } else {
        InfoOutputType::Stdout
    }
}

/// The output type that an already lower-cased name stands for.
pub fn output_type_from_lowercase(name: &String) -> (r: InfoOutputType)
    ensures
        r == output_type_named(name@),
{
    if *name == String::from_str("file") {
        InfoOutputType::File
    } else {
        InfoOutputType::Stdout
    }
}

/// Reads an output type name, ignoring case: `std` or `file`; any other name
/// gives `Stdout`.
pub fn parse_info_output_type(input: Option<String>) -> (r: Option<InfoOutputType>)
    ensures
        match input {
            Some(s) => r == Some(output_type_named(lower_of(s@))),
            None => r is None,
        },
{
    match input {
        Some(name) => Some(output_type_from_lowercase(&lowercase(name.as_str()))),
        None => None,
    }
}

/// A request to analyze a media file.
pub struct InfoExtractorRequest {
    /// The file to analyze.
    pub input: String,
    /// The format of the analysis; JSON where none is given.
    pub format: Option<InfoFormat>,
    /// Whether the full analysis is wanted; it is where none is given.
    pub full: Option<bool>,
    /// The file to write the analysis to, for `File` output; a fresh name
    /// where none or an empty one is given.
    pub output_file: Option<String>,
    /// Where the analysis goes; standard output where none is given.
    pub output_type: Option<InfoOutputType>,
}

/// Where an analysis went.
pub struct InfoExtractorResponseOutput {
    /// The file the analysis was written to, for `File` output.
    pub file: Option<String>,
    /// The analysis itself, for `Plain` output.
    pub content: Option<String>,
}

/// The answer to an analysis request.
pub struct InfoExtractorResponse {
    pub output: InfoExtractorResponseOutput,
}

/// The engine used for conversion.
#[derive(Debug, Clone, Copy, PartialEq, Eq, Structural)]
pub enum ConversionEngine {
    Ffmpeg,
}

/// Where a conversion's input comes from.
#[derive(Debug, Clone, Copy, PartialEq, Eq, Structural)]
pub enum InputSourceType {
    Local,
}

/// A conversion's input file and where it comes from.
pub struct ConversionInput {
    pub source_type: InputSourceType,
    pub file_name: String,
}

/// Output codec options.
#[derive(Debug, Clone, Copy, PartialEq, Eq, Structural)]
pub enum OutputCodec {
    H264,
}

/// Conversion output options.
pub struct ConversionOutput {
    pub file: String,
    pub resolution: OutputResolution,
    pub codec: OutputCodec,
    pub thumbnail_request: Option<ThumbnailRequest>,
}

/// A conversion request: its input and its output options.
pub struct ConversionRequest {
    pub input: ConversionInput,
    pub output: ConversionOutput,
}

/// Where the converted file was written, and the thumbnail taken from it
/// where one was asked for and could be extracted.
pub struct ConversionResponse {
    pub output_file: String,
    pub thumbnail_response: Option<ThumbnailResponse>,
}

} // verus!
