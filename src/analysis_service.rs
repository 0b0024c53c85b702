use vstd::prelude::*;
use vstd::utf8::{decode_utf8, valid_utf8};
use crate::analysis::{AnalysisOutput, MediaInfoJsonLoader, analysis_of_text};
use crate::error::AtiumError;
use crate::json::JsonValue;
use crate::gateway::{Action, CommandManager, Event, ProbeOutcome, RunOutcome, is_run, texts};
use crate::model::{
    InfoExtractorRequest, InfoExtractorResponse, InfoExtractorResponseOutput, InfoFormat,
    InfoOutputType,
};
use crate::paths::new_token;

verus! {

/// The flag that selects an analysis format.
pub open spec fn format_flag(format: InfoFormat) -> Seq<char> {
    match format {
        InfoFormat::Json => "--output=JSON"@,
        InfoFormat::Html => "--output=HTML"@,
        InfoFormat::Xml => "--output=XML"@,
    }
}

/// The file extension of an analysis format, with its dot.
pub open spec fn format_extension(format: InfoFormat) -> Seq<char> {
    match format {
        InfoFormat::Json => ".json"@,
        InfoFormat::Html => ".html"@,
        InfoFormat::Xml => ".xml"@,
    }
}

/// The arguments that analyze `input`: the format flag, `--full` where the
/// full analysis is wanted, and the input.
pub open spec fn analysis_args(format: InfoFormat, full: bool, input: Seq<char>) -> Seq<Seq<char>> {
    if full {
        seq![format_flag(format), "--full"@, input]
    } else {
        seq![format_flag(format), input]
    }
}

/// The format a request asks for, JSON by default.
pub open spec fn requested_format(request: InfoExtractorRequest) -> InfoFormat {
    match request.format {
        Some(f) => f,
        None => InfoFormat::Json,
    }
}

/// Whether a request asks for the full analysis, which it does by default.
pub open spec fn requested_full(request: InfoExtractorRequest) -> bool {
    match request.full {
        Some(b) => b,
        None => true,
    }
}

/// Where a request's analysis goes, standard output by default.
pub open spec fn requested_output_type(request: InfoExtractorRequest) -> InfoOutputType {
    match request.output_type {
        Some(t) => t,
        None => InfoOutputType::Stdout,
    }
}

/// The arguments that carry out a request.
pub open spec fn request_args(request: InfoExtractorRequest) -> Seq<Seq<char>> {
    analysis_args(requested_format(request), requested_full(request), request.input@)
}

/// The arguments that read the full JSON analysis of `input`.
pub open spec fn json_analysis_args(input: Seq<char>) -> Seq<Seq<char>> {
    analysis_args(InfoFormat::Json, true, input)
}

/// `path` is a file name for an analysis: the requested name where one that
/// is not empty is given, else a random token, followed by the format's
/// extension.
pub open spec fn is_analysis_path(output_file: Option<String>, format: InfoFormat, path: Seq<char>) -> bool {
    let target = match output_file {
        Some(s) => s@,
        None => Seq::<char>::empty(),
    };
    if target.len() > 0 {
        path == target + format_extension(format)
    } else {
        exists|token: Seq<char>| path == #[trigger] token.add(format_extension(format))
    }
}

/// What the tool's output gives when an analysis is read back as JSON.
pub enum AnalysisRead {
    /// The analysis.
    Analysis(AnalysisOutput),
    /// It failed.
    Failed(AtiumError),
    /// It failed, and these bytes that the tool wrote go to the log first.
    Report(AtiumError, Vec<u8>),
}

/// What the outcome of a run of `analyze_json` gives: the tracks, or an
/// error with what goes to the log first. A run that could not start fails
/// to execute; one that failed reports its standard output, where the
/// analysis tool writes its errors; output that is not UTF-8 fails to read;
/// text that is not an analysis is malformed.
pub open spec fn outcome_tracks(outcome: RunOutcome) -> Result<
    Seq<Vec<(String, JsonValue)>>,
    (AtiumError, Option<Vec<u8>>),
> {
    match outcome {
        RunOutcome::SpawnFailed => Err((AtiumError::ExecutionFailed, None)),
        RunOutcome::Finished(r) => if !r.success {
            Err((AtiumError::CommandError, Some(r.stdout)))
        } else if !valid_utf8(r.stdout@) {
            Err((AtiumError::IOError, None))
        } else {
            match analysis_of_text(decode_utf8(r.stdout@)) {
                Some(tracks) => Ok(tracks),
                None => Err((AtiumError::MalformedAnalysis, None)),
            }
        },
    }
}

/// `read` is what `read_analysis` gives for `outcome`.
pub open spec fn analysis_read_from(outcome: RunOutcome, read: AnalysisRead) -> bool {
    match outcome_tracks(outcome) {
        Ok(tracks) => read is Analysis && read->Analysis_0.tracks() == tracks,
        Err((e, None)) => read == AnalysisRead::Failed(e),
        Err((e, Some(bytes))) => read == AnalysisRead::Report(e, bytes),
    }
}

/// The stage an analysis request is at.
pub enum InfoPhase {
    /// Waiting for the analysis tool to run.
    Running,
    /// Waiting for the analysis to be printed.
    Printing,
    /// Waiting for the analysis to be written to `path`.
    Writing { path: String },
    /// Waiting for the tool's output to be logged, then failing with `error`.
    Reporting { error: AtiumError },
    /// Done.
    Finished { result: Result<InfoExtractorResponse, AtiumError> },
}

/// An analysis request under way.
pub struct InfoJob {
    pub format: InfoFormat,
    pub output_type: InfoOutputType,
    pub output_file: Option<String>,
    pub phase: InfoPhase,
}

/// `r` is a response with neither a file nor a content.
pub open spec fn is_bare_response(r: Result<InfoExtractorResponse, AtiumError>) -> bool {
    r is Ok && r->Ok_0.output.file is None && r->Ok_0.output.content is None
}

/// The step from `old` to `new` on `event`, asking for `action`.
pub open spec fn info_step(old: InfoJob, event: Event, new: InfoJob, action: Action) -> bool {
    &&& new.format == old.format
    &&& new.output_type == old.output_type
    &&& new.output_file == old.output_file
    &&& match (old.phase, event) {
        (InfoPhase::Running, Event::Ran(RunOutcome::SpawnFailed)) => new.phase == (InfoPhase::Finished {
            result: Err(AtiumError::ExecutionFailed),
        }) && action is Stop,
        (InfoPhase::Running, Event::Ran(RunOutcome::Finished(r))) => if !r.success {
            new.phase == (InfoPhase::Reporting { error: AtiumError::CommandError }) && action == (
            Action::Log { bytes: r.stdout })
        } else {
            match old.output_type {
                InfoOutputType::Stdout => new.phase is Printing && action == (Action::Print {
                    bytes: r.stdout,
                }),
                InfoOutputType::File => new.phase is Writing && is_analysis_path(
                    old.output_file,
                    old.format,
                    new.phase->Writing_path@,
                ) && action == (Action::Write { path: new.phase->Writing_path, bytes: r.stdout }),
                InfoOutputType::Plain => action is Stop && new.phase is Finished && if valid_utf8(
                    r.stdout@,
                ) {
                    new.phase->Finished_result is Ok
                        && new.phase->Finished_result->Ok_0.output.file is None
                        && new.phase->Finished_result->Ok_0.output.content == Some(
                        new.phase->Finished_result->Ok_0.output.content->Some_0,
                    ) && new.phase->Finished_result->Ok_0.output.content->Some_0@ == decode_utf8(
                        r.stdout@,
                    )
                } else {
                    new.phase->Finished_result == Err::<InfoExtractorResponse, AtiumError>(
                        AtiumError::IOError,
                    )
                },
            }
        },
        (InfoPhase::Printing, Event::Done) => new.phase is Finished && is_bare_response(
            new.phase->Finished_result,
        ) && action is Stop,
        (InfoPhase::Writing { path }, Event::Written { ok }) => new.phase is Finished && action is Stop
            && if ok {
            new.phase->Finished_result is Ok && new.phase->Finished_result->Ok_0.output.file == Some(
                path,
            ) && new.phase->Finished_result->Ok_0.output.content is None
        } else {
            new.phase->Finished_result == Err::<InfoExtractorResponse, AtiumError>(
                AtiumError::IOError,
            )
        },
        (InfoPhase::Reporting { error }, Event::Done) => new.phase == (InfoPhase::Finished {
            result: Err(error),
        }) && action is Stop,
        _ => new == old && action is Stop,
    }
}

/// A response to a request whose analysis went elsewhere.
fn bare_response() -> (r: InfoExtractorResponse)
    ensures
        r.output.file is None && r.output.content is None,
{
    InfoExtractorResponse { output: InfoExtractorResponseOutput { file: None, content: None } }
}

/// The file name for a `File` analysis: the requested one, or a random
/// token where it is absent or empty, with the format's extension.
fn analysis_path(output_file: &Option<String>, format: InfoFormat) -> (r: String)
    ensures
        is_analysis_path(*output_file, format, r@),
{
    let mut id = match output_file {
        Some(s) => s.clone(),
        None => String::new(),
    };
    let empty = id.unicode_len() == 0;
    if empty {
        id = new_token();
    }
    let ghost token = id@;
    let extension = match format {
        InfoFormat::Json => ".json",
        InfoFormat::Html => ".html",
        InfoFormat::Xml => ".xml",
    };
    id.append(extension);
    proof {
        if empty {
            assert(id@ == token.add(format_extension(format)));
        }
    }
    id
}

impl InfoJob {
    /// Moves the request on by one event: the request as it then stands,
    /// and what to do next.
    pub fn step(self, event: Event) -> (r: (InfoJob, Action))
        ensures
            info_step(self, event, r.0, r.1),
    {
        let InfoJob { format, output_type, output_file, phase } = self;
        let (phase, action) = match (phase, event) {
            (InfoPhase::Running, Event::Ran(RunOutcome::SpawnFailed)) => (
                InfoPhase::Finished { result: Err(AtiumError::ExecutionFailed) },
                Action::Stop,
            ),
            (InfoPhase::Running, Event::Ran(RunOutcome::Finished(r))) => {
                if !r.success {
                    (InfoPhase::Reporting { error: AtiumError::CommandError }, Action::Log { bytes: r.stdout })
                } else {
                    match output_type {
                        InfoOutputType::Stdout => (InfoPhase::Printing, Action::Print { bytes: r.stdout }),
                        InfoOutputType::File => {
                            let path = analysis_path(&output_file, format);
                            (InfoPhase::Writing { path: path.clone() }, Action::Write { path, bytes: r.stdout })
                        },
                        InfoOutputType::Plain => {
                            let result = match crate::text::utf8_text(r.stdout) {
                                Some(s) => Ok(
                                    InfoExtractorResponse {
                                        output: InfoExtractorResponseOutput { file: None, content: Some(s) },
                                    },
                                ),
                                None => Err(AtiumError::IOError),
                            };
                            (InfoPhase::Finished { result }, Action::Stop)
                        },
                    }
                }
            },
            (InfoPhase::Printing, Event::Done) => (
                InfoPhase::Finished { result: Ok(bare_response()) },
                Action::Stop,
            ),
            (InfoPhase::Writing { path }, Event::Written { ok }) => {
                let result = if ok {
                    Ok(
                        InfoExtractorResponse {
                            output: InfoExtractorResponseOutput { file: Some(path), content: None },
                        },
                    )
                } else {
                    Err(AtiumError::IOError)
                };
                (InfoPhase::Finished { result }, Action::Stop)
            },
            (InfoPhase::Reporting { error }, Event::Done) => (
                InfoPhase::Finished { result: Err(error) },
                Action::Stop,
            ),
            (phase, _) => (phase, Action::Stop),
        };
        (InfoJob { format, output_type, output_file, phase }, action)
    }

    /// The response, once the request has finished.
    pub fn outcome(self) -> (r: Option<Result<InfoExtractorResponse, AtiumError>>)
        ensures
            match self.phase {
                InfoPhase::Finished { result } => r == Some(result),
                _ => r is None,
            },
    {
        match self.phase {
            InfoPhase::Finished { result } => Some(result),
            _ => None,
        }
    }
}

/// The analysis engine, backed by the `mediainfo` tool.
pub struct MediaInfoExtractorService {
    command_manager: CommandManager,
}

impl MediaInfoExtractorService {
    /// The command that runs the tool.
    pub closed spec fn program(&self) -> Seq<char> {
        self.command_manager.program()
    }

    /// The command and arguments that probe the tool.
    pub fn probe_command() -> (r: (String, Vec<String>))
        ensures
            r.0@ == "mediainfo"@,
            texts(r.1@) == seq!["--Version"@],
    {
        let mut args: Vec<String> = Vec::new();
        args.push(String::from_str("--Version"));
        proof {
            assert(texts(args@) =~= seq!["--Version"@]);
        }
        (String::from_str("mediainfo"), args)
    }

    /// The service, where the probe of `mediainfo` succeeded.
    pub fn new(probe: ProbeOutcome) -> (r: Result<Self, AtiumError>)
        ensures
            match probe {
                ProbeOutcome::NotLaunched => r == Err::<Self, AtiumError>(AtiumError::UnavailableTool),
                ProbeOutcome::Exited { success } => if success {
                    r is Ok && r->Ok_0.program() == "mediainfo"@
                } else {
                    r == Err::<Self, AtiumError>(AtiumError::ProbeFailed)
                },
            },
    {
        let command_manager = CommandManager::new(String::from_str("mediainfo"), probe)?;
        Ok(Self { command_manager })
    }

    /// The command that runs the tool.
    pub fn command(&self) -> (r: String)
        ensures
            r@ == self.program(),
    {
        self.command_manager.command()
    }

    /// The arguments that analyze `input` in `format`, fully or not.
    pub fn build_args(format: InfoFormat, full: bool, input: &String) -> (r: Vec<String>)
        ensures
            texts(r@) == analysis_args(format, full, input@),
    {
        let mut args: Vec<String> = Vec::new();
        match format {
            InfoFormat::Json => args.push(String::from_str("--output=JSON")),
            InfoFormat::Html => args.push(String::from_str("--output=HTML")),
            InfoFormat::Xml => args.push(String::from_str("--output=XML")),
        }
        if full {
            args.push(String::from_str("--full"));
        }
        args.push(input.clone());
        proof {
            assert(texts(args@) =~= analysis_args(format, full, input@));
        }
        args
    }

    /// Starts an analysis: the request under way, and the run of the tool
    /// that it waits for.
    pub fn get_info(&self, request: InfoExtractorRequest) -> (r: (InfoJob, Action))
        ensures
            r.0.phase is Running,
            r.0.format == requested_format(request),
            r.0.output_type == requested_output_type(request),
            r.0.output_file == request.output_file,
            is_run(r.1, self.program(), request_args(request)),
    {
        let format = match request.format {
            Some(f) => f,
            None => InfoFormat::Json,
        };
        let full = match request.full {
            Some(b) => b,
            None => true,
        };
        let output_type = match request.output_type {
            Some(t) => t,
            None => InfoOutputType::Stdout,
        };
        let args = Self::build_args(format, full, &request.input);
        let action = self.command_manager.execute_with_args(args);
        (InfoJob { format, output_type, output_file: request.output_file, phase: InfoPhase::Running }, action)
    }

    /// The action that reads the full JSON analysis of `input`.
    pub fn analyze_json(&self, input: &String) -> (r: Action)
        ensures
            is_run(r, self.program(), json_analysis_args(input@)),
    {
        self.command_manager.execute_with_args(Self::build_args(InfoFormat::Json, true, input))
    }

    /// Reads the analysis back from the outcome of `analyze_json`.
    pub fn read_analysis(outcome: RunOutcome) -> (r: AnalysisRead)
        ensures
            analysis_read_from(outcome, r),
    {
        match outcome {
            RunOutcome::SpawnFailed => AnalysisRead::Failed(AtiumError::ExecutionFailed),
            RunOutcome::Finished(r) => {
                if !r.success {
                    return AnalysisRead::Report(AtiumError::CommandError, r.stdout);
                }
                match crate::text::utf8_text(r.stdout) {
                    Some(text) => {
                        let loader = MediaInfoJsonLoader {};
                        match loader.load_json_from_string(&text) {
                            Ok(analysis) => AnalysisRead::Analysis(analysis),
                            Err(e) => AnalysisRead::Failed(e),
                        }
                    },
                    None => AnalysisRead::Failed(AtiumError::IOError),
                }
            },
        }
    }
}

/// An analysis engine: it turns a request into an analysis under way and
/// the run of its tool.
pub trait InfoExtractorService {
    /// Starts an analysis of `request.input`.
    fn get_info(&self, request: InfoExtractorRequest) -> (r: (InfoJob, Action))
        ensures
            r.0.phase is Running,
            r.0.format == requested_format(request),
            r.0.output_type == requested_output_type(request),
            r.0.output_file == request.output_file,
            r.1 is Run,
    ;
}

impl InfoExtractorService for MediaInfoExtractorService {
    fn get_info(&self, request: InfoExtractorRequest) -> (r: (InfoJob, Action)) {
        MediaInfoExtractorService::get_info(self, request)
    }
}

/// The analysis engines.
#[derive(Debug, Clone, Copy, PartialEq, Eq, Structural)]
pub enum InfoExtractorEngine {
    MediaInfo,
}

/// Builds the analysis service of an engine.
pub struct InfoExtractorBuilder {}

impl InfoExtractorBuilder {
    /// The service of `engine`, where the probe of its tool succeeded.
    pub fn new(engine: InfoExtractorEngine, probe: ProbeOutcome) -> (r: Result<
        MediaInfoExtractorService,
        AtiumError,
    >)
        ensures
            match probe {
                ProbeOutcome::NotLaunched => r == Err::<MediaInfoExtractorService, AtiumError>(
                    AtiumError::UnavailableTool,
                ),
                ProbeOutcome::Exited { success } => if success {
                    r is Ok && r->Ok_0.program() == "mediainfo"@
                } else {
                    r == Err::<MediaInfoExtractorService, AtiumError>(AtiumError::ProbeFailed)
                },
            },
    {
        match engine {
            InfoExtractorEngine::MediaInfo => MediaInfoExtractorService::new(probe),
        }
    }
}

} // verus!
