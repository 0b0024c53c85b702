use vstd::prelude::*;
use crate::analysis::field_lookup;
use crate::analysis_service::{
    AnalysisRead, MediaInfoExtractorService, json_analysis_args, outcome_tracks,
};
use crate::error::AtiumError;
use crate::gateway::{Action, CommandManager, Event, ProbeOutcome, RunOutcome, is_run, texts};
use crate::json::JsonValue;
use crate::model::{ServiceDefaults, ThumbnailRequest, ThumbnailResponse};
use crate::paths::{compute_output_file, is_output_for};
use crate::text::is_part_before_dot;
use crate::timestamp::{clock_time_of, timestamp_choice, validate_timestamp};

verus! {

/// The arguments that extract one frame of `input` at `timestamp` into `output`.
pub open spec fn thumbnail_args(input: Seq<char>, timestamp: Seq<char>, output: Seq<char>) -> Seq<Seq<char>> {
    seq!["-i"@, input, "-ss"@, timestamp, "-vframes"@, "1"@, output]
}

/// `d` is the duration that the analysis gives: field `Duration_String3` of
/// track 0 up to its first `.`, or `default` where it cannot be read.
pub open spec fn is_duration_of(tracks: Seq<Vec<(String, JsonValue)>>, default: Seq<char>, d: Seq<char>) -> bool {
    match field_lookup(tracks, 0, "Duration_String3"@) {
        Ok(t) => is_part_before_dot(t, d),
        Err(_) => d == default,
    }
}

/// The stage a thumbnail extraction is at.
pub enum ThumbnailPhase {
    /// Waiting to learn whether a file is at the output path.
    ResolvingOutput,
    /// Waiting for the analysis of the input, for its duration.
    Analyzing,
    /// Waiting for the frame to be extracted.
    Extracting,
    /// Waiting for a tool's output to be logged, then failing with `error`.
    Reporting { error: AtiumError },
    /// Done.
    Finished { result: Result<ThumbnailResponse, AtiumError> },
}

/// A thumbnail extraction under way.
pub struct ThumbnailJob {
    /// The command of the transcoding tool.
    pub ffmpeg: String,
    /// The command of the analysis tool.
    pub mediainfo: String,
    pub input: String,
    pub output: String,
    /// The requested timestamp, before validation.
    pub timestamp: String,
    /// The input's duration, where it is already known.
    pub duration: Option<String>,
    /// The duration used where the analysis does not give one.
    pub default_duration: String,
    pub phase: ThumbnailPhase,
}

/// `new` and `action` start the extraction from `new`'s timestamp, checked
/// against `duration`: the frame is taken at the validated timestamp, and an
/// invalid timestamp ends the job.
pub open spec fn extraction_begun(new: ThumbnailJob, action: Action, duration: Seq<char>) -> bool {
    match timestamp_choice(new.timestamp@, clock_time_of(new.timestamp@), clock_time_of(duration)) {
        Some(ts) => new.phase is Extracting && is_run(
            action,
            new.ffmpeg@,
            thumbnail_args(new.input@, ts, new.output@),
        ),
        None => new.phase == (ThumbnailPhase::Finished { result: Err(AtiumError::InvalidTimestamp) })
            && action is Stop,
    }
}

/// The step from `old` to `new` on `event`, asking for `action`.
pub open spec fn thumbnail_step(old: ThumbnailJob, event: Event, new: ThumbnailJob, action: Action) -> bool {
    &&& new.ffmpeg == old.ffmpeg
    &&& new.mediainfo == old.mediainfo
    &&& new.input == old.input
    &&& new.timestamp == old.timestamp
    &&& new.duration == old.duration
    &&& new.default_duration == old.default_duration
    &&& match (old.phase, event) {
        (ThumbnailPhase::ResolvingOutput, Event::PathChecked { exists }) => {
            &&& is_output_for(old.output@, "jpeg"@, exists, new.output@)
            &&& match old.duration {
                Some(d) => extraction_begun(new, action, d@),
                None => new.phase is Analyzing && is_run(
                    action,
                    old.mediainfo@,
                    json_analysis_args(old.input@),
                ),
            }
        },
        (ThumbnailPhase::Analyzing, Event::Ran(outcome)) => {
            &&& new.output == old.output
            &&& match outcome_tracks(outcome) {
                Ok(tracks) => exists|d: Seq<char>|
                    #[trigger] is_duration_of(tracks, old.default_duration@, d) && extraction_begun(
                        new,
                        action,
                        d,
                    ),
                Err((e, None)) => new.phase == (ThumbnailPhase::Finished { result: Err(e) })
                    && action is Stop,
                Err((e, Some(bytes))) => new.phase == (ThumbnailPhase::Reporting { error: e })
                    && action == (Action::Log { bytes }),
            }
        },
        (ThumbnailPhase::Extracting, Event::Ran(RunOutcome::SpawnFailed)) => new.output == old.output
            && new.phase == (ThumbnailPhase::Finished { result: Err(AtiumError::ExecutionFailed) })
            && action is Stop,
        (ThumbnailPhase::Extracting, Event::Ran(RunOutcome::Finished(r))) => new.output == old.output
            && if r.success {
            new.phase == (ThumbnailPhase::Finished {
                result: Ok(ThumbnailResponse { output: old.output }),
            }) && action is Stop
        } else {
            new.phase == (ThumbnailPhase::Reporting { error: AtiumError::ConversionError })
                && action == (Action::Log { bytes: r.stderr })
        },
        (ThumbnailPhase::Reporting { error }, Event::Done) => new.output == old.output && new.phase == (
        ThumbnailPhase::Finished { result: Err(error) }) && action is Stop,
        _ => new == old && action is Stop,
    }
}

/// The arguments that extract one frame of `input` at `timestamp` into `output`.
pub fn build_args(input_file: String, output_file: String, timestamp: String) -> (r: Vec<String>)
    ensures
        texts(r@) == thumbnail_args(input_file@, timestamp@, output_file@),
{
    let mut args: Vec<String> = Vec::new();
    args.push(String::from_str("-i"));
    args.push(input_file);
    args.push(String::from_str("-ss"));
    args.push(timestamp);
    args.push(String::from_str("-vframes"));
    args.push(String::from_str("1"));
    args.push(output_file);
    proof {
        assert(texts(args@) =~= thumbnail_args(input_file@, timestamp@, output_file@));
    }
    args
}

/// The default thumbnail path of an input: the input's path with `.jpeg`
/// appended.
pub fn build_output_from_input_path(input_file: String) -> (r: String)
    ensures
        r@ == input_file@ + ".jpeg"@,
{
    let mut out = input_file;
    out.append(".jpeg");
    out
}

impl ThumbnailJob {
    /// Starts an extraction of a frame of `input`, into `output` or next to
    /// the input where none is given, at `timestamp` or the default one.
    /// The first thing to learn is whether a file is at the output path.
    pub fn begin(
        ffmpeg: String,
        mediainfo: String,
        input: String,
        output: Option<String>,
        timestamp: Option<String>,
        duration: Option<String>,
        defaults: &ServiceDefaults,
    ) -> (r: (ThumbnailJob, Action))
        ensures
            r.0.ffmpeg == ffmpeg,
            r.0.mediainfo == mediainfo,
            r.0.input == input,
            r.0.output@ == match output {
                Some(o) => o@,
                None => input@ + ".jpeg"@,
            },
            r.0.timestamp@ == match timestamp {
                Some(t) => t@,
                None => defaults.timestamp@,
            },
            r.0.duration == duration,
            r.0.default_duration == defaults.duration,
            r.0.phase is ResolvingOutput,
            r.1 == (Action::CheckPath { path: r.0.output }),
    {
        let output = match output {
            Some(o) => o,
            None => build_output_from_input_path(input.clone()),
        };
        let timestamp = match timestamp {
            Some(t) => t,
            None => defaults.timestamp.clone(),
        };
        let action = Action::CheckPath { path: output.clone() };
        (
            ThumbnailJob {
                ffmpeg,
                mediainfo,
                input,
                output,
                timestamp,
                duration,
                default_duration: defaults.duration.clone(),
                phase: ThumbnailPhase::ResolvingOutput,
            },
            action,
        )
    }

    /// The phase and action that start the extraction once the input's
    /// duration is known.
    fn begin_extraction(&self, duration: &String) -> (r: (ThumbnailPhase, Action))
        ensures
            extraction_begun(ThumbnailJob { phase: r.0, ..*self }, r.1, duration@),
    {
        match validate_timestamp(&self.timestamp, duration) {
            Ok(ts) => {
                let args = build_args(self.input.clone(), self.output.clone(), ts);
                (ThumbnailPhase::Extracting, Action::Run { program: self.ffmpeg.clone(), args })
            },
            Err(e) => (ThumbnailPhase::Finished { result: Err(e) }, Action::Stop),
        }
    }

    /// Moves the extraction on by one event: the extraction as it then
    /// stands, and what to do next.
    pub fn step(self, event: Event) -> (r: (ThumbnailJob, Action))
        ensures
            thumbnail_step(self, event, r.0, r.1),
    {
        let ThumbnailJob { ffmpeg, mediainfo, input, output, timestamp, duration, default_duration, phase } =
            self;
        match (phase, event) {
            (ThumbnailPhase::ResolvingOutput, Event::PathChecked { exists }) => {
                let output = match compute_output_file(&output, "jpeg", exists) {
                    Ok(o) => o,
                    Err(_) => output,
                };
                match &duration {
                    Some(d) => {
                        let job = ThumbnailJob {
                            ffmpeg,
                            mediainfo,
                            input,
                            output,
                            timestamp,
                            duration: None,
                            default_duration,
                            phase: ThumbnailPhase::ResolvingOutput,
                        };
                        let (phase, action) = job.begin_extraction(d);
                        (ThumbnailJob { phase, duration, ..job }, action)
                    },
                    None => {
                        let args = MediaInfoExtractorService::build_args(
                            crate::model::InfoFormat::Json,
                            true,
                            &input,
                        );
                        let action = Action::Run { program: mediainfo.clone(), args };
                        (
                            ThumbnailJob {
                                ffmpeg,
                                mediainfo,
                                input,
                                output,
                                timestamp,
                                duration,
                                default_duration,
                                phase: ThumbnailPhase::Analyzing,
                            },
                            action,
                        )
                    },
                }
            },
            (ThumbnailPhase::Analyzing, Event::Ran(outcome)) => {
                let ghost o = outcome;
                let job = ThumbnailJob {
                    ffmpeg,
                    mediainfo,
                    input,
                    output,
                    timestamp,
                    duration,
                    default_duration,
                    phase: ThumbnailPhase::Analyzing,
                };
                match MediaInfoExtractorService::read_analysis(outcome) {
                    AnalysisRead::Analysis(analysis) => {
                        let d = analysis.duration_or(&job.default_duration);
                        let (phase, action) = job.begin_extraction(&d);
                        let new = ThumbnailJob { phase, ..job };
                        assert(is_duration_of(outcome_tracks(o)->Ok_0, new.default_duration@, d@));
                        (new, action)
                    },
                    AnalysisRead::Failed(e) => (
                        ThumbnailJob { phase: ThumbnailPhase::Finished { result: Err(e) }, ..job },
                        Action::Stop,
                    ),
                    AnalysisRead::Report(e, bytes) => (
                        ThumbnailJob { phase: ThumbnailPhase::Reporting { error: e }, ..job },
                        Action::Log { bytes },
                    ),
                }
            },
            (ThumbnailPhase::Extracting, Event::Ran(RunOutcome::SpawnFailed)) => (
                ThumbnailJob {
                    ffmpeg,
                    mediainfo,
                    input,
                    output,
                    timestamp,
                    duration,
                    default_duration,
                    phase: ThumbnailPhase::Finished { result: Err(AtiumError::ExecutionFailed) },
                },
                Action::Stop,
            ),
            (ThumbnailPhase::Extracting, Event::Ran(RunOutcome::Finished(r))) => {
                if r.success {
                    let response = ThumbnailResponse { output: output.clone() };
                    (
                        ThumbnailJob {
                            ffmpeg,
                            mediainfo,
                            input,
                            output,
                            timestamp,
                            duration,
                            default_duration,
                            phase: ThumbnailPhase::Finished { result: Ok(response) },
                        },
                        Action::Stop,
                    )
                } else {
                    (
                        ThumbnailJob {
                            ffmpeg,
                            mediainfo,
                            input,
                            output,
                            timestamp,
                            duration,
                            default_duration,
                            phase: ThumbnailPhase::Reporting { error: AtiumError::ConversionError },
                        },
                        Action::Log { bytes: r.stderr },
                    )
                }
            },
            (ThumbnailPhase::Reporting { error }, Event::Done) => (
                ThumbnailJob {
                    ffmpeg,
                    mediainfo,
                    input,
                    output,
                    timestamp,
                    duration,
                    default_duration,
                    phase: ThumbnailPhase::Finished { result: Err(error) },
                },
                Action::Stop,
            ),
            (phase, _) => (
                ThumbnailJob {
                    ffmpeg,
                    mediainfo,
                    input,
                    output,
                    timestamp,
                    duration,
                    default_duration,
                    phase,
                },
                Action::Stop,
            ),
        }
    }

    /// The response, once the extraction has finished.
    pub fn outcome(self) -> (r: Option<Result<ThumbnailResponse, AtiumError>>)
        ensures
            match self.phase {
                ThumbnailPhase::Finished { result } => r == Some(result),
                _ => r is None,
            },
    {
        match self.phase {
            ThumbnailPhase::Finished { result } => Some(result),
            _ => None,
        }
    }
}

/// Thumbnail extraction, backed by the `ffmpeg` tool, with the analysis
/// engine for the input's duration.
pub struct FFMPEGThumbnailService {
    command_manager: CommandManager,
    analysis: MediaInfoExtractorService,
    defaults: ServiceDefaults,
}

impl FFMPEGThumbnailService {
    /// The command that runs the transcoding tool.
    pub closed spec fn program(&self) -> Seq<char> {
        self.command_manager.program()
    }

    /// The command that runs the analysis tool.
    pub closed spec fn analysis_program(&self) -> Seq<char> {
        self.analysis.program()
    }

    /// The values the service falls back on.
    pub closed spec fn defaults(&self) -> ServiceDefaults {
        self.defaults
    }

    /// The command and arguments that probe the transcoding tool.
    pub fn probe_command() -> (r: (String, Vec<String>))
        ensures
            r.0@ == "ffmpeg"@,
            texts(r.1@) == seq!["-version"@],
    {
        let mut args: Vec<String> = Vec::new();
        args.push(String::from_str("-version"));
        proof {
            assert(texts(args@) =~= seq!["-version"@]);
        }
        (String::from_str("ffmpeg"), args)
    }

    /// The service, where the probe of `ffmpeg` succeeded.
    pub fn new(probe: ProbeOutcome, analysis: MediaInfoExtractorService, defaults: ServiceDefaults) -> (r:
        Result<Self, AtiumError>)
        ensures
            match probe {
                ProbeOutcome::NotLaunched => r == Err::<Self, AtiumError>(AtiumError::UnavailableTool),
                ProbeOutcome::Exited { success } => if success {
                    r is Ok && r->Ok_0.program() == "ffmpeg"@ && r->Ok_0.analysis_program()
                        == analysis.program() && r->Ok_0.defaults() == defaults
                } else {
                    r == Err::<Self, AtiumError>(AtiumError::ProbeFailed)
                },
            },
    {
        let command_manager = CommandManager::new(String::from_str("ffmpeg"), probe)?;
        Ok(Self { command_manager, analysis, defaults })
    }

    /// Starts extracting a thumbnail for `thumbnail_request`, whose input
    /// must be given.
    pub fn extract_thumbnail(&self, thumbnail_request: ThumbnailRequest) -> (r: (ThumbnailJob, Action))
        requires
            thumbnail_request.input_file is Some,
        ensures
            r.0.ffmpeg@ == self.program(),
            r.0.mediainfo@ == self.analysis_program(),
            r.0.input == thumbnail_request.input_file->Some_0,
            r.0.output@ == match thumbnail_request.output_file {
                Some(o) => o@,
                None => r.0.input@ + ".jpeg"@,
            },
            r.0.timestamp@ == match thumbnail_request.timestamp {
                Some(t) => t@,
                None => self.defaults().timestamp@,
            },
            r.0.duration == thumbnail_request.input_duration,
            r.0.default_duration == self.defaults().duration,
            r.0.phase is ResolvingOutput,
            r.1 == (Action::CheckPath { path: r.0.output }),
    {
        let ThumbnailRequest { timestamp, input_file, output_file, input_duration } = thumbnail_request;
        let input = match input_file {
            Some(i) => i,
            None => String::new(),
        };
        ThumbnailJob::begin(
            self.command_manager.command(),
            self.analysis.command(),
            input,
            output_file,
            timestamp,
            input_duration,
            &self.defaults,
        )
    }
}

} // verus!
