use vstd::prelude::*;
use crate::analysis::{AnalysisOutput, field_lookup};
use crate::analysis_service::{
    AnalysisRead, MediaInfoExtractorService, json_analysis_args, outcome_tracks,
};
use crate::error::AtiumError;
use crate::gateway::{Action, CommandManager, Event, ProbeOutcome, RunOutcome, is_run, texts};
use crate::json::JsonValue;
use crate::model::{ConversionRequest, ConversionResponse, InfoFormat, ServiceDefaults, ThumbnailRequest};
use crate::paths::{compute_output_file, is_output_for, new_token};
use crate::resolution::{OutputResolution, compute_resolution, dimensions, min_of};
use crate::text::{i32_of_text, i32_text, signed_decimal};
use crate::thumbnail_service::{ThumbnailJob, ThumbnailPhase, is_duration_of, thumbnail_step};

verus! {

/// The arguments that scale `input` to `width` by `height` into `output`.
pub open spec fn conversion_args(input: Seq<char>, width: i32, height: i32, output: Seq<char>) -> Seq<Seq<char>> {
    seq![
        "-i"@,
        input,
        "-vf"@,
        "scale="@ + signed_decimal(width as int) + ":"@ + signed_decimal(height as int),
        output,
    ]
}

/// The dimensions to convert to: those of `resolution`, lowered to the
/// source's `Width` and `Height` from track 1 where those are smaller. A
/// missing track or field, or one that is not an integer, fails.
pub open spec fn planned_scale(tracks: Seq<Vec<(String, JsonValue)>>, resolution: OutputResolution) -> Result<
    (i32, i32),
    AtiumError,
> {
    match field_lookup(tracks, 1, "Width"@) {
        Err(e) => Err(e),
        Ok(w) => match field_lookup(tracks, 1, "Height"@) {
            Err(e) => Err(e),
            Ok(h) => match (i32_of_text(w), i32_of_text(h)) {
                (Some(a), Some(b)) => Ok(
                    (
                        min_of(dimensions(resolution).0 as int, a as int) as i32,
                        min_of(dimensions(resolution).1 as int, b as int) as i32,
                    ),
                ),
                _ => Err(AtiumError::InvalidDimension),
            },
        },
    }
}

/// `p` is a path for a temporary copy: `/tmp/`, a random token, `.mp4`.
pub open spec fn is_temporary_path(p: Seq<char>) -> bool {
    exists|token: Seq<char>| p == #[trigger] temporary_path(token)
}

pub open spec fn temporary_path(token: Seq<char>) -> Seq<char> {
    "/tmp/"@ + token + ".mp4"@
}

/// The stage a conversion is at.
pub enum ConversionPhase {
    /// Waiting for the input to be copied to the temporary path.
    Copying,
    /// Waiting for the analysis of the temporary copy.
    Analyzing,
    /// Waiting to learn whether a file is at the output path.
    ResolvingOutput,
    /// Waiting for the transcoding tool.
    Transcoding,
    /// Waiting for a tool's output to be logged, then failing with `error`
    /// once the temporary copy is removed.
    Reporting { error: AtiumError },
    /// Waiting for the temporary copy to be removed, then going on or
    /// failing as `result` says.
    CleaningUp { result: Result<(), AtiumError> },
    /// The file is converted; the thumbnail is being extracted from it.
    Thumbnail { job: ThumbnailJob },
    /// Done.
    Finished { result: Result<ConversionResponse, AtiumError> },
}

/// A conversion under way.
pub struct ConversionJob {
    /// The command of the transcoding tool.
    pub ffmpeg: String,
    /// The command of the analysis tool.
    pub mediainfo: String,
    /// The temporary copy of the input.
    pub tmp: String,
    /// The requested output path, then the one resolved from it.
    pub output: String,
    pub resolution: OutputResolution,
    /// The thumbnail still to extract, where one is asked for.
    pub thumbnail_request: Option<ThumbnailRequest>,
    /// The dimensions to convert to, once the analysis is read.
    pub scale: (i32, i32),
    /// The input's duration, once the analysis is read.
    pub duration: String,
    /// The values the conversion falls back on.
    pub defaults: ServiceDefaults,
    pub phase: ConversionPhase,
}

/// `new` and `action` go on once the temporary copy is removed and the
/// conversion succeeded: a thumbnail is started where one is asked for, from
/// its own input or else the converted file, with the known duration.
pub open spec fn after_conversion(old: ConversionJob, new: ConversionJob, action: Action) -> bool {
    match old.thumbnail_request {
        None => new.phase == (ConversionPhase::Finished {
            result: Ok(ConversionResponse { output_file: old.output, thumbnail_response: None }),
        }) && action is Stop,
        Some(req) => new.phase is Thumbnail && new.thumbnail_request is None && {
            let job = new.phase->Thumbnail_job;
            &&& job.ffmpeg == old.ffmpeg
            &&& job.mediainfo == old.mediainfo
            &&& job.input == match req.input_file {
                Some(i) => i,
                None => old.output,
            }
            &&& job.output@ == match req.output_file {
                Some(o) => o@,
                None => job.input@ + ".jpeg"@,
            }
            &&& job.timestamp@ == match req.timestamp {
                Some(t) => t@,
                None => old.defaults.timestamp@,
            }
            &&& job.duration == Some(old.duration)
            &&& job.default_duration == old.defaults.duration
            &&& job.phase is ResolvingOutput
            &&& action == (Action::CheckPath { path: job.output })
        },
    }
}

/// The step from `old` to `new` on `event`, asking for `action`.
pub open spec fn conversion_step(old: ConversionJob, event: Event, new: ConversionJob, action: Action) -> bool {
    &&& new.ffmpeg == old.ffmpeg
    &&& new.mediainfo == old.mediainfo
    &&& new.tmp == old.tmp
    &&& new.resolution == old.resolution
    &&& new.defaults == old.defaults
    &&& !(old.phase is Analyzing) ==> new.scale == old.scale && new.duration == old.duration
    &&& !(old.phase is CleaningUp && new.phase is Thumbnail) ==> new.thumbnail_request
        == old.thumbnail_request
    &&& match (old.phase, event) {
        (ConversionPhase::Copying, Event::Copied { ok }) => new.output == old.output
            && new.thumbnail_request == old.thumbnail_request && if ok {
            new.phase is Analyzing && is_run(action, old.mediainfo@, json_analysis_args(old.tmp@))
        } else {
            new.phase == (ConversionPhase::Finished { result: Err(AtiumError::ConversionError) })
                && action is Stop
        },
        (ConversionPhase::Analyzing, Event::Ran(outcome)) => {
            &&& new.output == old.output
            &&& new.thumbnail_request == old.thumbnail_request
            &&& match outcome_tracks(outcome) {
                Ok(tracks) => match planned_scale(tracks, old.resolution) {
                    Ok(s) => new.scale == s && is_duration_of(tracks, old.defaults.duration@, new.duration@)
                        && new.phase is ResolvingOutput && action == (Action::CheckPath {
                        path: old.output,
                    }),
                    Err(e) => new.phase == (ConversionPhase::CleaningUp { result: Err(e) })
                        && action == (Action::Remove { path: old.tmp }),
                },
                Err((e, None)) => new.phase == (ConversionPhase::CleaningUp { result: Err(e) })
                    && action == (Action::Remove { path: old.tmp }),
                Err((e, Some(bytes))) => new.phase == (ConversionPhase::Reporting { error: e })
                    && action == (Action::Log { bytes }),
            }
        },
        (ConversionPhase::ResolvingOutput, Event::PathChecked { exists }) => {
            &&& is_output_for(old.output@, "mp4"@, exists, new.output@)
            &&& new.thumbnail_request == old.thumbnail_request
            &&& new.scale == old.scale
            &&& new.duration == old.duration
            &&& new.phase is Transcoding
            &&& is_run(action, old.ffmpeg@, conversion_args(old.tmp@, old.scale.0, old.scale.1, new.output@))
        },
        (ConversionPhase::Transcoding, Event::Ran(outcome)) => {
            &&& new.output == old.output
            &&& new.thumbnail_request == old.thumbnail_request
            &&& new.duration == old.duration
            &&& match outcome {
                RunOutcome::SpawnFailed => new.phase == (ConversionPhase::CleaningUp {
                    result: Err(AtiumError::ExecutionFailed),
                }) && action == (Action::Remove { path: old.tmp }),
                RunOutcome::Finished(r) => if r.success {
                    new.phase == (ConversionPhase::CleaningUp { result: Ok(()) }) && action == (
                    Action::Remove { path: old.tmp })
                } else {
                    new.phase == (ConversionPhase::Reporting { error: AtiumError::ConversionError })
                        && action == (Action::Log { bytes: r.stderr })
                },
            }
        },
        (ConversionPhase::Reporting { error }, Event::Done) => new.output == old.output
            && new.thumbnail_request == old.thumbnail_request && new.phase == (
        ConversionPhase::CleaningUp { result: Err(error) }) && action == (Action::Remove {
            path: old.tmp,
        }),
        (ConversionPhase::CleaningUp { result }, Event::Removed { .. }) => new.output == old.output
            && match result {
            Err(e) => new.phase == (ConversionPhase::Finished { result: Err(e) }) && action is Stop,
            Ok(_) => after_conversion(old, new, action),
        },
        (ConversionPhase::Thumbnail { job }, _) => new.output == old.output && new.phase is Thumbnail
            && thumbnail_step(job, event, new.phase->Thumbnail_job, action),
        _ => new == old && action is Stop,
    }
}

/// What a conversion that has ended gives: its own result, or, after a
/// thumbnail extraction, the converted file with the thumbnail where it
/// succeeded. A failed thumbnail does not fail the conversion.
pub open spec fn conversion_result(job: ConversionJob) -> Option<Result<ConversionResponse, AtiumError>> {
    match job.phase {
        ConversionPhase::Finished { result } => Some(result),
        ConversionPhase::Thumbnail { job: t } => match t.phase {
            ThumbnailPhase::Finished { result } => Some(
                Ok(
                    ConversionResponse {
                        output_file: job.output,
                        thumbnail_response: match result {
                            Ok(r) => Some(r),
                            Err(_) => None,
                        },
                    },
                ),
            ),
            _ => None,
        },
        _ => None,
    }
}

/// The arguments that scale `input` to `width` by `height` into `output`.
fn scale_args(input: String, width: i32, height: i32, output: String) -> (r: Vec<String>)
    ensures
        texts(r@) == conversion_args(input@, width, height, output@),
{
    let mut filter = String::from_str("scale=");
    filter.append(i32_text(width).as_str());
    filter.append(":");
    filter.append(i32_text(height).as_str());
    let mut args: Vec<String> = Vec::new();
    args.push(String::from_str("-i"));
    args.push(input);
    args.push(String::from_str("-vf"));
    args.push(filter);
    args.push(output);
    proof {
        assert(texts(args@) =~= conversion_args(input@, width, height, output@));
    }
    args
}

/// The dimensions to convert an analyzed source to.
fn scale_for(analysis: &AnalysisOutput, resolution: OutputResolution) -> (r: Result<(i32, i32), AtiumError>)
    ensures
        r == planned_scale(analysis.tracks(), resolution),
{
    let width = analysis.extract_field_from_track(1, &String::from_str("Width"))?;
    let height = analysis.extract_field_from_track(1, &String::from_str("Height"))?;
    compute_resolution(resolution, (width, height))
}

impl ConversionJob {
    /// Moves the conversion on by one event: the conversion as it then
    /// stands, and what to do next.
    pub fn step(self, event: Event) -> (r: (ConversionJob, Action))
        ensures
            conversion_step(self, event, r.0, r.1),
    {
        let ConversionJob {
            ffmpeg,
            mediainfo,
            tmp,
            output,
            resolution,
            thumbnail_request,
            scale,
            duration,
            defaults,
            phase,
        } = self;
        match (phase, event) {
            (ConversionPhase::Copying, Event::Copied { ok }) => {
                let (phase, action) = if ok {
                    let args = MediaInfoExtractorService::build_args(InfoFormat::Json, true, &tmp);
                    (ConversionPhase::Analyzing, Action::Run { program: mediainfo.clone(), args })
                } else {
                    (ConversionPhase::Finished { result: Err(AtiumError::ConversionError) }, Action::Stop)
                };
                (
                    ConversionJob {
                        ffmpeg,
                        mediainfo,
                        tmp,
                        output,
                        resolution,
                        thumbnail_request,
                        scale,
                        duration,
                        defaults,
                        phase,
                    },
                    action,
                )
            },
            (ConversionPhase::Analyzing, Event::Ran(outcome)) => {
                let remove = Action::Remove { path: tmp.clone() };
                let job = ConversionJob {
                    ffmpeg,
                    mediainfo,
                    tmp,
                    output,
                    resolution,
                    thumbnail_request,
                    scale,
                    duration,
                    defaults,
                    phase: ConversionPhase::Analyzing,
                };
                match MediaInfoExtractorService::read_analysis(outcome) {
                    AnalysisRead::Analysis(analysis) => match scale_for(&analysis, job.resolution) {
                        Ok(s) => {
                            let d = analysis.duration_or(&job.defaults.duration);
                            let check = Action::CheckPath { path: job.output.clone() };
                            (
                                ConversionJob {
                                    scale: s,
                                    duration: d,
                                    phase: ConversionPhase::ResolvingOutput,
                                    ..job
                                },
                                check,
                            )
                        },
                        Err(e) => (
                            ConversionJob {
                                phase: ConversionPhase::CleaningUp { result: Err(e) },
                                ..job
                            },
                            remove,
                        ),
                    },
                    AnalysisRead::Failed(e) => (
                        ConversionJob { phase: ConversionPhase::CleaningUp { result: Err(e) }, ..job },
                        remove,
                    ),
                    AnalysisRead::Report(e, bytes) => (
                        ConversionJob { phase: ConversionPhase::Reporting { error: e }, ..job },
                        Action::Log { bytes },
                    ),
                }
            },
            (ConversionPhase::ResolvingOutput, Event::PathChecked { exists }) => {
                let output = match compute_output_file(&output, "mp4", exists) {
                    Ok(o) => o,
                    Err(_) => output,
                };
                let args = scale_args(tmp.clone(), scale.0, scale.1, output.clone());
                let action = Action::Run { program: ffmpeg.clone(), args };
                (
                    ConversionJob {
                        ffmpeg,
                        mediainfo,
                        tmp,
                        output,
                        resolution,
                        thumbnail_request,
                        scale,
                        duration,
                        defaults,
                        phase: ConversionPhase::Transcoding,
                    },
                    action,
                )
            },
            (ConversionPhase::Transcoding, Event::Ran(outcome)) => {
                let (phase, action) = match outcome {
                    RunOutcome::SpawnFailed => (
                        ConversionPhase::CleaningUp { result: Err(AtiumError::ExecutionFailed) },
                        Action::Remove { path: tmp.clone() },
                    ),
                    RunOutcome::Finished(r) => {
                        if r.success {
                            (
                                ConversionPhase::CleaningUp { result: Ok(()) },
                                Action::Remove { path: tmp.clone() },
                            )
                        } else {
                            (
                                ConversionPhase::Reporting { error: AtiumError::ConversionError },
                                Action::Log { bytes: r.stderr },
                            )
                        }
                    },
                };
                (
                    ConversionJob {
                        ffmpeg,
                        mediainfo,
                        tmp,
                        output,
                        resolution,
                        thumbnail_request,
                        scale,
                        duration,
                        defaults,
                        phase,
                    },
                    action,
                )
            },
            (ConversionPhase::Reporting { error }, Event::Done) => {
                let action = Action::Remove { path: tmp.clone() };
                (
                    ConversionJob {
                        ffmpeg,
                        mediainfo,
                        tmp,
                        output,
                        resolution,
                        thumbnail_request,
                        scale,
                        duration,
                        defaults,
                        phase: ConversionPhase::CleaningUp { result: Err(error) },
                    },
                    action,
                )
            },
            (ConversionPhase::CleaningUp { result }, Event::Removed { .. }) => {
                match result {
                    Err(e) => (
                        ConversionJob {
                            ffmpeg,
                            mediainfo,
                            tmp,
                            output,
                            resolution,
                            thumbnail_request,
                            scale,
                            duration,
                            defaults,
                            phase: ConversionPhase::Finished { result: Err(e) },
                        },
                        Action::Stop,
                    ),
                    Ok(()) => match thumbnail_request {
                        None => {
                            let response = ConversionResponse {
                                output_file: output.clone(),
                                thumbnail_response: None,
                            };
                            (
                                ConversionJob {
                                    ffmpeg,
                                    mediainfo,
                                    tmp,
                                    output,
                                    resolution,
                                    thumbnail_request: None,
                                    scale,
                                    duration,
                                    defaults,
                                    phase: ConversionPhase::Finished { result: Ok(response) },
                                },
                                Action::Stop,
                            )
                        },
                        Some(req) => {
                            let ThumbnailRequest { timestamp, input_file, output_file, input_duration: _ } =
                                req;
                            let input = match input_file {
                                Some(i) => i,
                                None => output.clone(),
                            };
                            let (job, action) = ThumbnailJob::begin(
                                ffmpeg.clone(),
                                mediainfo.clone(),
                                input,
                                output_file,
                                timestamp,
                                Some(duration.clone()),
                                &defaults,
                            );
                            (
                                ConversionJob {
                                    ffmpeg,
                                    mediainfo,
                                    tmp,
                                    output,
                                    resolution,
                                    thumbnail_request: None,
                                    scale,
                                    duration,
                                    defaults,
                                    phase: ConversionPhase::Thumbnail { job },
                                },
                                action,
                            )
                        },
                    },
                }
            },
            (ConversionPhase::Thumbnail { job }, event) => {
                let (job, action) = job.step(event);
                (
                    ConversionJob {
                        ffmpeg,
                        mediainfo,
                        tmp,
                        output,
                        resolution,
                        thumbnail_request,
                        scale,
                        duration,
                        defaults,
                        phase: ConversionPhase::Thumbnail { job },
                    },
                    action,
                )
            },
            (phase, _) => (
                ConversionJob {
                    ffmpeg,
                    mediainfo,
                    tmp,
                    output,
                    resolution,
                    thumbnail_request,
                    scale,
                    duration,
                    defaults,
                    phase,
                },
                Action::Stop,
            ),
        }
    }

    /// The response, once the conversion has ended.
    pub fn outcome(self) -> (r: Option<Result<ConversionResponse, AtiumError>>)
        ensures
            r == conversion_result(self),
    {
        let output = self.output;
        match self.phase {
            ConversionPhase::Finished { result } => Some(result),
            ConversionPhase::Thumbnail { job } => match job.outcome() {
                Some(result) => Some(
                    Ok(
                        ConversionResponse {
                            output_file: output,
                            thumbnail_response: match result {
                                Ok(r) => Some(r),
                                Err(_) => None,
                            },
                        },
                    ),
                ),
                None => None,
            },
            _ => None,
        }
    }
}

/// Video conversion, backed by the `ffmpeg` tool, with the analysis engine
/// for the source's dimensions and duration.
pub struct FFMPEGConversionService {
    command_manager: CommandManager,
    analysis: MediaInfoExtractorService,
    defaults: ServiceDefaults,
}

impl FFMPEGConversionService {
    /// The command that runs the transcoding tool.
    pub closed spec fn program(&self) -> Seq<char> {
        self.command_manager.program()
    }

    /// The command that runs the analysis tool.
    pub closed spec fn analysis_program(&self) -> Seq<char> {
        self.analysis.program()
    }

    /// The values the service falls back on.
    pub closed spec fn defaults(&self) -> ServiceDefaults {
        self.defaults
    }

    /// The service, where the probe of `ffmpeg` succeeded.
    pub fn new(probe: ProbeOutcome, analysis: MediaInfoExtractorService, defaults: ServiceDefaults) -> (r:
        Result<Self, AtiumError>)
        ensures
            match probe {
                ProbeOutcome::NotLaunched => r == Err::<Self, AtiumError>(AtiumError::UnavailableTool),
                ProbeOutcome::Exited { success } => if success {
                    r is Ok && r->Ok_0.program() == "ffmpeg"@ && r->Ok_0.analysis_program()
                        == analysis.program() && r->Ok_0.defaults() == defaults
                } else {
                    r == Err::<Self, AtiumError>(AtiumError::ProbeFailed)
                },
            },
    {
        let command_manager = CommandManager::new(String::from_str("ffmpeg"), probe)?;
        Ok(Self { command_manager, analysis, defaults })
    }

    /// A fresh temporary path to copy a source to.
    pub fn temporary_copy_path() -> (r: String)
        ensures
            is_temporary_path(r@),
    {
        let token = new_token();
        let mut path = String::from_str("/tmp/");
        path.append(token.as_str());
        path.append(".mp4");
        proof {
            assert(path@ == temporary_path(token@));
        }
        path
    }

    /// The arguments that convert `input_file_path` to the resolution into
    /// `output_file`, given the source's analysis.
    pub fn build_args(
        resolution: OutputResolution,
        analysis_output: &AnalysisOutput,
        input_file_path: String,
        output_file: String,
    ) -> (r: Result<Vec<String>, AtiumError>)
        ensures
            match planned_scale(analysis_output.tracks(), resolution) {
                Ok(s) => r is Ok && texts(r->Ok_0@) == conversion_args(
                    input_file_path@,
                    s.0,
                    s.1,
                    output_file@,
                ),
                Err(e) => r == Err::<Vec<String>, AtiumError>(e),
            },
    {
        let (width, height) = scale_for(analysis_output, resolution)?;
        Ok(scale_args(input_file_path, width, height, output_file))
    }

    /// Starts a conversion: the input is first copied to a temporary path.
    pub fn convert(&self, conversion_request: ConversionRequest) -> (r: (ConversionJob, Action))
        ensures
            r.0.ffmpeg@ == self.program(),
            r.0.mediainfo@ == self.analysis_program(),
            is_temporary_path(r.0.tmp@),
            r.0.output == conversion_request.output.file,
            r.0.resolution == conversion_request.output.resolution,
            r.0.thumbnail_request == conversion_request.output.thumbnail_request,
            r.0.defaults == self.defaults(),
            r.0.phase is Copying,
            r.1 == (Action::Copy { from: conversion_request.input.file_name, to: r.0.tmp }),
    {
        let ConversionRequest { input, output } = conversion_request;
        let tmp = Self::temporary_copy_path();
        let action = Action::Copy { from: input.file_name, to: tmp.clone() };
        (
            ConversionJob {
                ffmpeg: self.command_manager.command(),
                mediainfo: self.analysis.command(),
                tmp,
                output: output.file,
                resolution: output.resolution,
                thumbnail_request: output.thumbnail_request,
                scale: (0, 0),
                duration: String::new(),
                defaults: self.defaults.duplicate(),
                phase: ConversionPhase::Copying,
            },
            action,
        )
    }
}

} // verus!
