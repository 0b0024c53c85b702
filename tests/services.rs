use atium::analysis_service::MediaInfoExtractorService;
use atium::conversion_service::FFMPEGConversionService;
use atium::error::AtiumError;
use atium::gateway::{Action, CommandManager, Event, ExecutionResult, ProbeOutcome, RunOutcome};
use atium::model::{
    ConversionInput, ConversionOutput, ConversionRequest, InfoExtractorRequest, InfoFormat,
    InfoOutputType, InputSourceType, OutputCodec, ServiceDefaults, ThumbnailRequest,
};
use atium::resolution::OutputResolution;
use atium::thumbnail_service::FFMPEGThumbnailService;

fn analysis_json(width: &str, height: &str, duration: &str) -> Vec<u8> {
    format!(
        r#"{{"media": {{"track": [{{"@type": "General", "Duration_String3": "{}"}}, {{"@type": "Video", "Width": "{}", "Height": "{}"}}]}}}}"#,
        duration, width, height
    )
    .into_bytes()
}

fn ran(success: bool, stdout: &[u8], stderr: &[u8]) -> Event {
    Event::Ran(RunOutcome::Finished(ExecutionResult {
        success,
        stdout: stdout.to_vec(),
        stderr: stderr.to_vec(),
    }))
}

fn mediainfo() -> MediaInfoExtractorService {
    MediaInfoExtractorService::new(ProbeOutcome::Exited { success: true }).ok().unwrap()
}

fn run_parts(action: &Action) -> (String, Vec<String>) {
    match action {
        Action::Run { program, args } => (program.clone(), args.clone()),
        _ => panic!("expected a run"),
    }
}

fn strs(v: &[&str]) -> Vec<String> {
    v.iter().map(|s| s.to_string()).collect()
}

#[test]
fn probe_outcomes() {
    assert_eq!(
        CommandManager::new("x".to_string(), ProbeOutcome::NotLaunched).err(),
        Some(AtiumError::UnavailableTool)
    );
    assert_eq!(
        CommandManager::new("x".to_string(), ProbeOutcome::Exited { success: false }).err(),
        Some(AtiumError::ProbeFailed)
    );
    let handle = CommandManager::new("x".to_string(), ProbeOutcome::Exited { success: true }).ok().unwrap();
    assert_eq!(handle.command(), "x");
    assert!(MediaInfoExtractorService::new(ProbeOutcome::NotLaunched).is_err());
    let (cmd, args) = MediaInfoExtractorService::probe_command();
    assert_eq!((cmd, args), ("mediainfo".to_string(), strs(&["--Version"])));
    let (cmd, args) = FFMPEGThumbnailService::probe_command();
    assert_eq!((cmd, args), ("ffmpeg".to_string(), strs(&["-version"])));
}

#[test]
fn output_as_string() {
    let handle = CommandManager::new("x".to_string(), ProbeOutcome::Exited { success: true }).ok().unwrap();
    assert_eq!(handle.get_command_output_as_string(b"h\xc3\xa9".to_vec()).unwrap(), "hé");
    assert_eq!(handle.get_command_output_as_string(vec![0xff]).err(), Some(AtiumError::IOError));
}

#[test]
fn analysis_plain_returns_content() {
    let service = mediainfo();
    let request = InfoExtractorRequest {
        input: "/v.mp4".to_string(),
        format: None,
        full: None,
        output_file: None,
        output_type: Some(InfoOutputType::Plain),
    };
    let (job, action) = service.get_info(request);
    assert_eq!(run_parts(&action), ("mediainfo".to_string(), strs(&["--output=JSON", "--full", "/v.mp4"])));
    let (job, action) = job.step(ran(true, b"{}", b""));
    assert!(matches!(action, Action::Stop));
    let response = job.outcome().unwrap().ok().unwrap();
    assert_eq!(response.output.content, Some("{}".to_string()));
    assert_eq!(response.output.file, None);
}

#[test]
fn analysis_args_follow_the_request() {
    let service = mediainfo();
    let request = InfoExtractorRequest {
        input: "in".to_string(),
        format: Some(InfoFormat::Xml),
        full: Some(false),
        output_file: None,
        output_type: None,
    };
    let (_, action) = service.get_info(request);
    assert_eq!(run_parts(&action).1, strs(&["--output=XML", "in"]));
}

#[test]
fn analysis_failure_logs_stdout_then_fails() {
    let service = mediainfo();
    let request = InfoExtractorRequest {
        input: "in".to_string(),
        format: None,
        full: None,
        output_file: None,
        output_type: None,
    };
    let (job, _) = service.get_info(request);
    let (job, action) = job.step(ran(false, b"bad input", b""));
    match action {
        Action::Log { bytes } => assert_eq!(bytes, b"bad input".to_vec()),
        _ => panic!("expected a log"),
    }
    let (job, action) = job.step(Event::Done);
    assert!(matches!(action, Action::Stop));
    assert_eq!(job.outcome().unwrap().err(), Some(AtiumError::CommandError));
}

#[test]
fn analysis_spawn_failure() {
    let service = mediainfo();
    let request = InfoExtractorRequest {
        input: "in".to_string(),
        format: None,
        full: None,
        output_file: None,
        output_type: None,
    };
    let (job, _) = service.get_info(request);
    let (job, _) = job.step(Event::Ran(RunOutcome::SpawnFailed));
    assert_eq!(job.outcome().unwrap().err(), Some(AtiumError::ExecutionFailed));
}

#[test]
fn analysis_stdout_prints() {
    let service = mediainfo();
    let request = InfoExtractorRequest {
        input: "in".to_string(),
        format: None,
        full: None,
        output_file: None,
        output_type: None,
    };
    let (job, _) = service.get_info(request);
    let (job, action) = job.step(ran(true, b"report", b""));
    match action {
        Action::Print { bytes } => assert_eq!(bytes, b"report".to_vec()),
        _ => panic!("expected a print"),
    }
    let (job, _) = job.step(Event::Done);
    let response = job.outcome().unwrap().ok().unwrap();
    assert_eq!(response.output.file, None);
    assert_eq!(response.output.content, None);
}

#[test]
fn analysis_file_output() {
    let service = mediainfo();
    let request = InfoExtractorRequest {
        input: "in".to_string(),
        format: Some(InfoFormat::Html),
        full: None,
        output_file: Some("/tmp/report".to_string()),
        output_type: Some(InfoOutputType::File),
    };
    let (job, _) = service.get_info(request);
    let (job, action) = job.step(ran(true, b"<html/>", b""));
    match &action {
        Action::Write { path, bytes } => {
            assert_eq!(path, "/tmp/report.html");
            assert_eq!(bytes, &b"<html/>".to_vec());
        }
        _ => panic!("expected a write"),
    }
    let (job, _) = job.step(Event::Written { ok: true });
    assert_eq!(job.outcome().unwrap().ok().unwrap().output.file, Some("/tmp/report.html".to_string()));

    let request = InfoExtractorRequest {
        input: "in".to_string(),
        format: None,
        full: None,
        output_file: Some(String::new()),
        output_type: Some(InfoOutputType::File),
    };
    let (job, _) = service.get_info(request);
    let (job, action) = job.step(ran(true, b"{}", b""));
    match &action {
        Action::Write { path, .. } => {
            assert!(path.ends_with(".json"));
            assert!(path.len() > ".json".len());
        }
        _ => panic!("expected a write"),
    }
    let (job, _) = job.step(Event::Written { ok: false });
    assert_eq!(job.outcome().unwrap().err(), Some(AtiumError::IOError));
}

#[test]
fn unexpected_event_changes_nothing() {
    let service = mediainfo();
    let request = InfoExtractorRequest {
        input: "in".to_string(),
        format: None,
        full: None,
        output_file: None,
        output_type: Some(InfoOutputType::Plain),
    };
    let (job, _) = service.get_info(request);
    let (job, action) = job.step(Event::Done);
    assert!(matches!(action, Action::Stop));
    assert!(job.outcome().is_none());
}

fn thumbnail_service() -> FFMPEGThumbnailService {
    FFMPEGThumbnailService::new(ProbeOutcome::Exited { success: true }, mediainfo(), ServiceDefaults::standard()).ok().unwrap()
}

#[test]
fn thumbnail_past_the_end_uses_the_start() {
    let service = thumbnail_service();
    let request = ThumbnailRequest {
        timestamp: Some("00:02:00".to_string()),
        input_file: Some("/v.mp4".to_string()),
        output_file: Some("/t.jpeg".to_string()),
        input_duration: None,
    };
    let (job, action) = service.extract_thumbnail(request);
    match &action {
        Action::CheckPath { path } => assert_eq!(path, "/t.jpeg"),
        _ => panic!("expected a path check"),
    }
    let (job, action) = job.step(Event::PathChecked { exists: false });
    assert_eq!(run_parts(&action), ("mediainfo".to_string(), strs(&["--output=JSON", "--full", "/v.mp4"])));
    let (job, action) = job.step(ran(true, &analysis_json("640", "480", "00:01:30.500"), b""));
    assert_eq!(
        run_parts(&action),
        ("ffmpeg".to_string(), strs(&["-i", "/v.mp4", "-ss", "00:00:00.000", "-vframes", "1", "/t.jpeg"]))
    );
    let (job, action) = job.step(ran(true, b"", b""));
    assert!(matches!(action, Action::Stop));
    assert_eq!(job.outcome().unwrap().ok().unwrap().output, "/t.jpeg");
}

#[test]
fn thumbnail_defaults() {
    let service = thumbnail_service();
    let request = ThumbnailRequest {
        timestamp: None,
        input_file: Some("/v.mp4".to_string()),
        output_file: None,
        input_duration: Some("00:00:30".to_string()),
    };
    let (job, action) = service.extract_thumbnail(request);
    match &action {
        Action::CheckPath { path } => assert_eq!(path, "/v.mp4.jpeg"),
        _ => panic!("expected a path check"),
    }
    let (_, action) = job.step(Event::PathChecked { exists: false });
    assert_eq!(run_parts(&action).1, strs(&["-i", "/v.mp4", "-ss", "00:00:01", "-vframes", "1", "/v.mp4.jpeg"]));
}

#[test]
fn thumbnail_output_taken_is_renamed() {
    let service = thumbnail_service();
    let request = ThumbnailRequest {
        timestamp: Some("00:00:02".to_string()),
        input_file: Some("/v.mp4".to_string()),
        output_file: Some("/x/shot.png".to_string()),
        input_duration: Some("00:00:30".to_string()),
    };
    let (job, _) = service.extract_thumbnail(request);
    let (_, action) = job.step(Event::PathChecked { exists: true });
    let args = run_parts(&action).1;
    assert_eq!(args[3], "00:00:02");
    assert!(args[6].starts_with("shot-"));
    assert!(args[6].ends_with(".png"));
}

#[test]
fn thumbnail_extraction_failure() {
    let service = thumbnail_service();
    let request = ThumbnailRequest {
        timestamp: None,
        input_file: Some("/v.mp4".to_string()),
        output_file: Some("/t.jpeg".to_string()),
        input_duration: Some("00:00:30".to_string()),
    };
    let (job, _) = service.extract_thumbnail(request);
    let (job, _) = job.step(Event::PathChecked { exists: false });
    let (job, action) = job.step(ran(false, b"", b"no frame"));
    match action {
        Action::Log { bytes } => assert_eq!(bytes, b"no frame".to_vec()),
        _ => panic!("expected a log"),
    }
    let (job, _) = job.step(Event::Done);
    assert_eq!(job.outcome().unwrap().err(), Some(AtiumError::ConversionError));
}

#[test]
fn thumbnail_bad_timestamp_fails() {
    let service = thumbnail_service();
    let request = ThumbnailRequest {
        timestamp: Some("soon".to_string()),
        input_file: Some("/v.mp4".to_string()),
        output_file: Some("/t.jpeg".to_string()),
        input_duration: Some("00:00:30".to_string()),
    };
    let (job, _) = service.extract_thumbnail(request);
    let (job, action) = job.step(Event::PathChecked { exists: false });
    assert!(matches!(action, Action::Stop));
    assert_eq!(job.outcome().unwrap().err(), Some(AtiumError::InvalidTimestamp));
}

#[test]
fn thumbnail_malformed_analysis_fails() {
    let service = thumbnail_service();
    let request = ThumbnailRequest {
        timestamp: None,
        input_file: Some("/v.mp4".to_string()),
        output_file: Some("/t.jpeg".to_string()),
        input_duration: None,
    };
    let (job, _) = service.extract_thumbnail(request);
    let (job, _) = job.step(Event::PathChecked { exists: false });
    let (job, _) = job.step(ran(true, b"[1]", b""));
    assert_eq!(job.outcome().unwrap().err(), Some(AtiumError::MalformedAnalysis));
}

fn conversion_request(resolution: OutputResolution, thumbnail: Option<ThumbnailRequest>) -> ConversionRequest {
    ConversionRequest {
        input: ConversionInput { source_type: InputSourceType::Local, file_name: "/in.mp4".to_string() },
        output: ConversionOutput {
            file: "/out.mp4".to_string(),
            resolution,
            codec: OutputCodec::H264,
            thumbnail_request: thumbnail,
        },
    }
}

fn conversion_service() -> FFMPEGConversionService {
    FFMPEGConversionService::new(ProbeOutcome::Exited { success: true }, mediainfo(), ServiceDefaults::standard()).ok().unwrap()
}

#[test]
fn hd_conversion_of_a_small_source_keeps_its_size() {
    let service = conversion_service();
    let (job, action) = service.convert(conversion_request(OutputResolution::Hd, None));
    let tmp = match &action {
        Action::Copy { from, to } => {
            assert_eq!(from, "/in.mp4");
            assert!(to.starts_with("/tmp/") && to.ends_with(".mp4"));
            to.clone()
        }
        _ => panic!("expected a copy"),
    };
    let (job, action) = job.step(Event::Copied { ok: true });
    assert_eq!(run_parts(&action), ("mediainfo".to_string(), strs(&["--output=JSON", "--full", &tmp])));
    let (job, action) = job.step(ran(true, &analysis_json("640", "480", "00:01:30.500"), b""));
    match &action {
        Action::CheckPath { path } => assert_eq!(path, "/out.mp4"),
        _ => panic!("expected a path check"),
    }
    let (job, action) = job.step(Event::PathChecked { exists: false });
    assert_eq!(
        run_parts(&action),
        ("ffmpeg".to_string(), strs(&["-i", &tmp, "-vf", "scale=640:480", "/out.mp4"]))
    );
    let (job, action) = job.step(ran(true, b"", b""));
    match &action {
        Action::Remove { path } => assert_eq!(path, &tmp),
        _ => panic!("expected a removal"),
    }
    let (job, action) = job.step(Event::Removed { ok: false });
    assert!(matches!(action, Action::Stop));
    let response = job.outcome().unwrap().ok().unwrap();
    assert_eq!(response.output_file, "/out.mp4");
    assert!(response.thumbnail_response.is_none());
}

#[test]
fn conversion_downscales_a_large_source() {
    let service = conversion_service();
    let (job, _) = service.convert(conversion_request(OutputResolution::Hd, None));
    let (job, _) = job.step(Event::Copied { ok: true });
    let (job, _) = job.step(ran(true, &analysis_json("1920", "1080", "00:01:30.500"), b""));
    let (_, action) = job.step(Event::PathChecked { exists: false });
    assert_eq!(run_parts(&action).1[3], "scale=1280:720");
}

#[test]
fn conversion_copy_failure() {
    let service = conversion_service();
    let (job, _) = service.convert(conversion_request(OutputResolution::Hd, None));
    let (job, action) = job.step(Event::Copied { ok: false });
    assert!(matches!(action, Action::Stop));
    assert_eq!(job.outcome().unwrap().err(), Some(AtiumError::ConversionError));
}

#[test]
fn conversion_bad_dimension_cleans_up() {
    let service = conversion_service();
    let (job, _) = service.convert(conversion_request(OutputResolution::Hd, None));
    let (job, _) = job.step(Event::Copied { ok: true });
    let (job, action) = job.step(ran(true, &analysis_json("wide", "480", "00:01:30.500"), b""));
    assert!(matches!(action, Action::Remove { .. }));
    let (job, _) = job.step(Event::Removed { ok: true });
    assert_eq!(job.outcome().unwrap().err(), Some(AtiumError::InvalidDimension));
}

#[test]
fn conversion_failure_logs_and_cleans_up() {
    let service = conversion_service();
    let (job, _) = service.convert(conversion_request(OutputResolution::Sd, None));
    let (job, _) = job.step(Event::Copied { ok: true });
    let (job, _) = job.step(ran(true, &analysis_json("1920", "1080", "00:01:30.500"), b""));
    let (job, _) = job.step(Event::PathChecked { exists: false });
    let (job, action) = job.step(ran(false, b"", b"codec error"));
    assert!(matches!(action, Action::Log { .. }));
    let (job, action) = job.step(Event::Done);
    assert!(matches!(action, Action::Remove { .. }));
    let (job, _) = job.step(Event::Removed { ok: true });
    assert_eq!(job.outcome().unwrap().err(), Some(AtiumError::ConversionError));
}

#[test]
fn conversion_spawn_failure_cleans_up() {
    let service = conversion_service();
    let (job, _) = service.convert(conversion_request(OutputResolution::Sd, None));
    let (job, _) = job.step(Event::Copied { ok: true });
    let (job, _) = job.step(Event::Ran(RunOutcome::SpawnFailed));
    let (job, _) = job.step(Event::Removed { ok: true });
    assert_eq!(job.outcome().unwrap().err(), Some(AtiumError::ExecutionFailed));
}

#[test]
fn conversion_missing_track_fails() {
    let service = conversion_service();
    let (job, _) = service.convert(conversion_request(OutputResolution::Sd, None));
    let (job, _) = job.step(Event::Copied { ok: true });
    let (job, _) = job.step(ran(true, br#"{"media": {"track": [{}]}}"#, b""));
    let (job, _) = job.step(Event::Removed { ok: true });
    assert_eq!(job.outcome().unwrap().err(), Some(AtiumError::TrackNotFound));
}

#[test]
fn conversion_with_thumbnail() {
    let service = conversion_service();
    let thumbnail = ThumbnailRequest {
        timestamp: Some("00:02:00".to_string()),
        input_file: None,
        output_file: Some("/thumb.jpeg".to_string()),
        input_duration: None,
    };
    let (job, _) = service.convert(conversion_request(OutputResolution::Hd, Some(thumbnail)));
    let (job, _) = job.step(Event::Copied { ok: true });
    let (job, _) = job.step(ran(true, &analysis_json("640", "480", "00:01:30.500"), b""));
    let (job, _) = job.step(Event::PathChecked { exists: false });
    let (job, _) = job.step(ran(true, b"", b""));
    let (job, action) = job.step(Event::Removed { ok: true });
    match &action {
        Action::CheckPath { path } => assert_eq!(path, "/thumb.jpeg"),
        _ => panic!("expected a path check"),
    }
    let (job, action) = job.step(Event::PathChecked { exists: false });
    assert_eq!(
        run_parts(&action),
        ("ffmpeg".to_string(), strs(&["-i", "/out.mp4", "-ss", "00:00:00.000", "-vframes", "1", "/thumb.jpeg"]))
    );
    let (job, _) = job.step(ran(true, b"", b""));
    let response = job.outcome().unwrap().ok().unwrap();
    assert_eq!(response.output_file, "/out.mp4");
    assert_eq!(response.thumbnail_response.unwrap().output, "/thumb.jpeg");
}

#[test]
fn conversion_thumbnail_failure_is_swallowed() {
    let service = conversion_service();
    let thumbnail = ThumbnailRequest {
        timestamp: Some("bad".to_string()),
        input_file: None,
        output_file: None,
        input_duration: None,
    };
    let (job, _) = service.convert(conversion_request(OutputResolution::Hd, Some(thumbnail)));
    let (job, _) = job.step(Event::Copied { ok: true });
    let (job, _) = job.step(ran(true, &analysis_json("640", "480", "00:01:30.500"), b""));
    let (job, _) = job.step(Event::PathChecked { exists: false });
    let (job, _) = job.step(ran(true, b"", b""));
    let (job, action) = job.step(Event::Removed { ok: true });
    match &action {
        Action::CheckPath { path } => assert_eq!(path, "/out.mp4.jpeg"),
        _ => panic!("expected a path check"),
    }
    let (job, action) = job.step(Event::PathChecked { exists: false });
    assert!(matches!(action, Action::Stop));
    let response = job.outcome().unwrap().ok().unwrap();
    assert_eq!(response.output_file, "/out.mp4");
    assert!(response.thumbnail_response.is_none());
}

#[test]
fn defaults_can_be_overridden() {
    let defaults = ServiceDefaults { timestamp: "00:00:05".to_string(), duration: "00:00:03".to_string() };
    let service = FFMPEGThumbnailService::new(ProbeOutcome::Exited { success: true }, mediainfo(), defaults)
        .ok()
        .unwrap();
    let request = ThumbnailRequest {
        timestamp: None,
        input_file: Some("/v.mp4".to_string()),
        output_file: Some("/t.jpeg".to_string()),
        input_duration: None,
    };
    let (job, _) = service.extract_thumbnail(request);
    let (job, _) = job.step(Event::PathChecked { exists: false });
    let (_, action) = job.step(ran(true, br#"{"media": {"track": [{"@type": "General"}]}}"#, b""));
    assert_eq!(run_parts(&action).1[3], "00:00:00.000");

    let defaults = ServiceDefaults { timestamp: "00:00:02".to_string(), duration: "00:00:03".to_string() };
    let service = FFMPEGThumbnailService::new(ProbeOutcome::Exited { success: true }, mediainfo(), defaults)
        .ok()
        .unwrap();
    let request = ThumbnailRequest {
        timestamp: None,
        input_file: Some("/v.mp4".to_string()),
        output_file: Some("/t.jpeg".to_string()),
        input_duration: None,
    };
    let (job, _) = service.extract_thumbnail(request);
    let (job, _) = job.step(Event::PathChecked { exists: false });
    let (_, action) = job.step(ran(true, br#"{"media": {"track": [{"@type": "General"}]}}"#, b""));
    assert_eq!(run_parts(&action).1[3], "00:00:02");
}

#[test]
fn standard_defaults() {
    let defaults = ServiceDefaults::standard();
    assert_eq!(defaults.timestamp, "00:00:01");
    assert_eq!(defaults.duration, "00:00:01");
}

#[test]
fn conversion_probe_failure() {
    assert_eq!(
        FFMPEGConversionService::new(ProbeOutcome::NotLaunched, mediainfo(), ServiceDefaults::standard()).err().map(|_| ()),
        Some(())
    );
}
