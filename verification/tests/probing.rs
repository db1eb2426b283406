use ffmpeg_supervisor::error::ProcessError;
use ffmpeg_supervisor::event::StreamKind;
use ffmpeg_supervisor::probe::{
    conclude_media_info_probe, conclude_version_probe, media_info_arguments, plan_version_probe,
    version_arguments, version_from_report, ProbePlan, ToolRun,
};

fn exited(success: bool, stdout: &[u8], stderr: &[u8]) -> ToolRun {
    ToolRun::Exited { success, stdout: stdout.to_vec(), stderr: stderr.to_vec() }
}

#[test]
fn version_is_asked_for_with_one_flag() {
    assert_eq!(version_arguments(), vec!["-version".to_string()]);
}

#[test]
fn media_info_is_asked_for_without_banner() {
    assert_eq!(
        media_info_arguments("/media/movie.m2ts"),
        vec!["-i".to_string(), "/media/movie.m2ts".to_string(), "-hide_banner".to_string()]
    );
    assert_eq!(
        media_info_arguments(""),
        vec!["-i".to_string(), String::new(), "-hide_banner".to_string()]
    );
}

#[test]
fn version_probe_of_a_missing_path_fails_and_runs_nothing() {
    for is_file in [false, true] {
        assert_eq!(
            plan_version_probe("/no/such/ffmpeg", false, is_file),
            ProbePlan::Fail {
                error: ProcessError::ExecutableNotFound { path: "/no/such/ffmpeg".to_string() }
            }
        );
    }
}

#[test]
fn version_probe_of_a_directory_fails_and_runs_nothing() {
    assert_eq!(
        plan_version_probe("/usr/bin", true, false),
        ProbePlan::Fail { error: ProcessError::NotARegularFile { path: "/usr/bin".to_string() } }
    );
}

#[test]
fn version_probe_of_a_regular_file_runs_the_tool() {
    assert_eq!(
        plan_version_probe("/usr/bin/ffmpeg", true, true),
        ProbePlan::Run { arguments: vec!["-version".to_string()] }
    );
}

#[test]
fn version_is_the_first_line_of_standard_output() {
    let stdout = b"ffmpeg version 7.0 Copyright (c) 2000-2024 the FFmpeg developers\nbuilt with gcc 13.2.0\n";
    assert_eq!(
        conclude_version_probe(exited(true, stdout, b"ignored")),
        Ok("ffmpeg version 7.0 Copyright (c) 2000-2024 the FFmpeg developers".to_string())
    );
    assert_eq!(
        conclude_version_probe(exited(true, b"ffmpeg version 7.0\r\nmore", b"")),
        Ok("ffmpeg version 7.0".to_string())
    );
    assert_eq!(
        conclude_version_probe(exited(true, b"one line only", b"")),
        Ok("one line only".to_string())
    );
}

#[test]
fn tool_that_exits_non_zero_fails_with_its_diagnostics() {
    let stderr = b"This is a mock FFmpeg executable for development purposes.\n";
    assert_eq!(
        conclude_version_probe(exited(false, b"ffmpeg version 7.0\n", stderr)),
        Err(ProcessError::ProcessExitedNonZero {
            diagnostics: "This is a mock FFmpeg executable for development purposes.\n"
                .to_string()
        })
    );
    assert_eq!(
        conclude_version_probe(exited(false, b"", b"")),
        Err(ProcessError::ProcessExitedNonZero { diagnostics: String::new() })
    );
}

#[test]
fn empty_first_line_is_no_version() {
    assert_eq!(conclude_version_probe(exited(true, b"", b"")), Err(ProcessError::EmptyVersionOutput));
    assert_eq!(
        conclude_version_probe(exited(true, b"\nffmpeg version 7.0\n", b"")),
        Err(ProcessError::EmptyVersionOutput)
    );
    assert_eq!(
        conclude_version_probe(exited(true, b"\r\n", b"text")),
        Err(ProcessError::EmptyVersionOutput)
    );
}

#[test]
fn tool_that_could_not_be_started_fails_the_probe() {
    let run = ToolRun::Failed { reason: "Permission denied (os error 13)".to_string() };
    assert_eq!(
        conclude_version_probe(run.clone()),
        Err(ProcessError::SpawnFailed { reason: "Permission denied (os error 13)".to_string() })
    );
    assert_eq!(
        conclude_media_info_probe(run),
        Err(ProcessError::SpawnFailed { reason: "Permission denied (os error 13)".to_string() })
    );
}

#[test]
fn undecodable_output_is_kept_with_replacement_characters() {
    assert_eq!(
        conclude_version_probe(exited(true, b"ffmpeg \xff version\n", b"")),
        Ok("ffmpeg \u{fffd} version".to_string())
    );
    assert_eq!(
        conclude_version_probe(exited(false, b"", b"bad \xc3\x28 byte")),
        Err(ProcessError::ProcessExitedNonZero { diagnostics: "bad \u{fffd}( byte".to_string() })
    );
    assert_eq!(
        conclude_media_info_probe(exited(true, b"", b"caf\xc3\xa9 \x80")),
        Ok("café \u{fffd}".to_string())
    );
}

#[test]
fn media_info_is_the_whole_diagnostic_stream() {
    let stderr = b"Input #0, mpegts, from 'movie.m2ts':\r\n  Duration: 01:30:00.00\nAt least one output file must be specified\n";
    let expected =
        "Input #0, mpegts, from 'movie.m2ts':\r\n  Duration: 01:30:00.00\nAt least one output file must be specified\n";
    assert_eq!(
        conclude_media_info_probe(exited(false, b"on stdout", stderr)),
        Ok(expected.to_string())
    );
    assert_eq!(
        conclude_media_info_probe(exited(true, b"on stdout", stderr)),
        Ok(expected.to_string())
    );
    assert_eq!(conclude_media_info_probe(exited(true, b"on stdout", b"")), Ok(String::new()));
}

#[test]
fn version_from_report_takes_the_first_line() {
    assert_eq!(version_from_report("v1\nv2"), Ok("v1".to_string()));
    assert_eq!(version_from_report("v1\r\n"), Ok("v1".to_string()));
    assert_eq!(version_from_report(" "), Ok(" ".to_string()));
    assert_eq!(version_from_report("\r"), Ok("\r".to_string()));
    assert_eq!(version_from_report(""), Err(ProcessError::EmptyVersionOutput));
    assert_eq!(version_from_report("\nv2"), Err(ProcessError::EmptyVersionOutput));
}

#[test]
fn every_error_has_its_sentence() {
    let cases = [
        (
            ProcessError::ExecutableNotFound { path: "/opt/ffmpeg".to_string() },
            "FFmpeg file not found at path: /opt/ffmpeg",
        ),
        (
            ProcessError::NotARegularFile { path: "/opt".to_string() },
            "Path is not a file: /opt",
        ),
        (
            ProcessError::SpawnFailed { reason: "os error 2".to_string() },
            "Failed to execute FFmpeg: os error 2",
        ),
        (
            ProcessError::PipeCaptureFailed { stream: StreamKind::Stdout },
            "Failed to capture stdout",
        ),
        (
            ProcessError::PipeCaptureFailed { stream: StreamKind::Stderr },
            "Failed to capture stderr",
        ),
        (ProcessError::HandlesExhausted, "No handle is left for another FFmpeg process"),
        (
            ProcessError::ProcessExitedNonZero { diagnostics: "bad flag\n".to_string() },
            "FFmpeg execution failed: bad flag\n",
        ),
        (ProcessError::EmptyVersionOutput, "Failed to parse FFmpeg version from output"),
        (
            ProcessError::KillFailed { reason: "os error 1".to_string() },
            "Failed to kill FFmpeg process: os error 1",
        ),
        (
            ProcessError::ProcessNotFound { handle: 12 },
            "No FFmpeg process is tracked under this handle",
        ),
        (
            ProcessError::WaitFailed { reason: "os error 10".to_string() },
            "Failed to wait for FFmpeg process: os error 10",
        ),
    ];
    for (error, sentence) in cases {
        assert_eq!(error.message(), sentence);
    }
}

#[test]
fn plain_output_is_the_text_it_encodes() {
    assert_eq!(
        conclude_version_probe(exited(true, "ffmpeg version 7.0 \u{e9}\nrest".as_bytes(), b"")),
        Ok("ffmpeg version 7.0 \u{e9}".to_string())
    );
    assert_eq!(
        conclude_version_probe(exited(false, b"", "no such flag \u{e9}".as_bytes())),
        Err(ProcessError::ProcessExitedNonZero { diagnostics: "no such flag \u{e9}".to_string() })
    );
    assert_eq!(
        conclude_media_info_probe(exited(true, b"", "Stream #0:0 \u{e9}".as_bytes())),
        Ok("Stream #0:0 \u{e9}".to_string())
    );
}
