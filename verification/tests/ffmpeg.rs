use host_bridge::ffmpeg::{ffmpeg_command, FfmpegResult, TOOL};
use host_bridge::process::Launch;

#[test]
fn command_runs_the_tool_with_the_arguments_in_order() {
    let command = ffmpeg_command(vec!["-i".to_string(), "in.mp4".to_string(), "out.webm".to_string()]);
    assert_eq!(command.program, "ffmpeg");
    assert_eq!(command.program, TOOL);
    assert_eq!(command.arguments, vec!["-i", "in.mp4", "out.webm"]);
}

#[test]
fn command_without_arguments() {
    let command = ffmpeg_command(Vec::new());
    assert_eq!(command.program, "ffmpeg");
    assert!(command.arguments.is_empty());
}

#[test]
fn exit_code_zero_is_success() {
    let result = FfmpegResult::from_launch(Launch::Exited {
        exit_code: 0,
        stdout: b"done\n".to_vec(),
        stderr: b"frame=1\n".to_vec(),
    });
    assert!(result.success);
    assert_eq!(result.exit_code, Some(0));
    assert_eq!(result.stdout, "done\n");
    assert_eq!(result.stderr, "frame=1\n");
}

#[test]
fn other_exit_codes_are_failures_with_the_code() {
    for code in [1, 2, 127, 255, -1, i32::MAX, i32::MIN] {
        let result = FfmpegResult::from_launch(Launch::Exited {
            exit_code: code,
            stdout: Vec::new(),
            stderr: b"Unrecognized option\n".to_vec(),
        });
        assert!(!result.success);
        assert_eq!(result.exit_code, Some(code));
        assert_eq!(result.stdout, "");
        assert_eq!(result.stderr, "Unrecognized option\n");
    }
}

#[test]
fn launch_failure_is_part_of_the_result() {
    let result = FfmpegResult::from_launch(Launch::Failed {
        cause: "No such file or directory (os error 2)".to_string(),
    });
    assert!(!result.success);
    assert_eq!(result.exit_code, None);
    assert_eq!(result.stdout, "");
    assert_eq!(result.stderr, "Failed to execute ffmpeg: No such file or directory (os error 2)");
}

#[test]
fn launch_failure_without_cause() {
    let result = FfmpegResult::not_launched("");
    assert!(!result.success);
    assert_eq!(result.exit_code, None);
    assert_eq!(result.stderr, "Failed to execute ffmpeg: ");
}

#[test]
fn invalid_bytes_are_replaced_not_refused() {
    let result = FfmpegResult::from_launch(Launch::Exited {
        exit_code: 0,
        stdout: vec![0x66, 0xff, 0x6f],
        stderr: vec![0xc3, 0x28, 0x00, 0xe2, 0x82],
    });
    assert!(result.success);
    assert_eq!(result.stdout, "f\u{fffd}o");
    assert_eq!(result.stderr, "\u{fffd}(\u{0}\u{fffd}");
}

#[test]
fn valid_utf8_is_decoded_as_it_is() {
    let text = "dur\u{e9}e: 00:00:01 \u{2713}\n";
    let result = FfmpegResult::from_launch(Launch::Exited {
        exit_code: 0,
        stdout: text.as_bytes().to_vec(),
        stderr: Vec::new(),
    });
    assert_eq!(result.stdout, text);
    assert_eq!(result.stderr, "");
}

#[test]
fn exited_keeps_the_text_given() {
    let result = FfmpegResult::exited(3, "out".to_string(), "err".to_string());
    assert!(!result.success);
    assert_eq!(result.exit_code, Some(3));
    assert_eq!(result.stdout, "out");
    assert_eq!(result.stderr, "err");
}

#[test]
fn exit_code_is_present_exactly_when_the_tool_ran() {
    let launches = vec![
        Launch::Exited { exit_code: 0, stdout: Vec::new(), stderr: Vec::new() },
        Launch::Exited { exit_code: 9, stdout: Vec::new(), stderr: Vec::new() },
        Launch::Failed { cause: "permission denied".to_string() },
    ];
    for launch in launches {
        let ran = matches!(launch, Launch::Exited { .. });
        let result = FfmpegResult::from_launch(launch);
        assert_eq!(result.exit_code.is_some(), ran);
        assert_eq!(result.success, result.exit_code == Some(0));
    }
}

#[test]
fn result_types_are_at_the_crate_root() {
    let result: host_bridge::FfmpegResult = FfmpegResult::not_launched("x");
    assert_eq!(result, host_bridge::ffmpeg::FfmpegResult {
        success: false,
        stdout: String::new(),
        stderr: "Failed to execute ffmpeg: x".to_string(),
        exit_code: None,
    });
    let info: host_bridge::FfmpegInfo = host_bridge::detect::FfmpegInfo::absent();
    assert_eq!(info, host_bridge::FfmpegInfo { installed: false, version: String::new(), path: String::new() });
}
