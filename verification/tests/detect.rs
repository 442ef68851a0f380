use host_bridge::detect::{after_lookup, after_probe, locator, probe, version_line, FfmpegInfo, ProbeStep, Sighting};
use host_bridge::platform::Platform;
use host_bridge::process::Launch;

fn exited(exit_code: i32, stdout: &str) -> Launch {
    Launch::Exited { exit_code, stdout: stdout.as_bytes().to_vec(), stderr: Vec::new() }
}

fn failed(cause: &str) -> Launch {
    Launch::Failed { cause: cause.to_string() }
}

#[test]
fn probe_asks_for_the_version() {
    let command = probe();
    assert_eq!(command.program, "ffmpeg");
    assert_eq!(command.arguments, vec!["-version"]);
}

#[test]
fn locator_depends_on_the_platform() {
    let unix = locator(Platform::Unix);
    assert_eq!(unix.program, "which");
    assert_eq!(unix.arguments, vec!["ffmpeg"]);
    let windows = locator(Platform::Windows);
    assert_eq!(windows.program, "where");
    assert_eq!(windows.arguments, vec!["ffmpeg"]);
}

#[test]
fn missing_tool_is_reported_not_raised() {
    match after_probe(Platform::Unix, failed("No such file or directory (os error 2)")) {
        ProbeStep::Done { info } => {
            assert!(!info.installed);
            assert_eq!(info.version, "");
            assert_eq!(info.path, "");
        }
        ProbeStep::Locate { .. } => panic!("a tool that did not start is not located"),
    }
}

#[test]
fn absent_report_is_all_empty() {
    let info = FfmpegInfo::absent();
    assert!(!info.installed);
    assert_eq!(info.version, "");
    assert_eq!(info.path, "");
}

#[test]
fn started_tool_is_located_next() {
    let output = "ffmpeg version 6.1.1 Copyright (c) 2000-2023\nbuilt with gcc 13\n";
    match after_probe(Platform::Unix, exited(0, output)) {
        ProbeStep::Locate { sighting, command } => {
            assert!(sighting.installed);
            assert_eq!(sighting.version, "ffmpeg version 6.1.1 Copyright (c) 2000-2023");
            assert_eq!(command.program, "which");
            assert_eq!(command.arguments, vec!["ffmpeg"]);
        }
        ProbeStep::Done { .. } => panic!("a tool that started is located"),
    }
    match after_probe(Platform::Windows, exited(0, "ffmpeg version 7.0\r\n")) {
        ProbeStep::Locate { sighting, command } => {
            assert!(sighting.installed);
            assert_eq!(sighting.version, "ffmpeg version 7.0");
            assert_eq!(command.program, "where");
        }
        ProbeStep::Done { .. } => panic!("a tool that started is located"),
    }
}

#[test]
fn failing_version_query_counts_as_not_installed() {
    match after_probe(Platform::Unix, exited(1, "usage: ffmpeg\n")) {
        ProbeStep::Locate { sighting, .. } => {
            assert!(!sighting.installed);
            assert_eq!(sighting.version, "usage: ffmpeg");
        }
        ProbeStep::Done { .. } => panic!("a tool that started is located"),
    }
}

#[test]
fn silent_tool_has_unknown_version() {
    match after_probe(Platform::Unix, exited(0, "")) {
        ProbeStep::Locate { sighting, .. } => {
            assert!(sighting.installed);
            assert_eq!(sighting.version, "unknown");
        }
        ProbeStep::Done { .. } => panic!("a tool that started is located"),
    }
    assert_eq!(version_line(""), "unknown");
    assert_eq!(version_line("\nrest"), "");
    assert_eq!(version_line("v1"), "v1");
}

#[test]
fn version_survives_invalid_bytes() {
    let launch = Launch::Exited { exit_code: 0, stdout: vec![0x76, 0xff, 0x31, 0x0a, 0x78], stderr: Vec::new() };
    match after_probe(Platform::Unix, launch) {
        ProbeStep::Locate { sighting, .. } => assert_eq!(sighting.version, "v\u{fffd}1"),
        ProbeStep::Done { .. } => panic!("a tool that started is located"),
    }
}

#[test]
fn lookup_output_is_trimmed() {
    let sighting = Sighting::from_output(0, "ffmpeg version 6.1\n");
    let info = after_lookup(sighting, exited(0, "/usr/bin/ffmpeg\n"));
    assert!(info.installed);
    assert_eq!(info.version, "ffmpeg version 6.1");
    assert_eq!(info.path, "/usr/bin/ffmpeg");
}

#[test]
fn lookup_output_counts_whatever_the_exit_code() {
    let sighting = Sighting { installed: true, version: "v".to_string() };
    let info = after_lookup(sighting, exited(1, "  C:\\ffmpeg\\ffmpeg.exe\r\nC:\\other\\ffmpeg.exe\r\n"));
    assert_eq!(info.path, "C:\\ffmpeg\\ffmpeg.exe\r\nC:\\other\\ffmpeg.exe");
    let sighting = Sighting { installed: true, version: "v".to_string() };
    let info = after_lookup(sighting, exited(1, ""));
    assert!(info.installed);
    assert_eq!(info.path, "");
}

#[test]
fn failed_lookup_leaves_the_path_empty() {
    let sighting = Sighting { installed: true, version: "ffmpeg version 6.1".to_string() };
    let info = after_lookup(sighting, failed("which: not found"));
    assert!(info.installed);
    assert_eq!(info.version, "ffmpeg version 6.1");
    assert_eq!(info.path, "");
}

#[test]
fn located_keeps_the_sighting() {
    let info = FfmpegInfo::located(Sighting { installed: false, version: "x".to_string() }, " p ");
    assert!(!info.installed);
    assert_eq!(info.version, "x");
    assert_eq!(info.path, "p");
}
