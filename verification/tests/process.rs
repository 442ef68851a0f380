use host_bridge::ffmpeg::FfmpegResult;
use host_bridge::process::{Invocation, Launch, NO_EXIT_CODE};

#[test]
fn ended_keeps_the_exit_code() {
    assert_eq!(
        Launch::ended(Some(3), vec![1, 2], vec![3]),
        Launch::Exited { exit_code: 3, stdout: vec![1, 2], stderr: vec![3] }
    );
    assert_eq!(
        Launch::ended(Some(0), Vec::new(), Vec::new()),
        Launch::Exited { exit_code: 0, stdout: Vec::new(), stderr: Vec::new() }
    );
}

#[test]
fn ended_without_a_code_is_reported_with_one() {
    assert_eq!(NO_EXIT_CODE, -1);
    assert_eq!(
        Launch::ended(None, vec![9], Vec::new()),
        Launch::Exited { exit_code: -1, stdout: vec![9], stderr: Vec::new() }
    );
    let result = FfmpegResult::from_launch(Launch::ended(None, Vec::new(), b"Killed\n".to_vec()));
    assert!(!result.success);
    assert_eq!(result.exit_code, Some(-1));
    assert_eq!(result.stderr, "Killed\n");
}

#[test]
fn failed_keeps_the_cause() {
    assert_eq!(
        Launch::failed("program not found".to_string()),
        Launch::Failed { cause: "program not found".to_string() }
    );
}

#[test]
fn invocations_compare_by_program_and_arguments() {
    let one = Invocation { program: "ffmpeg".to_string(), arguments: vec!["-version".to_string()] };
    let same = Invocation { program: "ffmpeg".to_string(), arguments: vec!["-version".to_string()] };
    let other = Invocation { program: "ffmpeg".to_string(), arguments: Vec::new() };
    assert_eq!(one, same);
    assert_ne!(one, other);
}
