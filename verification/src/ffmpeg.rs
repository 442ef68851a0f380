//! Running the media tool and reporting how it went.

use vstd::prelude::*;
use vstd::utf8::{decode_utf8, valid_utf8};
use crate::process::{Invocation, InvocationView, Launch, LaunchView};
use crate::text::{decode_lossy, lossy_text};

verus! {

/// The name the media tool is started by.
pub const TOOL: &'static str = "ffmpeg";

/// How a run of the media tool went.
#[derive(Debug, PartialEq, Eq)]
pub struct FfmpegResult {
    pub success: bool,
    pub stdout: String,
    pub stderr: String,
    pub exit_code: Option<i32>,
}

/// An [`FfmpegResult`] as mathematics sees it.
pub struct FfmpegResultView {
    pub success: bool,
    pub stdout: Seq<char>,
    pub stderr: Seq<char>,
    pub exit_code: Option<i32>,
}

impl View for FfmpegResult {
    type V = FfmpegResultView;

    open spec fn view(&self) -> FfmpegResultView {
        FfmpegResultView {
            success: self.success,
            stdout: self.stdout@,
            stderr: self.stderr@,
            exit_code: self.exit_code,
        }
    }
}

impl FfmpegResultView {
    /// Success is told exactly when there is an exit code and it is zero.
    pub open spec fn well_formed(self) -> bool {
        self.success <==> self.exit_code == Some(0i32)
    }
}

/// The command that runs the tool with `arguments`.
pub open spec fn tool_command(arguments: Seq<Seq<char>>) -> InvocationView {
    InvocationView { program: TOOL@, arguments }
}

/// The result for a tool that ran to its end with `exit_code` and printed
/// `stdout` and `stderr`.
pub open spec fn exited_result(
    exit_code: i32,
    stdout: Seq<char>,
    stderr: Seq<char>,
) -> FfmpegResultView {
    FfmpegResultView { success: exit_code == 0, stdout, stderr, exit_code: Some(exit_code) }
}

/// The result for a tool that could not be started because of `cause`.
pub open spec fn failed_result(cause: Seq<char>) -> FfmpegResultView {
    FfmpegResultView {
        success: false,
        stdout: Seq::empty(),
        stderr: "Failed to execute ffmpeg: "@ + cause,
        exit_code: None,
    }
}

/// The result that reports `launch`; what the tool printed is decoded
/// lossily.
pub open spec fn launch_result(launch: LaunchView) -> FfmpegResultView {
    match launch {
        LaunchView::Exited { exit_code, stdout, stderr } => exited_result(
            exit_code,
            lossy_text(stdout),
            lossy_text(stderr),
        ),
        LaunchView::Failed { cause } => failed_result(cause),
    }
}

/// The command that runs the tool with `arguments`, in their order.
pub fn ffmpeg_command(arguments: Vec<String>) -> (command: Invocation)
    ensures
        command@ == tool_command(arguments.deep_view()),
{
    Invocation { program: TOOL.to_string(), arguments }
}

impl FfmpegResult {
    /// Reports a tool that ran to its end.
    pub fn exited(exit_code: i32, stdout: String, stderr: String) -> (result: FfmpegResult)
        ensures
            result@ == exited_result(exit_code, stdout@, stderr@),
            result@.well_formed(),
    {
        FfmpegResult { success: exit_code == 0, stdout, stderr, exit_code: Some(exit_code) }
    }

    /// Reports a tool that could not be started.
    pub fn not_launched(cause: &str) -> (result: FfmpegResult)
        ensures
            result@ == failed_result(cause@),
            result@.well_formed(),
    {
        let stderr = "Failed to execute ffmpeg: ".to_string().concat(cause);
        FfmpegResult { success: false, stdout: String::new(), stderr, exit_code: None }
    }

    /// Reports `launch`. A failure to start the tool is part of the report,
    /// never an error of its own: the report holds an exit code exactly
    /// when the tool ran, and tells of success exactly when that code is
    /// zero.
    pub fn from_launch(launch: Launch) -> (result: FfmpegResult)
        ensures
            result@ == launch_result(launch@),
            result.exit_code is Some <==> launch is Exited,
            result.success <==> result.exit_code == Some(0i32),
            launch matches Launch::Exited { stdout, stderr, .. } ==> {
                &&& valid_utf8(stdout@) ==> result.stdout@ == decode_utf8(stdout@)
                &&& valid_utf8(stderr@) ==> result.stderr@ == decode_utf8(stderr@)
            },
    {
        match launch {
            Launch::Exited { exit_code, stdout, stderr } => {
                let out = decode_lossy(stdout.as_slice());
                let err = decode_lossy(stderr.as_slice());
                FfmpegResult::exited(exit_code, out, err)
            },
            Launch::Failed { cause } => FfmpegResult::not_launched(cause.as_str()),
        }
    }
}

} // verus!
