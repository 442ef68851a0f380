//! Finding out whether the media tool is installed: first it is asked for
//! its version, then, if it could be started, the search path is asked
//! where it lives. Each function here takes what the previous step brought
//! and says what to do next.

use vstd::prelude::*;
use vstd::utf8::{decode_utf8, valid_utf8};
use crate::ffmpeg::TOOL;
use crate::platform::Platform;
use crate::process::{Invocation, InvocationView, Launch, LaunchView};
use crate::text::{decode_lossy, first_line, leading_line, lossy_text, trim, trimmed};

verus! {

/// Whether the media tool was found, and what it says of itself.
#[derive(Debug, PartialEq, Eq)]
pub struct FfmpegInfo {
    pub installed: bool,
    pub version: String,
    pub path: String,
}

/// An [`FfmpegInfo`] as mathematics sees it.
pub struct FfmpegInfoView {
    pub installed: bool,
    pub version: Seq<char>,
    pub path: Seq<char>,
}

impl View for FfmpegInfo {
    type V = FfmpegInfoView;

    open spec fn view(&self) -> FfmpegInfoView {
        FfmpegInfoView { installed: self.installed, version: self.version@, path: self.path@ }
    }
}

/// What the version query told, kept while the tool is being located.
#[derive(Debug, PartialEq, Eq)]
pub struct Sighting {
    pub installed: bool,
    pub version: String,
}

/// What to do once the version query has come back.
#[derive(Debug, PartialEq, Eq)]
pub enum ProbeStep {
    /// The tool could be started: run `command` to locate it.
    Locate { sighting: Sighting, command: Invocation },
    /// The tool could not be started: detection is over.
    Done { info: FfmpegInfo },
}

/// The command that asks the tool for its version.
pub open spec fn probe_command() -> InvocationView {
    InvocationView { program: TOOL@, arguments: seq!["-version"@] }
}

/// The command that asks the search path of `platform` for the tool.
pub open spec fn locate_command(platform: Platform) -> InvocationView {
    InvocationView { program: platform.locator_name(), arguments: seq![TOOL@] }
}

/// The report on a tool that could not be started.
pub open spec fn absent() -> FfmpegInfoView {
    FfmpegInfoView { installed: false, version: Seq::empty(), path: Seq::empty() }
}

/// The version that `output` announces: its first line, or `unknown` where
/// it has none.
pub open spec fn version_of(output: Seq<char>) -> Seq<char> {
    match leading_line(output) {
        Some(line) => line,
        None => "unknown"@,
    }
}

/// The path that `lookup` found: what the locator printed, trimmed,
/// whatever its exit code; nothing where the locator could not be started.
pub open spec fn located_path(lookup: LaunchView) -> Seq<char> {
    match lookup {
        LaunchView::Exited { stdout, .. } => trimmed(lossy_text(stdout)),
        LaunchView::Failed { .. } => Seq::empty(),
    }
}

/// The command that asks the tool for its version.
pub fn probe() -> (command: Invocation)
    ensures
        command@ == probe_command(),
{
    let arguments = vec!["-version".to_string()];
    assert(arguments.deep_view() =~= seq!["-version"@]);
    Invocation { program: TOOL.to_string(), arguments }
}

/// The command that asks the search path of `platform` for the tool.
pub fn locator(platform: Platform) -> (command: Invocation)
    ensures
        command@ == locate_command(platform),
{
    let arguments = vec![TOOL.to_string()];
    assert(arguments.deep_view() =~= seq![TOOL@]);
    Invocation { program: platform.locator().to_string(), arguments }
}

/// The version that `output` announces.
pub fn version_line(output: &str) -> (version: String)
    ensures
        version@ == version_of(output@),
{
    match first_line(output) {
        Some(line) => line.to_string(),
        None => "unknown".to_string(),
    }
}

impl FfmpegInfo {
    /// The report on a tool that could not be started.
    pub fn absent() -> (info: FfmpegInfo)
        ensures
            info@ == absent(),
    {
        FfmpegInfo { installed: false, version: String::new(), path: String::new() }
    }

    /// The report on a sighted tool that the locator printed `output` for.
    pub fn located(sighting: Sighting, output: &str) -> (info: FfmpegInfo)
        ensures
            info@ == (FfmpegInfoView {
                installed: sighting.installed,
                version: sighting.version@,
                path: trimmed(output@),
            }),
    {
        FfmpegInfo {
            installed: sighting.installed,
            version: sighting.version,
            path: trim(output).to_string(),
        }
    }
}

impl Sighting {
    /// What a version query tells that ended with `exit_code` and printed
    /// `output`: the tool counts as installed exactly when the code is zero.
    pub fn from_output(exit_code: i32, output: &str) -> (sighting: Sighting)
        ensures
            sighting.installed == (exit_code == 0),
            sighting.version@ == version_of(output@),
    {
        Sighting { installed: exit_code == 0, version: version_line(output) }
    }
}

/// Decides what follows the version query. A tool that could not be started
/// is reported as absent, never as an error.
pub fn after_probe(platform: Platform, probe: Launch) -> (step: ProbeStep)
    ensures
        match probe@ {
            LaunchView::Exited { exit_code, stdout, .. } => {
                &&& step matches ProbeStep::Locate { sighting, command }
                &&& sighting.installed == (exit_code == 0)
                &&& sighting.version@ == version_of(lossy_text(stdout))
                &&& valid_utf8(stdout) ==> sighting.version@ == version_of(decode_utf8(stdout))
                &&& command@ == locate_command(platform)
            },
            LaunchView::Failed { .. } => {
                &&& step matches ProbeStep::Done { info }
                &&& info@ == absent()
            },
        },
{
    match probe {
        Launch::Exited { exit_code, stdout, stderr: _ } => {
            let output = decode_lossy(stdout.as_slice());
            ProbeStep::Locate {
                sighting: Sighting::from_output(exit_code, output.as_str()),
                command: locator(platform),
            }
        },
        Launch::Failed { cause: _ } => ProbeStep::Done { info: FfmpegInfo::absent() },
    }
}

/// Completes the report once the locator has come back. A locator that
/// could not be started leaves the path empty.
pub fn after_lookup(sighting: Sighting, lookup: Launch) -> (info: FfmpegInfo)
    ensures
        info@ == (FfmpegInfoView {
            installed: sighting.installed,
            version: sighting.version@,
            path: located_path(lookup@),
        }),
        lookup matches Launch::Exited { stdout, .. } ==> (valid_utf8(stdout@) ==> info.path@
            == trimmed(decode_utf8(stdout@))),
{
    match lookup {
        Launch::Exited { exit_code: _, stdout, stderr: _ } => {
            let output = decode_lossy(stdout.as_slice());
            FfmpegInfo::located(sighting, output.as_str())
        },
        Launch::Failed { cause: _ } => FfmpegInfo {
            installed: sighting.installed,
            version: sighting.version,
            path: String::new(),
        },
    }
}

} // verus!
