//! Probing the tool: asking it once for its version, or for what it finds
//! in a media file. A probe runs the tool to completion and captures what
//! it wrote; it never touches the registry.
//!
//! The caller looks at the file system and runs the tool. What is decided
//! here is whether to run it at all, with which arguments, and what the
//! captured output means.

use vstd::prelude::*;
use vstd::utf8::{decode_utf8, valid_utf8};
use crate::error::{ProcessError, ProcessErrorView};
use crate::text::{first_line, first_line_of};

verus! {

/// The text that `String::from_utf8_lossy` makes of a run of bytes: the text
/// that they encode, with a replacement character wherever they encode none.
pub uninterp spec fn lossy_text(bytes: Seq<u8>) -> Seq<char>;

/// `String::from_utf8_lossy`: the result is a function of the bytes alone,
/// and for bytes that are valid UTF-8 it is the text they encode.
#[verifier::external_body]
fn decode_lossy(bytes: &[u8]) -> (text: String)
    ensures
        text@ == lossy_text(bytes@),
        valid_utf8(bytes@) ==> text@ == decode_utf8(bytes@),
{
    String::from_utf8_lossy(bytes).into_owned()
}

/// How one run of the tool to completion went.
#[derive(Clone, Debug, PartialEq, Eq)]
pub enum ToolRun {
    /// The tool could not be started.
    Failed { reason: String },
    /// The tool ran and exited. `success` tells whether it reported success;
    /// `stdout` and `stderr` are all that it wrote to its two channels.
    Exited { success: bool, stdout: Vec<u8>, stderr: Vec<u8> },
}

/// What a [`ToolRun`] holds.
pub enum ToolRunView {
    Failed { reason: Seq<char> },
    Exited { success: bool, stdout: Seq<u8>, stderr: Seq<u8> },
}

impl View for ToolRun {
    type V = ToolRunView;

    open spec fn view(&self) -> ToolRunView {
        match *self {
            ToolRun::Failed { reason } => ToolRunView::Failed { reason: reason@ },
            ToolRun::Exited { success, stdout, stderr } => ToolRunView::Exited {
                success,
                stdout: stdout@,
                stderr: stderr@,
            },
        }
    }
}

/// Whether a probe is to run the tool, and how.
#[derive(Clone, Debug, PartialEq, Eq)]
pub enum ProbePlan {
    /// Run the executable with these arguments, capturing both channels.
    Run { arguments: Vec<String> },
    /// Do not run anything: the probe has failed.
    Fail { error: ProcessError },
}

/// What a [`ProbePlan`] holds.
pub enum ProbePlanView {
    Run { arguments: Seq<Seq<char>> },
    Fail { error: ProcessErrorView },
}

impl View for ProbePlan {
    type V = ProbePlanView;

    open spec fn view(&self) -> ProbePlanView {
        match *self {
            ProbePlan::Run { arguments } => ProbePlanView::Run { arguments: texts(arguments@) },
            ProbePlan::Fail { error } => ProbePlanView::Fail { error: error@ },
        }
    }
}

/// The texts of a list of strings, in order.
pub open spec fn texts(strings: Seq<String>) -> Seq<Seq<char>> {
    strings.map_values(|s: String| s@)
}

/// What a probe returns, with its text or its error by their views.
pub open spec fn outcome_view(outcome: Result<String, ProcessError>) -> Result<
    Seq<char>,
    ProcessErrorView,
> {
    match outcome {
        Ok(text) => Ok(text@),
        Err(error) => Err(error@),
    }
}

/// The arguments that make the tool report its version.
pub open spec fn version_arguments_text() -> Seq<Seq<char>> {
    seq!["-version"@]
}

/// The arguments that make the tool describe a media file, and nothing more.
pub open spec fn media_info_arguments_text(input_path: Seq<char>) -> Seq<Seq<char>> {
    seq!["-i"@, input_path, "-hide_banner"@]
}

/// The plan of a version probe: to fail when nothing exists at the path, or
/// when what exists is no regular file; else to run the tool.
pub open spec fn version_probe_plan(path: Seq<char>, exists: bool, is_file: bool) -> ProbePlanView {
    if !exists {
        ProbePlanView::Fail { error: ProcessErrorView::ExecutableNotFound { path } }
    } else if !is_file {
        ProbePlanView::Fail { error: ProcessErrorView::NotARegularFile { path } }
    } else {
        ProbePlanView::Run { arguments: version_arguments_text() }
    }
}

/// The version that a report of the tool names: its first line, which must
/// not be empty.
pub open spec fn version_of(report: Seq<char>) -> Result<Seq<char>, ProcessErrorView> {
    let line = first_line(report);
    if line.len() == 0 {
        Err(ProcessErrorView::EmptyVersionOutput)
    } else {
        Ok(line)
    }
}

/// What a version probe returns for a run of the tool: the failure to start
/// it; or, when the tool reported failure, its diagnostics; or the version
/// that its standard output names.
pub open spec fn version_probe_result(run: ToolRunView) -> Result<Seq<char>, ProcessErrorView> {
    match run {
        ToolRunView::Failed { reason } => Err(ProcessErrorView::SpawnFailed { reason }),
        ToolRunView::Exited { success, stdout, stderr } => {
            if !success {
                Err(ProcessErrorView::ProcessExitedNonZero { diagnostics: lossy_text(stderr) })
            } else {
                version_of(lossy_text(stdout))
            }
        },
    }
}

/// What a media-info probe returns for a run of the tool: the failure to
/// start it, or else all of its diagnostic stream, whether or not the tool
/// reported success.
pub open spec fn media_info_probe_result(run: ToolRunView) -> Result<Seq<char>, ProcessErrorView> {
    match run {
        ToolRunView::Failed { reason } => Err(ProcessErrorView::SpawnFailed { reason }),
        ToolRunView::Exited { stderr, .. } => Ok(lossy_text(stderr)),
    }
}

/// The arguments that make the tool report its version.
pub fn version_arguments() -> (arguments: Vec<String>)
    ensures
        texts(arguments@) == version_arguments_text(),
{
    let mut arguments: Vec<String> = Vec::new();
    arguments.push(String::from_str("-version"));
    assert(texts(arguments@) =~= version_arguments_text());
    arguments
}

/// The arguments that make the tool describe the media file at `input_path`.
pub fn media_info_arguments(input_path: &str) -> (arguments: Vec<String>)
    ensures
        texts(arguments@) == media_info_arguments_text(input_path@),
{
    let mut arguments: Vec<String> = Vec::new();
    arguments.push(String::from_str("-i"));
    arguments.push(String::from_str(input_path));
    arguments.push(String::from_str("-hide_banner"));
    assert(texts(arguments@) =~= media_info_arguments_text(input_path@));
    arguments
}

/// Plans a version probe of the executable at `path`. `exists` tells
/// whether anything is at that path, `is_file` whether it is a regular file.
/// Nothing is run for a path at which nothing exists.
pub fn plan_version_probe(path: &str, exists: bool, is_file: bool) -> (plan: ProbePlan)
    ensures
        plan@ == version_probe_plan(path@, exists, is_file),
        !exists ==> plan@ == (ProbePlanView::Fail {
            error: ProcessErrorView::ExecutableNotFound { path: path@ },
        }),
{
    if !exists {
        ProbePlan::Fail { error: ProcessError::ExecutableNotFound { path: String::from_str(path) } }
    } else if !is_file {
        ProbePlan::Fail { error: ProcessError::NotARegularFile { path: String::from_str(path) } }
    } else {
        ProbePlan::Run { arguments: version_arguments() }
    }
}

/// The version that a report of the tool names.
pub fn version_from_report(report: &str) -> (version: Result<String, ProcessError>)
    ensures
        outcome_view(version) == version_of(report@),
{
    let line = first_line_of(report);
    if line.as_str().unicode_len() == 0 {
        Err(ProcessError::EmptyVersionOutput)
    } else {
        Ok(line)
    }
}

/// Concludes a version probe from the run of the tool. Where what the tool
/// wrote is valid UTF-8, the texts in the result are what those bytes
/// encode.
pub fn conclude_version_probe(run: ToolRun) -> (version: Result<String, ProcessError>)
    ensures
        outcome_view(version) == version_probe_result(run@),
        run@ matches ToolRunView::Exited { success, stdout, stderr } ==> {
            &&& !success && valid_utf8(stderr) ==> outcome_view(version) == Err::<
                Seq<char>,
                ProcessErrorView,
            >(ProcessErrorView::ProcessExitedNonZero { diagnostics: decode_utf8(stderr) })
            &&& success && valid_utf8(stdout) ==> outcome_view(version) == version_of(
                decode_utf8(stdout),
            )
        },
{
    match run {
        ToolRun::Failed { reason } => Err(ProcessError::SpawnFailed { reason }),
        ToolRun::Exited { success, stdout, stderr } => {
            if !success {
                Err(
                    ProcessError::ProcessExitedNonZero {
                        diagnostics: decode_lossy(stderr.as_slice()),
                    },
                )
            } else {
                let report = decode_lossy(stdout.as_slice());
                version_from_report(report.as_str())
            }
        },
    }
}

/// Concludes a media-info probe from the run of the tool. Where the
/// diagnostic stream is valid UTF-8, the result is the text it encodes.
pub fn conclude_media_info_probe(run: ToolRun) -> (info: Result<String, ProcessError>)
    ensures
        outcome_view(info) == media_info_probe_result(run@),
        run@ matches ToolRunView::Exited { stderr, .. } ==> (valid_utf8(stderr) ==> outcome_view(
            info,
        ) == Ok::<Seq<char>, ProcessErrorView>(decode_utf8(stderr))),
{
    match run {
        ToolRun::Failed { reason } => Err(ProcessError::SpawnFailed { reason }),
        ToolRun::Exited { stderr, .. } => Ok(decode_lossy(stderr.as_slice())),
    }
}

/// A version probe of a tool that ran and reported failure fails, whatever
/// the tool wrote to its standard output, and the failure carries what the
/// tool wrote to its diagnostic stream.
pub proof fn lemma_failed_tool_gives_its_diagnostics(stdout: Seq<u8>, stderr: Seq<u8>)
    ensures
        version_probe_result(ToolRunView::Exited { success: false, stdout, stderr }) == Err::<
            Seq<char>,
            ProcessErrorView,
        >(ProcessErrorView::ProcessExitedNonZero { diagnostics: lossy_text(stderr) }),
{
}

/// A version probe of a path at which nothing exists fails as not found and
/// runs nothing, whatever else is said of the path.
pub proof fn lemma_missing_executable_is_not_run(path: Seq<char>, is_file: bool)
    ensures
        version_probe_plan(path, false, is_file) == (ProbePlanView::Fail {
            error: ProcessErrorView::ExecutableNotFound { path },
        }),
        !(version_probe_plan(path, false, is_file) is Run),
{
}

} // verus!
