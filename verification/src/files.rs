//! Writing, reading and deleting files: which steps the host has to take,
//! and how a step that failed is reported. The host hands every failure
//! over as the text of its cause; the message made of it names what was
//! attempted, the path it was attempted on, and that cause.

use vstd::prelude::*;

verus! {

/// Why a file operation failed, in words meant for the user.
#[derive(Debug, PartialEq, Eq)]
pub struct FileError {
    pub message: String,
}

impl View for FileError {
    type V = Seq<char>;

    open spec fn view(&self) -> Seq<char> {
        self.message@
    }
}

/// The order to create or truncate the file at `path` and write all of
/// `content` to it.
#[derive(Debug, PartialEq, Eq)]
pub struct FileWrite {
    pub path: String,
    pub content: Vec<u8>,
}

/// A [`FileWrite`] as mathematics sees it.
pub struct FileWriteView {
    pub path: Seq<char>,
    pub content: Seq<u8>,
}

impl View for FileWrite {
    type V = FileWriteView;

    open spec fn view(&self) -> FileWriteView {
        FileWriteView { path: self.path@, content: self.content@ }
    }
}

/// The steps that write a file.
#[derive(Debug, PartialEq, Eq)]
pub enum WritePlan {
    /// Create `directory` with every directory above it that is missing,
    /// then go on with `write`.
    Prepare { directory: String, write: FileWrite },
    /// The path names no directory to create: go on with `write`.
    Write { write: FileWrite },
}

/// A [`WritePlan`] as mathematics sees it.
pub enum WritePlanView {
    Prepare { directory: Seq<char>, write: FileWriteView },
    Write { write: FileWriteView },
}

impl WritePlanView {
    /// The write that the plan ends with.
    pub open spec fn write(self) -> FileWriteView {
        match self {
            WritePlanView::Prepare { write, .. } => write,
            WritePlanView::Write { write } => write,
        }
    }
}

impl View for WritePlan {
    type V = WritePlanView;

    open spec fn view(&self) -> WritePlanView {
        match self {
            WritePlan::Prepare { directory, write } => WritePlanView::Prepare {
                directory: directory@,
                write: write@,
            },
            WritePlan::Write { write } => WritePlanView::Write { write: write@ },
        }
    }
}

/// What to do to delete a file.
#[derive(Debug, PartialEq, Eq)]
pub enum DeleteStep {
    /// Remove the file at `path`.
    Remove { path: String },
    /// Nothing is left to do: the deletion is over, with `result`.
    Done { result: Result<(), FileError> },
}

/// The plan that writes `content` to `path`, given the directory that
/// holds `path`, if it names one.
pub open spec fn planned_write(
    parent: Option<Seq<char>>,
    path: Seq<char>,
    content: Seq<u8>,
) -> WritePlanView {
    let write = FileWriteView { path, content };
    match parent {
        Some(directory) => WritePlanView::Prepare { directory, write },
        None => WritePlanView::Write { write },
    }
}

/// The wording of every failure: what was attempted, up to the opening
/// quote, then the path it was attempted on, then the cause.
pub open spec fn failure(attempt: Seq<char>, path: Seq<char>, cause: Seq<char>) -> Seq<char> {
    attempt + path + "': "@ + cause
}

/// The message for a directory at `directory` that could not be created
/// because of `cause`.
pub open spec fn prepare_failure(directory: Seq<char>, cause: Seq<char>) -> Seq<char> {
    failure("Failed to create directory '"@, directory, cause)
}

/// The message for a file at `path` that could not be written because of
/// `cause`.
pub open spec fn write_failure(path: Seq<char>, cause: Seq<char>) -> Seq<char> {
    failure("Failed to write file '"@, path, cause)
}

/// The message for a file at `path` that could not be read because of
/// `cause`.
pub open spec fn read_failure(path: Seq<char>, cause: Seq<char>) -> Seq<char> {
    failure("Failed to read file '"@, path, cause)
}

/// The message for a file at `path` that could not be removed because of
/// `cause`.
pub open spec fn delete_failure(path: Seq<char>, cause: Seq<char>) -> Seq<char> {
    failure("Failed to delete '"@, path, cause)
}

/// Every failure message is more than nothing, holds the path right after
/// what was attempted, and ends in the cause.
pub proof fn lemma_failure_names_path_and_cause(
    attempt: Seq<char>,
    path: Seq<char>,
    cause: Seq<char>,
)
    ensures
        failure(attempt, path, cause).len() > 0,
        failure(attempt, path, cause).subrange(
            attempt.len() as int,
            (attempt.len() + path.len()) as int,
        ) == path,
        cause.is_suffix_of(failure(attempt, path, cause)),
{
    reveal_strlit("': ");
}

/// The directory that `std::path::Path::parent` finds to hold `path`, in
/// the build at hand: what counts as a separator, a root or a drive is
/// that of the platform the library is built for.
pub uninterp spec fn parent_of(path: Seq<char>) -> Option<Seq<char>>;

/// The directory that holds `path`, by `std::path::Path::parent`.
///
/// Trusted: the result is a function of the path alone, named
/// [`parent_of`]; the empty path has no parent; and a parent, where there
/// is one, is the path without its final component: a beginning of the
/// path, and shorter than it. Which paths have a parent, and where the
/// final component starts, differs between platforms and is not written
/// out.
#[verifier::external_body]
fn parent_directory(path: &str) -> (parent: Option<String>)
    ensures
        (match parent {
            Some(directory) => Some(directory@),
            None => None,
        }) == parent_of(path@),
        path@.len() == 0 ==> parent is None,
        parent matches Some(directory) ==> directory@.len() < path@.len()
            && directory@.is_prefix_of(path@),
{
    match std::path::Path::new(path).parent() {
        Some(directory) => Some(directory.to_string_lossy().into_owned()),
        None => None,
    }
}

/// The plan that writes `content` to `path` below the directory `parent`.
pub fn plan_write_below(parent: Option<String>, path: String, content: Vec<u8>) -> (plan:
    WritePlan)
    ensures
        plan@ == planned_write(
            match parent {
                Some(directory) => Some(directory@),
                None => None,
            },
            path@,
            content@,
        ),
{
    let write = FileWrite { path, content };
    match parent {
        Some(directory) => WritePlan::Prepare { directory, write },
        None => WritePlan::Write { write },
    }
}

/// The plan that writes `content` to `path`. Where a directory holds the
/// path, that directory is created first: it is a beginning of the path,
/// and shorter than it. The write itself gets the path and the content as
/// they were given.
pub fn plan_write(path: String, content: Vec<u8>) -> (plan: WritePlan)
    ensures
        plan@ == planned_write(parent_of(path@), path@, content@),
        plan@.write() == (FileWriteView { path: path@, content: content@ }),
        path@.len() == 0 ==> plan is Write,
        plan matches WritePlan::Prepare { directory, .. } ==> directory@.len() < path@.len()
            && directory@.is_prefix_of(path@),
{
    let parent = parent_directory(path.as_str());
    plan_write_below(parent, path, content)
}

/// Words a failure: the message for `attempt` on `path` that failed
/// because of `cause`.
fn failed(attempt: &str, path: &str, cause: &str) -> (error: FileError)
    ensures
        error@ == failure(attempt@, path@, cause@),
        error@.len() > 0,
{
    proof {
        lemma_failure_names_path_and_cause(attempt@, path@, cause@);
    }
    FileError { message: attempt.to_string().concat(path).concat("': ").concat(cause) }
}

/// Decides what follows the creation of `directory`: the write, unless the
/// creation failed. The failure names the directory and the cause.
pub fn after_prepare(directory: &str, write: FileWrite, outcome: Result<(), String>) -> (next:
    Result<FileWrite, FileError>)
    ensures
        match outcome {
            Ok(_) => next matches Ok(same) && same == write,
            Err(cause) => next matches Err(error) && error@ == prepare_failure(
                directory@,
                cause@,
            ) && error@.len() > 0,
        },
{
    match outcome {
        Ok(_) => Ok(write),
        Err(cause) => Err(failed("Failed to create directory '", directory, cause.as_str())),
    }
}

/// Reports how writing the file at `path` went. A failure names the path
/// and the cause.
pub fn after_write(path: &str, outcome: Result<(), String>) -> (result: Result<(), FileError>)
    ensures
        match outcome {
            Ok(_) => result is Ok,
            Err(cause) => result matches Err(error) && error@ == write_failure(path@, cause@)
                && error@.len() > 0,
        },
{
    match outcome {
        Ok(_) => Ok(()),
        Err(cause) => Err(failed("Failed to write file '", path, cause.as_str())),
    }
}

/// Reports how reading the file at `path` went: the bytes as they were
/// read, or a message that names the path and the cause.
pub fn after_read(path: &str, outcome: Result<Vec<u8>, String>) -> (result: Result<
    Vec<u8>,
    FileError,
>)
    ensures
        match outcome {
            Ok(bytes) => result matches Ok(same) && same == bytes,
            Err(cause) => result matches Err(error) && error@ == read_failure(path@, cause@)
                && error@.len() > 0,
        },
{
    match outcome {
        Ok(bytes) => Ok(bytes),
        Err(cause) => Err(failed("Failed to read file '", path, cause.as_str())),
    }
}

/// Decides how to delete the file at `path`, given whether anything exists
/// there. Where nothing does, nothing is removed and the deletion has
/// succeeded.
pub fn plan_delete(path: String, exists: bool) -> (step: DeleteStep)
    ensures
        exists ==> (step matches DeleteStep::Remove { path: target } && target@ == path@),
        !exists ==> (step matches DeleteStep::Done { result } && result is Ok),
{
    if exists {
        DeleteStep::Remove { path }
    } else {
        DeleteStep::Done { result: Ok(()) }
    }
}

/// Reports how removing the file at `path` went. A failure names the path
/// and the cause.
pub fn after_remove(path: &str, outcome: Result<(), String>) -> (result: Result<(), FileError>)
    ensures
        match outcome {
            Ok(_) => result is Ok,
            Err(cause) => result matches Err(error) && error@ == delete_failure(path@, cause@)
                && error@.len() > 0,
        },
{
    match outcome {
        Ok(_) => Ok(()),
        Err(cause) => Err(failed("Failed to delete '", path, cause.as_str())),
    }
}

} // verus!
