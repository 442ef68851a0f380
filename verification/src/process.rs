//! Plain descriptions of a program to run and of what came of running it.

use vstd::prelude::*;

verus! {

/// A program and the arguments to start it with.
#[derive(Debug, PartialEq, Eq)]
pub struct Invocation {
    pub program: String,
    pub arguments: Vec<String>,
}

/// An [`Invocation`] as mathematics sees it.
pub struct InvocationView {
    pub program: Seq<char>,
    pub arguments: Seq<Seq<char>>,
}

impl View for Invocation {
    type V = InvocationView;

    open spec fn view(&self) -> InvocationView {
        InvocationView { program: self.program@, arguments: self.arguments.deep_view() }
    }
}

/// What came of starting a program and waiting for it.
#[derive(Debug, PartialEq, Eq)]
pub enum Launch {
    /// The program ran to its end.
    Exited { exit_code: i32, stdout: Vec<u8>, stderr: Vec<u8> },
    /// The program could not be started; `cause` says why.
    Failed { cause: String },
}

/// A [`Launch`] as mathematics sees it.
pub enum LaunchView {
    Exited { exit_code: i32, stdout: Seq<u8>, stderr: Seq<u8> },
    Failed { cause: Seq<char> },
}

impl View for Launch {
    type V = LaunchView;

    open spec fn view(&self) -> LaunchView {
        match self {
            Launch::Exited { exit_code, stdout, stderr } => LaunchView::Exited {
                exit_code: *exit_code,
                stdout: stdout@,
                stderr: stderr@,
            },
            Launch::Failed { cause } => LaunchView::Failed { cause: cause@ },
        }
    }
}

/// The exit code reported for a process that ended without one of its own,
/// as one does that was ended from outside.
pub const NO_EXIT_CODE: i32 = -1;

/// The report on a process that ran to its end with `code`, if it gave one,
/// and printed `stdout` and `stderr`.
pub open spec fn ended(code: Option<i32>, stdout: Seq<u8>, stderr: Seq<u8>) -> LaunchView {
    LaunchView::Exited {
        exit_code: match code {
            Some(exit_code) => exit_code,
            None => NO_EXIT_CODE,
        },
        stdout,
        stderr,
    }
}

impl Launch {
    /// The report on a process that ran to its end. Every such process is
    /// reported with an exit code: its own, or [`NO_EXIT_CODE`].
    pub fn ended(code: Option<i32>, stdout: Vec<u8>, stderr: Vec<u8>) -> (launch: Launch)
        ensures
            launch@ == ended(code, stdout@, stderr@),
    {
        let exit_code = match code {
            Some(exit_code) => exit_code,
            None => NO_EXIT_CODE,
        };
        Launch::Exited { exit_code, stdout, stderr }
    }

    /// The report on a process that could not be started.
    pub fn failed(cause: String) -> (launch: Launch)
        ensures
            launch@ == (LaunchView::Failed { cause: cause@ }),
    {
        Launch::Failed { cause }
    }
}

} // verus!
