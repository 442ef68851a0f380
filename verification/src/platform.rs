//! The two families of host systems the bridge distinguishes.

use vstd::prelude::*;

verus! {

/// The host family: it decides how executables are looked up, where the
/// home directory is recorded and how path segments are separated.
#[derive(Clone, Copy, Debug, PartialEq, Eq, Structural)]
pub enum Platform {
    Windows,
    Unix,
}

impl Platform {
    /// The character this platform writes between path segments.
    pub open spec fn separator_char(self) -> char {
        match self {
            Platform::Windows => '\\',
            Platform::Unix => '/',
        }
    }

    /// What [`Platform::locator`] returns.
    pub open spec fn locator_name(self) -> Seq<char> {
        match self {
            Platform::Windows => "where"@,
            Platform::Unix => "which"@,
        }
    }

    /// What [`Platform::home_variable`] returns.
    pub open spec fn home_variable_name(self) -> Seq<char> {
        match self {
            Platform::Windows => "USERPROFILE"@,
            Platform::Unix => "HOME"@,
        }
    }

    /// The separator of this platform, as the text to put between two
    /// path segments.
    pub fn separator(self) -> (text: &'static str)
        ensures
            text@ == seq![self.separator_char()],
    {
        proof {
            reveal_strlit("\\");
            reveal_strlit("/");
        }
        match self {
            Platform::Windows => {
                assert("\\"@ =~= seq!['\\']);
                "\\"
            },
            Platform::Unix => {
                assert("/"@ =~= seq!['/']);
                "/"
            },
        }
    }

    /// Name of the program that finds an executable on the search path.
    pub fn locator(self) -> (name: &'static str)
        ensures
            name@ == self.locator_name(),
    {
        match self {
            Platform::Windows => "where",
            Platform::Unix => "which",
        }
    }

    /// Name of the environment variable that records the home directory.
    pub fn home_variable(self) -> (name: &'static str)
        ensures
            name@ == self.home_variable_name(),
    {
        match self {
            Platform::Windows => "USERPROFILE",
            Platform::Unix => "HOME",
        }
    }
}

} // verus!
