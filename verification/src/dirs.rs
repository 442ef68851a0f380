//! Where the application keeps its temporary files and where downloads go.
//! Both are composed from directories that the host reports; neither is
//! looked up or created here.

use vstd::prelude::*;
use crate::platform::Platform;

verus! {

/// The folder below the temporary directory that belongs to the
/// application.
pub const APP_FOLDER: &'static str = "DarkVideoFactory";

/// The folder below the home directory that receives downloads.
pub const DOWNLOADS_FOLDER: &'static str = "Downloads";

/// Whether `c` is one of the letters and digits of ASCII.
pub open spec fn is_letter_or_digit(c: char) -> bool {
    let u = c as u32;
    ||| 0x30 <= u <= 0x39
    ||| 0x41 <= u <= 0x5a
    ||| 0x61 <= u <= 0x7a
}

/// Whether `name` is made of letters and digits of ASCII alone, so that no
/// platform reads a separator, a drive or a step up or down into it.
pub open spec fn is_plain_name(name: Seq<char>) -> bool {
    forall|i: int| 0 <= i < name.len() ==> is_letter_or_digit(#[trigger] name[i])
}

/// The downloads folder below the home directory `home`, or `fallback`
/// where the home directory is unknown or empty.
pub open spec fn downloads_folder(
    platform: Platform,
    home: Option<Seq<char>>,
    fallback: Seq<char>,
) -> Seq<char> {
    match home {
        Some(directory) if directory.len() > 0 => directory + seq![platform.separator_char()]
            + DOWNLOADS_FOLDER@,
        _ => fallback,
    }
}

/// The path that `std::path::Path::join` makes of `name` adjoined to
/// `base`, in the build at hand: the separator it puts between the two is
/// that of the platform the library is built for.
pub uninterp spec fn joined(base: Seq<char>, name: Seq<char>) -> Seq<char>;

/// The application's folder below the temporary directory `temp_root`.
pub open spec fn temp_folder(temp_root: Seq<char>) -> Seq<char> {
    joined(temp_root, APP_FOLDER@)
}

/// `name` adjoined to the path `base`, by `std::path::Path::join`.
///
/// Trusted: the result is a function of the two texts alone, named
/// [`joined`]; and adjoining a name made of letters and digits extends the
/// base, so that the result ends in that name. What stands before the name
/// (the base as it was given, a separator or none) differs between
/// platforms and is not written out.
#[verifier::external_body]
fn adjoin(base: &str, name: &str) -> (path: String)
    ensures
        path@ == joined(base@, name@),
        is_plain_name(name@) ==> name@.is_suffix_of(path@),
{
    std::path::Path::new(base).join(name).to_string_lossy().into_owned()
}

/// The application's folder below the temporary directory `temp_root`:
/// the folder's name joined to that directory, so that the path ends in
/// the name and the same directory gives the same path. It is a path only:
/// whether the folder exists is for the caller to find out.
pub fn temp_directory(temp_root: &str) -> (path: String)
    ensures
        path@ == temp_folder(temp_root@),
        APP_FOLDER@.is_suffix_of(path@),
        path@.len() > 0,
{
    proof {
        reveal_strlit("DarkVideoFactory");
        assert(is_plain_name(APP_FOLDER@));
    }
    adjoin(temp_root, APP_FOLDER)
}

/// The downloads folder of the user whose home directory is `home`, or
/// `fallback` where no home directory is known.
pub fn downloads_or(platform: Platform, home: Option<String>, fallback: String) -> (path: String)
    ensures
        path@ == downloads_folder(
            platform,
            match home {
                Some(directory) => Some(directory@),
                None => None,
            },
            fallback@,
        ),
{
    match home {
        Some(directory) => {
            if directory.as_str().is_empty() {
                fallback
            } else {
                directory.concat(platform.separator()).concat(DOWNLOADS_FOLDER)
            }
        },
        None => fallback,
    }
}

/// The downloads folder of the user whose home directory is `home`; the
/// application's temporary folder below `temp_root` where no home directory
/// is known. Either way the caller gets a path that is not empty.
pub fn downloads_directory(platform: Platform, home: Option<String>, temp_root: &str) -> (path:
    String)
    ensures
        path@ == downloads_folder(
            platform,
            match home {
                Some(directory) => Some(directory@),
                None => None,
            },
            temp_folder(temp_root@),
        ),
        path@.len() > 0,
{
    downloads_or(platform, home, temp_directory(temp_root))
}

} // verus!
