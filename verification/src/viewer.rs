//! The command that opens an image in the default viewer of a platform.

use vstd::prelude::*;
use vstd::string::*;

verus! {

/// The platforms on which an image can be handed to a viewer.
#[derive(Clone, Copy, Debug, PartialEq, Eq, Structural)]
pub enum Opener {
    Windows,
    Linux,
    Mac,
}

/// A program and the arguments it is started with.
#[derive(Debug)]
pub struct Launch {
    pub program: String,
    pub args: Vec<String>,
}

/// A [`Launch`] as text.
pub struct LaunchModel {
    pub program: Seq<char>,
    pub args: Seq<Seq<char>>,
}

impl View for Launch {
    type V = LaunchModel;

    open spec fn view(&self) -> LaunchModel {
        LaunchModel { program: self.program@, args: self.args.deep_view() }
    }
}

/// The program that opens a file on the platform.
pub open spec fn spec_program(opener: Opener) -> Seq<char> {
    match opener {
        Opener::Windows => "cmd"@,
        Opener::Linux => "xdg-open"@,
        Opener::Mac => "open"@,
    }
}

/// The arguments with which that program opens `path`. The path is always
/// the last of them, and on Linux and macOS the only one.
pub open spec fn spec_args(opener: Opener, path: Seq<char>) -> Seq<Seq<char>> {
    match opener {
        Opener::Windows => seq!["/C"@, "start"@, path],
        Opener::Linux => seq![path],
        Opener::Mac => seq![path],
    }
}

/// The opener for the operating system of that name, as Rust names its
/// targets.
pub open spec fn spec_opener_for(target_os: Seq<char>) -> Option<Opener> {
    if target_os == "windows"@ {
        Some(Opener::Windows)
    } else if target_os == "linux"@ {
        Some(Opener::Linux)
    } else if target_os == "macos"@ {
        Some(Opener::Mac)
    } else {
        None
    }
}

impl Opener {
    /// The opener for the operating system of that name (`"windows"`,
    /// `"linux"`, `"macos"`); `None` for every other name: there the image is
    /// not opened.
    pub fn for_target_os(target_os: &str) -> (opener: Option<Opener>)
        ensures
            opener == spec_opener_for(target_os@),
    {
        let name = String::from_str(target_os);
        if name == String::from_str("windows") {
            Some(Opener::Windows)
        } else if name == String::from_str("linux") {
            Some(Opener::Linux)
        } else if name == String::from_str("macos") {
            Some(Opener::Mac)
        } else {
            None
        }
    }

    /// The program that opens a file on this platform.
    pub fn program(self) -> (name: String)
        ensures
            name@ == spec_program(self),
    {
        match self {
            Opener::Windows => String::from_str("cmd"),
            Opener::Linux => String::from_str("xdg-open"),
            Opener::Mac => String::from_str("open"),
        }
    }
}

/// The one process to start in order to show the image at `path`.
pub fn open_command(opener: Opener, path: &str) -> (launch: Launch)
    ensures
        launch@.program == spec_program(opener),
        launch@.args == spec_args(opener, path@),
        launch@.args.len() >= 1,
        launch@.args.last() == path@,
        opener != Opener::Windows ==> launch@.args == seq![path@],
{
    let mut args: Vec<String> = Vec::new();
    match opener {
        Opener::Windows => {
            args.push(String::from_str("/C"));
            args.push(String::from_str("start"));
        },
        Opener::Linux => {},
        Opener::Mac => {},
    }
    args.push(String::from_str(path));
    let launch = Launch { program: opener.program(), args };
    assert(launch@.args =~= spec_args(opener, path@));
    launch
}

} // verus!
