//! What the command line asks for, and how a run can fail.

use vstd::prelude::*;
use crate::width::{width_of_bits, Width};

verus! {

/// The number of arguments of a well-formed call, the program's name
/// included: the name, the file, and the checksum size.
pub const ARGUMENT_COUNT: usize = 3;

/// The exit code of a run that printed a checksum.
pub const EXIT_SUCCESS: i32 = 0;

/// The exit code of a run that failed, whatever the reason.
pub const EXIT_FAILURE: i32 = 1;

/// Why a run ends without a checksum. Every failure is final.
#[derive(Clone, Copy, Debug, PartialEq, Eq, Structural)]
pub enum Failure {
    /// The call did not have exactly two arguments.
    Usage,
    /// The checksum size is not a number.
    NotANumber,
    /// The checksum size is a number other than 8, 16 and 32.
    UnsupportedWidth,
    /// The file could not be opened or read to its end.
    Unreadable,
}

impl Failure {
    /// The exit code that reports this failure: always 1.
    pub fn exit_code(self) -> (code: i32)
        ensures
            code == EXIT_FAILURE,
    {
        EXIT_FAILURE
    }

    /// What the diagnostic stream is told. For an unreadable file this is the
    /// beginning of the message: the file's name and the system's reason
    /// follow it.
    pub open spec fn message_spec(self) -> Seq<char> {
        match self {
            Failure::Usage => "Expected 2 arguments: <filename> and <checksumSize>"@,
            Failure::NotANumber => "Checksum size must be a number"@,
            Failure::UnsupportedWidth => "Valid checksum sizes are 8, 16, or 32"@,
            Failure::Unreadable => "Error reading "@,
        }
    }

    pub fn message(self) -> (text: &'static str)
        ensures
            text@ == self.message_spec(),
    {
        match self {
            Failure::Usage => "Expected 2 arguments: <filename> and <checksumSize>",
            Failure::NotANumber => "Checksum size must be a number",
            Failure::UnsupportedWidth => "Valid checksum sizes are 8, 16, or 32",
            Failure::Unreadable => "Error reading ",
        }
    }
}

/// A call is well-formed when it has exactly two arguments after the
/// program's name.
pub fn check_argument_count(count: usize) -> (r: Result<(), Failure>)
    ensures
        r == if count == ARGUMENT_COUNT {
            Ok::<(), Failure>(())
        } else {
            Err::<(), Failure>(Failure::Usage)
        },
{
    if count == ARGUMENT_COUNT {
        Ok(())
    } else {
        Err(Failure::Usage)
    }
}

/// The number that `str::parse::<u32>` reads from a text, where it reads one.
pub uninterp spec fn parsed_u32(text: Seq<char>) -> Option<u32>;

/// Reads a `u32` with `str::parse`, and gives `None` where that fails. The
/// outcome is taken on trust to depend on the text alone; which texts are
/// numbers is left to `str::parse`.
#[verifier::external_body]
fn parse_u32(text: &str) -> (r: Option<u32>)
    ensures
        r == parsed_u32(text@),
{
    text.parse::<u32>().ok()
}

/// The width that a checksum size selects, once the argument has been read
/// as a number or found to be none.
pub open spec fn selected_width(parsed: Option<u32>) -> Result<Width, Failure> {
    match parsed {
        None => Err(Failure::NotANumber),
        Some(bits) => match width_of_bits(bits) {
            Some(width) => Ok(width),
            None => Err(Failure::UnsupportedWidth),
        },
    }
}

/// Decides on the width from what reading the argument as a number gave:
/// no number is a failure, and so is a number other than 8, 16 and 32.
pub fn select_width(parsed: Option<u32>) -> (r: Result<Width, Failure>)
    ensures
        r == selected_width(parsed),
{
    match parsed {
        None => Err(Failure::NotANumber),
        Some(bits) => match Width::from_bits(bits) {
            Some(width) => Ok(width),
            None => Err(Failure::UnsupportedWidth),
        },
    }
}

/// The width that the checksum-size argument asks for. Nothing but the
/// argument is looked at, so a bad size is known before any file is read.
pub fn parse_width(text: &str) -> (r: Result<Width, Failure>)
    ensures
        r == selected_width(parsed_u32(text@)),
{
    select_width(parse_u32(text))
}

/// The width that a whole command line asks for. `args` holds the program's
/// name, then the file's name, then the checksum size. A wrong number of
/// arguments is found first, a bad size next; in both cases the failure is
/// known with no file opened, since only the arguments are looked at.
pub fn requested_width(args: &Vec<String>) -> (r: Result<Width, Failure>)
    ensures
        r == if args@.len() != ARGUMENT_COUNT {
            Err::<Width, Failure>(Failure::Usage)
        } else {
            selected_width(parsed_u32(args@[2]@))
        },
{
    match check_argument_count(args.len()) {
        Err(failure) => Err(failure),
        Ok(()) => parse_width(args[2].as_str()),
    }
}

} // verus!
