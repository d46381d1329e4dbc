//! A whole run on plain values: the arguments that are accepted, the input
//! that is accepted, and the lines that report what went wrong.

use crate::bitmap::{bitmap_file, encode};
use crate::error::RunError;
use crate::layout::SCREEN_LEN;
use crate::screen::ScreenDump;
use vstd::prelude::*;
use vstd::slice::slice_subrange;
use vstd::string::*;

verus! {

/// The usage line for a program called `program`.
pub open spec fn usage_text(program: Seq<char>) -> Seq<char> {
    "Usage: "@ + program + " <path to input> <path to output>"@
}

/// The report of an input file that could not be read, given the text of the
/// cause.
pub open spec fn read_failure_text(cause: Seq<char>) -> Seq<char> {
    "Error reading input file: "@ + cause
}

/// The report of an output file that could not be written, given its path
/// and the text of the cause.
pub open spec fn write_failure_text(path: Seq<char>, cause: Seq<char>) -> Seq<char> {
    "Error writing output file: "@ + path + ": "@ + cause
}

/// The warning about input that goes on after the screen dump.
pub open spec fn extra_data_text() -> Seq<char> {
    "Warning: Extra data at end of input file. Is the file a valid scr?"@
}

/// The warning about an end of input that could not be told from a failure,
/// given the text of the cause.
pub open spec fn ambiguous_end_text(cause: Seq<char>) -> Seq<char> {
    "Non fatal error: Ambiguity near end of input file. What does this mean? I'm not sure, but the exact error message is: "@
        + cause
}

/// The name under which the program is reported when it was started without
/// one.
pub open spec fn default_program() -> Seq<char> {
    "scr2bmp"@
}

/// The cause that is reported of input shorter than a screen dump.
pub open spec fn short_input_cause() -> Seq<char> {
    "failed to fill whole buffer"@
}

/// The name of the program in the argument list `args`: its first entry,
/// where it has one.
pub open spec fn program_name(args: Seq<String>) -> Seq<char> {
    if args.len() > 0 {
        args[0]@
    } else {
        default_program()
    }
}

/// The error that shows the usage line.
pub fn usage_error(program: &str) -> (error: RunError)
    ensures
        error matches RunError::Generic(line) && line@ == usage_text(program@),
{
    let mut line: String = String::from_str("Usage: ");
    line.append(program);
    line.append(" <path to input> <path to output>");
    RunError::Generic(line)
}

/// Reads the argument list of the process: the name of the program, then
/// the path of the input and the path of the output. Any other number of
/// arguments is answered with the usage line.
pub fn parse_args(args: &Vec<String>) -> (paths: Result<(String, String), RunError>)
    ensures
        paths is Ok <==> args@.len() == 3,
        paths matches Ok(found) ==> found.0@ == args@[1]@ && found.1@ == args@[2]@,
        paths matches Err(error) ==> error matches RunError::Generic(line) && line@ == usage_text(
            program_name(args@),
        ),
{
    if args.len() == 3 {
        Ok((args[1].clone(), args[2].clone()))
    } else if args.len() > 0 {
        Err(usage_error(args[0].as_str()))
    } else {
        Err(usage_error("scr2bmp"))
    }
}

/// The error of an input file that could not be read.
pub fn read_failure(cause: &str) -> (error: RunError)
    ensures
        error matches RunError::Generic(line) && line@ == read_failure_text(cause@),
{
    let mut line: String = String::from_str("Error reading input file: ");
    line.append(cause);
    RunError::Generic(line)
}

/// The error of an output file that could not be written: its line names
/// the path of the file and the cause.
pub fn write_failure(path: &str, cause: &str) -> (error: RunError)
    ensures
        error matches RunError::Generic(line) && line@ == write_failure_text(path@, cause@),
{
    let mut line: String = String::from_str("Error writing output file: ");
    line.append(path);
    line.append(": ");
    line.append(cause);
    RunError::Generic(line)
}

/// The warning about input that goes on after the screen dump.
pub fn extra_data_warning() -> (line: String)
    ensures
        line@ == extra_data_text(),
{
    String::from_str("Warning: Extra data at end of input file. Is the file a valid scr?")
}

/// The warning about an end of input that could not be told from a failure.
pub fn ambiguous_end_warning(cause: &str) -> (line: String)
    ensures
        line@ == ambiguous_end_text(cause@),
{
    let mut line: String = String::from_str(
        "Non fatal error: Ambiguity near end of input file. What does this mean? I'm not sure, but the exact error message is: ",
    );
    line.append(cause);
    line
}

/// What a conversion hands back: the bitmap file, and a warning where the
/// input gave reason for one.
pub struct Converted {
    /// The bytes of the bitmap file.
    pub image: Vec<u8>,
    /// A line for the diagnostic channel.
    pub warning: Option<String>,
}

/// Converts the bytes of an input file.
///
/// Input shorter than a screen dump is an error. Input of exactly the length
/// of a screen dump is converted. Of longer input the leading screen dump is
/// converted, and a warning says that there was more.
pub fn convert(input: &[u8]) -> (outcome: Result<Converted, RunError>)
    ensures
        outcome is Ok <==> input@.len() >= SCREEN_LEN,
        outcome matches Ok(done) ==> {
            &&& done.image@ == bitmap_file(input@.subrange(0, SCREEN_LEN as int))
            &&& done.warning is Some <==> input@.len() > SCREEN_LEN
            &&& done.warning matches Some(line) ==> line@ == extra_data_text()
        },
        outcome matches Err(error) ==> error matches RunError::Generic(line) && line@
            == read_failure_text(short_input_cause()),
{
    if input.len() < SCREEN_LEN {
        return Err(read_failure("failed to fill whole buffer"));
    }
    let leading: &[u8] = slice_subrange(input, 0, SCREEN_LEN);
    match ScreenDump::from_bytes(leading) {
        Some(dump) => {
            let image: Vec<u8> = encode(&dump);
            let warning: Option<String> = if input.len() > SCREEN_LEN {
                Some(extra_data_warning())
            } else {
                None
            };
            Ok(Converted { image, warning })
        },
        None => Err(read_failure("failed to fill whole buffer")),
    }
}

} // verus!
