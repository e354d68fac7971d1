//! The handoff: the buffer takes the place of standard input, and the
//! program image is replaced.
//!
//! A replacement that succeeds does not return: the new image runs, with
//! the buffer as its standard input. So the launch can only ever give a
//! failure back.

use crate::error::{Error, HandoffError};
use crate::options::{split_option_string, split_options, texts};
use crate::sys::{Fault, Reply};
use vstd::prelude::*;
use vstd::string::StringExecFns;

verus! {

/// The descriptor that a program reads its standard input from.
pub const STANDARD_INPUT: i32 = 0;

/// A program that can take the place of the running one.
pub trait Executable {
    /// Replaces the running program image. Returns only if that failed,
    /// with the fault.
    fn perform_exec(&mut self) -> Fault;
}

/// Replaces the running program image by `program`. Where this returns
/// the image is still the old one, and the error says why; the caller
/// can do no more than report it.
pub fn launch_replacement<E: Executable>(program: &mut E) -> (error: Error)
    ensures
        error matches Error::Handoff(HandoffError::Launch(_)),
{
    Error::Handoff(HandoffError::Launch(program.perform_exec()))
}

/// Reads what the call that duplicates the buffer onto standard input
/// returned. The call returns the descriptor it has filled: it has
/// succeeded where that is standard input, and in no other case;
/// `fault` is what the system recorded for a failure.
pub fn redirect_standard_input(returned: i32, fault: Fault) -> (reply: Reply)
    ensures
        returned == STANDARD_INPUT ==> reply == Ok::<usize, Fault>(0),
        returned != STANDARD_INPUT ==> reply == Err::<usize, Fault>(fault),
{
    if returned == STANDARD_INPUT {
        Ok(0)
    } else {
        Err(fault)
    }
}

/// The program that is launched where no other is configured.
pub fn default_program() -> (name: &'static str)
    ensures
        name@ == "mpv"@,
{
    "mpv"
}

/// The argument that tells the launched program to read its standard
/// input.
pub fn standard_input_argument() -> (argument: &'static str)
    ensures
        argument@ == "-"@,
{
    "-"
}

/// The words of the option string, none where there is no option string.
pub open spec fn option_words(options: Option<&str>) -> Seq<Seq<char>> {
    match options {
        Some(text) => split_options(text@),
        None => Seq::empty(),
    }
}

/// The arguments of the launched program: the words of the option
/// string, in order, and after them the argument that makes it read
/// standard input.
pub fn launch_arguments(options: Option<&str>) -> (arguments: Vec<String>)
    ensures
        texts(arguments@) == option_words(options).push("-"@),
{
    let mut arguments: Vec<String> = match options {
        Some(text) => split_option_string(text),
        None => Vec::new(),
    };
    let ghost words = texts(arguments@);
    assert(words =~= option_words(options));
    arguments.push(String::from_str(standard_input_argument()));
    assert(texts(arguments@) =~= words.push("-"@));
    arguments
}

/// The name of the variable that holds the option string.
pub fn options_variable() -> (name: &'static str)
    ensures
        name@ == "CUSTOM_MPV_OPTIONS"@,
{
    "CUSTOM_MPV_OPTIONS"
}

/// The name of the variable that holds the rate.
pub fn rate_variable() -> (name: &'static str)
    ensures
        name@ == "MEMFD_COPY_RATE"@,
{
    "MEMFD_COPY_RATE"
}

/// The name of the variable that holds the program to launch.
pub fn program_variable() -> (name: &'static str)
    ensures
        name@ == "CUSTOM_PLAYER_BINARY"@,
{
    "CUSTOM_PLAYER_BINARY"
}

/// The variables that are taken out of the environment of the launched
/// program: those that configure this one.
pub fn scrubbed_variables() -> (names: Vec<&'static str>)
    ensures
        names@.len() == 3,
        names@[0]@ == "CUSTOM_MPV_OPTIONS"@,
        names@[1]@ == "MEMFD_COPY_RATE"@,
        names@[2]@ == "CUSTOM_PLAYER_BINARY"@,
{
    let mut names: Vec<&'static str> = Vec::new();
    names.push(options_variable());
    names.push(rate_variable());
    names.push(program_variable());
    names
}

} // verus!
