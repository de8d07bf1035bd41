//! The command line: what an argument list asks for, and what the run
//! reports.

use vstd::prelude::*;
use vstd::string::StringExecFns;
use crate::error::HocError;
use crate::git::holds_nul;
use crate::walk::{hoc_at, is_total_of_a_walk};

verus! {

/// The one flag that the command line knows.
pub const DETECTION_FLAG: &'static str = "--find-renames-and-copies";

/// The program name used where the argument list gives none.
pub const DEFAULT_PROGRAM: &'static str = "hoc";

/// What goes to the error stream when the computation fails.
pub const FAILURE_MESSAGE: &'static str = "an error occurred";

/// What an argument list asks for.
#[derive(Clone, Copy, Debug, PartialEq, Eq, Structural)]
pub enum Invocation {
    /// Compute the metric, with or without the search for renames and copies.
    Count { find_renames_and_copies: bool },
    /// Print the usage line: the first argument is not the known flag.
    Usage,
}

/// The meaning of an argument list whose first entry is the program's own
/// name: nothing after it asks for the plain metric, the detection flag
/// right after it for the metric with detection, and anything else in that
/// place for the usage line. Later arguments are not looked at.
pub open spec fn invocation_of(args: Seq<String>) -> Invocation {
    if args.len() <= 1 {
        Invocation::Count { find_renames_and_copies: false }
    } else if args[1]@ == DETECTION_FLAG@ {
        Invocation::Count { find_renames_and_copies: true }
    } else {
        Invocation::Usage
    }
}

/// Whatever repository the program stands in, an argument list with an
/// unknown word in the first place after the program's name asks for the
/// usage line; a list without such a place asks for the plain metric, and
/// one with the detection flag there for the metric with detection.
pub proof fn lemma_first_argument_decides(args: Seq<String>)
    ensures
        args.len() >= 2 && args[1]@ != DETECTION_FLAG@ ==> invocation_of(args) is Usage,
        args.len() >= 2 && args[1]@ == DETECTION_FLAG@ ==> invocation_of(args) == (
        Invocation::Count { find_renames_and_copies: true }),
        args.len() <= 1 ==> invocation_of(args) == (Invocation::Count {
            find_renames_and_copies: false,
        }),
{
}

/// Reads an argument list.
pub fn parse_args(args: &Vec<String>) -> (invocation: Invocation)
    ensures
        invocation == invocation_of(args@),
{
    if args.len() <= 1 {
        Invocation::Count { find_renames_and_copies: false }
    } else if args[1] == String::from_str(DETECTION_FLAG) {
        Invocation::Count { find_renames_and_copies: true }
    } else {
        Invocation::Usage
    }
}

/// The text of the usage line for a program of the given name.
pub open spec fn usage_text(program: Seq<char>) -> Seq<char> {
    "usage: "@ + program + " ["@ + DETECTION_FLAG@ + "]"@
}

/// Writes the usage line, under the given program name or, without one,
/// under the default name.
pub fn usage_line(program: Option<&str>) -> (line: String)
    ensures
        line@ == usage_text(
            match program {
                Some(name) => name@,
                None => DEFAULT_PROGRAM@,
            },
        ),
{
    let name = match program {
        Some(name) => name,
        None => DEFAULT_PROGRAM,
    };
    let mut line = String::from_str("usage: ");
    line.append(name);
    line.append(" [");
    line.append(DETECTION_FLAG);
    line.append("]");
    line
}

/// How a run ends.
#[derive(Clone, Copy, Debug, PartialEq, Eq, Structural)]
pub enum Outcome {
    /// The metric was computed: the total goes to standard output.
    Total(u64),
    /// The arguments were not understood: the usage line goes to the error
    /// stream.
    Usage,
    /// The computation failed: a generic message goes to the error stream.
    Failure,
}

impl Outcome {
    /// The exit status: 0 for a total, 1 for everything else.
    pub open spec fn status(self) -> int {
        if self is Total {
            0
        } else {
            1
        }
    }

    /// The outcome of a computation: its total, or a failure whatever the
    /// error was.
    pub open spec fn of(result: Result<u64, HocError>) -> Outcome {
        match result {
            Ok(total) => Outcome::Total(total),
            Err(_) => Outcome::Failure,
        }
    }

    /// Turns the result of a computation into the outcome of the run.
    pub fn conclude(result: Result<u64, HocError>) -> (outcome: Outcome)
        ensures
            outcome == Outcome::of(result),
    {
        match result {
            Ok(total) => Outcome::Total(total),
            Err(_) => Outcome::Failure,
        }
    }

    /// The exit status of the process.
    pub fn exit_status(&self) -> (status: i32)
        ensures
            status == self.status(),
    {
        match self {
            Outcome::Total(_) => 0,
            _ => 1,
        }
    }

    /// The number to print on standard output, if there is one.
    pub fn total(&self) -> (total: Option<u64>)
        ensures
            total == (match *self {
                Outcome::Total(n) => Some(n),
                _ => None::<u64>,
            }),
    {
        match self {
            Outcome::Total(n) => Some(*n),
            _ => None,
        }
    }

    /// The line to print on the error stream, if there is one: the usage
    /// line under the given program name, or the failure message.
    pub fn error_line(&self, program: Option<&str>) -> (line: Option<String>)
        ensures
            *self is Total ==> line is None,
            *self is Usage ==> line is Some && line->0@ == usage_text(
                match program {
                    Some(name) => name@,
                    None => DEFAULT_PROGRAM@,
                },
            ),
            *self is Failure ==> line is Some && line->0@ == FAILURE_MESSAGE@,
    {
        match self {
            Outcome::Total(_) => None,
            Outcome::Usage => Some(usage_line(program)),
            Outcome::Failure => Some(String::from_str(FAILURE_MESSAGE)),
        }
    }
}

/// Runs the command line on the repository at `path`. An argument list that
/// is not understood ends in `Usage` without the repository being touched;
/// any other ends in the total or in `Failure`, and in `Failure` for certain
/// where the path holds a NUL character. A total that comes back is the
/// total of a history as the walk records one.
pub fn run_at(path: &str, args: &Vec<String>) -> (outcome: Outcome)
    ensures
        outcome is Usage <==> invocation_of(args@) is Usage,
        holds_nul(path@) && !(invocation_of(args@) is Usage) ==> outcome == Outcome::Failure,
        outcome matches Outcome::Total(total) ==> is_total_of_a_walk(total),
{
    match parse_args(args) {
        Invocation::Usage => Outcome::Usage,
        Invocation::Count { find_renames_and_copies } => Outcome::conclude(
            hoc_at(path, find_renames_and_copies),
        ),
    }
}

/// Runs the command line on the repository in the current directory.
pub fn run(args: &Vec<String>) -> (outcome: Outcome)
    ensures
        outcome is Usage <==> invocation_of(args@) is Usage,
        outcome matches Outcome::Total(total) ==> is_total_of_a_walk(total),
{
    run_at(".", args)
}

} // verus!
