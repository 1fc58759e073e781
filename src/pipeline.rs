//! The find-and-replace pipeline as decisions between its two file
//! operations: the caller performs each requested action and hands back what
//! came of it.
use vstd::prelude::*;
use crate::args::{parse_args, Arguments};
use crate::failure::Failure;
use crate::pattern::{pattern_compiles, replace, substitution};

verus! {

/// What the caller is to do next.
#[derive(Debug)]
pub enum Action {
    /// Load the whole input file.
    ReadInput { path: String },
    /// Write `contents` to the output file, replacing what it held.
    WriteOutput { path: String, contents: String },
    /// Report the failure on the error stream and exit with status 1.
    Report { failure: Failure },
    /// Exit with status 0, printing nothing.
    Finish,
}

impl Action {
    /// The exit status the process ends with, once this action ends it.
    pub open spec fn exit_status(&self) -> int {
        match self {
            Action::Report { .. } => 1,
            _ => 0,
        }
    }
}

/// The first step: validate the command line and ask for the input file.
pub fn begin(raw: &Vec<String>) -> (r: (Option<Arguments>, Action))
    ensures
        raw@.len() == 4 ==> (r.0 matches Some(a) && a.target == raw@[0] && a.replacement
            == raw@[1] && a.filename == raw@[2] && a.output == raw@[3] && (r.1 matches Action::ReadInput { path } && path == raw@[2])),
        raw@.len() != 4 ==> (r.0 is None && r.1 == (Action::Report {
            failure: Failure::Usage { count: raw@.len() as usize },
        })),
        raw@.len() != 4 ==> (!(r.1 is ReadInput) && !(r.1 is WriteOutput) && r.1.exit_status()
            == 1),
{
    match parse_args(raw) {
        Ok(a) => {
            let path = a.filename.clone();
            (Some(a), Action::ReadInput { path })
        },
        Err(f) => (None, Action::Report { failure: f }),
    }
}

/// The step after the input was loaded, or failed to load with `cause`: the
/// substituted text is to be written, unless the read or the pattern failed.
pub fn after_read(args: &Arguments, loaded: Result<String, String>) -> (r: Action)
    ensures
        loaded matches Err(cause) ==> r == (Action::Report {
            failure: Failure::Read { path: args.filename, cause },
        }),
        loaded is Err ==> (!(r is WriteOutput) && r.exit_status() == 1),
        loaded is Ok ==> (r is WriteOutput || r.exit_status() == 1),
        loaded matches Ok(text) ==> (pattern_compiles(args.target@) <==> r is WriteOutput),
        loaded matches Ok(text) ==> (r matches Action::WriteOutput { path, contents } ==> (path
            == args.output && contents@ == substitution(args.target@, args.replacement@, text@))),
        loaded matches Ok(text) ==> (!pattern_compiles(args.target@) ==> (r matches Action::Report {
            failure: Failure::Pattern { target, .. },
        } && target@ == args.target@)),
{
    match loaded {
        Err(cause) => Action::Report { failure: Failure::Read { path: args.filename.clone(), cause } },
        Ok(text) => match replace(args.target.as_str(), args.replacement.as_str(), text.as_str()) {
            Ok(contents) => Action::WriteOutput { path: args.output.clone(), contents },
            Err(f) => Action::Report { failure: f },
        },
    }
}

/// The step after the output was written, or failed to be written with
/// `cause`.
pub fn after_write(args: &Arguments, written: Result<(), String>) -> (r: Action)
    ensures
        written is Ok ==> (r is Finish && r.exit_status() == 0),
        written matches Err(cause) ==> r == (Action::Report {
            failure: Failure::Write { path: args.output, cause },
        }),
{
    match written {
        Ok(()) => Action::Finish,
        Err(cause) => Action::Report { failure: Failure::Write { path: args.output.clone(), cause } },
    }
}

} // verus!
