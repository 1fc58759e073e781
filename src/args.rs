//! The command line of the find-and-replace tool.
use vstd::prelude::*;
use crate::failure::Failure;

verus! {

/// The four positional arguments: what to look for, what to put in its place,
/// where to read and where to write.
#[derive(Debug)]
pub struct Arguments {
    pub target: String,
    pub replacement: String,
    pub filename: String,
    pub output: String,
}

/// Takes the arguments that follow the program name. Exactly four are
/// expected, in the order target, replacement, input path, output path.
pub fn parse_args(args: &Vec<String>) -> (r: Result<Arguments, Failure>)
    ensures
        r is Ok <==> args@.len() == 4,
        r matches Ok(a) ==> (a.target == args@[0] && a.replacement == args@[1] && a.filename
            == args@[2] && a.output == args@[3]),
        r matches Err(f) ==> f == (Failure::Usage { count: args@.len() as usize }),
{
    if args.len() != 4 {
        return Err(Failure::Usage { count: args.len() });
    }
    Ok(
        Arguments {
            target: args[0].clone(),
            replacement: args[1].clone(),
            filename: args[2].clone(),
            output: args[3].clone(),
        },
    )
}

} // verus!
