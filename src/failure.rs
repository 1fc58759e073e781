//! The four ways an invocation of the find-and-replace pipeline can fail, and
//! how each is reported.
use vstd::prelude::*;
use vstd::string::StringExecFns;
use text_colorizer::Colorize;
use crate::decimal::{decimal, decimal_text};

verus! {

/// Which stage of the pipeline failed, with what it was working on and why.
#[derive(Debug)]
pub enum Failure {
    /// The command line did not hold exactly four arguments; `count` is how
    /// many it held.
    Usage { count: usize },
    /// The input file could not be loaded.
    Read { path: String, cause: String },
    /// The target is not a valid regular expression; `diagnostic` is the
    /// engine's own explanation.
    Pattern { target: String, diagnostic: String },
    /// The output file could not be written.
    Write { path: String, cause: String },
}

/// `s` holds no escape character, so styling cannot be confused with it.
pub open spec fn free_of_escapes(s: Seq<char>) -> bool {
    forall|i: int| 0 <= i < s.len() ==> s[i] != '\x1b'
}

/// The banner that introduces a usage error, given the program name as it is
/// to be shown.
pub open spec fn usage_banner(program: Seq<char>) -> Seq<char> {
    program + " - change occurrences of one string into another\n"@
        + "Usage: quickreplace <target> <replacement> <INPUT> <OUTPUT>\n"@
}

/// `s` in bold red for a terminal.
pub open spec fn bold_red(s: Seq<char>) -> Seq<char> {
    "\x1b[1;31m"@ + s + "\x1b[0m"@
}

/// `s` in green for a terminal.
pub open spec fn green(s: Seq<char>) -> Seq<char> {
    "\x1b[32m"@ + s + "\x1b[0m"@
}

/// Relies on text_colorizer (the `colored` crate): `red().bold()` styles the
/// text, and displaying it writes the text as it is where colouring is off,
/// and between the bold red code and the reset code where it is on.
#[verifier::external_body]
fn paint_error(s: &str) -> (r: String)
    requires
        free_of_escapes(s@),
    ensures
        r@ == s@ || r@ == bold_red(s@),
{
    s.red().bold().to_string()
}

/// Relies on text_colorizer (the `colored` crate): `green()` styles the text,
/// and displaying it writes the text as it is where colouring is off, and
/// between the green code and the reset code where it is on.
#[verifier::external_body]
fn paint_program(s: &str) -> (r: String)
    requires
        free_of_escapes(s@),
    ensures
        r@ == s@ || r@ == green(s@),
{
    s.green().to_string()
}

impl Failure {
    /// What went wrong, after the severity label.
    pub open spec fn description(&self) -> Seq<char> {
        match self {
            Failure::Usage { count } => " wrong number of arguments: expected 4, got "@ + decimal(
                *count as nat,
            ) + "."@,
            Failure::Read { path, cause } => " failed to read from file '"@ + path@ + "': "@
                + cause@,
            Failure::Pattern { target, diagnostic } => " failed to compile pattern '"@ + target@
                + "': "@ + diagnostic@,
            Failure::Write { path, cause } => " failed to write to file '"@ + path@ + "': "@
                + cause@,
        }
    }

    /// The full report: the usage banner first for a usage error, then the
    /// severity label and the description.
    pub open spec fn rendered(&self, label: Seq<char>, program: Seq<char>) -> Seq<char> {
        (if self is Usage {
            usage_banner(program)
        } else {
            Seq::empty()
        }) + label + self.description()
    }

    /// Writes the description of this failure.
    pub fn describe(&self) -> (r: String)
        ensures
            r@ == self.description(),
    {
        match self {
            Failure::Usage { count } => {
                let mut s = String::from_str(" wrong number of arguments: expected 4, got ");
                let n = decimal_text(*count as u64);
                s.append(n.as_str());
                s.append(".");
                s
            },
            Failure::Read { path, cause } => {
                let mut s = String::from_str(" failed to read from file '");
                s.append(path.as_str());
                s.append("': ");
                s.append(cause.as_str());
                s
            },
            Failure::Pattern { target, diagnostic } => {
                let mut s = String::from_str(" failed to compile pattern '");
                s.append(target.as_str());
                s.append("': ");
                s.append(diagnostic.as_str());
                s
            },
            Failure::Write { path, cause } => {
                let mut s = String::from_str(" failed to write to file '");
                s.append(path.as_str());
                s.append("': ");
                s.append(cause.as_str());
                s
            },
        }
    }

    /// Assembles the report from a severity label and a program name, however
    /// they have been styled.
    pub fn render(&self, label: &str, program: &str) -> (r: String)
        ensures
            r@ == self.rendered(label@, program@),
    {
        let mut s = String::new();
        if let Failure::Usage { .. } = self {
            s.append(program);
            s.append(" - change occurrences of one string into another\n");
            s.append("Usage: quickreplace <target> <replacement> <INPUT> <OUTPUT>\n");
        }
        s.append(label);
        let d = self.describe();
        s.append(d.as_str());
        assert(s@ =~= self.rendered(label@, program@));
        s
    }

    /// The report for the error stream, with the label "Error:" in bold red
    /// and the program name in green where the terminal takes colour, and both
    /// plain where it does not.
    pub fn report(&self) -> (r: String)
        ensures
            exists|label: Seq<char>, program: Seq<char>|
                (label == "Error:"@ || label == bold_red("Error:"@)) && (program == "quickreplace"@
                    || program == green("quickreplace"@)) && r@ == self.rendered(label, program),
    {
        let error_word: &str = "Error:";
        let program_word: &str = "quickreplace";
        proof {
            reveal_strlit("Error:");
            reveal_strlit("quickreplace");
        }
        let label = paint_error(error_word);
        let program = paint_program(program_word);
        self.render(label.as_str(), program.as_str())
    }
}

} // verus!
