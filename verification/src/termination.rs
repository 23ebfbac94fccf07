//! The end of the process, as a value.
//!
//! A handler that ends the process does not end it itself. It returns a
//! `Termination`, which says what is still to be written to standard output
//! and with which code the process then exits; the caller carries it out.

use vstd::prelude::*;
use vstd::string::StringExecFns;

verus! {

/// The exit code of a process that ended as intended.
pub const EXIT_SUCCESS: i32 = 0;

/// The line that is written when the process ends without a text of the
/// caller's.
pub const FAREWELL: &'static str = "继续";

/// What remains to be done to end the process.
#[derive(Debug, PartialEq, Eq)]
pub struct Termination {
    /// The text to write to standard output, line end included.
    pub output: String,
    /// The code with which the process exits once `output` is written.
    pub code: i32,
}

impl Clone for Termination {
    fn clone(&self) -> (copy: Self)
        ensures
            copy == *self,
    {
        Termination { output: self.output.clone(), code: self.code }
    }
}

/// A text as it is written on a line of its own: followed by a line feed.
pub open spec fn line_of(text: Seq<char>) -> Seq<char> {
    text.push('\n')
}

/// A line ends in a line feed, and is therefore never empty.
pub proof fn lemma_line_ends_in_line_feed(text: Seq<char>)
    ensures
        line_of(text).len() == text.len() + 1,
        line_of(text).last() == '\n',
        line_of(text).drop_last() == text,
{
    assert(line_of(text).drop_last() =~= text);
}

/// The end of the process that prints `content`: the content is written on a
/// line of its own, and the process exits with `EXIT_SUCCESS`.
pub fn print_and_exit(content: String) -> (end: Termination)
    ensures
        end.output@ == line_of(content@),
        end.code == EXIT_SUCCESS,
{
    proof {
        reveal_strlit("\n");
        assert(content@ + "\n"@ =~= line_of(content@));
    }
    Termination { output: content.concat("\n"), code: EXIT_SUCCESS }
}

/// The end of the process that has nothing of the caller's to print: the
/// line `FAREWELL` is written, and the process exits with `EXIT_SUCCESS`.
pub fn direct_exit() -> (end: Termination)
    ensures
        end.output@ == line_of(FAREWELL@),
        end.output@ == seq!['继', '续', '\n'],
        end.code == EXIT_SUCCESS,
{
    proof {
        reveal_strlit("继续");
        assert(line_of(FAREWELL@) =~= seq!['继', '续', '\n']);
    }
    print_and_exit(String::from_str(FAREWELL))
}

} // verus!
