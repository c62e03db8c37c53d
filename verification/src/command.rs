//! Command lines: assembling the full line from its parts and splitting it
//! into a program and its arguments.

use vstd::prelude::*;
use vstd::string::StringExecFns;

verus! {

/// The words that `shlex::split` finds in a line by the rules of a POSIX
/// shell, or `None` where the line is malformed (an open quote, a trailing
/// escape).
pub uninterp spec fn shell_words(line: Seq<char>) -> Option<Seq<Seq<char>>>;

/// The texts of a sequence of strings.
pub open spec fn texts(words: Seq<String>) -> Seq<Seq<char>> {
    Seq::new(words.len(), |i: int| words[i]@)
}

/// `shlex::split`: the words of the line, or `None` where the line is
/// malformed.
#[verifier::external_body]
fn split_words(line: &str) -> (r: Option<Vec<String>>)
    ensures
        match r {
            Some(words) => shell_words(line@) == Some(texts(words@)),
            None => shell_words(line@) is None,
        },
{
    shlex::split(line)
}

/// A program and the arguments to start it with.
#[derive(Clone, Debug, PartialEq, Eq)]
pub struct Executable {
    pub program: String,
    pub args: Vec<String>,
}

/// Why a command line gives no executable.
#[derive(Clone, Copy, Debug, PartialEq, Eq, Structural)]
pub enum BuildError {
    /// The line is not well-formed shell syntax.
    Malformed,
    /// The line holds no word, so there is no program to start.
    NoProgram,
}

/// The command prefix as it stands before a command: followed by one space
/// where there is a prefix, empty where there is none.
pub open spec fn leading_text(prefix: Option<Seq<char>>) -> Seq<char> {
    match prefix {
        Some(p) => p.push(' '),
        None => Seq::empty(),
    }
}

/// The full command line: prefix, a space, the command and the postfix; a
/// part that is not configured is left out, the space with the prefix.
pub open spec fn full_command(
    prefix: Option<Seq<char>>,
    command: Seq<char>,
    postfix: Option<Seq<char>>,
) -> Seq<char> {
    leading_text(prefix) + command + match postfix {
        Some(q) => q,
        None => Seq::empty(),
    }
}

/// Assembles the full command line of a command.
pub fn assemble(prefix: Option<&str>, command: &str, postfix: Option<&str>) -> (r: String)
    ensures
        r@ == full_command(
            match prefix {
                Some(p) => Some(p@),
                None => None,
            },
            command@,
            match postfix {
                Some(q) => Some(q@),
                None => None,
            },
        ),
{
    let mut line = String::new();
    if let Some(p) = prefix {
        proof {
            reveal_strlit(" ");
        }
        line.append(p);
        line.append(" ");
        assert(line@ =~= p@.push(' '));
    }
    assert(line@ =~= leading_text(
        match prefix {
            Some(p) => Some(p@),
            None => None,
        },
    ));
    line.append(command);
    if let Some(q) = postfix {
        line.append(q);
    } else {
        assert(line@ =~= line@ + Seq::<char>::empty());
    }
    line
}

/// What a split line gives: the first word is the program, the others are
/// its arguments.
pub open spec fn executable_of(words: Option<Seq<Seq<char>>>) -> Result<
    (Seq<char>, Seq<Seq<char>>),
    BuildError,
> {
    match words {
        None => Err(BuildError::Malformed),
        Some(w) => if w.len() == 0 {
            Err(BuildError::NoProgram)
        } else {
            Ok((w[0], w.skip(1)))
        },
    }
}

impl Executable {
    /// The program's text and the arguments' texts.
    pub open spec fn view(&self) -> (Seq<char>, Seq<Seq<char>>) {
        (self.program@, texts(self.args@))
    }
}

/// Whether an outcome of building is the one that `expected` describes.
pub open spec fn builds_to(
    r: Result<Executable, BuildError>,
    expected: Result<(Seq<char>, Seq<Seq<char>>), BuildError>,
) -> bool {
    match r {
        Ok(exe) => expected == Ok::<(Seq<char>, Seq<Seq<char>>), BuildError>(exe@),
        Err(e) => expected == Err::<(Seq<char>, Seq<Seq<char>>), BuildError>(e),
    }
}

/// Turns the words of a split line into an executable.
///
/// A line that could not be split is `Malformed`; one without any word has
/// `NoProgram`.
pub fn executable_from_words(words: Option<Vec<String>>) -> (r: Result<Executable, BuildError>)
    ensures
        builds_to(
            r,
            executable_of(
                match words {
                    Some(w) => Some(texts(w@)),
                    None => None,
                },
            ),
        ),
{
    match words {
        None => Err(BuildError::Malformed),
        Some(w) => {
            let mut rest = w;
            if rest.len() == 0 {
                Err(BuildError::NoProgram)
            } else {
                let ghost all = texts(rest@);
                let program = rest.remove(0);
                assert(texts(rest@) =~= all.skip(1));
                Ok(Executable { program, args: rest })
            }
        },
    }
}

/// Splits a full command line by the rules of a POSIX shell and takes the
/// first word as the program, the others as its arguments.
pub fn build_command(line: &str) -> (r: Result<Executable, BuildError>)
    ensures
        builds_to(r, executable_of(shell_words(line@))),
{
    executable_from_words(split_words(line))
}

} // verus!
