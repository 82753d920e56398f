//! The command line of the child: a program name and its arguments, split
//! from one string by the word and quoting rules of the Bourne shell.

use crate::error::RunError;
use vstd::prelude::*;

verus! {

/// The command that starts the child.
#[derive(Debug, PartialEq, Eq)]
pub struct CommandLine {
    /// The program to start.
    pub program: String,
    /// Its arguments, in order.
    pub args: Vec<String>,
}

/// A command as plain text.
pub struct CommandText {
    pub program: Seq<char>,
    pub args: Seq<Seq<char>>,
}

impl View for CommandLine {
    type V = CommandText;

    open spec fn view(&self) -> CommandText {
        CommandText { program: self.program@, args: texts(self.args@) }
    }
}

/// The text of each word.
pub open spec fn texts(words: Seq<String>) -> Seq<Seq<char>> {
    words.map_values(|w: String| w@)
}

/// A character with the Unicode property `White_Space`.
pub open spec fn is_space(c: char) -> bool {
    let c = c as u32;
    ||| 0x09 <= c <= 0x0d
    ||| c == 0x20
    ||| c == 0x85
    ||| c == 0xa0
    ||| c == 0x1680
    ||| 0x2000 <= c <= 0x200a
    ||| c == 0x2028
    ||| c == 0x2029
    ||| c == 0x202f
    ||| c == 0x205f
    ||| c == 0x3000
}

/// The text is empty or holds white space only.
pub open spec fn is_blank(s: Seq<char>) -> bool {
    forall|i: int| 0 <= i < s.len() ==> is_space(#[trigger] s[i])
}

/// The words that `shellwords::split` makes of a command, or `None` where it
/// reports mismatched quotes.
pub uninterp spec fn shell_words(command: Seq<char>) -> Option<Seq<Seq<char>>>;

/// The command that a list of words is: the first word is the program, the
/// others are its arguments; no word is no command.
pub open spec fn command_of_words(words: Seq<Seq<char>>) -> Result<CommandText, RunError> {
    if words.len() == 0 {
        Err(RunError::EmptyCommand)
    } else {
        Ok(CommandText { program: words[0], args: words.skip(1) })
    }
}

/// The command that the outcome of the split is.
pub open spec fn command_of_split(split: Option<Seq<Seq<char>>>) -> Result<CommandText, RunError> {
    match split {
        Some(words) => command_of_words(words),
        None => Err(RunError::MismatchedQuotes),
    }
}

/// The outcome of a parse as plain text.
pub open spec fn parsed_text(parsed: Result<CommandLine, RunError>) -> Result<
    CommandText,
    RunError,
> {
    match parsed {
        Ok(command) => Ok(command@),
        Err(e) => Err(e),
    }
}

/// The error of `shellwords::split`, a unit struct that says no more than
/// that the quotes are mismatched. Nothing is claimed of it.
#[verifier::external_type_specification]
#[verifier::external_body]
pub struct ExMismatchedQuotes(shellwords::MismatchedQuotes);

/// The outcome of a split as plain text: the words, or `None` for mismatched
/// quotes.
pub open spec fn split_text(outcome: Result<Vec<String>, shellwords::MismatchedQuotes>) -> Option<
    Seq<Seq<char>>,
> {
    match outcome {
        Ok(words) => Some(texts(words@)),
        Err(_) => None,
    }
}

/// Splits a command into words with `shellwords::split`.
///
/// Trusted: the outcome is a function of the command alone, named
/// `shell_words`; and a command without a character that is not white space
/// gives no word, because every match of the pattern by which
/// `shellwords::split` finds its words holds such a character.
#[verifier::external_body]
fn split_words(command: &str) -> (outcome: Result<Vec<String>, shellwords::MismatchedQuotes>)
    ensures
        split_text(outcome) == shell_words(command@),
        is_blank(command@) ==> split_text(outcome) == Some(Seq::<Seq<char>>::empty()),
{
    shellwords::split(command)
}

/// Makes a command of words that are already split: the first is the
/// program, the others its arguments. Fails with `EmptyCommand` exactly where
/// there is no word.
pub fn command_from_words(words: Vec<String>) -> (parsed: Result<CommandLine, RunError>)
    ensures
        parsed_text(parsed) == command_of_words(texts(words@)),
{
    let mut words = words;
    if words.is_empty() {
        return Err(RunError::EmptyCommand);
    }
    let ghost all = words@;
    let program = words.remove(0);
    assert(texts(words@) == texts(all).skip(1));
    Ok(CommandLine { program, args: words })
}

/// Parses the command that the operator gave.
///
/// Fails with `MismatchedQuotes` exactly where the split reports them, and
/// with `EmptyCommand` exactly where the split gives no word; an empty command
/// and one of white space only are of that kind.
pub fn parse_command(command: &str) -> (parsed: Result<CommandLine, RunError>)
    ensures
        parsed_text(parsed) == command_of_split(shell_words(command@)),
        is_blank(command@) ==> parsed == Err::<CommandLine, RunError>(RunError::EmptyCommand),
{
    match split_words(command) {
        Ok(words) => command_from_words(words),
        Err(_) => Err(RunError::MismatchedQuotes),
    }
}

} // verus!
