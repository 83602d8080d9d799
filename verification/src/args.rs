//! The command line: which of the two modes is asked for, and with what.

use vstd::prelude::*;
use crate::alphabet::{alphabet_named, Alphabet};
use crate::direction::{direction_named, Direction};
use crate::number::{parse_u16, spelled_u16};
use crate::text::join3;

verus! {

/// What the command line asks for.
#[derive(Debug, PartialEq, Eq)]
pub enum ParsedArgs {
    /// Rain in a direction, from an alphabet, for a number of seconds.
    Mode1(Direction, Alphabet, u16),
    /// A video at a path, drawn with one character.
    Mode2(String, char),
}

/// A request with its path as a sequence of characters.
pub enum ParsedArgsView {
    Mode1(Direction, Alphabet, u16),
    Mode2(Seq<char>, char),
}

impl View for ParsedArgs {
    type V = ParsedArgsView;

    open spec fn view(&self) -> ParsedArgsView {
        match self {
            ParsedArgs::Mode1(direction, alphabet, duration) => ParsedArgsView::Mode1(
                *direction,
                *alphabet,
                *duration,
            ),
            ParsedArgs::Mode2(path, glyph) => ParsedArgsView::Mode2(path@, *glyph),
        }
    }
}

/// The arguments as sequences of characters.
pub open spec fn words(args: Seq<String>) -> Seq<Seq<char>> {
    args.map_values(|word: String| word@)
}

/// A result with its strings as sequences of characters.
pub open spec fn outcome_view(outcome: Result<ParsedArgs, String>) -> Result<
    ParsedArgsView,
    Seq<char>,
> {
    match outcome {
        Ok(parsed) => Ok(parsed@),
        Err(message) => Err(message@),
    }
}

/// The name under which the program was called; empty where the command
/// line does not even hold that.
pub open spec fn program_name(args: Seq<Seq<char>>) -> Seq<char> {
    if args.len() > 0 {
        args[0]
    } else {
        Seq::empty()
    }
}

/// The message for a command line with the wrong number of arguments.
pub open spec fn usage_message(program: Seq<char>) -> Seq<char> {
    "Incorrect number of arguments\nCorrect usage 1: "@ + program
        + " 1 <direction> <alphabet> <duration_in_seconds>\nCorrect usage 2: "@ + program
        + " 2 <video_path> <character>"@
}

/// The message that rejects `word`, with the reason in `what`.
pub open spec fn rejection(word: Seq<char>, what: Seq<char>) -> Seq<char> {
    "Error: '"@ + word + what
}

/// What a command line in the rain mode asks for. The direction is looked
/// at first, then the alphabet, then whether a duration is there at all,
/// then the duration.
pub open spec fn rain_request(args: Seq<Seq<char>>) -> Result<ParsedArgsView, Seq<char>> {
    match direction_named(args[2]) {
        None => Err(rejection(args[2], "' is not a valid direction"@)),
        Some(direction) => match alphabet_named(args[3]) {
            None => Err(rejection(args[3], "' is not a valid alphabet"@)),
            Some(alphabet) => if args.len() < 5 {
                Err(usage_message(program_name(args)))
            } else {
                match spelled_u16(args[4]) {
                    None => Err(
                        rejection(
                            args[4],
                            "' is not a valid duration (expected a positive integer)"@,
                        ),
                    ),
                    Some(duration) => Ok(ParsedArgsView::Mode1(direction, alphabet, duration)),
                }
            },
        },
    }
}

/// What a command line in the video mode asks for: the path as it stands,
/// and the first character of the word after it.
pub open spec fn video_request(args: Seq<Seq<char>>) -> Result<ParsedArgsView, Seq<char>> {
    if args[3].len() == 0 {
        Err(rejection(args[3], "' is not a valid character"@))
    } else {
        Ok(ParsedArgsView::Mode2(args[2], args[3][0]))
    }
}

/// What a command line asks for, or the message that rejects it. The first
/// word is the program's name, the second the mode, `1` for the rain and
/// `2` for a video; three or four words follow the name.
pub open spec fn request(args: Seq<Seq<char>>) -> Result<ParsedArgsView, Seq<char>> {
    if args.len() != 4 && args.len() != 5 {
        Err(usage_message(program_name(args)))
    } else {
        match spelled_u16(args[1]) {
            None => Err(rejection(args[1], "' is not a valid number"@)),
            Some(mode) => if mode == 1 {
                rain_request(args)
            } else if mode == 2 {
                video_request(args)
            } else {
                Err(rejection(args[1], "' is not a valid option (choose between 1 and 2)"@))
            },
        }
    }
}

/// The usage message for a program of the given name.
fn usage(program: &str) -> (message: String)
    ensures
        message@ == usage_message(program@),
{
    let mut message = join3(
        "Incorrect number of arguments\nCorrect usage 1: ",
        program,
        " 1 <direction> <alphabet> <duration_in_seconds>\nCorrect usage 2: ",
    );
    message.append(program);
    message.append(" 2 <video_path> <character>");
    message
}

/// The usage message for the command line `args`.
fn usage_for(args: &Vec<String>) -> (message: String)
    ensures
        message@ == usage_message(program_name(words(args@))),
{
    if args.len() > 0 {
        usage(args[0].as_str())
    } else {
        assert(""@ == Seq::<char>::empty()) by {
            reveal_strlit("");
        }
        usage("")
    }
}

/// Reads the rain mode's three arguments.
fn parse_rain(args: &Vec<String>) -> (outcome: Result<ParsedArgs, String>)
    requires
        args@.len() == 4 || args@.len() == 5,
    ensures
        outcome_view(outcome) == rain_request(words(args@)),
{
    let direction = match Direction::from_str(args[2].as_str()) {
        Ok(direction) => direction,
        Err(_) => {
            return Err(join3("Error: '", args[2].as_str(), "' is not a valid direction"));
        },
    };
    let alphabet = match Alphabet::from_str(args[3].as_str()) {
        Ok(alphabet) => alphabet,
        Err(_) => {
            return Err(join3("Error: '", args[3].as_str(), "' is not a valid alphabet"));
        },
    };
    if args.len() < 5 {
        return Err(usage_for(args));
    }
    match parse_u16(args[4].as_str()) {
        Some(duration) => Ok(ParsedArgs::Mode1(direction, alphabet, duration)),
        None => Err(
            join3(
                "Error: '",
                args[4].as_str(),
                "' is not a valid duration (expected a positive integer)",
            ),
        ),
    }
}

/// Reads the video mode's two arguments.
fn parse_video(args: &Vec<String>) -> (outcome: Result<ParsedArgs, String>)
    requires
        args@.len() == 4 || args@.len() == 5,
    ensures
        outcome_view(outcome) == video_request(words(args@)),
{
    let word = args[3].as_str();
    if word.is_empty() {
        Err(join3("Error: '", word, "' is not a valid character"))
    } else {
        Ok(ParsedArgs::Mode2(args[2].clone(), word.get_char(0)))
    }
}

/// Reads the command line. `args` holds the program's name and then its
/// arguments, as the operating system hands them over. The answer is the
/// request, or the message to print before the program gives up.
pub fn parse_args(args: &Vec<String>) -> (outcome: Result<ParsedArgs, String>)
    ensures
        outcome_view(outcome) == request(words(args@)),
{
    if args.len() != 5 && args.len() != 4 {
        return Err(usage_for(args));
    }
    match parse_u16(args[1].as_str()) {
        None => Err(join3("Error: '", args[1].as_str(), "' is not a valid number")),
        Some(mode) => {
            if mode == 1 {
                parse_rain(args)
            } else if mode == 2 {
                parse_video(args)
            } else {
                Err(
                    join3(
                        "Error: '",
                        args[1].as_str(),
                        "' is not a valid option (choose between 1 and 2)",
                    ),
                )
            }
        },
    }
}

} // verus!
