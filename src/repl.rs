use vstd::prelude::*;

use crate::text::{chars_of, find_first, occurs_at, string_of, text_is};

verus! {

/// A directive typed in place of a prompt.
#[derive(Debug)]
pub enum Command {
    /// Show the list of commands.
    Help,
    /// Take back the last user turn and what followed it.
    Back,
    /// Show the conversation so far.
    History,
    /// A name that no command has.
    Unknown(String),
}

/// What a line typed at the prompt asks for.
#[derive(Debug)]
pub enum InputLine {
    /// Nothing was typed.
    Empty,
    /// Text to send as a user turn.
    Prompt(String),
    /// A directive, introduced by a backslash.
    Command(Command),
}

/// Whether `c` is the command that `name` designates.
pub open spec fn command_named(c: Command, name: Seq<char>) -> bool {
    let help = name == "?"@ || name == "help"@;
    let back = name == "b"@ || name == "back"@;
    let history = name == "h"@ || name == "history"@;
    match c {
        Command::Help => help,
        Command::Back => back,
        Command::History => history,
        Command::Unknown(s) => s@ == name && !help && !back && !history,
    }
}

/// The command that `name` designates.
pub fn parse_command(name: &str) -> (c: Command)
    ensures
        command_named(c, name@),
{
    if text_is(name, "?") || text_is(name, "help") {
        Command::Help
    } else if text_is(name, "b") || text_is(name, "back") {
        Command::Back
    } else if text_is(name, "h") || text_is(name, "history") {
        Command::History
    } else {
        Command::Unknown(String::from_str(name))
    }
}

/// Tells an empty line, a prompt and a directive apart.
pub fn parse_line(line: &str) -> (r: InputLine)
    ensures
        line@.len() == 0 ==> r is Empty,
        line@.len() > 0 && line@[0] == '\\' ==> (r matches InputLine::Command(c)
            && command_named(c, line@.drop_first())),
        line@.len() > 0 && line@[0] != '\\' ==> (r matches InputLine::Prompt(p) && p@
            == line@),
{
    let cs = chars_of(line);
    if cs.len() == 0 {
        InputLine::Empty
    } else if cs[0] == '\\' {
        let name = string_of(&cs, 1, cs.len());
        assert(cs@.subrange(1, cs@.len() as int) =~= line@.drop_first());
        InputLine::Command(parse_command(name.as_str()))
    } else {
        InputLine::Prompt(String::from_str(line))
    }
}

/// The label that asks for a turn of the given role.
pub fn prompt_label(role: &str) -> (r: String)
    ensures
        r@ == role@ + " => "@,
{
    let mut r = String::from_str(role);
    r.append(" => ");
    r
}

/// Helps the line editor show the role of a prompt label apart.
#[derive(Clone, Copy, Debug, Default)]
pub struct ReplHelper;

impl ReplHelper {
    /// Splits a prompt label before the first " => ": the role, and the rest.
    pub fn split_label(&self, prompt: &str) -> (r: Option<(String, String)>)
        ensures
            match r {
                Some((role, rest)) => role@ + rest@ == prompt@ && occurs_at(
                    prompt@,
                    " => "@,
                    role@.len() as int,
                ) && forall|j: int| 0 <= j < role@.len() ==> !occurs_at(prompt@, " => "@, j),
                None => forall|j: int| !occurs_at(prompt@, " => "@, j),
            },
    {
        let cs = chars_of(prompt);
        let pat = chars_of(" => ");
        match find_first(&cs, &pat) {
            Some(i) => {
                let role = string_of(&cs, 0, i);
                let rest = string_of(&cs, i, cs.len());
                assert(role@ + rest@ =~= prompt@);
                Some((role, rest))
            },
            None => None,
        }
    }
}

} // verus!
