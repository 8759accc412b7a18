//! Commands as values: what is to be run, and the reading of what a run
//! printed.
use vstd::prelude::*;
use super::text::{
    from_chars, replace, replace_chars, same_chars, split, split_chars, str_split, str_trim, texts,
    to_chars, trim, trim_chars,
};

verus! {

/// A program to run with its arguments and, where it reads any, its input.
#[derive(Debug, PartialEq, Eq)]
pub struct Command {
    pub program: String,
    pub args: Vec<String>,
    pub stdin: Option<String>,
}

impl Command {
    /// The command runs `program` with `args` and no input.
    pub open spec fn runs(&self, program: Seq<char>, args: Seq<Seq<char>>) -> bool {
        &&& self.program@ == program
        &&& texts(self.args@) == args
        &&& self.stdin is None
    }

    /// The command runs `program` with `args` and feeds it `input`.
    pub open spec fn runs_with_input(
        &self,
        program: Seq<char>,
        args: Seq<Seq<char>>,
        input: Seq<char>,
    ) -> bool {
        &&& self.program@ == program
        &&& texts(self.args@) == args
        &&& self.stdin is Some
        &&& self.stdin->0@ == input
    }

    /// The command that runs `program` with `args`.
    pub fn new(program: &str, args: Vec<String>) -> (cmd: Command)
        ensures
            cmd.runs(program@, texts(args@)),
    {
        Command { program: program.to_owned(), args, stdin: None }
    }

    /// The command that runs `program` with `args` and feeds it `input`.
    pub fn with_input(program: &str, args: Vec<String>, input: String) -> (cmd: Command)
        ensures
            cmd.runs_with_input(program@, texts(args@), input@),
    {
        Command { program: program.to_owned(), args, stdin: Some(input) }
    }
}

/// How a run of a command ended.
#[derive(Debug, PartialEq, Eq)]
pub struct Output {
    /// The command ended with status zero.
    pub success: bool,
    /// What it printed.
    pub stdout: String,
    /// What it printed as errors, where that is text.
    pub stderr: Option<String>,
}

/// Why a command gave no result.
#[derive(Debug, PartialEq, Eq)]
pub enum CommandError {
    /// The command failed and said why.
    InvalidData(String),
    /// The command failed and what it said is no text.
    Other,
}

/// What a finished run gives: what it printed, trimmed where `trimmed`
/// says so, or the reason of its failure.
pub open spec fn result_of(output: Output, trimmed: bool) -> Result<Seq<char>, CommandError> {
    if output.success {
        Ok(
            if trimmed {
                trim(output.stdout@)
            } else {
                output.stdout@
            },
        )
    } else {
        match output.stderr {
            Some(text) => Err(CommandError::InvalidData(text)),
            None => Err(CommandError::Other),
        }
    }
}

/// The result of a command that was run with arguments: what it printed,
/// without the white space at its ends.
pub fn exec_cmd(output: Output) -> (r: Result<String, CommandError>)
    ensures
        match r {
            Ok(text) => result_of(output, true) == Ok::<Seq<char>, CommandError>(text@),
            Err(e) => result_of(output, true) == Err::<Seq<char>, CommandError>(e),
        },
{
    if output.success {
        Ok(str_trim(output.stdout.as_str()))
    } else {
        match output.stderr {
            Some(text) => Err(CommandError::InvalidData(text)),
            None => Err(CommandError::Other),
        }
    }
}

/// The result of a command that was spawned and fed its input: what it
/// printed, as it stands.
pub fn exec_spawn_cmd(output: Output) -> (r: Result<String, CommandError>)
    ensures
        match r {
            Ok(text) => result_of(output, false) == Ok::<Seq<char>, CommandError>(text@),
            Err(e) => result_of(output, false) == Err::<Seq<char>, CommandError>(e),
        },
{
    if output.success {
        Ok(output.stdout)
    } else {
        match output.stderr {
            Some(text) => Err(CommandError::InvalidData(text)),
            None => Err(CommandError::Other),
        }
    }
}

/// The result of two commands run as a pipeline, from the output of the
/// second; `None` stands for a first command whose output could not be
/// had.
pub fn exec_pipe_cmd(output: Option<Output>) -> (r: Result<String, CommandError>)
    ensures
        match output {
            Some(o) => match r {
                Ok(text) => result_of(o, false) == Ok::<Seq<char>, CommandError>(text@),
                Err(e) => result_of(o, false) == Err::<Seq<char>, CommandError>(e),
            },
            None => r == Err::<String, CommandError>(CommandError::Other),
        },
{
    match output {
        Some(o) => exec_spawn_cmd(o),
        None => Err(CommandError::Other),
    }
}

/// Whether `val`, without the white space around it, is the word `yes`.
pub fn get_bool_yesno(val: &str) -> (r: bool)
    ensures
        r == (trim(val@) == "yes"@),
{
    let trimmed = trim_chars(&to_chars(val));
    same_chars(&trimmed, &to_chars("yes"))
}

/// The value of a line of the form key, separator, value: the second of
/// the pieces between the separators, without the white space around it and
/// without double quotes; empty where the line holds no separator.
pub open spec fn val_from_keyval(line: Seq<char>, sep: Seq<char>) -> Seq<char> {
    let parts = split(line, sep);
    if parts.len() > 1 {
        replace(trim(parts[1]), seq!['"'], Seq::<char>::empty())
    } else {
        Seq::<char>::empty()
    }
}

/// The separator of a line where none is given.
pub open spec fn separator(sep: Option<&str>) -> Seq<char> {
    match sep {
        Some(s) => s@,
        None => seq!['='],
    }
}

/// The value of a line of the form key, separator, value; the separator is
/// the equals sign where none is given.
pub fn get_val_from_keyval(line: &str, sep: Option<&str>) -> (r: String)
    ensures
        r@ == val_from_keyval(line@, separator(sep)),
{
    let sep_chars: Vec<char> = match sep {
        Some(s) => to_chars(s),
        None => {
            let mut v: Vec<char> = Vec::new();
            v.push('=');
            assert(v@ =~= seq!['=']);
            v
        },
    };
    let parts = split_chars(&to_chars(line), &sep_chars);
    if parts.len() > 1 {
        let mut quote: Vec<char> = Vec::new();
        quote.push('"');
        assert(quote@ =~= seq!['"']);
        let nothing: Vec<char> = Vec::new();
        assert(nothing@ =~= Seq::<char>::empty());
        let value = replace_chars(&trim_chars(&parts[1]), &quote, &nothing);
        from_chars(&value)
    } else {
        String::new()
    }
}

/// `val` cut at every occurrence of `sep`.
pub fn get_list_by_sep(val: &str, sep: &str) -> (r: Vec<String>)
    ensures
        texts(r@) == split(val@, sep@),
{
    str_split(val, sep)
}

} // verus!
