//! The text tool's commands: an operation name and its input.
use vstd::prelude::*;
use vstd::string::{StrSliceExecFns, StringExecFns};

use crate::file_format_ops::{csv, csv_outcome, FileOp};
use crate::simple_ops::{is_whitespace, is_whitespace_spec, op_named, op_result, SimpleOp};
use crate::text::push_char;

verus! {

/// Where a whole-file operation takes its input from.
#[derive(Debug)]
pub enum PathOrData {
    /// A file to read.
    Path(String),
    /// The input itself.
    Data(String),
}

/// A command of the text tool.
#[derive(Debug)]
pub enum Command {
    Simple(SimpleOp, String),
    File(FileOp, PathOrData),
}

/// A command as a value.
pub enum CommandModel {
    Simple(SimpleOp, Seq<char>),
    FromPath(FileOp, Seq<char>),
    FromData(FileOp, Seq<char>),
}

impl View for Command {
    type V = CommandModel;

    open spec fn view(&self) -> CommandModel {
        match self {
            Command::Simple(op, s) => CommandModel::Simple(*op, s@),
            Command::File(op, PathOrData::Path(p)) => CommandModel::FromPath(*op, p@),
            Command::File(op, PathOrData::Data(d)) => CommandModel::FromData(*op, d@),
        }
    }
}

/// The index of the first white space in `s` at or after `i`, or -1.
pub open spec fn whitespace_from(s: Seq<char>, i: int) -> int
    decreases s.len() - i,
{
    if i < 0 || i >= s.len() {
        -1
    } else if is_whitespace_spec(s[i]) {
        i
    } else {
        whitespace_from(s, i + 1)
    }
}

/// The operation a name stands for, a whole-file one first.
pub open spec fn file_op_named(s: Seq<char>) -> Option<FileOp> {
    if s == "csv"@ {
        Some(FileOp::Csv)
    } else {
        None
    }
}

/// The command `op` with `input` as its data, or the text of the error.
pub open spec fn command_for(op: Seq<char>, input: Seq<char>, from_path: bool) -> Result<
    CommandModel,
    Seq<char>,
> {
    match file_op_named(op) {
        Some(f) => Ok(
            if from_path {
                CommandModel::FromPath(f, input)
            } else {
                CommandModel::FromData(f, input)
            },
        ),
        None => match op_named(op) {
            Some(o) => Ok(CommandModel::Simple(o, input)),
            None => Err("Unknown operation: "@ + op),
        },
    }
}

/// A line `op arg`: the operation name runs to the first white space, the
/// argument is the rest after it; a whole-file operation reads the file
/// named by the argument.
pub open spec fn command_of_line(s: Seq<char>) -> Result<CommandModel, Seq<char>> {
    let i = whitespace_from(s, 0);
    if i < 0 {
        Err("Missing argument"@)
    } else {
        command_for(s.take(i), s.skip(i + 1), true)
    }
}

/// `r` reports `res` with its error as text.
pub open spec fn reports(res: Result<CommandModel, Seq<char>>, r: Result<Command, String>) -> bool {
    match res {
        Ok(c) => r matches Ok(cmd) && cmd@ == c,
        Err(e) => r matches Err(m) && m@ == e,
    }
}

fn unknown_operation(op: &str) -> (r: String)
    ensures
        r@ == "Unknown operation: "@ + op@,
{
    let mut m = String::from_str("Unknown operation: ");
    m.append(op);
    m
}

impl Command {
    fn build(op: &str, input: String, from_path: bool) -> (r: Result<Command, String>)
        ensures
            reports(command_for(op@, input@, from_path), r),
    {
        match FileOp::parse(op) {
            Some(f) => {
                if from_path {
                    Ok(Command::File(f, PathOrData::Path(input)))
                } else {
                    Ok(Command::File(f, PathOrData::Data(input)))
                }
            },
            None => match SimpleOp::parse(op) {
                Some(o) => Ok(Command::Simple(o, input)),
                None => Err(unknown_operation(op)),
            },
        }
    }

    /// Reads a line `op arg`.
    pub fn from_line(s: &str) -> (r: Result<Command, String>)
        ensures
            reports(command_of_line(s@), r),
    {
        let n = s.unicode_len();
        let mut i: usize = 0;
        while i < n && !is_whitespace(s.get_char(i))
            invariant
                n == s@.len(),
                i <= n,
                whitespace_from(s@, i as int) == whitespace_from(s@, 0),
            decreases n - i,
        {
            i += 1;
        }
        if i == n {
            return Err(String::from_str("Missing argument"));
        }
        let op = s.substring_char(0, i);
        let arg = s.substring_char(i + 1, n);
        assert(arg@ =~= s@.skip(i + 1));
        Command::build(op, String::from_str(arg), true)
    }

    /// The command `op` with all of `input` as its data.
    pub fn from_op_name_and_input(op: &str, input: String) -> (r: Result<Command, String>)
        ensures
            reports(command_for(op@, input@, false), r),
    {
        Command::build(op, input, false)
    }

    /// The file this command reads its input from, if any.
    pub fn input_path(&self) -> (r: Option<&String>)
        ensures
            match self@ {
                CommandModel::FromPath(_, p) => r matches Some(s) && s@ == p,
                _ => r is None,
            },
    {
        match self {
            Command::File(_, PathOrData::Path(p)) => Some(p),
            _ => None,
        }
    }

    /// Runs the command. A whole-file operation on a path works on `loaded`,
    /// the text read from that path.
    pub fn exec(self, loaded: Option<String>) -> (r: Result<String, String>)
        requires
            self@ is FromPath ==> loaded is Some,
        ensures
            match self@ {
                CommandModel::Simple(op, s) => r matches Ok(t) && t@.len() > 0 && t@.last()
                    == '\n' && op_result(op, s, t@.drop_last()),
                CommandModel::FromData(_, d) => csv_outcome(d, r),
                CommandModel::FromPath(_, _) => csv_outcome(loaded->Some_0@, r),
            },
    {
        match self {
            Command::Simple(op, arg) => {
                let mut out = op.exec(arg.as_str());
                let ghost before = out@;
                push_char(&mut out, '\n');
                assert(out@.drop_last() =~= before);
                Ok(out)
            },
            Command::File(FileOp::Csv, PathOrData::Data(d)) => csv(d.as_str()),
            Command::File(FileOp::Csv, PathOrData::Path(_)) => {
                let text = match loaded {
                    Some(t) => t,
                    None => String::new(),
                };
                csv(text.as_str())
            },
        }
    }
}

} // verus!
