//! Command lines of the external programs.
//!
//! A command line names the scratch buffers it works on by side, not by
//! path: the shell that owns the files puts the paths in.

use vstd::prelude::*;
use crate::keys::Side;
use crate::machine::External;

verus! {

/// One argument of an external command.
#[derive(Clone, Debug, PartialEq, Eq)]
pub enum Argument {
    /// The path of a scratch buffer.
    Path(Side),
    /// A literal word.
    Text(String),
}

/// An external program with its arguments, in order.
#[derive(Clone, Debug, PartialEq, Eq)]
pub struct ExternalCommand {
    pub program: String,
    pub arguments: Vec<Argument>,
}

/// The mathematical value of an [`Argument`].
pub enum ArgumentModel {
    Path(Side),
    Text(Seq<char>),
}

/// The mathematical value of an [`ExternalCommand`].
pub struct CommandLine {
    pub program: Seq<char>,
    pub arguments: Seq<ArgumentModel>,
}

impl View for Argument {
    type V = ArgumentModel;

    open spec fn view(&self) -> ArgumentModel {
        match *self {
            Argument::Path(side) => ArgumentModel::Path(side),
            Argument::Text(text) => ArgumentModel::Text(text@),
        }
    }
}

impl View for ExternalCommand {
    type V = CommandLine;

    open spec fn view(&self) -> CommandLine {
        CommandLine {
            program: self.program@,
            arguments: self.arguments@.map_values(|argument: Argument| argument@),
        }
    }
}

/// The environment variable that names the preferred editor.
pub open spec fn editor_variable_name() -> Seq<char> {
    "EDITOR"@
}

/// The editor that runs when no preference is set.
pub open spec fn default_editor() -> Seq<char> {
    "vim"@
}

/// The diff viewer.
pub open spec fn diff_viewer() -> Seq<char> {
    "delta"@
}

/// The editor's command line: the preferred program, or the default one, on
/// the path of the one buffer.
pub open spec fn editor_line(preferred: Option<Seq<char>>, side: Side) -> CommandLine {
    CommandLine {
        program: match preferred {
            Some(program) => program,
            None => default_editor(),
        },
        arguments: seq![ArgumentModel::Path(side)],
    }
}

/// The diff viewer's command line: left path, right path, and the flag that
/// forces paging.
pub open spec fn diff_line() -> CommandLine {
    CommandLine {
        program: diff_viewer(),
        arguments: seq![
            ArgumentModel::Path(Side::Left),
            ArgumentModel::Path(Side::Right),
            ArgumentModel::Text("--paging"@),
            ArgumentModel::Text("always"@),
        ],
    }
}

/// The command line of an external program.
pub open spec fn line_for(target: External, preferred: Option<Seq<char>>) -> CommandLine {
    match target {
        External::Editor(side) => editor_line(preferred, side),
        External::Diff => diff_line(),
    }
}

/// The view of an optional string.
pub open spec fn preference(preferred: Option<String>) -> Option<Seq<char>> {
    match preferred {
        Some(program) => Some(program@),
        None => None,
    }
}

/// The name of the environment variable that selects the editor.
pub fn editor_variable() -> (name: &'static str)
    ensures
        name@ == editor_variable_name(),
{
    "EDITOR"
}

/// The editor invocation for one buffer. `preferred` is the value of the
/// editor variable, `None` when it is not set; a value that is set is used
/// as it stands, even when it is empty.
pub fn editor_command(preferred: Option<String>, side: Side) -> (command: ExternalCommand)
    ensures
        command@ == editor_line(preference(preferred), side),
{
    let program = match preferred {
        Some(program) => program,
        None => "vim".to_owned(),
    };
    let arguments = vec![Argument::Path(side)];
    let command = ExternalCommand { program, arguments };
    assert(command@.arguments =~= seq![ArgumentModel::Path(side)]);
    command
}

/// The diff invocation for the two buffers.
pub fn diff_command() -> (command: ExternalCommand)
    ensures
        command@ == diff_line(),
{
    let arguments = vec![
        Argument::Path(Side::Left),
        Argument::Path(Side::Right),
        Argument::Text("--paging".to_owned()),
        Argument::Text("always".to_owned()),
    ];
    let command = ExternalCommand { program: "delta".to_owned(), arguments };
    assert(command@.arguments =~= diff_line().arguments);
    command
}

/// The invocation that the effect `Run(target)` asks for.
pub fn command_for(target: External, preferred: Option<String>) -> (command: ExternalCommand)
    ensures
        command@ == line_for(target, preference(preferred)),
{
    match target {
        External::Editor(side) => editor_command(preferred, side),
        External::Diff => diff_command(),
    }
}

} // verus!
