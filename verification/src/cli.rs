//! The request that one run of the engine serves.

use vstd::prelude::*;
use crate::error::{Error, ErrorView};

verus! {

/// What a [`Task`] denotes.
#[allow(inconsistent_fields)]
pub enum TaskView {
    Create {
        path: Seq<char>,
        name: Option<Seq<char>>,
        description: Option<Seq<char>>,
        commands: Seq<Seq<char>>,
        ignore: Seq<Seq<char>>,
        definition_file: Option<Seq<char>>,
        force: bool,
    },
    Expand {
        name: Seq<char>,
        path: Option<Seq<char>>,
        envs: Seq<Seq<char>>,
        create_as: Option<Seq<char>>,
        no_exec: bool,
    },
    List { name: Option<Seq<char>>, commands: bool, file_tree: bool },
    Delete { name: Seq<char> },
    Edit { name: Seq<char> },
}

/// One operation on the templates.
#[derive(Debug, PartialEq, Eq)]
#[allow(inconsistent_fields)]
pub enum Task {
    /// Capture a directory tree as a template.
    Create {
        /// The directory to capture.
        path: String,
        /// The name of the template.
        name: Option<String>,
        /// Free text for people.
        description: Option<String>,
        /// Command lines to run after each expansion.
        commands: Vec<String>,
        /// Glob patterns of paths to leave out.
        ignore: Vec<String>,
        /// A definition document that supplies what is not given here.
        definition_file: Option<String>,
        /// Overwrite a template of the same name.
        force: bool,
    },
    /// Materialise a template in a new directory.
    Expand {
        /// The name of the template.
        name: String,
        /// The directory in which the new directory is made.
        path: Option<String>,
        /// Environment overrides for the commands, each `key=value`.
        envs: Vec<String>,
        /// The name of the new directory.
        create_as: Option<String>,
        /// Do not run the template's commands.
        no_exec: bool,
    },
    /// Show the stored templates.
    List {
        /// Show only templates whose name holds this text.
        name: Option<String>,
        /// Show the commands of the named template as well.
        commands: bool,
        /// Show the file tree of the named template as well.
        file_tree: bool,
    },
    /// Remove a template.
    Delete { name: String },
    /// Edit the record of a template.
    Edit { name: String },
}

impl View for Task {
    type V = TaskView;

    open spec fn view(&self) -> TaskView {
        match self {
            Task::Create { path, name, description, commands, ignore, definition_file, force } => {
                TaskView::Create {
                    path: path@,
                    name: name.deep_view(),
                    description: description.deep_view(),
                    commands: commands.deep_view(),
                    ignore: ignore.deep_view(),
                    definition_file: definition_file.deep_view(),
                    force: *force,
                }
            },
            Task::Expand { name, path, envs, create_as, no_exec } => TaskView::Expand {
                name: name@,
                path: path.deep_view(),
                envs: envs.deep_view(),
                create_as: create_as.deep_view(),
                no_exec: *no_exec,
            },
            Task::List { name, commands, file_tree } => TaskView::List {
                name: name.deep_view(),
                commands: *commands,
                file_tree: *file_tree,
            },
            Task::Delete { name } => TaskView::Delete { name: name@ },
            Task::Edit { name } => TaskView::Edit { name: name@ },
        }
    }
}

/// What a [`Command`] denotes.
pub struct CommandView {
    pub task: TaskView,
    pub verbose: bool,
}

/// A request to the engine: the operation, and how much to say about it.
#[derive(Debug, PartialEq, Eq)]
pub struct Command {
    /// The operation.
    pub task: Task,
    /// Report each step.
    pub verbose: bool,
}

impl View for Command {
    type V = CommandView;

    open spec fn view(&self) -> CommandView {
        CommandView { task: self.task@, verbose: self.verbose }
    }
}

/// What is said on top of an error, whatever the error: which operation it
/// was that failed.
pub open spec fn context_of(task: TaskView) -> Seq<char> {
    match task {
        TaskView::Create { .. } => "Failed to create template"@,
        TaskView::Expand { .. } => "Failed to expand template"@,
        TaskView::List { .. } => "Failed to list templates"@,
        TaskView::Delete { .. } => "Failed to delete template"@,
        TaskView::Edit { .. } => "Failed to edit template"@,
    }
}

/// Names the operation for the top of an error chain.
pub fn operation_context(task: &Task) -> (text: String)
    ensures
        text@ == context_of(task@),
{
    match task {
        Task::Create { .. } => "Failed to create template".to_owned(),
        Task::Expand { .. } => "Failed to expand template".to_owned(),
        Task::List { .. } => "Failed to list templates".to_owned(),
        Task::Delete { .. } => "Failed to delete template".to_owned(),
        Task::Edit { .. } => "Failed to edit template".to_owned(),
    }
}

/// The chain of messages for an error of an operation: the operation's
/// context on top, the error's own sentence below it.
pub open spec fn chain_of(task: TaskView, error: ErrorView) -> Seq<Seq<char>> {
    seq![context_of(task), error.message()]
}

/// Builds the chain of messages for an error of an operation.
pub fn error_chain(task: &Task, error: &Error) -> (chain: Vec<String>)
    ensures
        chain.deep_view() == chain_of(task@, error@),
{
    let mut chain: Vec<String> = Vec::new();
    chain.push(operation_context(task));
    chain.push(error.message());
    assert(chain.deep_view() =~= chain_of(task@, error@));
    chain
}

/// What [`Matches`] denote.
pub struct MatchesView {
    pub subcommand: Seq<char>,
    pub verbose: bool,
    pub target: Option<Seq<char>>,
    pub name: Option<Seq<char>>,
    pub description: Option<Seq<char>>,
    pub commands: Seq<Seq<char>>,
    pub ignore: Seq<Seq<char>>,
    pub definition_file: Option<Seq<char>>,
    pub force: bool,
    pub path: Option<Seq<char>>,
    pub envs: Seq<Seq<char>>,
    pub create_as: Option<Seq<char>>,
    pub no_exec: bool,
    pub list_commands: bool,
    pub file_tree: bool,
}

/// What an argument parser matched on the command line, as plain values.
/// An option that was not given is `None`, empty or `false`.
#[derive(Debug, PartialEq, Eq)]
pub struct Matches {
    /// The name of the subcommand.
    pub subcommand: String,
    /// `--verbose`, given before the subcommand.
    pub verbose: bool,
    /// The positional argument of the subcommand: the directory to capture
    /// for `create`, the template's name for `expand`, `delete` and `edit`.
    pub target: Option<String>,
    /// `--name`.
    pub name: Option<String>,
    /// `--description`.
    pub description: Option<String>,
    /// Every `--command` of `create`, in order.
    pub commands: Vec<String>,
    /// Every `--ignore`, in order.
    pub ignore: Vec<String>,
    /// `--definition`.
    pub definition_file: Option<String>,
    /// `--force`.
    pub force: bool,
    /// `--path`.
    pub path: Option<String>,
    /// Every `--env`, in order.
    pub envs: Vec<String>,
    /// `--as`.
    pub create_as: Option<String>,
    /// `--no-exec`.
    pub no_exec: bool,
    /// `--commands` of `list`.
    pub list_commands: bool,
    /// `--file-tree`.
    pub file_tree: bool,
}

impl View for Matches {
    type V = MatchesView;

    open spec fn view(&self) -> MatchesView {
        MatchesView {
            subcommand: self.subcommand@,
            verbose: self.verbose,
            target: self.target.deep_view(),
            name: self.name.deep_view(),
            description: self.description.deep_view(),
            commands: self.commands.deep_view(),
            ignore: self.ignore.deep_view(),
            definition_file: self.definition_file.deep_view(),
            force: self.force,
            path: self.path.deep_view(),
            envs: self.envs.deep_view(),
            create_as: self.create_as.deep_view(),
            no_exec: self.no_exec,
            list_commands: self.list_commands,
            file_tree: self.file_tree,
        }
    }
}

/// What is said when a subcommand lacks its positional argument.
pub open spec fn target_missing(subcommand: Seq<char>) -> Seq<char> {
    subcommand + " needs an argument"@
}

/// What is said of a subcommand that there is not.
pub open spec fn subcommand_unknown(subcommand: Seq<char>) -> Seq<char> {
    "unknown subcommand: "@ + subcommand
}

/// The task that the matches ask for, given their positional argument.
pub open spec fn task_of(m: MatchesView, target: Seq<char>) -> Option<TaskView> {
    if m.subcommand == "create"@ {
        Some(
            TaskView::Create {
                path: target,
                name: m.name,
                description: m.description,
                commands: m.commands,
                ignore: m.ignore,
                definition_file: m.definition_file,
                force: m.force,
            },
        )
    } else if m.subcommand == "expand"@ {
        Some(
            TaskView::Expand {
                name: target,
                path: m.path,
                envs: m.envs,
                create_as: m.create_as,
                no_exec: m.no_exec,
            },
        )
    } else if m.subcommand == "delete"@ {
        Some(TaskView::Delete { name: target })
    } else if m.subcommand == "edit"@ {
        Some(TaskView::Edit { name: target })
    } else {
        None
    }
}

/// The request that the matches ask for. `list` takes no positional
/// argument; every other subcommand needs one.
pub open spec fn parsed(m: MatchesView) -> Result<CommandView, ErrorView> {
    if m.subcommand == "list"@ {
        Ok(
            CommandView {
                task: TaskView::List {
                    name: m.name,
                    commands: m.list_commands,
                    file_tree: m.file_tree,
                },
                verbose: m.verbose,
            },
        )
    } else {
        match m.target {
            Some(target) => match task_of(m, target) {
                Some(task) => Ok(CommandView { task, verbose: m.verbose }),
                None => Err(ErrorView::InvalidArgument(subcommand_unknown(m.subcommand))),
            },
            None => if task_of(m, Seq::empty()) is Some {
                Err(ErrorView::InvalidArgument(target_missing(m.subcommand)))
            } else {
                Err(ErrorView::InvalidArgument(subcommand_unknown(m.subcommand)))
            },
        }
    }
}

/// Whether a text equals a literal.
fn is_word(text: &String, word: &str) -> (b: bool)
    ensures
        b == (text@ == word@),
{
    let other = word.to_owned();
    *text == other
}

/// Refuses a subcommand that there is not.
fn unknown(subcommand: &String) -> (e: Error)
    ensures
        e@ == ErrorView::InvalidArgument(subcommand_unknown(subcommand@)),
{
    let mut text = "unknown subcommand: ".to_owned();
    text.append(subcommand.as_str());
    Error::InvalidArgument(text)
}

impl Command {
    /// Builds the request from what the argument parser matched.
    pub fn clap_parse(matches: Matches) -> (r: Result<Command, Error>)
        ensures
            match r {
                Ok(command) => parsed(matches@) == Ok::<CommandView, ErrorView>(command@),
                Err(e) => parsed(matches@) == Err::<CommandView, ErrorView>(e@),
            },
    {
        let verbose = matches.verbose;
        if is_word(&matches.subcommand, "list") {
            return Ok(
                Command {
                    task: Task::List {
                        name: matches.name,
                        commands: matches.list_commands,
                        file_tree: matches.file_tree,
                    },
                    verbose,
                },
            );
        }
        let known = is_word(&matches.subcommand, "create") || is_word(&matches.subcommand, "expand")
            || is_word(&matches.subcommand, "delete") || is_word(&matches.subcommand, "edit");
        if !known {
            return Err(unknown(&matches.subcommand));
        }
        let target = match matches.target {
            Some(target) => target,
            None => {
                let mut text = matches.subcommand.clone();
                text.append(" needs an argument");
                return Err(Error::InvalidArgument(text));
            },
        };
        let task = if is_word(&matches.subcommand, "create") {
            Task::Create {
                path: target,
                name: matches.name,
                description: matches.description,
                commands: matches.commands,
                ignore: matches.ignore,
                definition_file: matches.definition_file,
                force: matches.force,
            }
        } else if is_word(&matches.subcommand, "expand") {
            Task::Expand {
                name: target,
                path: matches.path,
                envs: matches.envs,
                create_as: matches.create_as,
                no_exec: matches.no_exec,
            }
        } else if is_word(&matches.subcommand, "delete") {
            Task::Delete { name: target }
        } else {
            Task::Edit { name: target }
        };
        Ok(Command { task, verbose })
    }
}

} // verus!
