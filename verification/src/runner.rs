//! The command runner: how a command line and the environment overrides
//! become the invocation of a child process.

use vstd::prelude::*;
use crate::text::{
    after_first, before_first, join, join_strings, split_at_first, split_words, words,
};

verus! {

/// The family of the platform that commands are run on.
#[derive(Debug, Clone, Copy, PartialEq, Eq, Structural)]
pub enum Platform {
    /// Commands go through the command interpreter, with `/C`.
    Windows,
    /// Commands go through the POSIX shell, with `-c`.
    Posix,
}

/// What an [`Invocation`] denotes.
pub struct InvocationView {
    pub program: Seq<char>,
    pub args: Seq<Seq<char>>,
    pub envs: Seq<(Seq<char>, Seq<char>)>,
}

/// One child process to be started.
#[derive(Debug, PartialEq, Eq)]
pub struct Invocation {
    /// The executable.
    pub program: String,
    /// Its arguments, in order.
    pub args: Vec<String>,
    /// Variables set for the child on top of the inherited environment, in
    /// the order in which they are to be applied.
    pub envs: Vec<(String, String)>,
}

impl DeepView for Invocation {
    type V = InvocationView;

    open spec fn deep_view(&self) -> InvocationView {
        self@
    }
}

impl View for Invocation {
    type V = InvocationView;

    open spec fn view(&self) -> InvocationView {
        InvocationView {
            program: self.program@,
            args: self.args.deep_view(),
            envs: self.envs.deep_view(),
        }
    }
}

/// The variable and the value of one `key=value` override. The text is split
/// at its first `=`; without one the whole text is the variable and the value
/// is empty.
pub open spec fn env_pair(text: Seq<char>) -> (Seq<char>, Seq<char>) {
    (before_first(text, '='), after_first(text, '='))
}

/// The overrides, each one split.
pub open spec fn env_pairs(envs: Seq<Seq<char>>) -> Seq<(Seq<char>, Seq<char>)> {
    Seq::new(envs.len(), |i: int| env_pair(envs[i]))
}

/// Splits every `key=value` override into its variable and its value.
pub fn parse_envs(envs: &Vec<String>) -> (pairs: Vec<(String, String)>)
    ensures
        pairs.deep_view() == env_pairs(envs.deep_view()),
{
    let mut pairs: Vec<(String, String)> = Vec::new();
    let mut i: usize = 0;
    while i < envs.len()
        invariant
            i <= envs.len(),
            pairs.len() == i,
            forall|k: int| 0 <= k < i ==> (#[trigger] pairs[k]).deep_view() == env_pair(envs[k]@),
        decreases envs.len() - i,
    {
        let pair = split_at_first(envs[i].as_str(), '=');
        pairs.push(pair);
        i += 1;
    }
    assert(pairs.deep_view() =~= env_pairs(envs.deep_view()));
    pairs
}

/// The executable that a command line names: its first word.
pub open spec fn command_name(line: Seq<char>) -> Seq<char> {
    words(line)[0]
}

/// The single line handed to the POSIX shell: the executable, a blank, and
/// the arguments with one blank between each two.
pub open spec fn shell_line(line: Seq<char>) -> Seq<char> {
    words(line)[0] + " "@ + join(words(line).skip(1), " "@)
}

/// The child process for one command line; none where the line holds no word.
pub open spec fn dispatched(platform: Platform, line: Seq<char>, envs: Seq<Seq<char>>) -> Option<
    InvocationView,
> {
    if words(line).len() == 0 {
        None
    } else {
        Some(
            match platform {
                Platform::Windows => InvocationView {
                    program: "cmd"@,
                    args: seq!["/C"@] + words(line),
                    envs: env_pairs(envs),
                },
                Platform::Posix => InvocationView {
                    program: "sh"@,
                    args: seq!["-c"@, shell_line(line)],
                    envs: env_pairs(envs),
                },
            },
        )
    }
}

/// Turns one command line into the child process that runs it. The line is
/// split at white space and nothing else: there is no quoting.
pub fn dispatch(platform: Platform, line: &str, envs: &Vec<String>) -> (r: Option<Invocation>)
    ensures
        r.deep_view() == dispatched(platform, line@, envs.deep_view()),
{
    let tokens = split_words(line);
    if tokens.len() == 0 {
        return None;
    }
    let pairs = parse_envs(envs);
    match platform {
        Platform::Windows => {
            let mut args: Vec<String> = Vec::new();
            args.push("/C".to_owned());
            let mut i: usize = 0;
            while i < tokens.len()
                invariant
                    i <= tokens.len(),
                    args.len() == i + 1,
                    args[0]@ == "/C"@,
                    forall|k: int| 0 <= k < i ==> args[k + 1]@ == tokens[k]@,
                decreases tokens.len() - i,
            {
                args.push(tokens[i].clone());
                i += 1;
            }
            assert(args.deep_view() =~= seq!["/C"@] + tokens.deep_view());
            Some(Invocation { program: "cmd".to_owned(), args, envs: pairs })
        },
        Platform::Posix => {
            let mut rest: Vec<String> = Vec::new();
            let mut i: usize = 1;
            while i < tokens.len()
                invariant
                    1 <= i <= tokens.len(),
                    rest.len() == i - 1,
                    forall|k: int| 0 <= k < i - 1 ==> rest[k]@ == tokens[k + 1]@,
                decreases tokens.len() - i,
            {
                rest.push(tokens[i].clone());
                i += 1;
            }
            assert(rest.deep_view() =~= tokens.deep_view().skip(1));
            let mut shell = tokens[0].clone();
            shell.append(" ");
            let tail = join_strings(&rest, " ");
            shell.append(tail.as_str());
            assert(shell@ == shell_line(line@));
            let mut args: Vec<String> = Vec::new();
            args.push("-c".to_owned());
            args.push(shell);
            assert(args.deep_view() =~= seq!["-c"@, shell_line(line@)]);
            Some(Invocation { program: "sh".to_owned(), args, envs: pairs })
        },
    }
}

/// The first word of a command line; none where the line holds no word.
pub fn command_of(line: &str) -> (r: Option<String>)
    ensures
        r.deep_view() == if words(line@).len() == 0 {
            None::<Seq<char>>
        } else {
            Some(command_name(line@))
        },
{
    let tokens = split_words(line);
    if tokens.len() == 0 {
        None
    } else {
        Some(tokens[0].clone())
    }
}

} // verus!
