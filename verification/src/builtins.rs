//! The builtin command table and the dispatch decision.
//!
//! Three builtins are registered: `cd`, `help` and `exit`. Lookup is by
//! exact name. The functions here decide what a command line means — which
//! builtin runs, with which arguments, and what text it prints — while the
//! driver performs the directory change, the printing and the process exit.

use crate::text::str_eq;
use vstd::prelude::*;
use vstd::string::StringExecFns;

verus! {

/// The builtin commands, in registry order.
#[derive(Clone, Copy, PartialEq, Eq, Structural, Debug)]
pub enum Builtin {
    Cd,
    Help,
    Exit,
}

/// The name of each builtin.
pub open spec fn spec_name(b: Builtin) -> Seq<char> {
    match b {
        Builtin::Cd => "cd"@,
        Builtin::Help => "help"@,
        Builtin::Exit => "exit"@,
    }
}

/// The builtin a command name refers to, if any.
pub open spec fn spec_lookup(name: Seq<char>) -> Option<Builtin> {
    if name == "cd"@ {
        Some(Builtin::Cd)
    } else if name == "help"@ {
        Some(Builtin::Help)
    } else if name == "exit"@ {
        Some(Builtin::Exit)
    } else {
        None
    }
}

/// Finds the builtin with exactly the given name.
pub fn lookup(name: &str) -> (r: Option<Builtin>)
    ensures
        r == spec_lookup(name@),
{
    if str_eq(name, "cd") {
        Some(Builtin::Cd)
    } else if str_eq(name, "help") {
        Some(Builtin::Help)
    } else if str_eq(name, "exit") {
        Some(Builtin::Exit)
    } else {
        None
    }
}

/// The help text of the `cd` builtin.
pub open spec fn cd_help() -> Seq<char> {
    "cd: Change directory\nUsage:\n\t  cd [path]\nIf invoked without a path, directory will be changed to the home directory."@
}

/// The help text of the `help` builtin.
pub open spec fn help_help() -> Seq<char> {
    "help: Help\nUsage:\n\t  help [command]\nGives instructional help either for the shell or a command, if invoked with an argument"@
}

/// The help text of the `exit` builtin.
pub open spec fn exit_help() -> Seq<char> {
    "exit: Exit shell\nUsage:\n\t  exit"@
}

/// The help text registered for a builtin.
pub open spec fn spec_help_text(b: Builtin) -> Seq<char> {
    match b {
        Builtin::Cd => cd_help(),
        Builtin::Help => help_help(),
        Builtin::Exit => exit_help(),
    }
}

/// The help text registered for a builtin.
pub fn help_text(b: Builtin) -> (r: String)
    ensures
        r@ == spec_help_text(b),
{
    match b {
        Builtin::Cd => String::from_str(
            "cd: Change directory\nUsage:\n\t  cd [path]\nIf invoked without a path, directory will be changed to the home directory.",
        ),
        Builtin::Help => String::from_str(
            "help: Help\nUsage:\n\t  help [command]\nGives instructional help either for the shell or a command, if invoked with an argument",
        ),
        Builtin::Exit => String::from_str("exit: Exit shell\nUsage:\n\t  exit"),
    }
}

/// The general usage banner, naming every registered builtin.
pub open spec fn banner() -> Seq<char> {
    "A shell.\nInteract in the obvious ways.\n\nThe following are shell builtins:\n\nUse man for information on non-builtin programs.\n\tcd\n\thelp\n\texit\n"@
}

/// What `help` prints for the given arguments: the general banner for
/// none, the named builtin's help text for a matching name, and an
/// unknown-builtin diagnostic otherwise.
pub open spec fn spec_help_output(args: Seq<Seq<char>>) -> Seq<char> {
    if args.len() == 0 {
        banner()
    } else {
        match spec_lookup(args[0]) {
            Some(b) => spec_help_text(b).push('\n'),
            None => "help: unknown builtin "@ + args[0] + "\n"@,
        }
    }
}

/// Computes the full text the `help` builtin prints.
pub fn help_output(args: &Vec<String>) -> (r: String)
    ensures
        r@ == spec_help_output(args.deep_view()),
{
    if args.len() == 0 {
        String::from_str(
            "A shell.\nInteract in the obvious ways.\n\nThe following are shell builtins:\n\nUse man for information on non-builtin programs.\n\tcd\n\thelp\n\texit\n",
        )
    } else {
        let name: &String = &args[0];
        proof {
            assert(args.deep_view()[0] == args@[0]@);
        }
        match lookup(name.as_str()) {
            Some(b) => {
                let mut t = help_text(b);
                t.append("\n");
                proof {
                    reveal_strlit("\n");
                    assert(t@ =~= spec_help_text(b).push('\n'));
                }
                t
            },
            None => {
                let mut t = String::from_str("help: unknown builtin ");
                t.append(name.as_str());
                t.append("\n");
                proof {
                    assert(t@ =~= "help: unknown builtin "@ + args.deep_view()[0] + "\n"@);
                }
                t
            },
        }
    }
}

/// What the `cd` builtin asks the driver to do: change to the home
/// directory, or to the given path.
pub enum CdAction {
    Home,
    ChangeTo(String),
}

/// Decides the `cd` builtin's action: no argument means the home
/// directory; otherwise the first argument is the target path.
pub fn cd_action(args: &Vec<String>) -> (r: CdAction)
    ensures
        args@.len() == 0 ==> r is Home,
        args@.len() > 0 ==> match r {
            CdAction::ChangeTo(p) => p@ == args.deep_view()[0],
            CdAction::Home => false,
        },
{
    if args.len() == 0 {
        CdAction::Home
    } else {
        CdAction::ChangeTo(args[0].clone())
    }
}

/// The farewell `exit` prints: nothing without an argument, and the
/// argument echoed as a human-readable reason with one.
pub fn exit_message(args: &Vec<String>) -> (r: Option<String>)
    ensures
        args@.len() == 0 ==> r is None,
        args@.len() > 0 ==> match r {
            Some(m) => m@ == "Exiting ("@ + args.deep_view()[0] + ").\n"@,
            None => false,
        },
{
    if args.len() == 0 {
        None
    } else {
        let mut t = String::from_str("Exiting (");
        t.append(args[0].as_str());
        t.append(").\n");
        proof {
            assert(t@ =~= "Exiting ("@ + args.deep_view()[0] + ").\n"@);
        }
        Some(t)
    }
}

/// A parsed command line: empty, a builtin with its remaining arguments,
/// or an external program with its arguments.
pub enum Command {
    Empty,
    Builtin(Builtin, Vec<String>),
    External(String, Vec<String>),
}

/// Decides what a token sequence runs: nothing for an empty line, the
/// builtin whose name the first token matches, and otherwise an external
/// program named by the first token; the rest of the tokens are its
/// arguments either way.
pub fn dispatch(tokens: Vec<String>) -> (r: Command)
    ensures
        tokens@.len() == 0 <==> r is Empty,
        tokens@.len() > 0 ==> match r {
            Command::Empty => false,
            Command::Builtin(b, args) => spec_lookup(tokens.deep_view()[0]) == Some(b)
                && args.deep_view() == tokens.deep_view().skip(1),
            Command::External(name, args) => spec_lookup(tokens.deep_view()[0]) is None && name@
                == tokens.deep_view()[0] && args.deep_view() == tokens.deep_view().skip(1),
        },
{
    let n = tokens.len();
    if n == 0 {
        return Command::Empty;
    }
    let mut rest: Vec<String> = Vec::new();
    let mut i: usize = 1;
    while i < n
        invariant
            1 <= i <= n,
            n == tokens@.len(),
            rest.deep_view() == tokens.deep_view().subrange(1, i as int),
        decreases n - i,
    {
        let ghost pre = rest.deep_view();
        rest.push(tokens[i].clone());
        proof {
            assert(rest.deep_view() =~= pre.push(tokens.deep_view()[i as int]));
            assert(rest.deep_view() =~= tokens.deep_view().subrange(1, i as int + 1));
        }
        i = i + 1;
    }
    proof {
        assert(tokens.deep_view().subrange(1, n as int) =~= tokens.deep_view().skip(1));
        assert(tokens.deep_view()[0] == tokens@[0]@);
    }
    let name: &String = &tokens[0];
    match lookup(name.as_str()) {
        Some(b) => Command::Builtin(b, rest),
        None => Command::External(name.clone(), rest),
    }
}

} // verus!
