//! The builtin commands: `exit`, `echo`, `type`, `pwd` and `cd`. Each one
//! appends tagged lines to an output buffer; what must happen outside the
//! process of deciding — ending the process, changing directory — is
//! returned as an action for the caller to perform.

use vstd::prelude::*;
use vstd::string::StringExecFns;
use crate::output::Output;
use crate::resolve::{BuiltinCommand, Command, CommandView, builtin_of, cmd_view, search_command};
use crate::strutil::{str_eq, opt_str_view, join_spaced, join_args, parse_i32, parse_i32_spec};

verus! {

/// What remains for the caller to do after a builtin ran.
pub enum BuiltinAction {
    /// Nothing: the builtin finished, its lines are in the buffer.
    Done,
    /// End the whole process with this exit code.
    Exit(i32),
    /// Change the working directory to this target, and report through
    /// [`cd_failed`] if that fails.
    ChangeDir(String),
}

/// The mathematical image of a [`BuiltinAction`].
pub enum ActionView {
    Done,
    Exit(i32),
    ChangeDir(Seq<char>),
}

impl View for BuiltinAction {
    type V = ActionView;

    open spec fn view(&self) -> ActionView {
        match self {
            BuiltinAction::Done => ActionView::Done,
            BuiltinAction::Exit(c) => ActionView::Exit(*c),
            BuiltinAction::ChangeDir(t) => ActionView::ChangeDir(t@),
        }
    }
}

/// Ambient process state a builtin reads, as the caller last read it: the
/// working directory and the HOME environment variable.
pub struct EnvInfo {
    pub cwd: Option<String>,
    pub home: Option<String>,
}

/// The exit code `exit` uses for one argument: the parsed value, or zero
/// where the argument is no well-formed `i32`.
pub open spec fn exit_code_spec(arg: Seq<char>) -> i32 {
    match parse_i32_spec(arg) {
        Some(v) => v,
        None => 0,
    }
}

/// What `exit` appends and does: with more than one argument only an
/// error line; otherwise no line, and the process ends with the given
/// code, zero where none was given.
pub open spec fn exit_spec(args: Seq<Seq<char>>) -> (Seq<(Seq<char>, bool)>, ActionView) {
    if args.len() > 1 {
        (seq![("exit: too many arguments"@, true)], ActionView::Done)
    } else if args.len() == 1 {
        (Seq::empty(), ActionView::Exit(exit_code_spec(args[0])))
    } else {
        (Seq::empty(), ActionView::Exit(0))
    }
}

/// `exit`: end the process with the given code; see [`exit_spec`].
pub fn exit_fn(args: &Vec<String>, output: &mut Output) -> (r: BuiltinAction)
    ensures
        final(output)@ == old(output)@ + exit_spec(args.deep_view()).0,
        r@ == exit_spec(args.deep_view()).1,
{
    let ghost dv = args.deep_view();
    if args.len() > 1 {
        output.add("exit: too many arguments", true);
        proof {
            assert(final(output)@ =~= old(output)@ + exit_spec(dv).0);
        }
        return BuiltinAction::Done;
    }
    let code: i32 = if args.len() > 0 {
        proof {
            assert(dv[0] == args@[0]@);
        }
        match parse_i32(args[0].as_str()) {
            Some(v) => v,
            None => 0,
        }
    } else {
        0
    };
    proof {
        assert(final(output)@ =~= old(output)@ + exit_spec(dv).0);
    }
    BuiltinAction::Exit(code)
}

/// What `echo` appends: one ordinary line, the arguments joined with
/// single spaces.
pub open spec fn echo_lines(args: Seq<Seq<char>>) -> Seq<(Seq<char>, bool)> {
    seq![(join_spaced(args), false)]
}

/// `echo` appends exactly one line, and it is not tagged as error output,
/// whatever the arguments.
pub proof fn lemma_echo_one_line(args: Seq<Seq<char>>)
    ensures
        echo_lines(args).len() == 1,
        !echo_lines(args)[0].1,
{
}

/// `echo`: one ordinary line, the arguments joined with single spaces.
pub fn echo_fn(args: &Vec<String>, output: &mut Output)
    ensures
        final(output)@ == old(output)@ + echo_lines(args.deep_view()),
{
    let joined = join_args(args);
    output.add(joined.as_str(), false);
    proof {
        assert(final(output)@ =~= old(output)@ + echo_lines(args.deep_view()));
    }
}

/// The line `type` reports for one resolution outcome.
pub open spec fn type_line_spec(w: Seq<char>, r: Option<CommandView>) -> (Seq<char>, bool) {
    match r {
        Some(CommandView::Builtin(_)) => (w + " is a shell builtin"@, false),
        Some(CommandView::Executable(p)) => (w + " is "@ + p, false),
        None => (w + ": not found"@, true),
    }
}

/// Report how an already-resolved word resolved, as `type` words it.
pub fn type_report(word: &str, resolved: &Option<Command>, output: &mut Output)
    ensures
        final(output)@ == old(output)@.push(type_line_spec(word@, cmd_view(*resolved))),
{
    match resolved {
        Some(Command::BuiltinCommand(_)) => {
            let line = String::from_str(word).concat(" is a shell builtin");
            output.add(line.as_str(), false);
        },
        Some(Command::ExecutableCommand(e)) => {
            let line = String::from_str(word).concat(" is ").concat(e.path.as_str());
            output.add(line.as_str(), false);
        },
        None => {
            let line = String::from_str(word).concat(": not found");
            output.add(line.as_str(), true);
        },
    }
}

/// What holds of the output buffer after `type` ran on `args`. The PATH
/// scan's outcome depends on the filesystem, so for a non-builtin word the
/// buffer got one of the two possible lines; for a builtin word, and for a
/// wrong number of arguments, the line is pinned exactly.
pub open spec fn type_post(
    before: Seq<(Seq<char>, bool)>,
    after: Seq<(Seq<char>, bool)>,
    args: Seq<Seq<char>>,
) -> bool {
    &&& args.len() == 0 ==> after == before.push(("type: missing argument"@, true))
    &&& args.len() > 1 ==> after == before.push(("type: too many arguments"@, true))
    &&& args.len() == 1 ==> {
        let w = args[0];
        if builtin_of(w) is Some {
            after == before.push((w + " is a shell builtin"@, false))
        } else {
            after == before.push((w + ": not found"@, true)) || (exists|p: Seq<char>|
                after == before.push((w + " is "@ + p, false)))
        }
    }
}

/// `type`: exactly one argument; report whether the word names a builtin,
/// an executable on PATH, or nothing.
pub fn type_fn(args: &Vec<String>, output: &mut Output)
    ensures
        type_post(old(output)@, final(output)@, args.deep_view()),
{
    let ghost dv = args.deep_view();
    if args.len() == 0 {
        output.add("type: missing argument", true);
        return ;
    }
    if args.len() > 1 {
        output.add("type: too many arguments", true);
        return ;
    }
    proof {
        assert(dv[0] == args@[0]@);
    }
    let resolved = search_command(args[0].as_str());
    type_report(args[0].as_str(), &resolved, output);
    proof {
        if builtin_of(dv[0]) is None {
            match cmd_view(resolved) {
                Some(CommandView::Executable(p)) => {
                    assert(final(output)@ == old(output)@.push((dv[0] + " is "@ + p, false)));
                },
                _ => {
                },
            }
        }
    }
}

/// What `pwd` appends: the working directory as the caller read it, an
/// error line where it could not be read, or an arity error.
pub open spec fn pwd_lines(args: Seq<Seq<char>>, cwd: Option<Seq<char>>) -> Seq<
    (Seq<char>, bool),
> {
    if args.len() > 0 {
        seq![("pwd: too many arguments"@, true)]
    } else {
        match cwd {
            Some(d) => seq![(d, false)],
            None => seq![("pwd: unable to get current directory"@, true)],
        }
    }
}

/// `pwd`: no arguments; report the working directory handed in by the
/// caller, which read it from the process state.
pub fn pwd_fn(args: &Vec<String>, cwd: &Option<String>, output: &mut Output)
    ensures
        final(output)@ == old(output)@ + pwd_lines(args.deep_view(), opt_str_view(*cwd)),
{
    if args.len() > 0 {
        output.add("pwd: too many arguments", true);
        proof {
            assert(final(output)@ =~= old(output)@ + pwd_lines(
                args.deep_view(),
                opt_str_view(*cwd),
            ));
        }
        return ;
    }
    match cwd {
        Some(d) => output.add(d.as_str(), false),
        None => output.add("pwd: unable to get current directory", true),
    }
    proof {
        assert(final(output)@ =~= old(output)@ + pwd_lines(args.deep_view(), opt_str_view(*cwd)));
    }
}

/// What `cd` appends and does: with more than one argument an error line;
/// with none, or with the argument `~`, the target is HOME (an error line
/// where HOME is unset); otherwise the target is the literal argument.
pub open spec fn cd_spec(args: Seq<Seq<char>>, home: Option<Seq<char>>) -> (Seq<
    (Seq<char>, bool),
>, ActionView) {
    if args.len() > 1 {
        (seq![("cd: too many arguments"@, true)], ActionView::Done)
    } else if args.len() == 0 || args[0] == "~"@ {
        match home {
            Some(h) => (Seq::empty(), ActionView::ChangeDir(h)),
            None => (seq![("cd: unable to get home directory"@, true)], ActionView::Done),
        }
    } else {
        (Seq::empty(), ActionView::ChangeDir(args[0]))
    }
}

/// `cd`: decide the directory to change to; the caller performs the
/// change and reports a failure through [`cd_failed`].
pub fn cd_fn(args: &Vec<String>, home: &Option<String>, output: &mut Output) -> (r: BuiltinAction)
    ensures
        final(output)@ == old(output)@ + cd_spec(args.deep_view(), opt_str_view(*home)).0,
        r@ == cd_spec(args.deep_view(), opt_str_view(*home)).1,
{
    let ghost dv = args.deep_view();
    let ghost hv = opt_str_view(*home);
    if args.len() > 1 {
        output.add("cd: too many arguments", true);
        proof {
            assert(final(output)@ =~= old(output)@ + cd_spec(dv, hv).0);
        }
        return BuiltinAction::Done;
    }
    let use_home = if args.len() == 0 {
        true
    } else {
        proof {
            assert(dv[0] == args@[0]@);
        }
        str_eq(&args[0], "~")
    };
    if use_home {
        match home {
            Some(h) => {
                proof {
                    assert(final(output)@ =~= old(output)@ + cd_spec(dv, hv).0);
                }
                BuiltinAction::ChangeDir(h.clone())
            },
            None => {
                output.add("cd: unable to get home directory", true);
                proof {
                    assert(final(output)@ =~= old(output)@ + cd_spec(dv, hv).0);
                }
                BuiltinAction::Done
            },
        }
    } else {
        proof {
            assert(final(output)@ =~= old(output)@ + cd_spec(dv, hv).0);
        }
        BuiltinAction::ChangeDir(args[0].clone())
    }
}

/// The error line for a directory change that failed.
pub fn cd_failed(target: &str, output: &mut Output)
    ensures
        final(output)@ == old(output)@.push(("cd: "@ + target@ + ": No such file or directory"@, true)),
{
    let line = String::from_str("cd: ").concat(target).concat(": No such file or directory");
    output.add(line.as_str(), true);
}

impl BuiltinCommand {
    /// Run the builtin named by `self` on the given arguments, reading the
    /// ambient state from `env`, appending its lines to `output`, and
    /// returning what remains for the caller to do.
    pub fn to_impl(&self, args: &Vec<String>, env: &EnvInfo, output: &mut Output) -> (r:
        BuiltinAction)
        ensures
            ({
                let dv = args.deep_view();
                match *self {
                    BuiltinCommand::Exit => final(output)@ == old(output)@ + exit_spec(dv).0 && r@
                        == exit_spec(dv).1,
                    BuiltinCommand::Echo => final(output)@ == old(output)@ + echo_lines(dv) && r@
                        == ActionView::Done,
                    BuiltinCommand::Type => type_post(old(output)@, final(output)@, dv) && r@
                        == ActionView::Done,
                    BuiltinCommand::Pwd => final(output)@ == old(output)@ + pwd_lines(
                        dv,
                        opt_str_view(env.cwd),
                    ) && r@ == ActionView::Done,
                    BuiltinCommand::Cd => final(output)@ == old(output)@ + cd_spec(
                        dv,
                        opt_str_view(env.home),
                    ).0 && r@ == cd_spec(dv, opt_str_view(env.home)).1,
                }
            }),
    {
        match self {
            BuiltinCommand::Exit => exit_fn(args, output),
            BuiltinCommand::Echo => {
                echo_fn(args, output);
                BuiltinAction::Done
            },
            BuiltinCommand::Type => {
                type_fn(args, output);
                BuiltinAction::Done
            },
            BuiltinCommand::Pwd => {
                pwd_fn(args, &env.cwd, output);
                BuiltinAction::Done
            },
            BuiltinCommand::Cd => cd_fn(args, &env.home, output),
        }
    }
}

} // verus!
