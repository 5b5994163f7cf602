//! Redirection parsing: a token sequence becomes a command word, plain
//! arguments, and up to one stdout and one stderr redirect target, each
//! with a truncate-or-append mode. The quoting-aware split of the raw
//! line into tokens is delegated to an outside word splitter.

use vstd::prelude::*;
use crate::strutil::str_eq;

verus! {

/// The parse of one command line: the command word, its plain arguments in
/// order, and the redirect targets with their append flags.
pub struct TokenizerResult {
    pub command: String,
    pub args: Vec<String>,
    pub redirect_stdout: Option<String>,
    pub append_stdout: bool,
    pub redirect_stderr: Option<String>,
    pub append_stderr: bool,
}

/// The mathematical image of a [`TokenizerResult`].
pub struct ParsedView {
    pub command: Seq<char>,
    pub args: Seq<Seq<char>>,
    pub redirect_stdout: Option<Seq<char>>,
    pub append_stdout: bool,
    pub redirect_stderr: Option<Seq<char>>,
    pub append_stderr: bool,
}

impl View for TokenizerResult {
    type V = ParsedView;

    open spec fn view(&self) -> ParsedView {
        ParsedView {
            command: self.command@,
            args: self.args.deep_view(),
            redirect_stdout: match self.redirect_stdout {
                Some(p) => Some(p@),
                None => None,
            },
            append_stdout: self.append_stdout,
            redirect_stderr: match self.redirect_stderr {
                Some(p) => Some(p@),
                None => None,
            },
            append_stderr: self.append_stderr,
        }
    }
}

/// A token that redirects stdout in truncate mode.
pub open spec fn is_stdout_trunc(t: Seq<char>) -> bool {
    t == ">"@ || t == "1>"@
}

/// A token that redirects stdout in append mode.
pub open spec fn is_stdout_append(t: Seq<char>) -> bool {
    t == ">>"@ || t == "1>>"@
}

/// A token that redirects stderr in truncate mode.
pub open spec fn is_stderr_trunc(t: Seq<char>) -> bool {
    t == "2>"@
}

/// A token that redirects stderr in append mode.
pub open spec fn is_stderr_append(t: Seq<char>) -> bool {
    t == "2>>"@
}

/// The parse before any token after the command word was consumed.
pub open spec fn init_parse(cmd: Seq<char>) -> ParsedView {
    ParsedView {
        command: cmd,
        args: Seq::empty(),
        redirect_stdout: None,
        append_stdout: false,
        redirect_stderr: None,
        append_stderr: false,
    }
}

/// Consume the tokens from position `i` on: a redirection operator takes
/// the following token as its target path (the last occurrence wins and
/// sets the append flag of its stream), any other token is an argument.
/// `None` means an operator stood last, with no token left for its path.
pub open spec fn parse_rest(toks: Seq<Seq<char>>, i: int, cur: ParsedView) -> Option<ParsedView>
    decreases toks.len() - i,
{
    if i < 0 || i >= toks.len() {
        Some(cur)
    } else {
        let t = toks[i];
        if is_stdout_trunc(t) {
            if i + 1 >= toks.len() {
                None
            } else {
                parse_rest(
                    toks,
                    i + 2,
                    ParsedView {
                        redirect_stdout: Some(toks[i + 1]),
                        append_stdout: false,
                        ..cur
                    },
                )
            }
        } else if is_stdout_append(t) {
            if i + 1 >= toks.len() {
                None
            } else {
                parse_rest(
                    toks,
                    i + 2,
                    ParsedView { redirect_stdout: Some(toks[i + 1]), append_stdout: true, ..cur },
                )
            }
        } else if is_stderr_trunc(t) {
            if i + 1 >= toks.len() {
                None
            } else {
                parse_rest(
                    toks,
                    i + 2,
                    ParsedView {
                        redirect_stderr: Some(toks[i + 1]),
                        append_stderr: false,
                        ..cur
                    },
                )
            }
        } else if is_stderr_append(t) {
            if i + 1 >= toks.len() {
                None
            } else {
                parse_rest(
                    toks,
                    i + 2,
                    ParsedView { redirect_stderr: Some(toks[i + 1]), append_stderr: true, ..cur },
                )
            }
        } else {
            parse_rest(toks, i + 1, ParsedView { args: cur.args.push(t), ..cur })
        }
    }
}

/// The parse of a whole token sequence: the first token is the command
/// word, the rest is consumed by [`parse_rest`]. An empty sequence, or a
/// trailing operator with no path token, parses to nothing.
pub open spec fn parse_tokens(toks: Seq<Seq<char>>) -> Option<ParsedView> {
    if toks.len() == 0 {
        None
    } else {
        parse_rest(toks, 1, init_parse(toks[0]))
    }
}

/// Parse the tokens of one command line into command word, arguments and
/// redirect targets.
#[verifier::loop_isolation(false)]
pub fn handle_tokens(tokens: Vec<String>) -> (r: Option<TokenizerResult>)
    ensures
        match r {
            Some(p) => parse_tokens(tokens.deep_view()) == Some(p@),
            None => parse_tokens(tokens.deep_view()) is None,
        },
{
    if tokens.len() == 0 {
        return None;
    }
    let ghost toks = tokens.deep_view();
    let mut result = TokenizerResult {
        command: tokens[0].clone(),
        args: Vec::new(),
        redirect_stdout: None,
        append_stdout: false,
        redirect_stderr: None,
        append_stderr: false,
    };
    proof {
        assert(result@.args =~= init_parse(toks[0]).args);
        assert(result@ == init_parse(toks[0]));
    }
    let mut i: usize = 1;
    while i < tokens.len()
        invariant
            1 <= i <= tokens.len(),
            parse_rest(toks, i as int, result@) == parse_tokens(toks),
        decreases tokens.len() - i,
    {
        let ghost prev = result@;
        let t = &tokens[i];
        proof {
            assert(toks[i as int] == tokens@[i as int]@);
        }
        if str_eq(t, ">") || str_eq(t, "1>") {
            if i + 1 >= tokens.len() {
                return None;
            }
            result.redirect_stdout = Some(tokens[i + 1].clone());
            result.append_stdout = false;
            proof {
                assert(toks[i + 1] == tokens@[i + 1]@);
                assert(result@ == (ParsedView {
                    redirect_stdout: Some(toks[i + 1]),
                    append_stdout: false,
                    ..prev
                }));
            }
            i = i + 2;
        } else if str_eq(t, ">>") || str_eq(t, "1>>") {
            if i + 1 >= tokens.len() {
                return None;
            }
            result.redirect_stdout = Some(tokens[i + 1].clone());
            result.append_stdout = true;
            proof {
                assert(toks[i + 1] == tokens@[i + 1]@);
                assert(result@ == (ParsedView {
                    redirect_stdout: Some(toks[i + 1]),
                    append_stdout: true,
                    ..prev
                }));
            }
            i = i + 2;
        } else if str_eq(t, "2>") {
            if i + 1 >= tokens.len() {
                return None;
            }
            result.redirect_stderr = Some(tokens[i + 1].clone());
            result.append_stderr = false;
            proof {
                assert(toks[i + 1] == tokens@[i + 1]@);
                assert(result@ == (ParsedView {
                    redirect_stderr: Some(toks[i + 1]),
                    append_stderr: false,
                    ..prev
                }));
            }
            i = i + 2;
        } else if str_eq(t, "2>>") {
            if i + 1 >= tokens.len() {
                return None;
            }
            result.redirect_stderr = Some(tokens[i + 1].clone());
            result.append_stderr = true;
            proof {
                assert(toks[i + 1] == tokens@[i + 1]@);
                assert(result@ == (ParsedView {
                    redirect_stderr: Some(toks[i + 1]),
                    append_stderr: true,
                    ..prev
                }));
            }
            i = i + 2;
        } else {
            result.args.push(t.clone());
            proof {
                assert(result@.args =~= prev.args.push(toks[i as int]));
                assert(result@ == (ParsedView { args: prev.args.push(toks[i as int]), ..prev }));
            }
            i = i + 1;
        }
    }
    Some(result)
}

/// What the quoting-aware word splitter yields for a line, `None` where
/// the quoting is malformed; a function of the characters alone.
pub uninterp spec fn shell_split(line: Seq<char>) -> Option<Seq<Seq<char>>>;

/// Relies on shell_words::split: splits a line into words by POSIX shell
/// quoting rules, or fails on malformed quoting. Its result depends only
/// on the characters of the line; the `Err` text is that crate's own
/// description of the failure, handed on for reporting.
#[verifier::external_body]
pub fn split_line(line: &str) -> (r: Result<Vec<String>, String>)
    ensures
        match r {
            Ok(ws) => shell_split(line@) == Some(ws.deep_view()),
            Err(_) => shell_split(line@) is None,
        },
{
    match shell_words::split(line) {
        Ok(ws) => Ok(ws),
        Err(e) => Err(e.to_string()),
    }
}

} // verus!
