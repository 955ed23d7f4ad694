//! The pager: the command that shows a file of results, and the arguments it
//! is started with.

use crate::text::strings_model;
use crate::text::{char_is_whitespace, is_whitespace, to_chars};
use vstd::prelude::*;

verus! {

/// The pager that is used where the environment names none.
pub const DEFAULT_PAGER: &'static str = "less";

/// The name of the setting that holds the pager's command.
pub const PAGER_VAR: &'static str = "GCUE_PAGER";

/// The words of `s`: its longest runs of characters that are no whitespace,
/// in order.
pub open spec fn words(s: Seq<char>) -> Seq<Seq<char>>
    decreases s.len(),
{
    if s.len() == 0 {
        Seq::empty()
    } else if is_whitespace(s.last()) {
        words(s.drop_last())
    } else {
        let rest = s.drop_last();
        if rest.len() > 0 && !is_whitespace(rest.last()) {
            let before = words(rest);
            before.drop_last().push(before.last().push(s.last()))
        } else {
            words(rest).push(seq![s.last()])
        }
    }
}

/// The words of `s`, in order.
pub fn split_words(s: &str) -> (r: Vec<String>)
    ensures
        strings_model(r@) == words(s@),
{
    let v = to_chars(s);
    let mut out: Vec<String> = Vec::new();
    let mut start: usize = 0;
    let mut in_word = false;
    let mut i: usize = 0;
    proof {
        assert(v@.take(0) =~= Seq::<char>::empty());
        assert(strings_model(out@) =~= words(v@.take(0)));
    }
    while i < v.len()
        invariant
            v@ == s@,
            i <= v.len(),
            start <= i,
            in_word <==> (i > 0 && !is_whitespace(v@[i - 1])),
            in_word ==> start < i && words(v@.take(i as int)) == strings_model(out@).push(
                v@.subrange(start as int, i as int),
            ),
            !in_word ==> words(v@.take(i as int)) == strings_model(out@),
        decreases v.len() - i,
    {
        let ghost before = v@.take(i as int);
        let ghost now = v@.take(i + 1);
        proof {
            assert(now.drop_last() =~= before);
            assert(now.last() == v@[i as int]);
            if i > 0 {
                assert(before.last() == v@[i - 1]);
            }
        }
        if char_is_whitespace(v[i]) {
            if in_word {
                let word = s.substring_char(start, i);
                let ghost old_out = strings_model(out@);
                out.push(String::from_str(word));
                proof {
                    assert(strings_model(out@) =~= old_out.push(
                        v@.subrange(start as int, i as int),
                    ));
                }
            }
            in_word = false;
        } else {
            if !in_word {
                start = i;
                proof {
                    assert(v@.subrange(i as int, i + 1) =~= seq![v@[i as int]]);
                }
            } else {
                proof {
                    let w = words(before);
                    let piece = v@.subrange(start as int, i as int);
                    assert(w.last() == piece);
                    assert(w.drop_last() =~= strings_model(out@));
                    assert(piece.push(v@[i as int]) =~= v@.subrange(start as int, i + 1));
                }
            }
            in_word = true;
        }
        i += 1;
    }
    proof {
        assert(v@.take(v.len() as int) =~= v@);
    }
    if in_word {
        let word = s.substring_char(start, i);
        let ghost old_out = strings_model(out@);
        out.push(String::from_str(word));
        proof {
            assert(strings_model(out@) =~= old_out.push(v@.subrange(start as int, i as int)));
        }
    }
    out
}

/// Why a pager cannot be had.
#[derive(Debug, Clone, Copy, PartialEq, Eq, Structural)]
pub enum PagerError {
    /// The command holds no word.
    EmptyCommand,
}

impl PagerError {
    /// The message of the error.
    pub fn message(&self) -> (r: &'static str)
        ensures
            r@ == "pager command is empty"@,
    {
        "pager command is empty"
    }
}

/// A pager: the program, and the arguments that come before the file.
#[derive(Debug, PartialEq, Eq)]
pub struct Pager {
    command: Vec<String>,
}

impl Pager {
    #[verifier::type_invariant]
    spec fn inv(self) -> bool {
        self.command.len() >= 1
    }

    /// The program and its arguments.
    pub closed spec fn spec_command(&self) -> Seq<Seq<char>> {
        strings_model(self.command@)
    }

    /// The pager that the command names: its first word is the program, the
    /// words after it are arguments. A command without a word is refused.
    pub fn custom(command: &str) -> (r: Result<Pager, PagerError>)
        ensures
            words(command@).len() == 0 ==> r == Err::<Pager, PagerError>(PagerError::EmptyCommand),
            words(command@).len() > 0 ==> (r matches Ok(p) && p.spec_command() == words(
                command@,
            )),
    {
        let command = split_words(command);
        if command.len() == 0 {
            return Err(PagerError::EmptyCommand);
        }
        Ok(Pager { command })
    }

    /// The pager that is used where none is named.
    pub fn default() -> (r: Result<Pager, PagerError>)
        ensures
            r matches Ok(p) && p.spec_command() == seq![DEFAULT_PAGER@],
    {
        let mut command: Vec<String> = Vec::new();
        command.push(String::from_str(DEFAULT_PAGER));
        proof {
            assert(strings_model(command@) =~= seq![DEFAULT_PAGER@]);
        }
        Ok(Pager { command })
    }

    /// The program and its arguments: at least the program.
    pub fn get_command(&self) -> (r: &Vec<String>)
        ensures
            strings_model(r@) == self.spec_command(),
            r.len() >= 1,
    {
        proof {
            use_type_invariant(self);
        }
        &self.command
    }
}

/// The pager that the setting names, or the default pager where it is not set.
pub fn get_pager(pager_env_var: Option<String>) -> (r: Result<Pager, PagerError>)
    ensures
        match pager_env_var {
            Some(p) => {
                &&& words(p@).len() == 0 ==> r == Err::<Pager, PagerError>(
                    PagerError::EmptyCommand,
                )
                &&& words(p@).len() > 0 ==> (r matches Ok(pager) && pager.spec_command() == words(
                    p@,
                ))
            },
            None => r matches Ok(pager) && pager.spec_command() == seq![DEFAULT_PAGER@],
        },
{
    match pager_env_var {
        Some(p) => Pager::custom(p.as_str()),
        None => Pager::default(),
    }
}

/// The command line that pages the file of results: the pager's program, its
/// arguments, and the file as the last argument.
pub fn page_results(results_file: &str, pager: &Pager) -> (r: Vec<String>)
    ensures
        strings_model(r@) == pager.spec_command().push(results_file@),
{
    let command = pager.get_command();
    let mut out: Vec<String> = Vec::new();
    let mut i: usize = 0;
    while i < command.len()
        invariant
            i <= command.len(),
            out.len() == i,
            forall|j: int| 0 <= j < i ==> (#[trigger] out[j])@ == command[j]@,
        decreases command.len() - i,
    {
        out.push(command[i].clone());
        i += 1;
    }
    out.push(String::from_str(results_file));
    proof {
        assert(strings_model(out@) =~= strings_model(command@).push(results_file@));
    }
    out
}

} // verus!
