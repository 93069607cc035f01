//! The host's interactive commands: a line is read as a command word and
//! an optional argument, separated by spaces or tabs.

use vstd::prelude::*;
use vstd::string::*;
use crate::text::str_equals;

verus! {

pub open spec fn is_blank(c: char) -> bool {
    c == ' ' || c == '\t' || c == '\n' || c == '\r'
}

/// `s` without its leading blanks.
pub open spec fn skip_blanks(s: Seq<char>) -> Seq<char>
    decreases s.len(),
{
    if s.len() > 0 && is_blank(s[0]) {
        skip_blanks(s.drop_first())
    } else {
        s
    }
}

/// The run of non-blank characters `s` starts with.
pub open spec fn take_word(s: Seq<char>) -> Seq<char>
    decreases s.len(),
{
    if s.len() > 0 && !is_blank(s[0]) {
        seq![s[0]] + take_word(s.drop_first())
    } else {
        Seq::empty()
    }
}

/// The first word of `s`.
pub open spec fn first_word(s: Seq<char>) -> Seq<char> {
    take_word(skip_blanks(s))
}

/// What follows the first word of `s`.
pub open spec fn after_first_word(s: Seq<char>) -> Seq<char> {
    skip_blanks(s).skip(take_word(skip_blanks(s)).len() as int)
}

proof fn lemma_take_word_len(s: Seq<char>)
    ensures
        take_word(s).len() <= s.len(),
    decreases s.len(),
{
    if s.len() > 0 && !is_blank(s[0]) {
        lemma_take_word_len(s.drop_first());
    }
}

fn blank_at(text: &str, i: usize) -> (r: bool)
    requires
        i < text@.len(),
    ensures
        r == is_blank(text@[i as int]),
{
    let c = text.get_char(i);
    c == ' ' || c == '\t' || c == '\n' || c == '\r'
}

/// Position of the first non-blank character at or after `from`.
fn skip_blanks_from(text: &str, n: usize, from: usize) -> (r: usize)
    requires
        n == text@.len(),
        from <= n,
    ensures
        from <= r <= n,
        text@.skip(r as int) == skip_blanks(text@.skip(from as int)),
{
    let mut i = from;
    while i < n && blank_at(text, i)
        invariant
            n == text@.len(),
            from <= i <= n,
            skip_blanks(text@.skip(i as int)) == skip_blanks(text@.skip(from as int)),
        decreases n - i,
    {
        assert(text@.skip(i as int).drop_first() =~= text@.skip(i + 1));
        i = i + 1;
    }
    proof {
        if i < n {
            assert(text@.skip(i as int)[0] == text@[i as int]);
        }
    }
    i
}

/// Position just past the word starting at `from`.
fn word_end_from(text: &str, n: usize, from: usize) -> (r: usize)
    requires
        n == text@.len(),
        from <= n,
    ensures
        from <= r <= n,
        text@.subrange(from as int, r as int) == take_word(text@.skip(from as int)),
{
    let mut i = from;
    while i < n && !blank_at(text, i)
        invariant
            n == text@.len(),
            from <= i <= n,
            text@.subrange(from as int, i as int) + take_word(text@.skip(i as int)) == take_word(
                text@.skip(from as int),
            ),
        decreases n - i,
    {
        assert(text@.skip(i as int)[0] == text@[i as int]);
        assert(text@.skip(i as int).drop_first() =~= text@.skip(i + 1));
        assert(text@.subrange(from as int, i + 1) =~= text@.subrange(from as int, i as int) + seq![
            text@[i as int],
        ]);
        i = i + 1;
    }
    proof {
        if i < n {
            assert(text@.skip(i as int)[0] == text@[i as int]);
        }
        assert(take_word(text@.skip(i as int)) =~= Seq::<char>::empty());
        assert(text@.subrange(from as int, i as int) + Seq::<char>::empty() =~= text@.subrange(
            from as int,
            i as int,
        ));
    }
    i
}

/// The first word of a line and the first word after it, if any.
pub fn split_command(line: &str) -> (r: (&str, Option<&str>))
    ensures
        r.0@ == first_word(line@),
        r.1 matches Some(a) ==> a@ == first_word(after_first_word(line@)) && a@.len() > 0,
        r.1 is None ==> first_word(after_first_word(line@)).len() == 0,
{
    let n = line.unicode_len();
    assert(line@.skip(0) =~= line@);
    let s = skip_blanks_from(line, n, 0);
    let e = word_end_from(line, n, s);
    let word = line.substring_char(s, e);
    proof {
        lemma_take_word_len(line@.skip(s as int));
        assert(after_first_word(line@) =~= line@.skip(e as int));
    }
    let s2 = skip_blanks_from(line, n, e);
    let e2 = word_end_from(line, n, s2);
    if e2 == s2 {
        assert(line@.subrange(s2 as int, e2 as int) =~= Seq::<char>::empty());
        (word, None)
    } else {
        (word, Some(line.substring_char(s2, e2)))
    }
}

/// Which usage message a command without its argument gets.
#[derive(Debug, Clone, Copy, PartialEq, Eq, Structural)]
pub enum ArgumentFor {
    Load,
    Run,
    HostExec,
}

/// One command of the interactive host.
#[derive(Debug, PartialEq, Eq)]
pub enum ShellCommand {
    Empty,
    Help,
    List,
    Scan,
    Load(String),
    Run(String),
    HostExec(String),
    MissingArgument(ArgumentFor),
    Quit,
    Unknown(String),
}

/// The command a first word and optional argument stand for.
pub open spec fn command_kind(word: Seq<char>, has_argument: bool) -> int {
    if word.len() == 0 {
        0
    } else if word == "help"@ || word == "h"@ {
        1
    } else if word == "list"@ || word == "ls"@ {
        2
    } else if word == "scan"@ {
        3
    } else if word == "load"@ {
        if has_argument { 4 } else { 7 }
    } else if word == "run"@ {
        if has_argument { 5 } else { 8 }
    } else if word == "host-exec"@ {
        if has_argument { 6 } else { 9 }
    } else if word == "quit"@ || word == "exit"@ || word == "q"@ {
        10
    } else {
        11
    }
}

pub open spec fn kind_of(c: ShellCommand) -> int {
    match c {
        ShellCommand::Empty => 0,
        ShellCommand::Help => 1,
        ShellCommand::List => 2,
        ShellCommand::Scan => 3,
        ShellCommand::Load(_) => 4,
        ShellCommand::Run(_) => 5,
        ShellCommand::HostExec(_) => 6,
        ShellCommand::MissingArgument(ArgumentFor::Load) => 7,
        ShellCommand::MissingArgument(ArgumentFor::Run) => 8,
        ShellCommand::MissingArgument(ArgumentFor::HostExec) => 9,
        ShellCommand::Quit => 10,
        ShellCommand::Unknown(_) => 11,
    }
}

/// Reads one line of the interactive host.
pub fn parse_command(line: &str) -> (r: ShellCommand)
    ensures
        kind_of(r) == command_kind(
            first_word(line@),
            first_word(after_first_word(line@)).len() > 0,
        ),
        r matches ShellCommand::Load(a) ==> a@ == first_word(after_first_word(line@)),
        r matches ShellCommand::Run(a) ==> a@ == first_word(after_first_word(line@)),
        r matches ShellCommand::HostExec(a) ==> a@ == first_word(after_first_word(line@)),
        r matches ShellCommand::Unknown(w) ==> w@ == first_word(line@),
{
    let (word, arg) = split_command(line);
    if word.unicode_len() == 0 {
        ShellCommand::Empty
    } else if str_equals(word, "help") || str_equals(word, "h") {
        ShellCommand::Help
    } else if str_equals(word, "list") || str_equals(word, "ls") {
        ShellCommand::List
    } else if str_equals(word, "scan") {
        ShellCommand::Scan
    } else if str_equals(word, "load") {
        match arg {
            Some(a) => ShellCommand::Load(String::from_str(a)),
            None => ShellCommand::MissingArgument(ArgumentFor::Load),
        }
    } else if str_equals(word, "run") {
        match arg {
            Some(a) => ShellCommand::Run(String::from_str(a)),
            None => ShellCommand::MissingArgument(ArgumentFor::Run),
        }
    } else if str_equals(word, "host-exec") {
        match arg {
            Some(a) => ShellCommand::HostExec(String::from_str(a)),
            None => ShellCommand::MissingArgument(ArgumentFor::HostExec),
        }
    } else if str_equals(word, "quit") || str_equals(word, "exit") || str_equals(word, "q") {
        ShellCommand::Quit
    } else {
        ShellCommand::Unknown(String::from_str(word))
    }
}

} // verus!
