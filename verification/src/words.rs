//! Splitting a command line into the program's name and its arguments.
//!
//! The splitting itself is done by `cmdline_words_parser`, with POSIX shell
//! quoting: unquoted whitespace separates words, single and double quotes
//! group, a backslash escapes the character after it. This module says on
//! which command lines that splitter can be used, and puts its words into a
//! [`CommandLine`].

use vstd::prelude::*;

use cmdline_words_parser::parse_posix;

verus! {

/// The kind of quotes a position of a command line stands in.
#[derive(Clone, Copy, Debug, PartialEq, Eq, Structural)]
pub enum Quoting {
    /// Outside any quotes.
    Unquoted,
    /// Between single quotes.
    Single,
    /// Between double quotes.
    Double,
}

/// What the splitter remembers between two characters.
#[derive(Clone, Copy, Debug, PartialEq, Eq, Structural)]
pub struct Scan {
    /// The quotes that are open.
    pub quoting: Quoting,
    /// Whether the last character was a backslash that escapes the next one.
    pub escaped: bool,
}

/// The state in which the first character of a command line is read.
pub open spec fn scan_start() -> Scan {
    Scan { quoting: Quoting::Unquoted, escaped: false }
}

/// The quotes that are open after the unescaped character `c`.
pub open spec fn quoting_after(quoting: Quoting, c: char) -> Quoting {
    match quoting {
        Quoting::Unquoted => if c == '\'' {
            Quoting::Single
        } else if c == '"' {
            Quoting::Double
        } else {
            Quoting::Unquoted
        },
        Quoting::Single => if c == '\'' {
            Quoting::Unquoted
        } else {
            Quoting::Single
        },
        Quoting::Double => if c == '"' {
            Quoting::Unquoted
        } else {
            Quoting::Double
        },
    }
}

/// The state after reading `c` in state `scan`.
pub open spec fn scan_step(scan: Scan, c: char) -> Scan {
    if scan.escaped {
        Scan { quoting: scan.quoting, escaped: false }
    } else if c == '\\' {
        Scan { quoting: scan.quoting, escaped: true }
    } else {
        Scan { quoting: quoting_after(scan.quoting, c), escaped: false }
    }
}

/// The state after reading all of `text`.
pub open spec fn scan_of(text: Seq<char>) -> Scan
    decreases text.len(),
{
    if text.len() == 0 {
        scan_start()
    } else {
        scan_step(scan_of(text.drop_last()), text.last())
    }
}

/// Whether the splitter can read `c` in state `scan`.
///
/// It cannot read an escaped character outside ASCII: it drops the first
/// byte of the character and keeps the rest, which is no text. And it
/// cannot read a tab, a line feed or a carriage return that is neither
/// quoted nor escaped: it ends the word there and never moves past it.
pub open spec fn readable(scan: Scan, c: char) -> bool {
    if scan.escaped {
        (c as u32) < 128
    } else if scan.quoting == Quoting::Unquoted {
        c != '\t' && c != '\n' && c != '\r'
    } else {
        true
    }
}

/// Whether the splitter can read the first `upto` characters of `text`.
pub open spec fn readable_upto(text: Seq<char>, upto: int) -> bool {
    forall|i: int| 0 <= i < upto ==> readable(scan_of(text.take(i)), #[trigger] text[i])
}

/// Whether `text` is a command line that can be split: it is not empty,
/// and the splitter can read each of its characters.
pub open spec fn splittable(text: Seq<char>) -> bool {
    text.len() > 0 && readable_upto(text, text.len() as int)
}

/// The words that `cmdline_words_parser::parse_posix` yields for `text`,
/// in order: its division of the line by the quoting of a POSIX shell.
pub uninterp spec fn posix_words(text: Seq<char>) -> Seq<Seq<char>>;

/// The texts of `words`, in order.
pub open spec fn texts(words: Seq<String>) -> Seq<Seq<char>> {
    Seq::new(words.len(), |i: int| words[i]@)
}

/// Splits `cmd` with `cmdline_words_parser::parse_posix`, on a copy of the
/// line, and takes every word that the parser yields.
///
/// Trusted: the words are a function of the text alone, and a text that is
/// not empty has at least one word. The parser panics or yields words
/// without end on the characters that [`readable`] leaves out, and on no
/// others.
#[verifier::external_body]
fn split_posix(cmd: &str) -> (words: Vec<String>)
    requires
        readable_upto(cmd@, cmd@.len() as int),
    ensures
        texts(words@) == posix_words(cmd@),
        cmd@.len() > 0 ==> words@.len() > 0,
{
    let mut line = cmd.to_string();
    parse_posix(&mut line).map(|word| word.to_string()).collect()
}

/// Reading one more character extends what was read before.
proof fn lemma_scan_next(text: Seq<char>, i: int)
    requires
        0 <= i < text.len(),
    ensures
        scan_of(text.take(i + 1)) == scan_step(scan_of(text.take(i)), text[i]),
{
    assert(text.take(i + 1).drop_last() == text.take(i));
}

/// Whether `c` is none of the characters that need care: a backslash, a
/// tab, a line feed or a carriage return.
pub open spec fn is_plain(c: char) -> bool {
    c != '\\' && c != '\t' && c != '\n' && c != '\r'
}

/// Without a backslash nothing is ever escaped.
proof fn lemma_plain_text_is_unescaped(text: Seq<char>, upto: int)
    requires
        0 <= upto <= text.len(),
        forall|i: int| 0 <= i < upto ==> is_plain(#[trigger] text[i]),
    ensures
        !scan_of(text.take(upto)).escaped,
    decreases upto,
{
    if upto > 0 {
        lemma_plain_text_is_unescaped(text, upto - 1);
        lemma_scan_next(text, upto - 1);
    }
}

/// A line that is not empty and holds no backslash, tab, line feed or
/// carriage return can be split, whatever else it holds.
pub proof fn lemma_plain_line_is_splittable(text: Seq<char>)
    requires
        text.len() > 0,
        forall|i: int| 0 <= i < text.len() ==> is_plain(#[trigger] text[i]),
    ensures
        splittable(text),
{
    assert forall|i: int| 0 <= i < text.len() implies readable(
        scan_of(text.take(i)),
        #[trigger] text[i],
    ) by {
        lemma_plain_text_is_unescaped(text, i);
    }
}

/// Whether `cmd` can be split into words: it is not empty, and the
/// splitter can read all of it.
pub fn can_split(cmd: &str) -> (ok: bool)
    ensures
        ok == splittable(cmd@),
{
    let mut quoting = Quoting::Unquoted;
    let mut escaped = false;
    let mut ok = true;
    let mut empty = true;
    for c in it: cmd.chars()
        invariant
            it.seq() == cmd@,
            scan_of(cmd@.take(it.index() as int)) == (Scan { quoting, escaped }),
            ok == readable_upto(cmd@, it.index() as int),
            empty == (it.index() == 0),
    {
        proof {
            lemma_scan_next(cmd@, it.index() as int);
        }
        empty = false;
        if escaped {
            ok = ok && (c as u32) < 128;
            escaped = false;
        } else if c == '\\' {
            escaped = true;
        } else {
            match quoting {
                Quoting::Unquoted => {
                    ok = ok && c != '\t' && c != '\n' && c != '\r';
                    if c == '\'' {
                        quoting = Quoting::Single;
                    } else if c == '"' {
                        quoting = Quoting::Double;
                    }
                },
                Quoting::Single => {
                    if c == '\'' {
                        quoting = Quoting::Unquoted;
                    }
                },
                Quoting::Double => {
                    if c == '"' {
                        quoting = Quoting::Unquoted;
                    }
                },
            }
        }
    }
    ok && !empty
}

/// A program and the arguments it is started with.
#[derive(Debug)]
pub struct CommandLine {
    /// The name of the executable.
    pub program: String,
    /// The arguments handed to it, in order.
    pub args: Vec<String>,
}

/// The texts of a [`CommandLine`].
pub struct CommandLineView {
    /// The characters of the program's name.
    pub program: Seq<char>,
    /// The characters of each argument, in order.
    pub args: Seq<Seq<char>>,
}

impl View for CommandLine {
    type V = CommandLineView;

    open spec fn view(&self) -> CommandLineView {
        CommandLineView { program: self.program@, args: texts(self.args@) }
    }
}

/// The command line that `words` stand for: the first word names the
/// program, the others are its arguments.
pub open spec fn command_of(words: Seq<Seq<char>>) -> CommandLineView
    recommends
        words.len() > 0,
{
    CommandLineView { program: words[0], args: words.subrange(1, words.len() as int) }
}

impl CommandLine {
    /// Takes the first of `words` as the program and the rest as its
    /// arguments.
    pub fn from_words(words: Vec<String>) -> (line: CommandLine)
        requires
            words@.len() > 0,
        ensures
            line@ == command_of(texts(words@)),
    {
        let mut words = words;
        let ghost all = words@;
        let program = words.remove(0);
        assert(texts(words@) =~= texts(all).subrange(1, all.len() as int));
        CommandLine { program, args: words }
    }
}

/// Splits `cmd` into the program to start and its arguments.
pub fn setup_process(cmd: &str) -> (line: CommandLine)
    requires
        splittable(cmd@),
    ensures
        line@ == command_of(posix_words(cmd@)),
{
    CommandLine::from_words(split_posix(cmd))
}

} // verus!
