//! Splitting one line of input into shell-style words. The splitting
//! itself is done by the `shlex` crate; this module states when it
//! succeeds (balanced quoting) and names its token sequence.

use vstd::prelude::*;
use crate::errors::ParseError;

verus! {

/// The state of a POSIX-style word scanner after reading a prefix of
/// the line.
pub enum LexState {
    /// Between words, looking for the start of the next one.
    Between,
    /// Inside a comment that runs to the end of the line.
    Comment,
    /// Inside an unquoted word.
    Word,
    /// Right after a backslash inside an unquoted word.
    WordEscape,
    /// Inside a single-quoted section.
    Single,
    /// Inside a double-quoted section.
    Double,
    /// Right after a backslash inside a double-quoted section.
    DoubleEscape,
}

/// One step of the word scanner.
pub open spec fn lex_step(st: LexState, c: char) -> LexState {
    match st {
        LexState::Between => {
            if c == ' ' || c == '\t' || c == '\n' {
                LexState::Between
            } else if c == '#' {
                LexState::Comment
            } else if c == '"' {
                LexState::Double
            } else if c == '\'' {
                LexState::Single
            } else if c == '\\' {
                LexState::WordEscape
            } else {
                LexState::Word
            }
        },
        LexState::Comment => {
            if c == '\n' {
                LexState::Between
            } else {
                LexState::Comment
            }
        },
        LexState::Word => {
            if c == ' ' || c == '\t' || c == '\n' {
                LexState::Between
            } else if c == '"' {
                LexState::Double
            } else if c == '\'' {
                LexState::Single
            } else if c == '\\' {
                LexState::WordEscape
            } else {
                LexState::Word
            }
        },
        LexState::WordEscape => LexState::Word,
        LexState::Single => {
            if c == '\'' {
                LexState::Word
            } else {
                LexState::Single
            }
        },
        LexState::Double => {
            if c == '"' {
                LexState::Word
            } else if c == '\\' {
                LexState::DoubleEscape
            } else {
                LexState::Double
            }
        },
        LexState::DoubleEscape => LexState::Double,
    }
}

/// The scanner state after reading all of `s`.
pub open spec fn lex_state(s: Seq<char>) -> LexState
    decreases s.len(),
{
    if s.len() == 0 {
        LexState::Between
    } else {
        lex_step(lex_state(s.drop_last()), s.last())
    }
}

/// True when the line can be split into words: it does not end
/// inside a quotation or right after an unescaped backslash.
pub open spec fn quoting_ok(s: Seq<char>) -> bool {
    match lex_state(s) {
        LexState::Between => true,
        LexState::Comment => true,
        LexState::Word => true,
        _ => false,
    }
}

/// The words that shell-style splitting yields on a line with
/// balanced quoting.
pub uninterp spec fn shell_tokens(s: Seq<char>) -> Seq<Seq<char>>;

/// Relies on shlex::split: POSIX-style word splitting. It returns
/// `None` exactly when the line ends inside a quotation or right
/// after an unescaped backslash, and its words are a function of the
/// line alone.
#[verifier::external_body]
fn split_line(line: &str) -> (r: Option<Vec<String>>)
    ensures
        r is Some <==> quoting_ok(line@),
        r matches Some(v) ==> v.deep_view() == shell_tokens(line@),
{
    shlex::split(line)
}

/// Splits one line of input into shell-style words, honoring
/// quoting; a line with unbalanced quoting is rejected with the
/// quoting error.
pub fn tokenize(line: &str) -> (r: Result<Vec<String>, ParseError>)
    ensures
        r matches Ok(v) ==> quoting_ok(line@) && v.deep_view() == shell_tokens(line@),
        r matches Err(e) ==> !quoting_ok(line@) && e@ == crate::errors::SpecParseError::Quoting,
{
    match split_line(line) {
        Some(words) => Ok(words),
        None => Err(ParseError::Quoting),
    }
}

} // verus!
