//! The typed command vocabulary of the shell and the parser that
//! turns a line's tokens into one command. Parsing performs no I/O:
//! it is a pure function from text to a command or a parse error.

use vstd::prelude::*;
use crate::errors::ParseError;
use crate::errors::SpecParseError;
use crate::numfmt::all_digits;
use crate::numfmt::dec_value;
use crate::numfmt::parse_u64;
use crate::tokenize::quoting_ok;
use crate::tokenize::shell_tokens;
use crate::tokenize::tokenize;

verus! {

/// The kind value of a short note.
pub const KIND_NOTE: u16 = 1;

/// The kind value of a long-form article.
pub const KIND_LONG_FORM: u16 = 30023;

/// The default result limit of a recent-events listing.
pub const DEFAULT_LIST_LIMIT: u64 = 10;

/// The fields of a publish command: the message body, the event kind
/// value, and the optional tag sources.
#[derive(Debug)]
pub struct PublishArgs {
    pub message: String,
    pub kind: u16,
    pub title: Option<String>,
    pub publish_date: Option<String>,
    pub image_url: Option<String>,
}

/// One parsed line of input. Exactly one variant per line;
/// unrecognized input is a parse error, not a variant.
#[derive(Debug)]
pub enum Commands {
    /// Publish a long-form article whose body is read from a file.
    Cp {
        file_name: String,
        title: Option<String>,
        publish_date: Option<String>,
        image_url: Option<String>,
    },
    /// Fetch a single event by its human-readable encoded id.
    Gets { id: String },
    /// List the caller's own most recent events.
    Ls { limit: u64 },
    /// Publish an event from the given fields.
    Puts { args: PublishArgs },
    /// Ask the relays to delete an event by id.
    Rm { id: String },
    /// Leave the shell.
    Exit,
}

/// The mathematical image of [`PublishArgs`].
pub struct SpecPublishArgs {
    pub message: Seq<char>,
    pub kind: u16,
    pub title: Option<Seq<char>>,
    pub publish_date: Option<Seq<char>>,
    pub image_url: Option<Seq<char>>,
}

/// The mathematical image of [`Commands`].
pub enum SpecCommand {
    Cp {
        file_name: Seq<char>,
        title: Option<Seq<char>>,
        publish_date: Option<Seq<char>>,
        image_url: Option<Seq<char>>,
    },
    Gets { id: Seq<char> },
    Ls { limit: u64 },
    Puts { args: SpecPublishArgs },
    Rm { id: Seq<char> },
    Exit,
}

/// The view of an optional string.
pub open spec fn opt_view(o: Option<String>) -> Option<Seq<char>> {
    match o {
        Some(s) => Some(s@),
        None => None,
    }
}

impl View for PublishArgs {
    type V = SpecPublishArgs;

    open spec fn view(&self) -> SpecPublishArgs {
        SpecPublishArgs {
            message: self.message@,
            kind: self.kind,
            title: opt_view(self.title),
            publish_date: opt_view(self.publish_date),
            image_url: opt_view(self.image_url),
        }
    }
}

impl View for Commands {
    type V = SpecCommand;

    open spec fn view(&self) -> SpecCommand {
        match self {
            Commands::Cp { file_name, title, publish_date, image_url } => SpecCommand::Cp {
                file_name: file_name@,
                title: opt_view(*title),
                publish_date: opt_view(*publish_date),
                image_url: opt_view(*image_url),
            },
            Commands::Gets { id } => SpecCommand::Gets { id: id@ },
            Commands::Ls { limit } => SpecCommand::Ls { limit: *limit },
            Commands::Puts { args } => SpecCommand::Puts { args: args@ },
            Commands::Rm { id } => SpecCommand::Rm { id: id@ },
            Commands::Exit => SpecCommand::Exit,
        }
    }
}

/// The view of a parse result.
pub open spec fn parsed_view(r: Result<Commands, ParseError>) -> Result<SpecCommand, SpecParseError> {
    match r {
        Ok(c) => Ok(c@),
        Err(e) => Err(e@),
    }
}

/// True when a token would be read as an option flag.
pub open spec fn spec_is_flag(t: Seq<char>) -> bool {
    t.len() > 0 && t[0] == '-'
}

/// The optional tag sources gathered from option flags.
pub struct TagOpts {
    pub title: Option<String>,
    pub publish_date: Option<String>,
    pub image_url: Option<String>,
}

/// The mathematical image of [`TagOpts`].
pub struct SpecTagOpts {
    pub title: Option<Seq<char>>,
    pub publish_date: Option<Seq<char>>,
    pub image_url: Option<Seq<char>>,
}

impl View for TagOpts {
    type V = SpecTagOpts;

    open spec fn view(&self) -> SpecTagOpts {
        SpecTagOpts {
            title: opt_view(self.title),
            publish_date: opt_view(self.publish_date),
            image_url: opt_view(self.image_url),
        }
    }
}

/// No tag sources gathered yet.
pub open spec fn spec_no_opts() -> SpecTagOpts {
    SpecTagOpts { title: None, publish_date: None, image_url: None }
}

/// Reads the option flags that may follow a publish command's
/// positional arguments, from token `i` on. Each flag takes one
/// value token; a repeated flag replaces the earlier value.
pub open spec fn spec_parse_flags(toks: Seq<Seq<char>>, i: int, acc: SpecTagOpts) -> Result<
    SpecTagOpts,
    SpecParseError,
>
    decreases toks.len() - i,
{
    if i < 0 || i >= toks.len() {
        Ok(acc)
    } else {
        let t = toks[i];
        if t == "-t"@ || t == "--title"@ {
            if i + 1 >= toks.len() {
                Err(SpecParseError::MissingArgument("title"@))
            } else {
                spec_parse_flags(
                    toks,
                    i + 2,
                    SpecTagOpts { title: Some(toks[i + 1]), ..acc },
                )
            }
        } else if t == "-p"@ || t == "--publish-date"@ {
            if i + 1 >= toks.len() {
                Err(SpecParseError::MissingArgument("publish_date"@))
            } else {
                spec_parse_flags(
                    toks,
                    i + 2,
                    SpecTagOpts { publish_date: Some(toks[i + 1]), ..acc },
                )
            }
        } else if t == "-i"@ || t == "--image-url"@ {
            if i + 1 >= toks.len() {
                Err(SpecParseError::MissingArgument("image_url"@))
            } else {
                spec_parse_flags(
                    toks,
                    i + 2,
                    SpecTagOpts { image_url: Some(toks[i + 1]), ..acc },
                )
            }
        } else {
            Err(SpecParseError::UnexpectedToken(t))
        }
    }
}

/// Reads a publish command: a required message, an optional numeric
/// kind (a short note when omitted), then option flags.
pub open spec fn spec_parse_puts(toks: Seq<Seq<char>>) -> Result<SpecCommand, SpecParseError> {
    if toks.len() < 2 {
        Err(SpecParseError::MissingArgument("message"@))
    } else if toks.len() >= 3 && !spec_is_flag(toks[2]) {
        if !(all_digits(toks[2]) && dec_value(toks[2]) <= u16::MAX) {
            Err(SpecParseError::BadArgument("kind"@))
        } else {
            match spec_parse_flags(toks, 3, spec_no_opts()) {
                Ok(o) => Ok(
                    SpecCommand::Puts {
                        args: SpecPublishArgs {
                            message: toks[1],
                            kind: dec_value(toks[2]) as u16,
                            title: o.title,
                            publish_date: o.publish_date,
                            image_url: o.image_url,
                        },
                    },
                ),
                Err(e) => Err(e),
            }
        }
    } else {
        match spec_parse_flags(toks, 2, spec_no_opts()) {
            Ok(o) => Ok(
                SpecCommand::Puts {
                    args: SpecPublishArgs {
                        message: toks[1],
                        kind: KIND_NOTE,
                        title: o.title,
                        publish_date: o.publish_date,
                        image_url: o.image_url,
                    },
                },
            ),
            Err(e) => Err(e),
        }
    }
}

/// Reads a publish-from-file command: a required file name, then
/// option flags.
pub open spec fn spec_parse_cp(toks: Seq<Seq<char>>) -> Result<SpecCommand, SpecParseError> {
    if toks.len() < 2 {
        Err(SpecParseError::MissingArgument("file_name"@))
    } else {
        match spec_parse_flags(toks, 2, spec_no_opts()) {
            Ok(o) => Ok(
                SpecCommand::Cp {
                    file_name: toks[1],
                    title: o.title,
                    publish_date: o.publish_date,
                    image_url: o.image_url,
                },
            ),
            Err(e) => Err(e),
        }
    }
}

/// Reads a command that takes exactly one id argument.
pub open spec fn spec_parse_id_arg(toks: Seq<Seq<char>>, gets: bool) -> Result<
    SpecCommand,
    SpecParseError,
> {
    if toks.len() < 2 {
        Err(SpecParseError::MissingArgument("id"@))
    } else if toks.len() > 2 {
        Err(SpecParseError::UnexpectedToken(toks[2]))
    } else if gets {
        Ok(SpecCommand::Gets { id: toks[1] })
    } else {
        Ok(SpecCommand::Rm { id: toks[1] })
    }
}

/// Reads one command from a line's tokens: the first token picks the
/// command, the rest are its arguments, and declared defaults stand
/// in for omitted optional arguments.
pub open spec fn spec_parse_tokens(toks: Seq<Seq<char>>) -> Result<SpecCommand, SpecParseError> {
    if toks.len() == 0 {
        Err(SpecParseError::EmptyInput)
    } else {
        let w = toks[0];
        if w == "gets"@ {
            spec_parse_id_arg(toks, true)
        } else if w == "ls"@ {
            if toks.len() == 1 {
                Ok(SpecCommand::Ls { limit: DEFAULT_LIST_LIMIT })
            } else if toks.len() > 2 {
                Err(SpecParseError::UnexpectedToken(toks[2]))
            } else if !(all_digits(toks[1]) && dec_value(toks[1]) <= u64::MAX) {
                Err(SpecParseError::BadArgument("limit"@))
            } else {
                Ok(SpecCommand::Ls { limit: dec_value(toks[1]) as u64 })
            }
        } else if w == "puts"@ {
            spec_parse_puts(toks)
        } else if w == "cp"@ {
            spec_parse_cp(toks)
        } else if w == "rm"@ {
            spec_parse_id_arg(toks, false)
        } else if w == "exit"@ {
            if toks.len() > 1 {
                Err(SpecParseError::UnexpectedToken(toks[1]))
            } else {
                Ok(SpecCommand::Exit)
            }
        } else {
            Err(SpecParseError::UnknownCommand(w))
        }
    }
}

/// True when the token equals the given word.
fn tok_eq(t: &String, word: &str) -> (b: bool)
    ensures
        b == (t@ == word@),
{
    let w = String::from_str(word);
    *t == w
}

/// True when the token would be read as an option flag.
fn is_flag(t: &String) -> (b: bool)
    ensures
        b == spec_is_flag(t@),
{
    if t.unicode_len() == 0 {
        false
    } else {
        t.as_str().get_char(0) == '-'
    }
}

/// Reads the option flags from token `i` on.
fn parse_flags(tokens: &Vec<String>, i: usize, acc: TagOpts) -> (r: Result<TagOpts, ParseError>)
    requires
        i <= tokens.len(),
    ensures
        (match r {
            Ok(o) => Ok::<SpecTagOpts, SpecParseError>(o@),
            Err(e) => Err(e@),
        }) == spec_parse_flags(tokens.deep_view(), i as int, acc@),
    decreases tokens.len() - i,
{
    proof {
        assert(tokens.deep_view().len() == tokens.len());
    }
    if i >= tokens.len() {
        return Ok(acc);
    }
    let t = &tokens[i];
    proof {
        assert(tokens.deep_view()[i as int] == tokens[i as int]@);
    }
    if tok_eq(t, "-t") || tok_eq(t, "--title") {
        if i + 1 >= tokens.len() {
            Err(ParseError::MissingArgument(String::from_str("title")))
        } else {
            proof {
                assert(tokens.deep_view()[i + 1] == tokens[i + 1]@);
            }
            let value = tokens[i + 1].clone();
            parse_flags(
                tokens,
                i + 2,
                TagOpts { title: Some(value), publish_date: acc.publish_date, image_url: acc.image_url },
            )
        }
    } else if tok_eq(t, "-p") || tok_eq(t, "--publish-date") {
        if i + 1 >= tokens.len() {
            Err(ParseError::MissingArgument(String::from_str("publish_date")))
        } else {
            proof {
                assert(tokens.deep_view()[i + 1] == tokens[i + 1]@);
            }
            let value = tokens[i + 1].clone();
            parse_flags(
                tokens,
                i + 2,
                TagOpts { title: acc.title, publish_date: Some(value), image_url: acc.image_url },
            )
        }
    } else if tok_eq(t, "-i") || tok_eq(t, "--image-url") {
        if i + 1 >= tokens.len() {
            Err(ParseError::MissingArgument(String::from_str("image_url")))
        } else {
            proof {
                assert(tokens.deep_view()[i + 1] == tokens[i + 1]@);
            }
            let value = tokens[i + 1].clone();
            parse_flags(
                tokens,
                i + 2,
                TagOpts { title: acc.title, publish_date: acc.publish_date, image_url: Some(value) },
            )
        }
    } else {
        Err(ParseError::UnexpectedToken(t.clone()))
    }
}

/// Parses a numeric token, rejecting values above the given bound
/// with a bad-argument error naming `field`.
fn parse_bounded(t: &String, bound: u64, field: &str) -> (r: Result<u64, ParseError>)
    ensures
        r matches Ok(n) ==> all_digits(t@) && dec_value(t@) <= bound && n == dec_value(t@),
        r matches Err(e) ==> !(all_digits(t@) && dec_value(t@) <= bound) && e@
            == SpecParseError::BadArgument(field@),
{
    match parse_u64(t.as_str()) {
        Some(n) => {
            if n <= bound {
                Ok(n)
            } else {
                Err(ParseError::BadArgument(String::from_str(field)))
            }
        },
        None => Err(ParseError::BadArgument(String::from_str(field))),
    }
}

/// Parses a line's tokens into one command. The result is exactly
/// what the command grammar says of the tokens: a known first token
/// with well-typed arguments yields its command, with defaults where
/// optional arguments are omitted, and anything else yields the
/// parse error that names what was wrong.
pub fn parse_tokens(tokens: &Vec<String>) -> (r: Result<Commands, ParseError>)
    ensures
        parsed_view(r) == spec_parse_tokens(tokens.deep_view()),
{
    proof {
        assert(tokens.deep_view().len() == tokens.len());
    }
    if tokens.len() == 0 {
        return Err(ParseError::EmptyInput);
    }
    let w = &tokens[0];
    proof {
        assert(tokens.deep_view()[0] == tokens[0]@);
    }
    if tok_eq(w, "gets") {
        parse_id_arg(tokens, true)
    } else if tok_eq(w, "ls") {
        proof {
            if tokens.len() >= 2 {
                assert(tokens.deep_view()[1] == tokens[1]@);
            }
            if tokens.len() >= 3 {
                assert(tokens.deep_view()[2] == tokens[2]@);
            }
        }
        if tokens.len() == 1 {
            Ok(Commands::Ls { limit: DEFAULT_LIST_LIMIT })
        } else if tokens.len() > 2 {
            Err(ParseError::UnexpectedToken(tokens[2].clone()))
        } else {
            match parse_bounded(&tokens[1], u64::MAX, "limit") {
                Ok(n) => Ok(Commands::Ls { limit: n }),
                Err(e) => Err(e),
            }
        }
    } else if tok_eq(w, "puts") {
        parse_puts(tokens)
    } else if tok_eq(w, "cp") {
        parse_cp(tokens)
    } else if tok_eq(w, "rm") {
        parse_id_arg(tokens, false)
    } else if tok_eq(w, "exit") {
        proof {
            if tokens.len() >= 2 {
                assert(tokens.deep_view()[1] == tokens[1]@);
            }
        }
        if tokens.len() > 1 {
            Err(ParseError::UnexpectedToken(tokens[1].clone()))
        } else {
            Ok(Commands::Exit)
        }
    } else {
        Err(ParseError::UnknownCommand(w.clone()))
    }
}

/// Reads a command that takes exactly one id argument.
fn parse_id_arg(tokens: &Vec<String>, gets: bool) -> (r: Result<Commands, ParseError>)
    requires
        tokens.len() >= 1,
    ensures
        parsed_view(r) == spec_parse_id_arg(tokens.deep_view(), gets),
{
    proof {
        assert(tokens.deep_view().len() == tokens.len());
        if tokens.len() >= 2 {
            assert(tokens.deep_view()[1] == tokens[1]@);
        }
        if tokens.len() >= 3 {
            assert(tokens.deep_view()[2] == tokens[2]@);
        }
    }
    if tokens.len() < 2 {
        Err(ParseError::MissingArgument(String::from_str("id")))
    } else if tokens.len() > 2 {
        Err(ParseError::UnexpectedToken(tokens[2].clone()))
    } else if gets {
        Ok(Commands::Gets { id: tokens[1].clone() })
    } else {
        Ok(Commands::Rm { id: tokens[1].clone() })
    }
}

/// Reads a publish command.
fn parse_puts(tokens: &Vec<String>) -> (r: Result<Commands, ParseError>)
    requires
        tokens.len() >= 1,
    ensures
        parsed_view(r) == spec_parse_puts(tokens.deep_view()),
{
    proof {
        assert(tokens.deep_view().len() == tokens.len());
        if tokens.len() >= 2 {
            assert(tokens.deep_view()[1] == tokens[1]@);
        }
        if tokens.len() >= 3 {
            assert(tokens.deep_view()[2] == tokens[2]@);
        }
    }
    if tokens.len() < 2 {
        return Err(ParseError::MissingArgument(String::from_str("message")));
    }
    let message = tokens[1].clone();
    if tokens.len() >= 3 && !is_flag(&tokens[2]) {
        let kind: u64 = match parse_bounded(&tokens[2], 65535, "kind") {
            Ok(n) => n,
            Err(e) => {
                return Err(e);
            },
        };
        match parse_flags(tokens, 3, TagOpts { title: None, publish_date: None, image_url: None }) {
            Ok(o) => Ok(
                Commands::Puts {
                    args: PublishArgs {
                        message,
                        kind: kind as u16,
                        title: o.title,
                        publish_date: o.publish_date,
                        image_url: o.image_url,
                    },
                },
            ),
            Err(e) => Err(e),
        }
    } else {
        match parse_flags(tokens, 2, TagOpts { title: None, publish_date: None, image_url: None }) {
            Ok(o) => Ok(
                Commands::Puts {
                    args: PublishArgs {
                        message,
                        kind: KIND_NOTE,
                        title: o.title,
                        publish_date: o.publish_date,
                        image_url: o.image_url,
                    },
                },
            ),
            Err(e) => Err(e),
        }
    }
}

/// Reads a publish-from-file command.
fn parse_cp(tokens: &Vec<String>) -> (r: Result<Commands, ParseError>)
    requires
        tokens.len() >= 1,
    ensures
        parsed_view(r) == spec_parse_cp(tokens.deep_view()),
{
    proof {
        assert(tokens.deep_view().len() == tokens.len());
        if tokens.len() >= 2 {
            assert(tokens.deep_view()[1] == tokens[1]@);
        }
    }
    if tokens.len() < 2 {
        return Err(ParseError::MissingArgument(String::from_str("file_name")));
    }
    let file_name = tokens[1].clone();
    match parse_flags(tokens, 2, TagOpts { title: None, publish_date: None, image_url: None }) {
        Ok(o) => Ok(
            Commands::Cp {
                file_name,
                title: o.title,
                publish_date: o.publish_date,
                image_url: o.image_url,
            },
        ),
        Err(e) => Err(e),
    }
}

/// Parses one raw line of input into a command: the line is split
/// into shell-style tokens honoring quoting, and the tokens are read
/// against the command grammar. A line with unbalanced quoting fails
/// with the quoting error and nothing else is read from it.
pub fn parse_line(line: &str) -> (r: Result<Commands, ParseError>)
    ensures
        quoting_ok(line@) ==> parsed_view(r) == spec_parse_tokens(shell_tokens(line@)),
        !quoting_ok(line@) ==> (r matches Err(e) && e@ == SpecParseError::Quoting),
{
    match tokenize(line) {
        Ok(tokens) => parse_tokens(&tokens),
        Err(e) => Err(e),
    }
}

} // verus!
