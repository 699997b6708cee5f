//! Option tokens of the command line: the unit selector and the help flag.

use vstd::prelude::*;
use vstd::string::StringExecFns;

verus! {

/// The unit in which a byte count is printed.
#[derive(Debug, Clone, Copy, PartialEq, Eq, Structural)]
pub enum OptionsFormat {
    Metric,
    Binary,
    Bytes,
    GB,
    Gib,
    MB,
    Mib,
}

/// The options that precede the subcommand.
#[derive(Debug, Clone, Copy)]
pub struct Options {
    pub format: Option<OptionsFormat>,
    pub help: Option<bool>,
}

/// Why a command line was refused.
#[derive(Debug, Clone, Copy, PartialEq, Eq, Structural)]
pub enum ErrorKind {
    /// A second unit was given after one had been chosen.
    DuplicatedOption,
    /// A token that is no option, or no unit where a unit was due.
    InvalidOption,
}

/// A refused command line: the kind of fault and the token at which it was
/// found.
#[derive(Debug)]
pub struct ParseError {
    pub kind: ErrorKind,
    pub token: String,
}

/// A refused command line as a plain value: the kind of fault and the text
/// of the token.
pub struct Refusal {
    pub kind: ErrorKind,
    pub token: Seq<char>,
}

impl View for ParseError {
    type V = Refusal;

    open spec fn view(&self) -> Refusal {
        Refusal { kind: self.kind, token: self.token@ }
    }
}

/// The line that tells of a refused command line.
pub open spec fn refusal_line(refusal: Refusal) -> Seq<char> {
    match refusal.kind {
        ErrorKind::DuplicatedOption => "error: duplicated option "@ + refusal.token + " found"@,
        ErrorKind::InvalidOption => "error: invalid option "@ + refusal.token + " found"@,
    }
}

impl ParseError {
    /// The status with which the process ends after a refusal.
    pub fn exit_status(&self) -> (status: i32)
        ensures
            status == 1i32,
    {
        1
    }

    /// The line to print for the refusal.
    pub fn message(&self) -> (text: String)
        ensures
            text@ == refusal_line(self@),
    {
        let mut text = match self.kind {
            ErrorKind::DuplicatedOption => "error: duplicated option ".to_owned(),
            ErrorKind::InvalidOption => "error: invalid option ".to_owned(),
        };
        text.append(self.token.as_str());
        text.append(" found");
        text
    }
}

/// Whether two pieces of text are equal, character by character.
pub fn same_text(left: &str, right: &str) -> (same: bool)
    ensures
        same == (left@ == right@),
{
    let l = left.to_owned();
    let r = right.to_owned();
    l == r
}

/// The unit that a token names, if it names one. Names are exact and in
/// lower case.
pub open spec fn format_of(token: Seq<char>) -> Option<OptionsFormat> {
    if token == "metric"@ {
        Some(OptionsFormat::Metric)
    } else if token == "binary"@ {
        Some(OptionsFormat::Binary)
    } else if token == "bytes"@ {
        Some(OptionsFormat::Bytes)
    } else if token == "gb"@ {
        Some(OptionsFormat::GB)
    } else if token == "gib"@ {
        Some(OptionsFormat::Gib)
    } else if token == "mb"@ {
        Some(OptionsFormat::MB)
    } else if token == "mib"@ {
        Some(OptionsFormat::Mib)
    } else {
        None
    }
}

/// Whether a token announces a unit.
pub open spec fn is_format_flag(token: Seq<char>) -> bool {
    token == "-f"@ || token == "--format"@
}

/// Whether a token asks for the help text.
pub open spec fn is_help_flag(token: Seq<char>) -> bool {
    token == "-h"@ || token == "--help"@
}

impl OptionsFormat {
    /// Reads a unit from its name.
    pub fn from_name(token: &str) -> (format: Option<OptionsFormat>)
        ensures
            format == format_of(token@),
    {
        if same_text(token, "metric") {
            Some(OptionsFormat::Metric)
        } else if same_text(token, "binary") {
            Some(OptionsFormat::Binary)
        } else if same_text(token, "bytes") {
            Some(OptionsFormat::Bytes)
        } else if same_text(token, "gb") {
            Some(OptionsFormat::GB)
        } else if same_text(token, "gib") {
            Some(OptionsFormat::Gib)
        } else if same_text(token, "mb") {
            Some(OptionsFormat::MB)
        } else if same_text(token, "mib") {
            Some(OptionsFormat::Mib)
        } else {
            None
        }
    }
}

/// What the scan of the options has gathered so far.
#[derive(Debug, Clone, Copy)]
pub struct Scan {
    /// The unit chosen, once one was.
    pub format: Option<OptionsFormat>,
    /// Whether the token before was a unit flag, so that a unit is due.
    pub awaiting: bool,
    /// Set once a help flag was seen.
    pub help: Option<bool>,
}

/// What one token does to the scan of the options.
pub enum Step {
    /// The token was an option; the scan goes on in the state given.
    Next(Scan),
    /// The token is no option: the options end before it.
    End,
    /// The token is refused.
    Refused(ErrorKind),
}

/// How the scan of the options ended.
pub enum ScanEnd {
    /// The options end before the token at `next` (or with the last token,
    /// where `next` is the number of tokens).
    Done { state: Scan, next: nat },
    /// The token at `at` was refused.
    Failed { kind: ErrorKind, at: nat },
}

/// The state in which the scan starts: nothing chosen, nothing due.
pub open spec fn scan_start() -> Scan {
    Scan { format: None, awaiting: false, help: None }
}

/// The effect of one token on the scan. Where a unit is due, a unit already
/// chosen is a duplicate, whatever the token; else the token must name a unit.
pub open spec fn scan_step(state: Scan, token: Seq<char>) -> Step {
    if state.awaiting {
        if state.format is Some {
            Step::Refused(ErrorKind::DuplicatedOption)
        } else {
            match format_of(token) {
                Some(format) => Step::Next(
                    Scan { format: Some(format), awaiting: false, help: state.help },
                ),
                None => Step::Refused(ErrorKind::InvalidOption),
            }
        }
    } else if is_format_flag(token) {
        Step::Next(Scan { format: state.format, awaiting: true, help: state.help })
    } else if is_help_flag(token) {
        Step::Next(Scan { format: state.format, awaiting: false, help: Some(true) })
    } else {
        Step::End
    }
}

/// The scan of the options in `tokens`, from the token at `from` on, begun
/// in `state`.
pub open spec fn scan(tokens: Seq<Seq<char>>, state: Scan, from: nat) -> ScanEnd
    decreases tokens.len() - from,
{
    if from >= tokens.len() {
        ScanEnd::Done { state, next: from }
    } else {
        match scan_step(state, tokens[from as int]) {
            Step::Next(after) => scan(tokens, after, from + 1),
            Step::End => ScanEnd::Done { state, next: from },
            Step::Refused(kind) => ScanEnd::Failed { kind, at: from },
        }
    }
}

/// The text of each argument.
pub open spec fn texts(args: Seq<String>) -> Seq<Seq<char>> {
    Seq::new(args.len(), |i: int| args[i]@)
}

/// Applies one token to the scan of the options.
pub fn step_options(state: Scan, token: &str) -> (step: Step)
    ensures
        step == scan_step(state, token@),
{
    if state.awaiting {
        if state.format.is_some() {
            return Step::Refused(ErrorKind::DuplicatedOption);
        }
        match OptionsFormat::from_name(token) {
            Some(format) => Step::Next(
                Scan { format: Some(format), awaiting: false, help: state.help },
            ),
            None => Step::Refused(ErrorKind::InvalidOption),
        }
    } else if same_text(token, "-f") || same_text(token, "--format") {
        Step::Next(Scan { format: state.format, awaiting: true, help: state.help })
    } else if same_text(token, "-h") || same_text(token, "--help") {
        Step::Next(Scan { format: state.format, awaiting: false, help: Some(true) })
    } else {
        Step::End
    }
}

/// Scans the options among `args`, from the argument at `from` on.
pub fn scan_options(args: &Vec<String>, from: usize) -> (end: Result<(Scan, usize), ParseError>)
    ensures
        match scan(texts(args@), scan_start(), from as nat) {
            ScanEnd::Done { state, next } => end matches Ok(found) && found.0 == state
                && found.1 == next,
            ScanEnd::Failed { kind, at } => end matches Err(error) && at < args@.len() && error@
                == (Refusal { kind, token: args@[at as int]@ }),
        },
{
    let mut state = Scan { format: None, awaiting: false, help: None };
    let mut i: usize = from;
    while i < args.len()
        invariant
            scan(texts(args@), scan_start(), from as nat) == scan(texts(args@), state, i as nat),
        decreases args.len() - i,
    {
        match step_options(state, args[i].as_str()) {
            Step::Next(after) => {
                state = after;
            },
            Step::End => {
                return Ok((state, i));
            },
            Step::Refused(kind) => {
                return Err(ParseError { kind, token: args[i].clone() });
            },
        }
        i += 1;
    }
    Ok((state, i))
}

/// The options that a command line of options alone gives, or why it is
/// refused. The first argument is the program's name and is passed over; a
/// token that is no option is refused as invalid.
pub open spec fn options_of(args: Seq<Seq<char>>) -> Result<Options, Refusal> {
    match scan(args, scan_start(), 1) {
        ScanEnd::Failed { kind, at } => Err(Refusal { kind, token: args[at as int] }),
        ScanEnd::Done { state, next } => if next < args.len() {
            Err(Refusal { kind: ErrorKind::InvalidOption, token: args[next as int] })
        } else {
            Ok(Options { format: state.format, help: state.help })
        },
    }
}

impl Options {
    /// Reads the options from a command line that holds nothing else.
    pub fn new(args: &Vec<String>) -> (options: Result<Options, ParseError>)
        ensures
            match options_of(texts(args@)) {
                Ok(expected) => options == Ok::<Options, ParseError>(expected),
                Err(refusal) => options matches Err(error) && error@ == refusal,
            },
    {
        match scan_options(args, 1) {
            Err(error) => Err(error),
            Ok((state, next)) => {
                if next < args.len() {
                    Err(ParseError { kind: ErrorKind::InvalidOption, token: args[next].clone() })
                } else {
                    Ok(Options { format: state.format, help: state.help })
                }
            },
        }
    }

    /// The unit to print in: the one chosen, or the binary unit where none
    /// was.
    pub fn format_or_default(&self) -> (format: OptionsFormat)
        ensures
            format == match self.format {
                Some(chosen) => chosen,
                None => OptionsFormat::Binary,
            },
    {
        match self.format {
            Some(chosen) => chosen,
            None => OptionsFormat::Binary,
        }
    }

    /// Whether the help text was asked for.
    pub fn wants_help(&self) -> (wanted: bool)
        ensures
            wanted == (self.help == Some(true)),
    {
        match self.help {
            Some(flag) => flag,
            None => false,
        }
    }
}

} // verus!
