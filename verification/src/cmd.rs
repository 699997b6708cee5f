//! The command line as a whole: options, subcommand and input paths.

use vstd::prelude::*;
use vstd::string::StringExecFns;
pub use crate::options::OptionsFormat;
use crate::options::{
    scan, scan_options, scan_start, scan_step, same_text, texts, Options, ParseError, Refusal,
    Scan, ScanEnd, Step,
};
use crate::render::{format_file_size, formatted, ReportEntry};
use crate::size::{aggregate, count_file_size, Entry};

verus! {

/// What the program is asked to do.
#[derive(Debug, Clone, Copy, PartialEq, Eq, Structural)]
pub enum SubCommand {
    /// Report the space consumed by each input path.
    Aggregate,
    /// Print the help text.
    Help,
}

/// A command line that was accepted.
#[derive(Debug)]
pub struct Command {
    options: Options,
    sub_command: SubCommand,
    input: Vec<String>,
}

/// A command as a plain value.
pub struct CommandView {
    pub options: Options,
    pub sub_command: SubCommand,
    pub input: Seq<Seq<char>>,
}

impl View for Command {
    type V = CommandView;

    closed spec fn view(&self) -> CommandView {
        CommandView {
            options: self.options,
            sub_command: self.sub_command,
            input: texts(self.input@),
        }
    }
}

/// The input used where the command line names none: the current directory.
pub open spec fn default_input() -> Seq<Seq<char>> {
    seq!["./"@]
}

/// The subcommand that a token names, if it names one.
pub open spec fn sub_command_of(token: Seq<char>) -> Option<SubCommand> {
    if token == "aggregate"@ {
        Some(SubCommand::Aggregate)
    } else if token == "help"@ {
        Some(SubCommand::Help)
    } else {
        None
    }
}

/// The tokens from `from` on; none where `from` is past the end.
pub open spec fn tokens_from(tokens: Seq<Seq<char>>, from: nat) -> Seq<Seq<char>> {
    if from >= tokens.len() {
        Seq::empty()
    } else {
        tokens.skip(from as int)
    }
}

/// The command that the tokens from `from` on stand for, or why they are
/// refused. Options come first. The token after them is the subcommand if
/// it names one, else it is the first input path and the subcommand is
/// `Aggregate`. All later tokens are input paths, in order; without any the
/// input is the current directory.
pub open spec fn parsed(tokens: Seq<Seq<char>>, from: nat) -> Result<CommandView, Refusal> {
    match scan(tokens, scan_start(), from) {
        ScanEnd::Failed { kind, at } => Err(Refusal { kind, token: tokens[at as int] }),
        ScanEnd::Done { state, next } => {
            let named = if next < tokens.len() {
                sub_command_of(tokens[next as int])
            } else {
                None
            };
            let paths = match named {
                Some(_) => tokens_from(tokens, next + 1),
                None => tokens_from(tokens, next),
            };
            Ok(
                CommandView {
                    options: Options { format: state.format, help: state.help },
                    sub_command: match named {
                        Some(sub_command) => sub_command,
                        None => SubCommand::Aggregate,
                    },
                    input: if paths.len() == 0 {
                        default_input()
                    } else {
                        paths
                    },
                },
            )
        },
    }
}

/// Reads a subcommand from its name.
pub fn sub_command_from_name(token: &str) -> (named: Option<SubCommand>)
    ensures
        named == sub_command_of(token@),
{
    if same_text(token, "aggregate") {
        Some(SubCommand::Aggregate)
    } else if same_text(token, "help") {
        Some(SubCommand::Help)
    } else {
        None
    }
}

/// What a query for the metadata of one input path gave.
#[derive(Debug)]
pub enum Probe {
    /// The path could be read: what stands there.
    Found(Entry),
    /// The query failed, for the cause given.
    Failed(String),
}

/// How a run of a command ends.
#[derive(Debug)]
pub enum Outcome {
    /// The help text is due, and nothing else.
    Help,
    /// Every input path could be read: one entry for each, in the order of
    /// the input.
    Report(Vec<ReportEntry>),
    /// An input path could not be read; nothing is reported for any path.
    PathUnreadable { path: String, cause: String },
}

/// The place of the first probe from `from` on that failed, if one did.
pub open spec fn first_failed(probes: Seq<Probe>, from: nat) -> Option<nat>
    decreases probes.len() - from,
{
    if from >= probes.len() {
        None
    } else if probes[from as int] is Failed {
        Some(from)
    } else {
        first_failed(probes, from + 1)
    }
}

/// The unit that a run prints in: the one chosen, else the binary unit.
pub open spec fn unit_of(options: Options) -> OptionsFormat {
    match options.format {
        Some(chosen) => chosen,
        None => OptionsFormat::Binary,
    }
}

/// Whether `entry` is what a run reports for `path`, at which `probe` was
/// found: the path itself, and its size in `unit`.
pub open spec fn reports(entry: ReportEntry, path: Seq<char>, probe: Probe, unit: OptionsFormat) -> bool {
    match probe {
        Probe::Found(found) => entry.path@ == path && entry.size@ == formatted(
            Some(unit),
            aggregate(path, found),
        ),
        Probe::Failed(_) => false,
    }
}

/// Whether `outcome` tells that `path` could not be read, with the cause
/// that `probe` gave.
pub open spec fn tells_of(outcome: Outcome, path: Seq<char>, probe: Probe) -> bool {
    match (outcome, probe) {
        (Outcome::PathUnreadable { path: unread, cause }, Probe::Failed(reason)) => unread@
            == path && cause@ == reason@,
        _ => false,
    }
}

/// The line that tells of an input path that could not be read.
pub open spec fn failure_line(path: Seq<char>, cause: Seq<char>) -> Seq<char> {
    "the file "@ + path + " error: "@ + cause
}

impl Outcome {
    /// The status with which the process ends: 1 after a path that could
    /// not be read, else 0.
    pub fn exit_status(&self) -> (status: i32)
        ensures
            status == (if self is PathUnreadable { 1i32 } else { 0i32 }),
    {
        match self {
            Outcome::PathUnreadable { .. } => 1,
            _ => 0,
        }
    }

    /// The line to print for a path that could not be read; `None` for the
    /// other outcomes.
    pub fn error_line(&self) -> (text: Option<String>)
        ensures
            match *self {
                Outcome::PathUnreadable { path, cause } => text matches Some(t) && t@
                    == failure_line(path@, cause@),
                _ => text is None,
            },
    {
        match self {
            Outcome::PathUnreadable { path, cause } => {
                let mut text = "the file ".to_owned();
                text.append(path.as_str());
                text.append(" error: ");
                text.append(cause.as_str());
                Some(text)
            },
            _ => None,
        }
    }
}

impl Command {
    /// Every command holds at least one input path.
    #[verifier::type_invariant]
    spec fn has_input(self) -> bool {
        self.input@.len() > 0
    }

    /// Whether the command asks for the help text, by flag or by
    /// subcommand.
    pub open spec fn shows_help(self) -> bool {
        self@.options.help == Some(true) || self@.sub_command == SubCommand::Help
    }

    /// What a run needs of the probes, unless the help text is due: one for
    /// each input path in order, or for each up to one that failed, and
    /// every size within what a `u64` holds.
    pub open spec fn can_run(self, probes: Seq<Probe>) -> bool {
        self.shows_help() || (probes.len() <= self@.input.len() && (probes.len()
            == self@.input.len() || first_failed(probes, 0) is Some) && forall|i: int|
            0 <= i < probes.len() ==> (#[trigger] probes[i] matches Probe::Found(found)
                ==> found.fits()))
    }

    /// Whether the help text is due.
    pub fn wants_help(&self) -> (wanted: bool)
        ensures
            wanted == self.shows_help(),
    {
        self.options.wants_help() || self.sub_command == SubCommand::Help
    }

    /// Runs the command on what was found at its input paths, `probes[i]`
    /// at the `i`-th path. Where the help text is due the probes are not
    /// looked at. Else the first probe that failed ends the run; without one
    /// each path is reported with its size in the unit of the options.
    pub fn run(&self, probes: &Vec<Probe>) -> (outcome: Outcome)
        requires
            self.can_run(probes@),
        ensures
            self.shows_help() ==> outcome is Help,
            !self.shows_help() ==> match first_failed(probes@, 0) {
                Some(at) => at < probes@.len() && tells_of(
                    outcome,
                    self@.input[at as int],
                    probes@[at as int],
                ),
                None => outcome matches Outcome::Report(entries) && entries@.len()
                    == self@.input.len() && forall|i: int|
                    0 <= i < entries@.len() ==> reports(
                        #[trigger] entries@[i],
                        self@.input[i],
                        probes@[i],
                        unit_of(self@.options),
                    ),
            },
    {
        if self.wants_help() {
            return Outcome::Help;
        }
        let unit = Options { format: Some(self.options.format_or_default()), help: self.options.help };
        let mut entries: Vec<ReportEntry> = Vec::new();
        let mut i: usize = 0;
        while i < probes.len()
            invariant
                i <= probes.len(),
                probes@.len() <= self.input@.len(),
                self.can_run(probes@),
                !self.shows_help(),
                unit.format == Some(unit_of(self@.options)),
                first_failed(probes@, 0) == first_failed(probes@, i as nat),
                entries@.len() == i,
                forall|k: int|
                    0 <= k < i ==> reports(
                        #[trigger] entries@[k],
                        self@.input[k],
                        probes@[k],
                        unit_of(self@.options),
                    ),
            decreases probes.len() - i,
        {
            match &probes[i] {
                Probe::Failed(reason) => {
                    return Outcome::PathUnreadable {
                        path: self.input[i].clone(),
                        cause: reason.clone(),
                    };
                },
                Probe::Found(found) => {
                    let file_size = count_file_size(self.input[i].as_str(), found);
                    let size = format_file_size(unit, file_size);
                    entries.push(ReportEntry { path: self.input[i].clone(), size });
                },
            }
            i += 1;
        }
        Outcome::Report(entries)
    }

    /// A command always names at least one input path.
    pub open spec fn wf(self) -> bool {
        self@.input.len() > 0
    }

    /// Reads a command from the arguments from `from` on.
    fn parse_from(args: &Vec<String>, from: usize) -> (command: Result<Command, ParseError>)
        ensures
            match parsed(texts(args@), from as nat) {
                Ok(expected) => command matches Ok(found) && found@ == expected && found.wf(),
                Err(refusal) => command matches Err(error) && error@ == refusal,
            },
    {
        let (state, next) = match scan_options(args, from) {
            Ok(found) => found,
            Err(error) => {
                return Err(error);
            },
        };
        let named = if next < args.len() {
            sub_command_from_name(args[next].as_str())
        } else {
            None
        };
        let begin: usize = match named {
            Some(_) => next + 1,
            None => next,
        };
        let sub_command = match named {
            Some(sub_command) => sub_command,
            None => SubCommand::Aggregate,
        };
        let mut input: Vec<String> = Vec::new();
        let mut i: usize = begin;
        while i < args.len()
            invariant
                begin <= i,
                i <= args.len() || (begin > args.len() && input@.len() == 0),
                i <= args.len() ==> input@.len() == i - begin,
                forall|k: int| 0 <= k < input@.len() ==> #[trigger] input@[k]@ == args@[begin + k]@,
            decreases args.len() - i,
        {
            input.push(args[i].clone());
            i += 1;
        }
        assert(texts(input@) =~= tokens_from(texts(args@), begin as nat));
        if input.len() == 0 {
            input.push("./".to_owned());
            assert(texts(input@) =~= default_input());
        }
        Ok(Command { options: Options { format: state.format, help: state.help }, sub_command, input })
    }

    /// Reads a command from the tokens of a command line, the program's
    /// name not among them.
    pub fn parse(tokens: &Vec<String>) -> (command: Result<Command, ParseError>)
        ensures
            match parsed(texts(tokens@), 0) {
                Ok(expected) => command matches Ok(found) && found@ == expected && found.wf(),
                Err(refusal) => command matches Err(error) && error@ == refusal,
            },
    {
        Command::parse_from(tokens, 0)
    }

    /// Reads a command from the arguments of the process. The first is the
    /// program's name and is passed over.
    pub fn from_args(args: &Vec<String>) -> (command: Result<Command, ParseError>)
        ensures
            match parsed(texts(args@), 1) {
                Ok(expected) => command matches Ok(found) && found@ == expected && found.wf(),
                Err(refusal) => command matches Err(error) && error@ == refusal,
            },
    {
        Command::parse_from(args, 1)
    }

    /// The options given.
    pub fn options(&self) -> (options: &Options)
        ensures
            *options == self@.options,
    {
        &self.options
    }

    /// The subcommand chosen.
    pub fn sub_command(&self) -> (sub_command: SubCommand)
        ensures
            sub_command == self@.sub_command,
    {
        self.sub_command
    }

    /// The input paths, in the order given: at least one.
    pub fn input(&self) -> (input: &Vec<String>)
        ensures
            texts(input@) == self@.input,
            input@.len() > 0,
            self.wf(),
    {
        proof {
            use_type_invariant(self);
        }
        &self.input
    }
}

/// A scan that starts after the first token ends as the scan of the tokens
/// without the first does, one place further on.
pub proof fn lemma_scan_shift(tokens: Seq<Seq<char>>, state: Scan, from: nat)
    requires
        tokens.len() >= 1,
    ensures
        scan(tokens, state, from + 1) == match scan(tokens.skip(1), state, from) {
            ScanEnd::Done { state: end, next } => ScanEnd::Done { state: end, next: next + 1 },
            ScanEnd::Failed { kind, at } => ScanEnd::Failed { kind, at: at + 1 },
        },
        scan(tokens.skip(1), state, from) matches ScanEnd::Failed { kind, at } ==> at + 1
            < tokens.len(),
        scan(tokens.skip(1), state, from) matches ScanEnd::Done { state: end, next } ==> next
            >= from,
    decreases tokens.len() - from,
{
    let shorter = tokens.skip(1);
    if from < shorter.len() {
        assert(shorter[from as int] == tokens[from as int + 1]);
        match scan_step(state, shorter[from as int]) {
            Step::Next(after) => {
                lemma_scan_shift(tokens, after, from + 1);
            },
            _ => {},
        }
    }
}

/// Reading the arguments of a process is reading the tokens that follow the
/// program's name.
pub proof fn lemma_from_args_is_parse(args: Seq<Seq<char>>)
    ensures
        parsed(args, 1) == parsed(tokens_from(args, 1), 0),
{
    let tokens = tokens_from(args, 1);
    if args.len() >= 1 {
        lemma_scan_shift(args, scan_start(), 0);
        match scan(tokens, scan_start(), 0) {
            ScanEnd::Failed { kind, at } => {
                assert(tokens[at as int] == args[at as int + 1]);
            },
            ScanEnd::Done { state, next } => {
                if next < tokens.len() {
                    assert(tokens[next as int] == args[next as int + 1]);
                }
                assert(tokens_from(tokens, next) =~= tokens_from(args, next + 1));
                assert(tokens_from(tokens, next + 1) =~= tokens_from(args, next + 2));
            },
        }
    } else {
        assert(tokens =~= args);
        assert(tokens_from(args, 0) =~= tokens_from(args, 1));
    }
}

/// A command that was accepted names at least one input path.
pub proof fn lemma_parsed_input(tokens: Seq<Seq<char>>, from: nat)
    ensures
        parsed(tokens, from) matches Ok(command) ==> command.input.len() > 0,
{
    reveal_strlit("./");
}

} // verus!
