//! The command line: two subcommands and their options.
//!
//! ```text
//! devhealth check [--path <dir>]
//! devhealth scan  [--path <dir>] [--git] [--deps] [--system]
//! ```
//!
//! `--path` may be written `-p`, and its value may follow in the next
//! argument or be attached (`--path=<dir>`, `-p<dir>`, `-p=<dir>`). The path
//! defaults to `.`. No option may be given twice. `--help`, `-h` and, in the
//! subcommand's place, `help`, `--version` and `-V` ask for text about the
//! program instead of a run.

use crate::text::{chars_of, has_prefix, is_text, slice_of, starts_with, text_of};
use vstd::prelude::*;

verus! {

/// The parsed command line.
#[derive(Debug)]
pub struct Cli {
    /// The subcommand and its options.
    pub command: Commands,
}

/// The subcommands.
#[derive(Debug)]
pub enum Commands {
    /// Look at the git repositories below `path`.
    Check { path: String },
    /// Run the scanners that the flags name on the tree below `path`.
    Scan { path: String, git: bool, deps: bool, system: bool },
}

/// What a [`Commands`] stands for.
pub enum CommandsView {
    Check { path: Seq<char> },
    Scan { path: Seq<char>, git: bool, deps: bool, system: bool },
}

/// What a [`Cli`] stands for.
pub struct CliView {
    pub command: CommandsView,
}

impl View for Commands {
    type V = CommandsView;

    open spec fn view(&self) -> CommandsView {
        match self {
            Commands::Check { path } => CommandsView::Check { path: path@ },
            Commands::Scan { path, git, deps, system } => CommandsView::Scan {
                path: path@,
                git: *git,
                deps: *deps,
                system: *system,
            },
        }
    }
}

impl View for Cli {
    type V = CliView;

    open spec fn view(&self) -> CliView {
        CliView { command: self.command@ }
    }
}

/// Why a command line gives no command.
#[derive(Debug)]
pub enum CliError {
    /// No subcommand was given.
    MissingSubcommand,
    /// The word in the subcommand's place names none.
    UnknownSubcommand(String),
    /// An argument that the subcommand does not take.
    UnexpectedArgument(String),
    /// The path option stands without its value.
    MissingValue,
    /// The path option was given an empty value.
    EmptyValue,
    /// The named option was given twice.
    Repeated(String),
    /// The usage text was asked for.
    HelpRequested,
    /// The version was asked for.
    VersionRequested,
}

/// What a [`CliError`] stands for.
pub enum CliErrorView {
    MissingSubcommand,
    UnknownSubcommand(Seq<char>),
    UnexpectedArgument(Seq<char>),
    MissingValue,
    EmptyValue,
    Repeated(Seq<char>),
    HelpRequested,
    VersionRequested,
}

impl View for CliError {
    type V = CliErrorView;

    open spec fn view(&self) -> CliErrorView {
        match self {
            CliError::MissingSubcommand => CliErrorView::MissingSubcommand,
            CliError::UnknownSubcommand(word) => CliErrorView::UnknownSubcommand(word@),
            CliError::UnexpectedArgument(arg) => CliErrorView::UnexpectedArgument(arg@),
            CliError::MissingValue => CliErrorView::MissingValue,
            CliError::EmptyValue => CliErrorView::EmptyValue,
            CliError::Repeated(option) => CliErrorView::Repeated(option@),
            CliError::HelpRequested => CliErrorView::HelpRequested,
            CliError::VersionRequested => CliErrorView::VersionRequested,
        }
    }
}

impl CliErrorView {
    /// The error in words.
    pub open spec fn text(self) -> Seq<char> {
        match self {
            CliErrorView::MissingSubcommand => "a subcommand is required: check or scan"@,
            CliErrorView::UnknownSubcommand(word) => "unrecognized subcommand '"@ + word + "'"@,
            CliErrorView::UnexpectedArgument(arg) => "unexpected argument '"@ + arg + "'"@,
            CliErrorView::MissingValue => "a value is required for '--path <PATH>'"@,
            CliErrorView::EmptyValue => "a value is required for '--path <PATH>' but it is empty"@,
            CliErrorView::Repeated(option) => "the argument '"@ + option
                + "' cannot be used multiple times"@,
            CliErrorView::HelpRequested => "help was requested"@,
            CliErrorView::VersionRequested => "the version was requested"@,
        }
    }
}

impl CliErrorView {
    /// The status with which the process exits: 0 where text about the
    /// program was asked for, 2 where the command line is at fault.
    pub open spec fn status(self) -> int {
        match self {
            CliErrorView::HelpRequested => 0,
            CliErrorView::VersionRequested => 0,
            _ => 2,
        }
    }
}

impl CliError {
    /// The status with which the process exits.
    pub fn exit_code(&self) -> (code: i32)
        ensures
            code == self@.status(),
    {
        match self {
            CliError::HelpRequested => 0,
            CliError::VersionRequested => 0,
            _ => 2,
        }
    }

    /// The error in words.
    pub fn to_string(&self) -> (s: String)
        ensures
            s@ == self@.text(),
    {
        match self {
            CliError::MissingSubcommand => "a subcommand is required: check or scan".to_owned(),
            CliError::UnknownSubcommand(word) => {
                let mut s = "unrecognized subcommand '".to_owned();
                s.append(word.as_str());
                s.append("'");
                s
            },
            CliError::UnexpectedArgument(arg) => {
                let mut s = "unexpected argument '".to_owned();
                s.append(arg.as_str());
                s.append("'");
                s
            },
            CliError::MissingValue => "a value is required for '--path <PATH>'".to_owned(),
            CliError::EmptyValue => "a value is required for '--path <PATH>' but it is empty".to_owned(),
            CliError::Repeated(option) => {
                let mut s = "the argument '".to_owned();
                s.append(option.as_str());
                s.append("' cannot be used multiple times");
                s
            },
            CliError::HelpRequested => "help was requested".to_owned(),
            CliError::VersionRequested => "the version was requested".to_owned(),
        }
    }
}

/// What the options read so far have set.
pub struct Settings {
    pub path: Option<Seq<char>>,
    pub git: bool,
    pub deps: bool,
    pub system: bool,
}

impl Settings {
    /// Nothing set.
    pub open spec fn none() -> Settings {
        Settings { path: None, git: false, deps: false, system: false }
    }

    /// The path that was set, or `.`.
    pub open spec fn path_or_default(self) -> Seq<char> {
        match self.path {
            Some(path) => path,
            None => "."@,
        }
    }
}

/// Whether an argument reads as an option and so cannot be the value of the
/// one before it: it starts with `-` and is longer than that.
pub open spec fn is_option_like(arg: Seq<char>) -> bool {
    arg.len() > 1 && arg[0] == '-'
}

/// How an argument names the path option.
pub enum PathForm {
    /// `--path` or `-p`: the value is the next argument.
    Separate,
    /// `--path=<dir>`, `-p<dir>` or `-p=<dir>`: the value is attached.
    Attached(Seq<char>),
    /// The argument is no path option.
    Absent,
}

/// How `arg` names the path option.
pub open spec fn path_form(arg: Seq<char>) -> PathForm {
    if arg == "--path"@ || arg == "-p"@ {
        PathForm::Separate
    } else if has_prefix(arg, "--path="@) {
        PathForm::Attached(arg.skip(7))
    } else if has_prefix(arg, "-p"@) {
        if arg[2] == '=' {
            PathForm::Attached(arg.skip(3))
        } else {
            PathForm::Attached(arg.skip(2))
        }
    } else {
        PathForm::Absent
    }
}

/// The settings that the arguments from index `i` on make, on top of
/// `seen`. The arguments are read from left to right, and the first one at
/// fault decides the error. The flags belong to `scan` alone. After `--`
/// nothing may follow.
pub open spec fn options(scan: bool, args: Seq<Seq<char>>, i: int, seen: Settings) -> Result<
    Settings,
    CliErrorView,
>
    decreases args.len() - i,
{
    if i < 0 || i >= args.len() {
        Ok(seen)
    } else {
        let arg = args[i];
        if arg == "--help"@ || arg == "-h"@ {
            Err(CliErrorView::HelpRequested)
        } else if arg == "--"@ {
            if i + 1 < args.len() {
                Err(CliErrorView::UnexpectedArgument(args[i + 1]))
            } else {
                Ok(seen)
            }
        } else {
            match path_form(arg) {
                PathForm::Separate => {
                    if seen.path is Some {
                        Err(CliErrorView::Repeated("--path"@))
                    } else if i + 1 >= args.len() || is_option_like(args[i + 1]) {
                        Err(CliErrorView::MissingValue)
                    } else if args[i + 1].len() == 0 {
                        Err(CliErrorView::EmptyValue)
                    } else {
                        options(scan, args, i + 2, Settings { path: Some(args[i + 1]), ..seen })
                    }
                },
                PathForm::Attached(value) => {
                    if seen.path is Some {
                        Err(CliErrorView::Repeated("--path"@))
                    } else if value.len() == 0 {
                        Err(CliErrorView::EmptyValue)
                    } else {
                        options(scan, args, i + 1, Settings { path: Some(value), ..seen })
                    }
                },
                PathForm::Absent => {
                    if scan && arg == "--git"@ {
                        if seen.git {
                            Err(CliErrorView::Repeated(arg))
                        } else {
                            options(scan, args, i + 1, Settings { git: true, ..seen })
                        }
                    } else if scan && arg == "--deps"@ {
                        if seen.deps {
                            Err(CliErrorView::Repeated(arg))
                        } else {
                            options(scan, args, i + 1, Settings { deps: true, ..seen })
                        }
                    } else if scan && arg == "--system"@ {
                        if seen.system {
                            Err(CliErrorView::Repeated(arg))
                        } else {
                            options(scan, args, i + 1, Settings { system: true, ..seen })
                        }
                    } else {
                        Err(CliErrorView::UnexpectedArgument(arg))
                    }
                },
            }
        }
    }
}

/// The command that the arguments `args` give. The first argument is the
/// program's name and is not read; the second names the subcommand.
pub open spec fn parsed(args: Seq<Seq<char>>) -> Result<CliView, CliErrorView> {
    if args.len() < 2 {
        Err(CliErrorView::MissingSubcommand)
    } else {
        let word = args[1];
        if word == "check"@ {
            match options(false, args, 2, Settings::none()) {
                Ok(set) => Ok(
                    CliView { command: CommandsView::Check { path: set.path_or_default() } },
                ),
                Err(e) => Err(e),
            }
        } else if word == "scan"@ {
            match options(true, args, 2, Settings::none()) {
                Ok(set) => Ok(
                    CliView {
                        command: CommandsView::Scan {
                            path: set.path_or_default(),
                            git: set.git,
                            deps: set.deps,
                            system: set.system,
                        },
                    },
                ),
                Err(e) => Err(e),
            }
        } else if word == "--help"@ || word == "-h"@ || word == "help"@ {
            Err(CliErrorView::HelpRequested)
        } else if word == "--version"@ || word == "-V"@ {
            Err(CliErrorView::VersionRequested)
        } else if is_option_like(word) {
            Err(CliErrorView::UnexpectedArgument(word))
        } else {
            Err(CliErrorView::UnknownSubcommand(word))
        }
    }
}

/// The views of a list of arguments.
pub open spec fn arg_texts(args: Seq<&str>) -> Seq<Seq<char>> {
    args.map_values(|a: &str| a@)
}

/// The options as the parser holds them while it reads.
struct Seen {
    path: Option<String>,
    git: bool,
    deps: bool,
    system: bool,
}

impl View for Seen {
    type V = Settings;

    closed spec fn view(&self) -> Settings {
        Settings {
            path: match self.path {
                Some(p) => Some(p@),
                None => None,
            },
            git: self.git,
            deps: self.deps,
            system: self.system,
        }
    }
}

/// What one argument does to the options.
enum Reading {
    /// Go on at the given index.
    Next(usize),
    /// The arguments end here.
    Stop,
    /// The argument is at fault.
    Fault(CliError),
}

fn attached_value(arg: &Vec<char>) -> (r: Option<Vec<char>>)
    ensures
        match r {
            Some(v) => path_form(arg@) == PathForm::Attached(v@),
            None => !(path_form(arg@) is Attached),
        },
{
    proof {
        reveal_strlit("--path=");
        reveal_strlit("-p");
        reveal_strlit("--path");
    }
    if is_text(arg, "--path") || is_text(arg, "-p") {
        None
    } else if starts_with(arg, "--path=") {
        let v = slice_of(arg, 7, arg.len());
        assert(v@ =~= arg@.skip(7));
        Some(v)
    } else if starts_with(arg, "-p") {
        assert(arg.len() > 2) by {
            if arg.len() == 2 {
                assert(arg@.take(2) =~= arg@);
            }
        }
        let from: usize = if arg[2] == '=' {
            3
        } else {
            2
        };
        let v = slice_of(arg, from, arg.len());
        assert(v@ =~= arg@.skip(from as int));
        Some(v)
    } else {
        None
    }
}

fn read_options(scan: bool, args: &[&str]) -> (r: Result<Seen, CliError>)
    ensures
        match r {
            Ok(seen) => options(scan, arg_texts(args@), 2, Settings::none()) == Ok::<
                Settings,
                CliErrorView,
            >(seen@),
            Err(e) => options(scan, arg_texts(args@), 2, Settings::none()) == Err::<
                Settings,
                CliErrorView,
            >(e@),
        },
{
    let ghost all = arg_texts(args@);
    let mut seen = Seen { path: None, git: false, deps: false, system: false };
    let mut i: usize = 2;
    while i < args.len()
        invariant
            all == arg_texts(args@),
            options(scan, all, 2, Settings::none()) == options(scan, all, i as int, seen@),
        decreases args.len() - i,
    {
        let arg = chars_of(args[i]);
        assert(arg@ == all[i as int]);
        if is_text(&arg, "--help") || is_text(&arg, "-h") {
            return Err(CliError::HelpRequested);
        }
        if is_text(&arg, "--") {
            if i + 1 < args.len() {
                assert(args[i + 1]@ == all[i + 1]);
                return Err(CliError::UnexpectedArgument(args[i + 1].to_owned()));
            }
            return Ok(seen);
        }
        if is_text(&arg, "--path") || is_text(&arg, "-p") {
            if seen.path.is_some() {
                return Err(CliError::Repeated("--path".to_owned()));
            }
            if i + 1 >= args.len() {
                return Err(CliError::MissingValue);
            }
            let value = chars_of(args[i + 1]);
            assert(value@ == all[i + 1]);
            if value.len() > 1 && value[0] == '-' {
                return Err(CliError::MissingValue);
            }
            if value.len() == 0 {
                return Err(CliError::EmptyValue);
            }
            seen.path = Some(args[i + 1].to_owned());
            i += 2;
            continue ;
        }
        match attached_value(&arg) {
            Some(value) => {
                if seen.path.is_some() {
                    return Err(CliError::Repeated("--path".to_owned()));
                }
                if value.len() == 0 {
                    return Err(CliError::EmptyValue);
                }
                seen.path = Some(text_of(&value));
                i += 1;
                continue ;
            },
            None => {},
        }
        if scan && is_text(&arg, "--git") {
            if seen.git {
                return Err(CliError::Repeated(args[i].to_owned()));
            }
            seen.git = true;
        } else if scan && is_text(&arg, "--deps") {
            if seen.deps {
                return Err(CliError::Repeated(args[i].to_owned()));
            }
            seen.deps = true;
        } else if scan && is_text(&arg, "--system") {
            if seen.system {
                return Err(CliError::Repeated(args[i].to_owned()));
            }
            seen.system = true;
        } else {
            return Err(CliError::UnexpectedArgument(args[i].to_owned()));
        }
        i += 1;
    }
    Ok(seen)
}

fn path_or_default(path: Option<String>) -> (r: String)
    ensures
        r@ == match path {
            Some(p) => p@,
            None => "."@,
        },
{
    match path {
        Some(p) => p,
        None => ".".to_owned(),
    }
}

impl Cli {
    /// Reads a command line. The first argument is the program's name.
    pub fn try_parse_from(args: &[&str]) -> (r: Result<Cli, CliError>)
        ensures
            match r {
                Ok(cli) => parsed(arg_texts(args@)) == Ok::<CliView, CliErrorView>(cli@),
                Err(e) => parsed(arg_texts(args@)) == Err::<CliView, CliErrorView>(e@),
            },
    {
        if args.len() < 2 {
            return Err(CliError::MissingSubcommand);
        }
        let word = chars_of(args[1]);
        assert(word@ == arg_texts(args@)[1]);
        if is_text(&word, "check") {
            match read_options(false, args) {
                Ok(seen) => Ok(
                    Cli { command: Commands::Check { path: path_or_default(seen.path) } },
                ),
                Err(e) => Err(e),
            }
        } else if is_text(&word, "scan") {
            match read_options(true, args) {
                Ok(seen) => Ok(
                    Cli {
                        command: Commands::Scan {
                            path: path_or_default(seen.path),
                            git: seen.git,
                            deps: seen.deps,
                            system: seen.system,
                        },
                    },
                ),
                Err(e) => Err(e),
            }
        } else if is_text(&word, "--help") || is_text(&word, "-h") || is_text(&word, "help") {
            Err(CliError::HelpRequested)
        } else if is_text(&word, "--version") || is_text(&word, "-V") {
            Err(CliError::VersionRequested)
        } else if word.len() > 1 && word[0] == '-' {
            Err(CliError::UnexpectedArgument(args[1].to_owned()))
        } else {
            Err(CliError::UnknownSubcommand(args[1].to_owned()))
        }
    }

    /// Reads a command line that is known to give a command.
    pub fn parse_from(args: &[&str]) -> (cli: Cli)
        requires
            parsed(arg_texts(args@)) is Ok,
        ensures
            parsed(arg_texts(args@)) == Ok::<CliView, CliErrorView>(cli@),
    {
        match Cli::try_parse_from(args) {
            Ok(cli) => cli,
            Err(_) => vstd::pervasive::unreached(),
        }
    }
}

} // verus!
