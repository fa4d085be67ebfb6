//! What the command line asks for: the language, colors, and which
//! non-interactive command (if any) to run.

use vstd::prelude::*;
use crate::i18n::{language_of_code, Language};
use crate::text::{lower_of, lowercase, range_starts_with, chars_of, starts_with, str_eq};

verus! {

/// A command given on the command line.
#[derive(Debug, Clone, PartialEq, Eq)]
pub enum CliCommand {
    /// No command: run the interactive menu.
    Interactive,
    /// `--list`: show installed instances.
    List,
    /// `--install` without the means to name a distro: show its usage.
    InstallUsage,
    /// `--uninstall <id>`.
    Uninstall(String),
    /// `--uninstall` without an ID: show its usage.
    UninstallUsage,
    /// `--help`.
    Help,
    /// `--no-color` alone: report that colors are off.
    NoColorNotice,
    /// Anything else: report it and show help.
    Unknown(String),
}

pub open spec fn args_view(args: Seq<String>) -> Seq<Seq<char>> {
    args.map_values(|s: String| s@)
}

/// Where the command starts: after a leading `--lang <code>` pair.
pub open spec fn command_start(a: Seq<Seq<char>>) -> int {
    if a.len() > 2 && a[1] == "--lang"@ {
        3
    } else {
        1
    }
}

/// The command that an argument list (program name first) asks for.
pub open spec fn command_of(a: Seq<Seq<char>>) -> CliCommandView {
    let s = command_start(a);
    if s >= a.len() {
        CliCommandView::Interactive
    } else if a[s] == "--list"@ {
        CliCommandView::List
    } else if a[s] == "--install"@ {
        CliCommandView::InstallUsage
    } else if a[s] == "--uninstall"@ {
        if a.len() < 3 {
            CliCommandView::UninstallUsage
        } else {
            CliCommandView::Uninstall(a[2])
        }
    } else if a[s] == "--help"@ {
        CliCommandView::Help
    } else if a[s] == "--no-color"@ {
        CliCommandView::NoColorNotice
    } else {
        CliCommandView::Unknown(a[s])
    }
}

/// `CliCommand` with its text as character sequences.
pub ghost enum CliCommandView {
    Interactive,
    List,
    InstallUsage,
    Uninstall(Seq<char>),
    UninstallUsage,
    Help,
    NoColorNotice,
    Unknown(Seq<char>),
}

impl CliCommand {
    pub open spec fn view(&self) -> CliCommandView {
        match self {
            CliCommand::Interactive => CliCommandView::Interactive,
            CliCommand::List => CliCommandView::List,
            CliCommand::InstallUsage => CliCommandView::InstallUsage,
            CliCommand::Uninstall(id) => CliCommandView::Uninstall(id@),
            CliCommand::UninstallUsage => CliCommandView::UninstallUsage,
            CliCommand::Help => CliCommandView::Help,
            CliCommand::NoColorNotice => CliCommandView::NoColorNotice,
            CliCommand::Unknown(a) => CliCommandView::Unknown(a@),
        }
    }
}

/// The command that `args` (program name first) asks for.
pub fn parse_command(args: &Vec<String>) -> (r: CliCommand)
    ensures
        r.view() == command_of(args_view(args@)),
{
    let ghost a = args_view(args@);
    let n = args.len();
    let start: usize = if n > 2 && str_eq(args[1].as_str(), "--lang") {
        3
    } else {
        1
    };
    if start >= n {
        return CliCommand::Interactive;
    }
    let arg = args[start].as_str();
    assert(a[start as int] == arg@);
    if str_eq(arg, "--list") {
        CliCommand::List
    } else if str_eq(arg, "--install") {
        CliCommand::InstallUsage
    } else if str_eq(arg, "--uninstall") {
        if n < 3 {
            CliCommand::UninstallUsage
        } else {
            assert(a[2] == args@[2]@);
            CliCommand::Uninstall(args[2].clone())
        }
    } else if str_eq(arg, "--help") {
        CliCommand::Help
    } else if str_eq(arg, "--no-color") {
        CliCommand::NoColorNotice
    } else {
        CliCommand::Unknown(String::from_str(arg))
    }
}

/// The language of the first `--lang <code>` pair whose code is known.
pub open spec fn lang_from(a: Seq<Seq<char>>, i: int) -> Option<Language>
    decreases a.len() - i,
{
    if i < 0 || i >= a.len() {
        None
    } else if a[i] == "--lang"@ && i + 1 < a.len() && language_of_code(lower_of(a[i + 1])) is Some {
        language_of_code(lower_of(a[i + 1]))
    } else {
        lang_from(a, i + 1)
    }
}

/// The language that the arguments ask for, if any.
pub fn language_from_args(args: &Vec<String>) -> (r: Option<Language>)
    ensures
        r == lang_from(args_view(args@), 0),
{
    let ghost a = args_view(args@);
    let mut i: usize = 0;
    while i < args.len()
        invariant
            a == args_view(args@),
            i <= args@.len(),
            lang_from(a, 0) == lang_from(a, i as int),
        decreases args@.len() - i,
    {
        assert(a[i as int] == args@[i as int]@);
        if str_eq(args[i].as_str(), "--lang") && args.len() - i > 1 {
            assert(a[i + 1] == args@[i + 1]@);
            match Language::from_code(args[i + 1].as_str()) {
                Some(l) => {
                    return Some(l);
                },
                None => {},
            }
        }
        i = i + 1;
    }
    None
}

/// Whether the locale setting asks for Chinese: it starts with `zh` in any case.
pub fn locale_prefers_chinese(locale: &str) -> (r: bool)
    ensures
        r == starts_with(lower_of(locale@), "zh"@),
{
    let l = lowercase(locale);
    let v = chars_of(l.as_str());
    assert(v@.subrange(0, v@.len() as int) =~= v@);
    range_starts_with(&v, 0, v.len(), "zh")
}

/// Whether `--no-color` is among the arguments.
pub fn wants_no_color(args: &Vec<String>) -> (r: bool)
    ensures
        r == args_view(args@).contains("--no-color"@),
{
    let ghost a = args_view(args@);
    let mut i: usize = 0;
    while i < args.len()
        invariant
            a == args_view(args@),
            i <= args@.len(),
            forall|j: int| 0 <= j < i ==> a[j] != "--no-color"@,
        decreases args@.len() - i,
    {
        assert(a[i as int] == args@[i as int]@);
        if str_eq(args[i].as_str(), "--no-color") {
            return true;
        }
        i = i + 1;
    }
    false
}

} // verus!
