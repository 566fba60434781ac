//! Command-line options, by way of the `getopts` crate.
//!
//! The crate keeps its option table and what it matched to itself. The
//! contracts here speak of both through a few names: the groups that a table
//! holds, the occurrences that a match recorded for each option name, and
//! what parsing and the usage text make of a table.

use vstd::prelude::*;
use vstd::string::StringExecFns;

verus! {

/// Whether an option takes an argument.
pub enum ArgMode {
    /// The option is a bare flag.
    Flag,
    /// The option may be given with or without an argument.
    Maybe,
    /// The option always has an argument.
    Always,
}

/// One group of an option table: a short and a long name for the same
/// option, its description, the hint that stands for its argument in the
/// usage text, and whether it takes an argument. Every option here may be
/// left out and may be given at most once.
pub struct OptionGroup {
    pub short: Seq<char>,
    pub long: Seq<char>,
    pub desc: Seq<char>,
    pub hint: Seq<char>,
    pub mode: ArgMode,
}

/// Why a command line was refused, with the name of the option at fault.
#[derive(Clone, Debug, PartialEq, Eq)]
pub enum ParseFailure {
    /// The option needs an argument and none was given.
    ArgumentMissing(String),
    /// The option is not in the table.
    UnrecognizedOption(String),
    /// A required option was left out.
    OptionMissing(String),
    /// The option was given more than once.
    OptionDuplicated(String),
    /// The option takes no argument and one was given.
    UnexpectedArgument(String),
}

/// A parse failure as contracts see it.
pub enum ParseFailureView {
    ArgumentMissing(Seq<char>),
    UnrecognizedOption(Seq<char>),
    OptionMissing(Seq<char>),
    OptionDuplicated(Seq<char>),
    UnexpectedArgument(Seq<char>),
}

impl View for ParseFailure {
    type V = ParseFailureView;

    open spec fn view(&self) -> ParseFailureView {
        match self {
            ParseFailure::ArgumentMissing(name) => ParseFailureView::ArgumentMissing(name@),
            ParseFailure::UnrecognizedOption(name) => ParseFailureView::UnrecognizedOption(name@),
            ParseFailure::OptionMissing(name) => ParseFailureView::OptionMissing(name@),
            ParseFailure::OptionDuplicated(name) => ParseFailureView::OptionDuplicated(name@),
            ParseFailure::UnexpectedArgument(name) => ParseFailureView::UnexpectedArgument(name@),
        }
    }
}

/// `getopts::Options`, the option table; nothing of its inside is seen.
#[verifier::external_type_specification]
#[verifier::external_body]
pub struct ExOptions(getopts::Options);

/// `getopts::Matches`, what a parse matched; nothing of its inside is seen.
#[verifier::external_type_specification]
#[verifier::external_body]
pub struct ExMatches(getopts::Matches);

/// The sentence that tells the user of a parse failure.
pub open spec fn failure_text(failure: ParseFailureView) -> Seq<char> {
    match failure {
        ParseFailureView::ArgumentMissing(name) => "Argument to option '"@ + name + "' missing"@,
        ParseFailureView::UnrecognizedOption(name) => "Unrecognized option: '"@ + name + "'"@,
        ParseFailureView::OptionMissing(name) => "Required option '"@ + name + "' missing"@,
        ParseFailureView::OptionDuplicated(name) => "Option '"@ + name + "' given more than once"@,
        ParseFailureView::UnexpectedArgument(name) => "Option '"@ + name
            + "' does not take an argument"@,
    }
}

impl ParseFailure {
    /// The sentence that tells the user of this failure.
    pub fn message(&self) -> (text: String)
        ensures
            text@ == failure_text(self@),
    {
        match self {
            ParseFailure::ArgumentMissing(name) => String::from_str("Argument to option '").concat(
                name.as_str(),
            ).concat("' missing"),
            ParseFailure::UnrecognizedOption(name) => String::from_str(
                "Unrecognized option: '",
            ).concat(name.as_str()).concat("'"),
            ParseFailure::OptionMissing(name) => String::from_str("Required option '").concat(
                name.as_str(),
            ).concat("' missing"),
            ParseFailure::OptionDuplicated(name) => String::from_str("Option '").concat(
                name.as_str(),
            ).concat("' given more than once"),
            ParseFailure::UnexpectedArgument(name) => String::from_str("Option '").concat(
                name.as_str(),
            ).concat("' does not take an argument"),
        }
    }
}

/// The groups of an option table, in the order in which they were added.
pub uninterp spec fn option_groups(options: getopts::Options) -> Seq<OptionGroup>;

/// Whether an option table parses in the style of a new table: options and
/// free arguments may mix, and long options take two dashes.
pub uninterp spec fn plain_style(options: getopts::Options) -> bool;

/// The occurrences that a match recorded: for each name that the table
/// defined, the occurrences of that option on the command line, in order,
/// each with the argument it was given, if any.
pub uninterp spec fn match_occurrences(matches: getopts::Matches) -> Map<
    Seq<char>,
    Seq<Option<Seq<char>>>,
>;

/// What `Options::parse` makes of the arguments, for a table of the plain
/// style with the given groups.
pub uninterp spec fn parse_outcome(groups: Seq<OptionGroup>, args: Seq<Seq<char>>) -> Result<
    Map<Seq<char>, Seq<Option<Seq<char>>>>,
    ParseFailureView,
>;

/// The text of `Options::usage`, for a table of the plain style with the
/// given groups and the given first line.
pub uninterp spec fn usage_text(groups: Seq<OptionGroup>, brief: Seq<char>) -> Seq<char>;

/// Whether a name can stand in a group: ASCII, and of a length that the
/// table accepts (at most one character for a short name, not exactly one
/// for a long name).
pub open spec fn name_accepted(name: Seq<char>, short: bool) -> bool {
    &&& vstd::utf8::is_ascii_chars(name)
    &&& if short {
        name.len() <= 1
    } else {
        name.len() != 1
    }
}

impl OptionGroup {
    /// Whether the group has a name at all.
    pub open spec fn is_named(self) -> bool {
        self.short.len() > 0 || self.long.len() > 0
    }

    /// Whether the group answers to `name`.
    pub open spec fn answers_to(self, name: Seq<char>) -> bool {
        name.len() > 0 && (self.short == name || self.long == name)
    }
}

/// The names that a table with the given groups defines.
pub open spec fn defined_names(groups: Seq<OptionGroup>) -> Set<Seq<char>> {
    Set::new(|name: Seq<char>| exists|i: int| 0 <= i < groups.len() && #[trigger] groups[i].answers_to(name))
}

/// The arguments as the contracts see them.
pub open spec fn texts(args: Seq<String>) -> Seq<Seq<char>> {
    Seq::new(args.len(), |i: int| args[i]@)
}

/// Whether the option of the given name occurred.
pub open spec fn occurred(found: Map<Seq<char>, Seq<Option<Seq<char>>>>, name: Seq<char>) -> bool {
    found.contains_key(name) && found[name].len() > 0
}

/// The argument of the first occurrence of the option of the given name.
pub open spec fn first_value(found: Map<Seq<char>, Seq<Option<Seq<char>>>>, name: Seq<char>) -> Option<
    Seq<char>,
> {
    if occurred(found, name) {
        found[name][0]
    } else {
        None
    }
}

/// `Options::new`: an empty table of the plain style.
#[verifier::external_body]
pub(crate) fn new_options() -> (options: getopts::Options)
    ensures
        option_groups(options) == Seq::<OptionGroup>::empty(),
        plain_style(options),
{
    getopts::Options::new()
}

/// `Options::optflag`: adds, at the end of the table, a bare flag that may
/// be left out, and leaves the style as it is. The names must be such as
/// the table accepts; it panics on others.
#[verifier::external_body]
pub(crate) fn add_flag(options: &mut getopts::Options, short: &str, long: &str, desc: &str)
    requires
        name_accepted(short@, true),
        name_accepted(long@, false),
    ensures
        option_groups(*final(options)) == option_groups(*old(options)).push(
            OptionGroup {
                short: short@,
                long: long@,
                desc: desc@,
                hint: Seq::<char>::empty(),
                mode: ArgMode::Flag,
            },
        ),
        plain_style(*final(options)) == plain_style(*old(options)),
{
    options.optflag(short, long, desc);
}

/// `Options::optflagopt`: adds, at the end of the table, an option that may
/// be left out and may be given with or without an argument, and leaves the
/// style as it is. The names must be such as the table accepts; it panics
/// on others.
#[verifier::external_body]
pub(crate) fn add_flag_with_optional_value(
    options: &mut getopts::Options,
    short: &str,
    long: &str,
    desc: &str,
    hint: &str,
)
    requires
        name_accepted(short@, true),
        name_accepted(long@, false),
    ensures
        option_groups(*final(options)) == option_groups(*old(options)).push(
            OptionGroup { short: short@, long: long@, desc: desc@, hint: hint@, mode: ArgMode::Maybe },
        ),
        plain_style(*final(options)) == plain_style(*old(options)),
{
    options.optflagopt(short, long, desc, hint);
}

/// `Options::optopt`: adds, at the end of the table, an option that may be
/// left out and always has an argument, and leaves the style as it is. The
/// names must be such as the table accepts; it panics on others.
#[verifier::external_body]
pub(crate) fn add_value(
    options: &mut getopts::Options,
    short: &str,
    long: &str,
    desc: &str,
    hint: &str,
)
    requires
        name_accepted(short@, true),
        name_accepted(long@, false),
    ensures
        option_groups(*final(options)) == option_groups(*old(options)).push(
            OptionGroup {
                short: short@,
                long: long@,
                desc: desc@,
                hint: hint@,
                mode: ArgMode::Always,
            },
        ),
        plain_style(*final(options)) == plain_style(*old(options)),
{
    options.optopt(short, long, desc, hint);
}

/// `Options::parse`: matches the arguments against the table. Its outcome
/// is a function of the groups and the arguments. A match answers for
/// exactly the names that the table defines. A group without any name makes
/// it panic.
#[verifier::external_body]
pub(crate) fn parse_options(options: &getopts::Options, args: &[String]) -> (res: Result<
    getopts::Matches,
    ParseFailure,
>)
    requires
        plain_style(*options),
        forall|i: int|
            0 <= i < option_groups(*options).len() ==> (#[trigger] option_groups(
                *options,
            )[i]).is_named(),
    ensures
        match res {
            Ok(matches) => parse_outcome(option_groups(*options), texts(args@)) == Ok::<
                _,
                ParseFailureView,
            >(match_occurrences(matches)) && match_occurrences(matches).dom() == defined_names(
                option_groups(*options),
            ),
            Err(failure) => parse_outcome(option_groups(*options), texts(args@)) == Err::<
                Map<Seq<char>, Seq<Option<Seq<char>>>>,
                _,
            >(failure@),
        },
{
    match options.parse(args) {
        Ok(matches) => Ok(matches),
        Err(getopts::Fail::ArgumentMissing(name)) => Err(ParseFailure::ArgumentMissing(name)),
        Err(getopts::Fail::UnrecognizedOption(name)) => Err(ParseFailure::UnrecognizedOption(name)),
        Err(getopts::Fail::OptionMissing(name)) => Err(ParseFailure::OptionMissing(name)),
        Err(getopts::Fail::OptionDuplicated(name)) => Err(ParseFailure::OptionDuplicated(name)),
        Err(getopts::Fail::UnexpectedArgument(name)) => Err(ParseFailure::UnexpectedArgument(name)),
    }
}

/// `Matches::opt_present`: whether the option occurred. It panics on a name
/// that the table did not define.
#[verifier::external_body]
pub(crate) fn option_present(matches: &getopts::Matches, name: &str) -> (res: bool)
    requires
        match_occurrences(*matches).contains_key(name@),
    ensures
        res == occurred(match_occurrences(*matches), name@),
{
    matches.opt_present(name)
}

/// `Matches::opt_str`: the argument of the first occurrence of the option,
/// if it occurred and had one. It panics on a name that the table did not
/// define.
#[verifier::external_body]
pub(crate) fn option_value(matches: &getopts::Matches, name: &str) -> (res: Option<String>)
    requires
        match_occurrences(*matches).contains_key(name@),
    ensures
        match res {
            Some(value) => first_value(match_occurrences(*matches), name@) == Some(value@),
            None => first_value(match_occurrences(*matches), name@) is None,
        },
{
    matches.opt_str(name)
}

/// `Options::usage`: the usage text of the table under the given first
/// line.
#[verifier::external_body]
pub(crate) fn usage(options: &getopts::Options, brief: &str) -> (text: String)
    requires
        plain_style(*options),
    ensures
        text@ == usage_text(option_groups(*options), brief@),
{
    options.usage(brief)
}

} // verus!
