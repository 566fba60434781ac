//! The command line of the client: which options there are, what a command
//! line has to hold, and the configuration that it asks for.

use vstd::prelude::*;
use vstd::slice::slice_subrange;
use vstd::string::StringExecFns;
use crate::client::Config;
use crate::message::Operation;
use crate::options::add_flag;
use crate::options::add_flag_with_optional_value;
use crate::options::add_value;
use crate::options::defined_names;
use crate::options::failure_text;
use crate::options::first_value;
use crate::options::match_occurrences;
use crate::options::new_options;
use crate::options::occurred;
use crate::options::option_groups;
use crate::options::option_present;
use crate::options::option_value;
use crate::options::parse_options;
use crate::options::parse_outcome;
use crate::options::plain_style;
use crate::options::texts;
use crate::options::usage;
use crate::options::usage_text;
use crate::options::ArgMode;
use crate::options::OptionGroup;
use crate::options::ParseFailure;

verus! {

/// The option table of the client: the address of the server, the four
/// operations, of which all but `list` may name their file, and help.
pub open spec fn client_groups() -> Seq<OptionGroup> {
    seq![
        OptionGroup {
            short: "a"@,
            long: "addr"@,
            desc: "server address and port"@,
            hint: "<ip>"@,
            mode: ArgMode::Always,
        },
        OptionGroup {
            short: "r"@,
            long: "read"@,
            desc: "read from server"@,
            hint: "<file>"@,
            mode: ArgMode::Maybe,
        },
        OptionGroup {
            short: "w"@,
            long: "write"@,
            desc: "write file to server"@,
            hint: "<file>"@,
            mode: ArgMode::Maybe,
        },
        OptionGroup {
            short: "d"@,
            long: "delete"@,
            desc: "delete file on server"@,
            hint: "<file>"@,
            mode: ArgMode::Maybe,
        },
        OptionGroup {
            short: "l"@,
            long: "list"@,
            desc: "list all files on server"@,
            hint: Seq::<char>::empty(),
            mode: ArgMode::Flag,
        },
        OptionGroup {
            short: "h"@,
            long: "help"@,
            desc: "print this help menu"@,
            hint: Seq::<char>::empty(),
            mode: ArgMode::Flag,
        },
    ]
}

/// The address that the client turns to where none is given.
pub open spec fn default_address() -> Seq<char> {
    "127.0.0.1:8080"@
}

/// The first line of the usage text for a program of the given name.
pub open spec fn usage_brief(program: Seq<char>) -> Seq<char> {
    "Usage: "@ + program + " [file] -a [addr] [--read | --write | --delete]"@
}

/// An option as it was found on the command line.
#[derive(Clone, Debug, PartialEq, Eq)]
pub struct Given {
    /// Whether the option occurred.
    pub present: bool,
    /// The argument that it was given, if any.
    pub value: Option<String>,
}

/// What was found on a command line.
#[derive(Clone, Debug, PartialEq, Eq)]
pub struct Flags {
    /// The usage text, where help was asked for.
    pub help: Option<String>,
    /// The address option.
    pub addr: Given,
    /// The option to read a file.
    pub read: Given,
    /// The option to write a file.
    pub write: Given,
    /// The option to delete a file.
    pub delete: Given,
    /// Whether a listing was asked for.
    pub list: bool,
}

/// Why a command line gives no configuration.
#[derive(Clone, Debug, PartialEq, Eq)]
pub enum ArgumentError {
    /// The command line does not fit the option table.
    Rejected(ParseFailure),
    /// Help was asked for; this is the usage text to show.
    HelpRequested { usage: String },
    /// Not exactly one operation was chosen.
    OperationCount,
    /// The address is not an IPv4 address, a colon and a port.
    BadAddress,
    /// The chosen operation needs a file and none was named.
    MissingFile,
}

/// The sentence that tells the user why there is no configuration.
pub open spec fn error_text(error: ArgumentError) -> Seq<char> {
    match error {
        ArgumentError::Rejected(failure) => failure_text(failure@),
        ArgumentError::HelpRequested { usage } => "Help menu"@,
        ArgumentError::OperationCount => "Select exactly one of {-r, -w, -d, -l}"@,
        ArgumentError::BadAddress => "Bad address/port. Example: 127.0.0.1:8080"@,
        ArgumentError::MissingFile => "Missing file."@,
    }
}

impl ArgumentError {
    /// The sentence that tells the user of this error.
    pub fn message(&self) -> (text: String)
        ensures
            text@ == error_text(*self),
    {
        match self {
            ArgumentError::Rejected(failure) => failure.message(),
            ArgumentError::HelpRequested { usage: _ } => String::from_str("Help menu"),
            ArgumentError::OperationCount => String::from_str(
                "Select exactly one of {-r, -w, -d, -l}",
            ),
            ArgumentError::BadAddress => String::from_str(
                "Bad address/port. Example: 127.0.0.1:8080",
            ),
            ArgumentError::MissingFile => String::from_str("Missing file."),
        }
    }
}

/// The argument of an option as contracts see it.
pub open spec fn value_view(value: Option<String>) -> Option<Seq<char>> {
    match value {
        Some(text) => Some(text@),
        None => None,
    }
}

/// How many of the four operations were chosen.
pub open spec fn operations_chosen(flags: Flags) -> int {
    (if flags.read.present { 1int } else { 0int }) + (if flags.write.present { 1int } else { 0int })
        + (if flags.delete.present { 1int } else { 0int }) + (if flags.list { 1int } else { 0int })
}

/// The operation that was chosen, where exactly one was.
pub open spec fn chosen_operation(flags: Flags) -> Operation {
    if flags.read.present {
        Operation::READ
    } else if flags.write.present {
        Operation::WRITE
    } else if flags.delete.present {
        Operation::DELETE
    } else {
        Operation::LIST
    }
}

/// The file that the chosen operation was given.
pub open spec fn chosen_file(flags: Flags) -> Option<String> {
    if flags.read.present {
        flags.read.value
    } else if flags.write.present {
        flags.write.value
    } else if flags.delete.present {
        flags.delete.value
    } else {
        None
    }
}

/// Why the flags give no configuration, if they give none. The checks come
/// in this order: help, the number of operations, the address, the file.
/// `addr_ok` says whether the given address is well-formed; it counts only
/// where an address was given.
pub open spec fn refusal(flags: Flags, addr_ok: bool) -> Option<ArgumentError> {
    if let Some(usage) = flags.help {
        Some(ArgumentError::HelpRequested { usage })
    } else if operations_chosen(flags) != 1 {
        Some(ArgumentError::OperationCount)
    } else if flags.addr.present && !(addr_ok && flags.addr.value is Some) {
        Some(ArgumentError::BadAddress)
    } else if chosen_operation(flags) != Operation::LIST && chosen_file(flags) is None {
        Some(ArgumentError::MissingFile)
    } else {
        None
    }
}

/// The address that the flags ask for: the given one, else the default.
pub open spec fn chosen_address(flags: Flags) -> Seq<char> {
    if flags.addr.present && flags.addr.value is Some {
        flags.addr.value->Some_0@
    } else {
        default_address()
    }
}

/// Decides on the configuration that the flags ask for, or says why there
/// is none. `addr_ok` is the verdict on the given address, whether it is an
/// IPv4 address, a colon and a port; it counts only where an address was
/// given.
pub fn select_config(flags: Flags, addr_ok: bool) -> (res: Result<Config, ArgumentError>)
    ensures
        match res {
            Ok(config) => {
                &&& refusal(flags, addr_ok) is None
                &&& config.addr@ == chosen_address(flags)
                &&& config.operation == chosen_operation(flags)
                &&& config.filename == chosen_file(flags)
                &&& config.operation == Operation::LIST <==> config.filename is None
            },
            Err(e) => refusal(flags, addr_ok) == Some(e),
        },
{
    let Flags { help, addr, read, write, delete, list } = flags;
    if let Some(usage) = help {
        return Err(ArgumentError::HelpRequested { usage });
    }
    let mut chosen: u8 = 0;
    if read.present {
        chosen = chosen + 1;
    }
    if write.present {
        chosen = chosen + 1;
    }
    if delete.present {
        chosen = chosen + 1;
    }
    if list {
        chosen = chosen + 1;
    }
    if chosen != 1 {
        return Err(ArgumentError::OperationCount);
    }
    let address = if addr.present {
        match addr.value {
            Some(text) => {
                if !addr_ok {
                    return Err(ArgumentError::BadAddress);
                }
                text
            },
            None => {
                return Err(ArgumentError::BadAddress);
            },
        }
    } else {
        String::from_str("127.0.0.1:8080")
    };
    let (operation, file) = if read.present {
        (Operation::READ, read.value)
    } else if write.present {
        (Operation::WRITE, write.value)
    } else if delete.present {
        (Operation::DELETE, delete.value)
    } else {
        return Ok(Config { addr: address, filename: None, operation: Operation::LIST });
    };
    match file {
        Some(path) => Ok(Config { addr: address, filename: Some(path), operation }),
        None => Err(ArgumentError::MissingFile),
    }
}

/// The short names of the client's options are defined by its table, and
/// every group of the table has a name.
proof fn lemma_client_names()
    ensures
        defined_names(client_groups()).contains("a"@),
        defined_names(client_groups()).contains("r"@),
        defined_names(client_groups()).contains("w"@),
        defined_names(client_groups()).contains("d"@),
        defined_names(client_groups()).contains("l"@),
        defined_names(client_groups()).contains("h"@),
        forall|i: int| 0 <= i < client_groups().len() ==> (#[trigger] client_groups()[i]).is_named(),
{
    reveal_strlit("a");
    reveal_strlit("r");
    reveal_strlit("w");
    reveal_strlit("d");
    reveal_strlit("l");
    reveal_strlit("h");
    let groups = client_groups();
    assert(groups[0].answers_to("a"@));
    assert(groups[1].answers_to("r"@));
    assert(groups[2].answers_to("w"@));
    assert(groups[3].answers_to("d"@));
    assert(groups[4].answers_to("l"@));
    assert(groups[5].answers_to("h"@));
}

/// Builds the option table of the client.
fn client_options() -> (options: getopts::Options)
    ensures
        option_groups(options) == client_groups(),
        plain_style(options),
{
    proof {
        reveal_strlit("a");
        reveal_strlit("r");
        reveal_strlit("w");
        reveal_strlit("d");
        reveal_strlit("l");
        reveal_strlit("h");
        reveal_strlit("addr");
        reveal_strlit("read");
        reveal_strlit("write");
        reveal_strlit("delete");
        reveal_strlit("list");
        reveal_strlit("help");
    }
    let mut options = new_options();
    add_value(&mut options, "a", "addr", "server address and port", "<ip>");
    add_flag_with_optional_value(&mut options, "r", "read", "read from server", "<file>");
    add_flag_with_optional_value(&mut options, "w", "write", "write file to server", "<file>");
    add_flag_with_optional_value(&mut options, "d", "delete", "delete file on server", "<file>");
    add_flag(&mut options, "l", "list", "list all files on server");
    add_flag(&mut options, "h", "help", "print this help menu");
    assert(option_groups(options) =~= client_groups());
    options
}

/// The name of the program on a command line: its first word, empty where
/// the command line is.
pub open spec fn program_of(args: Seq<String>) -> Seq<char> {
    if args.len() > 0 {
        args[0]@
    } else {
        Seq::<char>::empty()
    }
}

/// The arguments on a command line: all but its first word.
pub open spec fn arguments_of(args: Seq<String>) -> Seq<Seq<char>> {
    if args.len() > 0 {
        texts(args.skip(1))
    } else {
        Seq::<Seq<char>>::empty()
    }
}

/// Whether `given` is what the occurrences hold of the option `name`.
pub open spec fn given_as_found(
    given: Given,
    found: Map<Seq<char>, Seq<Option<Seq<char>>>>,
    name: Seq<char>,
) -> bool {
    &&& given.present == occurred(found, name)
    &&& value_view(given.value) == first_value(found, name)
}

/// Whether `flags` is what the occurrences hold of the client's options,
/// with `usage` as the usage text.
pub open spec fn flags_as_found(
    flags: Flags,
    found: Map<Seq<char>, Seq<Option<Seq<char>>>>,
    usage: Seq<char>,
) -> bool {
    &&& flags.help is Some <==> occurred(found, "h"@)
    &&& flags.help matches Some(text) ==> text@ == usage
    &&& given_as_found(flags.addr, found, "a"@)
    &&& given_as_found(flags.read, found, "r"@)
    &&& given_as_found(flags.write, found, "w"@)
    &&& given_as_found(flags.delete, found, "d"@)
    &&& flags.list == occurred(found, "l"@)
}

/// Reads one option from a match.
fn read_given(matches: &getopts::Matches, name: &str) -> (given: Given)
    requires
        match_occurrences(*matches).contains_key(name@),
    ensures
        given_as_found(given, match_occurrences(*matches), name@),
{
    Given { present: option_present(matches, name), value: option_value(matches, name) }
}

/// Reads the flags of the client from a command line, whose first word is
/// the name of the program. The command line is matched against the option
/// table of the client: where it fits, the flags are what was matched, with
/// the usage text where help was asked for; where it does not, it is
/// rejected with the failure of the match.
pub fn read_flags(args: &Vec<String>) -> (res: Result<Flags, ArgumentError>)
    ensures
        match parse_outcome(client_groups(), arguments_of(args@)) {
            Ok(found) => res matches Ok(flags) && flags_as_found(
                flags,
                found,
                usage_text(client_groups(), usage_brief(program_of(args@))),
            ),
            Err(failure) => res matches Err(ArgumentError::Rejected(f)) && f@ == failure,
        },
{
    let options = client_options();
    proof {
        lemma_client_names();
    }
    let words = args.as_slice();
    let parsed = if words.len() > 0 {
        parse_options(&options, slice_subrange(words, 1, words.len()))
    } else {
        parse_options(&options, words)
    };
    assert(arguments_of(args@) =~= if args@.len() > 0 {
        texts(args@.subrange(1, args@.len() as int))
    } else {
        texts(args@)
    });
    let matches = match parsed {
        Ok(matches) => matches,
        Err(failure) => {
            return Err(ArgumentError::Rejected(failure));
        },
    };
    let help = if option_present(&matches, "h") {
        let mut brief = String::from_str("Usage: ");
        if words.len() > 0 {
            brief.append(words[0].as_str());
        }
        brief.append(" [file] -a [addr] [--read | --write | --delete]");
        assert(brief@ =~= usage_brief(program_of(args@)));
        Some(usage(&options, brief.as_str()))
    } else {
        None
    };
    let addr = read_given(&matches, "a");
    let read = read_given(&matches, "r");
    let write = read_given(&matches, "w");
    let delete = read_given(&matches, "d");
    let list = option_present(&matches, "l");
    Ok(Flags { help, addr, read, write, delete, list })
}

} // verus!
