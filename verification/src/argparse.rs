use vstd::prelude::*;

use crate::text::str_eq;

verus! {

/// The parsed command line: a verbosity level and one subcommand.
#[derive(Debug, Clone)]
pub struct CliOpts {
    pub verbose: u8,
    pub subcmd: SubCommand,
}

/// The program's subcommands.
#[derive(Debug, Clone)]
pub enum SubCommand {
    ExtractMediaUrl(ExtractMediaUrl),
    Bot(BotSettings),
    Test(Test),
}

/// Resolve one post reference and print the media URL.
#[derive(Debug, Clone)]
pub struct ExtractMediaUrl {
    pub url: String,
}

/// Run the chat-bot event loop.
#[derive(Debug, Clone)]
pub struct BotSettings {}

/// Run the decode-and-classify path over a directory of saved payloads.
#[derive(Debug, Clone)]
pub struct Test {
    pub file: String,
}

/// Every way a command line can be rejected.
#[derive(Debug, Clone, Copy, PartialEq, Eq, Structural)]
pub enum ArgError {
    MissingSubcommand,
    UnknownSubcommand,
    UnknownFlag,
    MissingArgument,
    UnexpectedArgument,
}

/// The mathematical value of a parsed command line.
pub enum CliView {
    Extract { verbose: int, url: Seq<char> },
    Bot { verbose: int },
    Test { verbose: int, file: Seq<char> },
}

/// The value a `CliOpts` denotes.
pub open spec fn cli_view(c: CliOpts) -> CliView {
    match c.subcmd {
        SubCommand::ExtractMediaUrl(e) => CliView::Extract {
            verbose: c.verbose as int,
            url: e.url@,
        },
        SubCommand::Bot(_) => CliView::Bot { verbose: c.verbose as int },
        SubCommand::Test(t) => CliView::Test { verbose: c.verbose as int, file: t.file@ },
    }
}

/// The long verbosity flag.
pub open spec fn is_long_verbose(t: Seq<char>) -> bool {
    t == "--verbose"@
}

/// The short verbosity flag: a dash followed by one or more `v`s, each
/// counting one level.
pub open spec fn is_short_verbose(t: Seq<char>) -> bool {
    t.len() >= 2 && t[0] == '-' && (forall|j: int| 1 <= j < t.len() ==> t[j] == 'v')
}

/// A token that claims to be a flag (whether or not it is a known one).
pub open spec fn looks_like_flag(t: Seq<char>) -> bool {
    t.len() >= 1 && t[0] == '-'
}

/// How many verbosity levels one valid flag token adds.
pub open spec fn flag_weight(t: Seq<char>) -> int {
    if is_long_verbose(t) {
        1
    } else {
        t.len() - 1
    }
}

/// Verbosity accumulation, saturating at the largest level.
pub open spec fn add_sat(acc: int, w: int) -> int {
    if acc + w > 255 {
        255
    } else {
        acc + w
    }
}

/// What parsing the tokens from position `i` on yields, with `acc`
/// verbosity levels already seen: leading verbosity flags, then one
/// subcommand with exactly the arguments it takes.
pub open spec fn parse_spec(args: Seq<String>, i: int, acc: int) -> Result<CliView, ArgError>
    decreases args.len() - i,
{
    if i < 0 || i >= args.len() {
        Err(ArgError::MissingSubcommand)
    } else if looks_like_flag(args[i]@) {
        if is_long_verbose(args[i]@) || is_short_verbose(args[i]@) {
            parse_spec(args, i + 1, add_sat(acc, flag_weight(args[i]@)))
        } else {
            Err(ArgError::UnknownFlag)
        }
    } else if args[i]@ == "extract-media-url"@ {
        if args.len() == i + 1 {
            Err(ArgError::MissingArgument)
        } else if args.len() > i + 2 {
            Err(ArgError::UnexpectedArgument)
        } else {
            Ok(CliView::Extract { verbose: acc, url: args[i + 1]@ })
        }
    } else if args[i]@ == "bot"@ {
        if args.len() > i + 1 {
            Err(ArgError::UnexpectedArgument)
        } else {
            Ok(CliView::Bot { verbose: acc })
        }
    } else if args[i]@ == "test"@ {
        if args.len() == i + 1 {
            Err(ArgError::MissingArgument)
        } else if args.len() > i + 2 {
            Err(ArgError::UnexpectedArgument)
        } else {
            Ok(CliView::Test { verbose: acc, file: args[i + 1]@ })
        }
    } else {
        Err(ArgError::UnknownSubcommand)
    }
}

/// Is this token the short verbosity flag?
fn check_short_verbose(t: &str) -> (r: bool)
    ensures
        r == is_short_verbose(t@),
{
    let n = t.unicode_len();
    if n < 2 {
        return false;
    }
    if t.get_char(0) != '-' {
        return false;
    }
    let mut j: usize = 1;
    while j < n
        invariant
            n == t@.len(),
            2 <= n,
            1 <= j <= n,
            t@[0] == '-',
            forall|k: int| 1 <= k < j ==> t@[k] == 'v',
        decreases n - j,
    {
        if t.get_char(j) != 'v' {
            return false;
        }
        j += 1;
    }
    true
}

/// Parse the command-line tokens (the program name excluded): any number
/// of leading verbosity flags, then a subcommand and its arguments.
pub fn get_args(args: &Vec<String>) -> (r: Result<CliOpts, ArgError>)
    ensures
        match r {
            Ok(c) => parse_spec(args@, 0, 0) == Ok::<CliView, ArgError>(cli_view(c)),
            Err(e) => parse_spec(args@, 0, 0) == Err::<CliView, ArgError>(e),
        },
{
    let n = args.len();
    let mut i: usize = 0;
    let mut acc: usize = 0;
    loop
        invariant
            n == args@.len(),
            i <= n,
            acc <= 255,
            parse_spec(args@, 0, 0) == parse_spec(args@, i as int, acc as int),
        ensures
            i < n,
            acc <= 255,
            parse_spec(args@, 0, 0) == parse_spec(args@, i as int, acc as int),
            !looks_like_flag(args@[i as int]@),
        decreases n - i,
    {
        if i == n {
            return Err(ArgError::MissingSubcommand);
        }
        let t = &args[i];
        let tlen = t.as_str().unicode_len();
        if tlen >= 1 && t.as_str().get_char(0) == '-' {
            let w: usize;
            if str_eq(t.as_str(), "--verbose") {
                w = 1;
            } else if check_short_verbose(t.as_str()) {
                w = tlen - 1;
            } else {
                return Err(ArgError::UnknownFlag);
            }
            if w > 255 - acc {
                acc = 255;
            } else {
                acc = acc + w;
            }
            i += 1;
        } else {
            break;
        }
    }
    let t = &args[i];
    let rest = n - i;
    if str_eq(t.as_str(), "extract-media-url") {
        if rest == 1 {
            Err(ArgError::MissingArgument)
        } else if rest > 2 {
            Err(ArgError::UnexpectedArgument)
        } else {
            let url = args[i + 1].clone();
            Ok(
                CliOpts {
                    verbose: acc as u8,
                    subcmd: SubCommand::ExtractMediaUrl(ExtractMediaUrl { url }),
                },
            )
        }
    } else if str_eq(t.as_str(), "bot") {
        if rest > 1 {
            Err(ArgError::UnexpectedArgument)
        } else {
            Ok(CliOpts { verbose: acc as u8, subcmd: SubCommand::Bot(BotSettings {  }) })
        }
    } else if str_eq(t.as_str(), "test") {
        if rest == 1 {
            Err(ArgError::MissingArgument)
        } else if rest > 2 {
            Err(ArgError::UnexpectedArgument)
        } else {
            let file = args[i + 1].clone();
            Ok(CliOpts { verbose: acc as u8, subcmd: SubCommand::Test(Test { file }) })
        }
    } else {
        Err(ArgError::UnknownSubcommand)
    }
}

} // verus!
