//! The command that the tokens of a command line ask for.
use vstd::prelude::*;

verus! {

/// Whether every character of `s` is a decimal digit.
pub open spec fn all_digits(s: Seq<char>) -> bool {
    forall|i: int| 0 <= i < s.len() ==> '0' <= #[trigger] s[i] <= '9'
}

/// The number that the decimal digits `s` write.
pub open spec fn digits_value(s: Seq<char>) -> int
    decreases s.len(),
{
    if s.len() == 0 {
        0
    } else {
        digits_value(s.drop_last()) * 10 + (s.last() as int - '0' as int)
    }
}

/// The digits of a number written with an optional leading `+`.
pub open spec fn unsigned_digits(s: Seq<char>) -> Seq<char> {
    if s.len() > 0 && s[0] == '+' {
        s.drop_first()
    } else {
        s
    }
}

/// The `usize` that `s` writes in decimal: an optional `+` followed by at
/// least one digit and nothing else, of a value that fits.
pub open spec fn decimal_usize(s: Seq<char>) -> Option<usize> {
    let d = unsigned_digits(s);
    if d.len() > 0 && all_digits(d) && digits_value(d) <= usize::MAX {
        Some(digits_value(d) as usize)
    } else {
        None
    }
}

/// Relies on `str::parse::<usize>`: an optional `+` sign followed by only
/// decimal digits, of a value that fits, is read as that value; any other
/// text is an error.
#[verifier::external_body]
fn parse_usize(s: &str) -> (r: Option<usize>)
    ensures
        r == decimal_usize(s@),
{
    s.parse::<usize>().ok()
}

/// The number of draws that a pick argument asks for: its value when it is a
/// decimal number, else one.
pub open spec fn amount_value(s: Seq<char>) -> usize {
    match decimal_usize(s) {
        Some(n) => n,
        None => 1,
    }
}

/// Reads the number of draws from a pick argument; text that is no number
/// counts as one.
pub fn amount_of(arg: &str) -> (r: usize)
    ensures
        r == amount_value(arg@),
{
    match parse_usize(arg) {
        Some(n) => n,
        None => 1,
    }
}

/// One token of a command line.
#[derive(Debug)]
pub enum CliArg {
    /// A free-standing value, such as a command word, a name or a number.
    Value(String),
    /// A long option, `--name`, by its name.
    Long(String),
    /// A short option, `-c`, by its letter.
    Short(char),
}

/// What a command line asks for.
#[derive(Debug)]
pub enum Command {
    /// Append the name to the pool.
    Add(String),
    /// Remove the first entry equal to the name.
    Remove(String),
    /// Show the entries.
    List,
    /// Empty the pool, once the user confirms.
    Clear,
    /// Draw `amount` entries, with the spin animation unless `instant`.
    Pick { amount: usize, instant: bool },
    /// No command word: show how the tool is used.
    Usage,
    /// `add` without a name.
    AddUsage,
    /// `remove` without a name.
    RemoveUsage,
    /// A command word that names no command.
    Unknown(String),
}

/// A token that asks for an instant pick: `--instant` or `-i`.
pub open spec fn is_instant_flag(a: CliArg) -> bool {
    match a {
        CliArg::Long(n) => n@ == "instant"@,
        CliArg::Short(c) => c == 'i',
        CliArg::Value(_) => false,
    }
}

/// The number of draws that the tokens after `pick` ask for: the last value
/// among them decides; with none, one.
pub open spec fn pick_amount(rest: Seq<CliArg>) -> usize
    decreases rest.len(),
{
    if rest.len() == 0 {
        1
    } else {
        match rest.last() {
            CliArg::Value(v) => amount_value(v@),
            _ => pick_amount(rest.drop_last()),
        }
    }
}

/// Whether any token after `pick` asks for an instant pick.
pub open spec fn pick_instant(rest: Seq<CliArg>) -> bool {
    exists|i: int| 0 <= i < rest.len() && is_instant_flag(#[trigger] rest[i])
}

/// The command that a name argument completes, or its usage hint when the
/// token after the command word is missing or no value.
pub open spec fn named(args: Seq<CliArg>, add: bool) -> Command {
    if args.len() > 1 && args[1] is Value {
        if add {
            Command::Add(args[1]->Value_0)
        } else {
            Command::Remove(args[1]->Value_0)
        }
    } else if add {
        Command::AddUsage
    } else {
        Command::RemoveUsage
    }
}

/// The command that the tokens ask for.
pub open spec fn command_of(args: Seq<CliArg>) -> Command {
    if args.len() == 0 || !(args[0] is Value) {
        Command::Usage
    } else {
        let w = args[0]->Value_0@;
        if w == "add"@ {
            named(args, true)
        } else if w == "remove"@ {
            named(args, false)
        } else if w == "list"@ {
            Command::List
        } else if w == "clear"@ {
            Command::Clear
        } else if w == "pick"@ {
            let rest = args.drop_first();
            Command::Pick { amount: pick_amount(rest), instant: pick_instant(rest) }
        } else {
            Command::Unknown(args[0]->Value_0)
        }
    }
}

/// Whether `s` is the word `w`.
fn is_word(s: &String, w: &str) -> (r: bool)
    ensures
        r == (s@ == w@),
{
    let o = w.to_owned();
    *s == o
}

/// Whether a token asks for an instant pick.
fn instant_flag(a: &CliArg) -> (r: bool)
    ensures
        r == is_instant_flag(*a),
{
    match a {
        CliArg::Long(n) => is_word(n, "instant"),
        CliArg::Short(c) => *c == 'i',
        CliArg::Value(_) => false,
    }
}

/// Reads the tokens after `pick`.
fn parse_pick(args: &Vec<CliArg>) -> (r: Command)
    requires
        args@.len() > 0,
    ensures
        r == (Command::Pick {
            amount: pick_amount(args@.drop_first()),
            instant: pick_instant(args@.drop_first()),
        }),
{
    let ghost all = args@.drop_first();
    let mut amount: usize = 1;
    let mut instant = false;
    let mut i: usize = 1;
    while i < args.len()
        invariant
            1 <= i <= args@.len(),
            all == args@.drop_first(),
            amount == pick_amount(all.take(i - 1)),
            instant == pick_instant(all.take(i - 1)),
        decreases args@.len() - i,
    {
        let ghost before = all.take(i - 1);
        let ghost now = all.take(i as int);
        assert(now.drop_last() =~= before);
        assert(now.last() == args@[i as int]);
        match &args[i] {
            CliArg::Value(v) => {
                amount = amount_of(v.as_str());
            },
            _ => {},
        }
        let f = instant_flag(&args[i]);
        if f {
            instant = true;
        }
        proof {
            if f {
                assert(is_instant_flag(now[i - 1]));
            }
            if pick_instant(before) {
                let j = choose|j: int| 0 <= j < before.len() && is_instant_flag(#[trigger] before[j]);
                assert(now[j] == before[j]);
            }
            if pick_instant(now) {
                let j = choose|j: int| 0 <= j < now.len() && is_instant_flag(#[trigger] now[j]);
                if j < i - 1 {
                    assert(before[j] == now[j]);
                }
            }
        }
        i = i + 1;
    }
    assert(all.take(i - 1) =~= all);
    Command::Pick { amount, instant }
}

/// Reads the command that the tokens of a command line ask for.
pub fn parse_command(args: &Vec<CliArg>) -> (r: Command)
    ensures
        r == command_of(args@),
{
    if args.len() == 0 {
        return Command::Usage;
    }
    let w = match &args[0] {
        CliArg::Value(w) => w,
        _ => {
            return Command::Usage;
        },
    };
    if is_word(w, "add") || is_word(w, "remove") {
        let add = is_word(w, "add");
        if args.len() > 1 {
            if let CliArg::Value(n) = &args[1] {
                let n = n.clone();
                return if add {
                    Command::Add(n)
                } else {
                    Command::Remove(n)
                };
            }
        }
        if add {
            Command::AddUsage
        } else {
            Command::RemoveUsage
        }
    } else if is_word(w, "list") {
        Command::List
    } else if is_word(w, "clear") {
        Command::Clear
    } else if is_word(w, "pick") {
        parse_pick(args)
    } else {
        Command::Unknown(w.clone())
    }
}

} // verus!
