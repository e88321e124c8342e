//! Reading the command line.

use vstd::prelude::*;
use crate::bytes::{bytes_equal, names_of};
use crate::pool::DEFAULT_THREADS;
use crate::text::{ascii, push_text, text_bytes};

verus! {

/// An option that takes a number.
#[derive(Clone, Copy, Debug, PartialEq, Eq, Structural)]
pub enum Flag {
    /// `--threads`
    Threads,
    /// `--metrics`
    Metrics,
}

/// What is wrong with a command line.
#[derive(Clone, Copy, Debug, PartialEq, Eq, Structural)]
pub enum UsageError {
    /// The option is the last argument.
    MissingValue(Flag),
    /// What follows the option is no number, or too large a one.
    InvalidValue(Flag),
    /// `--metrics` was given and there is no metrics endpoint.
    MetricsUnavailable,
    /// There is a third argument that is no option.
    TooManyArguments,
    /// No source directory is named.
    MissingSource,
    /// No destination directory is named.
    MissingTarget,
}

/// What a run is to do. Source and destination are given by their positions
/// among the arguments.
#[derive(Clone, Copy, Debug, PartialEq, Eq, Structural)]
pub struct Config {
    pub source: usize,
    pub target: usize,
    /// Workers of each pool.
    pub threads: usize,
    /// Whether to print the counters now and then.
    pub print_stats: bool,
    /// The port on which to serve the counters, if any.
    pub metrics_port: Option<u16>,
}

/// What a command line asks for.
#[derive(Clone, Copy, Debug, PartialEq, Eq, Structural)]
pub enum Invocation {
    /// To print how the program is used.
    Help,
    /// To synchronise.
    Run(Config),
}

/// What the arguments read so far have settled.
#[derive(Clone, Copy, Debug, PartialEq, Eq, Structural)]
pub struct Pending {
    pub source: Option<usize>,
    pub target: Option<usize>,
    pub threads: Option<usize>,
    pub print_stats: bool,
    pub metrics_port: Option<u16>,
}

/// Whether `b` is one of `0` to `9`.
pub open spec fn is_digit(b: u8) -> bool {
    48 <= b <= 57
}

/// Whether `text` holds digits only.
pub open spec fn all_digits(text: Seq<u8>) -> bool {
    forall|i: int| 0 <= i < text.len() ==> is_digit(#[trigger] text[i])
}

/// The number that the digits `text` write in base ten.
pub open spec fn digits_value(text: Seq<u8>) -> nat
    decreases text.len(),
{
    if text.len() == 0 {
        0
    } else {
        digits_value(text.drop_last()) * 10 + (text.last() - 48) as nat
    }
}

/// `text` without the plus sign that may stand in front of a number.
pub open spec fn unsigned(text: Seq<u8>) -> Seq<u8> {
    if text.len() > 0 && text[0] == 43 {
        text.skip(1)
    } else {
        text
    }
}

/// The number that `text` writes, if it writes one of at most `limit`: one or
/// more digits, with or without a plus sign in front and nothing else.
pub open spec fn number(text: Seq<u8>, limit: nat) -> Option<nat> {
    let digits = unsigned(text);
    if digits.len() > 0 && all_digits(digits) && digits_value(digits) <= limit {
        Some(digits_value(digits))
    } else {
        None
    }
}

/// Nothing settled yet.
pub open spec fn nothing_settled() -> Pending {
    Pending { source: None, target: None, threads: None, print_stats: false, metrics_port: None }
}

/// What a command line asks for once all arguments are read: eight threads
/// unless told otherwise, and both directories have to be named.
pub open spec fn settle(pending: Pending) -> Result<Invocation, UsageError> {
    match (pending.source, pending.target) {
        (None, _) => Err(UsageError::MissingSource),
        (Some(_), None) => Err(UsageError::MissingTarget),
        (Some(source), Some(target)) => Ok(
            Invocation::Run(
                Config {
                    source,
                    target,
                    threads: match pending.threads {
                        Some(threads) => threads,
                        None => 8,
                    },
                    print_stats: pending.print_stats,
                    metrics_port: pending.metrics_port,
                },
            ),
        ),
    }
}

/// What the arguments from position `at` on ask for, given what those before
/// have settled. Arguments are read from the left, and the first that asks for
/// help or is in error decides.
pub open spec fn read_from(
    args: Seq<Seq<u8>>,
    at: int,
    pending: Pending,
    metrics_available: bool,
) -> Result<Invocation, UsageError>
    decreases args.len() - at,
{
    if at < 0 || at >= args.len() {
        settle(pending)
    } else if args[at] == ascii("--help"@) {
        Ok(Invocation::Help)
    } else if args[at] == ascii("--threads"@) {
        if at + 1 >= args.len() {
            Err(UsageError::MissingValue(Flag::Threads))
        } else {
            match number(args[at + 1], usize::MAX as nat) {
                None => Err(UsageError::InvalidValue(Flag::Threads)),
                Some(threads) => read_from(
                    args,
                    at + 2,
                    Pending { threads: Some(threads as usize), ..pending },
                    metrics_available,
                ),
            }
        }
    } else if args[at] == ascii("--metrics"@) {
        if !metrics_available {
            Err(UsageError::MetricsUnavailable)
        } else if at + 1 >= args.len() {
            Err(UsageError::MissingValue(Flag::Metrics))
        } else {
            match number(args[at + 1], u16::MAX as nat) {
                None => Err(UsageError::InvalidValue(Flag::Metrics)),
                Some(port) => read_from(
                    args,
                    at + 2,
                    Pending { metrics_port: Some(port as u16), ..pending },
                    metrics_available,
                ),
            }
        }
    } else if args[at] == ascii("--print-stats"@) {
        read_from(args, at + 1, Pending { print_stats: true, ..pending }, metrics_available)
    } else if pending.source is None {
        read_from(args, at + 1, Pending { source: Some(at as usize), ..pending }, metrics_available)
    } else if pending.target is None {
        read_from(args, at + 1, Pending { target: Some(at as usize), ..pending }, metrics_available)
    } else {
        Err(UsageError::TooManyArguments)
    }
}

/// A longer run of digits writes no smaller a number than its beginning.
proof fn lemma_value_grows(text: Seq<u8>, upto: int)
    requires
        0 <= upto <= text.len(),
        all_digits(text),
    ensures
        digits_value(text.subrange(0, upto)) <= digits_value(text),
    decreases text.len() - upto,
{
    if upto == text.len() {
        assert(text.subrange(0, upto) =~= text);
    } else {
        lemma_value_grows(text, upto + 1);
        let longer = text.subrange(0, upto + 1);
        assert(longer.drop_last() =~= text.subrange(0, upto));
        assert(is_digit(text[upto]));
        assert(longer.last() == text[upto]);
    }
}

/// Reads `text` as a number of at most `limit`.
pub fn parse_number(text: &[u8], limit: u64) -> (value: Option<u64>)
    ensures
        match value {
            Some(n) => number(text@, limit as nat) == Some(n as nat),
            None => number(text@, limit as nat) is None,
        },
{
    let n = text.len();
    let start: usize = if n > 0 && text[0] == 43 {
        1
    } else {
        0
    };
    let ghost digits = unsigned(text@);
    assert(digits =~= text@.subrange(start as int, n as int));
    if start == n {
        return None;
    }
    let mut value: u64 = 0;
    let mut i: usize = start;
    assert(digits.subrange(0, 0) =~= Seq::<u8>::empty());
    while i < n
        invariant
            n == text@.len(),
            start <= i <= n,
            start < n,
            digits == unsigned(text@),
            digits == text@.subrange(start as int, n as int),
            all_digits(digits.subrange(0, i - start)),
            value == digits_value(digits.subrange(0, i - start)),
            value <= limit,
        decreases n - i,
    {
        let b = text[i];
        let ghost upto = digits.subrange(0, i - start + 1);
        proof {
            assert(upto.drop_last() =~= digits.subrange(0, i - start));
            assert(upto.last() == b);
            assert(digits[i - start] == b);
        }
        if b < 48 || b > 57 {
            assert(!is_digit(digits[i - start]));
            return None;
        }
        let d: u64 = (b - 48) as u64;
        if value > limit / 10 || d > limit - value * 10 {
            proof {
                assert(digits_value(upto) > limit);
                if all_digits(digits) {
                    lemma_value_grows(digits, i - start + 1);
                }
            }
            return None;
        }
        value = value * 10 + d;
        proof {
            assert forall|k: int| 0 <= k < upto.len() implies is_digit(#[trigger] upto[k]) by {
                if k < upto.len() - 1 {
                    assert(digits.subrange(0, i - start)[k] == upto[k]);
                }
            }
        }
        i = i + 1;
    }
    assert(digits.subrange(0, n - start) =~= digits);
    Some(value)
}

/// Reads the value of the option `flag`, which has to be there and to be a
/// number of at most `limit`.
pub fn parse_num_option(opt: Option<&Vec<u8>>, flag: Flag, limit: u64) -> (value: Result<
    u64,
    UsageError,
>)
    ensures
        value == (match opt {
            None => Err::<u64, UsageError>(UsageError::MissingValue(flag)),
            Some(text) => match number(text@, limit as nat) {
                None => Err(UsageError::InvalidValue(flag)),
                Some(n) => Ok(n as u64),
            },
        }),
{
    match opt {
        None => Err(UsageError::MissingValue(flag)),
        Some(text) => match parse_number(text.as_slice(), limit) {
            None => Err(UsageError::InvalidValue(flag)),
            Some(n) => Ok(n),
        },
    }
}

fn is_word(arg: &[u8], word: &str) -> (same: bool)
    requires
        vstd::utf8::is_ascii_chars(word@),
    ensures
        same == (arg@ == ascii(word@)),
{
    bytes_equal(arg, text_bytes(word))
}

fn value_after(args: &Vec<Vec<u8>>, at: usize) -> (value: Option<&Vec<u8>>)
    requires
        at < args@.len(),
    ensures
        match value {
            None => at + 1 >= args@.len(),
            Some(text) => at + 1 < args@.len() && text@ == args@[at + 1]@,
        },
{
    if args.len() - at > 1 {
        Some(&args[at + 1])
    } else {
        None
    }
}

/// Reads the arguments that follow the program's name. `metrics_available`
/// says whether there is a metrics endpoint to switch on.
pub fn parse_args(args: &Vec<Vec<u8>>, metrics_available: bool) -> (asked: Result<
    Invocation,
    UsageError,
>)
    ensures
        asked == read_from(names_of(args@), 0, nothing_settled(), metrics_available),
{
    let ghost all = names_of(args@);
    let n = args.len();
    let mut pending = Pending {
        source: None,
        target: None,
        threads: None,
        print_stats: false,
        metrics_port: None,
    };
    let mut i: usize = 0;
    while i < n
        invariant
            n == args@.len(),
            i <= n,
            all == names_of(args@),
            read_from(all, 0, nothing_settled(), metrics_available) == read_from(
                all,
                i as int,
                pending,
                metrics_available,
            ),
        decreases n - i,
    {
        proof {
            reveal_strlit("--help");
            reveal_strlit("--threads");
            reveal_strlit("--metrics");
            reveal_strlit("--print-stats");
        }
        let arg = args[i].as_slice();
        assert(all[i as int] == arg@);
        if is_word(arg, "--help") {
            return Ok(Invocation::Help);
        } else if is_word(arg, "--threads") {
            let value = value_after(args, i);
            proof {
                if i + 1 < n {
                    assert(all[i + 1] == args@[i + 1]@);
                }
            }
            match parse_num_option(value, Flag::Threads, usize::MAX as u64) {
                Err(error) => {
                    return Err(error);
                },
                Ok(threads) => {
                    pending.threads = Some(threads as usize);
                    i = i + 2;
                },
            }
        } else if is_word(arg, "--metrics") {
            if !metrics_available {
                return Err(UsageError::MetricsUnavailable);
            }
            let value = value_after(args, i);
            proof {
                if i + 1 < n {
                    assert(all[i + 1] == args@[i + 1]@);
                }
            }
            match parse_num_option(value, Flag::Metrics, u16::MAX as u64) {
                Err(error) => {
                    return Err(error);
                },
                Ok(port) => {
                    pending.metrics_port = Some(port as u16);
                    i = i + 2;
                },
            }
        } else if is_word(arg, "--print-stats") {
            pending.print_stats = true;
            i = i + 1;
        } else if pending.source.is_none() {
            pending.source = Some(i);
            i = i + 1;
        } else if pending.target.is_none() {
            pending.target = Some(i);
            i = i + 1;
        } else {
            return Err(UsageError::TooManyArguments);
        }
    }
    match (pending.source, pending.target) {
        (None, _) => Err(UsageError::MissingSource),
        (Some(_), None) => Err(UsageError::MissingTarget),
        (Some(source), Some(target)) => Ok(
            Invocation::Run(
                Config {
                    source,
                    target,
                    threads: match pending.threads {
                        Some(threads) => threads,
                        None => DEFAULT_THREADS,
                    },
                    print_stats: pending.print_stats,
                    metrics_port: pending.metrics_port,
                },
            ),
        ),
    }
}

/// How the program is used, in one line.
pub open spec fn usage_text(metrics_available: bool) -> Seq<u8> {
    ascii("Usage: fast-local-sync [--threads NUM_THREADS] [--print-stats] "@) + (if metrics_available {
        ascii("[--metrics PORT] "@)
    } else {
        Seq::<u8>::empty()
    }) + ascii("SOURCE DESTINATION"@)
}

/// The line that says how the program is used.
pub fn usage(metrics_available: bool) -> (line: Vec<u8>)
    ensures
        line@ == usage_text(metrics_available),
{
    proof {
        reveal_strlit("Usage: fast-local-sync [--threads NUM_THREADS] [--print-stats] ");
        reveal_strlit("[--metrics PORT] ");
        reveal_strlit("SOURCE DESTINATION");
    }
    let mut line: Vec<u8> = Vec::new();
    push_text(&mut line, "Usage: fast-local-sync [--threads NUM_THREADS] [--print-stats] ");
    if metrics_available {
        push_text(&mut line, "[--metrics PORT] ");
    }
    push_text(&mut line, "SOURCE DESTINATION");
    assert(line@ =~= usage_text(metrics_available));
    line
}

} // verus!
