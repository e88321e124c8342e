use fast_local_sync::cli::{
    parse_args, parse_num_option, parse_number, usage, Config, Flag, Invocation, UsageError,
};

fn args(words: &[&str]) -> Vec<Vec<u8>> {
    words.iter().map(|w| w.as_bytes().to_vec()).collect()
}

fn run(source: usize, target: usize, threads: usize, print_stats: bool, port: Option<u16>) -> Result<Invocation, UsageError> {
    Ok(Invocation::Run(Config { source, target, threads, print_stats, metrics_port: port }))
}

#[test]
fn two_directories_and_defaults() {
    assert_eq!(parse_args(&args(&["src", "dst"]), true), run(0, 1, 8, false, None));
    assert_eq!(parse_args(&args(&["src", "dst"]), false), run(0, 1, 8, false, None));
}

#[test]
fn options_in_any_place() {
    assert_eq!(
        parse_args(&args(&["--threads", "4", "src", "--print-stats", "dst"]), false),
        run(2, 4, 4, true, None)
    );
    assert_eq!(
        parse_args(&args(&["src", "dst", "--metrics", "9090", "--threads", "16"]), true),
        run(0, 1, 16, false, Some(9090))
    );
    assert_eq!(
        parse_args(&args(&["--threads", "1", "--threads", "2", "a", "b"]), true),
        run(4, 5, 2, false, None)
    );
}

#[test]
fn help_wins_where_it_stands() {
    assert_eq!(parse_args(&args(&["--help"]), false), Ok(Invocation::Help));
    assert_eq!(parse_args(&args(&["a", "b", "c", "--help"]), false), Err(UsageError::TooManyArguments));
    assert_eq!(parse_args(&args(&["a", "--help", "b", "c"]), false), Ok(Invocation::Help));
    assert_eq!(
        parse_args(&args(&["--threads", "x", "--help"]), false),
        Err(UsageError::InvalidValue(Flag::Threads))
    );
    assert_eq!(parse_args(&args(&["--threads", "--help"]), false), Err(UsageError::InvalidValue(Flag::Threads)));
}

#[test]
fn usage_errors() {
    assert_eq!(parse_args(&args(&[]), true), Err(UsageError::MissingSource));
    assert_eq!(parse_args(&args(&["--print-stats"]), true), Err(UsageError::MissingSource));
    assert_eq!(parse_args(&args(&["src"]), true), Err(UsageError::MissingTarget));
    assert_eq!(parse_args(&args(&["a", "b", "c"]), true), Err(UsageError::TooManyArguments));
    assert_eq!(parse_args(&args(&["a", "b", "--threads"]), true), Err(UsageError::MissingValue(Flag::Threads)));
    assert_eq!(parse_args(&args(&["a", "b", "--metrics"]), true), Err(UsageError::MissingValue(Flag::Metrics)));
    assert_eq!(parse_args(&args(&["a", "b", "--metrics"]), false), Err(UsageError::MetricsUnavailable));
    assert_eq!(parse_args(&args(&["--metrics", "80", "a", "b"]), false), Err(UsageError::MetricsUnavailable));
    assert_eq!(parse_args(&args(&["--metrics", "65536", "a", "b"]), true), Err(UsageError::InvalidValue(Flag::Metrics)));
    assert_eq!(parse_args(&args(&["--metrics", "65535", "a", "b"]), true), run(2, 3, 8, false, Some(65535)));
    assert_eq!(parse_args(&args(&["--threads", "-1", "a", "b"]), true), Err(UsageError::InvalidValue(Flag::Threads)));
    assert_eq!(parse_args(&args(&["--threads", "", "a", "b"]), true), Err(UsageError::InvalidValue(Flag::Threads)));
}

#[test]
fn unknown_options_are_directories() {
    assert_eq!(parse_args(&args(&["--what", "dst"]), true), run(0, 1, 8, false, None));
}

#[test]
fn numbers() {
    assert_eq!(parse_number(b"0", 10), Some(0));
    assert_eq!(parse_number(b"8", 10), Some(8));
    assert_eq!(parse_number(b"10", 10), Some(10));
    assert_eq!(parse_number(b"11", 10), None);
    assert_eq!(parse_number(b"+7", 10), Some(7));
    assert_eq!(parse_number(b"+", 10), None);
    assert_eq!(parse_number(b"", 10), None);
    assert_eq!(parse_number(b"-7", 10), None);
    assert_eq!(parse_number(b"++7", 10), None);
    assert_eq!(parse_number(b"7 ", 10), None);
    assert_eq!(parse_number(b" 7", 10), None);
    assert_eq!(parse_number(b"0x10", 100), None);
    assert_eq!(parse_number(b"1_0", 100), None);
    assert_eq!(parse_number(b"000000000000000000000000000000012", 100), Some(12));
    assert_eq!(parse_number(b"18446744073709551615", u64::MAX), Some(u64::MAX));
    assert_eq!(parse_number(b"18446744073709551616", u64::MAX), None);
    assert_eq!(parse_number(b"99999999999999999999999", u64::MAX), None);
    assert_eq!(parse_number(b"99999999999999999999999x", u64::MAX), None);
    assert_eq!(parse_number(b"3", 0), None);
    assert_eq!(parse_number(b"0", 0), Some(0));
    for n in [0u64, 1, 9, 10, 99, 100, 4096, 65535] {
        assert_eq!(parse_number(n.to_string().as_bytes(), 65535), n.to_string().parse::<u16>().ok().map(u64::from));
    }
    for text in ["65536", "+12", "-0", "", "+", "12a", "\u{663}"] {
        assert_eq!(parse_number(text.as_bytes(), 65535), text.parse::<u16>().ok().map(u64::from));
    }
}

#[test]
fn option_values() {
    let eight = b"8".to_vec();
    let bad = b"eight".to_vec();
    assert_eq!(parse_num_option(Some(&eight), Flag::Threads, 100), Ok(8));
    assert_eq!(parse_num_option(Some(&bad), Flag::Threads, 100), Err(UsageError::InvalidValue(Flag::Threads)));
    assert_eq!(parse_num_option(None, Flag::Metrics, 100), Err(UsageError::MissingValue(Flag::Metrics)));
}

#[test]
fn usage_line() {
    assert_eq!(
        String::from_utf8(usage(true)).unwrap(),
        "Usage: fast-local-sync [--threads NUM_THREADS] [--print-stats] [--metrics PORT] SOURCE DESTINATION"
    );
    assert_eq!(
        String::from_utf8(usage(false)).unwrap(),
        "Usage: fast-local-sync [--threads NUM_THREADS] [--print-stats] SOURCE DESTINATION"
    );
}
