//! What the program takes from its command line and its environment.
use vstd::prelude::*;

verus! {

/// How many seconds the children get to end after a termination request,
/// when nothing else is configured.
pub const DEFAULT_TERMINATION_TIMEOUT_SECS: u64 = 10;

/// Why the command line names no program to run.
#[derive(PartialEq, Eq, Structural)]
pub enum ArgsError {
    /// Only the program's own name was given.
    MainChildCommandUnspecified,
}

/// Whether `c` is one of the ASCII digits `0` to `9`.
pub open spec fn is_ascii_digit(c: char) -> bool {
    '0' <= c && c <= '9'
}

/// The value of a string of ASCII digits, read in base ten.
pub open spec fn digits_value(digits: Seq<char>) -> int
    decreases digits.len(),
{
    if digits.len() == 0 {
        0
    } else {
        10 * digits_value(digits.drop_last()) + (digits.last() as int - '0' as int)
    }
}

/// `text` without one leading `+`, if it has one.
pub open spec fn unsigned_digits(text: Seq<char>) -> Seq<char> {
    if text.len() > 0 && text[0] == '+' {
        text.drop_first()
    } else {
        text
    }
}

/// The `u64` that `text` writes in decimal, with an optional leading `+`;
/// `None` when `text` writes no such number.
pub open spec fn decimal_u64(text: Seq<char>) -> Option<u64> {
    let digits = unsigned_digits(text);
    if digits.len() > 0 && (forall|i: int| 0 <= i < digits.len() ==> is_ascii_digit(#[trigger] digits[i]))
        && digits_value(digits) <= u64::MAX {
        Some(digits_value(digits) as u64)
    } else {
        None
    }
}

/// Calls `str::parse::<u64>` (`u64::from_str`), which std documents to
/// accept exactly an optional `+` followed by one or more ASCII digits whose
/// value fits in a `u64`, and to return that value.
#[verifier::external_body]
fn parse_u64(text: &str) -> (n: Option<u64>)
    ensures
        n == decimal_u64(text@),
{
    text.parse::<u64>().ok()
}

/// Splits the command line `argv` (the program's own name first) into the
/// program to run as the immediate child and the arguments to give it.
pub fn parse_args(argv: Vec<String>) -> (r: Result<(String, Vec<String>), ArgsError>)
    ensures
        argv@.len() < 2 <==> r is Err,
        r matches Err(e) ==> e == ArgsError::MainChildCommandUnspecified,
        r matches Ok((exec, args)) ==> exec@ == argv@[1]@ && args@ == argv@.subrange(2, argv@.len() as int),
{
    let argc = argv.len();
    if argc < 2 {
        return Err(ArgsError::MainChildCommandUnspecified);
    }
    let exec = argv[1].clone();
    let mut args: Vec<String> = Vec::new();
    let mut i: usize = 2;
    while i < argc
        invariant
            2 <= i <= argc,
            argc == argv@.len(),
            args@ == argv@.subrange(2, i as int),
        decreases argc - i,
    {
        args.push(argv[i].clone());
        assert(argv@.subrange(2, i as int + 1) =~= argv@.subrange(2, i as int).push(argv@[i as int]));
        i = i + 1;
    }
    Ok((exec, args))
}

/// The number of seconds the children get to end after a termination
/// request: the configured text read as a decimal number, or
/// [`DEFAULT_TERMINATION_TIMEOUT_SECS`] when nothing is configured. A
/// configured text that is no such number is not accepted.
pub fn termination_timeout_secs(configured: Option<String>) -> (secs: u64)
    requires
        configured matches Some(text) ==> decimal_u64(text@) is Some,
    ensures
        match configured {
            None => secs == DEFAULT_TERMINATION_TIMEOUT_SECS,
            Some(text) => decimal_u64(text@) == Some(secs),
        },
{
    match configured {
        None => DEFAULT_TERMINATION_TIMEOUT_SECS,
        Some(text) => match parse_u64(text.as_str()) {
            Some(secs) => secs,
            None => DEFAULT_TERMINATION_TIMEOUT_SECS,
        },
    }
}

} // verus!
