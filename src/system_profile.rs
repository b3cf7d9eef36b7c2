use vstd::prelude::*;
use vstd::string::*;
use vstd::utf8::{decode_utf8, valid_utf8};

use crate::dispatch::ToolError;
use crate::text::{decimal, decimal_spec, join2, join4, quote, quoted};

verus! {

/// Why a decimal number could not be read.
#[derive(Clone, Copy, Debug, PartialEq, Eq, Structural)]
pub enum ParseFailure {
    Empty,
    InvalidDigit,
    PosOverflow,
}

/// Where `system_profiler`'s output stopped being UTF-8.
#[derive(Debug)]
pub struct Utf8Failure {
    /// The length of the longest valid UTF-8 prefix.
    pub valid_up_to: usize,
    /// The length of the invalid sequence, or `None` when the input ended inside one.
    pub error_len: Option<usize>,
}

/// Why the developer tools' version could not be read.
#[derive(Debug)]
pub enum Error {
    SystemProfilerFailed(ToolError),
    OutputInvalidUtf8(Utf8Failure),
    /// The version pattern was refused by the regular-expression engine.
    PatternInvalid(String),
    VersionNotMatched { data: String },
    MajorVersionInvalid { major: String, cause: ParseFailure },
    MinorVersionInvalid { minor: String, cause: ParseFailure },
}

/// The installed developer tools, as far as they are needed here.
#[derive(Debug)]
pub struct DeveloperTools {
    pub version: (u32, u32),
}

/// The pattern that finds the version in `system_profiler`'s report:
/// `Version: MAJOR.MINOR` standing as whole words.
pub open spec fn version_pattern() -> Seq<char> {
    "\\bVersion: (?P<major>\\d+)\\.(?P<minor>\\d+)\\b"@
}

fn version_pattern_text() -> (r: &'static str)
    ensures
        r@ == version_pattern(),
{
    "\\bVersion: (?P<major>\\d+)\\.(?P<minor>\\d+)\\b"
}

/// The leftmost match of `pattern` in `text`, as its first two capture
/// groups, or the engine's message when `pattern` does not compile.
pub uninterp spec fn regex_first_captures(pattern: Seq<char>, text: Seq<char>) -> Result<Option<(Seq<char>, Seq<char>)>, Seq<char>>;

/// Relies on `regex::Regex::new` and `Regex::captures`: the first two groups
/// of the leftmost match, or the compile error's message.
#[verifier::external_body]
fn first_captures(pattern: &str, text: &str) -> (r: Result<Option<(String, String)>, String>)
    ensures
        match regex_first_captures(pattern@, text@) {
            Err(m) => r matches Err(s) && s@ == m,
            Ok(None) => r matches Ok(None),
            Ok(Some((a, b))) => r matches Ok(Some((x, y))) && x@ == a && y@ == b,
        },
{
    match regex::Regex::new(pattern) {
        Err(e) => Err(e.to_string()),
        Ok(re) => Ok(re.captures(text).and_then(|c| Some((c.get(1)?.as_str().to_owned(), c.get(2)?.as_str().to_owned())))),
    }
}

/// What `Utf8Error::error_len` reports for invalid UTF-8 `b`: the length of
/// the bad sequence, or `None` when the input ends inside one.
pub uninterp spec fn utf8_error_len(b: Seq<u8>) -> Option<usize>;

/// Relies on `std::str::from_utf8`: it accepts exactly the valid UTF-8 byte
/// strings and the text is what they decode to; on failure
/// `Utf8Error::valid_up_to` is the longest valid prefix's length, and
/// `Utf8Error::error_len` depends on the bytes alone.
#[verifier::external_body]
fn utf8_text(b: &Vec<u8>) -> (r: Result<String, Utf8Failure>)
    ensures
        r is Ok <==> valid_utf8(b@),
        r matches Ok(s) ==> s@ == decode_utf8(b@),
        r matches Err(e) ==> e.valid_up_to <= b@.len() && valid_utf8(b@.take(e.valid_up_to as int))
            && (forall|k: int| e.valid_up_to < k <= b@.len() ==> !valid_utf8(#[trigger] b@.take(k)))
            && e.error_len == utf8_error_len(b@),
{
    std::str::from_utf8(b.as_slice()).map(|s| s.to_owned()).map_err(
        |e| Utf8Failure { valid_up_to: e.valid_up_to(), error_len: e.error_len() },
    )
}

pub open spec fn is_ascii_digit(c: char) -> bool {
    '0' <= c <= '9'
}

pub open spec fn digit_value(c: char) -> nat {
    (c as int - '0' as int) as nat
}

/// Reads the digits of `s` from position `i` on, `acc` being the value so far.
pub open spec fn parse_digits_from(s: Seq<char>, i: int, acc: nat) -> Result<nat, ParseFailure>
    decreases s.len() - i,
{
    if i >= s.len() {
        Ok(acc)
    } else if !is_ascii_digit(s[i]) {
        Err(ParseFailure::InvalidDigit)
    } else if acc * 10 + digit_value(s[i]) > u32::MAX {
        Err(ParseFailure::PosOverflow)
    } else {
        parse_digits_from(s, i + 1, acc * 10 + digit_value(s[i]))
    }
}

/// A `u32` in decimal, read left to right: an optional `+` before at least
/// one ASCII digit; the first bad digit or overflow met is the failure.
pub open spec fn parse_u32(s: Seq<char>) -> Result<nat, ParseFailure> {
    if s.len() == 0 {
        Err(ParseFailure::Empty)
    } else if s[0] == '+' && s.len() > 1 {
        parse_digits_from(s, 1, 0)
    } else {
        parse_digits_from(s, 0, 0)
    }
}

/// Reads a decimal `u32`.
pub fn read_u32(s: &String) -> (r: Result<u32, ParseFailure>)
    ensures
        match parse_u32(s@) {
            Ok(v) => r == Ok::<u32, ParseFailure>(v as u32) && v <= u32::MAX,
            Err(c) => r == Err::<u32, ParseFailure>(c),
        },
{
    let t = s.as_str();
    let n = t.unicode_len();
    if n == 0 {
        return Err(ParseFailure::Empty);
    }
    let mut i: usize = if t.get_char(0) == '+' && n > 1 { 1 } else { 0 };
    let mut acc: u32 = 0;
    while i < n
        invariant
            n == t@.len(),
            t@ == s@,
            i <= n,
            parse_u32(s@) == parse_digits_from(t@, i as int, acc as nat),
        decreases n - i,
    {
        let c = t.get_char(i);
        if !('0' <= c && c <= '9') {
            return Err(ParseFailure::InvalidDigit);
        }
        let d = (c as u32) - ('0' as u32);
        if acc > 429496729 || (acc == 429496729 && d > 5) {
            return Err(ParseFailure::PosOverflow);
        }
        acc = acc * 10 + d;
        i = i + 1;
    }
    Ok(acc)
}

pub open spec fn parse_failure_text(c: ParseFailure) -> Seq<char> {
    match c {
        ParseFailure::Empty => "cannot parse integer from empty string"@,
        ParseFailure::InvalidDigit => "invalid digit found in string"@,
        ParseFailure::PosOverflow => "number too large to fit in target type"@,
    }
}

/// What the version captures give: the two numbers, or the first that
/// cannot be read.
pub open spec fn captures_result(captures: Option<(Seq<char>, Seq<char>)>, data: Seq<char>, r: Result<DeveloperTools, Error>) -> bool {
    match captures {
        None => r matches Err(Error::VersionNotMatched { data: d }) && d@ == data,
        Some((major, minor)) => match parse_u32(major) {
            Err(c) => r matches Err(Error::MajorVersionInvalid { major: m, cause }) && m@ == major && cause == c,
            Ok(a) => match parse_u32(minor) {
                Err(c) => r matches Err(Error::MinorVersionInvalid { minor: m, cause }) && m@ == minor && cause == c,
                Ok(b) => r matches Ok(dt) && dt.version.0 == a && dt.version.1 == b,
            },
        },
    }
}

impl DeveloperTools {
    /// The version from the captures of the version pattern over `data`
    /// (major, then minor), or `None` when the pattern did not match.
    pub fn from_captures(captures: Option<(String, String)>, data: String) -> (r: Result<DeveloperTools, Error>)
        ensures
            captures_result(
                match captures {
                    Some((a, b)) => Some((a@, b@)),
                    None => None,
                },
                data@,
                r,
            ),
    {
        match captures {
            None => Err(Error::VersionNotMatched { data }),
            Some((major, minor)) => {
                let a = match read_u32(&major) {
                    Err(cause) => {
                        return Err(Error::MajorVersionInvalid { major, cause });
                    },
                    Ok(a) => a,
                };
                match read_u32(&minor) {
                    Err(cause) => Err(Error::MinorVersionInvalid { minor, cause }),
                    Ok(b) => Ok(DeveloperTools { version: (a, b) }),
                }
            },
        }
    }

    /// Reads the developer tools' version out of `system_profiler`'s report
    /// on them: the leftmost match of `version_pattern`.
    pub fn new(output: Result<Vec<u8>, ToolError>) -> (r: Result<DeveloperTools, Error>)
        ensures
            match output {
                Err(e) => r == Err::<DeveloperTools, Error>(Error::SystemProfilerFailed(e)),
                Ok(t) => if !valid_utf8(t@) {
                    r matches Err(Error::OutputInvalidUtf8(u)) && u.valid_up_to <= t@.len()
                        && valid_utf8(t@.take(u.valid_up_to as int))
                        && (forall|k: int| u.valid_up_to < k <= t@.len() ==> !valid_utf8(#[trigger] t@.take(k)))
                        && u.error_len == utf8_error_len(t@)
                } else {
                    match regex_first_captures(version_pattern(), decode_utf8(t@)) {
                        Err(m) => r matches Err(Error::PatternInvalid(s)) && s@ == m,
                        Ok(captures) => captures_result(captures, decode_utf8(t@), r),
                    }
                },
            },
    {
        let t = match output {
            Err(e) => {
                return Err(Error::SystemProfilerFailed(e));
            },
            Ok(t) => t,
        };
        let text = match utf8_text(&t) {
            Err(u) => {
                return Err(Error::OutputInvalidUtf8(u));
            },
            Ok(text) => text,
        };
        match first_captures(version_pattern_text(), text.as_str()) {
            Err(m) => Err(Error::PatternInvalid(m)),
            Ok(captures) => {
                let r = DeveloperTools::from_captures(captures, text);
                proof {
                    match regex_first_captures(version_pattern(), decode_utf8(t@)) {
                        Ok(Some((a, b))) => {},
                        _ => {},
                    }
                }
                r
            },
        }
    }
}

/// What std reports for a UTF-8 failure.
pub open spec fn utf8_failure_text(u: Utf8Failure) -> Seq<char> {
    match u.error_len {
        Some(len) => "invalid utf-8 sequence of "@ + decimal_spec(len as nat) + " bytes from index "@
            + decimal_spec(u.valid_up_to as nat),
        None => "incomplete utf-8 byte sequence from index "@ + decimal_spec(u.valid_up_to as nat),
    }
}

fn utf8_failure_message(u: &Utf8Failure) -> (r: String)
    ensures
        r@ == utf8_failure_text(*u),
{
    match u.error_len {
        Some(len) => join4(
            "invalid utf-8 sequence of ",
            &decimal(len),
            " bytes from index ",
            &decimal(u.valid_up_to),
        ),
        None => join2("incomplete utf-8 byte sequence from index ", &decimal(u.valid_up_to)),
    }
}

impl Error {
    /// The one-line report of this error, its cause included.
    pub fn message(&self) -> (r: String)
        ensures
            r@ == message_spec(*self),
    {
        match self {
            Error::SystemProfilerFailed(e) => join2("`system_profiler` call failed: ", &e.detail),
            Error::OutputInvalidUtf8(u) => join2(
                "`system_profiler` output contained invalid UTF-8: ",
                &utf8_failure_message(u),
            ),
            Error::PatternInvalid(m) => join2("The version pattern was refused: ", m),
            Error::VersionNotMatched { data } => join2(
                "No version number was found within the `SPDeveloperToolsDataType` data: ",
                &quote(data),
            ),
            Error::MajorVersionInvalid { major, cause } => join4(
                "The major version ",
                &quote(major),
                " wasn't a valid number: ",
                &parse_failure_message(*cause),
            ),
            Error::MinorVersionInvalid { minor, cause } => join4(
                "The minor version ",
                &quote(minor),
                " wasn't a valid number: ",
                &parse_failure_message(*cause),
            ),
        }
    }
}

pub open spec fn message_spec(e: Error) -> Seq<char> {
    match e {
        Error::SystemProfilerFailed(err) => "`system_profiler` call failed: "@ + err.detail@,
        Error::OutputInvalidUtf8(u) => "`system_profiler` output contained invalid UTF-8: "@ + utf8_failure_text(u),
        Error::PatternInvalid(m) => "The version pattern was refused: "@ + m@,
        Error::VersionNotMatched { data } =>
            "No version number was found within the `SPDeveloperToolsDataType` data: "@ + quoted(data@),
        Error::MajorVersionInvalid { major, cause } =>
            "The major version "@ + quoted(major@) + " wasn't a valid number: "@ + parse_failure_text(cause),
        Error::MinorVersionInvalid { minor, cause } =>
            "The minor version "@ + quoted(minor@) + " wasn't a valid number: "@ + parse_failure_text(cause),
    }
}

fn parse_failure_message(c: ParseFailure) -> (r: String)
    ensures
        r@ == parse_failure_text(c),
{
    match c {
        ParseFailure::Empty => String::from_str("cannot parse integer from empty string"),
        ParseFailure::InvalidDigit => String::from_str("invalid digit found in string"),
        ParseFailure::PosOverflow => String::from_str("number too large to fit in target type"),
    }
}

} // verus!
