//! The bridge from the driver's log callback to log records.
//!
//! The driver reports a level and a UTF-16 message. This module decides the
//! severity and the text of the record; emitting it is the caller's part.

use vstd::prelude::*;
use vstd::string::StringExecFns;
use widestring::U16Str;

verus! {

/// The driver's level for informational messages.
pub const LOG_INFO: i32 = 0;

/// The driver's level for warnings.
pub const LOG_WARN: i32 = 1;

/// The driver's level for errors.
pub const LOG_ERR: i32 = 2;

/// The severity of a log record.
#[derive(Clone, Copy, Debug, PartialEq, Eq, Structural)]
pub enum LogLevel {
    Info,
    Warn,
    Error,
}

/// A message of the driver, ready to be emitted.
#[derive(Debug)]
pub struct LogRecord {
    pub level: LogLevel,
    pub message: String,
}

/// The text that UTF-16 code units decode to when every ill-formed sequence
/// is replaced by U+FFFD.
pub uninterp spec fn utf16_lossy(units: Seq<u16>) -> Seq<char>;

/// `U16Str::to_string_lossy` on the units of `units`: decodes them as
/// UTF-16 and replaces what is ill-formed. The text depends on the units
/// alone.
#[verifier::external_body]
fn decode_utf16_lossy(units: &[u16]) -> (text: String)
    ensures
        text@ == utf16_lossy(units@),
{
    U16Str::from_slice(units).to_string_lossy()
}

/// The character of the decimal digit `d`.
pub open spec fn digit_char(d: int) -> char {
    if d == 0 {
        '0'
    } else if d == 1 {
        '1'
    } else if d == 2 {
        '2'
    } else if d == 3 {
        '3'
    } else if d == 4 {
        '4'
    } else if d == 5 {
        '5'
    } else if d == 6 {
        '6'
    } else if d == 7 {
        '7'
    } else if d == 8 {
        '8'
    } else {
        '9'
    }
}

/// The decimal digits of `n`, most significant first, without leading zeros.
pub open spec fn digits(n: nat) -> Seq<char>
    decreases n,
{
    if n < 10 {
        seq![digit_char(n as int)]
    } else {
        digits(n / 10) + seq![digit_char((n % 10) as int)]
    }
}

/// `n` in decimal, with a minus sign if it is negative.
pub open spec fn decimal(n: int) -> Seq<char> {
    if n < 0 {
        seq!['-'] + digits((-n) as nat)
    } else {
        digits(n as nat)
    }
}

/// Whether `level` is one of the three levels that the driver defines.
pub open spec fn is_known_level(level: i32) -> bool {
    level == LOG_INFO || level == LOG_WARN || level == LOG_ERR
}

/// The severity under which a message of the driver's level `level` is
/// recorded: an unknown level counts as an error.
pub open spec fn severity(level: i32) -> LogLevel {
    if level == LOG_INFO {
        LogLevel::Info
    } else if level == LOG_WARN {
        LogLevel::Warn
    } else {
        LogLevel::Error
    }
}

/// The text of the record for the driver's message `text` at `level`: the
/// message behind a fixed prefix, and behind it a note that names the level
/// if the driver does not define it.
pub open spec fn record_text(level: i32, text: Seq<char>) -> Seq<char> {
    if is_known_level(level) {
        "WinTun: "@ + text
    } else {
        "WinTun: "@ + text + " (with invalid log level "@ + decimal(level as int) + ")"@
    }
}

fn digit_str(d: u64) -> (s: &'static str)
    requires
        d < 10,
    ensures
        s@ == seq![digit_char(d as int)],
{
    proof {
        reveal_strlit("0");
        reveal_strlit("1");
        reveal_strlit("2");
        reveal_strlit("3");
        reveal_strlit("4");
        reveal_strlit("5");
        reveal_strlit("6");
        reveal_strlit("7");
        reveal_strlit("8");
        reveal_strlit("9");
    }
    let s = if d == 0 {
        "0"
    } else if d == 1 {
        "1"
    } else if d == 2 {
        "2"
    } else if d == 3 {
        "3"
    } else if d == 4 {
        "4"
    } else if d == 5 {
        "5"
    } else if d == 6 {
        "6"
    } else if d == 7 {
        "7"
    } else if d == 8 {
        "8"
    } else {
        "9"
    };
    assert(s@ =~= seq![digit_char(d as int)]);
    s
}

fn append_digits(out: &mut String, n: u64)
    ensures
        final(out)@ == old(out)@ + digits(n as nat),
    decreases n,
{
    if n >= 10 {
        append_digits(out, n / 10);
    }
    out.append(digit_str(n % 10));
    assert(out@ =~= old(out)@ + digits(n as nat));
}

fn append_decimal(out: &mut String, n: i32)
    ensures
        final(out)@ == old(out)@ + decimal(n as int),
{
    if n < 0 {
        proof {
            reveal_strlit("-");
        }
        out.append("-");
        assert("-"@ =~= seq!['-']);
        let magnitude: u64 = (-(n as i64)) as u64;
        append_digits(out, magnitude);
        assert(out@ =~= old(out)@ + decimal(n as int));
    } else {
        append_digits(out, n as u64);
    }
}

/// The record for the driver's message `text` at the driver's level `level`.
pub fn log_record(level: i32, text: &str) -> (record: LogRecord)
    ensures
        record.level == severity(level),
        record.message@ == record_text(level, text@),
{
    let mut message = String::from_str("WinTun: ");
    message.append(text);
    if level == LOG_INFO {
        LogRecord { level: LogLevel::Info, message }
    } else if level == LOG_WARN {
        LogRecord { level: LogLevel::Warn, message }
    } else if level == LOG_ERR {
        LogRecord { level: LogLevel::Error, message }
    } else {
        message.append(" (with invalid log level ");
        append_decimal(&mut message, level);
        message.append(")");
        LogRecord { level: LogLevel::Error, message }
    }
}

/// The record for a message that the driver reports as the UTF-16 code units
/// `message`, without a terminator, at the driver's level `level`.
pub fn default_logger(level: i32, message: &[u16]) -> (record: LogRecord)
    ensures
        record.level == severity(level),
        record.message@ == record_text(level, utf16_lossy(message@)),
{
    let text = decode_utf16_lossy(message);
    log_record(level, text.as_str())
}

/// Decides whether the default logger is to be registered with the driver.
/// `set` says whether it was registered before; after the call it says so in
/// any case. The first call asks for the registration, later calls ask for
/// nothing.
pub fn set_default_logger_if_unset(set: &mut bool) -> (register: bool)
    ensures
        register == !*old(set),
        *final(set),
{
    if !*set {
        *set = true;
        true
    } else {
        false
    }
}

} // verus!
