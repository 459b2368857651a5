//! Running one external command: how its streams are wired, what its exit
//! means, and how a line of its output is shown.

use vstd::prelude::*;
use vstd::string::*;

verus! {

/// Why running a command failed.
#[derive(Clone, Copy, Debug, PartialEq, Eq)]
pub enum ProcessError {
    /// The executable could not be started.
    LaunchFailed,
    /// The command ran and exited with this code, which is not zero. A
    /// command that ended without a code is reported with `NO_EXIT_CODE`.
    NonZeroExit(i32),
}

/// The code reported for a command that was ended by a signal.
pub const NO_EXIT_CODE: i32 = -1;

/// Where one of a command's three streams goes.
#[derive(Clone, Copy, Debug, PartialEq, Eq)]
pub enum StreamMode {
    /// Closed: the command reads nothing.
    Null,
    /// The caller's own stream.
    Inherit,
    /// Captured and forwarded line by line.
    Piped,
}

/// How the three streams of a command are wired.
#[derive(Clone, Copy, Debug, PartialEq, Eq)]
pub struct StreamPlan {
    pub stdin: StreamMode,
    pub stdout: StreamMode,
    pub stderr: StreamMode,
}

/// The wiring of a command's streams. Input is always closed. Output and
/// errors are captured where lines are forwarded under a label, and go to the
/// caller's own streams otherwise.
pub fn stream_plan(wrap: bool) -> (plan: StreamPlan)
    ensures
        plan.stdin == StreamMode::Null,
        plan.stdout == (if wrap {
            StreamMode::Piped
        } else {
            StreamMode::Inherit
        }),
        plan.stderr == plan.stdout,
{
    let out = if wrap {
        StreamMode::Piped
    } else {
        StreamMode::Inherit
    };
    StreamPlan { stdin: StreamMode::Null, stdout: out, stderr: out }
}

/// What the end of a command means: `launched` says whether it started at
/// all, `code` is its exit code where it has one.
pub open spec fn exit_result_spec(launched: bool, code: Option<i32>) -> Result<(), ProcessError> {
    if !launched {
        Err(ProcessError::LaunchFailed)
    } else {
        match code {
            Some(c) => if c == 0 {
                Ok(())
            } else {
                Err(ProcessError::NonZeroExit(c))
            },
            None => Err(ProcessError::NonZeroExit(NO_EXIT_CODE)),
        }
    }
}

/// Turns the end of a command into success or a typed failure. Only exit
/// code zero is success, whatever the command printed.
pub fn exit_result(launched: bool, code: Option<i32>) -> (r: Result<(), ProcessError>)
    ensures
        r == exit_result_spec(launched, code),
        r.is_ok() <==> launched && code == Some(0i32),
{
    if !launched {
        return Err(ProcessError::LaunchFailed);
    }
    match code {
        Some(c) => {
            if c == 0 {
                Ok(())
            } else {
                Err(ProcessError::NonZeroExit(c))
            }
        },
        None => Err(ProcessError::NonZeroExit(NO_EXIT_CODE)),
    }
}

/// The character of one decimal digit.
pub open spec fn digit_char(d: nat) -> char {
    if d == 0 {
        '0'
    } else if d == 1 {
        '1'
    } else if d == 2 {
        '2'
    } else if d == 3 {
        '3'
    } else if d == 4 {
        '4'
    } else if d == 5 {
        '5'
    } else if d == 6 {
        '6'
    } else if d == 7 {
        '7'
    } else if d == 8 {
        '8'
    } else {
        '9'
    }
}

/// A natural number in decimal, without leading zeros.
pub open spec fn digits(n: nat) -> Seq<char>
    decreases n,
{
    if n < 10 {
        seq![digit_char(n)]
    } else {
        digits(n / 10).push(digit_char(n % 10))
    }
}

/// An integer in decimal, with a minus sign where it is negative.
pub open spec fn decimal(n: int) -> Seq<char> {
    if n < 0 {
        seq!['-'] + digits((-n) as nat)
    } else {
        digits(n as nat)
    }
}

/// One decimal digit as a string.
fn digit_str(d: u64) -> (r: &'static str)
    requires
        d < 10,
    ensures
        r@ == seq![digit_char(d as nat)],
{
    proof {
        reveal_strlit("0");
        reveal_strlit("1");
        reveal_strlit("2");
        reveal_strlit("3");
        reveal_strlit("4");
        reveal_strlit("5");
        reveal_strlit("6");
        reveal_strlit("7");
        reveal_strlit("8");
        reveal_strlit("9");
    }
    let r = if d == 0 {
        "0"
    } else if d == 1 {
        "1"
    } else if d == 2 {
        "2"
    } else if d == 3 {
        "3"
    } else if d == 4 {
        "4"
    } else if d == 5 {
        "5"
    } else if d == 6 {
        "6"
    } else if d == 7 {
        "7"
    } else if d == 8 {
        "8"
    } else {
        "9"
    };
    assert(r@ =~= seq![digit_char(d as nat)]);
    r
}

/// Appends a natural number in decimal.
fn push_digits(out: &mut String, n: u64)
    ensures
        final(out)@ == old(out)@ + digits(n as nat),
    decreases n,
{
    if n >= 10 {
        push_digits(out, n / 10);
    }
    out.append(digit_str(n % 10));
    assert(out@ =~= old(out)@ + digits(n as nat));
}

/// Writes an exit code in decimal.
pub fn decimal_string(n: i32) -> (r: String)
    ensures
        r@ == decimal(n as int),
{
    let mut out = String::new();
    if n < 0 {
        proof {
            reveal_strlit("-");
        }
        out.append("-");
        assert(out@ =~= seq!['-']);
        let m: u64 = (-(n as i64)) as u64;
        push_digits(&mut out, m);
    } else {
        push_digits(&mut out, n as u64);
        assert(out@ =~= digits(n as nat));
    }
    out
}

impl ProcessError {
    /// The cause in words.
    pub open spec fn message_spec(self) -> Seq<char> {
        match self {
            ProcessError::LaunchFailed => "Failed to run the command"@,
            ProcessError::NonZeroExit(code) => "Command failed with exit code "@ + decimal(
                code as int,
            ),
        }
    }

    /// The cause in words.
    pub fn message(&self) -> (r: String)
        ensures
            r@ == self.message_spec(),
    {
        match self {
            ProcessError::LaunchFailed => String::from_str("Failed to run the command"),
            ProcessError::NonZeroExit(code) => {
                let mut r = String::from_str("Command failed with exit code ");
                let d = decimal_string(*code);
                r.append(d.as_str());
                r
            },
        }
    }
}

/// One line of a command's output as it is shown: the label, a colon and a
/// space, then the line.
pub fn label_line(label: &str, line: &str) -> (r: String)
    ensures
        r@ == label@ + ": "@ + line@,
{
    let mut r = String::from_str(label);
    r.append(": ");
    r.append(line);
    r
}

/// How much of a line that was read up to and with its line feed is text:
/// all but the line feed and a carriage return just before it.
pub open spec fn line_content_len(raw: Seq<u8>) -> int {
    let n = raw.len() as int;
    if n > 0 && raw[n - 1] == 10u8 {
        if n > 1 && raw[n - 2] == 13u8 {
            n - 2
        } else {
            n - 1
        }
    } else {
        n
    }
}

/// The length of a line without its line ending. A line that ends without
/// a line feed, as the last of a stream may, is text as a whole.
pub fn line_content(raw: &Vec<u8>) -> (n: usize)
    ensures
        n as int == line_content_len(raw@),
        n <= raw@.len(),
{
    let n = raw.len();
    if n > 0 && raw[n - 1] == 10u8 {
        if n > 1 && raw[n - 2] == 13u8 {
            n - 2
        } else {
            n - 1
        }
    } else {
        n
    }
}

} // verus!
