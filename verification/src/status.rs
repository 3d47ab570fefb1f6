//! Status codes of the backend protocol and the errors of this crate.

use vstd::prelude::*;
use vstd::string::StringExecFns;

verus! {

pub const SANE_STATUS_GOOD: u32 = 0;

pub const SANE_STATUS_UNSUPPORTED: u32 = 1;

pub const SANE_STATUS_CANCELLED: u32 = 2;

pub const SANE_STATUS_DEVICE_BUSY: u32 = 3;

pub const SANE_STATUS_INVAL: u32 = 4;

pub const SANE_STATUS_EOF: u32 = 5;

pub const SANE_STATUS_JAMMED: u32 = 6;

pub const SANE_STATUS_NO_DOCS: u32 = 7;

pub const SANE_STATUS_COVER_OPEN: u32 = 8;

pub const SANE_STATUS_IO_ERROR: u32 = 9;

pub const SANE_STATUS_NO_MEM: u32 = 10;

pub const SANE_STATUS_ACCESS_DENIED: u32 = 11;

/// What a status code means. A code that the protocol does not define is kept
/// as it came.
#[derive(Clone, Copy, Debug, PartialEq, Eq, Structural)]
pub enum Status {
    Good,
    Unsupported,
    Cancelled,
    DeviceBusy,
    Invalid,
    Eof,
    Jammed,
    NoDocs,
    CoverOpen,
    IoError,
    NoMem,
    AccessDenied,
    Other(u32),
}

impl Status {
    /// The meaning of a raw status code.
    pub open spec fn of(code: u32) -> Status {
        if code == 0 {
            Status::Good
        } else if code == 1 {
            Status::Unsupported
        } else if code == 2 {
            Status::Cancelled
        } else if code == 3 {
            Status::DeviceBusy
        } else if code == 4 {
            Status::Invalid
        } else if code == 5 {
            Status::Eof
        } else if code == 6 {
            Status::Jammed
        } else if code == 7 {
            Status::NoDocs
        } else if code == 8 {
            Status::CoverOpen
        } else if code == 9 {
            Status::IoError
        } else if code == 10 {
            Status::NoMem
        } else if code == 11 {
            Status::AccessDenied
        } else {
            Status::Other(code)
        }
    }

    /// The raw code that stands for this status.
    pub open spec fn raw(self) -> u32 {
        match self {
            Status::Good => 0,
            Status::Unsupported => 1,
            Status::Cancelled => 2,
            Status::DeviceBusy => 3,
            Status::Invalid => 4,
            Status::Eof => 5,
            Status::Jammed => 6,
            Status::NoDocs => 7,
            Status::CoverOpen => 8,
            Status::IoError => 9,
            Status::NoMem => 10,
            Status::AccessDenied => 11,
            Status::Other(code) => code,
        }
    }

    pub fn from_code(code: u32) -> (status: Status)
        ensures
            status == Status::of(code),
    {
        match code {
            0 => Status::Good,
            1 => Status::Unsupported,
            2 => Status::Cancelled,
            3 => Status::DeviceBusy,
            4 => Status::Invalid,
            5 => Status::Eof,
            6 => Status::Jammed,
            7 => Status::NoDocs,
            8 => Status::CoverOpen,
            9 => Status::IoError,
            10 => Status::NoMem,
            11 => Status::AccessDenied,
            _ => Status::Other(code),
        }
    }

    pub fn code(self) -> (code: u32)
        ensures
            code == self.raw(),
    {
        match self {
            Status::Good => 0,
            Status::Unsupported => 1,
            Status::Cancelled => 2,
            Status::DeviceBusy => 3,
            Status::Invalid => 4,
            Status::Eof => 5,
            Status::Jammed => 6,
            Status::NoDocs => 7,
            Status::CoverOpen => 8,
            Status::IoError => 9,
            Status::NoMem => 10,
            Status::AccessDenied => 11,
            Status::Other(code) => code,
        }
    }
}

/// Every raw code comes back from its meaning, so two different codes never
/// share a meaning.
pub proof fn lemma_status_keeps_code(code: u32)
    ensures
        Status::of(code).raw() == code,
{
}

/// Why an operation of this crate failed.
#[derive(Clone, Copy, Debug, PartialEq, Eq, Structural)]
pub enum Error {
    /// The backend answered with this status, which is not success.
    Status(u32),
    /// An accessor was used on an option of another type or constraint kind.
    WrongType,
    /// A string value, with its terminator, does not fit the option's buffer.
    TooLong,
    /// The backend broke the protocol: a stream that ended early or ran over,
    /// or an option table that does not start with its count.
    Protocol,
    /// The frame format and bit depth are not among those that can be
    /// assembled.
    Unsupported,
    /// A size is negative, does not fit in memory, or does not match the bytes
    /// at hand.
    BadLength,
    /// A device name holds a zero byte, which no backend name can.
    BadName,
}

impl Error {
    /// Whether this error is the backend's end-of-data status.
    pub fn is_eof(self) -> (eof: bool)
        ensures
            eof == (self == Error::Status(SANE_STATUS_EOF)),
    {
        match self {
            Error::Status(code) => code == SANE_STATUS_EOF,
            _ => false,
        }
    }

    /// The text that is shown for this error.
    pub fn message(self) -> (text: String)
        ensures
            text@ == error_text(self),
    {
        match self {
            Error::Status(code) => status_message(code),
            Error::WrongType => String::from_str("Expected another type here"),
            Error::TooLong => String::from_str("Value does not fit the option"),
            Error::Protocol => String::from_str("Backend broke the protocol"),
            Error::Unsupported => String::from_str("Unsupported frame format or depth"),
            Error::BadLength => String::from_str("Image size and data do not match"),
            Error::BadName => String::from_str("Device name holds a zero byte"),
        }
    }
}

/// The character that stands for a digit below ten.
pub open spec fn digit_char(d: nat) -> char {
    if d == 0 {
        '0'
    } else if d == 1 {
        '1'
    } else if d == 2 {
        '2'
    } else if d == 3 {
        '3'
    } else if d == 4 {
        '4'
    } else if d == 5 {
        '5'
    } else if d == 6 {
        '6'
    } else if d == 7 {
        '7'
    } else if d == 8 {
        '8'
    } else {
        '9'
    }
}

/// A number in decimal digits, without sign or leading zeros.
pub open spec fn decimal(n: nat) -> Seq<char>
    decreases n,
{
    if n < 10 {
        seq![digit_char(n)]
    } else {
        decimal(n / 10).push(digit_char(n % 10))
    }
}

fn digit_text(d: u32) -> (text: &'static str)
    requires
        d < 10,
    ensures
        text@ == seq![digit_char(d as nat)],
{
    proof {
        reveal_strlit("0");
        reveal_strlit("1");
        reveal_strlit("2");
        reveal_strlit("3");
        reveal_strlit("4");
        reveal_strlit("5");
        reveal_strlit("6");
        reveal_strlit("7");
        reveal_strlit("8");
        reveal_strlit("9");
    }
    let text = match d {
        0 => "0",
        1 => "1",
        2 => "2",
        3 => "3",
        4 => "4",
        5 => "5",
        6 => "6",
        7 => "7",
        8 => "8",
        _ => "9",
    };
    assert(text@ =~= seq![digit_char(d as nat)]);
    text
}

/// The decimal digits of `n` as text.
pub fn decimal_text(n: u32) -> (text: String)
    ensures
        text@ == decimal(n as nat),
    decreases n,
{
    if n < 10 {
        String::from_str(digit_text(n))
    } else {
        let mut text = decimal_text(n / 10);
        text.append(digit_text(n % 10));
        assert(text@ =~= decimal((n / 10) as nat).push(digit_char((n % 10) as nat)));
        text
    }
}

/// The text that is shown for a status code.
pub open spec fn status_text(code: u32) -> Seq<char> {
    match Status::of(code) {
        Status::Good => "No error"@,
        Status::Unsupported => "Unsupported"@,
        Status::Cancelled => "Cancelled"@,
        Status::DeviceBusy => "Device busy"@,
        Status::Invalid => "Invalid value"@,
        Status::Eof => "End of file"@,
        Status::Jammed => "Document feeder is jammed"@,
        Status::NoDocs => "Document feed is empty"@,
        Status::CoverOpen => "Cover is open"@,
        Status::IoError => "Device IO failed"@,
        Status::NoMem => "Not enough memory available"@,
        Status::AccessDenied => "Access denied"@,
        Status::Other(raw) => "UNKNOWN ERROR: "@ + decimal(raw as nat),
    }
}

/// The text that is shown for an error.
pub open spec fn error_text(e: Error) -> Seq<char> {
    match e {
        Error::Status(code) => status_text(code),
        Error::WrongType => "Expected another type here"@,
        Error::TooLong => "Value does not fit the option"@,
        Error::Protocol => "Backend broke the protocol"@,
        Error::Unsupported => "Unsupported frame format or depth"@,
        Error::BadLength => "Image size and data do not match"@,
        Error::BadName => "Device name holds a zero byte"@,
    }
}

/// The text that is shown for a status code: a fixed message for each code of
/// the protocol, and the number itself for any other.
pub fn status_message(code: u32) -> (text: String)
    ensures
        text@ == status_text(code),
{
    match Status::from_code(code) {
        Status::Good => String::from_str("No error"),
        Status::Unsupported => String::from_str("Unsupported"),
        Status::Cancelled => String::from_str("Cancelled"),
        Status::DeviceBusy => String::from_str("Device busy"),
        Status::Invalid => String::from_str("Invalid value"),
        Status::Eof => String::from_str("End of file"),
        Status::Jammed => String::from_str("Document feeder is jammed"),
        Status::NoDocs => String::from_str("Document feed is empty"),
        Status::CoverOpen => String::from_str("Cover is open"),
        Status::IoError => String::from_str("Device IO failed"),
        Status::NoMem => String::from_str("Not enough memory available"),
        Status::AccessDenied => String::from_str("Access denied"),
        Status::Other(raw) => {
            let mut text = String::from_str("UNKNOWN ERROR: ");
            let digits = decimal_text(raw);
            text.append(digits.as_str());
            text
        },
    }
}

/// Runs `f` and turns the status it returns into a result: success for
/// `SANE_STATUS_GOOD`, the status as an error for any other.
pub fn checked<F: FnOnce() -> u32>(f: F) -> (r: Result<(), Error>)
    requires
        f.requires(()),
    ensures
        r is Ok ==> f.ensures((), SANE_STATUS_GOOD),
        r matches Err(e) ==> e matches Error::Status(code) && code != SANE_STATUS_GOOD
            && f.ensures((), code),
{
    let status = f();
    status_result(status)
}

/// The result that a status stands for.
pub open spec fn result_of(status: u32) -> Result<(), Error> {
    if status == SANE_STATUS_GOOD {
        Ok(())
    } else {
        Err(Error::Status(status))
    }
}

/// Success for `SANE_STATUS_GOOD`, the status as an error for any other.
pub fn status_result(status: u32) -> (r: Result<(), Error>)
    ensures
        r == result_of(status),
{
    if status != SANE_STATUS_GOOD {
        Err(Error::Status(status))
    } else {
        Ok(())
    }
}

} // verus!
