use vstd::prelude::*;
use vstd::string::StringExecFns;

verus! {

/// The character of a decimal digit.
pub open spec fn digit_char(d: nat) -> char {
    if d == 0 {
        '0'
    } else if d == 1 {
        '1'
    } else if d == 2 {
        '2'
    } else if d == 3 {
        '3'
    } else if d == 4 {
        '4'
    } else if d == 5 {
        '5'
    } else if d == 6 {
        '6'
    } else if d == 7 {
        '7'
    } else if d == 8 {
        '8'
    } else {
        '9'
    }
}

/// The decimal digits of a natural number, most significant first.
pub open spec fn decimal_digits(n: nat) -> Seq<char>
    decreases n,
{
    if n < 10 {
        seq![digit_char(n)]
    } else {
        decimal_digits(n / 10).push(digit_char(n % 10))
    }
}

/// The decimal text of an integer, with a leading `-` when negative.
pub open spec fn decimal(n: int) -> Seq<char> {
    if n < 0 {
        seq!['-'] + decimal_digits((-n) as nat)
    } else {
        decimal_digits(n as nat)
    }
}

/// Failures surfaced to callers of the session commands.
#[derive(Debug, Clone, PartialEq, Eq)]
pub enum Error {
    /// A failure of the snapshot builder or the diff computation, by its message.
    Diff(String),
    /// A navigation query was issued while no diff has been computed.
    NoDiffValue,
    /// The session lock could not be taken; holds the lock's own message.
    Lock(String),
    /// A failure of the host windowing platform, by its message.
    Tauri(String),
    /// An I/O failure, by its message.
    Io(String),
    /// An external program ended with a failing exit status.
    ExitStatus { executable: String, status: i32 },
}

/// The serializable form of an [`Error`]: its kind and its message.
#[derive(Debug, Clone, PartialEq, Eq)]
pub enum ErrorKind {
    Diff(String),
    Lock(String),
    Tauri(String),
    NoDiffValue(String),
    Io(String),
    ExitStatus(String),
}

pub open spec fn no_diff_value_text() -> Seq<char> {
    "No diff value in app state, please invoke `diff` command first"@
}

pub open spec fn lock_prefix_text() -> Seq<char> {
    "Failed to lock Mutex: "@
}

pub open spec fn exit_status_infix_text() -> Seq<char> {
    " exit status: "@
}

impl Error {
    /// The human-readable message of this error.
    pub open spec fn text(&self) -> Seq<char> {
        match self {
            Error::Diff(m) => m@,
            Error::NoDiffValue => no_diff_value_text(),
            Error::Lock(m) => lock_prefix_text() + m@,
            Error::Tauri(m) => m@,
            Error::Io(m) => m@,
            Error::ExitStatus { executable, status } => executable@ + exit_status_infix_text()
                + decimal(*status as int),
        }
    }

    /// Renders the human-readable message of this error.
    pub fn message(&self) -> (r: String)
        ensures
            r@ == self.text(),
    {
        match self {
            Error::Diff(m) => m.clone(),
            Error::NoDiffValue => {
                let r = String::from_str(
                    "No diff value in app state, please invoke `diff` command first",
                );
                r
            },
            Error::Lock(m) => {
                let mut r = String::from_str("Failed to lock Mutex: ");
                r.append(m.as_str());
                r
            },
            Error::Tauri(m) => m.clone(),
            Error::Io(m) => m.clone(),
            Error::ExitStatus { executable, status } => {
                let mut r = executable.clone();
                r.append(" exit status: ");
                push_decimal(&mut r, *status);
                r
            },
        }
    }

    /// The kind of this error, carrying its message.
    pub fn kind(&self) -> (r: ErrorKind)
        ensures
            r.message_text() == self.text(),
            (self is Diff) <==> (r is Diff),
            (self is NoDiffValue) <==> (r is NoDiffValue),
            (self is Lock) <==> (r is Lock),
            (self is Tauri) <==> (r is Tauri),
            (self is Io) <==> (r is Io),
            (self is ExitStatus) <==> (r is ExitStatus),
    {
        let m = self.message();
        match self {
            Error::Diff(_) => ErrorKind::Diff(m),
            Error::NoDiffValue => ErrorKind::NoDiffValue(m),
            Error::Lock(_) => ErrorKind::Lock(m),
            Error::Tauri(_) => ErrorKind::Tauri(m),
            Error::Io(_) => ErrorKind::Io(m),
            Error::ExitStatus { .. } => ErrorKind::ExitStatus(m),
        }
    }
}

impl ErrorKind {
    /// The message carried by this kind.
    pub open spec fn message_text(&self) -> Seq<char> {
        match self {
            ErrorKind::Diff(m) => m@,
            ErrorKind::Lock(m) => m@,
            ErrorKind::Tauri(m) => m@,
            ErrorKind::NoDiffValue(m) => m@,
            ErrorKind::Io(m) => m@,
            ErrorKind::ExitStatus(m) => m@,
        }
    }

    /// The message carried by this kind.
    pub fn message(&self) -> (r: String)
        ensures
            r@ == self.message_text(),
    {
        match self {
            ErrorKind::Diff(m) => m.clone(),
            ErrorKind::Lock(m) => m.clone(),
            ErrorKind::Tauri(m) => m.clone(),
            ErrorKind::NoDiffValue(m) => m.clone(),
            ErrorKind::Io(m) => m.clone(),
            ErrorKind::ExitStatus(m) => m.clone(),
        }
    }
}

fn digit_str(d: u32) -> (r: &'static str)
    requires
        d < 10,
    ensures
        r@ == seq![digit_char(d as nat)],
{
    if d == 0 {
        proof { reveal_strlit("0"); }
        "0"
    } else if d == 1 {
        proof { reveal_strlit("1"); }
        "1"
    } else if d == 2 {
        proof { reveal_strlit("2"); }
        "2"
    } else if d == 3 {
        proof { reveal_strlit("3"); }
        "3"
    } else if d == 4 {
        proof { reveal_strlit("4"); }
        "4"
    } else if d == 5 {
        proof { reveal_strlit("5"); }
        "5"
    } else if d == 6 {
        proof { reveal_strlit("6"); }
        "6"
    } else if d == 7 {
        proof { reveal_strlit("7"); }
        "7"
    } else if d == 8 {
        proof { reveal_strlit("8"); }
        "8"
    } else {
        proof { reveal_strlit("9"); }
        "9"
    }
}

fn push_digits(out: &mut String, n: u32)
    ensures
        final(out)@ == old(out)@ + decimal_digits(n as nat),
    decreases n,
{
    if n < 10 {
        out.append(digit_str(n));
    } else {
        push_digits(out, n / 10);
        out.append(digit_str(n % 10));
        assert(decimal_digits(n as nat) == decimal_digits((n / 10) as nat).push(
            digit_char((n % 10) as nat),
        ));
    }
}

/// Appends the decimal text of `n` to `out`.
fn push_decimal(out: &mut String, n: i32)
    ensures
        final(out)@ == old(out)@ + decimal(n as int),
{
    if n < 0 {
        proof { reveal_strlit("-"); }
        out.append("-");
        let m: u32 = (-(n as i64)) as u32;
        push_digits(out, m);
    } else {
        push_digits(out, n as u32);
    }
}

} // verus!
