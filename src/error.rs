use vstd::prelude::*;
use vstd::string::StringExecFns;

verus! {

/// The command-line argument that an error is about.
#[derive(Clone, Copy, Debug, PartialEq, Eq, Structural)]
pub enum Argument {
    Timestamp,
    Namespace,
    Name,
    NodeId,
    Data,
}

/// Why a textual argument could not be turned into a value.
#[derive(Clone, Copy, Debug, PartialEq, Eq, Structural)]
pub enum ParseError {
    /// The text is shorter or longer than the argument allows; `length` is its length in bytes.
    InvalidLength { argument: Argument, length: usize },
    /// The text holds a character that the argument does not allow.
    InvalidFormat { argument: Argument },
    /// The text is well formed but its value does not fit.
    OutOfRange { argument: Argument },
}


pub open spec fn digit_char(d: nat) -> char {
    seq!['0', '1', '2', '3', '4', '5', '6', '7', '8', '9'][d as int]
}

/// The decimal digits of a number, without sign or leading zeros.
pub open spec fn decimal(n: nat) -> Seq<char>
    decreases n,
{
    if n < 10 {
        seq![digit_char(n)]
    } else {
        decimal(n / 10).push(digit_char(n % 10))
    }
}

fn push_digit(s: &mut String, d: usize)
    requires
        d < 10,
    ensures
        final(s)@ == old(s)@.push(digit_char(d as nat)),
{
    let lit = match d {
        0 => "0",
        1 => "1",
        2 => "2",
        3 => "3",
        4 => "4",
        5 => "5",
        6 => "6",
        7 => "7",
        8 => "8",
        _ => "9",
    };
    proof {
        reveal_strlit("0");
        reveal_strlit("1");
        reveal_strlit("2");
        reveal_strlit("3");
        reveal_strlit("4");
        reveal_strlit("5");
        reveal_strlit("6");
        reveal_strlit("7");
        reveal_strlit("8");
        reveal_strlit("9");
    }
    assert(lit@ =~= seq![digit_char(d as nat)]);
    s.append(lit);
}

/// Appends the decimal digits of `n`.
pub(crate) fn push_decimal(s: &mut String, n: usize)
    ensures
        final(s)@ == old(s)@ + decimal(n as nat),
    decreases n,
{
    if n < 10 {
        push_digit(s, n);
        assert(final(s)@ =~= old(s)@ + decimal(n as nat));
    } else {
        push_decimal(s, n / 10);
        push_digit(s, n % 10);
        assert(final(s)@ =~= old(s)@ + decimal(n as nat));
    }
}

impl Argument {
    /// The argument's name on the command line.
    pub open spec fn spec_name(self) -> Seq<char> {
        match self {
            Argument::Timestamp => "timestamp"@,
            Argument::Namespace => "namespace"@,
            Argument::Name => "name"@,
            Argument::NodeId => "node-id"@,
            Argument::Data => "data"@,
        }
    }

    pub(crate) fn push_name(self, s: &mut String)
        ensures
            final(s)@ == old(s)@ + self.spec_name(),
    {
        let lit = match self {
            Argument::Timestamp => "timestamp",
            Argument::Namespace => "namespace",
            Argument::Name => "name",
            Argument::NodeId => "node-id",
            Argument::Data => "data",
        };
        s.append(lit);
    }
}

impl ParseError {
    /// The diagnostic for this error: it names the argument and what it must be.
    pub open spec fn spec_message(self) -> Seq<char> {
        match self {
            ParseError::InvalidLength { argument, length } => match argument {
                Argument::Timestamp => "timestamp length must be between 1 and 29 digits, got "@
                    + decimal(length as nat),
                Argument::Data => "data length must be between 1 and 32 characters, got "@
                    + decimal(length as nat),
                _ => argument.spec_name() + " has an invalid length, got "@ + decimal(length as nat),
            },
            ParseError::InvalidFormat { argument } => match argument {
                Argument::Timestamp => "timestamp must contain only digits"@,
                Argument::Data => "data must contain only hex characters"@,
                _ => argument.spec_name() + " has an invalid format"@,
            },
            ParseError::OutOfRange { argument } => match argument {
                Argument::Timestamp =>
                    "timestamp must be a valid non-negative integer between 0 and 18446744073709551615999999999"@,
                _ => argument.spec_name() + " is out of range"@,
            },
        }
    }

    /// The diagnostic for this error: it names the argument and what it must be.
    pub fn message(&self) -> (r: String)
        ensures
            r@ == self.spec_message(),
    {
        let mut s = String::new();
        match *self {
            ParseError::InvalidLength { argument, length } => {
                match argument {
                    Argument::Timestamp => s.append(
                        "timestamp length must be between 1 and 29 digits, got ",
                    ),
                    Argument::Data => s.append("data length must be between 1 and 32 characters, got "),
                    _ => {
                        argument.push_name(&mut s);
                        s.append(" has an invalid length, got ");
                    },
                }
                push_decimal(&mut s, length);
            },
            ParseError::InvalidFormat { argument } => match argument {
                Argument::Timestamp => s.append("timestamp must contain only digits"),
                Argument::Data => s.append("data must contain only hex characters"),
                _ => {
                    argument.push_name(&mut s);
                    s.append(" has an invalid format");
                },
            },
            ParseError::OutOfRange { argument } => match argument {
                Argument::Timestamp => s.append(
                    "timestamp must be a valid non-negative integer between 0 and 18446744073709551615999999999",
                ),
                _ => {
                    argument.push_name(&mut s);
                    s.append(" is out of range");
                },
            },
        }
        assert(s@ =~= self.spec_message());
        s
    }
}

} // verus!
