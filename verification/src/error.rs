//! Errors reported while decoding or building PFCP messages.
use crate::ie::ie_type::{ie_type_name, IeType};
use crate::message::{msg_type_name, MsgType};
use vstd::prelude::*;
use vstd::string::StringExecFns;

verus! {

/// Which value a `PfcpError::InvalidValue` is about.
#[derive(Debug, Clone, Copy, PartialEq, Eq)]
pub enum InvalidField {
    /// A message type code given for a message of unknown type is in fact known.
    MessageType,
    /// The Node ID type octet is not 0 (IPv4), 1 (IPv6) or 2 (FQDN).
    NodeIdType,
    /// An FQDN is not valid UTF-8.
    Fqdn,
    /// The PDN type is not one of the defined values 1 to 5.
    PdnType,
    /// An application identifier is not valid UTF-8.
    ApplicationId,
}

/// The broad class of an error.
#[derive(Debug, Clone, Copy, PartialEq, Eq)]
pub enum ErrorKind {
    /// The input bytes do not form what was asked for.
    InvalidData,
    /// A value given by the caller is not acceptable.
    InvalidInput,
}

/// An error from decoding or building PFCP data.
#[allow(inconsistent_fields)]
#[derive(Debug, Clone, PartialEq, Eq)]
pub enum PfcpError {
    /// The message header is cut short: `expected` bytes are needed, `actual` are present.
    MessageParseError { message_type: Option<MsgType>, expected: usize, actual: usize },
    /// An Information Element is cut short: `expected` bytes are needed, `actual` are present.
    InvalidLength { ie_type: Option<IeType>, expected: usize, actual: usize },
    /// A message lacks an IE that it must carry.
    MissingMandatoryIe { ie_type: IeType, message_type: Option<MsgType> },
    /// A value is out of its allowed range.
    InvalidValue { field: InvalidField },
    /// A message carries an IE twice that it may carry once.
    DuplicateIe { ie_type: IeType, message_type: Option<MsgType> },
}

/// The character of a decimal digit.
pub open spec fn digit_char(d: nat) -> char {
    if d == 0 {
        '0'
    } else if d == 1 {
        '1'
    } else if d == 2 {
        '2'
    } else if d == 3 {
        '3'
    } else if d == 4 {
        '4'
    } else if d == 5 {
        '5'
    } else if d == 6 {
        '6'
    } else if d == 7 {
        '7'
    } else if d == 8 {
        '8'
    } else {
        '9'
    }
}

/// The decimal digits of `n`, most significant first, without leading zeros.
pub open spec fn decimal(n: nat) -> Seq<char>
    decreases n,
{
    if n < 10 {
        seq![digit_char(n)]
    } else {
        decimal(n / 10).push(digit_char(n % 10))
    }
}

/// The one-character string of a decimal digit.
fn digit_str(d: usize) -> (r: &'static str)
    requires
        d < 10,
    ensures
        r@ == seq![digit_char(d as nat)],
{
    if d == 0 {
        proof { reveal_strlit("0"); }
        "0"
    } else if d == 1 {
        proof { reveal_strlit("1"); }
        "1"
    } else if d == 2 {
        proof { reveal_strlit("2"); }
        "2"
    } else if d == 3 {
        proof { reveal_strlit("3"); }
        "3"
    } else if d == 4 {
        proof { reveal_strlit("4"); }
        "4"
    } else if d == 5 {
        proof { reveal_strlit("5"); }
        "5"
    } else if d == 6 {
        proof { reveal_strlit("6"); }
        "6"
    } else if d == 7 {
        proof { reveal_strlit("7"); }
        "7"
    } else if d == 8 {
        proof { reveal_strlit("8"); }
        "8"
    } else {
        proof { reveal_strlit("9"); }
        "9"
    }
}

/// Appends the decimal digits of `n` to `s`.
pub fn push_decimal(s: &mut String, n: usize)
    ensures
        final(s)@ == old(s)@ + decimal(n as nat),
    decreases n,
{
    if n < 10 {
        s.append(digit_str(n));
    } else {
        push_decimal(s, n / 10);
        s.append(digit_str(n % 10));
        assert(final(s)@ =~= old(s)@ + decimal(n as nat)) by {
            assert(decimal(n as nat) == decimal((n / 10) as nat).push(digit_char((n % 10) as nat)));
        }
    }
}

/// The name of the value an `InvalidValue` error is about.
pub open spec fn field_name(f: InvalidField) -> Seq<char> {
    match f {
        InvalidField::MessageType => "PFCP message type"@,
        InvalidField::NodeIdType => "Node ID type"@,
        InvalidField::Fqdn => "FQDN"@,
        InvalidField::PdnType => "PDN type"@,
        InvalidField::ApplicationId => "Application ID"@,
    }
}

/// The text of an error.
pub open spec fn error_text(e: PfcpError) -> Seq<char> {
    match e {
        PfcpError::MessageParseError { message_type, expected, actual } => "Failed to parse "@ + (match message_type {
            Some(t) => msg_type_name(t),
            None => "message"@,
        }) + ": expected at least "@ + decimal(expected as nat) + " bytes, got "@ + decimal(actual as nat),
        PfcpError::InvalidLength { ie_type, expected, actual } => "Invalid length for "@ + (match ie_type {
            Some(t) => ie_type_name(t),
            None => "IE"@,
        }) + ": expected "@ + decimal(expected as nat) + " bytes, got "@ + decimal(actual as nat),
        PfcpError::MissingMandatoryIe { ie_type, message_type } => "Missing mandatory IE "@ + ie_type_name(ie_type) + (
        match message_type {
            Some(t) => " in "@ + msg_type_name(t),
            None => Seq::<char>::empty(),
        }),
        PfcpError::InvalidValue { field } => "Invalid value for "@ + field_name(field),
        PfcpError::DuplicateIe { ie_type, message_type } => "Duplicate IE "@ + ie_type_name(ie_type) + (
        match message_type {
            Some(t) => " in "@ + msg_type_name(t),
            None => Seq::<char>::empty(),
        }),
    }
}

impl InvalidField {
    /// The name of the value.
    pub fn name(&self) -> (r: &'static str)
        ensures
            r@ == field_name(*self),
    {
        match self {
            InvalidField::MessageType => "PFCP message type",
            InvalidField::NodeIdType => "Node ID type",
            InvalidField::Fqdn => "FQDN",
            InvalidField::PdnType => "PDN type",
            InvalidField::ApplicationId => "Application ID",
        }
    }
}

impl PfcpError {
    /// The text of the error.
    pub fn to_string(&self) -> (r: String)
        ensures
            r@ == error_text(*self),
    {
        match self {
            PfcpError::MessageParseError { message_type, expected, actual } => {
                let mut s = String::from_str("Failed to parse ");
                match message_type {
                    Some(t) => s.append(t.name()),
                    None => s.append("message"),
                }
                s.append(": expected at least ");
                push_decimal(&mut s, *expected);
                s.append(" bytes, got ");
                push_decimal(&mut s, *actual);
                s
            },
            PfcpError::InvalidLength { ie_type, expected, actual } => {
                let mut s = String::from_str("Invalid length for ");
                match ie_type {
                    Some(t) => s.append(t.name()),
                    None => s.append("IE"),
                }
                s.append(": expected ");
                push_decimal(&mut s, *expected);
                s.append(" bytes, got ");
                push_decimal(&mut s, *actual);
                s
            },
            PfcpError::MissingMandatoryIe { ie_type, message_type } => {
                let mut s = String::from_str("Missing mandatory IE ");
                s.append(ie_type.name());
                match message_type {
                    Some(t) => {
                        let mut tail = String::from_str(" in ");
                        tail.append(t.name());
                        s.append(tail.as_str());
                    },
                    None => {
                        assert(s@ + Seq::<char>::empty() =~= s@);
                    },
                }
                s
            },
            PfcpError::InvalidValue { field } => {
                let mut s = String::from_str("Invalid value for ");
                s.append(field.name());
                s
            },
            PfcpError::DuplicateIe { ie_type, message_type } => {
                let mut s = String::from_str("Duplicate IE ");
                s.append(ie_type.name());
                match message_type {
                    Some(t) => {
                        let mut tail = String::from_str(" in ");
                        tail.append(t.name());
                        s.append(tail.as_str());
                    },
                    None => {
                        assert(s@ + Seq::<char>::empty() =~= s@);
                    },
                }
                s
            },
        }
    }

    /// The broad class of this error.
    pub fn kind(&self) -> (r: ErrorKind)
        ensures
            r == (match self {
                PfcpError::InvalidValue { field: InvalidField::MessageType } => ErrorKind::InvalidInput,
                _ => ErrorKind::InvalidData,
            }),
    {
        match self {
            PfcpError::InvalidValue { field: InvalidField::MessageType } => ErrorKind::InvalidInput,
            _ => ErrorKind::InvalidData,
        }
    }
}

} // verus!
