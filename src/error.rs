use vstd::prelude::*;

verus! {

/// The labelled failures that a `dns query` invocation can report.
#[derive(Clone, Copy, Debug, PartialEq, Eq, Structural)]
pub enum ErrorKind {
    NoSuchCommand,
    AmbiguousInput,
    InvalidName,
    NameParse,
    InvalidInputType,
    InvalidServerAddress,
    InvalidServerAddressInput,
    InvalidProtocol,
    InvalidRecordType,
    InvalidClass,
    InvalidDnssecMode,
    Connection,
    DnsResponse,
}

/// A request-scoped error: a kind, which fixes the label, and a message.
#[derive(Clone, Debug)]
pub struct DnsError {
    pub kind: ErrorKind,
    pub msg: String,
}

/// The label of each kind of error.
pub open spec fn label_of(k: ErrorKind) -> Seq<char> {
    match k {
        ErrorKind::NoSuchCommand => "NoSuchCommandError"@,
        ErrorKind::AmbiguousInput => "AmbiguousInputError"@,
        ErrorKind::InvalidName => "InvalidNameError"@,
        ErrorKind::NameParse => "NameParseError"@,
        ErrorKind::InvalidInputType => "InvalidInputTypeError"@,
        ErrorKind::InvalidServerAddress => "InvalidServerAddress"@,
        ErrorKind::InvalidServerAddressInput => "InvalidServerAddressInputError"@,
        ErrorKind::InvalidProtocol => "InvalidProtocolError"@,
        ErrorKind::InvalidRecordType => "InvalidRecordTypeError"@,
        ErrorKind::InvalidClass => "InvalidClassError"@,
        ErrorKind::InvalidDnssecMode => "InvalidDnssecModeError"@,
        ErrorKind::Connection => "ConnectionError"@,
        ErrorKind::DnsResponse => "DNSResponseError"@,
    }
}

impl ErrorKind {
    /// The label under which the host reports this kind of error.
    pub fn label(&self) -> (r: &'static str)
        ensures
            r@ == label_of(*self),
    {
        match self {
            ErrorKind::NoSuchCommand => "NoSuchCommandError",
            ErrorKind::AmbiguousInput => "AmbiguousInputError",
            ErrorKind::InvalidName => "InvalidNameError",
            ErrorKind::NameParse => "NameParseError",
            ErrorKind::InvalidInputType => "InvalidInputTypeError",
            ErrorKind::InvalidServerAddress => "InvalidServerAddress",
            ErrorKind::InvalidServerAddressInput => "InvalidServerAddressInputError",
            ErrorKind::InvalidProtocol => "InvalidProtocolError",
            ErrorKind::InvalidRecordType => "InvalidRecordTypeError",
            ErrorKind::InvalidClass => "InvalidClassError",
            ErrorKind::InvalidDnssecMode => "InvalidDnssecModeError",
            ErrorKind::Connection => "ConnectionError",
            ErrorKind::DnsResponse => "DNSResponseError",
        }
    }
}

impl DnsError {
    pub fn new(kind: ErrorKind, msg: String) -> (r: DnsError)
        ensures
            r.kind == kind,
            r.msg@ == msg@,
    {
        DnsError { kind, msg }
    }
}

} // verus!
