use vstd::prelude::*;
use crate::error::{DnsError, ErrorKind};
use crate::server::{eq_ignore_case, str_eq_ignore_case, transport_of, parse_transport, Transport};

verus! {

/// Record type code of A.
pub const TYPE_A: u16 = 1;

/// Record type code of AAAA.
pub const TYPE_AAAA: u16 = 28;

/// Class code of IN.
pub const CLASS_IN: u16 = 1;

/// A flag's value as the host hands it over.
#[derive(Clone, Debug)]
pub enum FlagValue {
    Absent,
    Str(String),
    List(Vec<String>),
    /// A value of any other kind.
    Other,
}

/// How strictly responses are validated.
#[derive(Clone, Copy, Debug, PartialEq, Eq, Structural)]
pub enum DnssecMode {
    Strict,
    Opportunistic,
    Disabled,
}

/// The characters that a record type mnemonic may hold: ASCII letters and
/// digits.
pub open spec fn mnemonic_char(c: char) -> bool {
    ('0' <= c <= '9') || ('a' <= c <= 'z') || ('A' <= c <= 'Z')
}

pub open spec fn all_mnemonic_chars(s: Seq<char>) -> bool {
    forall|i: int| 0 <= i < s.len() ==> mnemonic_char(#[trigger] s[i])
}

pub open spec fn all_upper_chars(s: Seq<char>) -> bool {
    forall|i: int| 0 <= i < s.len() ==> 'A' <= #[trigger] s[i] <= 'Z'
}

/// The record type code that the DNS library reads from a mnemonic.
pub uninterp spec fn record_type_of(s: Seq<char>) -> Option<u16>;

/// Relies on trust_dns_proto's `RecordType::from_str` and its conversion to
/// the numeric code; the call asserts (in debug builds) that every character
/// is a base-36 digit.
#[verifier::external_body]
fn record_type_code(s: &str) -> (r: Option<u16>)
    requires
        all_mnemonic_chars(s@),
    ensures
        r == record_type_of(s@),
{
    <trust_dns_proto::rr::RecordType as std::str::FromStr>::from_str(s).ok().map(u16::from)
}

/// The class codes that the DNS library reads from a mnemonic.
pub open spec fn class_of(s: Seq<char>) -> Option<u16> {
    if s == "IN"@ {
        Some(1u16)
    } else if s == "CH"@ {
        Some(3u16)
    } else if s == "HS"@ {
        Some(4u16)
    } else if s == "NONE"@ {
        Some(254u16)
    } else if s == "ANY"@ {
        Some(255u16)
    } else {
        None
    }
}

/// Relies on trust_dns_proto's `DNSClass::from_str` and its conversion to
/// the numeric code: IN 1, CH 3, HS 4, NONE 254, ANY 255; the call asserts
/// (in debug builds) that every character is an ASCII capital.
#[verifier::external_body]
fn class_code(s: &str) -> (r: Option<u16>)
    requires
        all_upper_chars(s@),
    ensures
        r == class_of(s@),
{
    <trust_dns_proto::rr::DNSClass as std::str::FromStr>::from_str(s).ok().map(u16::from)
}

/// Whether every character is an ASCII capital (`upper_only`), or an
/// ASCII letter or digit.
fn check_chars(s: &str, upper_only: bool) -> (r: bool)
    ensures
        upper_only ==> r == all_upper_chars(s@),
        !upper_only ==> r == all_mnemonic_chars(s@),
{
    let n = s.unicode_len();
    let mut i: usize = 0;
    while i < n
        invariant
            n == s@.len(),
            i <= n,
            upper_only ==> forall|j: int| 0 <= j < i ==> 'A' <= #[trigger] s@[j] <= 'Z',
            !upper_only ==> forall|j: int| 0 <= j < i ==> mnemonic_char(#[trigger] s@[j]),
        decreases n - i,
    {
        let c = s.get_char(i);
        let ok = if upper_only {
            'A' <= c && c <= 'Z'
        } else {
            ('0' <= c && c <= '9') || ('a' <= c && c <= 'z') || ('A' <= c && c <= 'Z')
        };
        if !ok {
            return false;
        }
        i = i + 1;
    }
    true
}

/// The record type that one mnemonic decodes to.
pub open spec fn decode_type_spec(s: Seq<char>) -> Option<u16> {
    if all_mnemonic_chars(s) {
        record_type_of(s)
    } else {
        None
    }
}

/// Decodes one record type mnemonic.
pub fn decode_type(s: &str) -> (r: Result<u16, DnsError>)
    ensures
        r is Ok <==> decode_type_spec(s@) is Some,
        r is Ok ==> r->Ok_0 == decode_type_spec(s@)->Some_0,
        r is Err ==> r->Err_0.kind == ErrorKind::InvalidRecordType,
{
    let code = if check_chars(s, false) {
        record_type_code(s)
    } else {
        None
    };
    match code {
        Some(c) => Ok(c),
        None => Err(DnsError::new(ErrorKind::InvalidRecordType, "Invalid record type".to_string())),
    }
}

/// The record types that the `--type` flag asks for, with the default of
/// AAAA then A.
pub open spec fn record_types_spec(flag: FlagValue) -> Option<Seq<u16>> {
    match flag {
        FlagValue::Absent => Some(seq![TYPE_AAAA, TYPE_A]),
        FlagValue::Str(s) => match decode_type_spec(s@) {
            Some(t) => Some(seq![t]),
            None => None,
        },
        FlagValue::List(items) => if forall|i: int|
            0 <= i < items@.len() ==> (#[trigger] decode_type_spec(items@[i]@)) is Some {
            Some(Seq::new(items@.len(), |i: int| decode_type_spec(items@[i]@)->Some_0))
        } else {
            None
        },
        FlagValue::Other => None,
    }
}

/// Resolves the `--type` flag.
pub fn record_types(flag: &FlagValue) -> (r: Result<Vec<u16>, DnsError>)
    ensures
        r is Ok <==> record_types_spec(*flag) is Some,
        r is Ok ==> r->Ok_0@ == record_types_spec(*flag)->Some_0,
        r is Err ==> r->Err_0.kind == ErrorKind::InvalidRecordType,
{
    match flag {
        FlagValue::Absent => Ok(vec![TYPE_AAAA, TYPE_A]),
        FlagValue::Str(s) => match decode_type(s.as_str()) {
            Ok(t) => Ok(vec![t]),
            Err(e) => Err(e),
        },
        FlagValue::List(items) => {
            let mut out: Vec<u16> = Vec::new();
            let mut i: usize = 0;
            while i < items.len()
                invariant
                    *flag == FlagValue::List(*items),
                    i <= items@.len(),
                    out@.len() == i,
                    forall|j: int|
                        0 <= j < i ==> (#[trigger] decode_type_spec(items@[j]@)) is Some
                            && out@[j] == decode_type_spec(items@[j]@)->Some_0,
                decreases items@.len() - i,
            {
                match decode_type(items[i].as_str()) {
                    Ok(t) => out.push(t),
                    Err(e) => {
                        assert(decode_type_spec(items@[i as int]@) is None);
                        return Err(e);
                    },
                }
                i = i + 1;
            }
            assert(out@ =~= Seq::new(items@.len(), |i: int| decode_type_spec(items@[i]@)->Some_0));
            Ok(out)
        },
        FlagValue::Other => Err(
            DnsError::new(ErrorKind::InvalidRecordType, "Invalid record type".to_string()),
        ),
    }
}

/// The class that the `--class` flag asks for, IN by default.
pub open spec fn class_spec(flag: FlagValue) -> Option<u16> {
    match flag {
        FlagValue::Absent => Some(CLASS_IN),
        FlagValue::Str(s) => if all_upper_chars(s@) {
            class_of(s@)
        } else {
            None
        },
        _ => None,
    }
}

/// Resolves the `--class` flag.
pub fn dns_class(flag: &FlagValue) -> (r: Result<u16, DnsError>)
    ensures
        r is Ok <==> class_spec(*flag) is Some,
        r is Ok ==> r->Ok_0 == class_spec(*flag)->Some_0,
        r is Err ==> r->Err_0.kind == ErrorKind::InvalidClass,
{
    let code = match flag {
        FlagValue::Absent => Some(CLASS_IN),
        FlagValue::Str(s) => if check_chars(s.as_str(), true) {
            class_code(s.as_str())
        } else {
            None
        },
        _ => None,
    };
    match code {
        Some(c) => Ok(c),
        None => Err(DnsError::new(ErrorKind::InvalidClass, "Invalid DNS class".to_string())),
    }
}

/// The DNSSEC mode that the `--dnssec` flag asks for, in any ASCII case;
/// opportunistic by default.
pub open spec fn dnssec_spec(flag: FlagValue) -> Option<DnssecMode> {
    match flag {
        FlagValue::Absent => Some(DnssecMode::Opportunistic),
        FlagValue::Str(s) => if eq_ignore_case(s@, "strict"@) {
            Some(DnssecMode::Strict)
        } else if eq_ignore_case(s@, "opportunistic"@) {
            Some(DnssecMode::Opportunistic)
        } else if eq_ignore_case(s@, "disabled"@) {
            Some(DnssecMode::Disabled)
        } else {
            None
        },
        _ => None,
    }
}

/// Resolves the `--dnssec` flag.
pub fn dnssec_mode(flag: &FlagValue) -> (r: Result<DnssecMode, DnsError>)
    ensures
        r is Ok <==> dnssec_spec(*flag) is Some,
        r is Ok ==> r->Ok_0 == dnssec_spec(*flag)->Some_0,
        r is Err ==> r->Err_0.kind == ErrorKind::InvalidDnssecMode,
{
    let mode = match flag {
        FlagValue::Absent => Some(DnssecMode::Opportunistic),
        FlagValue::Str(s) => if str_eq_ignore_case(s.as_str(), "strict") {
            Some(DnssecMode::Strict)
        } else if str_eq_ignore_case(s.as_str(), "opportunistic") {
            Some(DnssecMode::Opportunistic)
        } else if str_eq_ignore_case(s.as_str(), "disabled") {
            Some(DnssecMode::Disabled)
        } else {
            None
        },
        _ => None,
    };
    match mode {
        Some(m) => Ok(m),
        None => Err(DnsError::new(ErrorKind::InvalidDnssecMode, "Invalid DNSSEC mode".to_string())),
    }
}

/// The transport that the `--protocol` flag asks for, if any.
pub open spec fn protocol_spec(flag: FlagValue) -> Option<Option<Transport>> {
    match flag {
        FlagValue::Absent => Some(None),
        FlagValue::Str(s) => match transport_of(s@) {
            Some(t) => Some(Some(t)),
            None => None,
        },
        _ => None,
    }
}

/// Resolves the `--protocol` flag.
pub fn protocol_flag(flag: &FlagValue) -> (r: Result<Option<Transport>, DnsError>)
    ensures
        r is Ok <==> protocol_spec(*flag) is Some,
        r is Ok ==> r->Ok_0 == protocol_spec(*flag)->Some_0,
        r is Err ==> r->Err_0.kind == ErrorKind::InvalidProtocol,
{
    match flag {
        FlagValue::Absent => Ok(None),
        FlagValue::Str(s) => match parse_transport(s.as_str()) {
            Ok(t) => Ok(Some(t)),
            Err(e) => Err(e),
        },
        _ => Err(DnsError::new(ErrorKind::InvalidProtocol, "Invalid protocol".to_string())),
    }
}

} // verus!
