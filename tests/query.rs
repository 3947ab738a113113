use nu_dns::dispatch::{cross_product, gather, QueryKey};
use nu_dns::error::ErrorKind;
use nu_dns::input::{select_input, InputValue, LabelItem};
use nu_dns::message::{serialize_message, serialize_record, Header, Message, ResourceRecord, Scalar};
use nu_dns::name::parse_name;
use nu_dns::params::{dns_class, dnssec_mode, protocol_flag, record_types, DnssecMode, FlagValue};
use nu_dns::query::{Dns, QueryRequest};
use nu_dns::server::{default_nameserver, select_server, ServerFlag, ServerTarget, Transport};

fn request(positional: Vec<InputValue>, piped: InputValue) -> QueryRequest {
    QueryRequest {
        positional,
        piped,
        server: ServerFlag::Absent,
        protocol: FlagValue::Absent,
        rtype: FlagValue::Absent,
        class: FlagValue::Absent,
        dnssec: FlagValue::Absent,
    }
}

fn target(ip: &str, port: u16, transport: Transport) -> ServerTarget {
    ServerTarget { ip: ip.to_string(), port, transport }
}

fn labels(v: &[&str]) -> Vec<Vec<u8>> {
    v.iter().map(|l| l.as_bytes().to_vec()).collect()
}

fn record(name: &str, data: &str) -> ResourceRecord {
    ResourceRecord {
        name: name.to_string(),
        class: "IN".to_string(),
        rtype: "A".to_string(),
        ttl: 300,
        data: data.to_string(),
    }
}

fn message(id: u16, answers: Vec<ResourceRecord>) -> Message {
    Message {
        header: Header {
            id,
            message_type: "response".to_string(),
            op_code: "query".to_string(),
            response_code: "no error".to_string(),
            authoritative: false,
            truncated: false,
            recursion_desired: true,
            recursion_available: true,
            authentic_data: false,
            checking_disabled: false,
        },
        queries: vec![],
        answers,
        name_servers: vec![],
        additionals: vec![],
    }
}

#[test]
fn dotted_name_splits_into_labels() {
    let n = parse_name(&InputValue::Str("www.example.com".to_string())).unwrap();
    assert_eq!(n.labels, labels(&["www", "example", "com"]));
}

#[test]
fn dotted_name_is_case_folded_by_the_parser() {
    let n = parse_name(&InputValue::Str("Example.COM".to_string())).unwrap();
    assert_eq!(n.labels, labels(&["example", "com"]));
}

#[test]
fn malformed_dotted_name_is_invalid() {
    let e = parse_name(&InputValue::Str("bad name.com".to_string())).unwrap_err();
    assert_eq!(e.kind, ErrorKind::InvalidName);
}

#[test]
fn label_list_name_keeps_labels() {
    let v = InputValue::List(vec![
        LabelItem::Binary(b"bad chars".to_vec()),
        LabelItem::Binary(b"example".to_vec()),
    ]);
    let n = parse_name(&v).unwrap();
    assert_eq!(n.labels, labels(&["bad chars", "example"]));
}

#[test]
fn non_binary_label_is_invalid_name() {
    let v = InputValue::List(vec![LabelItem::Binary(b"a".to_vec()), LabelItem::Other]);
    assert_eq!(parse_name(&v).unwrap_err().kind, ErrorKind::InvalidName);
}

#[test]
fn overlong_label_is_parse_error() {
    let v = InputValue::List(vec![LabelItem::Binary(vec![b'a'; 64])]);
    assert_eq!(parse_name(&v).unwrap_err().kind, ErrorKind::NameParse);
    let ok = InputValue::List(vec![LabelItem::Binary(vec![b'a'; 63])]);
    assert!(parse_name(&ok).is_ok());
}

#[test]
fn empty_label_is_parse_error() {
    let v = InputValue::List(vec![LabelItem::Binary(vec![])]);
    assert_eq!(parse_name(&v).unwrap_err().kind, ErrorKind::NameParse);
}

#[test]
fn overlong_name_is_parse_error() {
    let v = InputValue::List((0..5).map(|_| LabelItem::Binary(vec![b'a'; 63])).collect());
    assert_eq!(parse_name(&v).unwrap_err().kind, ErrorKind::NameParse);
}

#[test]
fn other_input_kind_is_invalid_input_type() {
    assert_eq!(parse_name(&InputValue::Other).unwrap_err().kind, ErrorKind::InvalidInputType);
}

#[test]
fn positional_and_piped_are_ambiguous() {
    let e = select_input(vec![InputValue::Str("a.com".to_string())], InputValue::Str("b.com".to_string()))
        .unwrap_err();
    assert_eq!(e.kind, ErrorKind::AmbiguousInput);
    assert_eq!(e.kind.label(), "AmbiguousInputError");
}

#[test]
fn piped_alone_is_the_single_input() {
    let v = select_input(vec![], InputValue::Str("b.com".to_string())).unwrap();
    assert_eq!(v.len(), 1);
    assert!(matches!(&v[0], InputValue::Str(s) if s == "b.com"));
}

#[test]
fn nothing_piped_uses_positional() {
    let v = select_input(vec![], InputValue::Nothing).unwrap();
    assert!(v.is_empty());
    let v = select_input(
        vec![InputValue::Str("a.com".to_string()), InputValue::Str("a.com".to_string())],
        InputValue::Nothing,
    )
    .unwrap();
    assert_eq!(v.len(), 2);
}

#[test]
fn types_default_to_aaaa_then_a() {
    assert_eq!(record_types(&FlagValue::Absent).unwrap(), vec![28, 1]);
}

#[test]
fn types_decode_through_the_library() {
    assert_eq!(record_types(&FlagValue::Str("MX".to_string())).unwrap(), vec![15]);
    let list = FlagValue::List(vec!["A".to_string(), "AAAA".to_string(), "TXT".to_string()]);
    assert_eq!(record_types(&list).unwrap(), vec![1, 28, 16]);
}

#[test]
fn unknown_type_fails() {
    let e = record_types(&FlagValue::Str("BOGUS".to_string())).unwrap_err();
    assert_eq!(e.kind, ErrorKind::InvalidRecordType);
    let e = record_types(&FlagValue::Str("*x".to_string())).unwrap_err();
    assert_eq!(e.kind, ErrorKind::InvalidRecordType);
    let e = record_types(&FlagValue::List(vec!["A".to_string(), "NOPE".to_string()])).unwrap_err();
    assert_eq!(e.kind, ErrorKind::InvalidRecordType);
}

#[test]
fn class_defaults_to_in_and_decodes() {
    assert_eq!(dns_class(&FlagValue::Absent).unwrap(), 1);
    assert_eq!(dns_class(&FlagValue::Str("CH".to_string())).unwrap(), 3);
    assert_eq!(dns_class(&FlagValue::Str("ANY".to_string())).unwrap(), 255);
    assert_eq!(dns_class(&FlagValue::Str("XX".to_string())).unwrap_err().kind, ErrorKind::InvalidClass);
    assert_eq!(dns_class(&FlagValue::Str("in".to_string())).unwrap_err().kind, ErrorKind::InvalidClass);
}

#[test]
fn dnssec_defaults_to_opportunistic() {
    assert_eq!(dnssec_mode(&FlagValue::Absent).unwrap(), DnssecMode::Opportunistic);
    assert_eq!(dnssec_mode(&FlagValue::Str("Strict".to_string())).unwrap(), DnssecMode::Strict);
    assert_eq!(dnssec_mode(&FlagValue::Str("disabled".to_string())).unwrap(), DnssecMode::Disabled);
    let e = dnssec_mode(&FlagValue::Str("sometimes".to_string())).unwrap_err();
    assert_eq!(e.kind, ErrorKind::InvalidDnssecMode);
}

#[test]
fn protocol_flag_decodes() {
    assert_eq!(protocol_flag(&FlagValue::Absent).unwrap(), None);
    assert_eq!(protocol_flag(&FlagValue::Str("tcp".to_string())).unwrap(), Some(Transport::Tcp));
    assert_eq!(protocol_flag(&FlagValue::Str("HTTPS".to_string())).unwrap(), Some(Transport::Https));
    assert_eq!(protocol_flag(&FlagValue::Str("quic".to_string())).unwrap_err().kind, ErrorKind::InvalidProtocol);
}

#[test]
fn bare_server_uses_port_53_over_udp() {
    let flag = ServerFlag::Bare("203.0.113.5".to_string());
    let s = select_server(&flag, None, &vec![], default_nameserver()).unwrap();
    assert_eq!(s.ip, "203.0.113.5");
    assert_eq!(s.port, 53);
    assert_eq!(s.transport, Transport::Udp);
}

#[test]
fn server_with_port_and_tcp() {
    let flag = ServerFlag::WithPort("203.0.113.5".to_string(), 8053);
    let s = select_server(&flag, Some(Transport::Tcp), &vec![], default_nameserver()).unwrap();
    assert_eq!(s.ip, "203.0.113.5");
    assert_eq!(s.port, 8053);
    assert_eq!(s.transport, Transport::Tcp);
}

#[test]
fn unparsable_or_mistyped_server_fails() {
    let e = select_server(&ServerFlag::Unparsable("x".to_string()), None, &vec![], default_nameserver())
        .unwrap_err();
    assert_eq!(e.kind, ErrorKind::InvalidServerAddress);
    let e = select_server(&ServerFlag::NotAString, None, &vec![], default_nameserver()).unwrap_err();
    assert_eq!(e.kind, ErrorKind::InvalidServerAddressInput);
}

#[test]
fn builtin_default_nameserver() {
    let d = default_nameserver();
    assert_eq!(d.ip, "8.8.8.8");
    assert_eq!(d.port, 53);
    assert_eq!(d.transport, Transport::Udp);
}

#[test]
fn protocol_overrides_fallback_but_not_system() {
    let fallback = select_server(&ServerFlag::Absent, Some(Transport::Tcp), &vec![], default_nameserver()).unwrap();
    assert_eq!(fallback.ip, "8.8.8.8");
    assert_eq!(fallback.port, 53);
    assert_eq!(fallback.transport, Transport::Tcp);

    let system = vec![target("192.0.2.1", 53, Transport::Udp), target("192.0.2.2", 53, Transport::Tcp)];
    let s = select_server(&ServerFlag::Absent, Some(Transport::Tcp), &system, default_nameserver()).unwrap();
    assert_eq!(s.ip, "192.0.2.1");
    assert_eq!(s.transport, Transport::Udp);
}

#[test]
fn cross_product_is_name_major() {
    let q = cross_product(2, &vec![1, 28]);
    assert_eq!(
        q,
        vec![
            QueryKey { name: 0, rtype: 1 },
            QueryKey { name: 0, rtype: 28 },
            QueryKey { name: 1, rtype: 1 },
            QueryKey { name: 1, rtype: 28 },
        ]
    );
    assert!(cross_product(0, &vec![1]).is_empty());
    assert!(cross_product(3, &vec![]).is_empty());
}

#[test]
fn plan_two_names_two_types_in_order() {
    let mut req = request(
        vec![InputValue::Str("n1.example".to_string()), InputValue::Str("n2.example".to_string())],
        InputValue::Nothing,
    );
    req.rtype = FlagValue::List(vec!["A".to_string(), "AAAA".to_string()]);
    req.server = ServerFlag::Bare("203.0.113.5".to_string());
    let dns = Dns::new();
    let plan = dns.plan("dns query", req, &vec![]).unwrap();
    let keys = dns.queries(&plan);
    let asked: Vec<(Vec<u8>, u16)> =
        keys.iter().map(|k| (plan.names[k.name].labels[0].clone(), k.rtype)).collect();
    assert_eq!(
        asked,
        vec![(b"n1".to_vec(), 1), (b"n1".to_vec(), 28), (b"n2".to_vec(), 1), (b"n2".to_vec(), 28)]
    );
    let responses = (0..4u16).map(|i| Ok(message(i, vec![]))).collect();
    let out = dns.finish(plan.server.clone(), responses).unwrap();
    let ids: Vec<u64> = out
        .messages
        .iter()
        .map(|m| match &m.header[0].value {
            Scalar::Int(n) => *n,
            _ => panic!("id is not an integer"),
        })
        .collect();
    assert_eq!(ids, vec![0, 1, 2, 3]);
    assert_eq!(out.server.ip, "203.0.113.5");
}

#[test]
fn plan_defaults() {
    let dns = Dns::new();
    let plan = dns.plan("dns query", request(vec![InputValue::Str("a.example".to_string())], InputValue::Nothing), &vec![])
        .unwrap();
    assert_eq!(plan.types, vec![28, 1]);
    assert_eq!(plan.class, 1);
    assert_eq!(plan.dnssec, DnssecMode::Opportunistic);
    assert_eq!(plan.server.ip, "8.8.8.8");
    assert_eq!(plan.server.transport, Transport::Udp);
}

#[test]
fn plan_refuses_ambiguous_input() {
    let dns = Dns::new();
    let req = request(vec![InputValue::Str("a.example".to_string())], InputValue::Str("b.example".to_string()));
    assert_eq!(dns.plan("dns query", req, &vec![]).unwrap_err().kind, ErrorKind::AmbiguousInput);
}

#[test]
fn unknown_command_fails() {
    let dns = Dns::new();
    let req = request(vec![], InputValue::Nothing);
    assert_eq!(dns.plan("dns lookup", req, &vec![]).unwrap_err().kind, ErrorKind::NoSuchCommand);
}

#[test]
fn one_failed_query_fails_all() {
    let dns = Dns::new();
    let responses = vec![
        Ok(message(1, vec![])),
        Err("connection refused".to_string()),
        Ok(message(2, vec![])),
    ];
    let e = dns.finish(target("192.0.2.9", 53, Transport::Udp), responses).unwrap_err();
    assert_eq!(e.kind, ErrorKind::DnsResponse);
    assert_eq!(e.kind.label(), "DNSResponseError");
    let g: Result<Vec<u8>, _> = gather(vec![Err("timeout".to_string())]);
    assert!(g.is_err());
}

#[test]
fn record_serializes_with_named_fields() {
    let fields = serialize_record(&record("www.example.com.", "93.184.216.34"));
    let keys: Vec<&str> = fields.iter().map(|f| f.key.as_str()).collect();
    assert_eq!(keys, vec!["name", "class", "type", "ttl", "data"]);
    assert!(matches!(&fields[0].value, Scalar::Text(s) if s == "www.example.com."));
    assert!(matches!(&fields[1].value, Scalar::Text(s) if s == "IN"));
    assert!(matches!(&fields[2].value, Scalar::Text(s) if s == "A"));
    assert!(matches!(&fields[3].value, Scalar::Int(300)));
    assert!(matches!(&fields[4].value, Scalar::Text(s) if s == "93.184.216.34"));
}

#[test]
fn message_with_one_answer_serializes() {
    let m = serialize_message(&message(7, vec![record("a.example.", "192.0.2.7")]));
    assert_eq!(m.answers.len(), 1);
    assert_eq!(m.answers[0][3].key, "ttl");
    assert!(m.authority.is_empty() && m.additional.is_empty() && m.questions.is_empty());
    assert_eq!(m.header.len(), 10);
    assert_eq!(m.header[0].key, "id");
    assert!(matches!(&m.header[0].value, Scalar::Int(7)));
}

#[test]
fn dotted_form_splits_back_into_labels() {
    let n = parse_name(&InputValue::Str("www.example.com".to_string())).unwrap();
    let d = n.dotted();
    assert_eq!(d, b"www.example.com".to_vec());
    let back: Vec<Vec<u8>> = d.split(|b| *b == b'.').map(|p| p.to_vec()).collect();
    assert_eq!(back, n.labels);
}

#[test]
fn dotted_form_of_single_label_and_root() {
    let one = parse_name(&InputValue::List(vec![LabelItem::Binary(b"localhost".to_vec())])).unwrap();
    assert_eq!(one.dotted(), b"localhost".to_vec());
    let root = parse_name(&InputValue::List(vec![])).unwrap();
    assert!(root.labels.is_empty());
    assert!(root.dotted().is_empty());
}
