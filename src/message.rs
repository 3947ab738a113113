use vstd::prelude::*;

verus! {

/// A scalar of a serialized message.
#[derive(Clone, Debug)]
pub enum Scalar {
    Bool(bool),
    Int(u64),
    Text(String),
}

/// The mathematical form of a `Scalar`.
pub enum ScalarView {
    Bool(bool),
    Int(u64),
    Text(Seq<char>),
}

impl View for Scalar {
    type V = ScalarView;

    open spec fn view(&self) -> ScalarView {
        match self {
            Scalar::Bool(b) => ScalarView::Bool(*b),
            Scalar::Int(n) => ScalarView::Int(*n),
            Scalar::Text(s) => ScalarView::Text(s@),
        }
    }
}

/// A named field of a serialized message.
#[derive(Clone, Debug)]
pub struct Field {
    pub key: String,
    pub value: Scalar,
}

impl View for Field {
    type V = (Seq<char>, ScalarView);

    open spec fn view(&self) -> (Seq<char>, ScalarView) {
        (self.key@, self.value@)
    }
}

/// The header of a response: its id, kind, codes and flags.
#[derive(Clone, Debug)]
pub struct Header {
    pub id: u16,
    pub message_type: String,
    pub op_code: String,
    pub response_code: String,
    pub authoritative: bool,
    pub truncated: bool,
    pub recursion_desired: bool,
    pub recursion_available: bool,
    pub authentic_data: bool,
    pub checking_disabled: bool,
}

/// One entry of the question section.
#[derive(Clone, Debug)]
pub struct Question {
    pub name: String,
    pub qtype: String,
    pub class: String,
}

/// One resource record, with its record-specific data in display form.
#[derive(Clone, Debug)]
pub struct ResourceRecord {
    pub name: String,
    pub class: String,
    pub rtype: String,
    pub ttl: u32,
    pub data: String,
}

/// A response message, section by section.
#[derive(Clone, Debug)]
pub struct Message {
    pub header: Header,
    pub queries: Vec<Question>,
    pub answers: Vec<ResourceRecord>,
    pub name_servers: Vec<ResourceRecord>,
    pub additionals: Vec<ResourceRecord>,
}

/// A message serialized into named fields: the header, then one list of
/// fields per question or record of each section.
#[derive(Clone, Debug)]
pub struct SerializedMessage {
    pub header: Vec<Field>,
    pub questions: Vec<Vec<Field>>,
    pub answers: Vec<Vec<Field>>,
    pub authority: Vec<Vec<Field>>,
    pub additional: Vec<Vec<Field>>,
}

pub open spec fn fields_of(v: Vec<Field>) -> Seq<(Seq<char>, ScalarView)> {
    v@.map_values(|f: Field| f@)
}

pub open spec fn rows_of(v: Vec<Vec<Field>>) -> Seq<Seq<(Seq<char>, ScalarView)>> {
    v@.map_values(|row: Vec<Field>| fields_of(row))
}

pub open spec fn text(key: Seq<char>, s: String) -> (Seq<char>, ScalarView) {
    (key, ScalarView::Text(s@))
}

pub open spec fn flag(key: Seq<char>, b: bool) -> (Seq<char>, ScalarView) {
    (key, ScalarView::Bool(b))
}

pub open spec fn header_fields(h: Header) -> Seq<(Seq<char>, ScalarView)> {
    seq![
        ("id"@, ScalarView::Int(h.id as u64)),
        text("message_type"@, h.message_type),
        text("op_code"@, h.op_code),
        text("response_code"@, h.response_code),
        flag("authoritative"@, h.authoritative),
        flag("truncated"@, h.truncated),
        flag("recursion_desired"@, h.recursion_desired),
        flag("recursion_available"@, h.recursion_available),
        flag("authentic_data"@, h.authentic_data),
        flag("checking_disabled"@, h.checking_disabled),
    ]
}

pub open spec fn question_fields(q: Question) -> Seq<(Seq<char>, ScalarView)> {
    seq![text("name"@, q.name), text("type"@, q.qtype), text("class"@, q.class)]
}

/// A record's fields: name, class, type, TTL and data, each by name.
pub open spec fn record_fields(r: ResourceRecord) -> Seq<(Seq<char>, ScalarView)> {
    seq![
        text("name"@, r.name),
        text("class"@, r.class),
        text("type"@, r.rtype),
        ("ttl"@, ScalarView::Int(r.ttl as u64)),
        text("data"@, r.data),
    ]
}

fn text_field(key: &str, s: &String) -> (r: Field)
    ensures
        r@ == text(key@, *s),
{
    Field { key: key.to_string(), value: Scalar::Text(s.clone()) }
}

fn flag_field(key: &str, b: bool) -> (r: Field)
    ensures
        r@ == flag(key@, b),
{
    Field { key: key.to_string(), value: Scalar::Bool(b) }
}

fn int_field(key: &str, n: u64) -> (r: Field)
    ensures
        r@ == (key@, ScalarView::Int(n)),
{
    Field { key: key.to_string(), value: Scalar::Int(n) }
}

/// Serializes a header into its named fields.
pub fn serialize_header(h: &Header) -> (r: Vec<Field>)
    ensures
        fields_of(r) == header_fields(*h),
{
    let r = vec![
        int_field("id", h.id as u64),
        text_field("message_type", &h.message_type),
        text_field("op_code", &h.op_code),
        text_field("response_code", &h.response_code),
        flag_field("authoritative", h.authoritative),
        flag_field("truncated", h.truncated),
        flag_field("recursion_desired", h.recursion_desired),
        flag_field("recursion_available", h.recursion_available),
        flag_field("authentic_data", h.authentic_data),
        flag_field("checking_disabled", h.checking_disabled),
    ];
    proof {
        reveal_strlit("id");
        reveal_strlit("message_type");
        reveal_strlit("op_code");
        reveal_strlit("response_code");
        reveal_strlit("authoritative");
        reveal_strlit("truncated");
        reveal_strlit("recursion_desired");
        reveal_strlit("recursion_available");
        reveal_strlit("authentic_data");
        reveal_strlit("checking_disabled");
        assert(fields_of(r) =~= header_fields(*h));
    }
    r
}

/// Serializes one question into its named fields.
pub fn serialize_question(q: &Question) -> (r: Vec<Field>)
    ensures
        fields_of(r) == question_fields(*q),
{
    let r = vec![text_field("name", &q.name), text_field("type", &q.qtype), text_field("class", &q.class)];
    proof {
        reveal_strlit("name");
        reveal_strlit("type");
        reveal_strlit("class");
        assert(fields_of(r) =~= question_fields(*q));
    }
    r
}

/// Serializes one resource record into its named fields.
pub fn serialize_record(rec: &ResourceRecord) -> (r: Vec<Field>)
    ensures
        fields_of(r) == record_fields(*rec),
{
    let r = vec![
        text_field("name", &rec.name),
        text_field("class", &rec.class),
        text_field("type", &rec.rtype),
        int_field("ttl", rec.ttl as u64),
        text_field("data", &rec.data),
    ];
    proof {
        reveal_strlit("name");
        reveal_strlit("class");
        reveal_strlit("type");
        reveal_strlit("ttl");
        reveal_strlit("data");
        assert(fields_of(r) =~= record_fields(*rec));
    }
    r
}

fn serialize_questions(qs: &Vec<Question>) -> (r: Vec<Vec<Field>>)
    ensures
        rows_of(r) == qs@.map_values(|q: Question| question_fields(q)),
{
    let mut out: Vec<Vec<Field>> = Vec::new();
    let mut i: usize = 0;
    while i < qs.len()
        invariant
            i <= qs@.len(),
            out@.len() == i,
            forall|j: int| 0 <= j < i ==> fields_of(#[trigger] out@[j]) == question_fields(qs@[j]),
        decreases qs@.len() - i,
    {
        out.push(serialize_question(&qs[i]));
        i = i + 1;
    }
    assert(rows_of(out) =~= qs@.map_values(|q: Question| question_fields(q)));
    out
}

fn serialize_records(rs: &Vec<ResourceRecord>) -> (r: Vec<Vec<Field>>)
    ensures
        rows_of(r) == rs@.map_values(|x: ResourceRecord| record_fields(x)),
{
    let mut out: Vec<Vec<Field>> = Vec::new();
    let mut i: usize = 0;
    while i < rs.len()
        invariant
            i <= rs@.len(),
            out@.len() == i,
            forall|j: int| 0 <= j < i ==> fields_of(#[trigger] out@[j]) == record_fields(rs@[j]),
        decreases rs@.len() - i,
    {
        out.push(serialize_record(&rs[i]));
        i = i + 1;
    }
    assert(rows_of(out) =~= rs@.map_values(|x: ResourceRecord| record_fields(x)));
    out
}

/// `s` is `m` serialized: every section in order, every entry with its
/// fields by name.
pub open spec fn serializes(m: Message, s: SerializedMessage) -> bool {
    &&& fields_of(s.header) == header_fields(m.header)
    &&& rows_of(s.questions) == m.queries@.map_values(|q: Question| question_fields(q))
    &&& rows_of(s.answers) == m.answers@.map_values(|x: ResourceRecord| record_fields(x))
    &&& rows_of(s.authority) == m.name_servers@.map_values(|x: ResourceRecord| record_fields(x))
    &&& rows_of(s.additional) == m.additionals@.map_values(|x: ResourceRecord| record_fields(x))
}

/// Serializes a whole message.
pub fn serialize_message(m: &Message) -> (r: SerializedMessage)
    ensures
        serializes(*m, r),
        fields_of(r.header) == header_fields(m.header),
        rows_of(r.questions) == m.queries@.map_values(|q: Question| question_fields(q)),
        rows_of(r.answers) == m.answers@.map_values(|x: ResourceRecord| record_fields(x)),
        rows_of(r.authority) == m.name_servers@.map_values(|x: ResourceRecord| record_fields(x)),
        rows_of(r.additional) == m.additionals@.map_values(|x: ResourceRecord| record_fields(x)),
{
    SerializedMessage {
        header: serialize_header(&m.header),
        questions: serialize_questions(&m.queries),
        answers: serialize_records(&m.answers),
        authority: serialize_records(&m.name_servers),
        additional: serialize_records(&m.additionals),
    }
}

} // verus!
