use vstd::prelude::*;
use crate::error::{DnsError, ErrorKind};
use crate::input::{InputValue, LabelItem};

verus! {

/// A label holds between 1 and 63 bytes.
pub open spec fn label_ok(l: Seq<u8>) -> bool {
    1 <= l.len() <= 63
}

/// Bytes of the encoded form without the root: one length byte per label
/// plus the label's bytes.
pub open spec fn encoded_len(labels: Seq<Seq<u8>>) -> int
    decreases labels.len(),
{
    if labels.len() == 0 {
        0
    } else {
        encoded_len(labels.drop_last()) + labels.last().len() + 1
    }
}

/// The label and length limits of a domain name.
pub open spec fn valid_labels(labels: Seq<Seq<u8>>) -> bool {
    &&& forall|i: int| 0 <= i < labels.len() ==> label_ok(#[trigger] labels[i])
    &&& encoded_len(labels) <= 255
}

/// The labels of a vector of byte labels.
pub open spec fn labels_of(v: Vec<Vec<u8>>) -> Seq<Seq<u8>> {
    v@.map_values(|l: Vec<u8>| l@)
}

/// What the DNS library makes of a dotted string, when it accepts it.
pub uninterp spec fn utf8_name(s: Seq<char>) -> Option<Seq<Seq<u8>>>;

/// Relies on trust_dns_proto's `Name::from_utf8`: it parses a dotted name
/// (escapes, IDNA) and every label it keeps passed the 1..=63 byte check and
/// the 255 byte name limit.
#[verifier::external_body]
fn name_from_utf8(s: &str) -> (r: Result<Vec<Vec<u8>>, String>)
    ensures
        r is Ok <==> utf8_name(s@) is Some,
        r is Ok ==> labels_of(r->Ok_0) == utf8_name(s@)->Some_0,
        r is Ok ==> valid_labels(labels_of(r->Ok_0)),
{
    trust_dns_proto::rr::Name::from_utf8(s)
        .map(|n| n.iter().map(|l| l.to_vec()).collect())
        .map_err(|e| e.to_string())
}

/// Relies on trust_dns_proto's `Name::from_labels` on raw byte labels: each
/// label must hold 1..=63 bytes and the name at most 255, and the labels are
/// kept as given.
#[verifier::external_body]
fn name_from_labels(labels: Vec<Vec<u8>>) -> (r: Result<Vec<Vec<u8>>, String>)
    ensures
        r is Ok <==> valid_labels(labels_of(labels)),
        r is Ok ==> labels_of(r->Ok_0) == labels_of(labels),
{
    trust_dns_proto::rr::Name::from_labels(labels)
        .map(|n| n.iter().map(|l| l.to_vec()).collect())
        .map_err(|e| e.to_string())
}

/// A domain name as its ordered labels.
#[derive(Clone, Debug)]
pub struct DomainName {
    pub labels: Vec<Vec<u8>>,
}

impl View for DomainName {
    type V = Seq<Seq<u8>>;

    open spec fn view(&self) -> Seq<Seq<u8>> {
        labels_of(self.labels)
    }
}

impl DomainName {
    pub open spec fn wf(&self) -> bool {
        valid_labels(self@)
    }
}

/// The binary labels of a label list, or `None` when any element is not
/// binary.
pub open spec fn binary_labels(items: Seq<LabelItem>) -> Option<Seq<Seq<u8>>>
    decreases items.len(),
{
    if items.len() == 0 {
        Some(Seq::empty())
    } else {
        match (binary_labels(items.drop_last()), items.last()) {
            (Some(ls), LabelItem::Binary(b)) => Some(ls.push(b@)),
            _ => None,
        }
    }
}

/// How a single name input is parsed: `Ok` with the labels, or `Err` with
/// the error kind.
pub open spec fn parse_name_spec(v: InputValue) -> Result<Seq<Seq<u8>>, ErrorKind> {
    match v {
        InputValue::Str(s) => match utf8_name(s@) {
            Some(ls) => Ok(ls),
            None => Err(ErrorKind::InvalidName),
        },
        InputValue::List(items) => match binary_labels(items@) {
            None => Err(ErrorKind::InvalidName),
            Some(ls) => if valid_labels(ls) {
                Ok(ls)
            } else {
                Err(ErrorKind::NameParse)
            },
        },
        _ => Err(ErrorKind::InvalidInputType),
    }
}

/// Collects the labels of a label list, if every element is binary.
fn collect_binary(items: &Vec<LabelItem>) -> (r: Option<Vec<Vec<u8>>>)
    ensures
        r is Some <==> binary_labels(items@) is Some,
        r is Some ==> labels_of(r->Some_0) == binary_labels(items@)->Some_0,
{
    let mut out: Vec<Vec<u8>> = Vec::new();
    let mut i: usize = 0;
    while i < items.len()
        invariant
            i <= items@.len(),
            binary_labels(items@.take(i as int)) is Some,
            labels_of(out) == binary_labels(items@.take(i as int))->Some_0,
        decreases items@.len() - i,
    {
        assert(items@.take(i as int + 1).drop_last() == items@.take(i as int));
        match &items[i] {
            LabelItem::Binary(b) => {
                let c = b.clone();
                assert(c@ =~= b@);
                assert(items@.take(i as int + 1).last() == items@[i as int]);
                out.push(c);
                assert(labels_of(out) =~= binary_labels(items@.take(i as int + 1))->Some_0);
            },
            LabelItem::Other => {
                proof {
                    lemma_binary_labels_prefix(items@, i as int + 1);
                }
                return None;
            },
        }
        i = i + 1;
    }
    assert(items@.take(i as int) == items@);
    Some(out)
}

/// Once a prefix holds a non-binary element, so does the whole list.
proof fn lemma_binary_labels_prefix(items: Seq<LabelItem>, k: int)
    requires
        0 <= k <= items.len(),
        binary_labels(items.take(k)) is None,
    ensures
        binary_labels(items) is None,
    decreases items.len() - k,
{
    if k < items.len() {
        assert(items.take(k + 1).drop_last() == items.take(k));
        lemma_binary_labels_prefix(items, k + 1);
    } else {
        assert(items.take(k) == items);
    }
}

/// Parses one name input: a dotted string or a list of binary labels.
pub fn parse_name(v: &InputValue) -> (r: Result<DomainName, DnsError>)
    ensures
        r is Ok <==> parse_name_spec(*v) is Ok,
        r is Ok ==> r->Ok_0@ == parse_name_spec(*v)->Ok_0 && r->Ok_0.wf(),
        r is Err ==> r->Err_0.kind == parse_name_spec(*v)->Err_0,
{
    match v {
        InputValue::Str(s) => match name_from_utf8(s.as_str()) {
            Ok(labels) => Ok(DomainName { labels }),
            Err(e) => Err(DnsError::new(ErrorKind::InvalidName, e)),
        },
        InputValue::List(items) => match collect_binary(items) {
            None => Err(DnsError::new(ErrorKind::InvalidName, "Invalid input type for name".to_string())),
            Some(raw) => match name_from_labels(raw) {
                Ok(labels) => Ok(DomainName { labels }),
                Err(e) => Err(DnsError::new(ErrorKind::NameParse, e)),
            },
        },
        _ => Err(DnsError::new(ErrorKind::InvalidInputType, "Invalid input type".to_string())),
    }
}

/// Parses every name input in order; the first failure fails the whole.
pub fn parse_names(vs: &Vec<InputValue>) -> (r: Result<Vec<DomainName>, DnsError>)
    ensures
        r is Ok <==> forall|i: int| 0 <= i < vs@.len() ==> (#[trigger] parse_name_spec(vs@[i])) is Ok,
        r is Ok ==> r->Ok_0@.len() == vs@.len() && forall|i: int|
            0 <= i < vs@.len() ==> (#[trigger] r->Ok_0@[i])@ == parse_name_spec(vs@[i])->Ok_0
                && r->Ok_0@[i].wf(),
        r is Err ==> exists|i: int|
            0 <= i < vs@.len() && (#[trigger] parse_name_spec(vs@[i])) is Err && r->Err_0.kind
                == parse_name_spec(vs@[i])->Err_0 && forall|j: int|
                0 <= j < i ==> (#[trigger] parse_name_spec(vs@[j])) is Ok,
{
    let mut out: Vec<DomainName> = Vec::new();
    let mut i: usize = 0;
    while i < vs.len()
        invariant
            i <= vs@.len(),
            out@.len() == i,
            forall|j: int| 0 <= j < i ==> (#[trigger] parse_name_spec(vs@[j])) is Ok,
            forall|j: int|
                0 <= j < i ==> (#[trigger] out@[j])@ == parse_name_spec(vs@[j])->Ok_0 && out@[j].wf(),
        decreases vs@.len() - i,
    {
        match parse_name(&vs[i]) {
            Ok(n) => out.push(n),
            Err(e) => return Err(e),
        }
        i = i + 1;
    }
    Ok(out)
}


/// The byte that separates labels in a dotted name.
pub const DOT: u8 = 46;

/// The labels joined with dots.
pub open spec fn join_dots(labels: Seq<Seq<u8>>) -> Seq<u8>
    decreases labels.len(),
{
    if labels.len() == 0 {
        Seq::empty()
    } else if labels.len() == 1 {
        labels[0]
    } else {
        labels[0] + seq![DOT] + join_dots(labels.drop_first())
    }
}

/// The pieces of a byte string between dots.
pub open spec fn split_dots(s: Seq<u8>) -> Seq<Seq<u8>>
    decreases s.len(),
{
    if s.len() == 0 {
        seq![Seq::empty()]
    } else {
        let rest = split_dots(s.drop_first());
        if s[0] == DOT {
            seq![Seq::<u8>::empty()] + rest
        } else {
            rest.update(0, seq![s[0]] + rest[0])
        }
    }
}

pub open spec fn dot_free(l: Seq<u8>) -> bool {
    forall|i: int| 0 <= i < l.len() ==> l[i] != DOT
}

proof fn lemma_split_nonempty(s: Seq<u8>)
    ensures
        split_dots(s).len() >= 1,
    decreases s.len(),
{
    if s.len() > 0 {
        lemma_split_nonempty(s.drop_first());
    }
}

/// A dot-free prefix joins the first piece of what follows it.
proof fn lemma_split_prefix(a: Seq<u8>, t: Seq<u8>)
    requires
        dot_free(a),
    ensures
        split_dots(a + t) == split_dots(t).update(0, a + split_dots(t)[0]),
    decreases a.len(),
{
    lemma_split_nonempty(t);
    if a.len() == 0 {
        assert(a + t == t);
        assert(a + split_dots(t)[0] == split_dots(t)[0]);
        assert(split_dots(t).update(0, split_dots(t)[0]) == split_dots(t));
    } else {
        let a2 = a.drop_first();
        assert(dot_free(a2));
        lemma_split_prefix(a2, t);
        assert((a + t).drop_first() == a2 + t);
        assert((a + t)[0] == a[0]);
        assert(seq![a[0]] + (a2 + split_dots(t)[0]) == a + split_dots(t)[0]);
        assert(split_dots(a + t) =~= split_dots(t).update(0, a + split_dots(t)[0]));
    }
}

/// The dotted form of a name with at least one label, none holding a dot,
/// splits on dots back into the same labels.
pub proof fn lemma_dotted_round_trip(labels: Seq<Seq<u8>>)
    requires
        labels.len() > 0,
        forall|i: int| 0 <= i < labels.len() ==> dot_free(#[trigger] labels[i]),
    ensures
        split_dots(join_dots(labels)) == labels,
    decreases labels.len(),
{
    let l0 = labels[0];
    assert(dot_free(l0));
    if labels.len() == 1 {
        lemma_split_prefix(l0, Seq::empty());
        assert(l0 + Seq::<u8>::empty() == l0);
        assert(split_dots(join_dots(labels)) =~= labels);
    } else {
        let rest = labels.drop_first();
        assert forall|i: int| 0 <= i < rest.len() implies dot_free(#[trigger] rest[i]) by {
            assert(rest[i] == labels[i + 1]);
        }
        lemma_dotted_round_trip(rest);
        let tail = seq![DOT] + join_dots(rest);
        assert(join_dots(labels) == l0 + tail);
        lemma_split_prefix(l0, tail);
        assert(tail.drop_first() == join_dots(rest));
        assert(split_dots(tail) == seq![Seq::<u8>::empty()] + rest);
        assert(l0 + Seq::<u8>::empty() == l0);
        assert(split_dots(join_dots(labels)) =~= labels);
    }
}

impl DomainName {
    /// The name's labels joined with dots.
    pub fn dotted(&self) -> (r: Vec<u8>)
        ensures
            r@ == join_dots(self@),
    {
        let n = self.labels.len();
        let mut out: Vec<u8> = Vec::new();
        if n == 0 {
            return out;
        }
        let mut i: usize = n;
        while i > 0
            invariant
                0 <= i <= n,
                n == self@.len(),
                n > 0,
                i < n ==> out@ == join_dots(self@.skip(i as int)),
                i == n ==> out@.len() == 0,
            decreases i,
        {
            i = i - 1;
            let ghost prev = out@;
            let mut piece = self.labels[i].clone();
            assert(piece@ == self@[i as int]);
            if i + 1 < n {
                piece.push(DOT);
                piece.append(&mut out);
            }
            out = piece;
            proof {
                let s = self@.skip(i as int);
                assert(s[0] == self@[i as int]);
                assert(s.drop_first() == self@.skip(i as int + 1));
                if i + 1 < n {
                    assert(out@ =~= s[0] + seq![DOT] + join_dots(s.drop_first()));
                } else {
                    assert(s.len() == 1);
                }
            }
        }
        assert(self@.skip(0) == self@);
        out
    }
}

} // verus!
