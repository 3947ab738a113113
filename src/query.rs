use vstd::prelude::*;
use crate::dispatch::{cross_entry, cross_product, gather, all_ok, QueryKey};
use crate::error::{DnsError, ErrorKind};
use crate::input::{select_input, InputValue};
use crate::message::{serializes, serialize_message, Message, SerializedMessage};
use crate::name::{parse_name_spec, parse_names, DomainName};
use crate::params::{
    dns_class, dnssec_mode, protocol_flag, record_types, class_spec, dnssec_spec, protocol_spec,
    record_types_spec, DnssecMode, FlagValue,
};
use crate::server::{default_server, str_eq, default_nameserver, select_server, select_server_spec, ServerFlag, ServerTarget, Transport};

verus! {

/// The one command this plugin answers.
pub open spec fn query_command() -> Seq<char> {
    "dns query"@
}

/// Everything a `dns query` invocation is given.
#[derive(Clone, Debug)]
pub struct QueryRequest {
    pub positional: Vec<InputValue>,
    pub piped: InputValue,
    pub server: ServerFlag,
    pub protocol: FlagValue,
    pub rtype: FlagValue,
    pub class: FlagValue,
    pub dnssec: FlagValue,
}

/// What a query invocation resolved to before any network work.
#[derive(Clone, Debug)]
pub struct QueryPlan {
    pub names: Vec<DomainName>,
    pub server: ServerTarget,
    pub types: Vec<u16>,
    pub class: u16,
    pub dnssec: DnssecMode,
}

/// The result of a query invocation: the nameserver used and the
/// serialized responses in query order.
#[derive(Clone, Debug)]
pub struct QueryOutput {
    pub server: ServerTarget,
    pub messages: Vec<SerializedMessage>,
}

/// The plugin's commands.
pub struct Dns {}

/// The inputs that name the domains: the pipe alone when it holds a value,
/// else the positional arguments.
pub open spec fn selected_inputs(req: QueryRequest) -> Seq<InputValue> {
    if req.piped is Nothing {
        req.positional@
    } else {
        seq![req.piped]
    }
}

pub open spec fn ambiguous(req: QueryRequest) -> bool {
    !(req.piped is Nothing) && req.positional@.len() > 0
}

pub open spec fn names_ok(req: QueryRequest) -> bool {
    forall|i: int|
        0 <= i < selected_inputs(req).len() ==> (#[trigger] parse_name_spec(selected_inputs(req)[i])) is Ok
}

/// The stages up to the choice of nameserver succeed on this request.
pub open spec fn server_stage_ok(req: QueryRequest, system: Seq<ServerTarget>) -> bool {
    &&& !ambiguous(req)
    &&& names_ok(req)
    &&& protocol_spec(req.protocol) is Some
    &&& select_server_spec(req.server, protocol_spec(req.protocol)->Some_0, system, default_server()) is Ok
}

/// Every stage of planning succeeds on this request.
pub open spec fn plan_ok(req: QueryRequest, system: Seq<ServerTarget>) -> bool {
    &&& server_stage_ok(req, system)
    &&& record_types_spec(req.rtype) is Some
    &&& class_spec(req.class) is Some
    &&& dnssec_spec(req.dnssec) is Some
}

impl Dns {
    pub fn new() -> (r: Dns) {
        Dns {  }
    }

    /// Resolves a `dns query` invocation into a plan: names, nameserver,
    /// record types, class and DNSSEC mode. `system` lists the host's
    /// configured nameservers.
    pub fn plan(&self, command: &str, req: QueryRequest, system: &Vec<ServerTarget>) -> (r: Result<
        QueryPlan,
        DnsError,
    >)
        ensures
            command@ != query_command() ==> r is Err && r->Err_0.kind == ErrorKind::NoSuchCommand,
            command@ == query_command() && ambiguous(req) ==> r is Err && r->Err_0.kind
                == ErrorKind::AmbiguousInput,
            r is Ok <==> command@ == query_command() && plan_ok(req, system@),
            command@ == query_command() && !ambiguous(req) && !names_ok(req) ==> r is Err && exists|i: int|
                0 <= i < selected_inputs(req).len() && r->Err_0.kind == (#[trigger] parse_name_spec(
                    selected_inputs(req)[i],
                ))->Err_0,
            command@ == query_command() && !ambiguous(req) && names_ok(req) && protocol_spec(
                req.protocol,
            ) is None ==> r is Err && r->Err_0.kind == ErrorKind::InvalidProtocol,
            command@ == query_command() && !ambiguous(req) && names_ok(req) && protocol_spec(
                req.protocol,
            ) is Some && select_server_spec(
                req.server,
                protocol_spec(req.protocol)->Some_0,
                system@,
                default_server(),
            ) is Err ==> r is Err && r->Err_0.kind == select_server_spec(
                req.server,
                protocol_spec(req.protocol)->Some_0,
                system@,
                default_server(),
            )->Err_0,
            command@ == query_command() && server_stage_ok(req, system@) && record_types_spec(req.rtype)
                is None ==> r is Err && r->Err_0.kind == ErrorKind::InvalidRecordType,
            command@ == query_command() && server_stage_ok(req, system@) && record_types_spec(req.rtype)
                is Some && class_spec(req.class) is None ==> r is Err && r->Err_0.kind
                == ErrorKind::InvalidClass,
            command@ == query_command() && server_stage_ok(req, system@) && record_types_spec(req.rtype)
                is Some && class_spec(req.class) is Some && dnssec_spec(req.dnssec) is None ==> r is Err
                && r->Err_0.kind == ErrorKind::InvalidDnssecMode,
            r is Ok ==> {
                &&& r->Ok_0.server@ == select_server_spec(
                    req.server,
                    protocol_spec(req.protocol)->Some_0,
                    system@,
                    default_server(),
                )->Ok_0
                &&& r->Ok_0.names@.len() == selected_inputs(req).len()
                &&& forall|i: int|
                    0 <= i < r->Ok_0.names@.len() ==> (#[trigger] r->Ok_0.names@[i])@
                        == parse_name_spec(selected_inputs(req)[i])->Ok_0 && r->Ok_0.names@[i].wf()
                &&& r->Ok_0.types@ == record_types_spec(req.rtype)->Some_0
                &&& r->Ok_0.class == class_spec(req.class)->Some_0
                &&& r->Ok_0.dnssec == dnssec_spec(req.dnssec)->Some_0
            },
    {
        proof {
            reveal_strlit("dns query");
        }
        if !str_eq(command, "dns query") {
            return Err(DnsError::new(ErrorKind::NoSuchCommand, "No such command".to_string()));
        }
        let ghost whole = req;
        let QueryRequest { positional, piped, server: server_flag, protocol, rtype, class, dnssec } = req;
        let inputs = match select_input(positional, piped) {
            Ok(v) => v,
            Err(e) => return Err(e),
        };
        assert(inputs@ == selected_inputs(whole));
        let names = match parse_names(&inputs) {
            Ok(v) => v,
            Err(e) => return Err(e),
        };
        let transport = match protocol_flag(&protocol) {
            Ok(p) => p,
            Err(e) => return Err(e),
        };
        let fallback = default_nameserver();
        let server = match select_server(&server_flag, transport, system, fallback) {
            Ok(s) => s,
            Err(e) => return Err(e),
        };
        let types = match record_types(&rtype) {
            Ok(t) => t,
            Err(e) => return Err(e),
        };
        let class = match dns_class(&class) {
            Ok(c) => c,
            Err(e) => return Err(e),
        };
        let dnssec = match dnssec_mode(&dnssec) {
            Ok(d) => d,
            Err(e) => return Err(e),
        };
        Ok(QueryPlan { names, server, types, class, dnssec })
    }

    /// The queries of a plan: every name with every record type, in
    /// name-major order.
    pub fn queries(&self, plan: &QueryPlan) -> (r: Vec<QueryKey>)
        requires
            plan.names@.len() * plan.types@.len() <= usize::MAX,
        ensures
            r@.len() == plan.names@.len() * plan.types@.len(),
            forall|i: int, j: int|
                0 <= i < plan.names@.len() && 0 <= j < plan.types@.len() ==> #[trigger] r@[i
                    * plan.types@.len() + j] == cross_entry(plan.types@, i, j),
    {
        cross_product(plan.names.len(), &plan.types)
    }

    /// Assembles the output from the responses to the queries, given in
    /// query order: all of them serialized in that order with the
    /// nameserver, or one response error when any query failed.
    pub fn finish(&self, server: ServerTarget, responses: Vec<Result<Message, String>>) -> (r: Result<
        QueryOutput,
        DnsError,
    >)
        ensures
            r is Ok <==> all_ok(responses@),
            r is Err ==> r->Err_0.kind == ErrorKind::DnsResponse,
            r is Ok ==> {
                &&& r->Ok_0.server@ == server@
                &&& r->Ok_0.messages@.len() == responses@.len()
                &&& forall|k: int|
                    0 <= k < responses@.len() ==> serializes(
                        responses@[k]->Ok_0,
                        #[trigger] r->Ok_0.messages@[k],
                    )
            },
    {
        let messages = match gather(responses) {
            Ok(m) => m,
            Err(e) => return Err(e),
        };
        let mut out: Vec<SerializedMessage> = Vec::new();
        let mut i: usize = 0;
        while i < messages.len()
            invariant
                i <= messages@.len(),
                out@.len() == i,
                messages@.len() == responses@.len(),
                forall|k: int| 0 <= k < responses@.len() ==> responses@[k] == Ok::<Message, String>(#[trigger] messages@[k]),
                forall|k: int| 0 <= k < i ==> serializes(messages@[k], #[trigger] out@[k]),
            decreases messages@.len() - i,
        {
            out.push(serialize_message(&messages[i]));
            i = i + 1;
        }
        Ok(QueryOutput { server, messages: out })
    }
}

} // verus!
